use crate::config::AppConfig;
use crate::json::{
    json_as_str, json_doc, json_error_message, json_get, json_is_array, json_is_text, json_object,
    json_parse, json_parsed, json_render, json_rendering, json_text, member, JsonDoc,
};
use crate::text::{contains_text, text_contains, text_to_uppercase, uppercase};
use serde_json::Value;
use vstd::prelude::*;
use vstd::string::StringExecFns;

verus! {

/// One instrument of the stock list.
#[derive(Debug, Clone, PartialEq, Eq)]
pub struct StockItem {
    /// The name of the instrument.
    pub hname: String,
    /// Its short code.
    pub shcode: String,
    /// Its extended code.
    pub expcode: String,
    /// Whether it is an exchange-traded fund: `"1"` if so.
    pub etfchk: String,
    /// Whether it is listed on the alternative venue.
    pub nxt_chk: String,
    pub filler: String,
}

/// An instrument as a mathematical value.
pub struct Stock {
    pub hname: Seq<char>,
    pub shcode: Seq<char>,
    pub expcode: Seq<char>,
    pub etfchk: Seq<char>,
    pub nxt_chk: Seq<char>,
    pub filler: Seq<char>,
}

impl View for StockItem {
    type V = Stock;

    open spec fn view(&self) -> Stock {
        Stock {
            hname: self.hname@,
            shcode: self.shcode@,
            expcode: self.expcode@,
            etfchk: self.etfchk@,
            nxt_chk: self.nxt_chk@,
            filler: self.filler@,
        }
    }
}

/// The request for the stock list of one market.
#[derive(Debug, PartialEq, Eq)]
pub struct StockListRequest {
    pub url: String,
    pub content_type: String,
    pub authorization: String,
    pub tr_cd: String,
    pub tr_cont: String,
    pub tr_cont_key: String,
    pub body: Value,
}

/// The body of the request for the stock list of the market `gubun`.
pub open spec fn stock_list_body(gubun: Seq<char>) -> JsonDoc {
    JsonDoc::Object(
        Map::empty().insert(
            "t9945InBlock"@,
            JsonDoc::Object(Map::empty().insert("gubun"@, JsonDoc::Text(gubun))),
        ),
    )
}

/// The request that asks the service of `config` for the stock list of the
/// market `gubun`, as the transaction `tr_cd` and with the bearer token
/// `access_token`.
pub fn stock_list_request(config: &AppConfig, access_token: &str, tr_cd: &str, gubun: &str) -> (request: StockListRequest)
    ensures
        request.url@ == config.token_url@ + "/stock/market-data"@,
        request.content_type@ == "application/json; charset=utf-8"@,
        request.authorization@ == "Bearer "@ + access_token@,
        request.tr_cd@ == tr_cd@,
        request.tr_cont@ == "Y"@,
        request.tr_cont_key@ == Seq::<char>::empty(),
        json_doc(request.body) == stock_list_body(gubun@),
{
    let mut block = serde_json::Map::new();
    block.insert("gubun".to_owned(), json_text(gubun.to_owned()));
    let mut body = serde_json::Map::new();
    body.insert("t9945InBlock".to_owned(), json_object(block));
    StockListRequest {
        url: config.token_url.clone().concat("/stock/market-data"),
        content_type: "application/json; charset=utf-8".to_owned(),
        authorization: "Bearer ".to_owned().concat(access_token),
        tr_cd: tr_cd.to_owned(),
        tr_cont: "Y".to_owned(),
        tr_cont_key: String::new(),
        body: json_object(body),
    }
}

/// Why the answer of the service gives no stock list.
#[derive(Debug, Clone, PartialEq, Eq)]
pub enum StockListError {
    /// The answer is no JSON document; the text says why.
    Malformed(String),
    /// The service refused the request, with this message.
    Api(String),
}

/// What the service says of a request that it refused.
pub open spec fn refusal_message(doc: JsonDoc) -> Seq<char> {
    match member(doc, "rsp_msg"@) {
        Some(JsonDoc::Text(message)) => message,
        _ => "Unknown error"@,
    }
}

/// The error that an answer reports: there is one where the answer has a
/// response code other than the string `00000`, and it quotes the code as it
/// is written in the answer, and the message.
pub open spec fn api_error(doc: JsonDoc) -> Option<Seq<char>> {
    match member(doc, "rsp_cd"@) {
        Some(code) => if code == JsonDoc::Text("00000"@) {
            None
        } else {
            Some(
                "API Error rsp_cd: "@ + json_rendering(code) + ", rsp_msg: "@ + refusal_message(
                    doc,
                ),
            )
        },
        None => None,
    }
}

/// Reads the answer of the service: the document that it holds, unless it is
/// no document or reports an error.
pub fn read_response(text: &str) -> (answer: Result<Value, StockListError>)
    ensures
        json_parsed(text@) is None ==> answer matches Err(StockListError::Malformed(_)),
        json_parsed(text@) matches Some(doc) ==> match api_error(doc) {
            Some(message) => answer matches Err(StockListError::Api(said)) && said@ == message,
            None => answer matches Ok(value) && json_doc(value) == doc,
        },
{
    match json_parse(text) {
        Err(error) => Err(StockListError::Malformed(json_error_message(&error))),
        Ok(parsed) => {
            let refused = match json_get(&parsed, "rsp_cd") {
                Some(code) => if json_is_text(code, "00000") {
                    None
                } else {
                    let message = match json_get(&parsed, "rsp_msg") {
                        Some(said) => match json_as_str(said) {
                            Some(message) => message,
                            None => "Unknown error",
                        },
                        None => "Unknown error",
                    };
                    Some(
                        "API Error rsp_cd: ".to_owned().concat(json_render(code).as_str()).concat(
                            ", rsp_msg: ",
                        ).concat(message),
                    )
                },
                None => None,
            };
            match refused {
                Some(message) => Err(StockListError::Api(message)),
                None => Ok(parsed),
            }
        },
    }
}

/// The block of instruments in an answer: the member `t9945OutBlock` where
/// it is an array. Without it the list is empty.
pub fn stock_block(answer: &Value) -> (block: Option<&Value>)
    ensures
        block is Some <==> (member(json_doc(*answer), "t9945OutBlock"@) matches Some(found)
            && found is Array),
        block matches Some(found) ==> member(json_doc(*answer), "t9945OutBlock"@) == Some(
            json_doc(*found),
        ),
{
    match json_get(answer, "t9945OutBlock") {
        Some(found) => if json_is_array(found) {
            Some(found)
        } else {
            None
        },
        None => None,
    }
}

/// Whether a name is that of an exchange-traded note: whether `ETN` stands
/// in it, in whatever case.
pub open spec fn names_etn(name: Seq<char>) -> bool {
    contains_text(uppercase(name), "ETN"@)
}

/// Whether an instrument passes the two filters: its fund flag is `etfchk`
/// where one is asked for, and it is an exchange-traded note, or is none, as
/// `etn_filter` asks.
pub open spec fn passes(stock: Stock, etfchk: Option<Seq<char>>, etn_filter: Option<bool>) -> bool {
    &&& etfchk matches Some(wanted) ==> stock.etfchk == wanted
    &&& etn_filter matches Some(only) ==> names_etn(stock.hname) == only
}

/// An instrument as it is kept under its short code: with the code taken out.
pub open spec fn keyed(stock: Stock) -> Stock {
    Stock { shcode: Seq::empty(), ..stock }
}

/// The instruments of a list that pass the filters, each under its short
/// code; of two with the same code the later one stays.
pub open spec fn selected(items: Seq<StockItem>, etfchk: Option<Seq<char>>, etn_filter: Option<bool>) -> Map<Seq<char>, Stock>
    decreases items.len(),
{
    if items.len() == 0 {
        Map::empty()
    } else {
        let before = selected(items.drop_last(), etfchk, etn_filter);
        if passes(items.last()@, etfchk, etn_filter) {
            before.insert(items.last().shcode@, keyed(items.last()@))
        } else {
            before
        }
    }
}

/// Whether no code stands twice in a list of entries.
pub open spec fn distinct_codes(entries: Seq<(String, StockItem)>) -> bool {
    forall|i: int, j: int|
        0 <= i < j < entries.len() ==> (#[trigger] entries[i]).0@ != (#[trigger] entries[j]).0@
}

/// Whether a code stands in a list of entries.
pub open spec fn has_code(entries: Seq<(String, StockItem)>, code: Seq<char>) -> bool {
    exists|i: int| 0 <= i < entries.len() && (#[trigger] entries[i]).0@ == code
}

/// The entries of a list as a map from each code to its instrument.
pub open spec fn stock_map(entries: Seq<(String, StockItem)>) -> Map<Seq<char>, Stock> {
    Map::new(
        |code: Seq<char>| has_code(entries, code),
        |code: Seq<char>|
            entries[choose|i: int| 0 <= i < entries.len() && (#[trigger] entries[i]).0@ == code].1@,
    )
}

/// Whether an instrument passes the two filters: see [`passes`].
pub fn passes_filters(item: &StockItem, etfchk: Option<&str>, etn_filter: Option<bool>) -> (pass: bool)
    ensures
        pass == passes(item@, text_of(etfchk), etn_filter),
{
    let fund = match etfchk {
        Some(wanted) => item.etfchk == wanted.to_owned(),
        None => true,
    };
    let note = match etn_filter {
        Some(only) => {
            let upper = text_to_uppercase(item.hname.as_str());
            text_contains(upper.as_str(), "ETN") == only
        },
        None => true,
    };
    fund && note
}

/// The text behind a reference.
pub open spec fn text_of(text: Option<&str>) -> Option<Seq<char>> {
    match text {
        Some(t) => Some(t@),
        None => None,
    }
}

/// Where a code stands in a list of entries, if it stands there.
fn position(entries: &Vec<(String, StockItem)>, code: &String) -> (found: Option<usize>)
    ensures
        found matches Some(at) ==> at < entries.len() && entries[at as int].0@ == code@,
        found is None ==> !has_code(entries@, code@),
{
    let mut at: usize = 0;
    while at < entries.len()
        invariant
            at <= entries.len(),
            forall|i: int| 0 <= i < at ==> (#[trigger] entries[i]).0@ != code@,
        decreases entries.len() - at,
    {
        if entries[at].0 == *code {
            return Some(at);
        }
        at += 1;
    }
    None
}

/// The instruments of `items` that pass the filters, each with its short
/// code in front and taken out of the instrument itself. No code stands
/// twice: of two instruments with the same code the later one stays.
pub fn select_stocks(items: &Vec<StockItem>, etfchk: Option<&str>, etn_filter: Option<bool>) -> (entries: Vec<(String, StockItem)>)
    ensures
        distinct_codes(entries@),
        stock_map(entries@) == selected(items@, text_of(etfchk), etn_filter),
{
    let mut entries: Vec<(String, StockItem)> = Vec::new();
    let mut next: usize = 0;
    proof {
        assert(stock_map(entries@) =~= Map::empty());
        assert(items@.take(0) =~= Seq::empty());
    }
    while next < items.len()
        invariant
            next <= items.len(),
            distinct_codes(entries@),
            stock_map(entries@) == selected(items@.take(next as int), text_of(etfchk), etn_filter),
        decreases items.len() - next,
    {
        let item = &items[next];
        proof {
            assert(items@.take(next + 1).drop_last() =~= items@.take(next as int));
            assert(items@.take(next + 1).last() == items@[next as int]);
        }
        if passes_filters(item, etfchk, etn_filter) {
            let code = item.shcode.clone();
            let kept = StockItem {
                hname: item.hname.clone(),
                shcode: String::new(),
                expcode: item.expcode.clone(),
                etfchk: item.etfchk.clone(),
                nxt_chk: item.nxt_chk.clone(),
                filler: item.filler.clone(),
            };
            assert(kept@ == keyed(item@));
            let ghost before = entries@;
            match position(&entries, &code) {
                Some(at) => {
                    entries[at] = (code, kept);
                    proof {
                        lemma_replace_entry(before, at as int, entries@[at as int]);
                    }
                },
                None => {
                    entries.push((code, kept));
                    proof {
                        lemma_push_entry(before, entries@.last());
                    }
                },
            }
        }
        next += 1;
    }
    proof {
        assert(items@.take(items.len() as int) =~= items@);
    }
    entries
}

/// Among entries with distinct codes, a code stands at one place only.
proof fn lemma_code_stands_once(entries: Seq<(String, StockItem)>, at: int)
    requires
        distinct_codes(entries),
        0 <= at < entries.len(),
    ensures
        has_code(entries, entries[at].0@),
        stock_map(entries)[entries[at].0@] == entries[at].1@,
{
    let code = entries[at].0@;
    let chosen = choose|i: int| 0 <= i < entries.len() && (#[trigger] entries[i]).0@ == code;
    if chosen < at {
        assert(entries[chosen].0@ != entries[at].0@);
    } else if at < chosen {
        assert(entries[at].0@ != entries[chosen].0@);
    }
}

/// A new entry with a new code adds its instrument to the map under that code.
proof fn lemma_push_entry(entries: Seq<(String, StockItem)>, entry: (String, StockItem))
    requires
        distinct_codes(entries),
        !has_code(entries, entry.0@),
    ensures
        distinct_codes(entries.push(entry)),
        stock_map(entries.push(entry)) == stock_map(entries).insert(entry.0@, entry.1@),
{
    let more = entries.push(entry);
    assert forall|i: int, j: int| 0 <= i < j < more.len() implies (#[trigger] more[i]).0@ != (
    #[trigger] more[j]).0@ by {
        if j == entries.len() {
            assert(entries[i].0@ != entry.0@);
        } else {
            assert(entries[i].0@ != entries[j].0@);
        }
    }
    assert forall|code: Seq<char>| has_code(more, code) <==> (has_code(entries, code) || code
        == entry.0@) by {
        if has_code(more, code) {
            let i = choose|i: int| 0 <= i < more.len() && (#[trigger] more[i]).0@ == code;
            if i < entries.len() {
                assert(entries[i].0@ == code);
            }
        }
        if has_code(entries, code) {
            let i = choose|i: int| 0 <= i < entries.len() && (#[trigger] entries[i]).0@ == code;
            assert(more[i].0@ == code);
        }
        if code == entry.0@ {
            assert(more[entries.len() as int].0@ == code);
        }
    }
    assert forall|code: Seq<char>| has_code(more, code) implies #[trigger] stock_map(more)[code]
        == stock_map(entries).insert(entry.0@, entry.1@)[code] by {
        let i = choose|i: int| 0 <= i < more.len() && (#[trigger] more[i]).0@ == code;
        lemma_code_stands_once(more, i);
        if i < entries.len() {
            assert(more[i] == entries[i]);
            lemma_code_stands_once(entries, i);
        }
    }
    assert(stock_map(more) =~= stock_map(entries).insert(entry.0@, entry.1@));
}

/// A new entry in the place of one with the same code puts its instrument
/// into the map under that code.
proof fn lemma_replace_entry(entries: Seq<(String, StockItem)>, at: int, entry: (String, StockItem))
    requires
        distinct_codes(entries),
        0 <= at < entries.len(),
        entries[at].0@ == entry.0@,
    ensures
        distinct_codes(entries.update(at, entry)),
        stock_map(entries.update(at, entry)) == stock_map(entries).insert(entry.0@, entry.1@),
{
    let changed = entries.update(at, entry);
    assert forall|i: int, j: int| 0 <= i < j < changed.len() implies (#[trigger] changed[i]).0@ != (
    #[trigger] changed[j]).0@ by {
        assert(changed[i].0@ == entries[i].0@);
        assert(changed[j].0@ == entries[j].0@);
        assert(entries[i].0@ != entries[j].0@);
    }
    assert forall|code: Seq<char>| has_code(changed, code) <==> has_code(entries, code) by {
        if has_code(changed, code) {
            let i = choose|i: int| 0 <= i < changed.len() && (#[trigger] changed[i]).0@ == code;
            assert(entries[i].0@ == code);
        }
        if has_code(entries, code) {
            let i = choose|i: int| 0 <= i < entries.len() && (#[trigger] entries[i]).0@ == code;
            assert(changed[i].0@ == code);
        }
    }
    assert(has_code(entries, entry.0@)) by {
        assert(entries[at].0@ == entry.0@);
    }
    assert forall|code: Seq<char>| has_code(changed, code) implies #[trigger] stock_map(
        changed,
    )[code] == stock_map(entries).insert(entry.0@, entry.1@)[code] by {
        let i = choose|i: int| 0 <= i < changed.len() && (#[trigger] changed[i]).0@ == code;
        lemma_code_stands_once(changed, i);
        if i != at {
            assert(changed[i] == entries[i]);
            lemma_code_stands_once(entries, i);
            assert(entries[i].0@ != entries[at].0@) by {
                if i < at {
                    assert(entries[i].0@ != entries[at].0@);
                } else {
                    assert(entries[at].0@ != entries[i].0@);
                }
            }
        }
    }
    assert(stock_map(changed) =~= stock_map(entries).insert(entry.0@, entry.1@));
}

} // verus!
