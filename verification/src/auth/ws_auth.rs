use crate::config::AppConfig;
use crate::json::{json_doc, json_object, json_text, JsonDoc};
use crate::text::{decimal_u64, parse_u64};
use serde_json::Value;
use vstd::prelude::*;
use vstd::string::StringExecFns;

verus! {

/// The content type of a request for a streaming approval key.
pub const APPROVAL_CONTENT_TYPE: &'static str = "application/json; charset=UTF-8";

/// What an error about a refused approval key begins with.
pub const APPROVAL_FAILURE: &'static str = "KIS ApprovalKey 발급 실패: ";

/// The answer of the token service to a request for a streaming approval key.
#[derive(Debug, Clone, PartialEq, Eq)]
pub struct ApprovalKeyResponse {
    pub approval_key: String,
}

/// The body of the request for an approval key, with the client's credentials.
pub open spec fn approval_body(app_key: Seq<char>, app_secret: Seq<char>) -> JsonDoc {
    JsonDoc::Object(
        Map::empty().insert("grant_type"@, JsonDoc::Text("client_credentials"@)).insert(
            "appkey"@,
            JsonDoc::Text(app_key),
        ).insert("secretkey"@, JsonDoc::Text(app_secret)),
    )
}

/// The request for a streaming approval key: the address it is posted to,
/// and its body.
pub fn approval_request(config: &AppConfig) -> (request: (String, Value))
    ensures
        request.0@ == config.token_url@ + "/oauth2/token"@,
        json_doc(request.1) == approval_body(config.app_key@, config.app_secret@),
{
    let mut body = serde_json::Map::new();
    body.insert("grant_type".to_owned(), json_text("client_credentials".to_owned()));
    body.insert("appkey".to_owned(), json_text(config.app_key.clone()));
    body.insert("secretkey".to_owned(), json_text(config.app_secret.clone()));
    (config.token_url.clone().concat("/oauth2/token"), json_object(body))
}

/// What the answer of the token service amounts to: the approval key where
/// the answer held one, and else an error that quotes the answer's text.
pub fn approval_key(parsed: Option<ApprovalKeyResponse>, text: &str) -> (key: Result<String, String>)
    ensures
        parsed matches Some(response) ==> key == Ok::<String, String>(response.approval_key),
        parsed is None ==> (key matches Err(message) && message@ == APPROVAL_FAILURE@ + text@),
{
    match parsed {
        Some(response) => Ok(response.approval_key),
        None => Err(APPROVAL_FAILURE.to_owned().concat(text)),
    }
}

/// Whether a new token may be requested at `now`, when the last request was
/// made at `last_request`, if any is on record: at least `min_interval_secs`
/// seconds must lie between the two. All three count seconds from the same
/// start.
pub fn can_request_token(last_request: Option<u64>, now: u64, min_interval_secs: u64) -> (allowed: bool)
    requires
        last_request matches Some(last) ==> last <= now,
    ensures
        allowed == (last_request matches Some(last) ==> now - last >= min_interval_secs),
{
    match last_request {
        Some(last) => now - last >= min_interval_secs,
        None => true,
    }
}

/// What the record of the last request says of a new request at `now`.
///
/// The record is the text that was written at the last request, if any is
/// left: the seconds at which it was made. Without a record, or with one that
/// is no number, a request is allowed. `None` where the record lies after
/// `now`, so that no interval can be taken.
pub open spec fn request_allowed(recorded: Option<Seq<char>>, now: u64, min_interval_secs: u64) -> Option<bool> {
    match recorded {
        Some(text) => match decimal_u64(text) {
            Some(last) => if last <= now {
                Some(now - last >= min_interval_secs)
            } else {
                None
            },
            None => Some(true),
        },
        None => Some(true),
    }
}

/// Reads the record of the last request and decides whether a new one may
/// be made at `now`: see [`request_allowed`].
pub fn check_request_interval(recorded: Option<&str>, now: u64, min_interval_secs: u64) -> (allowed: Option<bool>)
    ensures
        allowed == request_allowed(text_view(recorded), now, min_interval_secs),
{
    let last_request = match recorded {
        Some(text) => parse_u64(text),
        None => None,
    };
    match last_request {
        Some(last) => if last <= now {
            Some(can_request_token(last_request, now, min_interval_secs))
        } else {
            None
        },
        None => Some(can_request_token(last_request, now, min_interval_secs)),
    }
}

/// The text behind a reference.
pub open spec fn text_view(text: Option<&str>) -> Option<Seq<char>> {
    match text {
        Some(t) => Some(t@),
        None => None,
    }
}

} // verus!
