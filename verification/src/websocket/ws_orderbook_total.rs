use super::client::{
    answers, deliveries, handled, lemma_one_delivery_per_record, records, session_run,
    session_step, Action, ClientConfig, Event, SessionEvent, SessionState, WebSocketClient,
};
use super::handler::{Frame, MessageHandler};
use crate::constant::LS_WS_TR_TYPE_REGISTER;
use crate::json::{json_doc, json_object, json_rendering, json_text, JsonDoc};
use crate::zmq::command::{SocketCommand, SocketRequest};
use crate::zmq::publisher::{Attachment, ZmqPublisher};
use serde_json::Value;
use std::marker::PhantomData;
use vstd::prelude::*;
use vstd::string::StringExecFns;
use vstd::utf8::encode_utf8;

verus! {

/// What an order-book stream subscribes to, and where its records go.
#[derive(Debug, Clone, PartialEq, Eq)]
pub struct OrderbookHandlerConfig {
    /// The bearer token that the subscription request carries.
    pub token: String,
    /// The stream code of the market.
    pub tr_cd: String,
    /// The key of the instrument.
    pub tr_key: String,
    /// The endpoint at which the records are republished.
    pub zmq_endpoint: String,
    /// Whether each record is echoed to the console.
    pub print_console: bool,
    /// Whether each record is appended to a file.
    pub save_to_file: bool,
    /// The file that records are appended to.
    pub file_path: Option<String>,
}

impl Default for OrderbookHandlerConfig {
    /// The unified order book, republished at `tcp://0.0.0.0:5557`
    /// and echoed to the console, with no token and no instrument yet.
    fn default() -> (config: Self)
        ensures
            config.token@ == Seq::<char>::empty(),
            config.tr_cd@ == "UH1"@,
            config.tr_key@ == Seq::<char>::empty(),
            config.zmq_endpoint@ == "tcp://0.0.0.0:5557"@,
            config.print_console,
            !config.save_to_file,
            config.file_path is None,
    {
        OrderbookHandlerConfig {
            token: String::new(),
            tr_cd: "UH1".to_owned(),
            tr_key: String::new(),
            zmq_endpoint: "tcp://0.0.0.0:5557".to_owned(),
            print_console: true,
            save_to_file: false,
            file_path: None,
        }
    }
}

/// The request that subscribes to the stream `tr_cd` of the instrument
/// `tr_key` with the bearer token `token`: a header with the token and the
/// control code that registers a stream, and a body with the stream code and
/// the instrument's key.
pub open spec fn subscription_request(token: Seq<char>, tr_cd: Seq<char>, tr_key: Seq<char>) -> JsonDoc {
    JsonDoc::Object(
        Map::empty().insert(
            "header"@,
            JsonDoc::Object(
                Map::empty().insert("token"@, JsonDoc::Text(token)).insert(
                    "tr_type"@,
                    JsonDoc::Text(LS_WS_TR_TYPE_REGISTER@),
                ),
            ),
        ).insert(
            "body"@,
            JsonDoc::Object(
                Map::empty().insert("tr_cd"@, JsonDoc::Text(tr_cd)).insert(
                    "tr_key"@,
                    JsonDoc::Text(tr_key),
                ),
            ),
        ),
    )
}

/// The handler of an order-book stream.
pub struct OrderbookHandler {
    config: OrderbookHandlerConfig,
}

impl OrderbookHandler {
    /// The configuration that the handler was made with.
    pub closed spec fn spec_config(&self) -> OrderbookHandlerConfig {
        self.config
    }

    pub fn new(config: OrderbookHandlerConfig) -> (handler: Self)
        ensures
            handler.spec_config() == config,
    {
        Self { config }
    }

    pub fn config(&self) -> (config: &OrderbookHandlerConfig)
        ensures
            *config == self.spec_config(),
    {
        &self.config
    }

    /// The subscription request of this stream as a document.
    pub open spec fn subscription(&self) -> JsonDoc {
        subscription_request(
            self.spec_config().token@,
            self.spec_config().tr_cd@,
            self.spec_config().tr_key@,
        )
    }

    /// The subscription request of this stream: see [`subscription_request`].
    pub fn subscription_message(&self) -> (request: Value)
        ensures
            json_doc(request) == self.subscription(),
    {
        let mut header = serde_json::Map::new();
        header.insert("token".to_owned(), json_text(self.config.token.clone()));
        header.insert("tr_type".to_owned(), json_text(LS_WS_TR_TYPE_REGISTER.to_owned()));
        let mut body = serde_json::Map::new();
        body.insert("tr_cd".to_owned(), json_text(self.config.tr_cd.clone()));
        body.insert("tr_key".to_owned(), json_text(self.config.tr_key.clone()));
        let mut request = serde_json::Map::new();
        request.insert("header".to_owned(), json_object(header));
        request.insert("body".to_owned(), json_object(body));
        json_object(request)
    }
}

/// An order-book stream: the handler of the stream together with the
/// decoder of its records, which may be called on any payload.
#[verifier::reject_recursive_types(T)]
#[verifier::reject_recursive_types(D)]
pub struct OrderbookStream<T, D: Fn(&[u8]) -> Option<T>> {
    handler: OrderbookHandler,
    decoder: D,
    record: PhantomData<T>,
}

impl<T, D: Fn(&[u8]) -> Option<T>> OrderbookStream<T, D> {
    /// The decoder may be called on any payload.
    #[verifier::type_invariant]
    spec fn decoder_takes_any_payload(self) -> bool {
        forall|payload: &[u8]| call_requires(self.decoder, (payload,))
    }

    /// The handler of the stream.
    pub closed spec fn spec_handler(&self) -> OrderbookHandler {
        self.handler
    }

    /// The decoder of the stream's records.
    pub closed spec fn spec_decoder(&self) -> D {
        self.decoder
    }

    /// The stream of `handler` whose records `decoder` decodes.
    pub fn new(handler: OrderbookHandler, decoder: D) -> (stream: Self)
        requires
            forall|payload: &[u8]| call_requires(decoder, (payload,)),
        ensures
            stream.spec_handler() == handler,
            stream.spec_decoder() == decoder,
    {
        Self { handler, decoder, record: PhantomData }
    }
}

impl<T, D: Fn(&[u8]) -> Option<T>> MessageHandler for OrderbookStream<T, D> {
    type Message = T;

    /// The subscription request of the stream's handler.
    fn subscription_message(&self) -> (request: Value)
        ensures
            json_doc(request) == self.spec_handler().subscription(),
    {
        self.handler.subscription_message()
    }

    /// What the stream's decoder makes of the payload.
    fn decode(&self, payload: &[u8]) -> (record: Option<T>)
        ensures
            call_ensures(self.spec_decoder(), (payload,), record),
    {
        proof {
            use_type_invariant(self);
        }
        (self.decoder)(payload)
    }
}

/// One side effect of a record, for the caller to perform. A failure of one
/// is logged and keeps neither the others nor the stream from going on.
#[derive(Debug, Clone, PartialEq, Eq)]
pub enum SinkEffect {
    /// Print this text as a line on the console.
    Echo(String),
    /// Append this line to the file at this path, which is created if absent.
    Append { path: String, line: String },
    /// Perform this operation on the publisher's socket.
    Publish(SocketCommand),
}

/// A side effect as a mathematical value.
pub enum SinkStep {
    Echo(Seq<char>),
    Append { path: Seq<char>, line: Seq<char> },
    Publish(SocketRequest),
}

impl View for SinkEffect {
    type V = SinkStep;

    open spec fn view(&self) -> SinkStep {
        match *self {
            SinkEffect::Echo(text) => SinkStep::Echo(text@),
            SinkEffect::Append { path, line } => SinkStep::Append { path: path@, line: line@ },
            SinkEffect::Publish(command) => SinkStep::Publish(command@),
        }
    }
}

/// The side effects in a list, in order.
pub open spec fn steps(effects: Seq<SinkEffect>) -> Seq<SinkStep> {
    Seq::new(effects.len(), |i: int| effects[i]@)
}

/// What becomes of one record, shown as `shown` and serialized as
/// `serialized`: it is echoed if `echo` says so, then appended as a line to
/// the file `trace` if there is one, and then published, always and once.
pub open spec fn sink_steps(
    echo: bool,
    trace: Option<Seq<char>>,
    shown: Seq<char>,
    serialized: Seq<char>,
) -> Seq<SinkStep> {
    let echoed = if echo {
        seq![SinkStep::Echo(shown)]
    } else {
        Seq::empty()
    };
    let traced = match trace {
        Some(path) => seq![SinkStep::Append { path, line: shown + "\n"@ }],
        None => Seq::empty(),
    };
    echoed + traced + seq![
        SinkStep::Publish(SocketRequest::Send { payload: encode_utf8(serialized), flags: 0 }),
    ]
}

/// The bridge from an order-book stream to the fan-out bus: the publisher
/// that republishes the records, and the side effects of each record.
pub struct OrderbookBridge {
    echo: bool,
    trace: Option<String>,
    publisher: ZmqPublisher,
}

impl OrderbookBridge {
    /// Whether records are echoed to the console.
    pub closed spec fn spec_echo(&self) -> bool {
        self.echo
    }

    /// The file that records are appended to, if any.
    pub closed spec fn spec_trace(&self) -> Option<Seq<char>> {
        match self.trace {
            Some(path) => Some(path@),
            None => None,
        }
    }

    /// The publisher of the bridge.
    pub closed spec fn spec_publisher(&self) -> ZmqPublisher {
        self.publisher
    }

    /// The bridge that `config` describes. Its publisher accepts connections
    /// at the configured endpoint. Records are appended to a file only where
    /// that is switched on and a path is given.
    pub fn new(config: &OrderbookHandlerConfig) -> (bridge: Self)
        ensures
            bridge.spec_echo() == config.print_console,
            bridge.spec_trace() == (if config.save_to_file && config.file_path is Some {
                Some(config.file_path->0@)
            } else {
                None
            }),
            bridge.spec_publisher().spec_endpoint() == config.zmq_endpoint@,
            bridge.spec_publisher().spec_attachment() == Attachment::Bound,
    {
        let trace = if config.save_to_file {
            match &config.file_path {
                Some(path) => Some(path.clone()),
                None => None,
            }
        } else {
            None
        };
        Self {
            echo: config.print_console,
            trace,
            publisher: ZmqPublisher::bind(config.zmq_endpoint.as_str()),
        }
    }

    pub fn publisher(&self) -> (publisher: &ZmqPublisher)
        ensures
            *publisher == self.spec_publisher(),
    {
        &self.publisher
    }

    /// The side effects of one record, in the order in which they are
    /// attempted: see [`sink_steps`]. `shown` is the record as a reader sees
    /// it, `serialized` the record as it is republished.
    pub fn sink(&self, shown: &str, serialized: &str) -> (effects: Vec<SinkEffect>)
        ensures
            steps(effects@) == sink_steps(self.spec_echo(), self.spec_trace(), shown@, serialized@),
    {
        let mut effects = Vec::new();
        if self.echo {
            effects.push(SinkEffect::Echo(shown.to_owned()));
        }
        match &self.trace {
            Some(path) => {
                let line = shown.to_owned().concat("\n");
                effects.push(SinkEffect::Append { path: path.clone(), line });
            },
            None => {},
        }
        effects.push(SinkEffect::Publish(self.publisher.send(serialized.as_bytes())));
        assert(steps(effects@) =~= sink_steps(
            self.spec_echo(),
            self.spec_trace(),
            shown@,
            serialized@,
        ));
        effects
    }
}

/// The client of the order-book stream that the two configurations describe,
/// with `decoder` for its records, and the bridge that republishes them.
pub fn orderbook_stream<T, D: Fn(&[u8]) -> Option<T>>(
    client_config: ClientConfig,
    handler_config: OrderbookHandlerConfig,
    decoder: D,
) -> (parts: (WebSocketClient<OrderbookStream<T, D>>, OrderbookBridge))
    requires
        forall|payload: &[u8]| call_requires(decoder, (payload,)),
    ensures
        parts.0.spec_config() == client_config,
        parts.0.spec_handler().spec_handler().spec_config() == handler_config,
        parts.0.spec_handler().spec_decoder() == decoder,
        parts.1.spec_echo() == handler_config.print_console,
        parts.1.spec_trace() == (if handler_config.save_to_file && handler_config.file_path is Some {
            Some(handler_config.file_path->0@)
        } else {
            None
        }),
        parts.1.spec_publisher().spec_endpoint() == handler_config.zmq_endpoint@,
        parts.1.spec_publisher().spec_attachment() == Attachment::Bound,
{
    let bridge = OrderbookBridge::new(&handler_config);
    let stream = OrderbookStream::new(OrderbookHandler::new(handler_config), decoder);
    (WebSocketClient::new(client_config, stream), bridge)
}

/// When the transport of a connecting order-book session has opened, the
/// session sends exactly the subscription request of its handler, as text,
/// and goes on to wait for it to be sent.
pub proof fn lemma_orderbook_session_subscribes<T, D: Fn(&[u8]) -> Option<T>>(
    stream: &OrderbookStream<T, D>,
    resolved: Event<T>,
)
    requires
        answers(stream, SessionState::Connecting, SessionEvent::Connected, resolved),
    ensures
        session_step(SessionState::Connecting, resolved) == (
            SessionState::Subscribing,
            Action::<T>::Send(Frame::Text(json_rendering(stream.spec_handler().subscription()))),
        ),
{
}

/// The payloads that a run of side effects publishes, in order.
pub open spec fn published(effects: Seq<SinkStep>) -> Seq<Seq<u8>>
    decreases effects.len(),
{
    if effects.len() == 0 {
        Seq::empty()
    } else {
        match effects.last() {
            SinkStep::Publish(SocketRequest::Send { payload, flags }) => published(
                effects.drop_last(),
            ).push(payload),
            _ => published(effects.drop_last()),
        }
    }
}

/// The side effects of a run of records, each record with the side effects of
/// [`sink_steps`], one record after the other.
pub open spec fn relayed<T>(
    echo: bool,
    trace: Option<Seq<char>>,
    delivered: Seq<T>,
    show: spec_fn(T) -> Seq<char>,
    serialize: spec_fn(T) -> Seq<char>,
) -> Seq<SinkStep>
    decreases delivered.len(),
{
    if delivered.len() == 0 {
        Seq::empty()
    } else {
        relayed(echo, trace, delivered.drop_last(), show, serialize) + sink_steps(
            echo,
            trace,
            show(delivered.last()),
            serialize(delivered.last()),
        )
    }
}

/// The side effects of `first` followed by those of `second` publish what
/// `first` publishes and then what `second` publishes.
pub proof fn lemma_published_concat(first: Seq<SinkStep>, second: Seq<SinkStep>)
    ensures
        published(first + second) == published(first) + published(second),
    decreases second.len(),
{
    if second.len() == 0 {
        assert(first + second =~= first);
        assert(published(first) + published(second) =~= published(first));
    } else {
        assert((first + second).drop_last() =~= first + second.drop_last());
        lemma_published_concat(first, second.drop_last());
        assert(published(first + second) =~= published(first) + published(second));
    }
}

/// Side effects among which none publishes publish nothing.
pub proof fn lemma_nothing_published(effects: Seq<SinkStep>)
    requires
        forall|i: int| 0 <= i < effects.len() ==> !(effects[i] is Publish),
    ensures
        published(effects).len() == 0,
    decreases effects.len(),
{
    if effects.len() > 0 {
        lemma_nothing_published(effects.drop_last());
    }
}

/// Each record is published exactly once, as its serialized bytes, whatever
/// else is done with it.
pub proof fn lemma_record_is_published_once(
    echo: bool,
    trace: Option<Seq<char>>,
    shown: Seq<char>,
    serialized: Seq<char>,
)
    ensures
        published(sink_steps(echo, trace, shown, serialized)) == seq![encode_utf8(serialized)],
{
    let sent = SinkStep::Publish(
        SocketRequest::Send { payload: encode_utf8(serialized), flags: 0 },
    );
    let steps = sink_steps(echo, trace, shown, serialized);
    let before = steps.drop_last();
    assert(steps.last() == sent);
    lemma_nothing_published(before);
    assert(published(steps) =~= seq![encode_utf8(serialized)]);
}

/// What is published for a streaming session is exactly the serialized form
/// of each record that was decoded from the frames that arrived before the
/// session ended: one message per record, in the order in which the frames
/// arrived.
pub proof fn lemma_one_publish_per_record<T>(
    events: Seq<Event<T>>,
    echo: bool,
    trace: Option<Seq<char>>,
    show: spec_fn(T) -> Seq<char>,
    serialize: spec_fn(T) -> Seq<char>,
)
    ensures
        published(
            relayed(
                echo,
                trace,
                deliveries(session_run(SessionState::Streaming, events).1),
                show,
                serialize,
            ),
        ) == records(handled(SessionState::Streaming, events)).map_values(
            |record: T| encode_utf8(serialize(record)),
        ),
{
    lemma_one_delivery_per_record(events);
    lemma_relay_publishes_each(
        echo,
        trace,
        records(handled(SessionState::Streaming, events)),
        show,
        serialize,
    );
}

/// A run of records is published record by record, in order.
pub proof fn lemma_relay_publishes_each<T>(
    echo: bool,
    trace: Option<Seq<char>>,
    delivered: Seq<T>,
    show: spec_fn(T) -> Seq<char>,
    serialize: spec_fn(T) -> Seq<char>,
)
    ensures
        published(relayed(echo, trace, delivered, show, serialize)) == delivered.map_values(
            |record: T| encode_utf8(serialize(record)),
        ),
    decreases delivered.len(),
{
    let bytes = |record: T| encode_utf8(serialize(record));
    if delivered.len() == 0 {
        assert(published(relayed(echo, trace, delivered, show, serialize)) =~= delivered.map_values(
            bytes,
        ));
    } else {
        let before = delivered.drop_last();
        lemma_relay_publishes_each(echo, trace, before, show, serialize);
        lemma_record_is_published_once(
            echo,
            trace,
            show(delivered.last()),
            serialize(delivered.last()),
        );
        lemma_published_concat(
            relayed(echo, trace, before, show, serialize),
            sink_steps(echo, trace, show(delivered.last()), serialize(delivered.last())),
        );
        assert(before.map_values(bytes).push(bytes(delivered.last())) =~= delivered.map_values(
            bytes,
        ));
        assert(before.map_values(bytes) + seq![bytes(delivered.last())] =~= before.map_values(
            bytes,
        ).push(bytes(delivered.last())));
    }
}

} // verus!
