use std::time::Duration;

use serde_json::Value;
use xing_trading_rust::websocket::client::{
    advance, ClientConfig, FailureKind, SessionAction, SessionError, SessionEvent, SessionInput,
    SessionState, Termination, WebSocketClient,
};
use xing_trading_rust::websocket::handler::{
    MessageHandler, OutboundFrame, ParsedMessage, RawFrame,
};

/// Decodes a payload that is a decimal number, and nothing else.
struct NumberHandler;

impl MessageHandler for NumberHandler {
    type Message = u32;

    fn subscription_message(&self) -> Value {
        Value::String("numbers".to_string())
    }

    fn decode(&self, payload: &[u8]) -> Option<u32> {
        std::str::from_utf8(payload).ok()?.parse().ok()
    }
}

fn number_client() -> WebSocketClient<NumberHandler> {
    let config = ClientConfig {
        url: "wss://example.invalid/stream".to_string(),
        reconnect_interval: Duration::from_secs(0),
        max_reconnect_attempts: 3,
        ping_interval: Duration::from_secs(60),
    };
    WebSocketClient::new(config, NumberHandler)
}

/// A session of `number_client` that has connected and subscribed.
fn streaming(client: &WebSocketClient<NumberHandler>) -> SessionState {
    let (state, _) = client.start();
    let (state, _) = client.step(state, SessionEvent::Connected);
    let (state, _) = client.step(state, SessionEvent::Sent);
    assert_eq!(state, SessionState::Streaming);
    state
}

fn failure(kind: FailureKind, reason: &str) -> SessionAction<u32> {
    SessionAction::Finish(Err(SessionError { kind, reason: reason.to_string() }))
}

#[test]
fn session_starts_by_connecting_to_the_configured_address() {
    let client = number_client();
    let (state, action) = client.start();
    assert_eq!(state, SessionState::Connecting);
    assert_eq!(action, SessionAction::Connect("wss://example.invalid/stream".to_string()));
}

#[test]
fn session_subscribes_once_connected_and_streams_once_sent() {
    let client = number_client();
    let (state, _) = client.start();
    let (state, action) = client.step(state, SessionEvent::Connected);
    assert_eq!(state, SessionState::Subscribing);
    assert_eq!(action, SessionAction::Send(OutboundFrame::Text("\"numbers\"".to_string())));
    let (state, action) = client.step(state, SessionEvent::Sent);
    assert_eq!(state, SessionState::Streaming);
    assert_eq!(action, SessionAction::Idle);
}

#[test]
fn session_handles_record_garbage_ping_and_close() {
    let client = number_client();
    let mut state = streaming(&client);
    let mut delivered = Vec::new();
    let mut pongs = Vec::new();
    let mut finished = Vec::new();
    let frames = vec![
        RawFrame::Binary(b"42".to_vec()),
        RawFrame::Binary(vec![0xff, 0xfe]),
        RawFrame::Ping(vec![1, 2, 3]),
        RawFrame::Close,
    ];
    for frame in frames {
        let (next, action) = client.step(state, SessionEvent::Frame(frame));
        state = next;
        match action {
            SessionAction::Deliver(record) => delivered.push(record),
            SessionAction::Send(OutboundFrame::Pong(payload)) => pongs.push(payload),
            SessionAction::Finish(outcome) => finished.push(outcome),
            SessionAction::Idle => {}
            other => panic!("unexpected action {:?}", other),
        }
    }
    assert_eq!(delivered, vec![42]);
    assert_eq!(pongs, vec![vec![1, 2, 3]]);
    assert_eq!(finished, vec![Ok(())]);
    assert_eq!(state, SessionState::Terminated(Termination::Clean));
}

#[test]
fn undecodable_frame_keeps_the_session_streaming() {
    let client = number_client();
    let state = streaming(&client);
    let garbage = SessionEvent::Frame(RawFrame::Binary(b"{not json".to_vec()));
    let (state, action) = client.step(state, garbage);
    assert_eq!(state, SessionState::Streaming);
    assert_eq!(action, SessionAction::Idle);
    let (state, action) = client.step(state, SessionEvent::Frame(RawFrame::Binary(b"7".to_vec())));
    assert_eq!(state, SessionState::Streaming);
    assert_eq!(action, SessionAction::Deliver(7));
}

#[test]
fn text_frame_is_never_a_record() {
    let client = number_client();
    let state = streaming(&client);
    let (state, action) = client.step(state, SessionEvent::Frame(RawFrame::Text("42".to_string())));
    assert_eq!(state, SessionState::Streaming);
    assert_eq!(action, SessionAction::Idle);
}

#[test]
fn records_are_delivered_once_each_and_in_order() {
    let client = number_client();
    let mut state = streaming(&client);
    let mut delivered = Vec::new();
    let payloads: Vec<&[u8]> = vec![b"3", b"x", b"1", b"2", b"", b"3"];
    for payload in payloads {
        let event = SessionEvent::Frame(RawFrame::Binary(payload.to_vec()));
        let (next, action) = client.step(state, event);
        state = next;
        if let SessionAction::Deliver(record) = action {
            delivered.push(record);
        }
    }
    assert_eq!(delivered, vec![3, 1, 2, 3]);
    assert_eq!(state, SessionState::Streaming);
}

#[test]
fn each_tick_sends_one_probe_without_payload() {
    let client = number_client();
    let mut state = streaming(&client);
    let mut probes = 0;
    for _ in 0..5 {
        let (next, action) = client.step(state, SessionEvent::Tick);
        state = next;
        assert_eq!(action, SessionAction::Send(OutboundFrame::Ping(Vec::new())));
        probes += 1;
        let (next, action) = client.step(state, SessionEvent::Sent);
        state = next;
        assert_eq!(action, SessionAction::Idle);
    }
    assert_eq!(probes, 5);
    assert_eq!(state, SessionState::Streaming);
}

#[test]
fn tick_before_streaming_sends_nothing() {
    let client = number_client();
    let (state, _) = client.start();
    let (state, action) = client.step(state, SessionEvent::Tick);
    assert_eq!(state, SessionState::Connecting);
    assert_eq!(action, SessionAction::Idle);
    let (state, _) = client.step(state, SessionEvent::Connected);
    let (state, action) = client.step(state, SessionEvent::Tick);
    assert_eq!(state, SessionState::Subscribing);
    assert_eq!(action, SessionAction::Idle);
}

#[test]
fn pong_frame_needs_no_action() {
    let client = number_client();
    let state = streaming(&client);
    let (state, action) = client.step(state, SessionEvent::Frame(RawFrame::Pong(vec![9])));
    assert_eq!(state, SessionState::Streaming);
    assert_eq!(action, SessionAction::Idle);
}

#[test]
fn connect_failure_ends_the_session_with_an_error() {
    let client = number_client();
    let (state, _) = client.start();
    let (state, action) = client.step(state, SessionEvent::ConnectFailed("refused".to_string()));
    assert_eq!(state, SessionState::Terminated(Termination::Error));
    assert_eq!(action, failure(FailureKind::Connect, "refused"));
}

#[test]
fn subscription_send_failure_ends_the_session_with_an_error() {
    let client = number_client();
    let (state, _) = client.start();
    let (state, _) = client.step(state, SessionEvent::Connected);
    let (state, action) = client.step(state, SessionEvent::SendFailed("broken pipe".to_string()));
    assert_eq!(state, SessionState::Terminated(Termination::Error));
    assert_eq!(action, failure(FailureKind::Subscribe, "broken pipe"));
}

#[test]
fn keepalive_send_failure_ends_the_session_with_an_error() {
    let client = number_client();
    let state = streaming(&client);
    let (state, _) = client.step(state, SessionEvent::Tick);
    let (state, action) = client.step(state, SessionEvent::SendFailed("closed".to_string()));
    assert_eq!(state, SessionState::Terminated(Termination::Error));
    assert_eq!(action, failure(FailureKind::Send, "closed"));
}

#[test]
fn read_failure_ends_the_session_with_an_error() {
    let client = number_client();
    let state = streaming(&client);
    let (state, action) = client.step(state, SessionEvent::ReadFailed("reset".to_string()));
    assert_eq!(state, SessionState::Terminated(Termination::Error));
    assert_eq!(action, failure(FailureKind::Read, "reset"));
}

#[test]
fn end_of_stream_ends_the_session_cleanly() {
    let client = number_client();
    let state = streaming(&client);
    let (state, action) = client.step(state, SessionEvent::EndOfStream);
    assert_eq!(state, SessionState::Terminated(Termination::Clean));
    assert_eq!(action, SessionAction::Finish(Ok(())));
}

#[test]
fn ended_session_does_nothing_more() {
    let client = number_client();
    let state = streaming(&client);
    let (state, _) = client.step(state, SessionEvent::EndOfStream);
    let events = vec![
        SessionEvent::Frame(RawFrame::Binary(b"5".to_vec())),
        SessionEvent::Tick,
        SessionEvent::Connected,
        SessionEvent::ReadFailed("late".to_string()),
    ];
    let mut state = state;
    for event in events {
        let (next, action) = client.step(state, event);
        state = next;
        assert_eq!(action, SessionAction::Idle);
        assert_eq!(state, SessionState::Terminated(Termination::Clean));
    }
}

#[test]
fn advance_answers_a_probe_that_only_the_handler_saw_without_payload() {
    let input = SessionInput::Frame(RawFrame::Binary(vec![1, 2]), ParsedMessage::<u32>::Ping);
    let (state, action) = advance(SessionState::Streaming, input);
    assert_eq!(state, SessionState::Streaming);
    assert_eq!(action, SessionAction::Send(OutboundFrame::Pong(Vec::new())));
}

#[test]
fn advance_ends_cleanly_when_the_handler_reports_a_close() {
    let input = SessionInput::Frame(RawFrame::Binary(vec![]), ParsedMessage::<u32>::Closed);
    let (state, action) = advance(SessionState::Streaming, input);
    assert_eq!(state, SessionState::Terminated(Termination::Clean));
    assert_eq!(action, SessionAction::Finish(Ok(())));
}

#[test]
fn advance_sends_the_rendered_subscription_request() {
    let request: Value = serde_json::from_str("{\"b\": [1, true, null], \"a\": \"x\\\"y\"}").unwrap();
    let (state, action) = advance::<u32>(SessionState::Connecting, SessionInput::Connected(request));
    assert_eq!(state, SessionState::Subscribing);
    let expected = "{\"a\":\"x\\\"y\",\"b\":[1,true,null]}".to_string();
    assert_eq!(action, SessionAction::Send(OutboundFrame::Text(expected)));
}

#[test]
fn advance_ignores_what_the_state_does_not_wait_for() {
    let (state, action) = advance::<u32>(SessionState::Subscribing, SessionInput::EndOfStream);
    assert_eq!(state, SessionState::Subscribing);
    assert_eq!(action, SessionAction::Idle);
    let input = SessionInput::Frame(RawFrame::Close, ParsedMessage::<u32>::Closed);
    let (state, action) = advance(SessionState::Connecting, input);
    assert_eq!(state, SessionState::Connecting);
    assert_eq!(action, SessionAction::Idle);
    let (state, action) = advance::<u32>(SessionState::Streaming, SessionInput::Sent);
    assert_eq!(state, SessionState::Streaming);
    assert_eq!(action, SessionAction::Idle);
}

/// Counts how often it is asked for anything.
struct Counting {
    subscriptions: std::cell::Cell<usize>,
    decodes: std::cell::Cell<usize>,
}

impl MessageHandler for Counting {
    type Message = u8;

    fn subscription_message(&self) -> Value {
        self.subscriptions.set(self.subscriptions.get() + 1);
        Value::Null
    }

    fn decode(&self, payload: &[u8]) -> Option<u8> {
        self.decodes.set(self.decodes.get() + 1);
        payload.first().copied()
    }
}

#[test]
fn handler_is_asked_once_per_connect_and_once_per_binary_frame_while_streaming() {
    let handler = Counting {
        subscriptions: std::cell::Cell::new(0),
        decodes: std::cell::Cell::new(0),
    };
    let client = WebSocketClient::new(ClientConfig::default(), handler);
    let (state, _) = client.start();
    let early = SessionEvent::Frame(RawFrame::Binary(vec![1]));
    let (state, action) = client.step(state, early);
    assert_eq!(action, SessionAction::Idle);
    assert_eq!(client.handler().decodes.get(), 0);
    let (state, _) = client.step(state, SessionEvent::Connected);
    assert_eq!(client.handler().subscriptions.get(), 1);
    let (state, action) = client.step(state, SessionEvent::Connected);
    assert_eq!(action, SessionAction::Idle);
    assert_eq!(client.handler().subscriptions.get(), 1);
    let (state, _) = client.step(state, SessionEvent::Sent);
    let (state, _) = client.step(state, SessionEvent::Frame(RawFrame::Binary(vec![1])));
    let (state, _) = client.step(state, SessionEvent::Frame(RawFrame::Text("t".to_string())));
    let (state, _) = client.step(state, SessionEvent::Frame(RawFrame::Binary(vec![2])));
    assert_eq!(client.handler().decodes.get(), 2);
    let (state, _) = client.step(state, SessionEvent::Frame(RawFrame::Close));
    assert_eq!(state, SessionState::Terminated(Termination::Clean));
    let (_, action) = client.step(state, SessionEvent::Frame(RawFrame::Binary(vec![3])));
    assert_eq!(action, SessionAction::Idle);
    assert_eq!(client.handler().decodes.get(), 2);
    assert_eq!(client.handler().subscriptions.get(), 1);
}
