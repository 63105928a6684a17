use serde_json::Value;
use xing_trading_rust::constant::{
    LS_WS_DOMAIN_PROD, LS_WS_ENDPOINT, LS_WS_TR_CD_UNI_ORDERBOOK, LS_WS_TR_TYPE_REGISTER,
};
use xing_trading_rust::websocket::client::{
    ClientConfig, SessionAction, SessionEvent, SessionState,
};
use xing_trading_rust::websocket::handler::{
    MessageHandler, OutboundFrame, ParsedMessage, RawFrame,
};
use xing_trading_rust::websocket::ws_orderbook_total::{
    orderbook_stream, OrderbookBridge, OrderbookHandler, OrderbookHandlerConfig,
    OrderbookStream, SinkEffect,
};
use xing_trading_rust::zmq::command::{SocketCommand, SocketKind};
use xing_trading_rust::zmq::publisher::Attachment;

fn samsung() -> OrderbookHandlerConfig {
    OrderbookHandlerConfig {
        token: "tok-123".to_string(),
        tr_cd: "UH1".to_string(),
        tr_key: "U005930   ".to_string(),
        zmq_endpoint: "tcp://127.0.0.1:5557".to_string(),
        print_console: true,
        save_to_file: false,
        file_path: None,
    }
}

/// Decodes a payload that is UTF-8 and does not begin with `!`, as its text.
fn decode_text(payload: &[u8]) -> Option<String> {
    let text = std::str::from_utf8(payload).ok()?;
    if text.starts_with('!') {
        None
    } else {
        Some(text.to_string())
    }
}

fn publish(payload: &[u8]) -> SinkEffect {
    SinkEffect::Publish(SocketCommand::Send { payload: payload.to_vec(), flags: 0 })
}

#[test]
fn default_handler_config() {
    let config = OrderbookHandlerConfig::default();
    assert_eq!(config.token, "");
    assert_eq!(config.tr_cd, "UH1");
    assert_eq!(config.tr_key, "");
    assert_eq!(config.zmq_endpoint, "tcp://0.0.0.0:5557");
    assert!(config.print_console);
    assert!(!config.save_to_file);
    assert_eq!(config.file_path, None);
}

#[test]
fn constants_of_the_streaming_service() {
    assert_eq!(LS_WS_TR_TYPE_REGISTER, "3");
    assert_eq!(LS_WS_TR_CD_UNI_ORDERBOOK, "UH1");
    assert_eq!(format!("{}{}", LS_WS_DOMAIN_PROD, LS_WS_ENDPOINT), ClientConfig::default().url);
}

#[test]
fn handler_keeps_its_configuration() {
    let handler = OrderbookHandler::new(samsung());
    assert_eq!(handler.config(), &samsung());
}

#[test]
fn subscription_request_has_header_and_body() {
    let handler = OrderbookHandler::new(samsung());
    let expected: Value = serde_json::from_str(
        "{\"header\": {\"token\": \"tok-123\", \"tr_type\": \"3\"}, \
          \"body\": {\"tr_cd\": \"UH1\", \"tr_key\": \"U005930   \"}}",
    )
    .unwrap();
    assert_eq!(handler.subscription_message(), expected);
}

#[test]
fn subscription_request_keeps_special_characters_of_the_token() {
    let mut config = samsung();
    config.token = "a\"b\\c\n".to_string();
    let request = OrderbookHandler::new(config).subscription_message();
    assert_eq!(request["header"]["token"], Value::String("a\"b\\c\n".to_string()));
    assert_eq!(request["header"]["tr_type"], Value::String("3".to_string()));
    assert_eq!(request["body"]["tr_cd"], Value::String("UH1".to_string()));
    assert_eq!(request.as_object().unwrap().len(), 2);
    assert_eq!(request["header"].as_object().unwrap().len(), 2);
    assert_eq!(request["body"].as_object().unwrap().len(), 2);
}

#[test]
fn session_sends_the_subscription_request_as_compact_text() {
    let (client, _) = orderbook_stream(ClientConfig::default(), samsung(), decode_text);
    let (state, action) = client.start();
    assert_eq!(action, SessionAction::Connect("wss://openapi.ls-sec.co.kr:9443/websocket".to_string()));
    let (state, action) = client.step(state, SessionEvent::Connected);
    assert_eq!(state, SessionState::Subscribing);
    let text = "{\"body\":{\"tr_cd\":\"UH1\",\"tr_key\":\"U005930   \"},\
                \"header\":{\"token\":\"tok-123\",\"tr_type\":\"3\"}}";
    assert_eq!(action, SessionAction::Send(OutboundFrame::Text(text.to_string())));
}

#[test]
fn bridge_publisher_is_bound_to_the_configured_endpoint() {
    let bridge = OrderbookBridge::new(&samsung());
    assert_eq!(bridge.publisher().endpoint(), "tcp://127.0.0.1:5557");
    assert_eq!(bridge.publisher().attachment(), Attachment::Bound);
    assert_eq!(
        bridge.publisher().setup(),
        vec![
            SocketCommand::Open(SocketKind::Publish),
            SocketCommand::Bind("tcp://127.0.0.1:5557".to_string()),
        ]
    );
}

#[test]
fn record_is_echoed_and_published() {
    let bridge = OrderbookBridge::new(&samsung());
    let effects = bridge.sink("Orderbook { bid: 1 }", "{\"bid\":1}");
    assert_eq!(
        effects,
        vec![SinkEffect::Echo("Orderbook { bid: 1 }".to_string()), publish(b"{\"bid\":1}")]
    );
}

#[test]
fn record_is_published_alone_when_nothing_else_is_switched_on() {
    let mut config = samsung();
    config.print_console = false;
    let effects = OrderbookBridge::new(&config).sink("shown", "{}");
    assert_eq!(effects, vec![publish(b"{}")]);
}

#[test]
fn record_is_appended_as_a_line_before_it_is_published() {
    let mut config = samsung();
    config.save_to_file = true;
    config.file_path = Some("book.log".to_string());
    let effects = OrderbookBridge::new(&config).sink("shown", "{\"a\":\"\u{d638}\"}");
    assert_eq!(
        effects,
        vec![
            SinkEffect::Echo("shown".to_string()),
            SinkEffect::Append { path: "book.log".to_string(), line: "shown\n".to_string() },
            publish("{\"a\":\"\u{d638}\"}".as_bytes()),
        ]
    );
}

#[test]
fn nothing_is_appended_without_a_path_or_without_the_switch() {
    let mut config = samsung();
    config.save_to_file = true;
    config.file_path = None;
    assert_eq!(OrderbookBridge::new(&config).sink("s", "j").len(), 2);
    config.save_to_file = false;
    config.file_path = Some("book.log".to_string());
    assert_eq!(OrderbookBridge::new(&config).sink("s", "j").len(), 2);
}

#[test]
fn each_decoded_record_is_published_once_and_in_order() {
    let mut config = samsung();
    config.save_to_file = true;
    config.file_path = Some("book.log".to_string());
    let (client, bridge) = orderbook_stream(ClientConfig::default(), config, decode_text);
    let (state, _) = client.start();
    let (state, _) = client.step(state, SessionEvent::Connected);
    let (mut state, _) = client.step(state, SessionEvent::Sent);
    let events = vec![
        SessionEvent::Frame(RawFrame::Binary(b"one".to_vec())),
        SessionEvent::Tick,
        SessionEvent::Frame(RawFrame::Text("two".to_string())),
        SessionEvent::Frame(RawFrame::Binary(b"three".to_vec())),
        SessionEvent::Frame(RawFrame::Binary(b"!skipped".to_vec())),
        SessionEvent::Frame(RawFrame::Ping(b"four".to_vec())),
        SessionEvent::Frame(RawFrame::Binary(b"five".to_vec())),
    ];
    let mut published = Vec::new();
    for event in events {
        let (next, action) = client.step(state, event);
        state = next;
        if let SessionAction::Deliver(text) = action {
            for effect in bridge.sink(&text, &text) {
                if let SinkEffect::Publish(SocketCommand::Send { payload, flags }) = effect {
                    assert_eq!(flags, 0);
                    published.push(payload);
                }
            }
        }
    }
    assert_eq!(published, vec![b"one".to_vec(), b"three".to_vec(), b"five".to_vec()]);
}

#[test]
fn order_book_stream_decodes_with_its_decoder() {
    let stream = OrderbookStream::new(OrderbookHandler::new(samsung()), decode_text);
    assert_eq!(stream.decode(b"abc"), Some("abc".to_string()));
    assert_eq!(stream.decode(b"!abc"), None);
    assert_eq!(stream.decode(&[0xff]), None);
    assert_eq!(stream.subscription_message(), OrderbookHandler::new(samsung()).subscription_message());
    assert_eq!(
        stream.parse_raw_message(&RawFrame::Binary(b"abc".to_vec())),
        ParsedMessage::Message("abc".to_string())
    );
    assert_eq!(stream.parse_raw_message(&RawFrame::Binary(b"!abc".to_vec())), ParsedMessage::Unknown);
    assert_eq!(stream.parse_raw_message(&RawFrame::Text("abc".to_string())), ParsedMessage::Unknown);
}

#[test]
fn order_book_stream_is_made_of_both_configurations() {
    let mut client_config = ClientConfig::default();
    client_config.max_reconnect_attempts = 3;
    let (client, bridge) = orderbook_stream(client_config.clone(), samsung(), decode_text);
    assert_eq!(client.config(), &client_config);
    assert_eq!(bridge.publisher().endpoint(), "tcp://127.0.0.1:5557");
    assert_eq!(bridge.sink("s", "j").len(), 2);
}
