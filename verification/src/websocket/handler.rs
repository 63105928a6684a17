use crate::text::string_from_utf8;
use serde_json::Value;
use vstd::prelude::*;
use vstd::utf8::{decode_utf8, valid_utf8};

verus! {

/// One frame as the transport delivered it.
#[derive(Debug, Clone, PartialEq, Eq)]
pub enum RawFrame {
    /// A text frame.
    Text(String),
    /// A binary frame: the only kind that may carry a record.
    Binary(Vec<u8>),
    /// A keepalive probe, with the payload that a reply echoes.
    Ping(Vec<u8>),
    /// The reply to a keepalive probe.
    Pong(Vec<u8>),
    /// The peer closes the stream.
    Close,
    /// A frame of any other kind.
    Other,
}

/// A frame as a mathematical value.
pub enum Frame {
    Text(Seq<char>),
    Binary(Seq<u8>),
    Ping(Seq<u8>),
    Pong(Seq<u8>),
    Close,
    Other,
}

impl View for RawFrame {
    type V = Frame;

    open spec fn view(&self) -> Frame {
        match *self {
            RawFrame::Text(text) => Frame::Text(text@),
            RawFrame::Binary(payload) => Frame::Binary(payload@),
            RawFrame::Ping(payload) => Frame::Ping(payload@),
            RawFrame::Pong(payload) => Frame::Pong(payload@),
            RawFrame::Close => Frame::Close,
            RawFrame::Other => Frame::Other,
        }
    }
}

/// One frame for the transport to send.
#[derive(Debug, Clone, PartialEq, Eq)]
pub enum OutboundFrame {
    /// A text frame.
    Text(String),
    /// A keepalive probe.
    Ping(Vec<u8>),
    /// The reply to a keepalive probe of the peer, with the probe's payload.
    Pong(Vec<u8>),
}

impl View for OutboundFrame {
    type V = Frame;

    open spec fn view(&self) -> Frame {
        match *self {
            OutboundFrame::Text(text) => Frame::Text(text@),
            OutboundFrame::Ping(payload) => Frame::Ping(payload@),
            OutboundFrame::Pong(payload) => Frame::Pong(payload@),
        }
    }
}

/// What one inbound frame turned out to be.
#[derive(Debug, PartialEq, Eq)]
pub enum ParsedMessage<T> {
    /// A record that was decoded from the frame.
    Message(T),
    /// The reply to a keepalive probe that this side sent: nothing to do.
    Pong,
    /// A keepalive probe of the peer, which wants a reply at once.
    Ping,
    /// The peer ends the stream in good order.
    Closed,
    /// Neither a record nor a control frame: discarded, and not fatal.
    Unknown,
}

/// What a frame is, given what its payload decodes to.
///
/// Only a binary frame can be a record, and it is one exactly when its payload
/// decodes. A text frame is never one. The transport's own ping, pong and
/// close frames are the three control signals.
pub open spec fn classify<T>(frame: Frame, decoded: Option<T>) -> ParsedMessage<T> {
    match frame {
        Frame::Binary(_) => match decoded {
            Some(record) => ParsedMessage::Message(record),
            None => ParsedMessage::Unknown,
        },
        Frame::Text(_) => ParsedMessage::Unknown,
        Frame::Ping(_) => ParsedMessage::Ping,
        Frame::Pong(_) => ParsedMessage::Pong,
        Frame::Close => ParsedMessage::Closed,
        Frame::Other => ParsedMessage::Unknown,
    }
}

/// The text that a frame shows to a reader of a log: a text frame's own text,
/// a binary frame's payload where it is valid UTF-8, and nothing otherwise.
pub open spec fn readable(frame: Frame) -> Option<Seq<char>> {
    match frame {
        Frame::Text(text) => Some(text),
        Frame::Binary(payload) => if valid_utf8(payload) {
            Some(decode_utf8(payload))
        } else {
            None
        },
        _ => None,
    }
}

impl RawFrame {
    /// The text of a discarded frame for a log line, where it has one.
    pub fn readable_text(&self) -> (text: Option<String>)
        ensures
            text is Some <==> readable(self@) is Some,
            text matches Some(t) ==> readable(self@) == Some(t@),
    {
        match self {
            RawFrame::Text(text) => Some(text.clone()),
            RawFrame::Binary(payload) => string_from_utf8(payload.clone()),
            _ => None,
        }
    }
}

/// Classifies a frame, given what its payload decoded to: see [`classify`].
pub fn classify_frame<T>(frame: &RawFrame, decoded: Option<T>) -> (message: ParsedMessage<T>)
    ensures
        message == classify(frame@, decoded),
{
    match frame {
        RawFrame::Binary(_) => match decoded {
            Some(record) => ParsedMessage::Message(record),
            None => ParsedMessage::Unknown,
        },
        RawFrame::Text(_) => ParsedMessage::Unknown,
        RawFrame::Ping(_) => ParsedMessage::Ping,
        RawFrame::Pong(_) => ParsedMessage::Pong,
        RawFrame::Close => ParsedMessage::Closed,
        RawFrame::Other => ParsedMessage::Unknown,
    }
}

/// The decoding capability of one stream kind.
///
/// An implementation says which subscription request opens its stream and
/// how the payload of a binary frame becomes a record. Nothing is promised
/// of what an implementation returns: a session deals with whatever it is.
pub trait MessageHandler: Sized {
    /// The records of this stream.
    type Message;

    /// The subscription request, which is sent once after each connect.
    fn subscription_message(&self) -> Value;

    /// Decodes the payload of a binary frame into a record, or says that it
    /// holds none.
    fn decode(&self, payload: &[u8]) -> Option<Self::Message>;

    /// Classifies an inbound frame. As provided, only the payload of a binary
    /// frame is decoded, and a payload that does not decode is no error: the
    /// frame is then `Unknown`.
    fn parse_raw_message(&self, msg: &RawFrame) -> (message: ParsedMessage<Self::Message>)
        default_ensures
            !(msg@ is Binary) ==> message == classify::<Self::Message>(msg@, None),
            msg@ is Binary ==> exists|decoded: Option<Self::Message>, bytes: &[u8]|
                #![trigger call_ensures(Self::decode, (self, bytes), decoded)]
                bytes@ == msg@->Binary_0 && call_ensures(Self::decode, (self, bytes), decoded)
                    && message == classify(msg@, decoded),
    {
        match msg {
            RawFrame::Binary(payload) => classify_frame(msg, self.decode(payload.as_slice())),
            _ => classify_frame(msg, None),
        }
    }
}

} // verus!
