use super::command::{requests, SocketCommand, SocketKind, SocketRequest, ZmqError};
use crate::text::string_from_utf8;
use vstd::prelude::*;
use vstd::slice::slice_to_vec;
use vstd::utf8::{decode_utf8, valid_utf8};

verus! {

/// A listening end of the fan-out bus: where its socket connects, which
/// topic it lets through, and what a received message means.
#[derive(Debug, Clone, PartialEq, Eq)]
pub struct ZmqSubscriber {
    endpoint: String,
    topic: Vec<u8>,
}

/// What `recv_string` makes of the outcome of a receive.
pub open spec fn received_string(received: Result<Seq<u8>, ZmqError>) -> Result<Seq<char>, ZmqError> {
    match received {
        Ok(bytes) => Ok(decode_utf8(bytes)),
        Err(error) => Err(error),
    }
}

/// What `recv_string_timeout` makes of the outcome of a receive: that
/// nothing could be received without waiting is no error, but no message.
pub open spec fn received_string_or_nothing(received: Result<Seq<u8>, ZmqError>) -> Result<Option<Seq<char>>, ZmqError> {
    match received {
        Ok(bytes) => Ok(Some(decode_utf8(bytes))),
        Err(ZmqError::EAGAIN) => Ok(None),
        Err(error) => Err(error),
    }
}

/// The outcome of a receive as a mathematical value.
pub open spec fn received_view(received: Result<Vec<u8>, ZmqError>) -> Result<Seq<u8>, ZmqError> {
    match received {
        Ok(bytes) => Ok(bytes@),
        Err(error) => Err(error),
    }
}

/// A received string, or the error in its place, as a mathematical value.
pub open spec fn string_view(message: Result<String, ZmqError>) -> Result<Seq<char>, ZmqError> {
    match message {
        Ok(text) => Ok(text@),
        Err(error) => Err(error),
    }
}

/// A received string, the lack of one, or the error in its place, as a
/// mathematical value.
pub open spec fn optional_string_view(message: Result<Option<String>, ZmqError>) -> Result<Option<Seq<char>>, ZmqError> {
    match message {
        Ok(Some(text)) => Ok(Some(text@)),
        Ok(None) => Ok(None),
        Err(error) => Err(error),
    }
}

impl ZmqSubscriber {
    /// The endpoint that the subscriber connects to.
    pub closed spec fn spec_endpoint(&self) -> Seq<char> {
        self.endpoint@
    }

    /// The topic that the subscriber lets through.
    pub closed spec fn spec_topic(&self) -> Seq<u8> {
        self.topic@
    }

    /// A subscriber that connects to `endpoint` and lets through the
    /// messages that begin with `topic`.
    pub fn connect_with_ctx(endpoint: &str, topic: &[u8]) -> (subscriber: Self)
        ensures
            subscriber.spec_endpoint() == endpoint@,
            subscriber.spec_topic() == topic@,
    {
        Self { endpoint: endpoint.to_owned(), topic: slice_to_vec(topic) }
    }

    /// What sets the subscriber's socket up: a subscribing socket is
    /// created, connected to the endpoint and then subscribed to the topic.
    pub open spec fn spec_setup(&self) -> Seq<SocketRequest> {
        seq![
            SocketRequest::Open(SocketKind::Subscribe),
            SocketRequest::Connect(self.spec_endpoint()),
            SocketRequest::Subscribe(self.spec_topic()),
        ]
    }

    /// The operations that set the subscriber's socket up, in the order in
    /// which they are performed. The first that fails ends the setup.
    pub fn setup(&self) -> (commands: Vec<SocketCommand>)
        ensures
            requests(commands@) == self.spec_setup(),
    {
        let mut commands = Vec::new();
        commands.push(SocketCommand::Open(SocketKind::Subscribe));
        commands.push(SocketCommand::Connect(self.endpoint.clone()));
        commands.push(SocketCommand::Subscribe(self.topic.clone()));
        assert(requests(commands@) =~= self.spec_setup());
        commands
    }

    /// The message that was received, as its bytes; an error of the receive
    /// is handed on as it is.
    pub fn recv_bytes(&self, received: Result<Vec<u8>, ZmqError>) -> (message: Result<Vec<u8>, ZmqError>)
        ensures
            received_view(message) == received_view(received),
    {
        received
    }

    /// The message that was received, as a string; an error of the receive
    /// is handed on as it is. A message that is not valid UTF-8 is no input
    /// of this function.
    pub fn recv_string(&self, received: Result<Vec<u8>, ZmqError>) -> (message: Result<String, ZmqError>)
        requires
            received matches Ok(bytes) ==> valid_utf8(bytes@),
        ensures
            string_view(message) == received_string(received_view(received)),
    {
        match received {
            Ok(bytes) => match string_from_utf8(bytes) {
                Some(text) => Ok(text),
                None => unreached(),
            },
            Err(error) => Err(error),
        }
    }

    /// The message that was received within the time allowed, as a string,
    /// or `None` where none came in that time; any other error of the
    /// receive is handed on as it is. A message that is not valid UTF-8 is
    /// no input of this function.
    pub fn recv_string_timeout(&self, received: Result<Vec<u8>, ZmqError>) -> (message: Result<Option<String>, ZmqError>)
        requires
            received matches Ok(bytes) ==> valid_utf8(bytes@),
        ensures
            optional_string_view(message) == received_string_or_nothing(received_view(received)),
    {
        match received {
            Ok(bytes) => match string_from_utf8(bytes) {
                Some(text) => Ok(Some(text)),
                None => unreached(),
            },
            Err(ZmqError::EAGAIN) => Ok(None),
            Err(error) => Err(error),
        }
    }
}

} // verus!
