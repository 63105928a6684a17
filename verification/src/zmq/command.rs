use vstd::prelude::*;

verus! {

/// The two ends of the fan-out bus.
#[derive(Debug, Clone, Copy, PartialEq, Eq, Structural)]
pub enum SocketKind {
    /// The end that broadcasts.
    Publish,
    /// An end that listens to the broadcast.
    Subscribe,
}

/// One operation on a socket of the fan-out bus, for the caller to perform.
#[derive(Debug, Clone, PartialEq, Eq)]
pub enum SocketCommand {
    /// Create a socket of this kind.
    Open(SocketKind),
    /// Accept connections at this endpoint.
    Bind(String),
    /// Connect to this endpoint.
    Connect(String),
    /// Let through the messages that begin with this topic.
    Subscribe(Vec<u8>),
    /// Send these bytes as one message, with these flags.
    Send { payload: Vec<u8>, flags: i32 },
}

/// A socket operation as a mathematical value.
pub enum SocketRequest {
    Open(SocketKind),
    Bind(Seq<char>),
    Connect(Seq<char>),
    Subscribe(Seq<u8>),
    Send { payload: Seq<u8>, flags: int },
}

impl View for SocketCommand {
    type V = SocketRequest;

    open spec fn view(&self) -> SocketRequest {
        match *self {
            SocketCommand::Open(kind) => SocketRequest::Open(kind),
            SocketCommand::Bind(endpoint) => SocketRequest::Bind(endpoint@),
            SocketCommand::Connect(endpoint) => SocketRequest::Connect(endpoint@),
            SocketCommand::Subscribe(topic) => SocketRequest::Subscribe(topic@),
            SocketCommand::Send { payload, flags } => SocketRequest::Send {
                payload: payload@,
                flags: flags as int,
            },
        }
    }
}

/// The operations in a list of commands, in order.
pub open spec fn requests(commands: Seq<SocketCommand>) -> Seq<SocketRequest> {
    Seq::new(commands.len(), |i: int| commands[i]@)
}

/// An error of the fan-out bus, by the name that the bus gives it.
#[allow(non_camel_case_types)]
#[derive(Debug, Clone, Copy, PartialEq, Eq, Structural)]
pub enum ZmqError {
    EACCES,
    EADDRINUSE,
    /// Nothing could be received without waiting.
    EAGAIN,
    EBUSY,
    ECONNREFUSED,
    EFAULT,
    EINTR,
    EHOSTUNREACH,
    EINPROGRESS,
    EINVAL,
    EMFILE,
    EMSGSIZE,
    ENAMETOOLONG,
    ENODEV,
    ENOENT,
    ENOMEM,
    ENOTCONN,
    ENOTSOCK,
    EPROTO,
    EPROTONOSUPPORT,
    ENOTSUP,
    ENOBUFS,
    ENETDOWN,
    EADDRNOTAVAIL,
    EFSM,
    ENOCOMPATPROTO,
    ETERM,
    EMTHREAD,
}

} // verus!
