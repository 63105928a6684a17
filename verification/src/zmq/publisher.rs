use super::command::{requests, SocketCommand, SocketKind, SocketRequest};
use vstd::prelude::*;
use vstd::slice::slice_to_vec;

verus! {

/// How a socket is attached to its endpoint.
#[derive(Debug, Clone, Copy, PartialEq, Eq, Structural)]
pub enum Attachment {
    /// It accepts connections there.
    Bound,
    /// It connects there.
    Connected,
}

/// The broadcasting end of the fan-out bus: where its socket is attached, and
/// what is done on the socket to set it up and to publish a message.
///
/// However it was attached, it publishes in the same way.
#[derive(Debug, Clone, PartialEq, Eq)]
pub struct ZmqPublisher {
    endpoint: String,
    attachment: Attachment,
}

impl ZmqPublisher {
    /// The endpoint of the publisher.
    pub closed spec fn spec_endpoint(&self) -> Seq<char> {
        self.endpoint@
    }

    /// How the publisher is attached to its endpoint.
    pub closed spec fn spec_attachment(&self) -> Attachment {
        self.attachment
    }

    /// A publisher that accepts its subscribers' connections at `endpoint`.
    pub fn bind(endpoint: &str) -> (publisher: Self)
        ensures
            publisher.spec_endpoint() == endpoint@,
            publisher.spec_attachment() == Attachment::Bound,
    {
        Self { endpoint: endpoint.to_owned(), attachment: Attachment::Bound }
    }

    /// A publisher that connects to `endpoint`.
    pub fn connect(endpoint: &str) -> (publisher: Self)
        ensures
            publisher.spec_endpoint() == endpoint@,
            publisher.spec_attachment() == Attachment::Connected,
    {
        Self { endpoint: endpoint.to_owned(), attachment: Attachment::Connected }
    }

    pub fn endpoint(&self) -> (endpoint: &str)
        ensures
            endpoint@ == self.spec_endpoint(),
    {
        self.endpoint.as_str()
    }

    pub fn attachment(&self) -> (attachment: Attachment)
        ensures
            attachment == self.spec_attachment(),
    {
        self.attachment
    }

    /// What sets the publisher's socket up: a publishing socket is created
    /// and then attached to the endpoint.
    pub open spec fn spec_setup(&self) -> Seq<SocketRequest> {
        seq![
            SocketRequest::Open(SocketKind::Publish),
            match self.spec_attachment() {
                Attachment::Bound => SocketRequest::Bind(self.spec_endpoint()),
                Attachment::Connected => SocketRequest::Connect(self.spec_endpoint()),
            },
        ]
    }

    /// The operations that set the publisher's socket up, in the order in
    /// which they are performed. The first that fails ends the setup.
    pub fn setup(&self) -> (commands: Vec<SocketCommand>)
        ensures
            requests(commands@) == self.spec_setup(),
    {
        let attach = match self.attachment {
            Attachment::Bound => SocketCommand::Bind(self.endpoint.clone()),
            Attachment::Connected => SocketCommand::Connect(self.endpoint.clone()),
        };
        let mut commands = Vec::new();
        commands.push(SocketCommand::Open(SocketKind::Publish));
        commands.push(attach);
        assert(requests(commands@) =~= self.spec_setup());
        commands
    }

    /// Publishes `msg`: the bytes go out as they are, as one message and
    /// without flags, so without any topic in front of them.
    pub fn send(&self, msg: &[u8]) -> (command: SocketCommand)
        ensures
            command@ == (SocketRequest::Send { payload: msg@, flags: 0 }),
    {
        SocketCommand::Send { payload: slice_to_vec(msg), flags: 0 }
    }
}

} // verus!
