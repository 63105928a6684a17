use super::handler::{
    classify, Frame, MessageHandler, OutboundFrame, ParsedMessage, RawFrame,
};
use crate::json::{json_doc, json_render, json_rendering, JsonDoc};
use serde_json::Value;
use std::time::Duration;
use vstd::prelude::*;

verus! {

/// The whole nanoseconds that a `Duration` spans.
pub uninterp spec fn duration_nanos(span: Duration) -> nat;

/// `Duration::from_secs`: the span of that many whole seconds.
#[verifier::external_body]
pub(crate) fn duration_from_secs(secs: u64) -> (span: Duration)
    ensures
        duration_nanos(span) == secs * 1_000_000_000,
{
    Duration::from_secs(secs)
}

/// `Duration::clone`: the clone is the same span.
pub assume_specification[ <Duration as Clone>::clone ](span: &Duration) -> (copy: Duration)
    ensures
        copy == *span,
;

/// How a client reaches its endpoint and how patiently it reconnects.
#[derive(Debug, Clone, PartialEq, Eq)]
pub struct ClientConfig {
    /// The address of the upstream endpoint.
    pub url: String,
    /// The pause between the end of one session and the next connect.
    pub reconnect_interval: Duration,
    /// The number of failed sessions in a row at which the client gives up.
    pub max_reconnect_attempts: usize,
    /// The time between two keepalive probes.
    pub ping_interval: Duration,
}

impl Default for ClientConfig {
    /// The production endpoint, five seconds between reconnects, ten attempts
    /// and a keepalive probe every minute.
    fn default() -> (config: Self)
        ensures
            config.url@ == "wss://openapi.ls-sec.co.kr:9443/websocket"@,
            duration_nanos(config.reconnect_interval) == 5_000_000_000nat,
            config.max_reconnect_attempts == 10,
            duration_nanos(config.ping_interval) == 60_000_000_000nat,
    {
        ClientConfig {
            url: "wss://openapi.ls-sec.co.kr:9443/websocket".to_owned(),
            reconnect_interval: duration_from_secs(5),
            max_reconnect_attempts: 10,
            ping_interval: duration_from_secs(60),
        }
    }
}

/// The step of a session at which it failed.
#[derive(Debug, Clone, Copy, PartialEq, Eq, Structural)]
pub enum FailureKind {
    /// The transport could not be opened.
    Connect,
    /// The subscription request could not be sent.
    Subscribe,
    /// A keepalive probe or the reply to one could not be sent.
    Send,
    /// The next frame could not be read.
    Read,
}

/// Why a session ended other than by an orderly close.
#[derive(Debug, Clone, PartialEq, Eq)]
pub struct SessionError {
    pub kind: FailureKind,
    /// What the transport said of the failure.
    pub reason: String,
}

/// A session's failure as a mathematical value.
pub struct Failure {
    pub kind: FailureKind,
    pub reason: Seq<char>,
}

impl View for SessionError {
    type V = Failure;

    open spec fn view(&self) -> Failure {
        Failure { kind: self.kind, reason: self.reason@ }
    }
}

/// How a session ended.
#[derive(Debug, Clone, Copy, PartialEq, Eq, Structural)]
pub enum Termination {
    /// The peer closed the stream, or the stream ended.
    Clean,
    /// The transport failed.
    Error,
}

/// Where one session stands in its single connect, subscribe and stream cycle.
#[derive(Debug, Clone, Copy, PartialEq, Eq, Structural)]
pub enum SessionState {
    /// The transport is being opened.
    Connecting,
    /// The subscription request is on its way.
    Subscribing,
    /// Frames and keepalive ticks are handled as they come.
    Streaming,
    /// The session is over and handles nothing more.
    Terminated(Termination),
}

/// What happened on the transport since the last step.
#[derive(Debug, Clone, PartialEq, Eq)]
pub enum SessionEvent {
    /// The transport is open.
    Connected,
    /// The transport could not be opened.
    ConnectFailed(String),
    /// The frame that the last step asked to send has been sent.
    Sent,
    /// The frame that the last step asked to send could not be sent.
    SendFailed(String),
    /// The keepalive interval has passed.
    Tick,
    /// A frame has arrived.
    Frame(RawFrame),
    /// Reading the next frame failed.
    ReadFailed(String),
    /// The stream ended without a close frame.
    EndOfStream,
}

/// A transport event as a mathematical value.
pub enum Signal {
    Connected,
    ConnectFailed(Seq<char>),
    Sent,
    SendFailed(Seq<char>),
    Tick,
    Frame(Frame),
    ReadFailed(Seq<char>),
    EndOfStream,
}

impl View for SessionEvent {
    type V = Signal;

    open spec fn view(&self) -> Signal {
        match *self {
            SessionEvent::Connected => Signal::Connected,
            SessionEvent::ConnectFailed(reason) => Signal::ConnectFailed(reason@),
            SessionEvent::Sent => Signal::Sent,
            SessionEvent::SendFailed(reason) => Signal::SendFailed(reason@),
            SessionEvent::Tick => Signal::Tick,
            SessionEvent::Frame(frame) => Signal::Frame(frame@),
            SessionEvent::ReadFailed(reason) => Signal::ReadFailed(reason@),
            SessionEvent::EndOfStream => Signal::EndOfStream,
        }
    }
}

/// A transport event together with what the handler answered to it: its
/// subscription request when the transport opened, and what it made of a
/// frame that arrived.
#[derive(Debug, PartialEq, Eq)]
pub enum SessionInput<T> {
    Connected(Value),
    ConnectFailed(String),
    Sent,
    SendFailed(String),
    Tick,
    Frame(RawFrame, ParsedMessage<T>),
    ReadFailed(String),
    EndOfStream,
}

/// A transport event with the handler's answer, as a mathematical value.
pub enum Event<T> {
    Connected(JsonDoc),
    ConnectFailed(Seq<char>),
    Sent,
    SendFailed(Seq<char>),
    Tick,
    Frame(Frame, ParsedMessage<T>),
    ReadFailed(Seq<char>),
    EndOfStream,
}

impl<T> View for SessionInput<T> {
    type V = Event<T>;

    open spec fn view(&self) -> Event<T> {
        match *self {
            SessionInput::Connected(request) => Event::Connected(json_doc(request)),
            SessionInput::ConnectFailed(reason) => Event::ConnectFailed(reason@),
            SessionInput::Sent => Event::Sent,
            SessionInput::SendFailed(reason) => Event::SendFailed(reason@),
            SessionInput::Tick => Event::Tick,
            SessionInput::Frame(frame, message) => Event::Frame(frame@, message),
            SessionInput::ReadFailed(reason) => Event::ReadFailed(reason@),
            SessionInput::EndOfStream => Event::EndOfStream,
        }
    }
}

/// Whether `event` is the transport event `signal`, with whatever the handler
/// answered to it.
pub open spec fn resolves<T>(signal: Signal, event: Event<T>) -> bool {
    match signal {
        Signal::Connected => event is Connected,
        Signal::ConnectFailed(reason) => event == Event::<T>::ConnectFailed(reason),
        Signal::Sent => event == Event::<T>::Sent,
        Signal::SendFailed(reason) => event == Event::<T>::SendFailed(reason),
        Signal::Tick => event == Event::<T>::Tick,
        Signal::Frame(frame) => event is Frame && event->Frame_0 == frame,
        Signal::ReadFailed(reason) => event == Event::<T>::ReadFailed(reason),
        Signal::EndOfStream => event == Event::<T>::EndOfStream,
    }
}

/// Whether `resolved` is the transport event `event` with an answer of the
/// handler: its subscription request, where the transport of a connecting
/// session has opened, and what it made of the frame, where one arrived while
/// the session streamed. In any other state the handler is not asked, and
/// the answer does not matter.
pub open spec fn answers<H: MessageHandler>(
    handler: &H,
    state: SessionState,
    event: SessionEvent,
    resolved: Event<H::Message>,
) -> bool {
    &&& resolves(event@, resolved)
    &&& event is Connected && state == SessionState::Connecting ==> exists|request: Value|
        call_ensures(H::subscription_message, (handler,), request) && resolved->Connected_0
            == json_doc(request)
    &&& match event {
        SessionEvent::Frame(frame) => state == SessionState::Streaming ==> call_ensures(
            H::parse_raw_message,
            (handler, &frame),
            resolved->Frame_1,
        ),
        _ => true,
    }
}

/// What the caller of a session does next.
#[derive(Debug, PartialEq, Eq)]
pub enum SessionAction<T> {
    /// Open the transport to this address.
    Connect(String),
    /// Send this frame.
    Send(OutboundFrame),
    /// Hand this record to the sink, before the next frame is read.
    Deliver(T),
    /// Nothing: wait for the next event.
    Idle,
    /// The session is over, with this outcome.
    Finish(Result<(), SessionError>),
}

/// A session's request to its caller as a mathematical value.
pub enum Action<T> {
    Connect(Seq<char>),
    Send(Frame),
    Deliver(T),
    Idle,
    Finish(Result<(), Failure>),
}

impl<T> View for SessionAction<T> {
    type V = Action<T>;

    open spec fn view(&self) -> Action<T> {
        match *self {
            SessionAction::Connect(url) => Action::Connect(url@),
            SessionAction::Send(frame) => Action::Send(frame@),
            SessionAction::Deliver(record) => Action::Deliver(record),
            SessionAction::Idle => Action::Idle,
            SessionAction::Finish(Ok(())) => Action::Finish(Ok(())),
            SessionAction::Finish(Err(error)) => Action::Finish(Err(error@)),
        }
    }
}

/// One step of a session: the state after an event, and what the caller does next.
///
/// A failure to connect, to send or to read ends the session with an error,
/// and nothing is tried again. Once connected the session sends the
/// handler's subscription request as text, and once that is sent it streams.
/// While streaming, a tick sends a probe with no payload; a record goes to the
/// sink; a probe of the peer is answered, with the payload of the frame where
/// it is a ping frame; replies and frames that are neither record nor control
/// are passed over; a close and the end of the stream end the session
/// cleanly. An event that the state does not wait for changes nothing.
pub open spec fn session_step<T>(state: SessionState, event: Event<T>) -> (SessionState, Action<T>) {
    match state {
        SessionState::Connecting => match event {
            Event::Connected(request) => (
                SessionState::Subscribing,
                Action::Send(Frame::Text(json_rendering(request))),
            ),
            Event::ConnectFailed(reason) => failed(FailureKind::Connect, reason),
            _ => (state, Action::Idle),
        },
        SessionState::Subscribing => match event {
            Event::Sent => (SessionState::Streaming, Action::Idle),
            Event::SendFailed(reason) => failed(FailureKind::Subscribe, reason),
            _ => (state, Action::Idle),
        },
        SessionState::Streaming => match event {
            Event::Tick => (state, Action::Send(Frame::Ping(Seq::empty()))),
            Event::SendFailed(reason) => failed(FailureKind::Send, reason),
            Event::ReadFailed(reason) => failed(FailureKind::Read, reason),
            Event::EndOfStream => closed(),
            Event::Frame(frame, message) => match message {
                ParsedMessage::Message(record) => (state, Action::Deliver(record)),
                ParsedMessage::Ping => (state, Action::Send(Frame::Pong(probe_payload(frame)))),
                ParsedMessage::Pong => (state, Action::Idle),
                ParsedMessage::Unknown => (state, Action::Idle),
                ParsedMessage::Closed => closed(),
            },
            _ => (state, Action::Idle),
        },
        SessionState::Terminated(_) => (state, Action::Idle),
    }
}

/// The payload that the reply to `frame` carries: that of a ping frame, and
/// none for any other frame.
pub open spec fn probe_payload(frame: Frame) -> Seq<u8> {
    match frame {
        Frame::Ping(payload) => payload,
        _ => Seq::empty(),
    }
}

/// The end of a session by a failure of the transport.
pub open spec fn failed<T>(kind: FailureKind, reason: Seq<char>) -> (SessionState, Action<T>) {
    (
        SessionState::Terminated(Termination::Error),
        Action::Finish(Err(Failure { kind, reason })),
    )
}

/// The end of a session in good order.
pub open spec fn closed<T>() -> (SessionState, Action<T>) {
    (SessionState::Terminated(Termination::Clean), Action::Finish(Ok(())))
}

/// What a supervisor does when a session has ended.
#[derive(Debug, PartialEq, Eq)]
pub enum SupervisorAction {
    /// Wait for `delay`, then run the next session with `attempts` failures counted.
    Reconnect { attempts: usize, delay: Duration },
    /// Stop, and hand this last error to the caller.
    GiveUp(SessionError),
}

/// A supervisor's decision as a mathematical value.
pub enum Decision {
    Reconnect { attempts: nat, delay: Duration },
    GiveUp(Failure),
}

impl View for SupervisorAction {
    type V = Decision;

    open spec fn view(&self) -> Decision {
        match *self {
            SupervisorAction::Reconnect { attempts, delay } => Decision::Reconnect {
                attempts: attempts as nat,
                delay,
            },
            SupervisorAction::GiveUp(error) => Decision::GiveUp(error@),
        }
    }
}

/// The decision after a session that ended with `outcome`, when `attempts`
/// sessions in a row had failed before it.
///
/// A clean end sets the count back to zero. A failure adds one to it, and the
/// supervisor gives up with that failure once the count has reached `max`.
pub open spec fn supervise(
    max: nat,
    delay: Duration,
    attempts: nat,
    outcome: Result<(), Failure>,
) -> Decision {
    match outcome {
        Ok(()) => Decision::Reconnect { attempts: 0, delay },
        Err(failure) => if attempts + 1 >= max {
            Decision::GiveUp(failure)
        } else {
            Decision::Reconnect { attempts: attempts + 1, delay }
        },
    }
}

/// A client for one stream: its configuration and the handler of its frames.
pub struct WebSocketClient<H: MessageHandler> {
    config: ClientConfig,
    handler: H,
}

impl<H: MessageHandler> WebSocketClient<H> {
    /// The configuration that the client was made with.
    pub closed spec fn spec_config(&self) -> ClientConfig {
        self.config
    }

    /// The handler that the client was made with.
    pub closed spec fn spec_handler(&self) -> H {
        self.handler
    }

    pub fn new(config: ClientConfig, handler: H) -> (client: Self)
        ensures
            client.spec_config() == config,
            client.spec_handler() == handler,
    {
        Self { config, handler }
    }

    pub fn config(&self) -> (config: &ClientConfig)
        ensures
            *config == self.spec_config(),
    {
        &self.config
    }

    pub fn handler(&self) -> (handler: &H)
        ensures
            *handler == self.spec_handler(),
    {
        &self.handler
    }

    /// Begins a session: it is connecting, and the caller opens the transport
    /// to the configured address.
    pub fn start(&self) -> (begun: (SessionState, SessionAction<H::Message>))
        ensures
            begun.0 == SessionState::Connecting,
            begun.1@ == Action::<H::Message>::Connect(self.spec_config().url@),
    {
        (SessionState::Connecting, SessionAction::Connect(self.config.url.clone()))
    }

    /// Takes a session one step on. The handler is asked for its
    /// subscription request when the transport of a connecting session has
    /// opened, and for what a frame is that arrives while the session streams;
    /// with its answer, whatever it is, the step is that of [`advance`].
    pub fn step(&self, state: SessionState, event: SessionEvent) -> (next: (SessionState, SessionAction<H::Message>))
        ensures
            exists|resolved: Event<H::Message>|
                answers(&self.spec_handler(), state, event, resolved) && (next.0, next.1@)
                    == session_step(state, resolved),
    {
        let input = match event {
            SessionEvent::Connected => match state {
                SessionState::Connecting => SessionInput::Connected(
                    self.handler.subscription_message(),
                ),
                _ => {
                    let ghost unused = Event::<H::Message>::Connected(JsonDoc::Null);
                    assert(answers(&self.handler, state, SessionEvent::Connected, unused)
                        && session_step(state, unused) == (state, Action::<H::Message>::Idle));
                    return (state, SessionAction::Idle);
                },
            },
            SessionEvent::Frame(frame) => match state {
                SessionState::Streaming => {
                    let message = self.handler.parse_raw_message(&frame);
                    SessionInput::Frame(frame, message)
                },
                _ => {
                    let ghost unused = Event::<H::Message>::Frame(frame@, ParsedMessage::Unknown);
                    assert(answers(&self.handler, state, SessionEvent::Frame(frame), unused)
                        && session_step(state, unused) == (state, Action::<H::Message>::Idle));
                    return (state, SessionAction::Idle);
                },
            },
            SessionEvent::ConnectFailed(reason) => SessionInput::ConnectFailed(reason),
            SessionEvent::Sent => SessionInput::Sent,
            SessionEvent::SendFailed(reason) => SessionInput::SendFailed(reason),
            SessionEvent::Tick => SessionInput::Tick,
            SessionEvent::ReadFailed(reason) => SessionInput::ReadFailed(reason),
            SessionEvent::EndOfStream => SessionInput::EndOfStream,
        };
        assert(answers(&self.handler, state, event, input@));
        advance(state, input)
    }

    /// Decides what follows a session that ended with `outcome`, when
    /// `attempts` sessions in a row had failed before it: see [`supervise`].
    pub fn after_session(&self, attempts: usize, outcome: Result<(), SessionError>) -> (decision: SupervisorAction)
        ensures
            decision@ == supervise(
                self.spec_config().max_reconnect_attempts as nat,
                self.spec_config().reconnect_interval,
                attempts as nat,
                outcome_view(outcome),
            ),
    {
        let max = self.config.max_reconnect_attempts;
        let delay = self.config.reconnect_interval;
        match outcome {
            Ok(()) => SupervisorAction::Reconnect { attempts: 0, delay },
            Err(error) => if max == 0 || attempts >= max - 1 {
                SupervisorAction::GiveUp(error)
            } else {
                SupervisorAction::Reconnect { attempts: attempts + 1, delay }
            },
        }
    }
}

/// Takes a session one step on, given the event and the handler's answer to
/// it: see [`session_step`].
pub fn advance<T>(state: SessionState, input: SessionInput<T>) -> (next: (SessionState, SessionAction<T>))
    ensures
        (next.0, next.1@) == session_step(state, input@),
{
    match state {
        SessionState::Connecting => match input {
            SessionInput::Connected(request) => {
                let text = json_render(&request);
                (SessionState::Subscribing, SessionAction::Send(OutboundFrame::Text(text)))
            },
            SessionInput::ConnectFailed(reason) => fail(FailureKind::Connect, reason),
            _ => (state, SessionAction::Idle),
        },
        SessionState::Subscribing => match input {
            SessionInput::Sent => (SessionState::Streaming, SessionAction::Idle),
            SessionInput::SendFailed(reason) => fail(FailureKind::Subscribe, reason),
            _ => (state, SessionAction::Idle),
        },
        SessionState::Streaming => match input {
            SessionInput::Tick => (state, SessionAction::Send(OutboundFrame::Ping(Vec::new()))),
            SessionInput::SendFailed(reason) => fail(FailureKind::Send, reason),
            SessionInput::ReadFailed(reason) => fail(FailureKind::Read, reason),
            SessionInput::EndOfStream => (
                SessionState::Terminated(Termination::Clean),
                SessionAction::Finish(Ok(())),
            ),
            SessionInput::Frame(frame, message) => match message {
                ParsedMessage::Message(record) => (state, SessionAction::Deliver(record)),
                ParsedMessage::Ping => {
                    let payload = match frame {
                        RawFrame::Ping(payload) => payload,
                        _ => Vec::new(),
                    };
                    (state, SessionAction::Send(OutboundFrame::Pong(payload)))
                },
                ParsedMessage::Pong => (state, SessionAction::Idle),
                ParsedMessage::Unknown => (state, SessionAction::Idle),
                ParsedMessage::Closed => (
                    SessionState::Terminated(Termination::Clean),
                    SessionAction::Finish(Ok(())),
                ),
            },
            _ => (state, SessionAction::Idle),
        },
        SessionState::Terminated(_) => (state, SessionAction::Idle),
    }
}

/// The outcome of a session as a mathematical value.
pub open spec fn outcome_view(outcome: Result<(), SessionError>) -> Result<(), Failure> {
    match outcome {
        Ok(()) => Ok(()),
        Err(error) => Err(error@),
    }
}

/// The step that ends a session with a failure.
fn fail<T>(kind: FailureKind, reason: String) -> (next: (SessionState, SessionAction<T>))
    ensures
        (next.0, next.1@) == failed::<T>(kind, reason@),
{
    (
        SessionState::Terminated(Termination::Error),
        SessionAction::Finish(Err(SessionError { kind, reason })),
    )
}

/// Where a supervisor stands after a number of sessions.
pub enum Supervision {
    /// It goes on: `sessions` were run, the last `attempts` of them failed in a row.
    Running { attempts: nat, sessions: nat },
    /// It gave up with `error` after it had run `sessions` sessions.
    Stopped { sessions: nat, error: Failure },
}

/// Where a supervisor stands that started with no failure counted and whose
/// sessions ended with `outcomes`, one after the other. After it has given up
/// it runs no further session, whatever outcomes are still on offer.
pub open spec fn supervision(max: nat, delay: Duration, outcomes: Seq<Result<(), Failure>>) -> Supervision
    decreases outcomes.len(),
{
    if outcomes.len() == 0 {
        Supervision::Running { attempts: 0, sessions: 0 }
    } else {
        match supervision(max, delay, outcomes.drop_last()) {
            Supervision::Stopped { sessions, error } => Supervision::Stopped { sessions, error },
            Supervision::Running { attempts, sessions } => match supervise(
                max,
                delay,
                attempts,
                outcomes.last(),
            ) {
                Decision::GiveUp(error) => Supervision::Stopped { sessions: sessions + 1, error },
                Decision::Reconnect { attempts, delay } => Supervision::Running {
                    attempts,
                    sessions: sessions + 1,
                },
            },
        }
    }
}

/// The number of failures at the end of `outcomes` with no clean end among them.
pub open spec fn failure_streak(outcomes: Seq<Result<(), Failure>>) -> nat
    decreases outcomes.len(),
{
    if outcomes.len() == 0 {
        0
    } else if outcomes.last() is Ok {
        0
    } else {
        failure_streak(outcomes.drop_last()) + 1
    }
}

/// The outcomes of sessions that all failed, with these failures.
pub open spec fn all_failed(failures: Seq<Failure>) -> Seq<Result<(), Failure>> {
    Seq::new(failures.len(), |i: int| Err(failures[i]))
}

/// Whether the session at place `at` of `outcomes` exhausts the attempts: it
/// failed, and with it `max` sessions or more have failed in a row.
pub open spec fn exhausts(max: nat, outcomes: Seq<Result<(), Failure>>, at: int) -> bool {
    &&& 0 <= at < outcomes.len()
    &&& outcomes[at] is Err
    &&& failure_streak(outcomes.take(at + 1)) >= max
}

/// A supervisor goes on for as long as no session exhausts the attempts: it
/// has then run every session, and counts the failures since the last clean
/// end. So a clean end at any point gives the full number of attempts back.
pub proof fn lemma_supervisor_goes_on(max: nat, delay: Duration, outcomes: Seq<Result<(), Failure>>)
    requires
        forall|at: int| !exhausts(max, outcomes, at),
    ensures
        supervision(max, delay, outcomes) == (Supervision::Running {
            attempts: failure_streak(outcomes),
            sessions: outcomes.len(),
        }),
    decreases outcomes.len(),
{
    if outcomes.len() > 0 {
        let before = outcomes.drop_last();
        assert forall|at: int| !exhausts(max, before, at) by {
            if 0 <= at < before.len() {
                assert(before.take(at + 1) =~= outcomes.take(at + 1));
                assert(!exhausts(max, outcomes, at));
            }
        }
        lemma_supervisor_goes_on(max, delay, before);
        assert(outcomes.take(outcomes.len() as int) =~= outcomes);
        assert(!exhausts(max, outcomes, outcomes.len() - 1));
    }
}

/// A supervisor gives up at the first session that exhausts the attempts,
/// with the error of that session: it has then run the sessions up to that
/// one and runs no further one, whatever would follow.
pub proof fn lemma_supervisor_stops_when_exhausted(
    max: nat,
    delay: Duration,
    outcomes: Seq<Result<(), Failure>>,
    at: int,
)
    requires
        exhausts(max, outcomes, at),
        forall|earlier: int| 0 <= earlier < at ==> !exhausts(max, outcomes, earlier),
    ensures
        supervision(max, delay, outcomes) == (Supervision::Stopped {
            sessions: (at + 1) as nat,
            error: outcomes[at]->Err_0,
        }),
{
    let before = outcomes.take(at);
    let until = outcomes.take(at + 1);
    assert forall|earlier: int| !exhausts(max, before, earlier) by {
        if 0 <= earlier < before.len() {
            assert(before.take(earlier + 1) =~= outcomes.take(earlier + 1));
            assert(!exhausts(max, outcomes, earlier));
        }
    }
    lemma_supervisor_goes_on(max, delay, before);
    assert(until.drop_last() =~= before);
    assert(until.last() == outcomes[at]);
    assert(supervision(max, delay, until) is Stopped);
    lemma_supervisor_stays_stopped(max, delay, until, outcomes.skip(at + 1));
    assert(until + outcomes.skip(at + 1) =~= outcomes);
}

/// Once a supervisor has given up, further outcomes change nothing: it runs
/// no further session.
pub proof fn lemma_supervisor_stays_stopped(
    max: nat,
    delay: Duration,
    outcomes: Seq<Result<(), Failure>>,
    rest: Seq<Result<(), Failure>>,
)
    requires
        supervision(max, delay, outcomes) is Stopped,
    ensures
        supervision(max, delay, outcomes + rest) == supervision(max, delay, outcomes),
    decreases rest.len(),
{
    if rest.len() == 0 {
        assert(outcomes + rest =~= outcomes);
    } else {
        assert((outcomes + rest).drop_last() =~= outcomes + rest.drop_last());
        lemma_supervisor_stays_stopped(max, delay, outcomes, rest.drop_last());
    }
}

/// With a ceiling of `max` attempts, `max` failed sessions in a row from the
/// start make the supervisor give up at the last of them and with its error:
/// it has then run exactly `max` sessions, and it runs no further one,
/// whatever would follow.
pub proof fn lemma_supervisor_gives_up(
    max: nat,
    delay: Duration,
    failures: Seq<Failure>,
    rest: Seq<Result<(), Failure>>,
)
    requires
        max >= 1,
        failures.len() == max,
    ensures
        supervision(max, delay, all_failed(failures) + rest) == (Supervision::Stopped {
            sessions: max,
            error: failures.last(),
        }),
{
    let outcomes = all_failed(failures) + rest;
    assert forall|at: int| 0 <= at < max implies failure_streak(#[trigger] outcomes.take(at + 1))
        == at + 1 by {
        lemma_streak_of_failures(failures.take(at + 1));
        assert(outcomes.take(at + 1) =~= all_failed(failures.take(at + 1)));
    }
    lemma_supervisor_stops_when_exhausted(max, delay, outcomes, max - 1);
}

/// Sessions that all failed are a streak of as many failures.
pub proof fn lemma_streak_of_failures(failures: Seq<Failure>)
    ensures
        failure_streak(all_failed(failures)) == failures.len(),
    decreases failures.len(),
{
    if failures.len() > 0 {
        lemma_streak_of_failures(failures.drop_last());
        assert(all_failed(failures).drop_last() =~= all_failed(failures.drop_last()));
    }
}

/// A session that starts in `start` and handles `events` one after the other:
/// the state it ends in, and the action that it took at each event.
pub open spec fn session_run<T>(start: SessionState, events: Seq<Event<T>>) -> (SessionState, Seq<Action<T>>)
    decreases events.len(),
{
    if events.len() == 0 {
        (start, Seq::empty())
    } else {
        let (state, actions) = session_run(start, events.drop_last());
        let (next, action) = session_step(state, events.last());
        (next, actions.push(action))
    }
}

/// The records that a run of actions handed to the sink, in order.
pub open spec fn deliveries<T>(actions: Seq<Action<T>>) -> Seq<T>
    decreases actions.len(),
{
    if actions.len() == 0 {
        Seq::empty()
    } else {
        match actions.last() {
            Action::Deliver(record) => deliveries(actions.drop_last()).push(record),
            _ => deliveries(actions.drop_last()),
        }
    }
}

/// The frames that a run of actions sent, in order.
pub open spec fn sent_frames<T>(actions: Seq<Action<T>>) -> Seq<Frame>
    decreases actions.len(),
{
    if actions.len() == 0 {
        Seq::empty()
    } else {
        match actions.last() {
            Action::Send(frame) => sent_frames(actions.drop_last()).push(frame),
            _ => sent_frames(actions.drop_last()),
        }
    }
}

/// The records that the handler decoded from the frames among `events`, in
/// the order in which the frames arrived.
pub open spec fn records<T>(events: Seq<Event<T>>) -> Seq<T>
    decreases events.len(),
{
    if events.len() == 0 {
        Seq::empty()
    } else {
        match events.last() {
            Event::Frame(_, ParsedMessage::Message(record)) => records(events.drop_last()).push(
                record,
            ),
            _ => records(events.drop_last()),
        }
    }
}

/// The keepalive traffic that `events` call for, in order: a probe with no
/// payload for each tick, and a reply for each probe of the peer.
pub open spec fn keepalives<T>(events: Seq<Event<T>>) -> Seq<Frame>
    decreases events.len(),
{
    if events.len() == 0 {
        Seq::empty()
    } else {
        match events.last() {
            Event::Tick => keepalives(events.drop_last()).push(Frame::Ping(Seq::empty())),
            Event::Frame(frame, ParsedMessage::Ping) => keepalives(events.drop_last()).push(
                Frame::Pong(probe_payload(frame)),
            ),
            _ => keepalives(events.drop_last()),
        }
    }
}

/// The events that a session handles before it has ended: those of
/// `events` up to the one that ends it, that one included.
pub open spec fn handled<T>(start: SessionState, events: Seq<Event<T>>) -> Seq<Event<T>>
    decreases events.len(),
{
    if events.len() == 0 {
        Seq::empty()
    } else if session_run(start, events.drop_last()).0 is Terminated {
        handled(start, events.drop_last())
    } else {
        handled(start, events.drop_last()).push(events.last())
    }
}

/// A session that has ended stays as it ended and does nothing more: no
/// record is delivered and no frame is sent after the end.
pub proof fn lemma_ended_session_is_silent<T>(end: Termination, events: Seq<Event<T>>)
    ensures
        session_run(SessionState::Terminated(end), events).0 == SessionState::Terminated(end),
        session_run(SessionState::Terminated(end), events).1.len() == events.len(),
        forall|i: int|
            0 <= i < events.len() ==> session_run(SessionState::Terminated(end), events).1[i]
                == Action::<T>::Idle,
        deliveries(session_run(SessionState::Terminated(end), events).1).len() == 0,
        sent_frames(session_run(SessionState::Terminated(end), events).1).len() == 0,
    decreases events.len(),
{
    if events.len() > 0 {
        lemma_ended_session_is_silent(end, events.drop_last());
        let run = session_run(SessionState::Terminated(end), events);
        assert(run.1.drop_last() =~= session_run(
            SessionState::Terminated(end),
            events.drop_last(),
        ).1);
    }
}

/// A streaming session streams until it ends: it never connects or
/// subscribes again.
pub proof fn lemma_streaming_or_ended<T>(events: Seq<Event<T>>)
    ensures
        session_run(SessionState::Streaming, events).0 == SessionState::Streaming || session_run(
            SessionState::Streaming,
            events,
        ).0 is Terminated,
    decreases events.len(),
{
    if events.len() > 0 {
        lemma_streaming_or_ended(events.drop_last());
    }
}

/// A streaming session hands to the sink exactly the records that were
/// decoded from the frames that arrived before it ended: each of them once,
/// in the order in which the frames arrived, and nothing else.
pub proof fn lemma_one_delivery_per_record<T>(events: Seq<Event<T>>)
    ensures
        deliveries(session_run(SessionState::Streaming, events).1) == records(
            handled(SessionState::Streaming, events),
        ),
    decreases events.len(),
{
    if events.len() > 0 {
        lemma_one_delivery_per_record(events.drop_last());
        lemma_streaming_or_ended(events.drop_last());
        let run = session_run(SessionState::Streaming, events);
        let live = handled(SessionState::Streaming, events);
        assert(run.1.drop_last() =~= session_run(SessionState::Streaming, events.drop_last()).1);
        if !(session_run(SessionState::Streaming, events.drop_last()).0 is Terminated) {
            assert(live.drop_last() =~= handled(SessionState::Streaming, events.drop_last()));
        }
    }
}

/// The frames that a streaming session sends are its keepalive traffic and
/// nothing else: one probe for each tick of the keepalive timer and one reply
/// for each probe of the peer, in the order of the events and up to the
/// event that ends the session.
pub proof fn lemma_one_probe_per_tick<T>(events: Seq<Event<T>>)
    ensures
        sent_frames(session_run(SessionState::Streaming, events).1) == keepalives(
            handled(SessionState::Streaming, events),
        ),
    decreases events.len(),
{
    if events.len() > 0 {
        lemma_one_probe_per_tick(events.drop_last());
        lemma_streaming_or_ended(events.drop_last());
        let run = session_run(SessionState::Streaming, events);
        let live = handled(SessionState::Streaming, events);
        assert(run.1.drop_last() =~= session_run(SessionState::Streaming, events.drop_last()).1);
        if !(session_run(SessionState::Streaming, events.drop_last()).0 is Terminated) {
            assert(live.drop_last() =~= handled(SessionState::Streaming, events.drop_last()));
        }
    }
}

/// A session that is still streaming after `events` has handled them all.
pub proof fn lemma_streaming_session_handles_all<T>(events: Seq<Event<T>>)
    requires
        session_run(SessionState::Streaming, events).0 == SessionState::Streaming,
    ensures
        handled(SessionState::Streaming, events) == events,
    decreases events.len(),
{
    if events.len() > 0 {
        lemma_streaming_or_ended(events.drop_last());
        lemma_streaming_session_handles_all(events.drop_last());
    }
    assert(handled(SessionState::Streaming, events) =~= events);
}

/// A binary frame whose payload does not decode ends nothing: it is
/// classified as unknown, and the session streams on without any action.
pub proof fn lemma_undecodable_frame_is_passed_over<T>(payload: Seq<u8>)
    ensures
        classify::<T>(Frame::Binary(payload), None) == ParsedMessage::<T>::Unknown,
        session_step(
            SessionState::Streaming,
            Event::Frame(Frame::Binary(payload), classify::<T>(Frame::Binary(payload), None)),
        ) == (SessionState::Streaming, Action::<T>::Idle),
{
}

} // verus!
