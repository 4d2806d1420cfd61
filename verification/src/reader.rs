//! The socket event reader, as a state machine.
//!
//! The reader connects to the Herdr socket, writes the subscription request,
//! and reads the acknowledgement. It reports on startup exactly once: that
//! the subscription started, or why it did not. After a good start it reads
//! one line at a time and delivers each as an event, or as the error of a
//! line that is not an event, until the socket closes, a read fails, or no
//! one takes the events any more. The caller performs each action and hands
//! back what came of it.

use vstd::prelude::*;
use crate::error::RuntimeError;
use crate::events::{EventEnvelope, RuntimeEvent, runtime_event_of};
use crate::json::JsonValue;
use crate::socket::{
    ParsedJson, SocketSubscription, ack_accepted, ack_rejection, socket_subscribe_request,
    subscribe_request_json, validate_subscription_ack,
};

verus! {

/// Where the reader stands.
#[derive(Clone, Copy, Debug, PartialEq, Eq, Structural)]
pub enum ReaderPhase {
    Start,
    Connecting,
    Subscribing,
    AwaitingAck,
    Streaming,
    Delivering,
    Stopped,
}

/// What came of the reader's last action.
pub enum ReaderInput {
    /// The reader starts.
    Begin,
    /// The connection was attempted; on failure, the I/O error's text.
    Connected(Result<(), String>),
    /// The subscription request was written; on failure, the I/O error's text.
    Written(Result<(), String>),
    /// The acknowledgement was read: the line and what it parses to, or
    /// `None` when the socket closed first; on failure, the I/O error's text.
    AckRead(Result<Option<(String, Result<ParsedJson, String>)>, String>),
    /// A line was read: the line and the event envelope it parses to, or the
    /// parser's message; `None` when the socket closed; on failure, the I/O
    /// error's text.
    LineRead(Result<Option<(String, Result<EventEnvelope, String>)>, String>),
    /// The last delivery was taken, or no one takes deliveries any more.
    Delivered(bool),
}

/// What the caller is to do next.
pub enum ReaderAction {
    /// Connect to the socket.
    Connect,
    /// Write this subscription request as one line.
    Subscribe(JsonValue),
    /// Read the acknowledgement line.
    ReadAck,
    /// Report that the subscription started, then read the next line.
    Ready,
    /// Report that startup failed with this error, and stop.
    Fail(RuntimeError),
    /// Read the next line.
    ReadLine,
    /// Deliver this event, or this error of a line that is not an event.
    Deliver(Result<RuntimeEvent, RuntimeError>),
    /// Deliver this error, if any, and stop.
    Finish(Option<RuntimeError>),
    /// The input does not apply to the current phase; nothing to do.
    Ignore,
}

/// The state of a socket event reader.
pub struct SocketReader {
    /// The socket's path.
    pub path: String,
    /// What to subscribe to.
    pub subscriptions: Vec<SocketSubscription>,
    pub phase: ReaderPhase,
}

/// `e` is the I/O error at the reader's socket with text `detail`.
pub open spec fn io_error(s: SocketReader, detail: String, e: RuntimeError) -> bool {
    e == RuntimeError::SocketIo { path: s.path, detail }
}

/// `s` with its phase set to `phase`.
pub open spec fn in_phase(s: SocketReader, phase: ReaderPhase) -> SocketReader {
    SocketReader { phase, ..s }
}

/// A step of the reader from `s` on `input` goes to `next` and asks for `action`.
pub open spec fn reader_step(s: SocketReader, input: ReaderInput, next: SocketReader, action: ReaderAction) -> bool {
    match (s.phase, input) {
        (ReaderPhase::Start, ReaderInput::Begin) => next == in_phase(s, ReaderPhase::Connecting)
            && action is Connect,
        (ReaderPhase::Connecting, ReaderInput::Connected(Ok(()))) => next == in_phase(
            s,
            ReaderPhase::Subscribing,
        ) && (action matches ReaderAction::Subscribe(v) && v.model() == subscribe_request_json(
            s.subscriptions@,
        )),
        (ReaderPhase::Connecting, ReaderInput::Connected(Err(detail))) => next == in_phase(
            s,
            ReaderPhase::Stopped,
        ) && (action matches ReaderAction::Fail(e) && io_error(s, detail, e)),
        (ReaderPhase::Subscribing, ReaderInput::Written(Ok(()))) => next == in_phase(
            s,
            ReaderPhase::AwaitingAck,
        ) && action is ReadAck,
        (ReaderPhase::Subscribing, ReaderInput::Written(Err(detail))) => next == in_phase(
            s,
            ReaderPhase::Stopped,
        ) && (action matches ReaderAction::Fail(e) && io_error(s, detail, e)),
        (ReaderPhase::AwaitingAck, ReaderInput::AckRead(Err(detail))) => next == in_phase(
            s,
            ReaderPhase::Stopped,
        ) && (action matches ReaderAction::Fail(e) && io_error(s, detail, e)),
        (ReaderPhase::AwaitingAck, ReaderInput::AckRead(Ok(ack))) => if ack_accepted(ack) {
            next == in_phase(s, ReaderPhase::Streaming) && action is Ready
        } else {
            next == in_phase(s, ReaderPhase::Stopped) && (action matches ReaderAction::Fail(e)
                && ack_rejection(ack, e))
        },
        (ReaderPhase::Streaming, ReaderInput::LineRead(Ok(Some((line, parsed))))) => next
            == in_phase(s, ReaderPhase::Delivering) && action == ReaderAction::Deliver(
            match parsed {
                Ok(envelope) => Ok(runtime_event_of(envelope.data)),
                Err(detail) => Err(RuntimeError::InvalidSocketJson { json: line, detail }),
            },
        ),
        (ReaderPhase::Streaming, ReaderInput::LineRead(Ok(None))) => next == in_phase(
            s,
            ReaderPhase::Stopped,
        ) && action == ReaderAction::Finish(None),
        (ReaderPhase::Streaming, ReaderInput::LineRead(Err(detail))) => next == in_phase(
            s,
            ReaderPhase::Stopped,
        ) && (action matches ReaderAction::Finish(Some(e)) && io_error(s, detail, e)),
        (ReaderPhase::Delivering, ReaderInput::Delivered(taken)) => if taken {
            next == in_phase(s, ReaderPhase::Streaming) && action is ReadLine
        } else {
            next == in_phase(s, ReaderPhase::Stopped) && action == ReaderAction::Finish(None)
        },
        _ => next == s && action is Ignore,
    }
}

impl SocketReader {
    /// A reader for the socket at `path` that will subscribe to `subscriptions`.
    pub fn new(path: String, subscriptions: Vec<SocketSubscription>) -> (r: Self)
        ensures
            r == (SocketReader { path, subscriptions, phase: ReaderPhase::Start }),
    {
        SocketReader { path, subscriptions, phase: ReaderPhase::Start }
    }

    /// The I/O error at this reader's socket with text `detail`.
    fn io_error(&self, detail: String) -> (e: RuntimeError)
        ensures
            io_error(*self, detail, e),
    {
        RuntimeError::SocketIo { path: self.path.clone(), detail }
    }

    /// Takes one step: the next state, and what to do.
    pub fn step(self, input: ReaderInput) -> (r: (SocketReader, ReaderAction))
        ensures
            reader_step(self, input, r.0, r.1),
    {
        match (self.phase, input) {
            (ReaderPhase::Start, ReaderInput::Begin) => (
                SocketReader { phase: ReaderPhase::Connecting, ..self },
                ReaderAction::Connect,
            ),
            (ReaderPhase::Connecting, ReaderInput::Connected(Ok(()))) => {
                let request = socket_subscribe_request(&self.subscriptions);
                (SocketReader { phase: ReaderPhase::Subscribing, ..self }, ReaderAction::Subscribe(request))
            },
            (ReaderPhase::Connecting, ReaderInput::Connected(Err(detail))) => {
                let e = self.io_error(detail);
                (SocketReader { phase: ReaderPhase::Stopped, ..self }, ReaderAction::Fail(e))
            },
            (ReaderPhase::Subscribing, ReaderInput::Written(Ok(()))) => (
                SocketReader { phase: ReaderPhase::AwaitingAck, ..self },
                ReaderAction::ReadAck,
            ),
            (ReaderPhase::Subscribing, ReaderInput::Written(Err(detail))) => {
                let e = self.io_error(detail);
                (SocketReader { phase: ReaderPhase::Stopped, ..self }, ReaderAction::Fail(e))
            },
            (ReaderPhase::AwaitingAck, ReaderInput::AckRead(Err(detail))) => {
                let e = self.io_error(detail);
                (SocketReader { phase: ReaderPhase::Stopped, ..self }, ReaderAction::Fail(e))
            },
            (ReaderPhase::AwaitingAck, ReaderInput::AckRead(Ok(ack))) => {
                match validate_subscription_ack(ack) {
                    Ok(()) => (SocketReader { phase: ReaderPhase::Streaming, ..self }, ReaderAction::Ready),
                    Err(e) => (SocketReader { phase: ReaderPhase::Stopped, ..self }, ReaderAction::Fail(e)),
                }
            },
            (ReaderPhase::Streaming, ReaderInput::LineRead(Ok(Some((line, parsed))))) => {
                let delivery = match parsed {
                    Ok(envelope) => Ok(RuntimeEvent::from_envelope(envelope)),
                    Err(detail) => Err(RuntimeError::InvalidSocketJson { json: line, detail }),
                };
                (SocketReader { phase: ReaderPhase::Delivering, ..self }, ReaderAction::Deliver(delivery))
            },
            (ReaderPhase::Streaming, ReaderInput::LineRead(Ok(None))) => (
                SocketReader { phase: ReaderPhase::Stopped, ..self },
                ReaderAction::Finish(None),
            ),
            (ReaderPhase::Streaming, ReaderInput::LineRead(Err(detail))) => {
                let e = self.io_error(detail);
                (SocketReader { phase: ReaderPhase::Stopped, ..self }, ReaderAction::Finish(Some(e)))
            },
            (ReaderPhase::Delivering, ReaderInput::Delivered(taken)) => {
                if taken {
                    (SocketReader { phase: ReaderPhase::Streaming, ..self }, ReaderAction::ReadLine)
                } else {
                    (SocketReader { phase: ReaderPhase::Stopped, ..self }, ReaderAction::Finish(None))
                }
            },
            (_, _) => (self, ReaderAction::Ignore),
        }
    }
}

/// How a command sent over the socket went: where it failed, or the reply
/// line and what it parses to.
pub enum CommandExchange {
    /// Connecting failed with this I/O error's text.
    ConnectFailed(String),
    /// Writing the command failed with this I/O error's text.
    WriteFailed(String),
    /// Reading the reply failed with this I/O error's text.
    ReadFailed(String),
    /// The socket closed before it replied.
    Closed,
    /// The reply line, and the value it parses to or the parser's message.
    Replied(String, Result<JsonValue, String>),
}

/// The result of a command sent over the socket at `path`: the reply's value,
/// or the error of the step that failed.
pub fn command_result(path: &str, exchange: CommandExchange) -> (r: Result<JsonValue, RuntimeError>)
    ensures
        match exchange {
            CommandExchange::ConnectFailed(detail) => r matches Err(RuntimeError::SocketIo { path: p, detail: d })
                && p@ == path@ && d == detail,
            CommandExchange::WriteFailed(detail) => r matches Err(RuntimeError::SocketIo { path: p, detail: d })
                && p@ == path@ && d == detail,
            CommandExchange::ReadFailed(detail) => r matches Err(RuntimeError::SocketIo { path: p, detail: d })
                && p@ == path@ && d == detail,
            CommandExchange::Closed => r matches Err(RuntimeError::SocketSubscription { message })
                && message@ == "socket closed before command response"@,
            CommandExchange::Replied(line, Ok(value)) => r == Ok::<JsonValue, RuntimeError>(value),
            CommandExchange::Replied(line, Err(detail)) => r == Err::<JsonValue, RuntimeError>(
                RuntimeError::InvalidSocketJson { json: line, detail },
            ),
        },
{
    match exchange {
        CommandExchange::ConnectFailed(detail) => Err(RuntimeError::SocketIo { path: path.to_owned(), detail }),
        CommandExchange::WriteFailed(detail) => Err(RuntimeError::SocketIo { path: path.to_owned(), detail }),
        CommandExchange::ReadFailed(detail) => Err(RuntimeError::SocketIo { path: path.to_owned(), detail }),
        CommandExchange::Closed => Err(RuntimeError::SocketSubscription {
            message: "socket closed before command response".to_owned(),
        }),
        CommandExchange::Replied(_, Ok(value)) => Ok(value),
        CommandExchange::Replied(line, Err(detail)) => Err(RuntimeError::InvalidSocketJson { json: line, detail }),
    }
}

/// While streaming, every line that is an event envelope is delivered as
/// the typed event of its payload, and every line that is not is delivered
/// as an `InvalidSocketJson` error carrying the line and the parser's
/// message.
pub proof fn lemma_lines_are_delivered(s: SocketReader, line: String, parsed: Result<EventEnvelope, String>, next: SocketReader, action: ReaderAction)
    requires
        s.phase is Streaming,
        reader_step(s, ReaderInput::LineRead(Ok(Some((line, parsed)))), next, action),
    ensures
        next.phase is Delivering,
        parsed matches Ok(envelope) ==> action == ReaderAction::Deliver(Ok(runtime_event_of(envelope.data))),
        parsed matches Err(detail) ==> action == ReaderAction::Deliver(
            Err(RuntimeError::InvalidSocketJson { json: line, detail }),
        ),
{
}

/// Once connected, the reader writes the request that subscribes to exactly
/// its subscriptions: `events.subscribe` with them as parameters.
pub proof fn lemma_reader_subscribes_to_its_subscriptions(s: SocketReader, next: SocketReader, action: ReaderAction)
    requires
        s.phase is Connecting,
        reader_step(s, ReaderInput::Connected(Ok(())), next, action),
    ensures
        next.phase is Subscribing,
        action matches ReaderAction::Subscribe(v) && v.model() == subscribe_request_json(s.subscriptions@),
{
}

/// The reader keeps reading lines as long as its deliveries are taken, and
/// stops, with nothing more to deliver, once one is not; it starts streaming
/// on an accepted acknowledgement, and on any other reply fails with that
/// reply's rejection.
pub proof fn lemma_reader_keeps_reading(s: SocketReader, input: ReaderInput, next: SocketReader, action: ReaderAction)
    requires
        reader_step(s, input, next, action),
    ensures
        s.phase is Delivering && input == ReaderInput::Delivered(true) ==> next.phase is Streaming
            && action is ReadLine,
        s.phase is Delivering && input == ReaderInput::Delivered(false) ==> next.phase is Stopped
            && action == ReaderAction::Finish(None),
        s.phase is AwaitingAck ==> (input matches ReaderInput::AckRead(Ok(ack)) ==> (ack_accepted(ack)
            ==> next.phase is Streaming && action is Ready) && (!ack_accepted(ack) ==> next.phase is Stopped
            && (action matches ReaderAction::Fail(e) && ack_rejection(ack, e)))),
{
}

/// Whether the reader has reported on startup.
pub open spec fn has_reported_startup(phase: ReaderPhase) -> bool {
    phase is Streaming || phase is Delivering || phase is Stopped
}

/// The reader reports on startup exactly once: a report (`Ready` or `Fail`)
/// comes only from a phase before the report and leads to one after it, and
/// no step leads back.
pub proof fn lemma_startup_reported_once(s: SocketReader, input: ReaderInput, next: SocketReader, action: ReaderAction)
    requires
        reader_step(s, input, next, action),
    ensures
        (action is Ready || action is Fail) ==> !has_reported_startup(s.phase) && has_reported_startup(next.phase),
        has_reported_startup(s.phase) ==> has_reported_startup(next.phase),
{
}

/// Events are delivered only once the subscription started: a delivery comes
/// only from the streaming phase, and the streaming phase is entered only by
/// an accepted acknowledgement or after a delivery was taken.
pub proof fn lemma_delivery_only_after_subscription(s: SocketReader, input: ReaderInput, next: SocketReader, action: ReaderAction)
    requires
        reader_step(s, input, next, action),
    ensures
        action is Deliver ==> s.phase is Streaming && next.phase is Delivering,
        next.phase is Streaming && !(s.phase is Streaming) ==> (s.phase is AwaitingAck && action is Ready
            && (input matches ReaderInput::AckRead(Ok(ack)) && ack_accepted(ack))) || (s.phase is Delivering
            && input == ReaderInput::Delivered(true)),
{
}

/// A stopped reader stays stopped and does nothing; every step keeps the
/// reader's socket and subscriptions.
pub proof fn lemma_reader_stop_is_final(s: SocketReader, input: ReaderInput, next: SocketReader, action: ReaderAction)
    requires
        reader_step(s, input, next, action),
    ensures
        s.phase is Stopped ==> next == s && action is Ignore,
        next.path == s.path,
        next.subscriptions == s.subscriptions,
{
}

} // verus!
