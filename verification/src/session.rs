//! One connection as a state machine.
//!
//! A session never touches a socket. It is told what happened on the
//! connection, one event at a time, and answers each event with the one thing
//! to do next: read, wait, write or close. Between two events at most one
//! read, one wait or one write is outstanding, and what is written is the
//! answer to the chunk read last.

use crate::config::SessionConfig;
use crate::diagnostic::{describe, describe_chunk, Diagnostic, DiagnosticView};
use crate::handler::{Client, TrollHandler};
use vstd::prelude::*;

verus! {

/// Where a session stands.
#[derive(Clone, Copy, Debug, PartialEq, Eq, Structural)]
pub enum Phase {
    /// The connection was made and nothing has happened on it yet.
    Connected,
    /// A read is outstanding.
    Reading,
    /// A chunk was read, and the wait before its echo is outstanding.
    Delaying,
    /// A write is outstanding.
    Writing,
    /// The session is over. Nothing leads out of this phase.
    Closed,
}

/// Why a session ended.
#[derive(Clone, Copy, Debug, PartialEq, Eq, Structural)]
pub enum CloseReason {
    /// A read returned no bytes: the peer closed the connection.
    PeerClosed,
    /// A read failed.
    ReadFailed,
    /// A write failed.
    WriteFailed,
}

/// Why a session refused an event. A refused event changes nothing.
#[derive(Clone, Copy, Debug, PartialEq, Eq, Structural)]
pub enum StepError {
    /// The event does not answer what the session asked for last.
    Unexpected,
    /// A read returned more bytes than the session asked for.
    Oversized,
}

/// What happened on the connection.
#[derive(Debug, PartialEq, Eq)]
pub enum Event {
    /// The connection was made.
    Opened,
    /// A read returned these bytes; none at all means that the peer closed.
    Received(Vec<u8>),
    /// A read failed.
    ReadFailed,
    /// The wait is over.
    DelayElapsed,
    /// A write went through in full.
    Written,
    /// A write failed.
    WriteFailed,
}

/// An event as a mathematical value.
pub enum EventView {
    Opened,
    Received(Seq<u8>),
    ReadFailed,
    DelayElapsed,
    Written,
    WriteFailed,
}

impl View for Event {
    type V = EventView;

    open spec fn view(&self) -> EventView {
        match self {
            Event::Opened => EventView::Opened,
            Event::Received(bytes) => EventView::Received(bytes@),
            Event::ReadFailed => EventView::ReadFailed,
            Event::DelayElapsed => EventView::DelayElapsed,
            Event::Written => EventView::Written,
            Event::WriteFailed => EventView::WriteFailed,
        }
    }
}

/// What to do next on the connection.
#[derive(Debug, PartialEq, Eq)]
pub enum Action {
    /// Read once, at most `capacity` bytes, and report `Received` or `ReadFailed`.
    Read { capacity: usize },
    /// Wait `millis` milliseconds without holding up anyone else, and report
    /// `DelayElapsed`.
    Delay { millis: u64 },
    /// Write all of these bytes, and report `Written` or `WriteFailed`.
    Write(Vec<u8>),
    /// Release the connection; there is nothing to report.
    Close(CloseReason),
}

/// An action as a mathematical value.
pub enum ActionView {
    Read { capacity: nat },
    Delay { millis: nat },
    Write(Seq<u8>),
    Close(CloseReason),
}

impl View for Action {
    type V = ActionView;

    open spec fn view(&self) -> ActionView {
        match self {
            Action::Read { capacity } => ActionView::Read { capacity: *capacity as nat },
            Action::Delay { millis } => ActionView::Delay { millis: *millis as nat },
            Action::Write(bytes) => ActionView::Write(bytes@),
            Action::Close(reason) => ActionView::Close(*reason),
        }
    }
}

/// The answer of a session to one event.
#[derive(Debug, PartialEq, Eq)]
pub struct Reply {
    /// What to do next.
    pub action: Action,
    /// What to put in the log, if anything.
    pub log: Option<Diagnostic>,
}

/// An answer as a mathematical value.
pub struct ReplyView {
    pub action: ActionView,
    pub log: Option<DiagnosticView>,
}

impl View for Reply {
    type V = ReplyView;

    open spec fn view(&self) -> ReplyView {
        ReplyView {
            action: self.action@,
            log: match self.log {
                Some(d) => Some(d@),
                None => None,
            },
        }
    }
}

/// What a session was made with and never changes.
pub struct Rules {
    /// The most bytes that one read may return.
    pub capacity: nat,
    /// The wait between a chunk and its echo, in milliseconds; zero for none.
    pub delay_ms: nat,
    /// The bytes to send when the connection opens, if any.
    pub greeting: Option<Seq<u8>>,
    /// The bytes to send back for a chunk.
    pub respond: spec_fn(Seq<u8>) -> Seq<u8>,
}

/// The rules that follow from a configuration and a handler.
pub open spec fn rules_of<H: Client>(config: SessionConfig, handler: H) -> Rules {
    Rules {
        capacity: config.spec_capacity(),
        delay_ms: config.spec_delay_ms(),
        greeting: handler.greeting(),
        respond: |msg: Seq<u8>| handler.response(msg),
    }
}

/// Whether the rules answer every chunk with the chunk itself.
pub open spec fn echoes(rules: Rules) -> bool {
    forall|msg: Seq<u8>| #[trigger] (rules.respond)(msg) == msg
}

/// Every session whose strategy is a `TrollHandler` echoes.
pub proof fn troll_echoes(config: SessionConfig, handler: TrollHandler)
    ensures
        echoes(rules_of(config, handler)),
{
}

/// The state of a session: its phase and, while it waits, the bytes that the
/// wait holds back.
pub enum SessionState {
    Connected,
    Reading,
    Delaying(Seq<u8>),
    Writing,
    Closed,
}

impl SessionState {
    /// The phase of a state.
    pub open spec fn phase(self) -> Phase {
        match self {
            SessionState::Connected => Phase::Connected,
            SessionState::Reading => Phase::Reading,
            SessionState::Delaying(_) => Phase::Delaying,
            SessionState::Writing => Phase::Writing,
            SessionState::Closed => Phase::Closed,
        }
    }
}

/// An answer that puts nothing in the log.
pub open spec fn quiet(action: ActionView) -> ReplyView {
    ReplyView { action, log: None }
}

/// The answer to a chunk that arrived: the chunk goes to the log, and its
/// response is written, after the wait if there is one.
pub open spec fn on_chunk(rules: Rules, chunk: Seq<u8>) -> (SessionState, ReplyView) {
    let answer = (rules.respond)(chunk);
    let log = Some(describe(chunk));
    if rules.delay_ms > 0 {
        (
            SessionState::Delaying(answer),
            ReplyView { action: ActionView::Delay { millis: rules.delay_ms }, log },
        )
    } else {
        (SessionState::Writing, ReplyView { action: ActionView::Write(answer), log })
    }
}

/// The whole behaviour of a session: the state and the answer that follow from
/// a state and an event, or the refusal of the event.
///
/// * A connection that opens is greeted, if there is a greeting, and read from.
/// * A read of no bytes ends the session in silence.
/// * A read of some bytes, at most the capacity, is logged and answered.
/// * After a write the session reads again.
/// * A failed read or write is logged and ends the session.
/// * Every other pair of state and event is refused.
pub open spec fn transition(rules: Rules, state: SessionState, event: EventView) -> Result<
    (SessionState, ReplyView),
    StepError,
> {
    match (state, event) {
        (SessionState::Connected, EventView::Opened) => match rules.greeting {
            Some(hello) => Ok((SessionState::Writing, quiet(ActionView::Write(hello)))),
            None => Ok(
                (SessionState::Reading, quiet(ActionView::Read { capacity: rules.capacity })),
            ),
        },
        (SessionState::Reading, EventView::Received(chunk)) => if chunk.len() == 0 {
            Ok((SessionState::Closed, quiet(ActionView::Close(CloseReason::PeerClosed))))
        } else if chunk.len() > rules.capacity {
            Err(StepError::Oversized)
        } else {
            Ok(on_chunk(rules, chunk))
        },
        (SessionState::Reading, EventView::ReadFailed) => Ok(
            (
                SessionState::Closed,
                ReplyView {
                    action: ActionView::Close(CloseReason::ReadFailed),
                    log: Some(DiagnosticView::ReadFailed),
                },
            ),
        ),
        (SessionState::Delaying(answer), EventView::DelayElapsed) => Ok(
            (SessionState::Writing, quiet(ActionView::Write(answer))),
        ),
        (SessionState::Writing, EventView::Written) => Ok(
            (SessionState::Reading, quiet(ActionView::Read { capacity: rules.capacity })),
        ),
        (SessionState::Writing, EventView::WriteFailed) => Ok(
            (
                SessionState::Closed,
                ReplyView {
                    action: ActionView::Close(CloseReason::WriteFailed),
                    log: Some(DiagnosticView::WriteFailed),
                },
            ),
        ),
        _ => Err(StepError::Unexpected),
    }
}

/// One connection: its settings, its strategy and where it stands.
pub struct Session<H: Client> {
    config: SessionConfig,
    handler: H,
    phase: Phase,
    pending: Vec<u8>,
}

impl<H: Client> View for Session<H> {
    type V = SessionState;

    closed spec fn view(&self) -> SessionState {
        match self.phase {
            Phase::Connected => SessionState::Connected,
            Phase::Reading => SessionState::Reading,
            Phase::Delaying => SessionState::Delaying(self.pending@),
            Phase::Writing => SessionState::Writing,
            Phase::Closed => SessionState::Closed,
        }
    }
}

impl<H: Client> Session<H> {
    /// What the session was made with.
    pub closed spec fn rules(&self) -> Rules {
        rules_of(self.config, self.handler)
    }

    /// A session for a connection that was just made.
    pub fn new(config: SessionConfig, handler: H) -> (s: Session<H>)
        ensures
            s@ == SessionState::Connected,
            s.rules() == rules_of(config, handler),
    {
        Session { config, handler, phase: Phase::Connected, pending: Vec::new() }
    }

    /// Where the session stands.
    pub fn phase(&self) -> (p: Phase)
        ensures
            p == self@.phase(),
    {
        self.phase
    }

    /// Whether the session is over.
    pub fn is_closed(&self) -> (b: bool)
        ensures
            b == (self@ == SessionState::Closed),
    {
        match self.phase {
            Phase::Closed => true,
            _ => false,
        }
    }

    /// Takes one event and says what to do next, as `transition` has it. An
    /// event that is refused leaves the session as it was. A read that the
    /// session asks for is never for zero bytes.
    pub fn step(&mut self, event: Event) -> (r: Result<Reply, StepError>)
        ensures
            final(self).rules() == old(self).rules(),
            match transition(old(self).rules(), old(self)@, event@) {
                Ok((next, reply)) => r matches Ok(got) && got@ == reply && final(self)@ == next,
                Err(e) => r == Err::<Reply, StepError>(e) && final(self)@ == old(self)@,
            },
            r matches Ok(got) ==> (got.action matches Action::Read { capacity } ==> capacity > 0),
    {
        match self.phase {
            Phase::Connected => match event {
                Event::Opened => match self.handler.on_connect() {
                    Some(hello) => {
                        self.phase = Phase::Writing;
                        Ok(Reply { action: Action::Write(hello), log: None })
                    },
                    None => {
                        self.phase = Phase::Reading;
                        Ok(Reply { action: self.read(), log: None })
                    },
                },
                _ => Err(StepError::Unexpected),
            },
            Phase::Reading => match event {
                Event::Received(chunk) => {
                    if chunk.len() == 0 {
                        self.phase = Phase::Closed;
                        Ok(Reply { action: Action::Close(CloseReason::PeerClosed), log: None })
                    } else if chunk.len() > self.config.capacity() {
                        Err(StepError::Oversized)
                    } else {
                        let log = Some(describe_chunk(chunk.as_slice()));
                        let answer = self.handler.handle(chunk.as_slice());
                        let millis = self.config.delay_ms();
                        if millis > 0 {
                            self.pending = answer;
                            self.phase = Phase::Delaying;
                            Ok(Reply { action: Action::Delay { millis }, log })
                        } else {
                            self.phase = Phase::Writing;
                            Ok(Reply { action: Action::Write(answer), log })
                        }
                    }
                },
                Event::ReadFailed => {
                    self.phase = Phase::Closed;
                    Ok(
                        Reply {
                            action: Action::Close(CloseReason::ReadFailed),
                            log: Some(Diagnostic::ReadFailed),
                        },
                    )
                },
                _ => Err(StepError::Unexpected),
            },
            Phase::Delaying => match event {
                Event::DelayElapsed => {
                    let mut answer: Vec<u8> = Vec::new();
                    std::mem::swap(&mut self.pending, &mut answer);
                    self.phase = Phase::Writing;
                    Ok(Reply { action: Action::Write(answer), log: None })
                },
                _ => Err(StepError::Unexpected),
            },
            Phase::Writing => match event {
                Event::Written => {
                    self.phase = Phase::Reading;
                    Ok(Reply { action: self.read(), log: None })
                },
                Event::WriteFailed => {
                    self.phase = Phase::Closed;
                    Ok(
                        Reply {
                            action: Action::Close(CloseReason::WriteFailed),
                            log: Some(Diagnostic::WriteFailed),
                        },
                    )
                },
                _ => Err(StepError::Unexpected),
            },
            Phase::Closed => Err(StepError::Unexpected),
        }
    }

    /// The request for one read of at most the capacity.
    fn read(&self) -> (a: Action)
        ensures
            a@ == (ActionView::Read { capacity: self.rules().capacity }),
            a matches Action::Read { capacity } && capacity > 0,
    {
        Action::Read { capacity: self.config.capacity() }
    }
}

} // verus!
