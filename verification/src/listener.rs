//! The accepting side of a server as a state machine.
//!
//! A listener binds once and then accepts for as long as it runs. Each
//! connection that it accepts is handed to a session of its own, and the
//! listener goes back to accepting at once: it never waits for a session.

use crate::config::{AcceptPolicy, Endpoint, ServerConfig};
use crate::handler::TrollHandler;
use crate::session::{echoes, Session, SessionState, StepError};
use vstd::prelude::*;

verus! {

/// Where a listener stands.
#[derive(Clone, Copy, Debug, PartialEq, Eq, Structural)]
pub enum ListenerPhase {
    /// Nothing has been asked of the listener yet.
    Idle,
    /// The bind is outstanding.
    Binding,
    /// An accept is outstanding.
    Accepting,
    /// A connection was accepted and is being handed to its session.
    Spawning,
    /// The listener has stopped. Nothing leads out of this phase.
    Stopped,
}

/// What happened to the listener.
#[derive(Clone, Copy, Debug, PartialEq, Eq, Structural)]
pub enum ListenerEvent {
    /// The server was started.
    Started,
    /// The address is bound.
    Bound,
    /// The address could not be bound.
    BindFailed,
    /// A connection was accepted.
    Accepted,
    /// An accept failed.
    AcceptFailed,
    /// The accepted connection runs in a task of its own.
    Spawned,
}

/// Why a server stopped.
#[derive(Clone, Copy, Debug, PartialEq, Eq, Structural)]
pub enum ServerError {
    /// The address could not be bound.
    BindError,
    /// An accept failed, and the server was set up to stop then.
    AcceptError,
}

/// What a listener has to report.
#[derive(Clone, Copy, Debug, PartialEq, Eq, Structural)]
pub enum ListenerNote {
    /// The server is up.
    Listening,
    /// A connection was accepted.
    Connection,
    /// The address could not be bound.
    BindFailed,
    /// An accept failed.
    AcceptFailed,
}

/// What to do next for the listener.
#[derive(Clone, Copy, Debug, PartialEq, Eq)]
pub enum ListenerAction {
    /// Bind this address, and report `Bound` or `BindFailed`.
    Bind(Endpoint),
    /// Accept one connection, and report `Accepted` or `AcceptFailed`.
    Accept,
    /// Run the accepted connection in a task of its own, with a session from
    /// `Listener::session`, and report `Spawned` without waiting for the task.
    Spawn,
    /// Give up with this error; there is nothing to report.
    Stop(ServerError),
}

/// The answer of a listener to one event.
#[derive(Clone, Copy, Debug, PartialEq, Eq)]
pub struct ListenerReply {
    /// What to do next.
    pub action: ListenerAction,
    /// What to put in the log, if anything.
    pub log: Option<ListenerNote>,
}

/// The whole behaviour of a listener: the phase and the answer that follow
/// from a phase and an event, or the refusal of the event.
///
/// * A listener that is started binds its address.
/// * Once bound it accepts, and after each connection it accepts again.
/// * A failed bind stops it. A failed accept stops it or is only reported, as
///   it was set up.
/// * Every other pair of phase and event is refused.
pub open spec fn listener_transition(
    config: ServerConfig,
    phase: ListenerPhase,
    event: ListenerEvent,
) -> Result<(ListenerPhase, ListenerReply), StepError> {
    match (phase, event) {
        (ListenerPhase::Idle, ListenerEvent::Started) => Ok(
            (
                ListenerPhase::Binding,
                ListenerReply { action: ListenerAction::Bind(config.address), log: None },
            ),
        ),
        (ListenerPhase::Binding, ListenerEvent::Bound) => Ok(
            (
                ListenerPhase::Accepting,
                ListenerReply { action: ListenerAction::Accept, log: Some(ListenerNote::Listening) },
            ),
        ),
        (ListenerPhase::Binding, ListenerEvent::BindFailed) => Ok(
            (
                ListenerPhase::Stopped,
                ListenerReply {
                    action: ListenerAction::Stop(ServerError::BindError),
                    log: Some(ListenerNote::BindFailed),
                },
            ),
        ),
        (ListenerPhase::Accepting, ListenerEvent::Accepted) => Ok(
            (
                ListenerPhase::Spawning,
                ListenerReply { action: ListenerAction::Spawn, log: Some(ListenerNote::Connection) },
            ),
        ),
        (ListenerPhase::Accepting, ListenerEvent::AcceptFailed) => match config.accept_policy {
            AcceptPolicy::Fatal => Ok(
                (
                    ListenerPhase::Stopped,
                    ListenerReply {
                        action: ListenerAction::Stop(ServerError::AcceptError),
                        log: Some(ListenerNote::AcceptFailed),
                    },
                ),
            ),
            AcceptPolicy::Resilient => Ok(
                (
                    ListenerPhase::Accepting,
                    ListenerReply {
                        action: ListenerAction::Accept,
                        log: Some(ListenerNote::AcceptFailed),
                    },
                ),
            ),
        },
        (ListenerPhase::Spawning, ListenerEvent::Spawned) => Ok(
            (ListenerPhase::Accepting, ListenerReply { action: ListenerAction::Accept, log: None }),
        ),
        _ => Err(StepError::Unexpected),
    }
}

/// The phase of a listener after more events, delivered in order. A refused
/// event leaves the phase as it is.
pub open spec fn listener_advance(
    config: ServerConfig,
    phase: ListenerPhase,
    events: Seq<ListenerEvent>,
) -> ListenerPhase
    decreases events.len(),
{
    if events.len() == 0 {
        phase
    } else {
        let before = listener_advance(config, phase, events.drop_last());
        match listener_transition(config, before, events.last()) {
            Ok((next, _)) => next,
            Err(_) => before,
        }
    }
}

/// Whether an event can stop a listener that is set up with `config`.
pub open spec fn is_fatal(config: ServerConfig, event: ListenerEvent) -> bool {
    event == ListenerEvent::BindFailed || (event == ListenerEvent::AcceptFailed
        && config.accept_policy == AcceptPolicy::Fatal)
}

/// A listener does not return of itself: it stops only when a bind fails, or
/// when an accept fails and it was set up to stop then. However many
/// connections it accepts and hands on, it stays up.
pub proof fn stops_only_on_failure(
    config: ServerConfig,
    phase: ListenerPhase,
    events: Seq<ListenerEvent>,
)
    requires
        phase != ListenerPhase::Stopped,
        forall|i: int| 0 <= i < events.len() ==> !is_fatal(config, #[trigger] events[i]),
    ensures
        listener_advance(config, phase, events) != ListenerPhase::Stopped,
    decreases events.len(),
{
    if events.len() > 0 {
        stops_only_on_failure(config, phase, events.drop_last());
        assert(!is_fatal(config, events[events.len() - 1]));
    }
}

/// A stopped listener stays stopped, whatever it is told.
pub proof fn stopped_is_final(config: ServerConfig, events: Seq<ListenerEvent>)
    ensures
        listener_advance(config, ListenerPhase::Stopped, events) == ListenerPhase::Stopped,
    decreases events.len(),
{
    if events.len() > 0 {
        stopped_is_final(config, events.drop_last());
    }
}

/// The accepting side of one server.
pub struct Listener {
    config: ServerConfig,
    phase: ListenerPhase,
}

impl Listener {
    /// What the listener was set up with.
    pub closed spec fn config(&self) -> ServerConfig {
        self.config
    }

    /// Where the listener stands.
    pub closed spec fn spec_phase(&self) -> ListenerPhase {
        self.phase
    }

    /// A listener that has not been started.
    pub fn new(config: ServerConfig) -> (l: Listener)
        ensures
            l.config() == config,
            l.spec_phase() == ListenerPhase::Idle,
    {
        Listener { config, phase: ListenerPhase::Idle }
    }

    /// Where the listener stands.
    pub fn phase(&self) -> (p: ListenerPhase)
        ensures
            p == self.spec_phase(),
    {
        self.phase
    }

    /// Takes one event and says what to do next, as `listener_transition` has
    /// it. An event that is refused leaves the listener as it was.
    pub fn step(&mut self, event: ListenerEvent) -> (r: Result<ListenerReply, StepError>)
        ensures
            final(self).config() == old(self).config(),
            match listener_transition(old(self).config(), old(self).spec_phase(), event) {
                Ok((next, reply)) => r == Ok::<ListenerReply, StepError>(reply)
                    && final(self).spec_phase() == next,
                Err(e) => r == Err::<ListenerReply, StepError>(e) && final(self).spec_phase()
                    == old(self).spec_phase(),
            },
    {
        match (self.phase, event) {
            (ListenerPhase::Idle, ListenerEvent::Started) => {
                self.phase = ListenerPhase::Binding;
                Ok(ListenerReply { action: ListenerAction::Bind(self.config.address), log: None })
            },
            (ListenerPhase::Binding, ListenerEvent::Bound) => {
                self.phase = ListenerPhase::Accepting;
                Ok(
                    ListenerReply {
                        action: ListenerAction::Accept,
                        log: Some(ListenerNote::Listening),
                    },
                )
            },
            (ListenerPhase::Binding, ListenerEvent::BindFailed) => {
                self.phase = ListenerPhase::Stopped;
                Ok(
                    ListenerReply {
                        action: ListenerAction::Stop(ServerError::BindError),
                        log: Some(ListenerNote::BindFailed),
                    },
                )
            },
            (ListenerPhase::Accepting, ListenerEvent::Accepted) => {
                self.phase = ListenerPhase::Spawning;
                Ok(
                    ListenerReply {
                        action: ListenerAction::Spawn,
                        log: Some(ListenerNote::Connection),
                    },
                )
            },
            (ListenerPhase::Accepting, ListenerEvent::AcceptFailed) => {
                match self.config.accept_policy {
                    AcceptPolicy::Fatal => {
                        self.phase = ListenerPhase::Stopped;
                        Ok(
                            ListenerReply {
                                action: ListenerAction::Stop(ServerError::AcceptError),
                                log: Some(ListenerNote::AcceptFailed),
                            },
                        )
                    },
                    AcceptPolicy::Resilient => Ok(
                        ListenerReply {
                            action: ListenerAction::Accept,
                            log: Some(ListenerNote::AcceptFailed),
                        },
                    ),
                }
            },
            (ListenerPhase::Spawning, ListenerEvent::Spawned) => {
                self.phase = ListenerPhase::Accepting;
                Ok(ListenerReply { action: ListenerAction::Accept, log: None })
            },
            _ => Err(StepError::Unexpected),
        }
    }

    /// The session for a connection that was just accepted. It has the
    /// settings of the server, sends nothing of its own and answers every
    /// chunk with the chunk itself. Each call gives a session that shares
    /// nothing with any other.
    pub fn session(&self) -> (s: Session<TrollHandler>)
        ensures
            s@ == SessionState::Connected,
            s.rules().capacity == self.config().session.spec_capacity(),
            s.rules().delay_ms == self.config().session.spec_delay_ms(),
            s.rules().greeting == None::<Seq<u8>>,
            echoes(s.rules()),
    {
        let handler = TrollHandler::silent();
        Session::new(self.config.session, handler)
    }
}

} // verus!
