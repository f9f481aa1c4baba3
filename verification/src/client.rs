//! The connecting side as a state machine.
//!
//! A connector connects once. When that fails the client fails; when it
//! succeeds one session is run on the connection, and however that session
//! ends, the client ends well: a failed read or write is reported in the log
//! by the session and is not an error of the client.

use crate::config::{ClientConfig, Endpoint};
use crate::handler::Client;
use crate::session::{rules_of, CloseReason, Session, SessionState, StepError};
use vstd::prelude::*;

verus! {

/// Where a connector stands.
#[derive(Clone, Copy, Debug, PartialEq, Eq, Structural)]
pub enum ConnectorPhase {
    /// Nothing has been asked of the connector yet.
    Idle,
    /// The connect is outstanding.
    Connecting,
    /// The session runs on the connection.
    Running,
    /// The client is over. Nothing leads out of this phase.
    Finished,
}

/// What happened to the connector.
#[derive(Clone, Copy, Debug, PartialEq, Eq, Structural)]
pub enum ConnectorEvent {
    /// The client was started.
    Started,
    /// The connection is made.
    Connected,
    /// The connection could not be made.
    ConnectFailed,
    /// The session on the connection ended, for this reason.
    SessionEnded(CloseReason),
}

/// Why a client failed.
#[derive(Clone, Copy, Debug, PartialEq, Eq, Structural)]
pub enum ClientError {
    /// The connection could not be made.
    ConnectError,
}

/// What a connector has to report.
#[derive(Clone, Copy, Debug, PartialEq, Eq, Structural)]
pub enum ConnectorNote {
    /// The connection is made.
    Connected,
    /// The connection could not be made.
    ConnectFailed,
}

/// What to do next for the connector.
#[derive(Clone, Copy, Debug, PartialEq, Eq)]
pub enum ConnectorAction {
    /// Connect to this address, and report `Connected` or `ConnectFailed`.
    Connect(Endpoint),
    /// Run a session from `Connector::session` on the connection until it
    /// closes, and report `SessionEnded`.
    Run,
    /// Return this result; there is nothing to report.
    Finish(Result<(), ClientError>),
}

/// The answer of a connector to one event.
#[derive(Clone, Copy, Debug, PartialEq, Eq)]
pub struct ConnectorReply {
    /// What to do next.
    pub action: ConnectorAction,
    /// What to put in the log, if anything.
    pub log: Option<ConnectorNote>,
}

/// The whole behaviour of a connector: the phase and the answer that follow
/// from a phase and an event, or the refusal of the event.
///
/// * A connector that is started connects to its address.
/// * A failed connect ends the client with an error.
/// * On the connection one session is run, and when it ends, for whatever
///   reason, the client ends without an error.
/// * Every other pair of phase and event is refused.
pub open spec fn connector_transition(
    config: ClientConfig,
    phase: ConnectorPhase,
    event: ConnectorEvent,
) -> Result<(ConnectorPhase, ConnectorReply), StepError> {
    match (phase, event) {
        (ConnectorPhase::Idle, ConnectorEvent::Started) => Ok(
            (
                ConnectorPhase::Connecting,
                ConnectorReply { action: ConnectorAction::Connect(config.address), log: None },
            ),
        ),
        (ConnectorPhase::Connecting, ConnectorEvent::Connected) => Ok(
            (
                ConnectorPhase::Running,
                ConnectorReply { action: ConnectorAction::Run, log: Some(ConnectorNote::Connected) },
            ),
        ),
        (ConnectorPhase::Connecting, ConnectorEvent::ConnectFailed) => Ok(
            (
                ConnectorPhase::Finished,
                ConnectorReply {
                    action: ConnectorAction::Finish(Err(ClientError::ConnectError)),
                    log: Some(ConnectorNote::ConnectFailed),
                },
            ),
        ),
        (ConnectorPhase::Running, ConnectorEvent::SessionEnded(_)) => Ok(
            (
                ConnectorPhase::Finished,
                ConnectorReply { action: ConnectorAction::Finish(Ok(())), log: None },
            ),
        ),
        _ => Err(StepError::Unexpected),
    }
}

/// A client fails on a failed connect and on nothing else: whatever state it
/// is in and whatever it is told, it ends with an error exactly when it is
/// told, while connecting, that the connect failed.
pub proof fn only_a_failed_connect_is_an_error(
    config: ClientConfig,
    phase: ConnectorPhase,
    event: ConnectorEvent,
)
    ensures
        connector_transition(config, phase, event) matches Ok((_, reply)) ==> {
            &&& reply.action == ConnectorAction::Finish(Err(ClientError::ConnectError)) <==> (phase
                == ConnectorPhase::Connecting && event == ConnectorEvent::ConnectFailed)
            &&& reply.action == ConnectorAction::Finish(Ok(())) <==> (phase
                == ConnectorPhase::Running && event is SessionEnded)
        },
{
}

/// The connecting side of one client.
pub struct Connector {
    config: ClientConfig,
    phase: ConnectorPhase,
}

impl Connector {
    /// What the connector was set up with.
    pub closed spec fn config(&self) -> ClientConfig {
        self.config
    }

    /// Where the connector stands.
    pub closed spec fn spec_phase(&self) -> ConnectorPhase {
        self.phase
    }

    /// A connector that has not been started.
    pub fn new(config: ClientConfig) -> (c: Connector)
        ensures
            c.config() == config,
            c.spec_phase() == ConnectorPhase::Idle,
    {
        Connector { config, phase: ConnectorPhase::Idle }
    }

    /// Where the connector stands.
    pub fn phase(&self) -> (p: ConnectorPhase)
        ensures
            p == self.spec_phase(),
    {
        self.phase
    }

    /// Takes one event and says what to do next, as `connector_transition`
    /// has it. An event that is refused leaves the connector as it was.
    pub fn step(&mut self, event: ConnectorEvent) -> (r: Result<ConnectorReply, StepError>)
        ensures
            final(self).config() == old(self).config(),
            match connector_transition(old(self).config(), old(self).spec_phase(), event) {
                Ok((next, reply)) => r == Ok::<ConnectorReply, StepError>(reply)
                    && final(self).spec_phase() == next,
                Err(e) => r == Err::<ConnectorReply, StepError>(e) && final(self).spec_phase()
                    == old(self).spec_phase(),
            },
    {
        match (self.phase, event) {
            (ConnectorPhase::Idle, ConnectorEvent::Started) => {
                self.phase = ConnectorPhase::Connecting;
                Ok(
                    ConnectorReply {
                        action: ConnectorAction::Connect(self.config.address),
                        log: None,
                    },
                )
            },
            (ConnectorPhase::Connecting, ConnectorEvent::Connected) => {
                self.phase = ConnectorPhase::Running;
                Ok(
                    ConnectorReply {
                        action: ConnectorAction::Run,
                        log: Some(ConnectorNote::Connected),
                    },
                )
            },
            (ConnectorPhase::Connecting, ConnectorEvent::ConnectFailed) => {
                self.phase = ConnectorPhase::Finished;
                Ok(
                    ConnectorReply {
                        action: ConnectorAction::Finish(Err(ClientError::ConnectError)),
                        log: Some(ConnectorNote::ConnectFailed),
                    },
                )
            },
            (ConnectorPhase::Running, ConnectorEvent::SessionEnded(_)) => {
                self.phase = ConnectorPhase::Finished;
                Ok(ConnectorReply { action: ConnectorAction::Finish(Ok(())), log: None })
            },
            _ => Err(StepError::Unexpected),
        }
    }

    /// The session for the connection that was just made: it has the settings
    /// of the client, and `handler` decides what it says.
    pub fn session<H: Client>(&self, handler: H) -> (s: Session<H>)
        ensures
            s@ == SessionState::Connected,
            s.rules() == rules_of(self.config().session, handler),
    {
        Session::new(self.config.session, handler)
    }
}

} // verus!
