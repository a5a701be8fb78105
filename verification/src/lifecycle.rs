//! The session lifecycle controller: the state machine that drives the
//! process from "configured" through "connected" to "terminated", exactly
//! once, with no retry and no reconnect.
//!
//! The tunnel engine's connect and disconnect operations and the interrupt
//! waiter are external collaborators the host performs. The controller tells
//! the host which of them to perform next (`next_action`) and advances on the
//! outcome the host reports back (`handle_event`); every transition, and the
//! bookkeeping of how often connect and disconnect were issued, is verified.

use vstd::prelude::*;

use crate::config::SessionConfiguration;
use crate::bridge::CallbackBridge;
use crate::errors::StartupError;

verus! {

/// The lifecycle states. A session handle exists exactly while the state is
/// `Connected` or `Disconnecting` (see `session_handle_live`); no transition
/// leads back to `Unconfigured` or `Connecting` — the process is single-shot.
#[derive(Clone, Copy, PartialEq, Eq, Structural, Debug)]
pub enum SessionState {
    Unconfigured,
    Connecting,
    Connected,
    Disconnecting,
    Terminated,
}

/// What the host must perform next on the controller's behalf.
#[derive(Clone, Copy, PartialEq, Eq, Structural, Debug)]
pub enum HostAction {
    /// Invoke the tunnel engine's connect operation with the configured
    /// control-plane address, credential and identity, handing it the
    /// callback bridge.
    InvokeConnect,
    /// Block on the interrupt waiter until the operator interrupts.
    AwaitInterrupt,
    /// Invoke the tunnel engine's disconnect operation on the session handle
    /// with no reason code: the shutdown is clean, not error-driven.
    InvokeDisconnect,
    /// Exit the process with the controller's exit code.
    ExitProcess,
}

/// An outcome the host reports back to the controller.
pub enum SessionEvent {
    /// The host is issuing the connect call.
    ConnectIssued,
    /// The connect call returned a live session handle.
    ConnectSucceeded,
    /// The connect call failed with the engine's reported cause.
    ConnectFailed { cause: String },
    /// The interrupt waiter returned: the operator asked for shutdown.
    InterruptReceived,
    /// The host issued the disconnect call; it completed synchronously.
    DisconnectIssued,
}

/// Owns the session configuration and drives the lifecycle. `connect_calls`
/// and `disconnect_calls` count how often the host was sent into the engine;
/// `connected_once` records whether a connect ever succeeded; `failure` holds
/// the startup error when the connect call failed.
pub struct LifecycleController {
    pub config: SessionConfiguration,
    pub state: SessionState,
    pub connect_calls: u64,
    pub disconnect_calls: u64,
    pub connected_once: bool,
    pub failure: Option<StartupError>,
}

/// Whether `event` is enabled in the current state: the state machine is
/// `Unconfigured -connect ok-> Connected -interrupt-> Disconnecting
/// -disconnect-> Terminated`, with `Unconfigured -connect fails-> Terminated`.
pub open spec fn event_enabled(c: LifecycleController, event: SessionEvent) -> bool {
    match event {
        SessionEvent::ConnectIssued => c.state is Unconfigured,
        SessionEvent::ConnectSucceeded => c.state is Connecting,
        SessionEvent::ConnectFailed { .. } => c.state is Connecting,
        SessionEvent::InterruptReceived => c.state is Connected,
        SessionEvent::DisconnectIssued => c.state is Disconnecting,
    }
}

/// The transition function: how one reported event advances the controller.
/// An event that is not enabled leaves the controller unchanged.
pub open spec fn spec_step(c: LifecycleController, event: SessionEvent) -> LifecycleController {
    if !event_enabled(c, event) {
        c
    } else {
        match event {
            SessionEvent::ConnectIssued => LifecycleController {
                state: SessionState::Connecting,
                connect_calls: (c.connect_calls + 1) as u64,
                ..c
            },
            SessionEvent::ConnectSucceeded => LifecycleController {
                state: SessionState::Connected,
                connected_once: true,
                ..c
            },
            SessionEvent::ConnectFailed { cause } => LifecycleController {
                state: SessionState::Terminated,
                failure: Some(StartupError { cause }),
                ..c
            },
            SessionEvent::InterruptReceived => LifecycleController {
                state: SessionState::Disconnecting,
                ..c
            },
            SessionEvent::DisconnectIssued => LifecycleController {
                state: SessionState::Terminated,
                disconnect_calls: (c.disconnect_calls + 1) as u64,
                ..c
            },
        }
    }
}

/// The controller after a whole sequence of reported events.
pub open spec fn spec_run(c: LifecycleController, events: Seq<SessionEvent>) -> LifecycleController
    decreases events.len(),
{
    if events.len() == 0 {
        c
    } else {
        spec_run(spec_step(c, events[0]), events.drop_first())
    }
}

/// The controller as `new` returns it.
pub open spec fn spec_initial(config: SessionConfiguration) -> LifecycleController {
    LifecycleController {
        config,
        state: SessionState::Unconfigured,
        connect_calls: 0,
        disconnect_calls: 0,
        connected_once: false,
        failure: None,
    }
}

/// What the host must perform next in each state. While a connect call is in
/// flight (`Connecting`) there is nothing to ask: the host already holds the
/// call's outcome and reports it.
pub open spec fn spec_next_action(c: LifecycleController) -> Option<HostAction> {
    match c.state {
        SessionState::Unconfigured => Some(HostAction::InvokeConnect),
        SessionState::Connecting => None,
        SessionState::Connected => Some(HostAction::AwaitInterrupt),
        SessionState::Disconnecting => Some(HostAction::InvokeDisconnect),
        SessionState::Terminated => Some(HostAction::ExitProcess),
    }
}

/// The process exit code: zero exactly when no startup failure was recorded.
pub open spec fn spec_exit_code(c: LifecycleController) -> i32 {
    if c.failure is Some {
        1
    } else {
        0
    }
}

impl LifecycleController {
    /// A session handle exists exactly while this holds: from the moment the
    /// connect operation succeeds until disconnect is issued.
    pub open spec fn session_handle_live(&self) -> bool {
        self.state is Connected || self.state is Disconnecting
    }

    /// Well-formedness: what each state says of the bookkeeping. Connect is
    /// issued exactly once on the way out of `Unconfigured`; disconnect is
    /// issued exactly once, and only on the clean path through `Connected`;
    /// a startup failure is recorded exactly on the failed-connect path.
    pub open spec fn wf(&self) -> bool {
        match self.state {
            SessionState::Unconfigured => self.connect_calls == 0 && self.disconnect_calls == 0
                && !self.connected_once && self.failure is None,
            SessionState::Connecting => self.connect_calls == 1 && self.disconnect_calls == 0
                && !self.connected_once && self.failure is None,
            SessionState::Connected => self.connect_calls == 1 && self.disconnect_calls == 0
                && self.connected_once && self.failure is None,
            SessionState::Disconnecting => self.connect_calls == 1 && self.disconnect_calls == 0
                && self.connected_once && self.failure is None,
            SessionState::Terminated => self.connect_calls == 1 && (match self.failure {
                Some(_) => self.disconnect_calls == 0 && !self.connected_once,
                None => self.disconnect_calls == 1 && self.connected_once,
            }),
        }
    }

    /// A controller for one run, in its initial state.
    pub fn new(config: SessionConfiguration) -> (r: LifecycleController)
        requires
            config.wf(),
        ensures
            r == spec_initial(config),
            r.wf(),
    {
        LifecycleController {
            config,
            state: SessionState::Unconfigured,
            connect_calls: 0,
            disconnect_calls: 0,
            connected_once: false,
            failure: None,
        }
    }

    /// Sets up a run: the controller in its initial state, and the callback
    /// bridge the tunnel engine will be handed — wired to a log sink exactly
    /// when a log directory is configured. The host must keep the bridge
    /// alive until disconnect completes.
    pub fn prepare(config: SessionConfiguration) -> (r: (LifecycleController, CallbackBridge))
        requires
            config.wf(),
        ensures
            r.0 == spec_initial(config),
            r.0.wf(),
            r.1.wf(),
            r.1.errors@.len() == 0,
            (r.1.sink is Some) <==> (config.log_dir is Some),
            config.log_dir matches Some(d) ==> (r.1.sink matches Some(s) && s.dir@ == d@
                && s.current_path is None),
    {
        let bridge = CallbackBridge::new(&config.log_dir);
        let controller = LifecycleController::new(config);
        (controller, bridge)
    }

    /// What the host must perform next.
    pub fn next_action(&self) -> (a: Option<HostAction>)
        ensures
            a == spec_next_action(*self),
    {
        match self.state {
            SessionState::Unconfigured => Some(HostAction::InvokeConnect),
            SessionState::Connecting => None,
            SessionState::Connected => Some(HostAction::AwaitInterrupt),
            SessionState::Disconnecting => Some(HostAction::InvokeDisconnect),
            SessionState::Terminated => Some(HostAction::ExitProcess),
        }
    }

    /// Advances on a reported outcome. Answers whether the event was enabled;
    /// an event out of order is ignored and the controller is unchanged.
    pub fn handle_event(&mut self, event: SessionEvent) -> (accepted: bool)
        requires
            old(self).wf(),
        ensures
            *final(self) == spec_step(*old(self), event),
            accepted == event_enabled(*old(self), event),
            final(self).wf(),
    {
        match event {
            SessionEvent::ConnectIssued => {
                if self.state == SessionState::Unconfigured {
                    self.state = SessionState::Connecting;
                    self.connect_calls = self.connect_calls + 1;
                    true
                } else {
                    false
                }
            },
            SessionEvent::ConnectSucceeded => {
                if self.state == SessionState::Connecting {
                    self.state = SessionState::Connected;
                    self.connected_once = true;
                    true
                } else {
                    false
                }
            },
            SessionEvent::ConnectFailed { cause } => {
                if self.state == SessionState::Connecting {
                    self.state = SessionState::Terminated;
                    self.failure = Some(StartupError { cause });
                    true
                } else {
                    false
                }
            },
            SessionEvent::InterruptReceived => {
                if self.state == SessionState::Connected {
                    self.state = SessionState::Disconnecting;
                    true
                } else {
                    false
                }
            },
            SessionEvent::DisconnectIssued => {
                if self.state == SessionState::Disconnecting {
                    self.state = SessionState::Terminated;
                    self.disconnect_calls = self.disconnect_calls + 1;
                    true
                } else {
                    false
                }
            },
        }
    }

    /// The process exit code: zero exactly when no startup failure occurred.
    pub fn exit_code(&self) -> (r: i32)
        ensures
            r == spec_exit_code(*self),
            (r == 0) <==> (self.failure is None),
    {
        match &self.failure {
            Some(_) => 1,
            None => 0,
        }
    }

    /// The cause of the startup failure, if one was recorded, for the host to
    /// surface on standard error.
    pub fn failure_message(&self) -> (r: Option<&str>)
        ensures
            (match self.failure {
                Some(e) => r matches Some(m) && m@ == e.cause@,
                None => r is None,
            }),
    {
        match &self.failure {
            Some(e) => Some(e.cause.as_str()),
            None => None,
        }
    }
}

/// One step keeps the controller well-formed.
pub proof fn lemma_step_preserves_wf(c: LifecycleController, event: SessionEvent)
    requires
        c.wf(),
    ensures
        spec_step(c, event).wf(),
{
}

/// Any sequence of reported events keeps the controller well-formed.
pub proof fn lemma_run_preserves_wf(c: LifecycleController, events: Seq<SessionEvent>)
    requires
        c.wf(),
    ensures
        spec_run(c, events).wf(),
    decreases events.len(),
{
    if events.len() > 0 {
        lemma_step_preserves_wf(c, events[0]);
        lemma_run_preserves_wf(spec_step(c, events[0]), events.drop_first());
    }
}

/// Over any sequence of reported events from the initial state: connect is
/// issued at most once and disconnect at most once; disconnect is never
/// issued unless a connect succeeded first; and a run that terminated issued
/// the connect call exactly once.
pub proof fn lemma_single_connect_single_disconnect(
    config: SessionConfiguration,
    events: Seq<SessionEvent>,
)
    ensures
        ({
            let end = spec_run(spec_initial(config), events);
            &&& end.connect_calls <= 1
            &&& end.disconnect_calls <= 1
            &&& end.disconnect_calls > 0 ==> end.connected_once
            &&& end.state is Terminated ==> end.connect_calls == 1
        }),
{
    lemma_run_preserves_wf(spec_initial(config), events);
}

/// A session handle is live only between the successful connect and the
/// disconnect: exactly one connect was issued and succeeded, and no
/// disconnect has been issued yet.
pub proof fn lemma_handle_live_means_connected(c: LifecycleController)
    requires
        c.wf(),
        c.session_handle_live(),
    ensures
        c.connect_calls == 1,
        c.connected_once,
        c.failure is None,
        c.disconnect_calls == 0,
{
}

/// An interrupt delivered while connected leads to disconnect being invoked
/// exactly once, then to termination with exit code zero. The session handle
/// stays live until the disconnect is issued and is invalid afterward.
pub proof fn lemma_interrupt_leads_to_clean_exit(c: LifecycleController)
    requires
        c.wf(),
        c.state is Connected,
    ensures
        ({
            let after_interrupt = spec_step(c, SessionEvent::InterruptReceived);
            let after_disconnect = spec_step(after_interrupt, SessionEvent::DisconnectIssued);
            &&& after_interrupt.state is Disconnecting
            &&& after_interrupt.session_handle_live()
            &&& spec_next_action(after_interrupt) == Some(HostAction::InvokeDisconnect)
            &&& after_disconnect.state is Terminated
            &&& !after_disconnect.session_handle_live()
            &&& after_disconnect.disconnect_calls == 1
            &&& spec_exit_code(after_disconnect) == 0
            &&& spec_next_action(after_disconnect) == Some(HostAction::ExitProcess)
        }),
{
}

/// A failed connect call terminates the run at once: no disconnect is ever
/// issued, the exit code is non-zero, and whatever events are reported later,
/// the host is never again asked to do anything but exit — in particular it
/// is never asked to block on the interrupt waiter.
pub proof fn lemma_connect_failure_terminates(c: LifecycleController, cause: String)
    requires
        c.wf(),
        c.state is Connecting,
    ensures
        ({
            let end = spec_step(c, SessionEvent::ConnectFailed { cause });
            &&& end.state is Terminated
            &&& !end.session_handle_live()
            &&& end.disconnect_calls == 0
            &&& spec_exit_code(end) != 0
            &&& spec_next_action(end) == Some(HostAction::ExitProcess)
            &&& forall|later: Seq<SessionEvent>|
                spec_next_action(#[trigger] spec_run(end, later)) == Some(HostAction::ExitProcess)
        }),
{
    let end = spec_step(c, SessionEvent::ConnectFailed { cause });
    assert forall|later: Seq<SessionEvent>|
        spec_next_action(#[trigger] spec_run(end, later)) == Some(HostAction::ExitProcess) by {
        lemma_terminated_absorbing(end, later);
    }
}

/// Termination is absorbing: no later event moves the controller again, so
/// after a failed connect no sequence of events ever reaches a state whose
/// pending action is to await an interrupt.
pub proof fn lemma_terminated_absorbing(c: LifecycleController, events: Seq<SessionEvent>)
    requires
        c.state is Terminated,
    ensures
        spec_run(c, events) == c,
    decreases events.len(),
{
    if events.len() > 0 {
        lemma_terminated_absorbing(spec_step(c, events[0]), events.drop_first());
    }
}

} // verus!
