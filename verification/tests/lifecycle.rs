use tunnel_session::config::Credential;
use tunnel_session::errors::StartupError;
use tunnel_session::config::SessionConfiguration;
use tunnel_session::lifecycle::HostAction;
use tunnel_session::lifecycle::LifecycleController;
use tunnel_session::lifecycle::SessionEvent;
use tunnel_session::lifecycle::SessionState;

fn config_without_log_dir() -> SessionConfiguration {
    let credential = Credential::new(String::from("tok_abc")).unwrap();
    SessionConfiguration::new(
        String::from("https://cp.example"),
        credential,
        String::from("client-1"),
        None,
    )
}

#[test]
fn empty_credential_rejected() {
    assert!(Credential::new(String::new()).is_none());
    let c = Credential::new(String::from("tok_abc"));
    assert!(c.is_some());
    assert_eq!(c.unwrap().expose(), "tok_abc");
}

#[test]
fn clean_session_without_log_dir() {
    let (mut controller, mut bridge) = LifecycleController::prepare(config_without_log_dir());
    assert_eq!(controller.state, SessionState::Unconfigured);
    assert_eq!(controller.next_action(), Some(HostAction::InvokeConnect));

    assert!(controller.handle_event(SessionEvent::ConnectIssued));
    assert_eq!(controller.state, SessionState::Connecting);
    assert_eq!(controller.connect_calls, 1);
    assert_eq!(controller.next_action(), None);

    assert!(controller.handle_event(SessionEvent::ConnectSucceeded));
    assert_eq!(controller.state, SessionState::Connected);
    assert_eq!(controller.next_action(), Some(HostAction::AwaitInterrupt));

    // no log directory: the rotation request is a no-op
    assert!(!bridge.sink_configured());
    assert_eq!(bridge.request_log_rotation(None), None);

    assert!(controller.handle_event(SessionEvent::InterruptReceived));
    assert_eq!(controller.state, SessionState::Disconnecting);
    assert_eq!(controller.next_action(), Some(HostAction::InvokeDisconnect));

    assert!(controller.handle_event(SessionEvent::DisconnectIssued));
    assert_eq!(controller.state, SessionState::Terminated);
    assert_eq!(controller.disconnect_calls, 1);
    assert_eq!(controller.next_action(), Some(HostAction::ExitProcess));
    assert_eq!(controller.exit_code(), 0);
    assert!(controller.failure_message().is_none());
}

#[test]
fn connect_failure_exits_nonzero() {
    let mut controller = LifecycleController::new(config_without_log_dir());
    assert!(controller.handle_event(SessionEvent::ConnectIssued));
    assert!(controller.handle_event(SessionEvent::ConnectFailed {
        cause: String::from("network unreachable"),
    }));
    assert_eq!(controller.state, SessionState::Terminated);
    assert_eq!(controller.disconnect_calls, 0);
    assert_ne!(controller.exit_code(), 0);
    assert_eq!(controller.failure_message(), Some("network unreachable"));
    // the interrupt waiter is never invoked: the pending action is to exit
    assert_eq!(controller.next_action(), Some(HostAction::ExitProcess));
}

#[test]
fn startup_error_carries_its_cause() {
    let e = StartupError {
        cause: String::from("network unreachable"),
    };
    assert_eq!(e.message(), "network unreachable");
}

#[test]
fn events_out_of_order_are_ignored() {
    let mut controller = LifecycleController::new(config_without_log_dir());
    assert!(!controller.handle_event(SessionEvent::DisconnectIssued));
    assert!(!controller.handle_event(SessionEvent::InterruptReceived));
    assert!(!controller.handle_event(SessionEvent::ConnectSucceeded));
    assert_eq!(controller.state, SessionState::Unconfigured);
    assert_eq!(controller.connect_calls, 0);
    assert_eq!(controller.disconnect_calls, 0);
}

#[test]
fn terminated_is_absorbing() {
    let mut controller = LifecycleController::new(config_without_log_dir());
    assert!(controller.handle_event(SessionEvent::ConnectIssued));
    assert!(controller.handle_event(SessionEvent::ConnectFailed {
        cause: String::from("refused"),
    }));
    assert!(!controller.handle_event(SessionEvent::ConnectIssued));
    assert!(!controller.handle_event(SessionEvent::ConnectSucceeded));
    assert!(!controller.handle_event(SessionEvent::InterruptReceived));
    assert!(!controller.handle_event(SessionEvent::DisconnectIssued));
    assert_eq!(controller.state, SessionState::Terminated);
    assert_eq!(controller.connect_calls, 1);
    assert_eq!(controller.disconnect_calls, 0);
}
