use login_flow::protocol::{
    CallbackPayload, CallbackStatus, LoginEvent, RegistrationError, DUPLICATE_NOTICE,
};
use login_flow::session::{
    CallbackStep, Coordinator, Outcome, Phase, StartError, StartStep,
};

fn payload(token: Option<&str>, cookies: Option<&str>) -> CallbackPayload {
    CallbackPayload {
        token: token.map(|t| t.to_string()),
        cookies: cookies.map(|c| c.to_string()),
    }
}

fn open_session(c: &mut Coordinator, port: u16) -> String {
    assert_eq!(c.begin_start(false), StartStep::BindListener);
    let script = c.listener_bound(Ok(port)).expect("bound");
    c.window_built(Ok(())).expect("built");
    script
}

fn register_ticket(c: &Coordinator, token: &str) -> u64 {
    match c.on_callback(payload(Some(token), Some("a=1"))) {
        CallbackStep::Register { ticket, token: t, cookies } => {
            assert_eq!(t, token);
            assert_eq!(cookies.as_deref(), Some("a=1"));
            ticket
        }
        CallbackStep::Respond { .. } => panic!("expected a registration"),
    }
}

#[test]
fn second_start_only_focuses() {
    let mut c = Coordinator::new();
    open_session(&mut c, 40123);
    let before = c;
    assert_eq!(c.begin_start(false), StartStep::FocusExisting);
    assert_eq!(c, before);
    assert_eq!(c.begin_start(true), StartStep::FocusExisting);
    assert_eq!(c, before);
}

#[test]
fn start_focuses_when_window_already_exists() {
    let mut c = Coordinator::new();
    assert_eq!(c.begin_start(true), StartStep::FocusExisting);
    assert_eq!(c.phase, Phase::Idle);
}

#[test]
fn start_during_binding_only_focuses() {
    let mut c = Coordinator::new();
    assert_eq!(c.begin_start(false), StartStep::BindListener);
    assert_eq!(c.begin_start(false), StartStep::FocusExisting);
    assert_eq!(c.phase, Phase::Binding);
}

#[test]
fn empty_or_missing_token_waits() {
    let mut c = Coordinator::new();
    open_session(&mut c, 40123);
    let before = c;
    for p in [payload(None, None), payload(Some(""), Some("a=1")), payload(None, Some("x"))] {
        match c.on_callback(p) {
            CallbackStep::Respond { response } => {
                assert_eq!(response.status, CallbackStatus::Waiting);
                assert_eq!(response.status.name(), "waiting");
                assert!(response.message.is_none());
            }
            CallbackStep::Register { .. } => panic!("must not register"),
        }
    }
    assert_eq!(c, before);
}

#[test]
fn success_emits_once_and_close_is_silent() {
    let mut c = Coordinator::new();
    open_session(&mut c, 40123);
    let ticket = register_ticket(&c, "tok-123");
    let reply = c.on_registration(ticket, Ok("user@example.com".to_string()));
    assert_eq!(reply.response.status, CallbackStatus::Succeeded);
    assert_eq!(reply.response.status.name(), "ok");
    assert!(reply.response.message.is_none());
    match &reply.event {
        Some(LoginEvent::Success { identity }) => assert_eq!(identity, "user@example.com"),
        other => panic!("unexpected event {:?}", other),
    }
    assert_eq!(reply.event.as_ref().map(|e| e.name()), Some("login-success"));
    assert!(reply.close_window);
    assert_eq!(c.phase, Phase::Finished { port: 40123, outcome: Outcome::Succeeded });

    let late = c.on_registration(ticket, Ok("user@example.com".to_string()));
    assert!(late.event.is_none());
    assert!(!late.close_window);

    let closed = c.on_window_destroyed();
    assert!(closed.event.is_none());
    assert!(closed.stop_listener);
    assert_eq!(c.phase, Phase::Idle);

    let again = c.on_window_destroyed();
    assert!(again.event.is_none());
    assert!(!again.stop_listener);
}

#[test]
fn duplicate_fails_once_and_closes() {
    let mut c = Coordinator::new();
    open_session(&mut c, 40123);
    let ticket = register_ticket(&c, "tok-dup");
    let err = RegistrationError::classify("账号 a@b.c 已存在".to_string());
    assert!(matches!(err, RegistrationError::Duplicate { .. }));
    let reply = c.on_registration(ticket, Err(err));
    assert_eq!(reply.response.status, CallbackStatus::Failed);
    assert_eq!(reply.response.status.name(), "error");
    assert_eq!(reply.response.message.as_deref(), Some("账号 a@b.c 已存在"));
    match &reply.event {
        Some(LoginEvent::Failed { message }) => assert_eq!(message, DUPLICATE_NOTICE),
        other => panic!("unexpected event {:?}", other),
    }
    assert_eq!(reply.event.as_ref().map(|e| e.name()), Some("login-failed"));
    assert!(reply.close_window);
    let closed = c.on_window_destroyed();
    assert!(closed.event.is_none());
    assert!(closed.stop_listener);
}

#[test]
fn other_failure_keeps_window_open() {
    let mut c = Coordinator::new();
    open_session(&mut c, 40123);
    let ticket = register_ticket(&c, "tok-bad");
    let err = RegistrationError::classify("network unreachable".to_string());
    assert!(matches!(err, RegistrationError::Other { .. }));
    let before = c;
    let reply = c.on_registration(ticket, Err(err));
    assert_eq!(reply.response.status, CallbackStatus::Failed);
    assert_eq!(reply.response.message.as_deref(), Some("network unreachable"));
    assert!(reply.event.is_none());
    assert!(!reply.close_window);
    assert_eq!(c, before);
    let retry = register_ticket(&c, "tok-good");
    let ok = c.on_registration(retry, Ok("id".to_string()));
    assert!(matches!(ok.event, Some(LoginEvent::Success { .. })));
}

#[test]
fn manual_close_cancels_once() {
    let mut c = Coordinator::new();
    open_session(&mut c, 40123);
    let closed = c.on_window_destroyed();
    assert!(matches!(closed.event, Some(LoginEvent::Cancelled)));
    assert_eq!(closed.event.as_ref().map(|e| e.name()), Some("login-cancelled"));
    assert!(closed.stop_listener);
    assert!(!c.shutdown_armed);
    let again = c.on_window_destroyed();
    assert!(again.event.is_none());
    assert!(!again.stop_listener);
    match c.on_callback(payload(Some("tok"), None)) {
        CallbackStep::Respond { response } => assert_eq!(response.status, CallbackStatus::Waiting),
        CallbackStep::Register { .. } => panic!("no session waits"),
    }
}

#[test]
fn answer_after_cancel_emits_nothing() {
    let mut c = Coordinator::new();
    open_session(&mut c, 40123);
    let ticket = register_ticket(&c, "tok");
    let closed = c.on_window_destroyed();
    assert!(matches!(closed.event, Some(LoginEvent::Cancelled)));
    let reply = c.on_registration(ticket, Ok("id".to_string()));
    assert_eq!(reply.response.status, CallbackStatus::Succeeded);
    assert!(reply.event.is_none());
    assert!(!reply.close_window);
}

#[test]
fn sequential_sessions_use_their_own_ports() {
    let mut c = Coordinator::new();
    let first = open_session(&mut c, 40123);
    assert!(first.contains("\"http://127.0.0.1:40123/callback\""));
    assert_eq!(c.phase, Phase::Awaiting { port: 40123 });
    let first_session = c.session;
    c.on_window_destroyed();
    let second = open_session(&mut c, 51234);
    assert!(second.contains("\"http://127.0.0.1:51234/callback\""));
    assert!(!second.contains("40123"));
    assert_eq!(c.phase, Phase::Awaiting { port: 51234 });
    assert_ne!(c.session, first_session);
    let ticket = register_ticket(&c, "tok");
    c.on_registration(ticket, Err(RegistrationError::classify("boom".to_string())));
    assert_eq!(c.phase, Phase::Awaiting { port: 51234 });
}

#[test]
fn stale_ticket_from_earlier_session_is_ignored() {
    let mut c = Coordinator::new();
    open_session(&mut c, 40123);
    let old_ticket = register_ticket(&c, "tok");
    c.on_window_destroyed();
    open_session(&mut c, 40124);
    let reply = c.on_registration(old_ticket, Ok("id".to_string()));
    assert!(reply.event.is_none());
    assert_eq!(c.phase, Phase::Awaiting { port: 40124 });
}

#[test]
fn failed_bind_is_listener_bind_error() {
    let mut c = Coordinator::new();
    c.begin_start(false);
    match c.listener_bound(Err("address in use".to_string())) {
        Err(StartError::ListenerBind { message }) => assert_eq!(message, "address in use"),
        _ => panic!("expected a bind error"),
    }
    assert_eq!(c.phase, Phase::Idle);
    assert!(!c.shutdown_armed);

    c.begin_start(false);
    let e = c.listener_bound(Ok(0)).unwrap_err();
    assert!(matches!(e, StartError::ListenerBind { .. }));
    assert_eq!(e.message(), "the listener was given no port");
    assert_eq!(c.phase, Phase::Idle);
}

#[test]
fn failed_window_is_window_creation_error() {
    let mut c = Coordinator::new();
    c.begin_start(false);
    c.listener_bound(Ok(40123)).unwrap();
    assert!(c.shutdown_armed);
    match c.window_built(Err("no display".to_string())) {
        Err(StartError::WindowCreation { message }) => assert_eq!(message, "no display"),
        _ => panic!("expected a window error"),
    }
    assert_eq!(c.phase, Phase::Idle);
    assert!(!c.shutdown_armed);
    let closed = c.on_window_destroyed();
    assert!(closed.event.is_none());
    assert_eq!(c.begin_start(false), StartStep::BindListener);
}

#[test]
fn session_counter_wraps() {
    let mut c = Coordinator::new();
    c.session = u64::MAX;
    c.begin_start(false);
    assert_eq!(c.session, 0);
}
