//! The session coordinator: the decisions of one login session, from the start
//! request through the callback and the registrar's answer to the destruction
//! of the login window.
//!
//! The host runs the coordinator behind a lock and performs what each step
//! asks for: binding the listener, building or focusing the window, calling
//! the registrar, emitting events, scheduling the deferred close and firing the
//! listener's shutdown signal. The slot that holds that signal is
//! `shutdown_armed`: it is filled when the listener is bound and emptied exactly
//! once, by the first destruction of the window (or by a failed window build).

use vstd::prelude::*;
use crate::protocol::{
    CallbackPayload, CallbackResponse, CallbackResponseView, LoginEvent, LoginEventView,
    RegistrationError, RegistrationErrorView, DUPLICATE_NOTICE, has_token, opt_view,
    waiting_response, ok_response, error_response, registration_view, event_view,
};
use crate::script::{interception_script, interception_script_spec};
use vstd::string::StringExecFns;

verus! {

/// How a session ended before its window closed.
#[derive(Clone, Copy, Debug, PartialEq, Eq, Structural)]
pub enum Outcome {
    Succeeded,
    FailedDuplicate,
}

/// Where the single login session stands.
#[derive(Clone, Copy, Debug, PartialEq, Eq, Structural)]
pub enum Phase {
    /// No session.
    Idle,
    /// A start was accepted; the listener is being bound.
    Binding,
    /// The listener runs on `port`; the window is being built.
    Opening { port: u16 },
    /// The window is open and the listener waits for the token.
    Awaiting { port: u16 },
    /// The terminal event was emitted and the window's close is scheduled.
    Finished { port: u16, outcome: Outcome },
}

/// The state shared by the start request, the listener and the window's
/// destroy handler.
#[derive(Clone, Copy, Debug, PartialEq, Eq, Structural)]
pub struct Coordinator {
    pub phase: Phase,
    /// The shutdown slot: it holds the listener's shutdown signal.
    pub shutdown_armed: bool,
    /// The number of the current (or last) session.
    pub session: u64,
}

/// The port of the running listener, if one runs.
pub open spec fn listener_port(p: Phase) -> Option<u16> {
    match p {
        Phase::Opening { port } => Some(port),
        Phase::Awaiting { port } => Some(port),
        Phase::Finished { port, .. } => Some(port),
        _ => None,
    }
}

pub open spec fn next_session(n: u64) -> u64 {
    if n == u64::MAX { 0 } else { (n + 1) as u64 }
}

/// No session, keeping the session counter.
pub open spec fn idle(c: Coordinator) -> Coordinator {
    Coordinator { phase: Phase::Idle, shutdown_armed: false, session: c.session }
}

impl Coordinator {
    /// The slot holds a signal exactly while a listener runs, and a running
    /// listener has a real (non-zero) port.
    pub open spec fn wf(self) -> bool {
        &&& self.shutdown_armed == (listener_port(self.phase) is Some)
        &&& (listener_port(self.phase) is Some ==> listener_port(self.phase)->Some_0 != 0)
    }

    /// A session exists.
    pub open spec fn active(self) -> bool {
        self.phase != Phase::Idle
    }

    pub fn new() -> (r: Coordinator)
        ensures
            r.wf(),
            r.phase == Phase::Idle,
            !r.shutdown_armed,
    {
        Coordinator { phase: Phase::Idle, shutdown_armed: false, session: 0 }
    }
}

/// What a start request asks the host to do.
#[derive(Clone, Copy, Debug, PartialEq, Eq, Structural)]
pub enum StartStep {
    /// A session exists: focus its window, start nothing.
    FocusExisting,
    /// Bind the listener on an ephemeral loopback port and report it.
    BindListener,
}

pub open spec fn start_step(c: Coordinator, window_exists: bool) -> StartStep {
    if window_exists || c.active() {
        StartStep::FocusExisting
    } else {
        StartStep::BindListener
    }
}

pub open spec fn after_start(c: Coordinator, window_exists: bool) -> Coordinator {
    if start_step(c, window_exists) == StartStep::FocusExisting {
        c
    } else {
        Coordinator { phase: Phase::Binding, shutdown_armed: false, session: next_session(c.session) }
    }
}

/// Why a session could not start. Either comes before any window exists and
/// emits no event.
#[derive(Debug)]
pub enum StartError {
    ListenerBind { message: String },
    WindowCreation { message: String },
}

impl StartError {
    pub fn message(&self) -> (r: &String)
        ensures
            r@ == match self {
                StartError::ListenerBind { message } => message@,
                StartError::WindowCreation { message } => message@,
            },
    {
        match self {
            StartError::ListenerBind { message } => message,
            StartError::WindowCreation { message } => message,
        }
    }
}

/// The message of a bind that reported no port.
pub const NO_PORT_MESSAGE: &'static str = "the listener was given no port";

/// The port of a bind, if it produced a usable one.
pub open spec fn bound_port(bound: Result<u16, String>) -> Option<u16> {
    match bound {
        Ok(p) => if p != 0 { Some(p) } else { None },
        Err(_) => None,
    }
}

pub open spec fn after_bind(c: Coordinator, port: Option<u16>) -> Coordinator {
    match port {
        Some(p) => Coordinator { phase: Phase::Opening { port: p }, shutdown_armed: true, session: c.session },
        None => idle(c),
    }
}

pub open spec fn after_window(c: Coordinator, built: bool) -> Coordinator {
    if built {
        Coordinator { phase: Phase::Awaiting { port: listener_port(c.phase)->Some_0 }, ..c }
    } else {
        idle(c)
    }
}

/// What the listener does with a callback.
#[derive(Debug)]
pub enum CallbackStep {
    /// Answer at once, with no registration and no event.
    Respond { response: CallbackResponse },
    /// Call the registrar with the token and cookies, then report its answer
    /// with `Coordinator::on_registration`, passing `ticket` back.
    Register { ticket: u64, token: String, cookies: Option<String> },
}

/// A callback goes to the registrar exactly when it carries a token and the
/// session waits for one.
pub open spec fn registers(c: Coordinator, p: CallbackPayload) -> bool {
    has_token(p) && c.phase is Awaiting
}

/// The registrar's answer belongs to the session that is waiting for it.
pub open spec fn current(c: Coordinator, ticket: u64) -> bool {
    c.phase is Awaiting && ticket == c.session
}

/// What the listener does once the registrar has answered.
#[derive(Debug)]
pub struct CallbackReply {
    pub response: CallbackResponse,
    /// The event to emit, if any.
    pub event: Option<LoginEvent>,
    /// Whether to close the window after the short fixed delay.
    pub close_window: bool,
}

pub ghost struct CallbackReplyView {
    pub response: CallbackResponseView,
    pub event: Option<LoginEventView>,
    pub close_window: bool,
}

impl View for CallbackReply {
    type V = CallbackReplyView;

    open spec fn view(&self) -> CallbackReplyView {
        CallbackReplyView {
            response: self.response@,
            event: event_view(self.event),
            close_window: self.close_window,
        }
    }
}

pub open spec fn registration_reply(
    c: Coordinator,
    ticket: u64,
    result: Result<Seq<char>, RegistrationErrorView>,
) -> CallbackReplyView {
    match result {
        Ok(identity) => if current(c, ticket) {
            CallbackReplyView {
                response: ok_response(),
                event: Some(LoginEventView::Success(identity)),
                close_window: true,
            }
        } else {
            CallbackReplyView { response: ok_response(), event: None, close_window: false }
        },
        Err(RegistrationErrorView::Duplicate(m)) => if current(c, ticket) {
            CallbackReplyView {
                response: error_response(m),
                event: Some(LoginEventView::Failed(DUPLICATE_NOTICE@)),
                close_window: true,
            }
        } else {
            CallbackReplyView { response: error_response(m), event: None, close_window: false }
        },
        Err(RegistrationErrorView::Other(m)) => CallbackReplyView {
            response: error_response(m),
            event: None,
            close_window: false,
        },
    }
}

pub open spec fn after_registration(
    c: Coordinator,
    ticket: u64,
    result: Result<Seq<char>, RegistrationErrorView>,
) -> Coordinator {
    if current(c, ticket) {
        match result {
            Ok(_) => Coordinator {
                phase: Phase::Finished { port: listener_port(c.phase)->Some_0, outcome: Outcome::Succeeded },
                ..c
            },
            Err(RegistrationErrorView::Duplicate(_)) => Coordinator {
                phase: Phase::Finished {
                    port: listener_port(c.phase)->Some_0,
                    outcome: Outcome::FailedDuplicate,
                },
                ..c
            },
            Err(RegistrationErrorView::Other(_)) => c,
        }
    } else {
        c
    }
}

/// What the window's destroy handler does.
#[derive(Debug)]
pub struct DestroyReply {
    /// The event to emit, if any.
    pub event: Option<LoginEvent>,
    /// Whether to fire the listener's shutdown signal, taken from the slot.
    pub stop_listener: bool,
}

/// The event of a window destruction: a cancellation when the slot still holds
/// the signal and no outcome was recorded.
pub open spec fn destroy_event(c: Coordinator) -> Option<LoginEventView> {
    if c.shutdown_armed && !(c.phase is Finished) {
        Some(LoginEventView::Cancelled)
    } else {
        None
    }
}

pub open spec fn after_destroy(c: Coordinator) -> Coordinator {
    if c.shutdown_armed {
        idle(c)
    } else {
        c
    }
}

impl Coordinator {
    /// Decides a start request. With a session already there (or a window
    /// under the reserved label) it only asks for the window to be focused and
    /// changes nothing; otherwise it opens a new session and asks for the
    /// listener to be bound.
    pub fn begin_start(&mut self, window_exists: bool) -> (r: StartStep)
        requires
            old(self).wf(),
        ensures
            final(self).wf(),
            r == start_step(*old(self), window_exists),
            *final(self) == after_start(*old(self), window_exists),
    {
        if window_exists || self.phase != Phase::Idle {
            StartStep::FocusExisting
        } else {
            let next = if self.session == u64::MAX { 0 } else { self.session + 1 };
            *self = Coordinator { phase: Phase::Binding, shutdown_armed: false, session: next };
            StartStep::BindListener
        }
    }

    /// Takes the result of binding the listener. A non-zero port arms the
    /// shutdown slot and gives the script to inject, with that port's callback
    /// address; a failed bind, or one that reported port zero, ends the session
    /// with `ListenerBind`.
    pub fn listener_bound(&mut self, bound: Result<u16, String>) -> (r: Result<String, StartError>)
        requires
            old(self).wf(),
            old(self).phase == Phase::Binding,
        ensures
            final(self).wf(),
            *final(self) == after_bind(*old(self), bound_port(bound)),
            bound_port(bound) is Some <==> r is Ok,
            r is Ok ==> r->Ok_0@ == interception_script_spec(bound_port(bound)->Some_0),
            r is Err ==> r->Err_0 is ListenerBind,
            bound is Err ==> r->Err_0->ListenerBind_message@ == bound->Err_0@,
            bound == Ok::<u16, String>(0) ==> r->Err_0->ListenerBind_message@ == NO_PORT_MESSAGE@,
    {
        match bound {
            Ok(port) => {
                if port == 0 {
                    self.phase = Phase::Idle;
                    Err(StartError::ListenerBind { message: String::from_str(NO_PORT_MESSAGE) })
                } else {
                    self.phase = Phase::Opening { port };
                    self.shutdown_armed = true;
                    Ok(interception_script(port))
                }
            },
            Err(message) => {
                self.phase = Phase::Idle;
                Err(StartError::ListenerBind { message })
            },
        }
    }

    /// Takes the result of building the window. On success the session waits
    /// for the callback. On failure it ends with `WindowCreation` and the slot is
    /// emptied: the caller fires the listener's shutdown signal.
    pub fn window_built(&mut self, built: Result<(), String>) -> (r: Result<(), StartError>)
        requires
            old(self).wf(),
            old(self).phase is Opening,
        ensures
            final(self).wf(),
            *final(self) == after_window(*old(self), built is Ok),
            r is Ok <==> built is Ok,
            built is Err ==> r->Err_0 is WindowCreation,
            built is Err ==> r->Err_0->WindowCreation_message@ == built->Err_0@,
    {
        match built {
            Ok(()) => {
                if let Phase::Opening { port } = self.phase {
                    self.phase = Phase::Awaiting { port };
                }
                Ok(())
            },
            Err(message) => {
                self.phase = Phase::Idle;
                self.shutdown_armed = false;
                Err(StartError::WindowCreation { message })
            },
        }
    }

    /// Decides a callback. A payload with a missing or empty token, or one that
    /// comes when no session waits for a token, is answered `waiting` with
    /// nothing else done; otherwise the token and cookies go to the registrar.
    pub fn on_callback(&self, payload: CallbackPayload) -> (r: CallbackStep)
        ensures
            r is Register <==> registers(*self, payload),
            r is Respond ==> r->Respond_response@ == waiting_response(),
            r is Register ==> r->Register_ticket == self.session,
            r is Register ==> r->Register_token@ == payload.token->Some_0@,
            r is Register ==> opt_view(r->Register_cookies) == opt_view(payload.cookies),
    {
        let waits = matches!(self.phase, Phase::Awaiting { .. });
        let present = payload.has_token();
        if waits && present {
            match payload.token {
                Some(token) => CallbackStep::Register {
                    ticket: self.session,
                    token,
                    cookies: payload.cookies,
                },
                None => CallbackStep::Respond { response: CallbackResponse::waiting() },
            }
        } else {
            CallbackStep::Respond { response: CallbackResponse::waiting() }
        }
    }

    /// Takes the registrar's answer to the callback with `ticket`. For the
    /// waiting session a registered account gives `login-success` and a
    /// duplicate gives `login-failed`; both record the outcome and ask for the
    /// deferred close. Any other failure only answers with its message and
    /// leaves the window open for another attempt. An answer that comes after
    /// the session ended or moved on emits nothing.
    pub fn on_registration(&mut self, ticket: u64, result: Result<String, RegistrationError>) -> (r:
        CallbackReply)
        requires
            old(self).wf(),
        ensures
            final(self).wf(),
            r@ == registration_reply(*old(self), ticket, registration_view(result)),
            *final(self) == after_registration(*old(self), ticket, registration_view(result)),
    {
        let is_current = ticket == self.session && matches!(self.phase, Phase::Awaiting { .. });
        let port: u16 = match self.phase {
            Phase::Awaiting { port } => port,
            _ => 0,
        };
        match result {
            Ok(identity) => {
                if is_current {
                    self.phase = Phase::Finished { port, outcome: Outcome::Succeeded };
                    CallbackReply {
                        response: CallbackResponse::ok(),
                        event: Some(LoginEvent::Success { identity }),
                        close_window: true,
                    }
                } else {
                    CallbackReply { response: CallbackResponse::ok(), event: None, close_window: false }
                }
            },
            Err(RegistrationError::Duplicate { message }) => {
                if is_current {
                    self.phase = Phase::Finished { port, outcome: Outcome::FailedDuplicate };
                    CallbackReply {
                        response: CallbackResponse::error(message),
                        event: Some(LoginEvent::Failed { message: String::from_str(DUPLICATE_NOTICE) }),
                        close_window: true,
                    }
                } else {
                    CallbackReply {
                        response: CallbackResponse::error(message),
                        event: None,
                        close_window: false,
                    }
                }
            },
            Err(RegistrationError::Other { message }) => CallbackReply {
                response: CallbackResponse::error(message),
                event: None,
                close_window: false,
            },
        }
    }

    /// Handles a destruction of the window, whatever closed it. The first one
    /// takes the signal from the slot and asks for it to be fired, emitting
    /// `login-cancelled` unless an outcome was already recorded; any later one
    /// finds the slot empty and does nothing.
    pub fn on_window_destroyed(&mut self) -> (r: DestroyReply)
        requires
            old(self).wf(),
        ensures
            final(self).wf(),
            event_view(r.event) == destroy_event(*old(self)),
            r.stop_listener == old(self).shutdown_armed,
            *final(self) == after_destroy(*old(self)),
    {
        if self.shutdown_armed {
            let finished = matches!(self.phase, Phase::Finished { .. });
            self.shutdown_armed = false;
            self.phase = Phase::Idle;
            if finished {
                DestroyReply { event: None, stop_listener: true }
            } else {
                DestroyReply { event: Some(LoginEvent::Cancelled), stop_listener: true }
            }
        } else {
            DestroyReply { event: None, stop_listener: false }
        }
    }
}

} // verus!
