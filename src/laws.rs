//! Properties of whole sessions, stated over the coordinator's step functions.

use vstd::prelude::*;
use crate::protocol::{
    CallbackPayload, LoginEventView, RegistrationErrorView, DUPLICATE_NOTICE, has_token,
    ok_response, error_response,
};
use crate::session::{
    Coordinator, Phase, StartStep, start_step, after_start, after_bind, after_window, registers,
    registration_reply, after_registration, destroy_event, after_destroy, listener_port,
};

verus! {

/// A start request while a session exists (or while its window is there)
/// creates neither a window nor a listener: it only focuses, and the state stays
/// as it was.
pub proof fn start_while_active_only_focuses(c: Coordinator, window_exists: bool)
    requires
        c.wf(),
        c.active() || window_exists,
    ensures
        start_step(c, window_exists) == StartStep::FocusExisting,
        after_start(c, window_exists) == c,
{
}

/// A callback without a non-empty token never reaches the registrar, whatever
/// the session's state; it is answered `waiting` and, changing no state, emits
/// no event.
pub proof fn missing_token_only_waits(c: Coordinator, payload: CallbackPayload)
    requires
        !has_token(payload),
    ensures
        !registers(c, payload),
{
}

/// On a waiting session, a successful registration gives exactly one
/// `login-success` with the account's identity and one deferred close; the
/// window's destruction that follows finds the outcome recorded, emits nothing
/// and stops the listener, and neither a late answer nor a second destruction
/// emits anything more.
pub proof fn success_then_close_is_silent(
    c: Coordinator,
    identity: Seq<char>,
    ticket: u64,
    late: Result<Seq<char>, RegistrationErrorView>,
)
    requires
        c.wf(),
        c.phase is Awaiting,
    ensures
        ({
            let reply = registration_reply(c, c.session, Ok(identity));
            let done = after_registration(c, c.session, Ok(identity));
            &&& reply.response == ok_response()
            &&& reply.event == Some(LoginEventView::Success(identity))
            &&& reply.close_window
            &&& done.wf()
            &&& registration_reply(done, ticket, late).event is None
            &&& !registration_reply(done, ticket, late).close_window
            &&& destroy_event(done) is None
            &&& done.shutdown_armed
            &&& after_destroy(done).phase == Phase::Idle
            &&& destroy_event(after_destroy(done)) is None
            &&& !after_destroy(done).shutdown_armed
        }),
{
}

/// On a waiting session, a duplicate account gives exactly one `login-failed`
/// with the duplicate notice, an error response with the registrar's message,
/// and the deferred close; the destruction that follows emits nothing.
pub proof fn duplicate_fails_once_and_closes(c: Coordinator, message: Seq<char>)
    requires
        c.wf(),
        c.phase is Awaiting,
    ensures
        ({
            let result = Err(RegistrationErrorView::Duplicate(message));
            let reply = registration_reply(c, c.session, result);
            let done = after_registration(c, c.session, result);
            &&& reply.response == error_response(message)
            &&& reply.event == Some(LoginEventView::Failed(DUPLICATE_NOTICE@))
            &&& reply.close_window
            &&& done.wf()
            &&& destroy_event(done) is None
            &&& after_destroy(done).phase == Phase::Idle
        }),
{
}

/// Any other registration failure gives an error response with its message, no
/// event and no close; the session still waits, and a further callback with a
/// token goes to the registrar again.
pub proof fn other_failure_keeps_window_open(
    c: Coordinator,
    ticket: u64,
    message: Seq<char>,
    retry: CallbackPayload,
)
    requires
        c.wf(),
        c.phase is Awaiting,
        has_token(retry),
    ensures
        ({
            let result = Err(RegistrationErrorView::Other(message));
            let reply = registration_reply(c, ticket, result);
            let after = after_registration(c, ticket, result);
            &&& reply.response == error_response(message)
            &&& reply.event is None
            &&& !reply.close_window
            &&& after == c
            &&& registers(after, retry)
        }),
{
}

/// Closing the window before any callback outcome gives exactly one
/// `login-cancelled` and fires the shutdown signal; afterwards no listener runs
/// and a further destruction does nothing.
pub proof fn manual_close_cancels_once(c: Coordinator)
    requires
        c.wf(),
        c.phase is Awaiting,
    ensures
        destroy_event(c) == Some(LoginEventView::Cancelled),
        c.shutdown_armed,
        after_destroy(c).wf(),
        listener_port(after_destroy(c).phase) is None,
        !after_destroy(c).shutdown_armed,
        destroy_event(after_destroy(c)) is None,
        after_destroy(after_destroy(c)) == after_destroy(c),
{
}

/// While a session's listener runs, no callback outcome changes its port: the
/// port stays the one bound, and it is not zero.
pub proof fn port_kept_while_listening(
    c: Coordinator,
    ticket: u64,
    result: Result<Seq<char>, RegistrationErrorView>,
)
    requires
        c.wf(),
        listener_port(c.phase) is Some,
    ensures
        listener_port(c.phase)->Some_0 != 0,
        listener_port(after_registration(c, ticket, result).phase) == listener_port(c.phase),
        after_registration(c, ticket, result).wf(),
{
}

/// Two sessions one after the other (open, close the window, open again) each
/// run on the port their own bind reported, under distinct session numbers,
/// whether or not the two ports are equal.
pub proof fn sequential_sessions_use_their_own_ports(c: Coordinator, first: u16, second: u16)
    requires
        c.wf(),
        c.phase == Phase::Idle,
        first != 0,
        second != 0,
    ensures
        ({
            let s1 = after_start(c, false);
            let o1 = after_window(after_bind(s1, Some(first)), true);
            let closed = after_destroy(o1);
            let s2 = after_start(closed, false);
            let o2 = after_window(after_bind(s2, Some(second)), true);
            &&& start_step(c, false) == StartStep::BindListener
            &&& o1.wf()
            &&& o1.phase == (Phase::Awaiting { port: first })
            &&& closed.phase == Phase::Idle
            &&& start_step(closed, false) == StartStep::BindListener
            &&& o2.wf()
            &&& o2.phase == (Phase::Awaiting { port: second })
            &&& o2.session != o1.session
        }),
{
}

} // verus!
