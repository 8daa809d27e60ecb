//! The callback protocol between the injected page script and the loopback
//! listener, the login events handed to the host application, and the
//! classification of account registration failures.

use vstd::prelude::*;

verus! {

/// The `status` field of a callback response.
#[derive(Clone, Copy, Debug, PartialEq, Eq, Structural)]
pub enum CallbackStatus {
    Waiting,
    Succeeded,
    Failed,
}

/// The wire name of a status.
pub open spec fn status_name_spec(s: CallbackStatus) -> Seq<char> {
    match s {
        CallbackStatus::Waiting => "waiting"@,
        CallbackStatus::Succeeded => "ok"@,
        CallbackStatus::Failed => "error"@,
    }
}

impl CallbackStatus {
    /// The name under which the status travels in the response body.
    pub fn name(&self) -> (r: &'static str)
        ensures
            r@ == status_name_spec(*self),
    {
        match self {
            CallbackStatus::Waiting => "waiting",
            CallbackStatus::Succeeded => "ok",
            CallbackStatus::Failed => "error",
        }
    }
}

/// The body the page script posts: the captured token and the cookie string
/// visible to it. A missing token is a valid input, answered with `waiting`.
#[derive(Debug)]
pub struct CallbackPayload {
    pub token: Option<String>,
    pub cookies: Option<String>,
}

/// A payload that carries a token worth registering: present and non-empty.
pub open spec fn has_token(p: CallbackPayload) -> bool {
    p.token is Some && p.token->Some_0@.len() > 0
}

impl CallbackPayload {
    /// Whether the payload carries a present, non-empty token.
    pub fn has_token(&self) -> (r: bool)
        ensures
            r == has_token(*self),
    {
        match &self.token {
            Some(t) => !t.as_str().is_empty(),
            None => false,
        }
    }
}

/// What the listener answers to the page script.
#[derive(Debug)]
pub struct CallbackResponse {
    pub status: CallbackStatus,
    pub message: Option<String>,
}

pub ghost struct CallbackResponseView {
    pub status: CallbackStatus,
    pub message: Option<Seq<char>>,
}

pub open spec fn opt_view(o: Option<String>) -> Option<Seq<char>> {
    match o {
        Some(s) => Some(s@),
        None => None,
    }
}

impl View for CallbackResponse {
    type V = CallbackResponseView;

    open spec fn view(&self) -> CallbackResponseView {
        CallbackResponseView { status: self.status, message: opt_view(self.message) }
    }
}

pub open spec fn waiting_response() -> CallbackResponseView {
    CallbackResponseView { status: CallbackStatus::Waiting, message: None }
}

pub open spec fn ok_response() -> CallbackResponseView {
    CallbackResponseView { status: CallbackStatus::Succeeded, message: None }
}

pub open spec fn error_response(message: Seq<char>) -> CallbackResponseView {
    CallbackResponseView { status: CallbackStatus::Failed, message: Some(message) }
}

impl CallbackResponse {
    pub fn waiting() -> (r: CallbackResponse)
        ensures
            r@ == waiting_response(),
    {
        CallbackResponse { status: CallbackStatus::Waiting, message: None }
    }

    pub fn ok() -> (r: CallbackResponse)
        ensures
            r@ == ok_response(),
    {
        CallbackResponse { status: CallbackStatus::Succeeded, message: None }
    }

    pub fn error(message: String) -> (r: CallbackResponse)
        ensures
            r@ == error_response(message@),
    {
        CallbackResponse { status: CallbackStatus::Failed, message: Some(message) }
    }
}

/// A status event for the host application; exactly one ends each session.
#[derive(Debug)]
pub enum LoginEvent {
    /// `login-success`, with the identity of the registered account.
    Success { identity: String },
    /// `login-failed`, with a message for the user.
    Failed { message: String },
    /// `login-cancelled`: the user closed the window first.
    Cancelled,
}

pub ghost enum LoginEventView {
    Success(Seq<char>),
    Failed(Seq<char>),
    Cancelled,
}

impl View for LoginEvent {
    type V = LoginEventView;

    open spec fn view(&self) -> LoginEventView {
        match self {
            LoginEvent::Success { identity } => LoginEventView::Success(identity@),
            LoginEvent::Failed { message } => LoginEventView::Failed(message@),
            LoginEvent::Cancelled => LoginEventView::Cancelled,
        }
    }
}

pub open spec fn event_view(e: Option<LoginEvent>) -> Option<LoginEventView> {
    match e {
        Some(ev) => Some(ev@),
        None => None,
    }
}

pub open spec fn event_name_spec(e: LoginEventView) -> Seq<char> {
    match e {
        LoginEventView::Success(_) => "login-success"@,
        LoginEventView::Failed(_) => "login-failed"@,
        LoginEventView::Cancelled => "login-cancelled"@,
    }
}

impl LoginEvent {
    /// The name under which the event is emitted to the host application.
    pub fn name(&self) -> (r: &'static str)
        ensures
            r@ == event_name_spec(self@),
    {
        match self {
            LoginEvent::Success { .. } => "login-success",
            LoginEvent::Failed { .. } => "login-failed",
            LoginEvent::Cancelled => "login-cancelled",
        }
    }
}

/// Why the account registrar refused a token.
#[derive(Debug)]
pub enum RegistrationError {
    /// The account is already known.
    Duplicate { message: String },
    /// Any other failure; the user may try again.
    Other { message: String },
}

pub ghost enum RegistrationErrorView {
    Duplicate(Seq<char>),
    Other(Seq<char>),
}

impl View for RegistrationError {
    type V = RegistrationErrorView;

    open spec fn view(&self) -> RegistrationErrorView {
        match self {
            RegistrationError::Duplicate { message } => RegistrationErrorView::Duplicate(message@),
            RegistrationError::Other { message } => RegistrationErrorView::Other(message@),
        }
    }
}

pub open spec fn registration_message(e: RegistrationErrorView) -> Seq<char> {
    match e {
        RegistrationErrorView::Duplicate(m) => m,
        RegistrationErrorView::Other(m) => m,
    }
}

/// The outcome of a registration: the account identity, or the failure.
pub open spec fn registration_view(r: Result<String, RegistrationError>) -> Result<
    Seq<char>,
    RegistrationErrorView,
> {
    match r {
        Ok(identity) => Ok(identity@),
        Err(e) => Err(e@),
    }
}

/// The text by which the registrar's messages mark an account that already exists.
pub const DUPLICATE_MARKER: &'static str = "已存在";

/// The message of the `login-failed` event for an account that already exists.
pub const DUPLICATE_NOTICE: &'static str = "该账号已存在";

/// `pat` occurs in `s` as a contiguous run of characters.
pub open spec fn occurs_in(pat: Seq<char>, s: Seq<char>) -> bool {
    exists|i: int| 0 <= i && i + pat.len() <= s.len() && #[trigger] s.subrange(i, i + pat.len()) == pat
}

/// Relies on `str::contains` with a `&str` pattern: true exactly when the
/// pattern occurs in the string as a contiguous run.
#[verifier::external_body]
fn str_contains(s: &str, pat: &str) -> (r: bool)
    ensures
        r == occurs_in(pat@, s@),
{
    s.contains(pat)
}

impl RegistrationError {
    /// Sorts a registrar's free-text failure: it is a duplicate exactly when the
    /// message holds the duplicate marker. The message is kept as it is.
    pub fn classify(message: String) -> (r: RegistrationError)
        ensures
            occurs_in(DUPLICATE_MARKER@, message@) ==> r@ == RegistrationErrorView::Duplicate(message@),
            !occurs_in(DUPLICATE_MARKER@, message@) ==> r@ == RegistrationErrorView::Other(message@),
    {
        if str_contains(message.as_str(), DUPLICATE_MARKER) {
            RegistrationError::Duplicate { message }
        } else {
            RegistrationError::Other { message }
        }
    }

    /// The registrar's message.
    pub fn message(&self) -> (r: &String)
        ensures
            r@ == registration_message(self@),
    {
        match self {
            RegistrationError::Duplicate { message } => message,
            RegistrationError::Other { message } => message,
        }
    }
}

} // verus!
