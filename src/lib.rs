//! Token capture for an embedded login window: the session coordinator that
//! decides what happens on each start request, callback and window event, the
//! callback protocol, and the script injected into the login page.

pub mod protocol;
pub mod script;
pub mod session;
pub mod laws;
