//! Tooling collaborator types: a language-server protocol extension exposing
//! a custom "server status" notification (health, quiescence flag, optional
//! message), used purely for developer tooling.

use vstd::prelude::*;

verus! {

/// The custom "server status" notification. Carries no values of its own: it
/// only names the notification whose parameters are `ServerStatusParams`.
pub struct ServerStatusNotification {}

/// The method name under which the notification travels.
pub fn server_status_method() -> (r: &'static str)
    ensures
        r@ == "experimental/serverStatus"@,
{
    "experimental/serverStatus"
}

/// The parameters of the "server status" notification.
#[derive(Clone, PartialEq, Eq)]
pub struct ServerStatusParams {
    pub health: Health,
    pub quiescent: bool,
    pub message: Option<String>,
}

/// The server's health, as reported to the developer tooling. `Good` is the
/// all-well report (spelled "ok" on the wire).
#[derive(Clone, Copy, PartialEq, Eq, Structural)]
pub enum Health {
    Good,
    Warning,
    Error,
}

} // verus!
