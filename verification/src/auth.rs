//! Authentication toward an upstream proxy.
use vstd::prelude::*;

verus! {

/// An authentication mechanism failed.
#[derive(Debug)]
pub struct Error {
    /// What the mechanism reported.
    pub cause: String,
}

/// Which authentication to use toward a proxy.
#[derive(Debug, Clone, Copy, PartialEq, Eq, Structural)]
pub enum AuthenticatorFactory {
    /// No authentication.
    NoAuthentication,
    /// A user name and a password.
    Basic,
    /// A token of the GSS-API.
    Negotiate,
}

}
