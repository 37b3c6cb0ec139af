//! The decisions of a proxy server that finds its upstream proxies with a PAC script.
//!
//! [`evaluator`] drives the evaluation of a PAC script, [`proxy`] reads its result, [`session`]
//! decides what becomes of a request, [`clients`] keeps track of the clients of upstream proxies,
//! and [`negotiate`] authenticates toward them.
use vstd::prelude::*;

pub mod auth;
pub mod clients;
pub mod dns;
pub mod evaluator;
pub mod headers;
pub mod negotiate;
pub mod proxy;
pub mod session;
pub mod text;
pub mod uri;

pub use crate::evaluator::DEFAULT_PAC_SCRIPT;
pub use crate::session::Session;

verus! {

/// Why the server stopped or could not be started.
#[derive(Debug)]
pub enum Error {
    /// Input or output failed.
    Io(String),
    /// The HTTP server failed.
    Hyper(String),
    /// The file with the credentials could not be read.
    Netrc(String),
}

impl Error {
    /// What went wrong, for people.
    pub fn message(&self) -> (r: String)
        ensures
            r@ == match self {
                Error::Io(cause) => "I/O error: "@ + cause@,
                Error::Hyper(cause) => "HTTP error: "@ + cause@,
                Error::Netrc(cause) => "netrc error: "@ + cause@,
            },
    {
        match self {
            Error::Io(cause) => text::concat2("I/O error: ", cause.as_str()),
            Error::Hyper(cause) => text::concat2("HTTP error: ", cause.as_str()),
            Error::Netrc(cause) => text::concat2("netrc error: ", cause.as_str()),
        }
    }
}

}
