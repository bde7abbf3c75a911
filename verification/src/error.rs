//! What the library itself can refuse.

use vstd::prelude::*;
use vstd::string::*;

verus! {

/// An error raised locally, before or after the exchange is asked.
#[derive(Debug, Clone, PartialEq, Eq)]
pub enum Error {
    /// An order breaks a rule of the exchange; `msg` names the rule.
    InvalidOrderError { msg: String },
    /// The credentials do not allow a request to be signed.
    ConfigurationError { msg: String },
    /// A local lookup found nothing.
    Msg(String),
}

impl Error {
    /// The description that the error carries.
    pub open spec fn text(&self) -> Seq<char> {
        match self {
            Error::InvalidOrderError { msg } => msg@,
            Error::ConfigurationError { msg } => msg@,
            Error::Msg(msg) => msg@,
        }
    }

    /// Whether two errors are of the same kind and carry the same description.
    pub open spec fn same_as(&self, other: &Error) -> bool {
        &&& self.text() == other.text()
        &&& (self is InvalidOrderError <==> other is InvalidOrderError)
        &&& (self is ConfigurationError <==> other is ConfigurationError)
        &&& (self is Msg <==> other is Msg)
    }

    /// The description that the error carries.
    pub fn message(&self) -> (m: String)
        ensures
            m@ == self.text(),
    {
        match self {
            Error::InvalidOrderError { msg } => msg.clone(),
            Error::ConfigurationError { msg } => msg.clone(),
            Error::Msg(msg) => msg.clone(),
        }
    }
}

} // verus!
