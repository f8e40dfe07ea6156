//! The error taxonomy every fallible operation of this crate reports.

use vstd::prelude::*;
use vstd::string::StringExecFns;

use crate::models::PropertyKey;
use crate::strutil::str_eq;

verus! {

/// What went wrong, kept apart by kind so a caller can tell a failed
/// transport from an incomplete answer of the manager.
#[derive(Clone, Debug)]
pub enum Error {
    /// The remote call could not be completed (connection lost, timeout,
    /// remote method fault).  Carries the transport's message.
    Transport(String),
    /// A wire value could not be converted to its client-side
    /// representation.  Carries a description of the offending value.
    Decode(String),
    /// A required field was absent, or of the wrong wire type, when
    /// assembling a typed record.
    ContractViolation(PropertyKey),
    /// A filesystem operation failed.  Carries the operating system's
    /// message.
    Io(String),
}

impl Error {
    /// The text a value describes itself with.
    pub open spec fn spec_message(self) -> Seq<char> {
        match self {
            Error::Transport(m) => "transport error: "@ + m@,
            Error::Decode(m) => "decode error: "@ + m@,
            Error::ContractViolation(k) => "required property undefined: "@ + k.spec_name(),
            Error::Io(m) => "io error: "@ + m@,
        }
    }

    /// Describe the error; the text names the kind, then the detail.
    pub fn message(&self) -> (r: String)
        ensures
            r@ == self.spec_message(),
    {
        match self {
            Error::Transport(m) => {
                let mut r = String::from_str("transport error: ");
                r.append(m.as_str());
                r
            },
            Error::Decode(m) => {
                let mut r = String::from_str("decode error: ");
                r.append(m.as_str());
                r
            },
            Error::ContractViolation(k) => {
                let mut r = String::from_str("required property undefined: ");
                let name = k.name();
                r.append(name.as_str());
                r
            },
            Error::Io(m) => {
                let mut r = String::from_str("io error: ");
                r.append(m.as_str());
                r
            },
        }
    }
}

impl PartialEq for Error {
    /// Structural equality: same kind, and equal detail.
    fn eq(&self, other: &Self) -> (r: bool) {
        match (self, other) {
            (Error::Transport(a), Error::Transport(b)) => str_eq(a.as_str(), b.as_str()),
            (Error::Decode(a), Error::Decode(b)) => str_eq(a.as_str(), b.as_str()),
            (Error::ContractViolation(a), Error::ContractViolation(b)) => *a == *b,
            (Error::Io(a), Error::Io(b)) => str_eq(a.as_str(), b.as_str()),
            _ => false,
        }
    }
}

impl vstd::std_specs::cmp::PartialEqSpecImpl for Error {
    open spec fn obeys_eq_spec() -> bool {
        true
    }

    open spec fn eq_spec(&self, other: &Self) -> bool {
        match (self, other) {
            (Error::Transport(a), Error::Transport(b)) => a@ == b@,
            (Error::Decode(a), Error::Decode(b)) => a@ == b@,
            (Error::ContractViolation(a), Error::ContractViolation(b)) => a == b,
            (Error::Io(a), Error::Io(b)) => a@ == b@,
            _ => false,
        }
    }
}

} // verus!
