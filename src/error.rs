//! Error kinds, aligned with the process exit codes.

use vstd::prelude::*;
use vstd::string::*;

verus! {

#[derive(Debug, Clone)]
pub enum GuardUploadError {
    /// I/O failures, timeouts and the like.
    Operational(String),
    /// An invalid policy configuration.
    PolicyInvalid(String),
    /// Anything else.
    Generic(String),
}

impl GuardUploadError {
    /// The text of the error.
    pub open spec fn text(&self) -> Seq<char> {
        match self {
            GuardUploadError::Operational(m) => "operational error: "@ + m@,
            GuardUploadError::PolicyInvalid(m) => "invalid policy: "@ + m@,
            GuardUploadError::Generic(m) => m@,
        }
    }

    /// Human-readable text of the error.
    pub fn message(&self) -> (r: String)
        ensures
            r@ == self.text(),
    {
        match self {
            GuardUploadError::Operational(m) => {
                let mut s = String::from_str("operational error: ");
                s.append(m.as_str());
                s
            },
            GuardUploadError::PolicyInvalid(m) => {
                let mut s = String::from_str("invalid policy: ");
                s.append(m.as_str());
                s
            },
            GuardUploadError::Generic(m) => m.clone(),
        }
    }
}

} // verus!
