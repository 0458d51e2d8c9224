//! Errors raised by the controller.
use vstd::prelude::*;

verus! {

/// An error of the controller, with its human-readable message.
#[derive(Debug, Clone, PartialEq, Eq)]
pub enum ControllerError {
    /// A failure of the transport or of the wallet call, with its message.
    GenericError(String),
    /// An incoming slate that this wallet or its node cannot process.
    Compatibility(String),
}

/// The text that an error displays: the words a client receives as the body
/// of an error response.
pub open spec fn error_text(e: ControllerError) -> Seq<char> {
    match e {
        ControllerError::GenericError(m) => "Generic error: "@ + m@,
        ControllerError::Compatibility(m) => m@,
    }
}

impl ControllerError {
    /// The display text of this error.
    pub fn message(&self) -> (r: String)
        ensures
            r@ == error_text(*self),
    {
        match self {
            ControllerError::GenericError(m) => {
                let mut s = String::from_str("Generic error: ");
                s.append(m.as_str());
                s
            },
            ControllerError::Compatibility(m) => m.clone(),
        }
    }
}

} // verus!
