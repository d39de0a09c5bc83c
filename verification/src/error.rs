//! Why an operation on the roster was refused.

use vstd::prelude::*;

verus! {

/// The two refusals of the session. Neither changes any state.
#[derive(Clone, Copy, Debug, PartialEq, Eq, Structural)]
pub enum SessionError {
    /// An alias to add was empty.
    InvalidInput,
    /// No entry of the roster was selected: no position was given, or the
    /// position given holds no entry.
    NoSelection,
}

impl SessionError {
    /// The notice shown to the user for this refusal.
    pub fn notice(&self) -> (r: String)
        ensures
            r@ == (match *self {
                SessionError::InvalidInput => "An alias cannot be empty."@,
                SessionError::NoSelection => "No alias is selected."@,
            }),
    {
        match self {
            SessionError::InvalidInput => "An alias cannot be empty.".to_owned(),
            SessionError::NoSelection => "No alias is selected.".to_owned(),
        }
    }
}

} // verus!
