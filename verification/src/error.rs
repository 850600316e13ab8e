//! The ways in which an operation on the table can fail.

use vstd::prelude::*;

verus! {

/// Why an operation on the table failed. The table is left usable after any
/// of them.
#[derive(Debug, Clone, Copy, PartialEq, Eq, Structural)]
pub enum TicTocError {
    /// `tic` was called on a key that already holds a timer.
    TimerAlreadyExists,
    /// The key holds no timer.
    TimerNotExists,
    /// A timer was to be replaced, and the key held none.
    TimerUpdateError,
    /// The timer is still running, or its duration does not fit the unit.
    TimerResultError,
}

impl TicTocError {
    /// The text that describes the error.
    pub open spec fn spec_message(self) -> Seq<char> {
        match self {
            TicTocError::TimerAlreadyExists => "A timer with default key mark already exists."@,
            TicTocError::TimerNotExists => "Timer does not exists."@,
            TicTocError::TimerUpdateError => "Error updating timer."@,
            TicTocError::TimerResultError => "Cannot resolve Timer result."@,
        }
    }

    /// A human-readable description of the error.
    pub fn message(&self) -> (text: String)
        ensures
            text@ == self.spec_message(),
    {
        match self {
            TicTocError::TimerAlreadyExists => "A timer with default key mark already exists.".to_owned(),
            TicTocError::TimerNotExists => "Timer does not exists.".to_owned(),
            TicTocError::TimerUpdateError => "Error updating timer.".to_owned(),
            TicTocError::TimerResultError => "Cannot resolve Timer result.".to_owned(),
        }
    }
}

} // verus!
