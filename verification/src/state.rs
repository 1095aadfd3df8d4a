//! The state of a statement after a step.

use vstd::prelude::*;

verus! {

/// The state after stepping a statement.
#[derive(Clone, Copy, Debug, PartialEq, Eq, Structural)]
#[non_exhaustive]
pub enum State {
    /// There is a row available for reading.
    Row,
    /// The statement has been entirely evaluated.
    Done,
}

impl State {
    /// Return `true` if the state is `State::Done`.
    pub fn is_done(&self) -> (r: bool)
        ensures
            r == (*self is Done),
    {
        matches!(self, State::Done)
    }

    /// Return `true` if the state is `State::Row`.
    pub fn is_row(&self) -> (r: bool)
        ensures
            r == (*self is Row),
    {
        matches!(self, State::Row)
    }
}

/// A state is exactly one of done and row.
pub proof fn lemma_state_done_xor_row(s: State)
    ensures
        (s is Done) != (s is Row),
{
}

} // verus!
