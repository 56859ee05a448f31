//! The score pair of a running match.

use vstd::prelude::*;

verus! {

/// The two counters of a running match, one for each seat.
#[derive(Debug, Clone, Copy, PartialEq, Eq)]
pub struct GameState {
    pub player1_score: i32,
    pub player2_score: i32,
}

impl GameState {
    /// A score pair with both counters at zero.
    pub fn new() -> (state: Self)
        ensures
            state.player1_score == 0,
            state.player2_score == 0,
    {
        Self { player1_score: 0, player2_score: 0 }
    }
}

} // verus!
