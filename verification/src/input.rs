//! The input snapshot of one player for one tick.

use vstd::prelude::*;

verus! {

/// What one player holds down during one tick. An input-mapping stage
/// outside the simulation fills it in between ticks.
#[derive(Clone, Copy, Debug, PartialEq, Eq, Structural)]
pub struct PlayerInput {
    /// The player that the snapshot belongs to.
    pub player_input_id: usize,
    pub up: bool,
    pub down: bool,
    pub left: bool,
    pub right: bool,
}

impl PlayerInput {
    /// The snapshot of player zero with nothing held down.
    pub fn new() -> (input: PlayerInput)
        ensures
            input == (PlayerInput { player_input_id: 0, up: false, down: false, left: false, right: false }),
    {
        PlayerInput { player_input_id: 0, up: false, down: false, left: false, right: false }
    }
}

} // verus!
