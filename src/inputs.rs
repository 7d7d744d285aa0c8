//! One frame's input of one player.
use vstd::prelude::*;

verus! {

/// The three buttons a player can hold during a frame.
#[derive(Clone, Copy, Debug, PartialEq, Eq, Structural)]
pub struct Input {
    pub left: bool,
    pub right: bool,
    pub attack: bool,
}

impl Default for Input {
    /// No button held.
    fn default() -> (r: Input)
        ensures
            !r.left && !r.right && !r.attack,
    {
        Input { left: false, right: false, attack: false }
    }
}

} // verus!
