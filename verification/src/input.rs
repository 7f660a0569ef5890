use vstd::prelude::*;
use crate::utils::Point;

verus! {

/// The state of the mouse in one frame.
#[derive(Clone, Copy, PartialEq, Eq, Structural, Debug)]
pub struct Mouse {
    /// The left button is down.
    pub left_pressed: bool,
    /// Where the pointer is.
    pub position: Point,
}

/// What the game sees of the outside world in one frame.
#[derive(Clone, Copy, PartialEq, Eq, Structural, Debug)]
pub struct FrameInput {
    /// The time on the game's clock, in milliseconds.
    pub now: u64,
    pub mouse: Mouse,
}

/// The keys that the game tells apart.
#[derive(Clone, Copy, PartialEq, Eq, Structural, Debug)]
pub enum Key {
    Space,
    Left,
    Right,
    Other,
}

} // verus!
