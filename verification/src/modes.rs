use vstd::prelude::*;

verus! {

/// The screen that the game shows; exactly one is active at a time.
#[derive(Clone, Copy, PartialEq, Eq, Structural, Debug)]
pub enum GameMode {
    Menu,
    LevelSelection,
    Playing,
    HowToPlay,
    NextLevel,
    GameOver,
    Victory,
}

} // verus!
