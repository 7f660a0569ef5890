use vstd::prelude::*;

verus! {

/// Everything that can go wrong in the game. The library itself raises
/// `InvalidCoordinates`, `InvalidSoundKey` and `Unexpected`; the other
/// variants are there for the program that loads resources, plays sounds
/// and renders.
#[derive(Clone, PartialEq, Eq, Debug)]
pub enum DodgerError {
    /// No file path matches the sound key.
    InvalidSoundKey(String),
    /// The sound could not be played.
    AudioError(String),
    /// No sound could be loaded from the path.
    InvalidSoundPath(String),
    /// No image could be loaded from the path.
    InvalidImagePath(String),
    /// No font could be loaded from the path.
    InvalidFontPath(String),
    /// An invariant of the game was broken.
    Unexpected,
    /// The coordinates `(x, y)` are beyond the playing field, whose width and
    /// height follow.
    InvalidCoordinates(i64, i64, i64, i64),
    DrawPlayer(String),
    DrawObject(String),
    DrawBackground(String),
    DrawText(String, String),
    DrawTimer(String),
    DrawScore(String, String),
    DrawIconButton(String),
    DrawTextButton(String),
    BuildRect(String),
    BuildEllipse(String),
    DrawRect(String),
    DrawEllipse(String),
}

} // verus!
