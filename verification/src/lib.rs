//! The rules of a small arcade game: a paddle at the bottom of the playing
//! field catches good falling objects for points and loses a life to each
//! bad one. The crate holds the game's state machine and everything it
//! decides; painting, sound and input devices stay with the program that
//! embeds it.
//!
//! Lengths are whole numbers of [`consts::PX`]-ths of a pixel, times are
//! milliseconds on a clock that the embedding program supplies.
//!
//! * [`model`] is the game as a mathematical state machine, [`scene`] what
//!   each of its screens shows, [`upkeep`] the proof that every transition
//!   keeps the state well-formed, and [`laws`] what follows for the player.
//! * [`gamestate`] is the executable game; each of its steps is proved to
//!   take the step of the model.
//! * [`collisions`], [`objects`], [`player`], [`levels`], [`records`],
//!   [`resources`] and [`sound`] are the parts that the game is made of.
//! * [`ui`], [`buttons`], [`text`] and [`utils`] lay out and draw the
//!   screens, as a list of commands for a renderer.
//! * [`random`] draws the numbers of the spawner, and [`input`] is what the
//!   game sees of mouse and keyboard.

pub mod buttons;
pub mod collisions;
pub mod consts;
pub mod errors;
pub mod gamestate;
pub mod input;
pub mod laws;
pub mod levels;
pub mod model;
pub mod modes;
pub mod objects;
pub mod player;
pub mod random;
pub mod records;
pub mod resources;
pub mod scene;
pub mod sound;
pub mod text;
pub mod ui;
pub mod upkeep;
pub mod utils;
