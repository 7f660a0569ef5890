use vstd::prelude::*;
use crate::errors::DodgerError;
use crate::resources::Image;
use crate::utils::{valid_coordinates, validate_coordinates, Point, RectSize, Scaling};

verus! {

/// The colours that the game paints with.
#[derive(Clone, Copy, PartialEq, Eq, Structural, Debug)]
pub enum Color {
    White,
    Black,
    Yellow,
}

/// A line of text and how it is set: its font, its size in pixels and its colour.
#[derive(Clone, PartialEq, Eq, Debug)]
pub struct Text {
    pub line: String,
    pub font: String,
    pub scale: u32,
    pub color: Color,
}

/// A line of text as contracts speak of it: its characters, and how it is set.
pub struct TextView {
    pub line: Seq<char>,
    pub font: Seq<char>,
    pub scale: u32,
    pub color: Color,
}

impl View for Text {
    type V = TextView;

    open spec fn view(&self) -> TextView {
        TextView { line: self.line@, font: self.font@, scale: self.scale, color: self.color }
    }
}

/// A button with an icon.
#[derive(Clone, Copy, PartialEq, Eq, Debug)]
pub struct IconButton {
    pub coords: Point,
    pub scaling: Scaling,
    pub icon: Image,
}

impl IconButton {
    /// **Creates a new `IconButton`.**
    ///
    /// ## Parameters
    /// * `coords`: coordinates of the button.
    /// * `scaling`: scaling vector for the icon.
    /// * `icon`: image icon to be displayed on the button.
    ///
    /// ## Returns
    /// A result containing the new `IconButton`, or a `DodgerError` if coordinates validation fails.
    pub fn new(coords: Point, scaling: Scaling, icon: Image) -> (r: Result<Self, DodgerError>)
        ensures
            valid_coordinates(coords) ==> r == Ok::<IconButton, DodgerError>(
                IconButton { coords, scaling, icon },
            ),
            !valid_coordinates(coords) ==> r == Err::<IconButton, DodgerError>(
                DodgerError::InvalidCoordinates(
                    coords.x,
                    coords.y,
                    crate::consts::WINDOW_WIDTH,
                    crate::consts::WINDOW_HEIGHT,
                ),
            ),
    {
        let validated_coords = match validate_coordinates(coords) {
            Ok(c) => c,
            Err(e) => { return Err(e); },
        };
        Ok(Self { coords: validated_coords, scaling, icon })
    }
}

/// A button with text.
#[derive(Clone, PartialEq, Eq, Debug)]
pub struct TextButton {
    pub coords: Point,
    pub button_color: Color,
    pub button_size: RectSize,
    pub text: Text,
}

impl TextButton {
    /// **Creates a new `TextButton`.**
    ///
    /// ## Parameters
    /// * `coords`: coordinates of the button.
    /// * `button_color`: color of the button.
    /// * `button_size`: size of the button in terms of width and height.
    /// * `line`: text string to be displayed on the button.
    /// * `text_color`: color of the text.
    /// * `text_scale`: size of the text.
    /// * `font`: font for the text.
    ///
    /// ## Returns
    /// A result containing the new `TextButton`, or a `DodgerError` if coordinates validation fails.
    pub fn new(
        coords: Point,
        button_color: Color,
        button_size: RectSize,
        line: String,
        text_color: Color,
        text_scale: u32,
        font: String,
    ) -> (r: Result<Self, DodgerError>)
        ensures
            valid_coordinates(coords) ==> r == Ok::<TextButton, DodgerError>(
                TextButton {
                    coords,
                    button_color,
                    button_size,
                    text: Text { line, font, scale: text_scale, color: text_color },
                },
            ),
            !valid_coordinates(coords) ==> r == Err::<TextButton, DodgerError>(
                DodgerError::InvalidCoordinates(
                    coords.x,
                    coords.y,
                    crate::consts::WINDOW_WIDTH,
                    crate::consts::WINDOW_HEIGHT,
                ),
            ),
    {
        let validated_coords = match validate_coordinates(coords) {
            Ok(c) => c,
            Err(e) => { return Err(e); },
        };
        let text = Text { line, font, scale: text_scale, color: text_color };
        Ok(Self { coords: validated_coords, button_color, button_size, text })
    }
}

/// A structure representing drawable text.
#[derive(Clone, PartialEq, Eq, Debug)]
pub struct DrawText {
    pub coords: Point,
    pub text: Text,
}

impl DrawText {
    /// **Creates a new `DrawText`.**
    ///
    /// ## Parameters
    /// * `coords`: coordinates where the text will be drawn.
    /// * `line`: text string to be drawn.
    /// * `font`: font for the text.
    /// * `scale`: size of the text.
    /// * `color`: color of the text.
    ///
    /// ## Returns
    /// A result containing the new `DrawText`, or a `DodgerError` if coordinates validation fails.
    pub fn new(coords: Point, line: String, font: String, scale: u32, color: Color) -> (r: Result<
        Self,
        DodgerError,
    >)
        ensures
            valid_coordinates(coords) ==> r == Ok::<DrawText, DodgerError>(
                DrawText { coords, text: Text { line, font, scale, color } },
            ),
            !valid_coordinates(coords) ==> r == Err::<DrawText, DodgerError>(
                DodgerError::InvalidCoordinates(
                    coords.x,
                    coords.y,
                    crate::consts::WINDOW_WIDTH,
                    crate::consts::WINDOW_HEIGHT,
                ),
            ),
    {
        let validated_coords = match validate_coordinates(coords) {
            Ok(c) => c,
            Err(e) => { return Err(e); },
        };
        let text = Text { line, font, scale, color };
        Ok(Self { coords: validated_coords, text })
    }
}

} // verus!
