use vstd::prelude::*;
use crate::buttons::{Color, IconButton, TextButton};
use crate::consts::{BUTTON_SPACING, BUTTON_TEXT_SIZE, OBJECT_SCALING, PLAYER_SCALING, PX,
    TEXT_BUTTON_HEIGHT, TEXT_BUTTON_WIDTH, WINDOW_HEIGHT, WINDOW_WIDTH};
use crate::errors::DodgerError;
use crate::input::Mouse;
use crate::text::{label_number, labelled};

verus! {

/// A position on the screen, in length units.
#[derive(Clone, Copy, PartialEq, Eq, Structural, Debug)]
pub struct Point {
    pub x: i64,
    pub y: i64,
}

/// Horizontal and vertical scaling of a picture, in percent.
#[derive(Clone, Copy, PartialEq, Eq, Structural, Debug)]
pub struct Scaling {
    pub x: u16,
    pub y: u16,
}

/// **Size of a rectangle (width and height)**
#[derive(Clone, Copy, PartialEq, Eq, Structural, Debug)]
pub struct RectSize {
    pub w: i64,
    pub h: i64,
}

impl From<(i64, i64)> for RectSize {
    fn from(size: (i64, i64)) -> (r: Self) {
        Self { w: size.0, h: size.1 }
    }
}

impl vstd::std_specs::convert::FromSpecImpl<(i64, i64)> for RectSize {
    open spec fn obeys_from_spec() -> bool {
        true
    }

    open spec fn from_spec(size: (i64, i64)) -> Self {
        RectSize { w: size.0, h: size.1 }
    }
}

/// An axis-aligned rectangle: its top left corner and its size.
#[derive(Clone, Copy, PartialEq, Eq, Structural, Debug)]
pub struct Rect {
    pub x: i64,
    pub y: i64,
    pub w: i64,
    pub h: i64,
}

impl Rect {
    pub open spec fn left(self) -> int {
        self.x as int
    }

    pub open spec fn right(self) -> int {
        self.x + self.w
    }

    pub open spec fn top(self) -> int {
        self.y as int
    }

    pub open spec fn bottom(self) -> int {
        self.y + self.h
    }

    /// Two rectangles overlap when they share at least one point; rectangles
    /// that only touch along an edge or at a corner overlap.
    pub open spec fn overlaps_spec(self, other: Rect) -> bool {
        &&& self.left() <= other.right()
        &&& self.right() >= other.left()
        &&& self.top() <= other.bottom()
        &&& self.bottom() >= other.top()
    }

    /// A rectangle contains the points inside it and those on its border.
    pub open spec fn contains_spec(self, point: Point) -> bool {
        &&& self.left() <= point.x <= self.right()
        &&& self.top() <= point.y <= self.bottom()
    }

    pub fn new(x: i64, y: i64, w: i64, h: i64) -> (r: Self)
        ensures
            r == (Rect { x, y, w, h }),
    {
        Rect { x, y, w, h }
    }

    /// Checks whether the rectangle overlaps another one.
    pub fn overlaps(&self, other: &Rect) -> (r: bool)
        ensures
            r == self.overlaps_spec(*other),
    {
        let self_right: i128 = self.x as i128 + self.w as i128;
        let self_bottom: i128 = self.y as i128 + self.h as i128;
        let other_right: i128 = other.x as i128 + other.w as i128;
        let other_bottom: i128 = other.y as i128 + other.h as i128;
        self.x as i128 <= other_right && self_right >= other.x as i128
            && self.y as i128 <= other_bottom && self_bottom >= other.y as i128
    }

    /// Checks whether the rectangle contains a point.
    pub fn contains(&self, point: Point) -> (r: bool)
        ensures
            r == self.contains_spec(point),
    {
        let right: i128 = self.x as i128 + self.w as i128;
        let bottom: i128 = self.y as i128 + self.h as i128;
        point.x >= self.x && point.x as i128 <= right && point.y as i128 <= bottom
            && point.y >= self.y
    }
}

/// The coordinate nearest to `value` that a position can hold.
pub open spec fn clamp_coordinate(value: int) -> i64 {
    if value > i64::MAX {
        i64::MAX
    } else if value < i64::MIN {
        i64::MIN
    } else {
        value as i64
    }
}

/// Adds a distance to a coordinate; the result stays at the largest or
/// smallest coordinate where the sum lies beyond it.
pub fn offset_coordinate(coordinate: i64, distance: i64) -> (r: i64)
    ensures
        r == clamp_coordinate(coordinate + distance),
{
    let sum: i128 = coordinate as i128 + distance as i128;
    if sum > i64::MAX as i128 {
        i64::MAX
    } else if sum < i64::MIN as i128 {
        i64::MIN
    } else {
        sum as i64
    }
}

/// Half of a length, rounded towards zero.
pub open spec fn half(value: int) -> int {
    if value >= 0 {
        value / 2
    } else {
        -((-value) / 2)
    }
}

/// Halves a length, rounding towards zero.
pub fn half_of(value: i64) -> (r: i64)
    ensures
        r == half(value as int),
{
    if value >= 0 {
        value / 2
    } else if value == i64::MIN {
        -0x4000_0000_0000_0000
    } else {
        -((-value) / 2)
    }
}

/// The length of `pixels` pixels under a scaling of `percent` percent.
pub open spec fn scaled_length(pixels: u32, percent: u16) -> int {
    pixels * percent * PX / 100
}

/// Computes the length of a picture's side under a scaling.
pub fn scale_length(pixels: u32, percent: u16) -> (r: i64)
    ensures
        r == scaled_length(pixels, percent),
        0 <= r <= 0xffff_ffff * 0xffff,
{
    assert(0 <= pixels * percent <= 0xffff_ffff * 0xffff) by (nonlinear_arith)
        requires
            0 <= pixels <= 0xffff_ffff,
            0 <= percent <= 0xffff,
    ;
    let product: i64 = pixels as i64 * percent as i64;
    product * PX / 100
}

/// The coordinates lie on the playing field, borders included.
pub open spec fn valid_coordinates(coords: Point) -> bool {
    0 <= coords.x <= WINDOW_WIDTH && 0 <= coords.y <= WINDOW_HEIGHT
}

/// **Validates if the coordinates are within the game window boundaries.**
///
/// ## Returns
/// The coordinates unchanged if they lie on the playing field, else
/// `DodgerError::InvalidCoordinates` with the coordinates and the field's size.
pub fn validate_coordinates(coords: Point) -> (r: Result<Point, DodgerError>)
    ensures
        valid_coordinates(coords) ==> r == Ok::<Point, DodgerError>(coords),
        !valid_coordinates(coords) ==> r == Err::<Point, DodgerError>(
            DodgerError::InvalidCoordinates(coords.x, coords.y, WINDOW_WIDTH, WINDOW_HEIGHT),
        ),
{
    if coords.x < 0 || coords.x > WINDOW_WIDTH || coords.y < 0 || coords.y > WINDOW_HEIGHT {
        Err(DodgerError::InvalidCoordinates(coords.x, coords.y, WINDOW_WIDTH, WINDOW_HEIGHT))
    } else {
        Ok(coords)
    }
}

/// The size of every text button.
pub open spec fn text_button_size() -> RectSize {
    RectSize { w: TEXT_BUTTON_WIDTH, h: TEXT_BUTTON_HEIGHT }
}

/// **Returns the size of a text button as a `RectSize` instance.**
pub fn text_button_rectsize() -> (r: RectSize)
    ensures
        r == text_button_size(),
{
    RectSize { w: TEXT_BUTTON_WIDTH, h: TEXT_BUTTON_HEIGHT }
}

/// The top left corner of a text button in the middle of the screen.
pub open spec fn centered_button_point() -> Point {
    Point {
        x: (WINDOW_WIDTH / 2 - TEXT_BUTTON_WIDTH / 2) as i64,
        y: (WINDOW_HEIGHT / 2 - TEXT_BUTTON_HEIGHT / 2) as i64,
    }
}

/// **Calculates the start coordinates of a centered button on the screen.**
///
/// ## Returns
/// Starting point of the centered button.
pub fn start_point_of_centered_button() -> (r: Point)
    ensures
        r == centered_button_point(),
{
    Point {
        x: (WINDOW_WIDTH / 2) - (TEXT_BUTTON_WIDTH / 2),
        y: (WINDOW_HEIGHT / 2) - (TEXT_BUTTON_HEIGHT / 2),
    }
}

/// The top left corner of a button in a column of buttons: the column is
/// centred horizontally, starts at `start_y`, and each button lies one
/// button's height and one spacing below the one before.
pub open spec fn button_in_set_point(button_index: usize, start_y: i64) -> Point {
    Point {
        x: (WINDOW_WIDTH / 2 - TEXT_BUTTON_WIDTH / 2) as i64,
        y: clamp_coordinate(start_y + button_index * (TEXT_BUTTON_HEIGHT + BUTTON_SPACING)),
    }
}

/// **Calculates the start coordinates of a button in a set of buttons, spaced vertically.**
///
/// ## Parameters
/// * `button_index`: index of the button (0-based).
/// * `start_y`: the vertical starting point for the first button in the set.
///
/// ## Returns
/// Starting point of the button in the set.
pub fn start_point_of_button_in_set(button_index: usize, start_y: i64) -> (r: Point)
    ensures
        r == button_in_set_point(button_index, start_y),
{
    let x = (WINDOW_WIDTH / 2) - (TEXT_BUTTON_WIDTH / 2);
    let pitch: i128 = (TEXT_BUTTON_HEIGHT + BUTTON_SPACING) as i128;
    assert(button_index * pitch <= usize::MAX * 6000) by (nonlinear_arith)
        requires
            0 <= button_index <= usize::MAX,
            pitch == 6000,
    ;
    assert(0 <= button_index * pitch) by (nonlinear_arith)
        requires
            0 <= button_index,
            pitch == 6000,
    ;
    let y: i128 = start_y as i128 + button_index as i128 * pitch;
    let y: i64 = if y > i64::MAX as i128 {
        i64::MAX
    } else if y < i64::MIN as i128 {
        i64::MIN
    } else {
        y as i64
    };

    Point { x, y }
}

/// **Creates a level selection button.**
///
/// ## Parameters
/// * `level_index`: index of the level (0-based).
/// * `start_y`: vertical starting point for the first button in the set.
/// * `font`: font to be used for the button text.
///
/// ## Returns
/// A result containing a new `TextButton` instance, or a `DodgerError` if creation fails.
pub fn get_level_button(level_index: usize, start_y: i64, font: String) -> (r: Result<
    TextButton,
    DodgerError,
>)
    ensures
        valid_coordinates(button_in_set_point(level_index, start_y)) ==> (r matches Ok(button)
            && button.coords == button_in_set_point(level_index, start_y)
            && button.button_color == Color::White
            && button.button_size == text_button_size()
            && button.text.line@ == labelled("Level "@, (level_index + 1) as nat)
            && button.text.font == font
            && button.text.scale == BUTTON_TEXT_SIZE
            && button.text.color == Color::Black),
        !valid_coordinates(button_in_set_point(level_index, start_y)) ==> r == Err::<
            TextButton,
            DodgerError,
        >(
            DodgerError::InvalidCoordinates(
                button_in_set_point(level_index, start_y).x,
                button_in_set_point(level_index, start_y).y,
                WINDOW_WIDTH,
                WINDOW_HEIGHT,
            ),
        ),
{
    let button_coords = start_point_of_button_in_set(level_index, start_y);

    TextButton::new(
        button_coords,
        Color::White,
        text_button_rectsize(),
        label_number("Level ", level_index as u128 + 1),
        Color::Black,
        BUTTON_TEXT_SIZE,
        font,
    )
}

/// **Returns the default scaling vector for the player.**
pub fn player_scaling() -> (r: Scaling)
    ensures
        r == (Scaling { x: PLAYER_SCALING, y: PLAYER_SCALING }),
{
    Scaling { x: PLAYER_SCALING, y: PLAYER_SCALING }
}

/// **Returns the default scaling vector for objects.**
pub fn object_scaling() -> (r: Scaling)
    ensures
        r == (Scaling { x: OBJECT_SCALING, y: OBJECT_SCALING }),
{
    Scaling { x: OBJECT_SCALING, y: OBJECT_SCALING }
}

/// **Returns a scaling vector representing half scaling.**
pub fn half_scaling() -> (r: Scaling)
    ensures
        r == (Scaling { x: 50, y: 50 }),
{
    Scaling { x: 50, y: 50 }
}

/// The rectangle of an icon button: its corner and the scaled size of its icon.
pub open spec fn icon_rect(button: IconButton) -> Rect {
    Rect {
        x: button.coords.x,
        y: button.coords.y,
        w: scaled_length(button.icon.width, button.scaling.x) as i64,
        h: scaled_length(button.icon.height, button.scaling.y) as i64,
    }
}

/// **Computes the size of an icon button based on its icon dimensions and scaling.**
///
/// ## Parameters
/// `button`: a reference to the `IconButton`.
///
/// ## Returns
/// The width and height of the icon button.
pub fn icon_button_size(button: &IconButton) -> (r: (i64, i64))
    ensures
        r.0 == scaled_length(button.icon.width, button.scaling.x),
        r.1 == scaled_length(button.icon.height, button.scaling.y),
{
    (
        scale_length(button.icon.width, button.scaling.x),
        scale_length(button.icon.height, button.scaling.y),
    )
}

/// **Computes the rectangle representing the boundaries of an icon button.**
///
/// ## Parameters
/// `button`: a reference to the `IconButton`.
///
/// ## Returns
/// A result containing the rectangle representing the button's boundaries, or a `DodgerError` if the coordinates are invalid.
pub fn icon_button_rect(button: &IconButton) -> (r: Result<Rect, DodgerError>)
    ensures
        valid_coordinates(button.coords) ==> r == Ok::<Rect, DodgerError>(icon_rect(*button)),
        !valid_coordinates(button.coords) ==> r == Err::<Rect, DodgerError>(
            DodgerError::InvalidCoordinates(
                button.coords.x,
                button.coords.y,
                WINDOW_WIDTH,
                WINDOW_HEIGHT,
            ),
        ),
{
    let button_coords = match validate_coordinates(button.coords) {
        Ok(c) => c,
        Err(e) => { return Err(e); },
    };
    let (w, h) = icon_button_size(button);
    Ok(Rect::new(button_coords.x, button_coords.y, w, h))
}

/// The rectangle in which a text button at `coords` takes a click. It has
/// the size of the standard text button, whatever size the button is drawn in.
pub open spec fn text_rect(coords: Point) -> Rect {
    Rect { x: coords.x, y: coords.y, w: TEXT_BUTTON_WIDTH, h: TEXT_BUTTON_HEIGHT }
}

/// **Computes the rectangle representing the boundaries of a text button.**
///
/// ## Parameters
/// `button`: a reference to the `TextButton`.
///
/// ## Returns
/// A result containing the rectangle representing the button's boundaries, or a `DodgerError` if the coordinates are invalid.
pub fn text_button_rect(button: &TextButton) -> (r: Result<Rect, DodgerError>)
    ensures
        valid_coordinates(button.coords) ==> r == Ok::<Rect, DodgerError>(
            text_rect(button.coords),
        ),
        !valid_coordinates(button.coords) ==> r == Err::<Rect, DodgerError>(
            DodgerError::InvalidCoordinates(
                button.coords.x,
                button.coords.y,
                WINDOW_WIDTH,
                WINDOW_HEIGHT,
            ),
        ),
{
    let button_coords = match validate_coordinates(button.coords) {
        Ok(c) => c,
        Err(e) => { return Err(e); },
    };
    Ok(Rect::new(button_coords.x, button_coords.y, TEXT_BUTTON_WIDTH, TEXT_BUTTON_HEIGHT))
}

/// The left mouse button is down while the pointer is on the rectangle.
pub open spec fn clicked(mouse: Mouse, button_rect: Rect) -> bool {
    mouse.left_pressed && button_rect.contains_spec(mouse.position)
}

/// **Checks if the button is clicked.**
///
/// ## Parameters
/// * `mouse`: the state of the mouse.
/// * `button_rect`: the rectangle representing the button's boundaries.
///
/// ## Returns
/// `True` if the button is clicked, `false` otherwise.
pub fn is_button_clicked(mouse: &Mouse, button_rect: Rect) -> (r: bool)
    ensures
        r == clicked(*mouse, button_rect),
{
    if mouse.left_pressed {
        button_rect.contains(mouse.position)
    } else {
        false
    }
}

} // verus!
