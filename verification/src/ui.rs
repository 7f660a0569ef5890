use vstd::prelude::*;
use vstd::string::StringExecFns;
use crate::buttons::{Color, DrawText, IconButton, Text, TextButton, TextView};
use crate::consts::{PX, TEXT_SIZE, WINDOW_HEIGHT, WINDOW_WIDTH};
use crate::errors::DodgerError;
use crate::resources::Image;
use crate::text::{decimal, decimal_string};
use crate::utils::{clamp_coordinate, half, half_of, text_button_rect, text_rect, valid_coordinates,
    validate_coordinates, Point, Rect, RectSize, Scaling};

verus! {

/// One thing to draw.
#[derive(Clone, PartialEq, Eq, Debug)]
pub enum DrawCommand {
    /// A picture stretched over the whole window.
    Background { image: Image },
    /// A picture with its corner at `dest`, under a scaling. A picture that
    /// blinks comes with the time since it began to; a picture that pulses
    /// with its place in the pulse cycle.
    Picture {
        image: Image,
        dest: Point,
        scaling: Scaling,
        blink_elapsed: Option<u64>,
        pulse_time: Option<u64>,
    },
    /// A line of text with its corner at `dest`.
    Label { dest: Point, text: Text },
    /// A filled rectangle.
    Rectangle { rect: Rect, color: Color },
    /// A filled ellipse.
    Ellipse { center: Point, radius_x: i64, radius_y: i64, color: Color },
    /// A line of text in the middle of a rectangle.
    LabelInside { rect: Rect, text: Text },
    /// A line of text with its middle at a point.
    LabelAround { center: Point, text: Text },
}

/// One thing to draw, as contracts speak of it.
pub enum DrawCommandView {
    Background { image: Image },
    Picture {
        image: Image,
        dest: Point,
        scaling: Scaling,
        blink_elapsed: Option<u64>,
        pulse_time: Option<u64>,
    },
    Label { dest: Point, text: TextView },
    Rectangle { rect: Rect, color: Color },
    Ellipse { center: Point, radius_x: i64, radius_y: i64, color: Color },
    LabelInside { rect: Rect, text: TextView },
    LabelAround { center: Point, text: TextView },
}

impl View for DrawCommand {
    type V = DrawCommandView;

    open spec fn view(&self) -> DrawCommandView {
        match *self {
            DrawCommand::Background { image } => DrawCommandView::Background { image },
            DrawCommand::Picture { image, dest, scaling, blink_elapsed, pulse_time } =>
                DrawCommandView::Picture { image, dest, scaling, blink_elapsed, pulse_time },
            DrawCommand::Label { dest, text } => DrawCommandView::Label { dest, text: text@ },
            DrawCommand::Rectangle { rect, color } => DrawCommandView::Rectangle { rect, color },
            DrawCommand::Ellipse { center, radius_x, radius_y, color } =>
                DrawCommandView::Ellipse { center, radius_x, radius_y, color },
            DrawCommand::LabelInside { rect, text } => DrawCommandView::LabelInside {
                rect,
                text: text@,
            },
            DrawCommand::LabelAround { center, text } => DrawCommandView::LabelAround {
                center,
                text: text@,
            },
        }
    }
}

/// The surface that the game draws on: the list of what was drawn, in order.
/// The renderer paints the list from first to last.
#[derive(Clone, PartialEq, Eq, Debug)]
pub struct Canvas {
    pub commands: Vec<DrawCommand>,
}

impl View for Canvas {
    type V = Seq<DrawCommandView>;

    open spec fn view(&self) -> Seq<DrawCommandView> {
        self.commands@.map_values(|command: DrawCommand| command@)
    }
}

impl Canvas {
    /// An empty canvas.
    pub fn new() -> (r: Self)
        ensures
            r@ == Seq::<DrawCommandView>::empty(),
    {
        let r = Canvas { commands: Vec::new() };
        assert(r@ =~= Seq::<DrawCommandView>::empty());
        r
    }

    /// Draws one more thing.
    pub fn draw(&mut self, command: DrawCommand)
        ensures
            final(self)@ == old(self)@.push(command@),
    {
        self.commands.push(command);
        assert(self@ =~= old(self)@.push(command@));
    }
}

/// Where the corner of a box of the given size lies when the box is
/// centred in the rectangle.
pub open spec fn centered_in(rect: Rect, size: RectSize) -> Point {
    Point {
        x: clamp_coordinate(rect.x + half(rect.w - size.w)),
        y: clamp_coordinate(rect.y + half(rect.h - size.h)),
    }
}

/// Where the corner of a box of the given size lies when the box is
/// centred on the point.
pub open spec fn centered_at(center: Point, size: RectSize) -> Point {
    Point {
        x: clamp_coordinate(center.x - half(size.w as int)),
        y: clamp_coordinate(center.y - half(size.h as int)),
    }
}

/// Clamps a wide number to a coordinate.
fn to_coordinate(value: i128) -> (r: i64)
    ensures
        r == clamp_coordinate(value as int),
{
    if value > i64::MAX as i128 {
        i64::MAX
    } else if value < i64::MIN as i128 {
        i64::MIN
    } else {
        value as i64
    }
}

/// Halves the difference of two lengths, rounding towards zero.
fn half_wide(value: i128) -> (r: i128)
    requires
        -0x1_0000_0000_0000_0000 <= value <= 0x1_0000_0000_0000_0000,
    ensures
        r == half(value as int),
{
    if value >= 0 {
        value / 2
    } else {
        -((-value) / 2)
    }
}

/// Computes where to put a text of the given size so that it stands in the
/// middle of the rectangle.
pub fn text_origin_inside(rect: Rect, size: RectSize) -> (r: Point)
    ensures
        r == centered_in(rect, size),
{
    let dx: i128 = half_wide(rect.w as i128 - size.w as i128);
    let dy: i128 = half_wide(rect.h as i128 - size.h as i128);
    Point { x: to_coordinate(rect.x as i128 + dx), y: to_coordinate(rect.y as i128 + dy) }
}

/// Computes where to put a text of the given size so that its middle lies
/// on the point.
pub fn text_origin_around(center: Point, size: RectSize) -> (r: Point)
    ensures
        r == centered_at(center, size),
{
    Point {
        x: to_coordinate(center.x as i128 - half_of(size.w) as i128),
        y: to_coordinate(center.y as i128 - half_of(size.h) as i128),
    }
}

/// **Draws a background image on the canvas, scaling it to fit the window dimensions.**
///
/// ## Parameters
/// * `canvas`: canvas to draw background on.
/// * `image`: image to use as a background.
pub fn draw_background(canvas: &mut Canvas, image: &Image)
    ensures
        final(canvas)@ == old(canvas)@.push(DrawCommandView::Background { image: *image }),
{
    canvas.draw(DrawCommand::Background { image: *image })
}

/// **Draws text on the canvas at the specified coordinates.**
///
/// ## Returns
/// `Ok(())` if the text is drawn successfully, or a `DodgerError` if the coordinates are invalid.
pub fn draw_text(canvas: &mut Canvas, text: DrawText) -> (r: Result<(), DodgerError>)
    ensures
        valid_coordinates(text.coords) ==> r is Ok && final(canvas)@ == old(canvas)@.push(
            DrawCommandView::Label { dest: text.coords, text: text.text@ },
        ),
        !valid_coordinates(text.coords) ==> final(canvas)@ == old(canvas)@ && r == Err::<
            (),
            DodgerError,
        >(
            DodgerError::InvalidCoordinates(
                text.coords.x,
                text.coords.y,
                WINDOW_WIDTH,
                WINDOW_HEIGHT,
            ),
        ),
{
    let validated_coords = validate_coordinates(text.coords)?;
    canvas.draw(DrawCommand::Label { dest: validated_coords, text: text.text });
    Ok(())
}

/// The text of the timer: minutes, which are always zero, and the seconds in two digits.
pub open spec fn timer_line(remaining_time: u64) -> Seq<char> {
    if remaining_time < 10 {
        "00:0"@ + decimal(remaining_time as nat)
    } else {
        "00:"@ + decimal(remaining_time as nat)
    }
}

/// Where the timer is drawn.
pub open spec fn timer_point() -> Point {
    Point { x: (360 * PX) as i64, y: (30 * PX) as i64 }
}

/// What the timer is made of: a yellow ellipse and the time in its middle.
pub open spec fn timer_scene(remaining_time: u64) -> Seq<DrawCommandView> {
    seq![
        DrawCommandView::Ellipse {
            center: timer_point(),
            radius_x: (50 * PX) as i64,
            radius_y: (25 * PX) as i64,
            color: Color::Yellow,
        },
        DrawCommandView::LabelAround {
            center: timer_point(),
            text: TextView {
                line: timer_line(remaining_time),
                font: "text_font"@,
                scale: TEXT_SIZE,
                color: Color::Black,
            },
        },
    ]
}

/// **Draws a timer on the canvas, formatted as "00:SS".**
///
/// ## Parameters
/// * `canvas`: canvas to draw the timer on.
/// * `remaining_time`: the remaining time in seconds.
///
/// ## Behavior
/// The timer is displayed as an ellipse with the remaining time centered inside it.
pub fn draw_timer(canvas: &mut Canvas, remaining_time: u64) -> (r: Result<(), DodgerError>)
    ensures
        r is Ok,
        final(canvas)@ == old(canvas)@ + timer_scene(remaining_time),
{
    let mut time = if remaining_time < 10 {
        String::from_str("00:0")
    } else {
        String::from_str("00:")
    };
    let digits = decimal_string(remaining_time as u128);
    time.append(digits.as_str());

    let timer_button = TextButton::new(
        Point { x: 360 * PX, y: 30 * PX },
        Color::Yellow,
        RectSize { w: 100 * PX, h: 50 * PX },
        time,
        Color::Black,
        TEXT_SIZE,
        String::from_str("text_font"),
    )?;

    draw_ellipse_with_text(canvas, &timer_button);
    assert(canvas@ =~= old(canvas)@ + timer_scene(remaining_time));
    Ok(())
}

/// **Draws score on the canvas at the specified coordinates.**
///
/// ## Returns
/// `Ok(())` if the score is drawn successfully, or a `DodgerError` if the coordinates are invalid.
pub fn draw_score(canvas: &mut Canvas, score: DrawText) -> (r: Result<(), DodgerError>)
    ensures
        valid_coordinates(score.coords) ==> r is Ok && final(canvas)@ == old(canvas)@.push(
            DrawCommandView::Label { dest: score.coords, text: score.text@ },
        ),
        !valid_coordinates(score.coords) ==> final(canvas)@ == old(canvas)@ && r == Err::<
            (),
            DodgerError,
        >(
            DodgerError::InvalidCoordinates(
                score.coords.x,
                score.coords.y,
                WINDOW_WIDTH,
                WINDOW_HEIGHT,
            ),
        ),
{
    let coords = validate_coordinates(score.coords)?;
    canvas.draw(DrawCommand::Label { dest: coords, text: score.text });
    Ok(())
}

/// The picture of an icon button.
pub open spec fn icon_picture(icon_button: IconButton) -> DrawCommandView {
    DrawCommandView::Picture {
        image: icon_button.icon,
        dest: icon_button.coords,
        scaling: icon_button.scaling,
        blink_elapsed: None,
        pulse_time: None,
    }
}

/// **Draws an icon on the canvas at the specified coordinates.**
///
/// ## Returns
/// `Ok(())` if the icon is drawn successfully, or a `DodgerError` if the coordinates are invalid.
pub fn draw_icon(canvas: &mut Canvas, icon_button: &IconButton) -> (r: Result<(), DodgerError>)
    ensures
        valid_coordinates(icon_button.coords) ==> r is Ok && final(canvas)@ == old(canvas)@.push(
            icon_picture(*icon_button),
        ),
        !valid_coordinates(icon_button.coords) ==> final(canvas)@ == old(canvas)@ && r == Err::<
            (),
            DodgerError,
        >(
            DodgerError::InvalidCoordinates(
                icon_button.coords.x,
                icon_button.coords.y,
                WINDOW_WIDTH,
                WINDOW_HEIGHT,
            ),
        ),
{
    let coords = validate_coordinates(icon_button.coords)?;
    canvas.draw(
        DrawCommand::Picture {
            image: icon_button.icon,
            dest: coords,
            scaling: icon_button.scaling,
            blink_elapsed: None,
            pulse_time: None,
        },
    );
    Ok(())
}

/// What a text button is made of: a rectangle of the standard size in the
/// button's colour, and the button's text in its middle.
pub open spec fn button_scene(coords: Point, color: Color, text: TextView) -> Seq<
    DrawCommandView,
> {
    seq![
        DrawCommandView::Rectangle { rect: text_rect(coords), color },
        DrawCommandView::LabelInside { rect: text_rect(coords), text },
    ]
}

/// **Draws a button with text centered inside it.**
///
/// ## Returns
/// `Ok(())` if the button and text are drawn successfully, or a `DodgerError` if
/// the button's coordinates are invalid.
///
/// ## Behavior
/// The button is drawn as a rectangle, and the text is centered inside it.
pub fn draw_button_with_text(canvas: &mut Canvas, text_button: &TextButton) -> (r: Result<
    (),
    DodgerError,
>)
    ensures
        valid_coordinates(text_button.coords) ==> r is Ok && final(canvas)@ == old(canvas)@
            + button_scene(text_button.coords, text_button.button_color, text_button.text@),
        !valid_coordinates(text_button.coords) ==> final(canvas)@ == old(canvas)@ && r == Err::<
            (),
            DodgerError,
        >(
            DodgerError::InvalidCoordinates(
                text_button.coords.x,
                text_button.coords.y,
                WINDOW_WIDTH,
                WINDOW_HEIGHT,
            ),
        ),
{
    let button_rect = text_button_rect(text_button)?;

    canvas.draw(DrawCommand::Rectangle { rect: button_rect, color: text_button.button_color });
    canvas.draw(
        DrawCommand::LabelInside { rect: button_rect, text: copy_text(&text_button.text) },
    );
    assert(canvas@ =~= old(canvas)@ + button_scene(
        text_button.coords,
        text_button.button_color,
        text_button.text@,
    ));
    Ok(())
}

/// What an ellipse with text is made of: an ellipse around the button's
/// point, as wide and as high as the button, and the text around that point.
pub open spec fn ellipse_scene(coords: Point, size: RectSize, color: Color, text: TextView) -> Seq<
    DrawCommandView,
> {
    seq![
        DrawCommandView::Ellipse {
            center: coords,
            radius_x: half(size.w as int) as i64,
            radius_y: half(size.h as int) as i64,
            color,
        },
        DrawCommandView::LabelAround { center: coords, text },
    ]
}

/// **Draws an ellipse with text centered inside it.**
///
/// ## Behavior
/// The ellipse is drawn, and the text is centered inside it.
pub fn draw_ellipse_with_text(canvas: &mut Canvas, button: &TextButton)
    ensures
        final(canvas)@ == old(canvas)@ + ellipse_scene(
            button.coords,
            button.button_size,
            button.button_color,
            button.text@,
        ),
{
    canvas.draw(
        DrawCommand::Ellipse {
            center: button.coords,
            radius_x: half_of(button.button_size.w),
            radius_y: half_of(button.button_size.h),
            color: button.button_color,
        },
    );
    canvas.draw(DrawCommand::LabelAround { center: button.coords, text: copy_text(&button.text) });
    assert(canvas@ =~= old(canvas)@ + ellipse_scene(
        button.coords,
        button.button_size,
        button.button_color,
        button.text@,
    ));
}

/// Copies a text.
pub fn copy_text(text: &Text) -> (r: Text)
    ensures
        r@ == text@,
{
    Text {
        line: text.line.clone(),
        font: text.font.clone(),
        scale: text.scale,
        color: text.color,
    }
}

} // verus!
