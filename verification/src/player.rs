use vstd::prelude::*;
use crate::consts::{PLAYER_STEP, WINDOW_WIDTH};
use crate::errors::DodgerError;
use crate::objects::FallingObject;
use crate::resources::Image;
use crate::ui::{Canvas, DrawCommand, DrawCommandView};
use crate::utils::{clamp_coordinate, scale_length, scaled_length, valid_coordinates,
    validate_coordinates, Point, Rect, RectSize, Scaling};

verus! {

/// The paddle that the player moves along the bottom of the playing field.
#[derive(Clone, Copy, PartialEq, Eq, Debug)]
pub struct Player {
    pub coords: Point,
    pub size: RectSize,
    pub scaling: Scaling,
    pub image: Image,
    /// When a bad object last hit the player; the player blinks from then on.
    pub blink_timer: Option<u64>,
    /// Opacity in thousandths, kept by the renderer while the player blinks.
    pub alpha: u16,
}

impl Player {
    /// The player that `new` makes of its arguments. The player's box is a
    /// square: both sides are the picture's width under the horizontal scaling.
    pub open spec fn created(coords: Point, scaling: Scaling, image: Image) -> Player {
        Player {
            coords,
            size: RectSize {
                w: scaled_length(image.width, scaling.x) as i64,
                h: scaled_length(image.width, scaling.x) as i64,
            },
            scaling,
            image,
            blink_timer: None,
            alpha: 0,
        }
    }

    /// **Constructs and initializes a new `Player`.**
    ///
    /// ## Parameters
    /// * `coords`: initial coordinates of the player.
    /// * `scaling`: scaling factor to apply to the player's image.
    /// * `image`: the `Image` representing the player.
    ///
    /// ## Returns
    /// A result containing the new `Player`, or a `DodgerError` if coordinates validation fails.
    pub fn new(coords: Point, scaling: Scaling, image: &Image) -> (r: Result<Self, DodgerError>)
        ensures
            valid_coordinates(coords) ==> r == Ok::<Player, DodgerError>(
                Self::created(coords, scaling, *image),
            ),
            !valid_coordinates(coords) ==> r == Err::<Player, DodgerError>(
                DodgerError::InvalidCoordinates(
                    coords.x,
                    coords.y,
                    WINDOW_WIDTH,
                    crate::consts::WINDOW_HEIGHT,
                ),
            ),
    {
        let validated_coords = match validate_coordinates(coords) {
            Ok(c) => c,
            Err(e) => { return Err(e); },
        };
        let w = scale_length(image.width, scaling.x);
        let h = scale_length(image.width, scaling.x);
        let size = RectSize { w, h };

        Ok(
            Player {
                coords: validated_coords,
                size,
                scaling,
                image: *image,
                blink_timer: None,
                alpha: 0,
            },
        )
    }

    /// Where a step to the left takes the player: one `PLAYER_STEP` further left.
    pub open spec fn x_after_move_left(self) -> i64 {
        clamp_coordinate(self.coords.x - PLAYER_STEP)
    }

    /// Where a step to the right takes the player: one `PLAYER_STEP` further
    /// right, or by the room that the playing field leaves beside a player of
    /// this width, if that is less.
    pub open spec fn x_after_move_right(self) -> i64 {
        let room = WINDOW_WIDTH - self.size.w;
        clamp_coordinate(self.coords.x + if room < PLAYER_STEP { room } else { PLAYER_STEP as int })
    }

    /// **Moves the player to the left by a fixed amount.**
    ///
    /// ## Behavior
    /// Decreases the x-coordinate of the player by one step. The caller decides
    /// whether there is room for the step.
    pub fn move_left(&mut self)
        ensures
            *final(self) == (Player {
                coords: Point { x: old(self).x_after_move_left(), y: old(self).coords.y },
                ..*old(self)
            }),
    {
        let target: i128 = self.coords.x as i128 - PLAYER_STEP as i128;
        self.coords.x = if target < i64::MIN as i128 {
            i64::MIN
        } else {
            target as i64
        };
    }

    /// **Moves the player to the right by a fixed amount.**
    ///
    /// ## Behavior
    /// Increases the x-coordinate of the player by one step, or by the room
    /// beside the player if that is less. The caller decides whether there is
    /// room for the step.
    pub fn move_right(&mut self)
        ensures
            *final(self) == (Player {
                coords: Point { x: old(self).x_after_move_right(), y: old(self).coords.y },
                ..*old(self)
            }),
    {
        let room: i128 = WINDOW_WIDTH as i128 - self.size.w as i128;
        let step: i128 = if room < PLAYER_STEP as i128 {
            room
        } else {
            PLAYER_STEP as i128
        };
        let target: i128 = self.coords.x as i128 + step;
        self.coords.x = if target > i64::MAX as i128 {
            i64::MAX
        } else if target < i64::MIN as i128 {
            i64::MIN
        } else {
            target as i64
        };
    }

    /// The picture of the player at the time `now`: a player that was hit blinks.
    pub open spec fn picture(self, now: u64) -> DrawCommandView {
        DrawCommandView::Picture {
            image: self.image,
            dest: self.coords,
            scaling: self.scaling,
            blink_elapsed: FallingObject::blink_elapsed(self.blink_timer, now),
            pulse_time: None,
        }
    }

    /// **Draws the player.**
    ///
    /// ## Parameters
    /// * `canvas`: canvas to draw the player on.
    /// * `now`: the time on the game's clock.
    ///
    /// ## Behavior
    /// * Draws the player at the current position (`coords`) with a scaling factor (`scaling`).
    /// * Hands the renderer the time since the player began to blink, if the player does.
    pub fn draw(&self, canvas: &mut Canvas, now: u64)
        ensures
            final(canvas)@ == old(canvas)@.push(self.picture(now)),
    {
        let blink_elapsed = match self.blink_timer {
            Some(timer) => Some(
                if now >= timer {
                    now - timer
                } else {
                    0
                },
            ),
            None => None,
        };
        canvas.draw(
            DrawCommand::Picture {
                image: self.image,
                dest: self.coords,
                scaling: self.scaling,
                blink_elapsed,
                pulse_time: None,
            },
        )
    }

    /// The rectangle that the player covers.
    pub open spec fn rect_spec(self) -> Rect {
        Rect { x: self.coords.x, y: self.coords.y, w: self.size.w, h: self.size.h }
    }

    /// **Calculates the rectangular area occupied by the player.**
    ///
    /// ## Returns
    /// A `Rect` representing the boundaries of the player based on its position and size on the screen.
    pub fn rect(&self) -> (r: Rect)
        ensures
            r == self.rect_spec(),
    {
        Rect::new(self.coords.x, self.coords.y, self.size.w, self.size.h)
    }
}

} // verus!
