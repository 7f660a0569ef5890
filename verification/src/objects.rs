use vstd::prelude::*;
use crate::consts::{PLAIN_SCORE, PULSE_PERIOD};
use crate::errors::DodgerError;
use crate::resources::{Image, Resources};
use crate::ui::{Canvas, DrawCommand, DrawCommandView};
use crate::utils::{clamp_coordinate, offset_coordinate, scale_length, scaled_length,
    valid_coordinates, validate_coordinates, Point, Rect, RectSize, Scaling};

verus! {

/// Value of a good falling object.
#[derive(Clone, Copy, PartialEq, Eq, Structural, Debug)]
pub enum GoodObjectValue {
    High,
    Medium,
    Low,
}

impl GoodObjectValue {
    /// The points that catching an object of this value earns.
    pub open spec fn points(self) -> int {
        match self {
            GoodObjectValue::High => 30,
            GoodObjectValue::Medium => 15,
            GoodObjectValue::Low => 5,
        }
    }

    /// **Returns the score associated with the type of good object.**
    ///
    /// ## Returns
    /// * `30`: for `High` value objects.
    /// * `15`: for `Medium` value objects.
    /// * `5`: for `Low` value objects.
    pub fn score(&self) -> (r: i32)
        ensures
            r == self.points(),
    {
        match self {
            GoodObjectValue::High => 30,
            GoodObjectValue::Medium => 15,
            GoodObjectValue::Low => 5,
        }
    }
}

/// One object on its way down the playing field.
#[derive(Clone, Copy, PartialEq, Eq, Debug)]
pub struct FallingObject {
    pub coords: Point,
    pub size: RectSize,
    pub scaling: Scaling,
    pub image: Image,
    pub is_good: bool,
    pub good_object_value: Option<GoodObjectValue>,
    /// When the player hit the object; from then on it stands still.
    pub remove_timer: Option<u64>,
    /// When the object started to blink.
    pub blink_timer: Option<u64>,
    /// Opacity in thousandths, kept by the renderer while the object blinks.
    pub alpha: u16,
    /// Position in the pulse cycle of a high-value object, in millionths.
    pub pulse_time: u64,
}

impl FallingObject {
    /// The picture that shows an object of the given kind and value.
    pub open spec fn image_for(
        is_good: bool,
        good_object_value: Option<GoodObjectValue>,
        resources: Resources,
    ) -> Image {
        if is_good {
            match good_object_value {
                Some(GoodObjectValue::High) => resources.good_object_high_image,
                Some(GoodObjectValue::Medium) => resources.good_object_medium_image,
                Some(GoodObjectValue::Low) => resources.good_object_low_image,
                None => resources.good_object_low_image,
            }
        } else {
            resources.bad_object_image
        }
    }

    /// The object that `new` makes of its arguments.
    pub open spec fn created(
        coords: Point,
        scaling: Scaling,
        is_good: bool,
        good_object_value: Option<GoodObjectValue>,
        resources: Resources,
    ) -> FallingObject {
        let image = Self::image_for(is_good, good_object_value, resources);
        FallingObject {
            coords,
            size: RectSize {
                w: scaled_length(image.width, scaling.x) as i64,
                h: scaled_length(image.height, scaling.y) as i64,
            },
            scaling,
            image,
            is_good,
            good_object_value,
            remove_timer: None,
            blink_timer: None,
            alpha: 0,
            pulse_time: 0,
        }
    }

    /// **Creates a new falling object with given properties.**
    ///
    /// ## Parameters
    /// * `coords`: initial position of the object on the screen.
    /// * `scaling`: scaling factor for the size of the object.
    /// * `is_good`: a boolean indicating whether the object is good (`true`) or bad (`false`).
    /// * `good_object_value`: the score value if the object is good.
    /// * `resources`: a reference to resources.
    ///
    /// ## Returns
    /// A result with the newly created `FallingObject`, or a `DodgerError` if coordinates validation fails.
    pub fn new(
        coords: Point,
        scaling: Scaling,
        is_good: bool,
        good_object_value: Option<GoodObjectValue>,
        resources: &Resources,
    ) -> (r: Result<Self, DodgerError>)
        ensures
            valid_coordinates(coords) ==> r == Ok::<FallingObject, DodgerError>(
                Self::created(coords, scaling, is_good, good_object_value, *resources),
            ),
            !valid_coordinates(coords) ==> r == Err::<FallingObject, DodgerError>(
                DodgerError::InvalidCoordinates(
                    coords.x,
                    coords.y,
                    crate::consts::WINDOW_WIDTH,
                    crate::consts::WINDOW_HEIGHT,
                ),
            ),
    {
        let validated_coords = match validate_coordinates(coords) {
            Ok(c) => c,
            Err(e) => { return Err(e); },
        };

        let image = if is_good {
            match good_object_value {
                Some(GoodObjectValue::High) => resources.good_object_high_image,
                Some(GoodObjectValue::Medium) => resources.good_object_medium_image,
                Some(GoodObjectValue::Low) => resources.good_object_low_image,
                None => resources.good_object_low_image,
            }
        } else {
            resources.bad_object_image
        };

        let w = scale_length(image.width, scaling.x);
        let h = scale_length(image.height, scaling.y);
        let size = RectSize { w, h };

        Ok(
            FallingObject {
                coords: validated_coords,
                size,
                scaling,
                image,
                good_object_value,
                is_good,
                remove_timer: None,
                blink_timer: None,
                alpha: 0,
                pulse_time: 0,
            },
        )
    }

    /// The object is still falling: the player has not hit it yet.
    pub open spec fn is_active(self) -> bool {
        self.remove_timer is None
    }

    /// The points that catching the object earns.
    pub open spec fn catch_points(self) -> int {
        match self.good_object_value {
            Some(value) => value.points(),
            None => PLAIN_SCORE as int,
        }
    }

    /// The pulse time of a high-value object one update later: it grows by
    /// `delta_time` and loses one period once it is beyond one.
    pub open spec fn next_pulse_time(pulse_time: u64, delta_time: u64) -> int {
        let grown = if pulse_time + delta_time > u64::MAX {
            u64::MAX as int
        } else {
            pulse_time + delta_time
        };
        if grown > PULSE_PERIOD {
            grown - PULSE_PERIOD
        } else {
            grown
        }
    }

    /// The object one update later: it has fallen by the level's speed (and
    /// stays at the largest coordinate once it is there); a high-value object
    /// has moved on in its pulse cycle.
    pub open spec fn updated(self, resources: Resources, delta_time: u64) -> FallingObject {
        FallingObject {
            coords: Point {
                x: self.coords.x,
                y: clamp_coordinate(self.coords.y + resources.level.fall_speed),
            },
            pulse_time: if self.good_object_value == Some(GoodObjectValue::High) {
                Self::next_pulse_time(self.pulse_time, delta_time) as u64
            } else {
                self.pulse_time
            },
            ..self
        }
    }

    /// **Updates position and handles behavior of a falling object.**
    ///
    /// ## Parameters
    /// * `resources`: a reference to resources.
    /// * `delta_time`: what the update adds to the pulse time.
    ///
    /// ## Behavior
    /// * Updates position of the falling object based on the fall speed.
    /// * Handles special behavior for high-value good objects (pulsing effects).
    pub fn update(&mut self, resources: &Resources, delta_time: u64)
        ensures
            *final(self) == old(self).updated(*resources, delta_time),
    {
        let speed = resources.level.fall_speed;
        self.coords.y = offset_coordinate(self.coords.y, speed);

        if let Some(GoodObjectValue::High) = self.good_object_value {
            self.pulse_time = self.pulse_time.saturating_add(delta_time);
            if self.pulse_time > PULSE_PERIOD {
                self.pulse_time -= PULSE_PERIOD;
            }
        }
    }

    /// The time since a blinking began, at the time `now`.
    pub open spec fn blink_elapsed(blink_timer: Option<u64>, now: u64) -> Option<u64> {
        match blink_timer {
            Some(timer) => Some(
                if now >= timer {
                    (now - timer) as u64
                } else {
                    0
                },
            ),
            None => None,
        }
    }

    /// The picture of the object at the time `now`: a struck bad object
    /// blinks, a high-value object pulses.
    pub open spec fn picture(self, now: u64) -> DrawCommandView {
        DrawCommandView::Picture {
            image: self.image,
            dest: self.coords,
            scaling: self.scaling,
            blink_elapsed: Self::blink_elapsed(self.blink_timer, now),
            pulse_time: if self.is_good && self.good_object_value == Some(
                GoodObjectValue::High,
            ) {
                Some(self.pulse_time)
            } else {
                None
            },
        }
    }

    /// **Draws a falling object.**
    ///
    /// ## Parameters
    /// * `canvas`: canvas to draw the object on.
    /// * `now`: the time on the game's clock.
    ///
    /// ## Behavior
    /// Hands the renderer what it needs to adjust the transparency and scaling
    /// of the object (blinking, pulsing).
    pub fn draw(&self, canvas: &mut Canvas, now: u64)
        ensures
            final(canvas)@ == old(canvas)@.push(self.picture(now)),
    {
        let blink_elapsed = match self.blink_timer {
            Some(timer) => Some(
                if now >= timer {
                    now - timer
                } else {
                    0
                },
            ),
            None => None,
        };
        let mut pulse_time: Option<u64> = None;
        if self.is_good {
            if let Some(GoodObjectValue::High) = self.good_object_value {
                pulse_time = Some(self.pulse_time);
            }
        }
        canvas.draw(
            DrawCommand::Picture {
                image: self.image,
                dest: self.coords,
                scaling: self.scaling,
                blink_elapsed,
                pulse_time,
            },
        )
    }

    /// The rectangle that the object covers.
    pub open spec fn rect_spec(self) -> Rect {
        Rect { x: self.coords.x, y: self.coords.y, w: self.size.w, h: self.size.h }
    }

    /// **Calculates the rectangular area occupied by the falling object.**
    ///
    /// ## Returns
    /// A `Rect` representing boundaries of the object based on its position and size on the screen.
    pub fn rect(&self) -> (r: Rect)
        ensures
            r == self.rect_spec(),
    {
        Rect::new(self.coords.x, self.coords.y, self.size.w, self.size.h)
    }
}

} // verus!
