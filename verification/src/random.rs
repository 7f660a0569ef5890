use vstd::prelude::*;
use rand::Rng;
use crate::consts::{SPAWN_MARGIN, WINDOW_WIDTH};
use crate::objects::GoodObjectValue;

verus! {

/// What the spawner draws for one new object.
#[derive(Clone, Copy, PartialEq, Eq, Structural, Debug)]
pub struct SpawnRoll {
    /// The horizontal position of the object.
    pub x: i64,
    /// One of ten equally likely buckets, which decides the value of a good object.
    pub bucket: i64,
}

/// Number of buckets that a value is drawn from.
pub const VALUE_BUCKETS: i64 = 10;

/// The roll is one that the spawner can draw: the position keeps the margin
/// from both borders, the bucket is one of the ten.
pub open spec fn is_spawn_roll(roll: SpawnRoll) -> bool {
    &&& SPAWN_MARGIN <= roll.x < WINDOW_WIDTH - SPAWN_MARGIN
    &&& 0 <= roll.bucket < VALUE_BUCKETS
}

/// The value that a bucket stands for: one bucket in ten gives `High`, three
/// give `Medium`, the other six `Low`.
pub open spec fn value_of_bucket(bucket: i64) -> GoodObjectValue {
    if bucket == 0 {
        GoodObjectValue::High
    } else if bucket == 1 || bucket == 3 || bucket == 5 {
        GoodObjectValue::Medium
    } else {
        GoodObjectValue::Low
    }
}

/// Picks the value that a bucket stands for.
pub fn bucket_value(bucket: i64) -> (r: GoodObjectValue)
    ensures
        r == value_of_bucket(bucket),
{
    match bucket {
        0 => GoodObjectValue::High,
        1 | 3 | 5 => GoodObjectValue::Medium,
        _ => GoodObjectValue::Low,
    }
}

/// Calls `rand::Rng::gen_range` on the thread's generator with the half-open
/// range `low..high`. The generator panics on an empty range, so the range
/// must hold a number; what comes back lies in the range. Nothing else is
/// claimed of it: two calls may differ.
#[verifier::external_body]
fn random_in_range(low: i64, high: i64) -> (r: i64)
    requires
        low < high,
    ensures
        low <= r < high,
{
    rand::thread_rng().gen_range(low..high)
}

/// Draws the position and the value bucket of a new object.
pub fn roll_spawn() -> (roll: SpawnRoll)
    ensures
        is_spawn_roll(roll),
{
    let x = random_in_range(SPAWN_MARGIN, WINDOW_WIDTH - SPAWN_MARGIN);
    let bucket = random_in_range(0, VALUE_BUCKETS);
    SpawnRoll { x, bucket }
}

} // verus!
