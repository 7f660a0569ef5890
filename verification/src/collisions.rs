use vstd::prelude::*;
use crate::consts::LINGER_MILLIS;
use crate::objects::{FallingObject, GoodObjectValue};
use crate::sound::Sound;
use crate::utils::Rect;

verus! {

/// The player strikes an object that is still falling and whose rectangle
/// overlaps the player's.
pub open spec fn is_struck(object: FallingObject, player_rect: Rect) -> bool {
    object.is_active() && player_rect.overlaps_spec(object.rect_spec())
}

/// An object after the player struck it at time `now`: it is marked for
/// removal, and a bad object starts to blink.
pub open spec fn after_strike(object: FallingObject, now: u64) -> FallingObject {
    if object.is_good {
        FallingObject { remove_timer: Some(now), ..object }
    } else {
        FallingObject { remove_timer: Some(now), blink_timer: Some(now), ..object }
    }
}

/// An object after one round of collisions with the player.
pub open spec fn after_round(object: FallingObject, player_rect: Rect, now: u64) -> FallingObject {
    if is_struck(object, player_rect) {
        after_strike(object, now)
    } else {
        object
    }
}

/// The points that the object earns in this round.
pub open spec fn strike_points(object: FallingObject, player_rect: Rect) -> int {
    if is_struck(object, player_rect) && object.is_good {
        object.catch_points()
    } else {
        0
    }
}

/// The lives that the object costs in this round.
pub open spec fn strike_lives(object: FallingObject, player_rect: Rect) -> nat {
    if is_struck(object, player_rect) && !object.is_good {
        1
    } else {
        0
    }
}

/// The sound that goes with striking the object.
pub open spec fn strike_sound(object: FallingObject) -> Sound {
    if !object.is_good {
        Sound::BadCollision
    } else if object.good_object_value == Some(GoodObjectValue::High) {
        Sound::GoodCollisionHigh
    } else {
        Sound::GoodCollision
    }
}

/// The objects after one round of collisions.
pub open spec fn marked(objects: Seq<FallingObject>, player_rect: Rect, now: u64) -> Seq<
    FallingObject,
> {
    objects.map_values(|object: FallingObject| after_round(object, player_rect, now))
}

/// The points that one round of collisions earns: the sum over the struck good objects.
pub open spec fn score_gain(objects: Seq<FallingObject>, player_rect: Rect) -> int
    decreases objects.len(),
{
    if objects.len() == 0 {
        0
    } else {
        score_gain(objects.drop_last(), player_rect) + strike_points(objects.last(), player_rect)
    }
}

/// The lives that one round of collisions costs: the number of struck bad objects.
pub open spec fn bad_strikes(objects: Seq<FallingObject>, player_rect: Rect) -> nat
    decreases objects.len(),
{
    if objects.len() == 0 {
        0
    } else {
        bad_strikes(objects.drop_last(), player_rect) + strike_lives(objects.last(), player_rect)
    }
}

/// The sounds that one round of collisions asks for: one for each struck
/// object, in the order of the objects.
pub open spec fn strike_sounds(objects: Seq<FallingObject>, player_rect: Rect) -> Seq<Sound>
    decreases objects.len(),
{
    if objects.len() == 0 {
        Seq::empty()
    } else if is_struck(objects.last(), player_rect) {
        strike_sounds(objects.drop_last(), player_rect).push(strike_sound(objects.last()))
    } else {
        strike_sounds(objects.drop_last(), player_rect)
    }
}

/// The object has been struck and its time on the field is over: a good
/// object leaves at once, a bad one after it has lingered.
pub open spec fn is_expired(object: FallingObject, now: u64) -> bool {
    match object.remove_timer {
        Some(timer) => object.is_good || now - timer >= LINGER_MILLIS,
        None => false,
    }
}

/// The objects that stay on the field at time `now`, in their order.
pub open spec fn purged(objects: Seq<FallingObject>, now: u64) -> Seq<FallingObject> {
    objects.filter(|object: FallingObject| !is_expired(object, now))
}

/// The most points that one object can earn.
pub open spec fn max_object_points() -> int {
    30
}

/// The number of objects that are still falling.
pub open spec fn active_count(objects: Seq<FallingObject>) -> nat
    decreases objects.len(),
{
    if objects.len() == 0 {
        0
    } else {
        active_count(objects.drop_last()) + if objects.last().is_active() {
            1nat
        } else {
            0nat
        }
    }
}

/// One more object on the field is one more falling object, if it falls.
pub proof fn lemma_active_count_push(objects: Seq<FallingObject>, object: FallingObject)
    ensures
        active_count(objects.push(object)) == active_count(objects) + if object.is_active() {
            1nat
        } else {
            0nat
        },
{
    assert(objects.push(object).drop_last() =~= objects);
}

/// A change that strikes no object and revives none leaves the number of
/// falling objects as it is.
pub proof fn lemma_active_count_map(
    objects: Seq<FallingObject>,
    change: spec_fn(FallingObject) -> FallingObject,
)
    requires
        forall|object: FallingObject| #[trigger] change(object).is_active() == object.is_active(),
    ensures
        active_count(objects.map_values(change)) == active_count(objects),
    decreases objects.len(),
{
    if objects.len() > 0 {
        assert(objects.map_values(change).drop_last() =~= objects.drop_last().map_values(change));
        lemma_active_count_map(objects.drop_last(), change);
    }
}

/// No object is worth more than `max_object_points`.
pub proof fn lemma_strike_points_bounded(object: FallingObject, player_rect: Rect)
    ensures
        0 <= strike_points(object, player_rect) <= max_object_points(),
        strike_points(object, player_rect) > 0 ==> is_struck(object, player_rect),
        is_struck(object, player_rect) && object.is_good ==> strike_points(object, player_rect) > 0,
{
}

/// Every point of a round is paid for by an object that stops falling: the
/// points earned, and the most that the objects still falling after the
/// round could earn, come to no more than the most that the objects falling
/// before it could earn.
pub proof fn lemma_round_is_paid_for(objects: Seq<FallingObject>, player_rect: Rect, now: u64)
    ensures
        0 <= score_gain(objects, player_rect),
        score_gain(objects, player_rect) + max_object_points() * active_count(
            purged(marked(objects, player_rect, now), now),
        ) <= max_object_points() * active_count(objects),
    decreases objects.len(),
{
    let keep = |object: FallingObject| !is_expired(object, now);
    if objects.len() == 0 {
        assert(marked(objects, player_rect, now) =~= Seq::<FallingObject>::empty());
        broadcast use vstd::seq_lib::group_filter_ensures;

        assert(purged(marked(objects, player_rect, now), now) =~= Seq::<FallingObject>::empty());
    } else {
        let init = objects.drop_last();
        let last = objects.last();
        lemma_round_is_paid_for(init, player_rect, now);
        lemma_strike_points_bounded(last, player_rect);
        assert(marked(objects, player_rect, now) =~= marked(init, player_rect, now).push(
            after_round(last, player_rect, now),
        ));
        marked(init, player_rect, now).lemma_filter_push(after_round(last, player_rect, now), keep);
        lemma_active_count_push(
            purged(marked(init, player_rect, now), now),
            after_round(last, player_rect, now),
        );
    }
}

/// A round of collisions earns no less than its first `n` objects do, and
/// never a negative number of points.
pub proof fn lemma_score_gain_grows(objects: Seq<FallingObject>, player_rect: Rect, n: int)
    requires
        0 <= n <= objects.len(),
    ensures
        0 <= score_gain(objects.take(n), player_rect) <= score_gain(objects, player_rect),
    decreases objects.len(),
{
    if objects.len() == 0 {
        assert(objects.take(n) =~= objects);
    } else if n == objects.len() {
        assert(objects.take(n) =~= objects);
        lemma_score_gain_grows(objects.drop_last(), player_rect, n - 1);
    } else {
        assert(objects.drop_last().take(n) =~= objects.take(n));
        lemma_score_gain_grows(objects.drop_last(), player_rect, n);
    }
}

/// What one round of collisions changes besides the objects.
#[derive(Clone, PartialEq, Eq, Debug)]
pub struct CollisionOutcome {
    /// Points earned.
    pub score_delta: i32,
    /// Lives lost.
    pub lives_lost: usize,
    /// The sounds to play, in the order of the collisions.
    pub sounds: Vec<Sound>,
}

/// **Resolves the collisions between the player and the falling objects.**
///
/// Every object that is still falling and overlaps the player is struck: it
/// is marked for removal at `now`, a good one earns its points, a bad one
/// costs a life and starts to blink, and each asks for its sound. Objects
/// that were struck before are passed over.
pub fn resolve(player_rect: Rect, objects: &mut Vec<FallingObject>, now: u64) -> (outcome:
    CollisionOutcome)
    requires
        score_gain(old(objects)@, player_rect) <= i32::MAX,
    ensures
        final(objects)@ == marked(old(objects)@, player_rect, now),
        outcome.score_delta == score_gain(old(objects)@, player_rect),
        outcome.lives_lost == bad_strikes(old(objects)@, player_rect),
        outcome.sounds@ == strike_sounds(old(objects)@, player_rect),
{
    let ghost before = objects@;
    let n = objects.len();
    let mut score_delta: i32 = 0;
    let mut lives_lost: usize = 0;
    let mut sounds: Vec<Sound> = Vec::new();
    let mut i: usize = 0;
    proof {
        assert(before.take(0) =~= Seq::<FallingObject>::empty());
    }
    while i < n
        invariant
            i <= n,
            n == before.len(),
            objects@.len() == n,
            forall|j: int| 0 <= j < i ==> objects@[j] == after_round(before[j], player_rect, now),
            forall|j: int| i <= j < n ==> objects@[j] == before[j],
            score_delta == score_gain(before.take(i as int), player_rect),
            lives_lost == bad_strikes(before.take(i as int), player_rect),
            lives_lost <= i,
            sounds@ == strike_sounds(before.take(i as int), player_rect),
            score_gain(before, player_rect) <= i32::MAX,
        decreases n - i,
    {
        let mut object = objects[i];
        proof {
            assert(before.take(i + 1).drop_last() =~= before.take(i as int));
            assert(before.take(i + 1).last() == before[i as int]);
            lemma_score_gain_grows(before, player_rect, i + 1);
        }
        if object.remove_timer.is_none() && player_rect.overlaps(&object.rect()) {
            if object.is_good {
                match object.good_object_value {
                    Some(value) => {
                        score_delta += value.score();
                        match value {
                            GoodObjectValue::High => {
                                sounds.push(Sound::GoodCollisionHigh);
                            },
                            _ => {
                                sounds.push(Sound::GoodCollision);
                            },
                        }
                    },
                    None => {
                        score_delta += crate::consts::PLAIN_SCORE;
                        sounds.push(Sound::GoodCollision);
                    },
                }
                object.remove_timer = Some(now);
            } else {
                sounds.push(Sound::BadCollision);
                lives_lost += 1;
                object.remove_timer = Some(now);
                object.blink_timer = Some(now);
            }
            objects.set(i, object);
        }
        i += 1;
    }
    proof {
        assert(before.take(n as int) =~= before);
        assert(objects@ =~= marked(before, player_rect, now));
    }
    CollisionOutcome { score_delta, lives_lost, sounds }
}

/// **Removes the objects whose time on the field is over.**
///
/// A struck good object leaves at once; a struck bad object leaves once it
/// has lingered for `LINGER_MILLIS`. The others stay, in their order.
pub fn purge(objects: &mut Vec<FallingObject>, now: u64)
    ensures
        final(objects)@ == purged(old(objects)@, now),
{
    let ghost before = objects@;
    let ghost keep = |object: FallingObject| !is_expired(object, now);
    let n = objects.len();
    let mut kept: Vec<FallingObject> = Vec::new();
    let mut i: usize = 0;
    proof {
        assert(before.take(0) =~= Seq::<FallingObject>::empty());
        broadcast use vstd::seq_lib::group_filter_ensures;

        assert(before.take(0).filter(keep) =~= Seq::<FallingObject>::empty());
    }
    while i < n
        invariant
            i <= n,
            n == before.len(),
            objects@ == before,
            keep == |object: FallingObject| !is_expired(object, now),
            kept@ == before.take(i as int).filter(keep),
        decreases n - i,
    {
        let object = objects[i];
        proof {
            assert(before.take(i + 1) =~= before.take(i as int).push(before[i as int]));
            before.take(i as int).lemma_filter_push(before[i as int], keep);
        }
        let expired = match object.remove_timer {
            Some(timer) => object.is_good || (now >= timer && now - timer >= LINGER_MILLIS),
            None => false,
        };
        if !expired {
            kept.push(object);
        }
        i += 1;
    }
    proof {
        assert(before.take(n as int) =~= before);
    }
    *objects = kept;
}

} // verus!
