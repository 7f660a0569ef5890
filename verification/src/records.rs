//! Records of falling objects: what of an object decides its collisions,
//! as plain values that can be kept and taken up again.

use vstd::prelude::*;
use crate::collisions::{after_round, bad_strikes, is_expired, is_struck, marked, purged,
    score_gain, strike_sounds};
use crate::consts::OBJECT_SCALING;
use crate::objects::{FallingObject, GoodObjectValue};
use crate::resources::Resources;
use crate::utils::{object_scaling, Point, Rect, RectSize, Scaling};

verus! {

/// What of a falling object decides its collisions: where it is and how
/// large, whether it is good and what it is worth, and its timers.
#[derive(Clone, Copy, PartialEq, Eq, Debug)]
pub struct ObjectRecord {
    pub coords: Point,
    pub size: RectSize,
    pub is_good: bool,
    pub good_object_value: Option<GoodObjectValue>,
    pub remove_timer: Option<u64>,
    pub blink_timer: Option<u64>,
}

impl ObjectRecord {
    /// The record of an object.
    pub open spec fn of(object: FallingObject) -> ObjectRecord {
        ObjectRecord {
            coords: object.coords,
            size: object.size,
            is_good: object.is_good,
            good_object_value: object.good_object_value,
            remove_timer: object.remove_timer,
            blink_timer: object.blink_timer,
        }
    }

    /// The object that a record stands for, shown with the pictures of the
    /// given resources; its pulse starts anew.
    pub open spec fn restored(self, resources: Resources) -> FallingObject {
        FallingObject {
            coords: self.coords,
            size: self.size,
            scaling: Scaling { x: OBJECT_SCALING, y: OBJECT_SCALING },
            image: FallingObject::image_for(self.is_good, self.good_object_value, resources),
            is_good: self.is_good,
            good_object_value: self.good_object_value,
            remove_timer: self.remove_timer,
            blink_timer: self.blink_timer,
            alpha: 0,
            pulse_time: 0,
        }
    }

    /// Takes the record of an object.
    pub fn record(object: &FallingObject) -> (r: ObjectRecord)
        ensures
            r == Self::of(*object),
    {
        ObjectRecord {
            coords: object.coords,
            size: object.size,
            is_good: object.is_good,
            good_object_value: object.good_object_value,
            remove_timer: object.remove_timer,
            blink_timer: object.blink_timer,
        }
    }

    /// Makes the object that the record stands for.
    pub fn restore(&self, resources: &Resources) -> (r: FallingObject)
        ensures
            r == self.restored(*resources),
    {
        let image = if self.is_good {
            match self.good_object_value {
                Some(GoodObjectValue::High) => resources.good_object_high_image,
                Some(GoodObjectValue::Medium) => resources.good_object_medium_image,
                Some(GoodObjectValue::Low) => resources.good_object_low_image,
                None => resources.good_object_low_image,
            }
        } else {
            resources.bad_object_image
        };
        FallingObject {
            coords: self.coords,
            size: self.size,
            scaling: object_scaling(),
            image,
            is_good: self.is_good,
            good_object_value: self.good_object_value,
            remove_timer: self.remove_timer,
            blink_timer: self.blink_timer,
            alpha: 0,
            pulse_time: 0,
        }
    }
}

/// The records of the objects, in their order.
pub open spec fn records_of(objects: Seq<FallingObject>) -> Seq<ObjectRecord> {
    objects.map_values(|object: FallingObject| ObjectRecord::of(object))
}

/// The objects that the records stand for, in their order.
pub open spec fn restored_from(records: Seq<ObjectRecord>, resources: Resources) -> Seq<
    FallingObject,
> {
    records.map_values(|record: ObjectRecord| record.restored(resources))
}

/// Takes the records of the objects on the field.
pub fn save_objects(objects: &Vec<FallingObject>) -> (records: Vec<ObjectRecord>)
    ensures
        records@ == records_of(objects@),
{
    let mut records: Vec<ObjectRecord> = Vec::new();
    let mut i: usize = 0;
    while i < objects.len()
        invariant
            i <= objects@.len(),
            records@ == records_of(objects@.take(i as int)),
        decreases objects@.len() - i,
    {
        records.push(ObjectRecord::record(&objects[i]));
        assert(records@ =~= records_of(objects@.take(i + 1)));
        i += 1;
    }
    assert(objects@.take(objects@.len() as int) =~= objects@);
    records
}

/// Makes the objects that the records stand for.
pub fn restore_objects(records: &Vec<ObjectRecord>, resources: &Resources) -> (objects: Vec<
    FallingObject,
>)
    ensures
        objects@ == restored_from(records@, *resources),
{
    let mut objects: Vec<FallingObject> = Vec::new();
    let mut i: usize = 0;
    while i < records.len()
        invariant
            i <= records@.len(),
            objects@ == restored_from(records@.take(i as int), *resources),
        decreases records@.len() - i,
    {
        objects.push(records[i].restore(resources));
        assert(objects@ =~= restored_from(records@.take(i + 1), *resources));
        i += 1;
    }
    assert(records@.take(records@.len() as int) =~= records@);
    objects
}

/// A record that is restored and recorded again is the record that it was.
pub proof fn lemma_record_round_trip(records: Seq<ObjectRecord>, resources: Resources)
    ensures
        records_of(restored_from(records, resources)) == records,
{
    assert(records_of(restored_from(records, resources)) =~= records);
}

/// Two fields of objects with the same records fare alike in a round of
/// collisions: they earn the same points, lose the same lives, ask for the
/// same sounds, and the objects that are left have the same records again.
pub proof fn lemma_records_decide_collisions(
    first: Seq<FallingObject>,
    second: Seq<FallingObject>,
    player_rect: Rect,
    now: u64,
)
    requires
        records_of(first) == records_of(second),
    ensures
        score_gain(first, player_rect) == score_gain(second, player_rect),
        bad_strikes(first, player_rect) == bad_strikes(second, player_rect),
        strike_sounds(first, player_rect) == strike_sounds(second, player_rect),
        records_of(marked(first, player_rect, now)) == records_of(
            marked(second, player_rect, now),
        ),
        records_of(purged(marked(first, player_rect, now), now)) == records_of(
            purged(marked(second, player_rect, now), now),
        ),
    decreases first.len(),
{
    let keep = |object: FallingObject| !is_expired(object, now);
    assert(first.len() == records_of(first).len());
    assert(second.len() == records_of(second).len());
    if first.len() == 0 {
        assert(marked(first, player_rect, now) =~= Seq::<FallingObject>::empty());
        assert(marked(second, player_rect, now) =~= Seq::<FallingObject>::empty());
        assert(first =~= second);
    } else {
        let a = first.last();
        let b = second.last();
        assert(ObjectRecord::of(a) == records_of(first)[first.len() - 1]);
        assert(ObjectRecord::of(b) == records_of(second)[second.len() - 1]);
        assert(records_of(first.drop_last()) =~= records_of(first).drop_last());
        assert(records_of(second.drop_last()) =~= records_of(second).drop_last());
        lemma_records_decide_collisions(first.drop_last(), second.drop_last(), player_rect, now);
        assert(is_struck(a, player_rect) == is_struck(b, player_rect));
        let marked_a = after_round(a, player_rect, now);
        let marked_b = after_round(b, player_rect, now);
        assert(ObjectRecord::of(marked_a) == ObjectRecord::of(marked_b));
        assert(marked(first, player_rect, now) =~= marked(first.drop_last(), player_rect, now).push(
            marked_a,
        ));
        assert(marked(second, player_rect, now) =~= marked(
            second.drop_last(),
            player_rect,
            now,
        ).push(marked_b));
        assert(records_of(marked(first.drop_last(), player_rect, now).push(marked_a))
            =~= records_of(marked(first.drop_last(), player_rect, now)).push(
            ObjectRecord::of(marked_a),
        ));
        assert(records_of(marked(second.drop_last(), player_rect, now).push(marked_b))
            =~= records_of(marked(second.drop_last(), player_rect, now)).push(
            ObjectRecord::of(marked_b),
        ));
        marked(first.drop_last(), player_rect, now).lemma_filter_push(marked_a, keep);
        marked(second.drop_last(), player_rect, now).lemma_filter_push(marked_b, keep);
        assert(is_expired(marked_a, now) == is_expired(marked_b, now));
        let left_a = purged(marked(first.drop_last(), player_rect, now), now);
        let left_b = purged(marked(second.drop_last(), player_rect, now), now);
        assert(records_of(left_a.push(marked_a)) =~= records_of(left_a).push(
            ObjectRecord::of(marked_a),
        ));
        assert(records_of(left_b.push(marked_b)) =~= records_of(left_b).push(
            ObjectRecord::of(marked_b),
        ));
    }
}

/// Objects that were recorded and restored fare in a round of collisions
/// as the objects themselves.
pub proof fn lemma_restored_objects_collide_alike(
    objects: Seq<FallingObject>,
    resources: Resources,
    player_rect: Rect,
    now: u64,
)
    ensures
        score_gain(restored_from(records_of(objects), resources), player_rect) == score_gain(
            objects,
            player_rect,
        ),
        bad_strikes(restored_from(records_of(objects), resources), player_rect) == bad_strikes(
            objects,
            player_rect,
        ),
        strike_sounds(restored_from(records_of(objects), resources), player_rect)
            == strike_sounds(objects, player_rect),
        records_of(
            purged(marked(restored_from(records_of(objects), resources), player_rect, now), now),
        ) == records_of(purged(marked(objects, player_rect, now), now)),
{
    lemma_record_round_trip(records_of(objects), resources);
    lemma_records_decide_collisions(
        restored_from(records_of(objects), resources),
        objects,
        player_rect,
        now,
    );
}

} // verus!
