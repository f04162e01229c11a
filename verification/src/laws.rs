//! What holds of the hands on every face and at every time.

use vstd::prelude::*;
use crate::permutation::{
    ascending_face, dial_face, is_bijection, is_label, is_slot, lemma_slot_of, slot_of,
};
use crate::resolver::{
    bucket_label, clockwise_steps, hour_anchor, hour_angle, hour_label, hour_position,
    hour_target, minute_anchor, minute_angle, minute_position, minute_target,
    HOUR_TICKS_PER_SLOT, HOUR_TICKS_PER_TURN, MINUTE_TICKS_PER_SLOT, MINUTE_TICKS_PER_TURN,
};
use crate::time::TimeOfDay;

verus! {

/// Travelling longer over the same number of steps gets no less far.
proof fn lemma_travel_monotonic(steps: int, earlier: int, later: int)
    by (nonlinear_arith)
    requires
        0 <= steps,
        earlier <= later,
    ensures
        steps * earlier <= steps * later,
{
}

/// From one slot to a different one it is `1..=11` steps clockwise, and
/// making them arrives there.
proof fn lemma_steps_between_slots(from: int, to: int)
    requires
        is_slot(from),
        is_slot(to),
        from != to,
    ensures
        1 <= clockwise_steps(from, to) <= 11,
        (from + clockwise_steps(from, to)) % 12 == to,
{
    if to > from {
        assert(clockwise_steps(from, to) == to - from);
    } else {
        assert(clockwise_steps(from, to) == to - from + 12);
    }
}

/// Two different labels sit on two different slots of a face.
proof fn lemma_labels_apart(labels: Seq<u8>, a: int, b: int)
    requires
        is_bijection(labels),
        is_label(a),
        is_label(b),
        a != b,
    ensures
        is_slot(slot_of(labels, a)),
        is_slot(slot_of(labels, b)),
        labels[slot_of(labels, a)] == a,
        labels[slot_of(labels, b)] == b,
        slot_of(labels, a) != slot_of(labels, b),
{
    lemma_slot_of(labels, a);
    lemma_slot_of(labels, b);
}

/// The anchors and targets of both hands are slots of the face that hold the
/// labels they are named for, and a hand's target is never its anchor: it
/// lies `1..=11` steps clockwise of it.
pub proof fn lemma_anchors(labels: Seq<u8>, t: TimeOfDay)
    requires
        is_bijection(labels),
        t.wf(),
    ensures
        is_slot(hour_anchor(labels, t)),
        is_slot(hour_target(labels, t)),
        is_slot(minute_anchor(labels, t)),
        is_slot(minute_target(labels, t)),
        labels[hour_anchor(labels, t)] == hour_label(t.hour % 12),
        labels[hour_target(labels, t)] == hour_label((t.hour % 12 + 1) % 12),
        labels[minute_anchor(labels, t)] == bucket_label(t.minute / 5),
        labels[minute_target(labels, t)] == bucket_label((t.minute / 5 + 1) % 12),
        1 <= clockwise_steps(hour_anchor(labels, t), hour_target(labels, t)) <= 11,
        1 <= clockwise_steps(minute_anchor(labels, t), minute_target(labels, t)) <= 11,
        (hour_anchor(labels, t) + clockwise_steps(hour_anchor(labels, t), hour_target(labels, t)))
            % 12 == hour_target(labels, t),
        (minute_anchor(labels, t) + clockwise_steps(
            minute_anchor(labels, t),
            minute_target(labels, t),
        )) % 12 == minute_target(labels, t),
{
    let hour_now = hour_label(t.hour % 12);
    let hour_next = hour_label((t.hour % 12 + 1) % 12);
    assert(is_label(hour_now) && is_label(hour_next) && hour_now != hour_next);
    lemma_labels_apart(labels, hour_now, hour_next);
    lemma_steps_between_slots(hour_anchor(labels, t), hour_target(labels, t));
    let bucket_now = bucket_label(t.minute / 5);
    let bucket_next = bucket_label((t.minute / 5 + 1) % 12);
    assert(is_label(bucket_now) && is_label(bucket_next) && bucket_now != bucket_next);
    lemma_labels_apart(labels, bucket_now, bucket_next);
    lemma_steps_between_slots(minute_anchor(labels, t), minute_target(labels, t));
}

/// Both angles lie within one turn, on every face and at every time.
pub proof fn lemma_angles_within_a_turn(labels: Seq<u8>, t: TimeOfDay)
    ensures
        0 <= hour_angle(labels, t) < HOUR_TICKS_PER_TURN,
        0 <= minute_angle(labels, t) < MINUTE_TICKS_PER_TURN,
{
}

/// On the full hour the hour hand stands exactly on the slot that holds the
/// hour's label.
pub proof fn lemma_hour_hand_on_the_hour(labels: Seq<u8>, t: TimeOfDay)
    requires
        is_bijection(labels),
        t.wf(),
        t.minute == 0,
        t.second == 0,
    ensures
        hour_position(labels, t) == hour_anchor(labels, t) * HOUR_TICKS_PER_SLOT,
        hour_angle(labels, t) == hour_anchor(labels, t) * HOUR_TICKS_PER_SLOT,
        labels[hour_anchor(labels, t)] == hour_label(t.hour % 12),
{
    lemma_anchors(labels, t);
    assert(clockwise_steps(hour_anchor(labels, t), hour_target(labels, t)) * 0 == 0);
}

/// At the start of a five-minute bucket the minute hand stands exactly on the
/// slot that holds the bucket's label.
pub proof fn lemma_minute_hand_on_the_bucket(labels: Seq<u8>, t: TimeOfDay)
    requires
        is_bijection(labels),
        t.wf(),
        t.minute % 5 == 0,
        t.second == 0,
        t.millisecond == 0,
    ensures
        minute_position(labels, t) == minute_anchor(labels, t) * MINUTE_TICKS_PER_SLOT,
        minute_angle(labels, t) == minute_anchor(labels, t) * MINUTE_TICKS_PER_SLOT,
        labels[minute_anchor(labels, t)] == bucket_label(t.minute / 5),
{
    lemma_anchors(labels, t);
    assert(clockwise_steps(minute_anchor(labels, t), minute_target(labels, t)) * 0 == 0);
}

/// Within its hour the hour hand stays short of the slot of the next hour: it
/// is at or past its anchor and has not yet made all the steps to its target.
/// In the last second of the hour it is one second's travel short of it.
pub proof fn lemma_hour_hand_short_of_target(labels: Seq<u8>, t: TimeOfDay)
    requires
        is_bijection(labels),
        t.wf(),
    ensures
        hour_anchor(labels, t) * HOUR_TICKS_PER_SLOT <= hour_position(labels, t) < (hour_anchor(
            labels,
            t,
        ) + clockwise_steps(hour_anchor(labels, t), hour_target(labels, t)))
            * HOUR_TICKS_PER_SLOT,
        t.minute == 59 && t.second == 59 ==> hour_position(labels, t) == (hour_anchor(labels, t)
            + clockwise_steps(hour_anchor(labels, t), hour_target(labels, t)))
            * HOUR_TICKS_PER_SLOT - clockwise_steps(
            hour_anchor(labels, t),
            hour_target(labels, t),
        ),
{
    lemma_anchors(labels, t);
    let steps = clockwise_steps(hour_anchor(labels, t), hour_target(labels, t));
    lemma_travel_monotonic(steps, 0, t.seconds_into_hour());
    lemma_travel_monotonic(steps, t.seconds_into_hour(), 3599);
}

/// Within its bucket the minute hand stays short of the slot of the next
/// bucket. In the last millisecond of the bucket it is one millisecond's
/// travel short of it.
pub proof fn lemma_minute_hand_short_of_target(labels: Seq<u8>, t: TimeOfDay)
    requires
        is_bijection(labels),
        t.wf(),
    ensures
        minute_anchor(labels, t) * MINUTE_TICKS_PER_SLOT <= minute_position(labels, t) < (
        minute_anchor(labels, t) + clockwise_steps(
            minute_anchor(labels, t),
            minute_target(labels, t),
        )) * MINUTE_TICKS_PER_SLOT,
        t.minute % 5 == 4 && t.second == 59 && t.millisecond == 999 ==> minute_position(labels, t)
            == (minute_anchor(labels, t) + clockwise_steps(
            minute_anchor(labels, t),
            minute_target(labels, t),
        )) * MINUTE_TICKS_PER_SLOT - clockwise_steps(
            minute_anchor(labels, t),
            minute_target(labels, t),
        ),
{
    lemma_anchors(labels, t);
    let steps = clockwise_steps(minute_anchor(labels, t), minute_target(labels, t));
    lemma_travel_monotonic(steps, 0, t.millis_into_bucket());
    lemma_travel_monotonic(steps, t.millis_into_bucket(), 299_999);
}

/// While the hour lasts, the position of the hour hand never goes back as
/// time goes on.
pub proof fn lemma_hour_hand_monotonic(labels: Seq<u8>, earlier: TimeOfDay, later: TimeOfDay)
    requires
        is_bijection(labels),
        earlier.wf(),
        later.wf(),
        earlier.hour == later.hour,
        earlier.seconds_into_hour() <= later.seconds_into_hour(),
    ensures
        hour_position(labels, earlier) <= hour_position(labels, later),
{
    lemma_anchors(labels, earlier);
    lemma_travel_monotonic(
        clockwise_steps(hour_anchor(labels, earlier), hour_target(labels, earlier)),
        earlier.seconds_into_hour(),
        later.seconds_into_hour(),
    );
}

/// While a five-minute bucket lasts, the position of the minute hand never
/// goes back as time goes on.
pub proof fn lemma_minute_hand_monotonic(labels: Seq<u8>, earlier: TimeOfDay, later: TimeOfDay)
    requires
        is_bijection(labels),
        earlier.wf(),
        later.wf(),
        earlier.minute / 5 == later.minute / 5,
        earlier.millis_into_bucket() <= later.millis_into_bucket(),
    ensures
        minute_position(labels, earlier) <= minute_position(labels, later),
{
    lemma_anchors(labels, earlier);
    lemma_travel_monotonic(
        clockwise_steps(minute_anchor(labels, earlier), minute_target(labels, earlier)),
        earlier.millis_into_bucket(),
        later.millis_into_bucket(),
    );
}

/// On the ascending face the minute hand is that of a plain clock: its angle
/// is the time since the hour began, one turn to the hour. The hour hand
/// turns at the plain rate as well, one twelfth of a turn to the hour, and
/// stands one slot behind the hand of a plain clock, because this face has
/// label 1 on the axis where a dial has 12.
pub proof fn lemma_ascending_face_is_plain(t: TimeOfDay)
    requires
        t.wf(),
    ensures
        is_bijection(ascending_face()),
        minute_angle(ascending_face(), t) == t.minute * 60_000 + t.second * 1000 + t.millisecond,
        hour_angle(ascending_face(), t) == ((t.hour + 11) % 12) * 3600 + t.minute * 60 + t.second,
{
    let face = ascending_face();
    lemma_ascending_slot(hour_label(t.hour % 12));
    lemma_ascending_slot(hour_label((t.hour % 12 + 1) % 12));
    lemma_ascending_slot(bucket_label(t.minute / 5));
    lemma_ascending_slot(bucket_label((t.minute / 5 + 1) % 12));
    assert(hour_anchor(face, t) == (t.hour + 11) % 12);
    assert(hour_target(face, t) == t.hour % 12);
    assert(clockwise_steps(hour_anchor(face, t), hour_target(face, t)) == 1);
    assert(minute_anchor(face, t) == t.minute / 5);
    assert(minute_target(face, t) == (t.minute / 5 + 1) % 12);
    assert(clockwise_steps(minute_anchor(face, t), minute_target(face, t)) == 1);
}

/// The ascending face is a bijection, with label `l` on slot `l - 1`.
proof fn lemma_ascending_slot(l: int)
    requires
        is_label(l),
    ensures
        is_bijection(ascending_face()),
        slot_of(ascending_face(), l) == l - 1,
{
    let face = ascending_face();
    assert(is_bijection(face));
    lemma_slot_of(face, l);
    assert(face[l - 1] == l);
}

/// The face of a plain clock is a bijection, with label 12 on slot 0 and
/// every other label `l` on slot `l`.
proof fn lemma_dial_slot(l: int)
    requires
        is_label(l),
    ensures
        is_bijection(dial_face()),
        slot_of(dial_face(), l) == l % 12,
{
    let face = dial_face();
    assert(is_bijection(face));
    lemma_slot_of(face, l);
    assert(face[l % 12] == l);
}

/// On the face of a plain clock the hour hand is that of a plain clock: its
/// angle is the time since the dial hour began, one twelfth of a turn to the
/// hour. The minute hand turns at the plain rate and stands one slot ahead,
/// because the first bucket goes with label 1.
pub proof fn lemma_dial_face_is_plain(t: TimeOfDay)
    requires
        t.wf(),
    ensures
        is_bijection(dial_face()),
        hour_angle(dial_face(), t) == (t.hour % 12) * 3600 + t.minute * 60 + t.second,
        minute_angle(dial_face(), t) == (t.minute * 60_000 + t.second * 1000 + t.millisecond
            + 300_000) % 3_600_000,
{
    let face = dial_face();
    lemma_dial_slot(hour_label(t.hour % 12));
    lemma_dial_slot(hour_label((t.hour % 12 + 1) % 12));
    lemma_dial_slot(bucket_label(t.minute / 5));
    lemma_dial_slot(bucket_label((t.minute / 5 + 1) % 12));
    assert(hour_anchor(face, t) == t.hour % 12);
    assert(hour_target(face, t) == (t.hour % 12 + 1) % 12);
    assert(clockwise_steps(hour_anchor(face, t), hour_target(face, t)) == 1);
    assert(minute_anchor(face, t) == (t.minute / 5 + 1) % 12);
    assert(minute_target(face, t) == (t.minute / 5 + 2) % 12);
    assert(clockwise_steps(minute_anchor(face, t), minute_target(face, t)) == 1);
}

} // verus!
