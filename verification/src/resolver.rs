//! Where the two hands point, given the label table and the time.
//!
//! A hand does not turn at a fixed rate. It leaves the slot that holds the
//! label of the current hour (or five-minute bucket) and travels clockwise to
//! the slot that holds the next one, wherever the shuffle has put it, in the
//! time a plain clock takes for one twelfth of a turn.
//!
//! Positions are exact. The hour hand is measured in ticks of 1/3600 slot
//! (it is placed to the second), the minute hand in ticks of 1/300000 slot
//! (it is placed to the millisecond). A position may run past twelve slots;
//! an angle is a position reduced to one turn.

use vstd::prelude::*;
use crate::permutation::{
    is_label, is_slot, slot_of, violation, ClockSlot, FaceLabel, Permutation, PreconditionError,
};
use crate::time::{TimeOfDay, WallClockSample};

verus! {

/// Ticks of the hour hand per slot: the seconds of an hour.
pub const HOUR_TICKS_PER_SLOT: u32 = 3600;

/// Ticks of the hour hand per turn.
pub const HOUR_TICKS_PER_TURN: u32 = 43_200;

/// Ticks of the minute hand per slot: the milliseconds of five minutes.
pub const MINUTE_TICKS_PER_SLOT: u32 = 300_000;

/// Ticks of the minute hand per turn.
pub const MINUTE_TICKS_PER_TURN: u32 = 3_600_000;

/// The two hands, each as a clockwise angle from the axis of slot 0 in ticks
/// of a turn: `hour` in `0..HOUR_TICKS_PER_TURN`, `minute` in
/// `0..MINUTE_TICKS_PER_TURN`. In radians a hand stands at
/// `ticks / ticks per slot * pi / 6`.
#[derive(Debug, Clone, Copy, PartialEq, Eq, Structural)]
pub struct HandAngle {
    pub hour: u32,
    pub minute: u32,
}

/// The label that stands for an hour of the day: label 12 for hours 0 and 12,
/// else the hour on the twelve-hour dial.
pub open spec fn hour_label(hour: int) -> int {
    if hour % 12 == 0 {
        12
    } else {
        hour % 12
    }
}

/// The label that stands for a five-minute bucket: bucket `b` of `0..=11`
/// goes with label `b + 1`.
pub open spec fn bucket_label(bucket: int) -> int {
    bucket % 12 + 1
}

/// Slots to travel clockwise from `from` to reach `to`, in `0..=11`.
pub open spec fn clockwise_steps(from: int, to: int) -> int {
    (to - from + 12) % 12
}

/// The slot the hour hand leaves: the one labelled with the current hour.
pub open spec fn hour_anchor(labels: Seq<u8>, t: TimeOfDay) -> int {
    slot_of(labels, hour_label(t.hour % 12))
}

/// The slot the hour hand makes for: the one labelled with the next hour.
pub open spec fn hour_target(labels: Seq<u8>, t: TimeOfDay) -> int {
    slot_of(labels, hour_label((t.hour % 12 + 1) % 12))
}

/// The slot the minute hand leaves: the one labelled for the current bucket.
pub open spec fn minute_anchor(labels: Seq<u8>, t: TimeOfDay) -> int {
    slot_of(labels, bucket_label(t.minute / 5))
}

/// The slot the minute hand makes for: the one labelled for the next bucket.
pub open spec fn minute_target(labels: Seq<u8>, t: TimeOfDay) -> int {
    slot_of(labels, bucket_label((t.minute / 5 + 1) % 12))
}

/// Position of the hour hand in hour ticks, not reduced to one turn: the
/// anchor slot, plus the elapsed share of the hour times the way to the
/// target slot.
pub open spec fn hour_position(labels: Seq<u8>, t: TimeOfDay) -> int {
    hour_anchor(labels, t) * HOUR_TICKS_PER_SLOT + clockwise_steps(
        hour_anchor(labels, t),
        hour_target(labels, t),
    ) * t.seconds_into_hour()
}

/// Position of the minute hand in minute ticks, not reduced to one turn.
pub open spec fn minute_position(labels: Seq<u8>, t: TimeOfDay) -> int {
    minute_anchor(labels, t) * MINUTE_TICKS_PER_SLOT + clockwise_steps(
        minute_anchor(labels, t),
        minute_target(labels, t),
    ) * t.millis_into_bucket()
}

/// Angle of the hour hand: its position within one turn.
pub open spec fn hour_angle(labels: Seq<u8>, t: TimeOfDay) -> int {
    hour_position(labels, t) % (HOUR_TICKS_PER_TURN as int)
}

/// Angle of the minute hand: its position within one turn.
pub open spec fn minute_angle(labels: Seq<u8>, t: TimeOfDay) -> int {
    minute_position(labels, t) % (MINUTE_TICKS_PER_TURN as int)
}

/// The label that stands for `hour`.
pub fn label_of_hour(hour: u8) -> (l: FaceLabel)
    ensures
        l == hour_label(hour as int),
        is_label(l as int),
{
    if hour % 12 == 0 {
        12
    } else {
        hour % 12
    }
}

/// The label that stands for five-minute bucket `bucket`.
pub fn label_of_bucket(bucket: u8) -> (l: FaceLabel)
    ensures
        l == bucket_label(bucket as int),
        is_label(l as int),
{
    bucket % 12 + 1
}

/// Slots to travel clockwise from `from` to reach `to`.
pub fn steps_between(from: ClockSlot, to: ClockSlot) -> (d: u8)
    requires
        is_slot(from as int),
        is_slot(to as int),
    ensures
        d == clockwise_steps(from as int, to as int),
        d < 12,
        d == 0 <==> from == to,
{
    (to + 12 - from) % 12
}

/// A product of a step count and an elapsed time stays within the product of
/// their bounds.
proof fn lemma_travel_bound(steps: int, elapsed: int, span: int)
    by (nonlinear_arith)
    requires
        0 <= steps <= 11,
        0 <= elapsed < span,
    ensures
        0 <= steps * elapsed <= 11 * (span - 1),
        steps * elapsed <= steps * (span - 1),
{
}

/// Places the hour hand: finds the slots that hold the current and the next
/// hour's labels and moves from the first towards the second by the share of
/// the hour that has passed.
pub fn resolve_hour(perm: &Permutation, time: &WallClockSample) -> (pos: u32)
    requires
        perm.wf(),
    ensures
        pos == hour_position(perm@, time@),
        hour_anchor(perm@, time@) * HOUR_TICKS_PER_SLOT <= pos < (hour_anchor(perm@, time@)
            + clockwise_steps(hour_anchor(perm@, time@), hour_target(perm@, time@)))
            * HOUR_TICKS_PER_SLOT,
{
    let real_hour: u8 = time.hour() % 12;
    let anchor = perm.slot_of(label_of_hour(real_hour));
    let target = perm.slot_of(label_of_hour((real_hour + 1) % 12));
    let steps = steps_between(anchor, target);
    let elapsed: u32 = time.minute() as u32 * 60 + time.second() as u32;
    proof {
        lemma_travel_bound(steps as int, elapsed as int, 3600);
    }
    anchor as u32 * HOUR_TICKS_PER_SLOT + steps as u32 * elapsed
}

/// Places the minute hand: finds the slots that hold the labels of the
/// current and the next five-minute bucket and moves from the first towards
/// the second by the share of the five minutes that has passed.
pub fn resolve_minute(perm: &Permutation, time: &WallClockSample) -> (pos: u32)
    requires
        perm.wf(),
    ensures
        pos == minute_position(perm@, time@),
        minute_anchor(perm@, time@) * MINUTE_TICKS_PER_SLOT <= pos < (minute_anchor(perm@, time@)
            + clockwise_steps(minute_anchor(perm@, time@), minute_target(perm@, time@)))
            * MINUTE_TICKS_PER_SLOT,
{
    let bucket: u8 = time.minute() / 5;
    let anchor = perm.slot_of(label_of_bucket(bucket));
    let target = perm.slot_of(label_of_bucket((bucket + 1) % 12));
    let steps = steps_between(anchor, target);
    let elapsed: u32 = (time.minute() % 5) as u32 * 60_000 + time.second() as u32 * 1000
        + time.millisecond() as u32;
    proof {
        lemma_travel_bound(steps as int, elapsed as int, 300_000);
    }
    anchor as u32 * MINUTE_TICKS_PER_SLOT + steps as u32 * elapsed
}

/// What resolving gives: both angles on a face, or what is wrong with the table.
pub open spec fn resolved(labels: Seq<u8>, t: TimeOfDay) -> Result<HandAngle, PreconditionError> {
    match violation(labels) {
        Some(e) => Err(e),
        None => Ok(
            HandAngle {
                hour: hour_angle(labels, t) as u32,
                minute: minute_angle(labels, t) as u32,
            },
        ),
    }
}

/// Resolves both hands for `time` on a face that is known to be a bijection.
pub fn resolve_face(perm: &Permutation, time: &WallClockSample) -> (a: HandAngle)
    requires
        perm.wf(),
    ensures
        a.hour == hour_angle(perm@, time@),
        a.minute == minute_angle(perm@, time@),
        a.hour < HOUR_TICKS_PER_TURN,
        a.minute < MINUTE_TICKS_PER_TURN,
        resolved(perm@, time@) == Ok::<HandAngle, PreconditionError>(a),
{
    HandAngle {
        hour: resolve_hour(perm, time) % HOUR_TICKS_PER_TURN,
        minute: resolve_minute(perm, time) % MINUTE_TICKS_PER_TURN,
    }
}

/// Resolves both hands for `time` on the face `perm`. A table that is not a
/// bijection is turned down, whatever the time.
pub fn resolve(perm: &Permutation, time: &WallClockSample) -> (r: Result<
    HandAngle,
    PreconditionError,
>)
    ensures
        r == resolved(perm@, time@),
        r is Ok <==> perm.wf(),
        r matches Ok(a) ==> a.hour == hour_angle(perm@, time@) && a.minute == minute_angle(
            perm@,
            time@,
        ) && a.hour < HOUR_TICKS_PER_TURN && a.minute < MINUTE_TICKS_PER_TURN,
{
    match perm.validate() {
        Err(e) => Err(e),
        Ok(()) => Ok(resolve_face(perm, time)),
    }
}

} // verus!
