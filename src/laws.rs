//! Laws that relate several commands, or one command over many calls.

use vstd::prelude::*;
use crate::model::{Habit, User};
use crate::scoring::{clamp_score, day_total_after, decay_due, points_after, saturate_i16, user_after_decay};
use crate::store::{habit_created, ids_ordered, lemma_without_absent_id, user_ensured, without_id};

verus! {

/// The user's points after a series of habit events, from `points`.
pub open spec fn points_after_all(points: int, deltas: Seq<i16>) -> int
    decreases deltas.len(),
{
    if deltas.len() == 0 {
        points
    } else {
        points_after(points_after_all(points, deltas.drop_last()), deltas.last() as int)
    }
}

/// The record of day `d` after a series of habit events, each a day label
/// and a raw delta, starting from an empty log.
pub open spec fn day_log(events: Seq<(Seq<char>, i16)>, d: Seq<char>) -> Option<int>
    decreases events.len(),
{
    if events.len() == 0 {
        None
    } else if events.last().0 == d {
        Some(day_total_after(day_log(events.drop_last(), d), events.last().1 as int))
    } else {
        day_log(events.drop_last(), d)
    }
}

/// The algebraic sum of the raw deltas of the events of day `d`.
pub open spec fn day_sum(events: Seq<(Seq<char>, i16)>, d: Seq<char>) -> int
    decreases events.len(),
{
    if events.len() == 0 {
        0
    } else if events.last().0 == d {
        day_sum(events.drop_last(), d) + events.last().1 as int
    } else {
        day_sum(events.drop_last(), d)
    }
}

/// Whatever the series of habit events, a non-negative score stays
/// non-negative.
pub proof fn lemma_points_never_negative(points: int, deltas: Seq<i16>)
    requires
        points >= 0,
    ensures
        points_after_all(points, deltas) >= 0,
    decreases deltas.len(),
{
    if deltas.len() > 0 {
        lemma_points_never_negative(points, deltas.drop_last());
    }
}

/// Starting from an empty log, the record of each day holds the algebraic
/// sum of the raw deltas of that day, as long as every running sum of the
/// day fits in `i16`; a day without events has no record.
pub proof fn lemma_day_record_is_sum(events: Seq<(Seq<char>, i16)>, d: Seq<char>)
    requires
        forall|n: int| 0 <= n <= events.len() ==> saturate_i16(#[trigger] day_sum(events.take(n), d))
            == day_sum(events.take(n), d),
    ensures
        day_log(events, d) is Some ==> day_log(events, d)->0 == day_sum(events, d),
        day_log(events, d) is None ==> day_sum(events, d) == 0,
    decreases events.len(),
{
    if events.len() > 0 {
        let prev = events.drop_last();
        assert forall|n: int| 0 <= n <= prev.len() implies saturate_i16(#[trigger] day_sum(prev.take(n), d))
            == day_sum(prev.take(n), d) by {
            assert(prev.take(n) =~= events.take(n));
        }
        lemma_day_record_is_sum(prev, d);
        assert(events.take(events.len() as int) =~= events);
        assert(events.take(prev.len() as int) =~= prev);
    }
}

/// An inactivity check before a whole tick has elapsed leaves the user row
/// exactly as it was.
pub proof fn lemma_no_decay_within_tick(u: User, now: int, league: int)
    requires
        !decay_due(u.updated_at as int, now),
    ensures
        user_after_decay(u, now, league) == u,
{
}

/// Ensuring the user twice is ensuring it once, whatever the clock says
/// the second time.
pub proof fn lemma_ensure_user_idempotent(u: Option<User>, first: i64, second: i64)
    ensures
        user_ensured(user_ensured(u, first), second) == user_ensured(u, first),
        user_ensured(u, first) is Some,
{
}

/// Creating a habit and then deleting the id it was given leaves the
/// habit table as it was.
pub proof fn lemma_create_then_delete(habits: Seq<Habit>, next: u16, h: Habit)
    requires
        ids_ordered(habits, next),
    ensures
        without_id(habit_created(habits, next, h), next) == habits,
{
    let created = habit_created(habits, next, h);
    assert(created.drop_last() =~= habits);
    lemma_without_absent_id(habits, next);
}

/// A habit event of `+k` followed by one of `-k` restores the points
/// exactly when neither event was clamped.
pub proof fn lemma_points_round_trip(points: int, k: i16)
    requires
        0 <= points <= i16::MAX,
        k != i16::MIN,
    ensures
        points_after(points_after(points, k as int), -k) == points <==> (
            clamp_score(points + k) == points + k
            && clamp_score(points_after(points, k as int) - k) == points_after(points, k as int) - k),
{
}

} // verus!
