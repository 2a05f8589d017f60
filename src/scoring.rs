//! The arithmetic of the scoring engine: clamped point updates, daily sums
//! and inactivity decay.

use vstd::prelude::*;
use crate::model::User;

verus! {

/// One decay tick, in milliseconds.
pub const DAY_MS: i64 = 8_640_000;

/// `x` saturated into the range of `i16`.
pub open spec fn saturate_i16(x: int) -> int {
    if x < i16::MIN {
        i16::MIN as int
    } else if x > i16::MAX {
        i16::MAX as int
    } else {
        x
    }
}

/// A user score: `x` saturated at the `i16` maximum, then floored at zero.
pub open spec fn clamp_score(x: int) -> int {
    if x < 0 {
        0
    } else if x > i16::MAX {
        i16::MAX as int
    } else {
        x
    }
}

/// The user's points after a habit event of `delta`.
pub open spec fn points_after(points: int, delta: int) -> int {
    clamp_score(points + delta)
}

/// The points of a day's record after a delta; `prior` is the record's
/// points, or `None` while the day has no record.
pub open spec fn day_total_after(prior: Option<int>, delta: int) -> int {
    match prior {
        Some(p) => saturate_i16(p + delta),
        None => saturate_i16(delta),
    }
}

/// Whether at least one decay tick has elapsed since `updated_at`.
pub open spec fn decay_due(updated_at: int, now: int) -> bool {
    now - updated_at >= DAY_MS
}

/// The number of whole decay ticks between `updated_at` and `now`.
pub open spec fn decay_ticks(updated_at: int, now: int) -> int {
    (now - updated_at) / (DAY_MS as int)
}

/// The points after decay: one penalty of `league` for each elapsed tick.
pub open spec fn decayed_points(points: int, updated_at: int, now: int, league: int) -> int {
    clamp_score(points - decay_ticks(updated_at, now) * league)
}

/// The user row after an inactivity check at `now`.
pub open spec fn user_after_decay(u: User, now: int, league: int) -> User {
    if decay_due(u.updated_at as int, now) {
        User {
            id: u.id,
            points: decayed_points(u.points as int, u.updated_at as int, now, league) as i16,
            updated_at: now as i64,
        }
    } else {
        u
    }
}

/// The user's points after a habit event of `delta`: the sum, saturated at
/// the `i16` maximum and floored at zero.
pub fn clamped_points(points: i16, delta: i16) -> (r: i16)
    ensures
        r as int == points_after(points as int, delta as int),
        r >= 0,
{
    let sum: i32 = points as i32 + delta as i32;
    if sum < 0 {
        0
    } else if sum > i16::MAX as i32 {
        i16::MAX
    } else {
        sum as i16
    }
}

/// The points of a day's record after a raw delta, saturated in `i16`.
pub fn day_total(prior: Option<i16>, delta: i16) -> (r: i16)
    ensures
        r as int == day_total_after(
            match prior {
                Some(p) => Some(p as int),
                None => None,
            },
            delta as int,
        ),
{
    let base: i32 = match prior {
        Some(p) => p as i32,
        None => 0,
    };
    let sum: i32 = base + delta as i32;
    if sum < i16::MIN as i32 {
        i16::MIN
    } else if sum > i16::MAX as i32 {
        i16::MAX
    } else {
        sum as i16
    }
}

/// The user row after an inactivity check at `now` with a penalty of
/// `league_entry_points` per tick: `None` when less than one tick has
/// elapsed (the row stays as it is), else the decayed row stamped `now`.
pub fn decay(user: &User, now: i64, league_entry_points: i16) -> (r: Option<User>)
    ensures
        r is None <==> !decay_due(user.updated_at as int, now as int),
        r is Some ==> r->0 == user_after_decay(*user, now as int, league_entry_points as int),
        r is Some ==> r->0.points >= 0,
        r is Some ==> r->0.updated_at > user.updated_at,
{
    let elapsed: i128 = now as i128 - user.updated_at as i128;
    if elapsed < DAY_MS as i128 {
        None
    } else {
        let ticks: i128 = elapsed / (DAY_MS as i128);
        assert(0 <= ticks <= 0x1_0000_0000_0000_0000i128) by (nonlinear_arith)
            requires
                ticks == elapsed / (DAY_MS as i128),
                DAY_MS <= elapsed <= 0x2_0000_0000_0000_0000i128,
        ;
        assert(-0x1_0000_0000_0000_0000_0000i128 <= ticks * (league_entry_points as i128)
            <= 0x1_0000_0000_0000_0000_0000i128) by (nonlinear_arith)
            requires
                0 <= ticks <= 0x1_0000_0000_0000_0000i128,
                -0x8000 <= league_entry_points <= 0x7fff,
        ;
        let raw: i128 = user.points as i128 - ticks * (league_entry_points as i128);
        let points: i16 = if raw < 0 {
            0
        } else if raw > i16::MAX as i128 {
            i16::MAX
        } else {
            raw as i16
        };
        Some(User { id: user.id, points, updated_at: now })
    }
}

} // verus!
