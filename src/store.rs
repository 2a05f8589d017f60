//! The three tables held in memory, and the commands over them: the habit
//! registry, the daily record log and the two transitions of the user row.

use vstd::prelude::*;
use crate::model::{copy_habit, copy_record, is_valid_habit_name, valid_habit_name, EngineError, Habit, Record, User, USER_ID};
use crate::scoring::{clamped_points, day_total, day_total_after, decay, points_after, user_after_decay};

verus! {

/// Habit ids ascend along the table and all lie below the next id to assign.
pub open spec fn ids_ordered(s: Seq<Habit>, next: u16) -> bool {
    &&& forall|i: int, j: int| 0 <= i < j < s.len() ==> s[i].id < s[j].id
    &&& forall|i: int| 0 <= i < s.len() ==> s[i].id < next
}

/// No two records share a day label.
pub open spec fn labels_unique(s: Seq<Record>) -> bool {
    forall|i: int, j: int| 0 <= i < j < s.len() ==> s[i].created_at@ != s[j].created_at@
}

/// Record ids are distinct and all lie below the next id to assign.
pub open spec fn record_ids_fresh(s: Seq<Record>, next: u16) -> bool {
    &&& forall|i: int, j: int| 0 <= i < j < s.len() ==> s[i].id != s[j].id
    &&& forall|i: int| 0 <= i < s.len() ==> s[i].id < next
}

/// The points of the record of day `d`, if the day has one.
pub open spec fn day_points(s: Seq<Record>, d: Seq<char>) -> Option<int>
    decreases s.len(),
{
    if s.len() == 0 {
        None
    } else if s.last().created_at@ == d {
        Some(s.last().points as int)
    } else {
        day_points(s.drop_last(), d)
    }
}

/// The habits without the one of id `id`.
pub open spec fn without_id(s: Seq<Habit>, id: u16) -> Seq<Habit>
    decreases s.len(),
{
    if s.len() == 0 {
        s
    } else if s.last().id == id {
        without_id(s.drop_last(), id)
    } else {
        without_id(s.drop_last(), id).push(s.last())
    }
}

/// The habits of id `id` (at most one in a well-formed table).
pub open spec fn with_id(s: Seq<Habit>, id: u16) -> Seq<Habit>
    decreases s.len(),
{
    if s.len() == 0 {
        s
    } else if s.last().id == id {
        with_id(s.drop_last(), id).push(s.last())
    } else {
        with_id(s.drop_last(), id)
    }
}

/// Habit `x` after an update request `h`: name and points of `h` where the ids match.
pub open spec fn habit_overwritten(x: Habit, h: Habit) -> Habit {
    if x.id == h.id {
        Habit { id: x.id, habit_name: h.habit_name, points: h.points }
    } else {
        x
    }
}

pub open spec fn habits_updated(s: Seq<Habit>, h: Habit) -> Seq<Habit> {
    s.map_values(|x: Habit| habit_overwritten(x, h))
}

/// The table after inserting `h` under id `id` (the id that `h` carries is ignored).
pub open spec fn habit_created(s: Seq<Habit>, id: u16, h: Habit) -> Seq<Habit> {
    s.push(Habit { id, habit_name: h.habit_name, points: h.points })
}

/// The user slot after `ensure_user` at time `now`.
pub open spec fn user_ensured(u: Option<User>, now: i64) -> Option<User> {
    match u {
        Some(x) => Some(x),
        None => Some(User { id: USER_ID, points: 0, updated_at: now }),
    }
}

/// The users table (at most one row), the habits, and the daily records.
pub struct Store {
    pub user: Option<User>,
    pub habits: Vec<Habit>,
    pub records: Vec<Record>,
    pub next_habit_id: u16,
    pub next_record_id: u16,
}

proof fn lemma_day_points_at(s: Seq<Record>, i: int)
    requires
        labels_unique(s),
        0 <= i < s.len(),
    ensures
        day_points(s, s[i].created_at@) == Some(s[i].points as int),
    decreases s.len(),
{
    if i < s.len() - 1 {
        lemma_day_points_at(s.drop_last(), i);
    }
}

proof fn lemma_day_points_absent(s: Seq<Record>, d: Seq<char>)
    requires
        forall|i: int| 0 <= i < s.len() ==> s[i].created_at@ != d,
    ensures
        day_points(s, d) is None,
    decreases s.len(),
{
    if s.len() > 0 {
        lemma_day_points_absent(s.drop_last(), d);
    }
}

proof fn lemma_day_points_update(s: Seq<Record>, i: int, r: Record, d: Seq<char>)
    requires
        labels_unique(s),
        0 <= i < s.len(),
        r.created_at@ == s[i].created_at@,
    ensures
        day_points(s.update(i, r), d) == if d == r.created_at@ {
            Some(r.points as int)
        } else {
            day_points(s, d)
        },
    decreases s.len(),
{
    let t = s.update(i, r);
    if i == s.len() - 1 {
        assert(t.drop_last() =~= s.drop_last());
    } else {
        assert(t.drop_last() =~= s.drop_last().update(i, r));
        lemma_day_points_update(s.drop_last(), i, r, d);
        assert(s.last().created_at@ != r.created_at@);
    }
}

proof fn lemma_without_id_sub(s: Seq<Habit>, id: u16)
    ensures
        forall|k: int| 0 <= k < without_id(s, id).len() ==>
            exists|j: int| 0 <= j < s.len() && #[trigger] without_id(s, id)[k] == s[j],
    decreases s.len(),
{
    if s.len() > 0 {
        lemma_without_id_sub(s.drop_last(), id);
        let r = without_id(s, id);
        let p = without_id(s.drop_last(), id);
        assert forall|k: int| 0 <= k < r.len() implies
            exists|j: int| 0 <= j < s.len() && #[trigger] r[k] == s[j] by {
            if k < p.len() {
                let j = choose|j: int| 0 <= j < s.drop_last().len() && p[k] == s.drop_last()[j];
                assert(r[k] == s[j]);
            } else {
                assert(r[k] == s[s.len() - 1]);
            }
        }
    }
}

proof fn lemma_without_id_ordered(s: Seq<Habit>, id: u16, next: u16)
    requires
        ids_ordered(s, next),
    ensures
        ids_ordered(without_id(s, id), next),
    decreases s.len(),
{
    if s.len() > 0 {
        lemma_without_id_ordered(s.drop_last(), id, next);
        lemma_without_id_sub(s.drop_last(), id);
        let p = without_id(s.drop_last(), id);
        assert forall|k: int| 0 <= k < p.len() implies p[k].id < s.last().id by {
            let j = choose|j: int| 0 <= j < s.drop_last().len() && #[trigger] p[k] == s.drop_last()[j];
            assert(s[j] == p[k]);
        }
    }
}

proof fn lemma_day_points_absent_from(s: Seq<Record>, d: Seq<char>)
    requires
        labels_unique(s),
        day_points(s, d) is None,
    ensures
        forall|i: int| 0 <= i < s.len() ==> s[i].created_at@ != d,
{
    assert forall|i: int| 0 <= i < s.len() implies s[i].created_at@ != d by {
        if s[i].created_at@ == d {
            lemma_day_points_at(s, i);
        }
    }
}

/// Removing an id that no habit carries leaves the table as it is.
pub proof fn lemma_without_absent_id(s: Seq<Habit>, id: u16)
    requires
        forall|i: int| 0 <= i < s.len() ==> s[i].id != id,
    ensures
        without_id(s, id) == s,
    decreases s.len(),
{
    if s.len() > 0 {
        lemma_without_absent_id(s.drop_last(), id);
        assert(s.drop_last().push(s.last()) =~= s);
    }
}

/// The index of the record of `day`, if there is one.
fn find_day(records: &Vec<Record>, day: &String) -> (r: Option<usize>)
    requires
        labels_unique(records@),
    ensures
        r is None ==> day_points(records@, day@) is None,
        r is Some ==> r->0 < records@.len() && records@[r->0 as int].created_at@ == day@
            && day_points(records@, day@) == Some(records@[r->0 as int].points as int),
{
    let mut i: usize = 0;
    while i < records.len()
        invariant
            i <= records@.len(),
            labels_unique(records@),
            forall|k: int| 0 <= k < i ==> records@[k].created_at@ != day@,
        decreases records@.len() - i,
    {
        if records[i].created_at == *day {
            proof {
                lemma_day_points_at(records@, i as int);
            }
            return Some(i);
        }
        i = i + 1;
    }
    proof {
        lemma_day_points_absent(records@, day@);
    }
    None
}

impl Store {
    /// Every invariant of the tables.
    pub open spec fn wf(&self) -> bool {
        &&& (self.user matches Some(u) ==> u.id == USER_ID && u.points >= 0)
        &&& ids_ordered(self.habits@, self.next_habit_id)
        &&& labels_unique(self.records@)
        &&& record_ids_fresh(self.records@, self.next_record_id)
    }

    /// An empty store: no user, no habits, no records; ids start at 1.
    pub fn new() -> (r: Store)
        ensures
            r.wf(),
            r.user is None,
            r.habits@.len() == 0,
            r.records@.len() == 0,
            r.next_habit_id == 1,
            r.next_record_id == 1,
    {
        Store { user: None, habits: Vec::new(), records: Vec::new(), next_habit_id: 1, next_record_id: 1 }
    }

    /// Reads the user row, creating it with 0 points stamped `now_ms` when
    /// it is absent. Returns the (one) user row.
    pub fn create_or_get_user(&mut self, now_ms: i64) -> (r: Vec<User>)
        requires
            old(self).wf(),
        ensures
            final(self).wf(),
            final(self).user == user_ensured(old(self).user, now_ms),
            final(self).user is Some,
            r@ == seq![final(self).user->0],
            final(self).habits == old(self).habits,
            final(self).records == old(self).records,
            final(self).next_habit_id == old(self).next_habit_id,
            final(self).next_record_id == old(self).next_record_id,
    {
        let u: User = match self.user {
            Some(u) => u,
            None => {
                let created = User { id: USER_ID, points: 0, updated_at: now_ms };
                self.user = Some(created);
                created
            },
        };
        let mut rows: Vec<User> = Vec::new();
        rows.push(u);
        rows
    }

    /// Applies a habit event of `delta` on day `today`: the user's points
    /// become the clamped sum, and the day's record takes the raw delta
    /// (created with the delta as its points when the day has none yet).
    /// Returns the new points. Nothing changes on an error.
    pub fn update_user_points(&mut self, delta: i16, today: &String) -> (r: Result<i16, EngineError>)
        requires
            old(self).wf(),
        ensures
            final(self).wf(),
            old(self).user is None ==> r == Err::<i16, EngineError>(EngineError::UserMissing),
            old(self).user is Some && day_points(old(self).records@, today@) is None
                && old(self).next_record_id == u16::MAX
                ==> r == Err::<i16, EngineError>(EngineError::ConstraintViolated),
            r is Err ==> *final(self) == *old(self),
            final(self).user is Some <==> old(self).user is Some,
            r is Ok <==> (old(self).user is Some && (day_points(old(self).records@, today@) is Some
                || old(self).next_record_id < u16::MAX)),
            r is Ok ==> {
                let u = old(self).user->0;
                &&& r->Ok_0 as int == points_after(u.points as int, delta as int)
                &&& final(self).user == Some(User { id: u.id, points: r->Ok_0, updated_at: u.updated_at })
                &&& day_points(final(self).records@, today@) == Some(
                    day_total_after(day_points(old(self).records@, today@), delta as int))
                &&& forall|d: Seq<char>| d != today@ ==>
                    day_points(#[trigger] final(self).records@, d) == day_points(old(self).records@, d)
                &&& final(self).habits == old(self).habits
                &&& final(self).next_habit_id == old(self).next_habit_id
            },
    {
        let u: User = match self.user {
            Some(u) => u,
            None => {
                return Err(EngineError::UserMissing);
            },
        };
        let new_points = clamped_points(u.points, delta);
        match find_day(&self.records, today) {
            Some(i) => {
                let total = day_total(Some(self.records[i].points), delta);
                let row = Record { id: self.records[i].id, points: total, created_at: self.records[i].created_at.clone() };
                let ghost before = self.records@;
                self.records[i] = row;
                proof {
                    assert(self.records@ == before.update(i as int, row));
                    assert forall|d: Seq<char>| true implies
                        day_points(#[trigger] self.records@, d) == if d == row.created_at@ {
                            Some(row.points as int)
                        } else {
                            day_points(before, d)
                        } by {
                        lemma_day_points_update(before, i as int, row, d);
                    }
                }
            },
            None => {
                if self.next_record_id == u16::MAX {
                    return Err(EngineError::ConstraintViolated);
                }
                let total = day_total(None, delta);
                let row = Record { id: self.next_record_id, points: total, created_at: today.clone() };
                let ghost before = self.records@;
                proof {
                    lemma_day_points_absent_from(before, today@);
                }
                self.records.push(row);
                self.next_record_id = self.next_record_id + 1;
                proof {
                    assert(self.records@.drop_last() =~= before);
                }
            },
        }
        self.user = Some(User { id: u.id, points: new_points, updated_at: u.updated_at });
        Ok(new_points)
    }

    /// The inactivity check at `now_ms`: when a whole decay tick has elapsed
    /// since the user row was last stamped, the points lose
    /// `league_entry_points` per tick (floored at zero) and the row is stamped
    /// `now_ms`; otherwise nothing changes. Returns the user's points.
    pub fn check_user_update(&mut self, league_entry_points: i16, now_ms: i64) -> (r: Result<i16, EngineError>)
        requires
            old(self).wf(),
        ensures
            final(self).wf(),
            r is Err <==> old(self).user is None,
            r is Err ==> r == Err::<i16, EngineError>(EngineError::UserMissing) && *final(self) == *old(self),
            r is Ok ==> final(self).user == Some(
                user_after_decay(old(self).user->0, now_ms as int, league_entry_points as int)),
            r is Ok ==> r->Ok_0 == final(self).user->0.points,
            r is Ok ==> final(self).user->0.updated_at >= old(self).user->0.updated_at,
            final(self).user is Some <==> old(self).user is Some,
            final(self).habits == old(self).habits,
            final(self).records == old(self).records,
            final(self).next_habit_id == old(self).next_habit_id,
            final(self).next_record_id == old(self).next_record_id,
    {
        let u: User = match self.user {
            Some(u) => u,
            None => {
                return Err(EngineError::UserMissing);
            },
        };
        match decay(&u, now_ms, league_entry_points) {
            Some(next) => {
                self.user = Some(next);
                Ok(next.points)
            },
            None => Ok(u.points),
        }
    }
    /// Inserts `habit` under the next id (the id it carries is ignored) and
    /// returns every habit. An empty name is refused, and so is an insert
    /// once the ids are used up; nothing changes then.
    pub fn create_habit(&mut self, habit: Habit) -> (r: Result<Vec<Habit>, EngineError>)
        requires
            old(self).wf(),
        ensures
            final(self).wf(),
            !valid_habit_name(habit.habit_name@) ==> r == Err::<Vec<Habit>, EngineError>(EngineError::BadRequest),
            valid_habit_name(habit.habit_name@) && old(self).next_habit_id == u16::MAX
                ==> r == Err::<Vec<Habit>, EngineError>(EngineError::ConstraintViolated),
            r is Err ==> *final(self) == *old(self),
            r is Ok <==> valid_habit_name(habit.habit_name@) && old(self).next_habit_id < u16::MAX,
            r is Ok ==> {
                &&& final(self).habits@ == habit_created(old(self).habits@, old(self).next_habit_id, habit)
                &&& r->Ok_0@ == final(self).habits@
                &&& final(self).next_habit_id == old(self).next_habit_id + 1
                &&& final(self).user == old(self).user
                &&& final(self).records == old(self).records
                &&& final(self).next_record_id == old(self).next_record_id
            },
    {
        if !is_valid_habit_name(&habit.habit_name) {
            return Err(EngineError::BadRequest);
        }
        if self.next_habit_id == u16::MAX {
            return Err(EngineError::ConstraintViolated);
        }
        let row = Habit { id: self.next_habit_id, habit_name: habit.habit_name, points: habit.points };
        self.habits.push(row);
        self.next_habit_id = self.next_habit_id + 1;
        Ok(self.get_habits())
    }

    /// Every habit, in the order of their ids.
    pub fn get_habits(&self) -> (r: Vec<Habit>)
        ensures
            r@ == self.habits@,
    {
        let mut out: Vec<Habit> = Vec::new();
        let mut i: usize = 0;
        while i < self.habits.len()
            invariant
                i <= self.habits@.len(),
                out@ == self.habits@.subrange(0, i as int),
            decreases self.habits@.len() - i,
        {
            out.push(copy_habit(&self.habits[i]));
            i = i + 1;
            proof {
                assert(out@ =~= self.habits@.subrange(0, i as int));
            }
        }
        proof {
            assert(out@ =~= self.habits@);
        }
        out
    }

    /// Overwrites name and points of the habit whose id is `habit.id`, and
    /// returns the rows of that id after the update: one, or none where no
    /// habit has that id (which is no error). An empty name is refused.
    pub fn update_habit(&mut self, habit: Habit) -> (r: Result<Vec<Habit>, EngineError>)
        requires
            old(self).wf(),
        ensures
            final(self).wf(),
            r is Err <==> !valid_habit_name(habit.habit_name@),
            r is Err ==> r == Err::<Vec<Habit>, EngineError>(EngineError::BadRequest) && *final(self) == *old(self),
            r is Ok ==> {
                &&& final(self).habits@ == habits_updated(old(self).habits@, habit)
                &&& r->Ok_0@ == with_id(final(self).habits@, habit.id)
            },
            final(self).user == old(self).user,
            final(self).records == old(self).records,
            final(self).next_habit_id == old(self).next_habit_id,
            final(self).next_record_id == old(self).next_record_id,
    {
        if !is_valid_habit_name(&habit.habit_name) {
            return Err(EngineError::BadRequest);
        }
        let ghost before = self.habits@;
        let mut updated: Vec<Habit> = Vec::new();
        let mut matched: Vec<Habit> = Vec::new();
        let mut i: usize = 0;
        while i < self.habits.len()
            invariant
                i <= self.habits@.len(),
                updated@ == habits_updated(self.habits@.subrange(0, i as int), habit),
                matched@ == with_id(updated@, habit.id),
            decreases self.habits@.len() - i,
        {
            let row: Habit = if self.habits[i].id == habit.id {
                Habit { id: habit.id, habit_name: habit.habit_name.clone(), points: habit.points }
            } else {
                copy_habit(&self.habits[i])
            };
            let ghost prev = updated@;
            if row.id == habit.id {
                matched.push(copy_habit(&row));
            }
            updated.push(row);
            proof {
                assert(updated@.drop_last() =~= prev);
                assert(self.habits@.subrange(0, i + 1) =~= self.habits@.subrange(0, i as int).push(self.habits@[i as int]));
                assert(updated@ =~= habits_updated(self.habits@.subrange(0, i + 1), habit));
            }
            i = i + 1;
        }
        proof {
            assert(self.habits@.subrange(0, i as int) =~= before);
        }
        self.habits = updated;
        Ok(matched)
    }

    /// Removes the habit of id `id`, if there is one (no error otherwise),
    /// and returns every habit left.
    pub fn delete_habit(&mut self, id: u16) -> (r: Vec<Habit>)
        requires
            old(self).wf(),
        ensures
            final(self).wf(),
            final(self).habits@ == without_id(old(self).habits@, id),
            r@ == final(self).habits@,
            final(self).user == old(self).user,
            final(self).records == old(self).records,
            final(self).next_habit_id == old(self).next_habit_id,
            final(self).next_record_id == old(self).next_record_id,
    {
        let ghost before = self.habits@;
        let mut kept: Vec<Habit> = Vec::new();
        let mut i: usize = 0;
        while i < self.habits.len()
            invariant
                i <= self.habits@.len(),
                kept@ == without_id(self.habits@.subrange(0, i as int), id),
            decreases self.habits@.len() - i,
        {
            proof {
                assert(self.habits@.subrange(0, i + 1).drop_last() =~= self.habits@.subrange(0, i as int));
            }
            if self.habits[i].id != id {
                kept.push(copy_habit(&self.habits[i]));
            }
            i = i + 1;
        }
        proof {
            assert(self.habits@.subrange(0, i as int) =~= before);
            lemma_without_id_ordered(before, id, self.next_habit_id);
        }
        self.habits = kept;
        self.get_habits()
    }

    /// Every record of the daily log.
    pub fn get_records(&self) -> (r: Vec<Record>)
        ensures
            r@ == self.records@,
    {
        let mut out: Vec<Record> = Vec::new();
        let mut i: usize = 0;
        while i < self.records.len()
            invariant
                i <= self.records@.len(),
                out@ == self.records@.subrange(0, i as int),
            decreases self.records@.len() - i,
        {
            out.push(copy_record(&self.records[i]));
            i = i + 1;
            proof {
                assert(out@ =~= self.records@.subrange(0, i as int));
            }
        }
        proof {
            assert(out@ =~= self.records@);
        }
        out
    }

    /// Deletes every record of the daily log; the user and the habits stay.
    pub fn reset_records(&mut self)
        requires
            old(self).wf(),
        ensures
            final(self).wf(),
            final(self).records@.len() == 0,
            final(self).user == old(self).user,
            final(self).habits == old(self).habits,
            final(self).next_habit_id == old(self).next_habit_id,
            final(self).next_record_id == old(self).next_record_id,
    {
        self.records = Vec::new();
    }
}

} // verus!
