//! Rows of the three tables and the errors of the engine.

use vstd::prelude::*;

verus! {

/// The single scoring profile; its id is always 1.
#[derive(Clone, Copy, Debug, PartialEq, Eq)]
pub struct User {
    pub id: u16,
    pub points: i16,
    pub updated_at: i64,
}

/// A habit definition: `points` is the delta applied when it is done.
#[derive(Clone, Debug, PartialEq, Eq)]
pub struct Habit {
    pub id: u16,
    pub habit_name: String,
    pub points: i16,
}

/// The sum of the point deltas of one calendar day.
#[derive(Clone, Debug, PartialEq, Eq)]
pub struct Record {
    pub id: u16,
    pub points: i16,
    pub created_at: String,
}

#[derive(Clone, Copy, Debug, PartialEq, Eq)]
pub enum EngineError {
    /// The database file could not be created or opened.
    StoreUnavailable,
    /// Transient lock contention; the caller may retry.
    StoreBusy,
    /// Integrity failure of the store; fatal.
    StoreCorrupt,
    /// A uniqueness or capacity constraint of a table was broken.
    ConstraintViolated,
    /// The user row does not exist yet.
    UserMissing,
    /// Malformed or semantically invalid input.
    BadRequest,
}

/// The id of the one user row.
pub const USER_ID: u16 = 1;

/// A habit's name is a non-empty text.
pub open spec fn valid_habit_name(name: Seq<char>) -> bool {
    name.len() > 0
}

/// Whether `name` is acceptable as a habit's name.
pub fn is_valid_habit_name(name: &String) -> (r: bool)
    ensures
        r == valid_habit_name(name@),
{
    !name.as_str().is_empty()
}

/// A copy of a habit that keeps every field.
pub fn copy_habit(h: &Habit) -> (r: Habit)
    ensures
        r == *h,
{
    Habit { id: h.id, habit_name: h.habit_name.clone(), points: h.points }
}

/// A copy of a record that keeps every field.
pub fn copy_record(r: &Record) -> (c: Record)
    ensures
        c == *r,
{
    Record { id: r.id, points: r.points, created_at: r.created_at.clone() }
}

impl EngineError {
    /// A short human-readable description of the error.
    pub fn message(&self) -> (r: &'static str) {
        match self {
            EngineError::StoreUnavailable => "the store could not be opened",
            EngineError::StoreBusy => "the store is busy",
            EngineError::StoreCorrupt => "the store is corrupt",
            EngineError::ConstraintViolated => "a store constraint was violated",
            EngineError::UserMissing => "the user does not exist yet",
            EngineError::BadRequest => "the request is invalid",
        }
    }
}

} // verus!
