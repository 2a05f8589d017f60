//! Scoring core of a habit tracker: the user's point total, the habit
//! catalog and the daily log of point changes, with the rules that tie them.

pub mod calendar;
pub mod laws;
pub mod model;
pub mod scoring;
pub mod store;

pub use calendar::CalendarDate;
pub use model::{EngineError, Habit, Record, User};
pub use store::Store;
