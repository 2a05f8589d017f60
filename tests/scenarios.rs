use habit_core::scoring::{clamped_points, day_total, decay, DAY_MS};
use habit_core::{CalendarDate, EngineError, Habit, Record, Store, User};

const T0: i64 = 1_741_300_000_000;

fn habit(id: u16, name: &str, points: i16) -> Habit {
    Habit { id, habit_name: name.to_string(), points }
}

fn label(y: i32, m: u32, d: u32) -> String {
    CalendarDate::new(y, m, d).unwrap().label()
}

fn user_points(s: &mut Store) -> i16 {
    s.create_or_get_user(0)[0].points
}

fn store_with_points(points: i16, at: i64) -> Store {
    let mut s = Store::new();
    s.create_or_get_user(at);
    if points > 0 {
        s.update_user_points(points, &label(2025, 3, 6)).unwrap();
    }
    s.reset_records();
    s
}

#[test]
fn fresh_bootstrap() {
    let mut s = Store::new();
    let users = s.create_or_get_user(T0);
    assert_eq!(users, vec![User { id: 1, points: 0, updated_at: T0 }]);
}

#[test]
fn ensure_user_twice_is_once() {
    let mut s = Store::new();
    let first = s.create_or_get_user(T0);
    let second = s.create_or_get_user(T0 + 500);
    assert_eq!(first, second);
    assert_eq!(second, vec![User { id: 1, points: 0, updated_at: T0 }]);
}

#[test]
fn habit_lifecycle() {
    let mut s = Store::new();
    let list = s.create_habit(habit(0, "read", 3)).unwrap();
    assert_eq!(list.len(), 1);
    assert_eq!(list[0], habit(1, "read", 3));
    let edited = s.update_habit(habit(1, "read 20p", 4)).unwrap();
    assert_eq!(edited, vec![habit(1, "read 20p", 4)]);
    assert_eq!(s.get_habits(), vec![habit(1, "read 20p", 4)]);
    let left = s.delete_habit(1);
    assert!(left.is_empty());
    assert!(s.get_habits().is_empty());
}

#[test]
fn create_then_delete_restores_list() {
    let mut s = Store::new();
    s.create_habit(habit(0, "walk", 2)).unwrap();
    s.create_habit(habit(0, "smoke", -5)).unwrap();
    let before = s.get_habits();
    let after_create = s.create_habit(habit(7, "stretch", 1)).unwrap();
    let new_id = after_create.last().unwrap().id;
    assert_eq!(new_id, 3);
    let after_delete = s.delete_habit(new_id);
    assert_eq!(after_delete, before);
}

#[test]
fn update_unknown_habit_is_empty() {
    let mut s = Store::new();
    s.create_habit(habit(0, "walk", 2)).unwrap();
    let edited = s.update_habit(habit(42, "run", 5)).unwrap();
    assert!(edited.is_empty());
    assert_eq!(s.get_habits(), vec![habit(1, "walk", 2)]);
}

#[test]
fn delete_unknown_habit_is_no_op() {
    let mut s = Store::new();
    s.create_habit(habit(0, "walk", 2)).unwrap();
    assert_eq!(s.delete_habit(9), vec![habit(1, "walk", 2)]);
}

#[test]
fn empty_habit_name_is_bad_request() {
    let mut s = Store::new();
    assert_eq!(s.create_habit(habit(0, "", 2)), Err(EngineError::BadRequest));
    s.create_habit(habit(0, "walk", 2)).unwrap();
    assert_eq!(s.update_habit(habit(1, "", 2)), Err(EngineError::BadRequest));
    assert_eq!(s.get_habits(), vec![habit(1, "walk", 2)]);
}

#[test]
fn habit_ids_exhausted() {
    let mut s = Store::new();
    s.next_habit_id = u16::MAX;
    assert_eq!(s.create_habit(habit(0, "walk", 2)), Err(EngineError::ConstraintViolated));
    assert!(s.get_habits().is_empty());
}

#[test]
fn record_ids_exhausted() {
    let mut s = Store::new();
    s.create_or_get_user(T0);
    s.next_record_id = u16::MAX;
    let day = label(2025, 3, 7);
    assert_eq!(s.update_user_points(5, &day), Err(EngineError::ConstraintViolated));
    assert_eq!(user_points(&mut s), 0);
    assert!(s.get_records().is_empty());
}

#[test]
fn daily_aggregation() {
    let mut s = Store::new();
    s.create_or_get_user(T0);
    let day = label(2025, 3, 7);
    assert_eq!(day, "07 Mar 2025");
    assert_eq!(s.update_user_points(5, &day), Ok(5));
    assert_eq!(s.update_user_points(2, &day), Ok(7));
    assert_eq!(s.update_user_points(-3, &day), Ok(4));
    assert_eq!(user_points(&mut s), 4);
    assert_eq!(
        s.get_records(),
        vec![Record { id: 1, points: 4, created_at: "07 Mar 2025".to_string() }]
    );
}

#[test]
fn records_are_kept_per_day() {
    let mut s = Store::new();
    s.create_or_get_user(T0);
    let d1 = label(2025, 3, 7);
    let d2 = label(2025, 3, 8);
    s.update_user_points(5, &d1).unwrap();
    s.update_user_points(4, &d2).unwrap();
    s.update_user_points(-2, &d1).unwrap();
    s.update_user_points(1, &d2).unwrap();
    assert_eq!(
        s.get_records(),
        vec![
            Record { id: 1, points: 3, created_at: "07 Mar 2025".to_string() },
            Record { id: 2, points: 5, created_at: "08 Mar 2025".to_string() },
        ]
    );
    assert_eq!(user_points(&mut s), 8);
}

#[test]
fn clamp_preserves_history() {
    let mut s = store_with_points(1, T0);
    assert_eq!(user_points(&mut s), 1);
    let day = label(2025, 3, 7);
    assert_eq!(s.update_user_points(-10, &day), Ok(0));
    assert_eq!(user_points(&mut s), 0);
    assert_eq!(s.get_records()[0].points, -10);
}

#[test]
fn points_never_negative_over_a_series() {
    let mut s = store_with_points(3, T0);
    let day = label(2025, 3, 7);
    for delta in [-5i16, 2, -1, -32768, 7, -8, 32767, -100] {
        let p = s.update_user_points(delta, &day).unwrap();
        assert!(p >= 0);
    }
    assert!(user_points(&mut s) >= 0);
}

#[test]
fn update_points_keeps_timestamp() {
    let mut s = Store::new();
    s.create_or_get_user(T0);
    s.update_user_points(9, &label(2025, 3, 7)).unwrap();
    assert_eq!(s.create_or_get_user(T0 + 1)[0], User { id: 1, points: 9, updated_at: T0 });
}

#[test]
fn round_trip_without_clamp() {
    let mut s = store_with_points(10, T0);
    let day = label(2025, 3, 7);
    assert_eq!(s.update_user_points(4, &day), Ok(14));
    assert_eq!(s.update_user_points(-4, &day), Ok(10));
}

#[test]
fn round_trip_with_clamp() {
    let mut s = store_with_points(2, T0);
    let day = label(2025, 3, 7);
    assert_eq!(s.update_user_points(-5, &day), Ok(0));
    assert_eq!(s.update_user_points(5, &day), Ok(5));
    assert_ne!(user_points(&mut s), 2);
}

#[test]
fn missing_user_is_reported() {
    let mut s = Store::new();
    assert_eq!(s.update_user_points(3, &label(2025, 3, 7)), Err(EngineError::UserMissing));
    assert_eq!(s.check_user_update(7, T0), Err(EngineError::UserMissing));
    assert!(s.get_records().is_empty());
    assert!(s.user.is_none());
}

#[test]
fn inactivity_decay() {
    let mut s = store_with_points(50, T0);
    let now = T0 + 3 * DAY_MS + 1;
    assert_eq!(s.check_user_update(7, now), Ok(29));
    assert_eq!(s.create_or_get_user(0)[0], User { id: 1, points: 29, updated_at: now });
    assert_eq!(s.check_user_update(7, now), Ok(29));
    assert_eq!(s.create_or_get_user(0)[0], User { id: 1, points: 29, updated_at: now });
}

#[test]
fn decay_clamps_to_zero() {
    let mut s = store_with_points(5, T0);
    assert_eq!(s.check_user_update(10, T0 + 3 * DAY_MS), Ok(0));
}

#[test]
fn no_decay_within_a_tick() {
    let mut s = store_with_points(20, T0);
    let before = s.create_or_get_user(0);
    assert_eq!(s.check_user_update(7, T0 + DAY_MS - 1), Ok(20));
    assert_eq!(s.create_or_get_user(0), before);
}

#[test]
fn decay_at_exactly_one_tick() {
    let u = User { id: 1, points: 20, updated_at: T0 };
    assert_eq!(decay(&u, T0 + DAY_MS, 7), Some(User { id: 1, points: 13, updated_at: T0 + DAY_MS }));
    assert_eq!(decay(&u, T0 + DAY_MS - 1, 7), None);
    assert_eq!(decay(&u, T0 - 5, 7), None);
}

#[test]
fn decay_with_many_ticks_saturates() {
    let u = User { id: 1, points: 100, updated_at: 0 };
    assert_eq!(decay(&u, i64::MAX, 32767).unwrap().points, 0);
    assert_eq!(decay(&u, i64::MAX, -1).unwrap().points, i16::MAX);
    assert_eq!(decay(&u, 10 * DAY_MS, 0).unwrap().points, 100);
}

#[test]
fn reset_records_keeps_user_and_habits() {
    let mut s = Store::new();
    s.create_or_get_user(T0);
    s.create_habit(habit(0, "read", 3)).unwrap();
    let day = label(2025, 3, 7);
    s.update_user_points(3, &day).unwrap();
    let user = s.create_or_get_user(0);
    let habits = s.get_habits();
    s.reset_records();
    assert!(s.get_records().is_empty());
    assert_eq!(s.create_or_get_user(0), user);
    assert_eq!(s.get_habits(), habits);
    s.reset_records();
    assert!(s.get_records().is_empty());
    assert_eq!(s.update_user_points(2, &day), Ok(5));
    assert_eq!(s.get_records()[0].points, 2);
}

#[test]
fn score_saturates_at_maximum() {
    assert_eq!(clamped_points(32000, 1000), i16::MAX);
    assert_eq!(clamped_points(3, -4), 0);
    assert_eq!(clamped_points(3, 4), 7);
}

#[test]
fn day_total_saturates() {
    assert_eq!(day_total(None, -10), -10);
    assert_eq!(day_total(Some(4), -10), -6);
    assert_eq!(day_total(Some(32000), 1000), i16::MAX);
    assert_eq!(day_total(Some(-32000), -1000), i16::MIN);
}

#[test]
fn labels_follow_day_format() {
    assert_eq!(label(2025, 3, 7), "07 Mar 2025");
    assert_eq!(label(2024, 2, 29), "29 Feb 2024");
    assert_eq!(label(2023, 12, 31), "31 Dec 2023");
    assert_eq!(label(999, 1, 1), "01 Jan 0999");
}

#[test]
fn invalid_dates_are_refused() {
    assert!(CalendarDate::new(2023, 2, 29).is_none());
    assert!(CalendarDate::new(1900, 2, 29).is_none());
    assert!(CalendarDate::new(2000, 2, 29).is_some());
    assert!(CalendarDate::new(2025, 4, 31).is_none());
    assert!(CalendarDate::new(2025, 13, 1).is_none());
    assert!(CalendarDate::new(2025, 1, 0).is_none());
    assert!(CalendarDate::new(0, 1, 1).is_none());
    assert!(CalendarDate::new(10000, 1, 1).is_none());
    let d = CalendarDate::new(2025, 3, 7).unwrap();
    assert_eq!((d.year(), d.month(), d.day()), (2025, 3, 7));
}

#[test]
fn user_row_survives_every_command() {
    let mut s = Store::new();
    s.create_or_get_user(T0);
    let day = label(2025, 3, 7);
    s.create_habit(habit(0, "read", 3)).unwrap();
    s.update_user_points(3, &day).unwrap();
    s.update_habit(habit(1, "read more", 4)).unwrap();
    s.check_user_update(2, T0 + 5 * DAY_MS).unwrap();
    s.delete_habit(1);
    s.reset_records();
    assert_eq!(s.get_records().len(), 0);
    let users = s.create_or_get_user(T0 + 9 * DAY_MS);
    assert_eq!(users, vec![User { id: 1, points: 0, updated_at: T0 + 5 * DAY_MS }]);
}
