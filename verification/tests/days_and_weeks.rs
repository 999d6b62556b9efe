//! Tests of the day lifecycle, the week merge semantics, and projects.

use time_butler::date::Date;
use time_butler::day::Day;
use time_butler::entry::Entry;
use time_butler::project::Project;
use time_butler::week::Week;

fn date(year: i32, month: u32, day: u32) -> Date {
    Date { year, month, day }
}

fn open_day(d: Date) -> Day {
    Day::from_parts(None, None, 0, String::new(), 0, 11, d, 0).unwrap()
}

#[test]
fn day_scenario_full_day_with_pause() {
    // Start 09:00, end 17:30, paused half an hour: 510 worked minutes,
    // 480 net minutes, closed, and no short-day notice.
    let mut d = open_day(date(2025, 3, 10));
    d.set_starting_time(Some(9 * 3600));
    d.set_paused_time(30);
    d.set_ending_time(Some(17 * 3600 + 30 * 60));
    assert!(d.closed());
    assert!(d.start_time_set());
    assert!(d.ending_time_set());
    assert_eq!(d.hours(), 480);
    assert!(!d.below_work_day());
}

#[test]
fn day_scenario_short_day_with_pause() {
    // Start 09:00, end 12:00, paused an hour: 180 worked minutes, 120 net
    // minutes, and the short-day notice applies.
    let mut d = open_day(date(2025, 3, 11));
    d.set_starting_time(Some(9 * 3600));
    d.set_paused_time(60);
    d.set_ending_time(Some(12 * 3600));
    assert!(d.closed());
    assert_eq!(d.hours(), 120);
    assert!(d.below_work_day());
}

#[test]
fn day_pause_longer_than_worked_is_discounted() {
    // 60 worked minutes with a 90-minute pause: the pause is discounted
    // rather than producing a negative result.
    let mut d = open_day(date(2025, 3, 12));
    d.set_starting_time(Some(9 * 3600));
    d.set_paused_time(90);
    d.set_ending_time(Some(10 * 3600));
    assert_eq!(d.hours(), 60);
}

#[test]
fn day_minutes_are_truncated() {
    // 100 seconds of work is one whole minute.
    let mut d = open_day(date(2025, 3, 13));
    d.set_starting_time(Some(1000));
    d.set_ending_time(Some(1100));
    assert_eq!(d.hours(), 1);
}

#[test]
fn day_pause_before_start_is_ignored() {
    let mut d = open_day(date(2025, 3, 14));
    d.set_paused_time(45);
    assert_eq!(d.hours_paused(), 0);
    d.set_starting_time(Some(9 * 3600));
    d.set_paused_time(45);
    assert_eq!(d.hours_paused(), 45);
}

#[test]
fn day_new_is_open_and_stamped() {
    let d = Day::new(Some(String::from("notes")));
    assert!(!d.start_time_set());
    assert!(!d.ending_time_set());
    assert!(!d.closed());
    assert_eq!(d.hours(), 0);
    assert_eq!(d.extra_info(), "notes");
    assert!(1 <= d.week() && d.week() <= 53);
    assert!(1 <= d.month() && d.month() <= 12);
    let d2 = Day::new(None);
    assert_eq!(d2.extra_info(), "");
}

#[test]
fn day_from_parts_rejects_out_of_range() {
    let d = date(2025, 3, 10);
    assert!(Day::from_parts(Some(9_000_000_000_000), None, 0, String::new(), 0, 1, d, 0).is_none());
    assert!(Day::from_parts(None, None, 400_000_000_000, String::new(), 0, 1, d, 0).is_none());
    assert!(Day::from_parts(None, Some(0), 0, String::new(), 0, 1, d, 0).is_some());
}

#[test]
fn week_merge_fills_only_missing_fields() {
    // An existing day with only a starting time merged with an incoming day
    // carrying only an ending time and a note: both times set, the day
    // closes, the hours are computed, and the note is adopted.
    let d = date(2025, 3, 10);
    let existing = Day::from_parts(Some(9 * 3600), None, 0, String::new(), 0, 11, d, 0).unwrap();
    let incoming = Day::from_parts(
        None,
        Some(17 * 3600 + 30 * 60),
        0,
        String::from("pair work"),
        0,
        11,
        d,
        0,
    )
    .unwrap();
    let mut week = Week::new(11, 2025, 2400);
    week.add_entry(existing);
    assert!(week.merge_day(&incoming));
    let merged = week.get_day_copy(&d).unwrap();
    assert!(merged.closed());
    assert_eq!(merged.starting_time(), Some(9 * 3600));
    assert_eq!(merged.ending_time(), Some(17 * 3600 + 30 * 60));
    assert_eq!(merged.hours(), 510);
    assert_eq!(merged.extra_info(), "pair work");
}

#[test]
fn week_merge_never_overwrites_set_fields() {
    let d = date(2025, 3, 10);
    let existing =
        Day::from_parts(Some(9 * 3600), None, 0, String::from("kept"), 0, 11, d, 15).unwrap();
    let incoming = Day::from_parts(
        Some(10 * 3600),
        Some(11 * 3600),
        0,
        String::from("ignored"),
        0,
        11,
        d,
        30,
    )
    .unwrap();
    let mut week = Week::new(11, 2025, 2400);
    week.add_entry(existing);
    assert!(week.merge_day(&incoming));
    let merged = week.get_day_copy(&d).unwrap();
    assert_eq!(merged.starting_time(), Some(9 * 3600));
    assert_eq!(merged.ending_time(), Some(11 * 3600));
    assert_eq!(merged.extra_info(), "kept");
    assert_eq!(merged.hours_paused(), 15);
    // The hours were computed with the existing day's pause.
    assert_eq!(merged.hours(), 120 - 15);
}

#[test]
fn week_merge_rejects_closed_day() {
    let d = date(2025, 3, 10);
    let closed = Day::from_parts(
        Some(9 * 3600),
        Some(17 * 3600),
        480,
        String::new(),
        0,
        11,
        d,
        0,
    )
    .unwrap();
    let incoming =
        Day::from_parts(None, None, 0, String::from("late note"), 0, 11, d, 0).unwrap();
    let mut week = Week::new(11, 2025, 2400);
    week.add_entry(closed);
    assert!(!week.merge_day(&incoming));
    let unchanged = week.get_day_copy(&d).unwrap();
    assert_eq!(unchanged.hours(), 480);
    assert_eq!(unchanged.extra_info(), "");
}

#[test]
fn week_merge_fails_for_unknown_date() {
    let mut week = Week::new(11, 2025, 2400);
    let incoming = open_day(date(2025, 3, 10));
    assert!(!week.merge_day(&incoming));
}

#[test]
fn closed_day_hours_stay_fixed_without_time_reset() {
    // Once closed, neither a new pause nor a new note recomputes the hours.
    let mut d = open_day(date(2025, 3, 10));
    d.set_starting_time(Some(9 * 3600));
    d.set_ending_time(Some(17 * 3600));
    assert_eq!(d.hours(), 480);
    d.set_paused_time(120);
    assert_eq!(d.hours(), 480);
    d.set_extra_info(String::from("later note"));
    assert_eq!(d.hours(), 480);
    // An explicit re-set of a time field does recompute.
    d.set_ending_time(Some(18 * 3600));
    assert_eq!(d.hours(), 540 - 120);
}

#[test]
fn week_membership_and_removal() {
    let d1 = date(2025, 3, 10);
    let d2 = date(2025, 3, 11);
    let mut week = Week::new(11, 2025, 2400);
    week.add_entry(open_day(d1));
    assert!(week.exist(&d1));
    assert!(!week.exist(&d2));
    assert!(week.contains_day(&open_day(d1)));
    assert!(week.get_day_copy(&d2).is_none());
    assert!(!week.remove_listed_day(&d2));
    assert!(week.remove_listed_day(&d1));
    assert!(!week.exist(&d1));
    assert_eq!(week.entries().len(), 0);
}

#[test]
fn week_getters() {
    let week = Week::new(7, 2024, 1800);
    assert_eq!(week.number(), 7);
    assert_eq!(week.year(), 2024);
    assert_eq!(week.target_hours(), 1800);
    assert!(week.entries().is_empty());
}

#[test]
fn entry_fields_and_description_default() {
    let e = Entry::new(6, Some(String::from("support")));
    assert_eq!(e.hours(), 6);
    assert_eq!(e.description(), "support");
    let bare = Entry::new(2, None);
    assert_eq!(bare.description(), "");
}

#[test]
fn project_entry_lifecycle() {
    let mut p = Project::new(String::from("alpha"), Some(String::from("first")));
    assert_eq!(p.name(), "alpha");
    assert_eq!(p.description(), Some("first"));
    assert_eq!(p.entries().len(), 0);
    let e = Entry::new(3, Some(String::from("work")));
    let id = e.id();
    p.add_entry(e);
    assert!(p.entry_exists(id));
    assert!(!p.entry_exists(id.wrapping_add(1)));
    let copy = p.get_entry_copy(id).unwrap();
    assert_eq!(copy.hours(), 3);
    assert!(p.get_entry_copy(id.wrapping_add(1)).is_none());
    assert!(!p.remove_listed_entry(id.wrapping_add(1)));
    assert_eq!(p.entries().len(), 1);
    assert!(p.remove_listed_entry(id));
    assert_eq!(p.entries().len(), 0);
}

#[test]
fn date_validation() {
    assert!(Date::new(2025, 3, 10).is_some());
    assert!(Date::new(2025, 0, 10).is_none());
    assert!(Date::new(2025, 13, 10).is_none());
    assert!(Date::new(2025, 3, 0).is_none());
    assert!(Date::new(2025, 3, 32).is_none());
}
