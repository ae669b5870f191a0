use chrono::{TimeZone, Utc};
use parish::schedule::{
    find_entry, hour_of_timestamp, timestamp_is_weekend, DailySchedule, NpcState, ScheduleEntry,
    SeasonKey, SeasonalOverrides,
};
use parish::world::{LocationId, Season};

fn entry(start: u8, end: u8, loc: u32, activity: &str) -> ScheduleEntry {
    ScheduleEntry {
        start_hour: start,
        end_hour: end,
        location: LocationId(loc),
        activity: activity.to_string(),
    }
}

fn make_schedule() -> DailySchedule {
    DailySchedule {
        weekday: vec![
            entry(6, 9, 1, "Morning routine at home"),
            entry(9, 17, 2, "Working at the pub"),
            entry(17, 23, 2, "Evening at the pub"),
        ],
        weekend: vec![entry(8, 12, 1, "Lie-in and breakfast"), entry(12, 23, 2, "Weekend at the pub")],
        overrides: SeasonalOverrides::new(),
    }
}

fn at(year: i32, month: u32, day: u32, hour: u32) -> i64 {
    Utc.with_ymd_and_hms(year, month, day, hour, 0, 0).unwrap().timestamp()
}

#[test]
fn test_schedule_weekday_morning() {
    let schedule = make_schedule();
    // 2026-03-20 is a Friday.
    let entry = schedule.current_entry(at(2026, 3, 20, 7), Season::Spring).unwrap();
    assert_eq!(entry.location, LocationId(1));
    assert!(entry.activity.contains("Morning"));
}

#[test]
fn test_schedule_weekday_work() {
    let schedule = make_schedule();
    let entry = schedule.current_entry(at(2026, 3, 20, 12), Season::Spring).unwrap();
    assert_eq!(entry.location, LocationId(2));
    assert!(entry.activity.contains("Working"));
}

#[test]
fn test_schedule_weekend() {
    let schedule = make_schedule();
    // 2026-03-21 is a Saturday.
    let entry = schedule.current_entry(at(2026, 3, 21, 10), Season::Spring).unwrap();
    assert_eq!(entry.location, LocationId(1));
    assert!(entry.activity.contains("Lie-in"));
}

#[test]
fn test_schedule_no_entry() {
    let schedule = make_schedule();
    assert!(schedule.current_entry(at(2026, 3, 20, 3), Season::Spring).is_none());
}

#[test]
fn test_schedule_desired_location() {
    let schedule = make_schedule();
    assert_eq!(schedule.desired_location(at(2026, 3, 20, 12), Season::Spring), Some(LocationId(2)));
}

#[test]
fn test_schedule_seasonal_override() {
    let mut schedule = make_schedule();
    schedule.overrides.insert(SeasonKey::Spring, vec![entry(6, 23, 5, "Spring farming")]);
    let entry = schedule.current_entry(at(2026, 3, 20, 12), Season::Spring).unwrap();
    assert_eq!(entry.location, LocationId(5));
    assert!(entry.activity.contains("Spring"));
}

#[test]
fn seasonal_override_only_in_its_season_and_hours() {
    let mut schedule = make_schedule();
    schedule.overrides.insert(SeasonKey::Summer, vec![entry(10, 11, 7, "Haymaking")]);
    // Other season: the weekday schedule decides.
    let e = schedule.current_entry(at(2026, 3, 20, 10), Season::Spring).unwrap();
    assert_eq!(e.location, LocationId(2));
    // Its season, covered hour: the override decides.
    let e = schedule.current_entry(at(2026, 7, 17, 10), Season::Summer).unwrap();
    assert_eq!(e.location, LocationId(7));
    // Its season, hour it does not cover: falls back.
    let e = schedule.current_entry(at(2026, 7, 17, 12), Season::Summer).unwrap();
    assert_eq!(e.location, LocationId(2));
}

#[test]
fn test_npc_state_present() {
    let state = NpcState::Present(LocationId(1));
    assert_eq!(state.location(), Some(LocationId(1)));
    assert!(state.is_at(LocationId(1)));
    assert!(!state.is_at(LocationId(2)));
}

#[test]
fn test_npc_state_in_transit() {
    let state = NpcState::InTransit {
        from: LocationId(1),
        to: LocationId(2),
        arrives_at: Utc::now().timestamp(),
    };
    assert_eq!(state.location(), None);
    assert!(!state.is_at(LocationId(1)));
}

#[test]
fn test_schedule_entry_wrapping_midnight() {
    let schedule = DailySchedule {
        weekday: vec![entry(22, 6, 1, "Sleeping")],
        weekend: vec![],
        overrides: SeasonalOverrides::new(),
    };
    let e = schedule.current_entry(at(2026, 3, 20, 23), Season::Spring).unwrap();
    assert!(e.activity.contains("Sleeping"));
    let e = schedule.current_entry(at(2026, 3, 20, 3), Season::Spring).unwrap();
    assert!(e.activity.contains("Sleeping"));
    assert!(schedule.current_entry(at(2026, 3, 20, 6), Season::Spring).is_none());
}

#[test]
fn first_covering_entry_wins() {
    let entries = vec![entry(8, 12, 1, "a"), entry(10, 14, 2, "b")];
    assert_eq!(find_entry(&entries, 11).unwrap().activity, "a");
    assert_eq!(find_entry(&entries, 12).unwrap().activity, "b");
    assert!(find_entry(&entries, 14).is_none());
}

#[test]
fn timestamp_helpers() {
    assert_eq!(hour_of_timestamp(at(2026, 3, 20, 17)), 17);
    assert!(!timestamp_is_weekend(at(2026, 3, 20, 12)));
    assert!(timestamp_is_weekend(at(2026, 3, 21, 12)));
    assert!(timestamp_is_weekend(at(2026, 3, 22, 12)));
    assert!(!timestamp_is_weekend(at(2026, 3, 23, 0)));
    // Before the epoch: 1820-03-20 was a Monday.
    assert!(!timestamp_is_weekend(at(1820, 3, 20, 9)));
    assert!(timestamp_is_weekend(at(1820, 3, 19, 9)));
    assert_eq!(hour_of_timestamp(at(1820, 3, 20, 9)), 9);
}

#[test]
fn test_season_key_from_season() {
    assert_eq!(SeasonKey::from(Season::Spring), SeasonKey::Spring);
    assert_eq!(SeasonKey::from(Season::Winter), SeasonKey::Winter);
}
