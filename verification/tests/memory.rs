use chrono::{TimeZone, Utc};
use parish::memory::{format_hh_mm, MemoryEntry, ShortTermMemory, MEMORY_CAPACITY};
use parish::npc::NpcId;
use parish::world::LocationId;

fn make_entry(hour: u32, content: &str) -> MemoryEntry {
    MemoryEntry {
        timestamp: Utc.with_ymd_and_hms(1820, 3, 20, hour, 0, 0).unwrap().timestamp(),
        content: content.to_string(),
        participants: vec![NpcId(1)],
        location: LocationId(1),
    }
}

#[test]
fn test_memory_add_and_len() {
    let mut mem = ShortTermMemory::new();
    assert!(mem.is_empty());
    assert_eq!(mem.len(), 0);

    mem.add(make_entry(8, "Opened the pub"));
    assert_eq!(mem.len(), 1);
    assert!(!mem.is_empty());
}

#[test]
fn test_memory_eviction_at_capacity() {
    let mut mem = ShortTermMemory::new();
    for i in 0..25 {
        mem.add(make_entry(8, &format!("Event {}", i)));
    }
    assert_eq!(mem.len(), MEMORY_CAPACITY);
    let recent = mem.recent(MEMORY_CAPACITY);
    assert_eq!(recent[0].content, "Event 5");
    assert_eq!(recent[MEMORY_CAPACITY - 1].content, "Event 24");
}

#[test]
fn test_memory_recent() {
    let mut mem = ShortTermMemory::new();
    for i in 0..10 {
        mem.add(make_entry(8, &format!("Event {}", i)));
    }

    let recent = mem.recent(3);
    assert_eq!(recent.len(), 3);
    assert_eq!(recent[0].content, "Event 7");
    assert_eq!(recent[1].content, "Event 8");
    assert_eq!(recent[2].content, "Event 9");
}

#[test]
fn test_memory_recent_more_than_available() {
    let mut mem = ShortTermMemory::new();
    mem.add(make_entry(8, "Only one"));

    let recent = mem.recent(5);
    assert_eq!(recent.len(), 1);
    assert_eq!(recent[0].content, "Only one");
}

#[test]
fn test_memory_context_string() {
    let mut mem = ShortTermMemory::new();
    mem.add(make_entry(8, "Opened the pub"));
    mem.add(make_entry(9, "Spoke with a traveller"));

    let ctx = mem.context_string(5);
    assert!(ctx.contains("[08:00] Opened the pub"));
    assert!(ctx.contains("[09:00] Spoke with a traveller"));
}

#[test]
fn memory_context_string_exact() {
    let mut mem = ShortTermMemory::new();
    mem.add(make_entry(8, "Opened the pub"));
    mem.add(make_entry(9, "Spoke with a traveller"));
    mem.add(make_entry(23, "Closed up"));
    assert_eq!(
        mem.context_string(2),
        "- [09:00] Spoke with a traveller\n- [23:00] Closed up"
    );
}

#[test]
fn test_memory_context_string_empty() {
    let mem = ShortTermMemory::new();
    assert_eq!(mem.context_string(5), "");
}

#[test]
fn test_memory_default() {
    let mem = ShortTermMemory::default();
    assert!(mem.is_empty());
}

#[test]
fn test_memory_preserves_participants() {
    let mut mem = ShortTermMemory::new();
    let entry = MemoryEntry {
        timestamp: Utc.with_ymd_and_hms(1820, 3, 20, 10, 0, 0).unwrap().timestamp(),
        content: "Joint conversation".to_string(),
        participants: vec![NpcId(1), NpcId(2), NpcId(3)],
        location: LocationId(2),
    };
    mem.add(entry);

    let recent = mem.recent(1);
    assert_eq!(recent[0].participants.len(), 3);
    assert_eq!(recent[0].location, LocationId(2));
}

#[test]
fn hh_mm_before_and_after_epoch() {
    assert_eq!(format_hh_mm(0), "00:00");
    assert_eq!(format_hh_mm(-60), "23:59");
    assert_eq!(format_hh_mm(86399), "23:59");
    let ts = Utc.with_ymd_and_hms(1820, 3, 20, 14, 35, 9).unwrap().timestamp();
    assert_eq!(format_hh_mm(ts), "14:35");
}
