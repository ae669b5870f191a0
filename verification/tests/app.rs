use std::collections::VecDeque;

use parish::app::{push_debug_log, ScrollState, DEBUG_LOG_CAPACITY};

#[test]
fn test_scroll_state_new() {
    let scroll = ScrollState::new();
    assert_eq!(scroll.offset, 0);
    assert!(scroll.auto_scroll);
}

#[test]
fn test_scroll_up_disables_auto() {
    let mut scroll = ScrollState::new();
    scroll.scroll_up(5);
    assert_eq!(scroll.offset, 5);
    assert!(!scroll.auto_scroll);
}

#[test]
fn test_scroll_down_reenables_auto_at_bottom() {
    let mut scroll = ScrollState::new();
    scroll.scroll_up(3);
    assert!(!scroll.auto_scroll);

    scroll.scroll_down(3, 100);
    assert_eq!(scroll.offset, 0);
    assert!(scroll.auto_scroll);
}

#[test]
fn test_scroll_down_partial() {
    let mut scroll = ScrollState::new();
    scroll.scroll_up(10);
    scroll.scroll_down(3, 100);
    assert_eq!(scroll.offset, 7);
    assert!(!scroll.auto_scroll);
}

#[test]
fn test_scroll_down_clamps_at_zero() {
    let mut scroll = ScrollState::new();
    scroll.scroll_up(2);
    scroll.scroll_down(10, 100);
    assert_eq!(scroll.offset, 0);
    assert!(scroll.auto_scroll);
}

#[test]
fn test_scroll_to_top() {
    let mut scroll = ScrollState::new();
    scroll.scroll_to_top(50);
    assert_eq!(scroll.offset, 50);
    assert!(!scroll.auto_scroll);
}

#[test]
fn test_scroll_to_bottom() {
    let mut scroll = ScrollState::new();
    scroll.scroll_up(20);
    scroll.scroll_to_bottom();
    assert_eq!(scroll.offset, 0);
    assert!(scroll.auto_scroll);
}

#[test]
fn scroll_up_saturates() {
    let mut scroll = ScrollState::new();
    scroll.scroll_up(u16::MAX - 1);
    scroll.scroll_up(10);
    assert_eq!(scroll.offset, u16::MAX);
}

#[test]
fn scroll_round_trip() {
    let mut scroll = ScrollState::default();
    scroll.scroll_up(40);
    scroll.scroll_up(2);
    scroll.scroll_down(2, 0);
    assert_eq!(scroll.offset, 40);
}

#[test]
fn test_debug_event() {
    let mut log = VecDeque::new();
    push_debug_log(&mut log, "test event".to_string());
    assert_eq!(log.len(), 1);
    assert_eq!(log[0], "test event");
}

#[test]
fn app_test_debug_event_capacity() {
    let mut log = VecDeque::new();
    for i in 0..DEBUG_LOG_CAPACITY + 5 {
        push_debug_log(&mut log, format!("event {}", i));
    }
    assert_eq!(log.len(), DEBUG_LOG_CAPACITY);
    assert!(log[0].contains("event 5"));
    assert_eq!(log[DEBUG_LOG_CAPACITY - 1], "event 54");
}
