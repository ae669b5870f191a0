use std::path::PathBuf;

use parish::cache::ResponseCache;
use parish::debug::{debug_help, location_name, parse_debug_command, unknown_command_line, DebugCommand};
use parish::debug_panel::{
    DebugEvent, DebugEventCategory, DebugTab, DebugUiState, DEBUG_EVENT_CAPACITY,
};
use parish::inference::InferenceResponse;
use parish::input::take_submission;
use parish::npc::trimmed;
use parish::osm::{LocationType, RelationMember};
use parish::relationship::RelationshipKind;
use parish::screenshot::{
    clock_advance_minutes, populate_sample_content, screenshot_frame_step, screenshot_time,
    ScreenshotConfig, SCREENSHOT_COUNT,
};
use parish::world::{Festival, LocationId, Season, TimeOfDay, Weather};

#[test]
fn test_debug_ui_state_default() {
    let state = DebugUiState::default();
    assert_eq!(state.active_tab, DebugTab::World);
    assert!(state.selected_location.is_none());
    assert!(state.selected_npc.is_none());
    assert!(state.npc_filter.is_empty());
    assert!(state.location_filter.is_empty());
    assert!(state.event_log_auto_scroll);
    assert!(state.relationship_filter.is_empty());
}

#[test]
fn test_debug_event_category_display() {
    assert_eq!(DebugEventCategory::Movement.to_string(), "MOVE");
    assert_eq!(DebugEventCategory::Schedule.to_string(), "SCHED");
    assert_eq!(DebugEventCategory::Conversation.to_string(), "CHAT");
    assert_eq!(DebugEventCategory::TierChange.to_string(), "TIER");
    assert_eq!(DebugEventCategory::MoodChange.to_string(), "MOOD");
    assert_eq!(DebugEventCategory::Relationship.to_string(), "REL");
    assert_eq!(DebugEventCategory::Overheard.to_string(), "HEAR");
    assert_eq!(DebugEventCategory::System.to_string(), "SYS");
}

#[test]
fn test_debug_event_category_color() {
    let categories = [
        DebugEventCategory::Movement,
        DebugEventCategory::Schedule,
        DebugEventCategory::Conversation,
        DebugEventCategory::TierChange,
        DebugEventCategory::MoodChange,
        DebugEventCategory::Relationship,
        DebugEventCategory::Overheard,
        DebugEventCategory::System,
    ];
    for cat in &categories {
        assert_ne!(cat.color_rgb(), (0, 0, 0));
    }
    assert_eq!(DebugEventCategory::Movement.color_rgb(), (100, 180, 255));
    assert_eq!(DebugEventCategory::Relationship.color_rgb(), (255, 130, 130));
}

#[test]
fn test_debug_event_creation() {
    let event = DebugEvent {
        timestamp: "12:00".to_string(),
        category: DebugEventCategory::Movement,
        message: "Player moved to pub".to_string(),
    };
    assert_eq!(event.timestamp, "12:00");
    assert_eq!(event.category, DebugEventCategory::Movement);
    assert_eq!(event.message, "Player moved to pub");
}

#[test]
fn debug_panel_test_debug_event_capacity() {
    assert_eq!(DEBUG_EVENT_CAPACITY, 500);
}

#[test]
fn test_location_name_unknown() {
    assert_eq!(location_name(LocationId(999), None), "Location(999)");
}

#[test]
fn location_name_known() {
    assert_eq!(location_name(LocationId(3), Some("Darcy's Pub")), "Darcy's Pub");
    assert_eq!(location_name(LocationId(0), None), "Location(0)");
}

#[test]
fn test_screenshot_config_new() {
    let config = ScreenshotConfig::new(PathBuf::from("/tmp/screenshots"));
    assert_eq!(config.frame_count, 0);
    assert_eq!(config.current_index, 0);
    assert!(!config.pending_request);
    assert!(!config.saved);
    assert!(!config.is_done());
}

#[test]
fn test_screenshot_config_filename() {
    let config = ScreenshotConfig::new(PathBuf::from("/tmp"));
    assert_eq!(config.current_filename(), "gui-morning.png");
}

#[test]
fn test_screenshot_config_done() {
    let mut config = ScreenshotConfig::new(PathBuf::from("/tmp"));
    assert!(!config.is_done());
    config.current_index = SCREENSHOT_COUNT;
    assert!(config.is_done());
    assert_eq!(config.current_filename(), "gui-unknown.png");
    assert!(config.current_time().is_none());
}

#[test]
fn test_screenshot_times_coverage() {
    assert_eq!(SCREENSHOT_COUNT, 4);
    for i in 0..SCREENSHOT_COUNT {
        let (_tod, name, hour) = screenshot_time(i).unwrap();
        assert!(hour < 24, "invalid hour for {name}");
        assert!(!name.is_empty());
    }
    assert_eq!(screenshot_time(2), Some((TimeOfDay::Dusk, "dusk", 17)));
    assert!(screenshot_time(4).is_none());
}

#[test]
fn clock_advance_to_target_hour() {
    assert_eq!(clock_advance_minutes(12, 8), 240);
    assert_eq!(clock_advance_minutes(8, 8), 0);
    assert_eq!(clock_advance_minutes(8, 21), 11 * 60);
}

#[test]
fn screenshot_capture_sequence() {
    let mut config = ScreenshotConfig::new(PathBuf::from("/tmp"));
    // Frame 1: set the clock from 10:00 to the morning capture (08:00, next day).
    let a = screenshot_frame_step(&mut config, 10, false);
    assert!(!a.quit);
    assert_eq!(a.advance_minutes, 22 * 60);
    assert!(!a.request_screenshot && a.save_as.is_none());
    // Frame 2: nothing yet.
    let a = screenshot_frame_step(&mut config, 8, false);
    assert_eq!(a.advance_minutes, 0);
    assert!(!a.request_screenshot && !a.repaint);
    // Frame 3: ask for the screenshot.
    let a = screenshot_frame_step(&mut config, 8, false);
    assert!(a.request_screenshot && a.repaint);
    assert!(config.pending_request);
    // Frame 4: no image yet, keep repainting.
    let a = screenshot_frame_step(&mut config, 8, false);
    assert!(a.save_as.is_none() && a.repaint);
    // Frame 5: image arrived, save it.
    let a = screenshot_frame_step(&mut config, 8, true);
    assert_eq!(a.save_as.as_deref(), Some("gui-morning.png"));
    assert!(config.saved);
    // Next frame moves on to midday.
    let a = screenshot_frame_step(&mut config, 8, false);
    assert_eq!(config.current_index, 1);
    assert_eq!(config.frame_count, 1);
    assert_eq!(a.advance_minutes, 4 * 60);
    assert!(!config.saved && !config.pending_request);
}

#[test]
fn screenshot_capture_quits_after_last() {
    let mut config = ScreenshotConfig::new(PathBuf::from("/tmp"));
    config.current_index = SCREENSHOT_COUNT - 1;
    config.saved = true;
    config.frame_count = 7;
    let a = screenshot_frame_step(&mut config, 21, false);
    assert!(a.quit);
    assert!(config.is_done());
    let a = screenshot_frame_step(&mut config, 21, false);
    assert!(a.quit);
}

#[test]
fn test_populate_sample_content() {
    let mut log = vec!["old".to_string()];
    let hints = populate_sample_content(&mut log);
    assert!(!log.is_empty(), "text_log should be populated");
    assert!(!hints.is_empty(), "hints should be populated");
    for hint in &hints {
        assert!(!hint.word.is_empty());
        assert!(!hint.pronunciation.is_empty());
        assert!(hint.meaning.is_some());
    }
    assert_eq!(log[0], "— Kilteevan Village —");
    assert_eq!(log.len(), 18);
    assert!(!log.contains(&"old".to_string()));
}

#[test]
fn test_populate_sample_content_has_dialogue() {
    let mut log: Vec<String> = Vec::new();
    populate_sample_content(&mut log);
    let log_text = log.join("\n");
    assert!(log_text.contains("Seán Darcy"), "should contain NPC dialogue");
    assert!(log_text.contains("Dia dhuit"), "should contain Irish words");
    assert!(log_text.contains("Crossroads"), "should contain location names");
}

#[test]
fn test_location_type_indoor() {
    assert!(LocationType::Pub.is_indoor());
    assert!(LocationType::Church.is_indoor());
    assert!(LocationType::Shop.is_indoor());
    assert!(!LocationType::Crossroads.is_indoor());
    assert!(!LocationType::Farm.is_indoor());
    assert!(!LocationType::Bog.is_indoor());
}

#[test]
fn test_location_type_public() {
    assert!(LocationType::Pub.is_public());
    assert!(LocationType::Church.is_public());
    assert!(!LocationType::Farm.is_public());
}

#[test]
fn relation_member_fields() {
    let m = RelationMember { member_type: "way".to_string(), member_ref: 42, role: "outer".to_string() };
    assert_eq!(m.member_ref, 42);
    assert_eq!(m.role, "outer");
}

#[test]
fn cache_file_names_are_sanitized() {
    assert_eq!(ResponseCache::file_name("pois_Kiltoom_Parish"), "pois_Kiltoom_Parish.json");
    assert_eq!(ResponseCache::file_name("a b/c?d-e"), "a_b_c_d-e.json");
    assert_eq!(ResponseCache::file_name("Tíobháin"), "Tíobháin.json");
    assert_eq!(ResponseCache::file_name(""), ".json");
    let cache = ResponseCache::with_dir(PathBuf::from("/tmp/cache"));
    assert_eq!(cache.cache_dir(), &PathBuf::from("/tmp/cache"));
}

#[test]
fn test_relationship_kind_display() {
    assert_eq!(RelationshipKind::Family.to_string(), "Family");
    assert_eq!(RelationshipKind::Professional.to_string(), "Professional");
    assert_eq!(RelationshipKind::Neighbor.to_string(), "Neighbor");
}

#[test]
fn test_festival_display_values() {
    assert_eq!(Festival::Imbolc.to_string(), "Imbolc");
    assert_eq!(Festival::Bealtaine.to_string(), "Bealtaine");
    assert_eq!(Festival::Lughnasa.to_string(), "Lughnasa");
    assert_eq!(Festival::Samhain.to_string(), "Samhain");
}

#[test]
fn world_names() {
    assert_eq!(TimeOfDay::Midnight.to_string(), "Midnight");
    assert_eq!(Season::Autumn.to_string(), "Autumn");
    assert_eq!(Weather::Overcast.to_string(), "Overcast");
}

#[test]
fn test_input_trimming() {
    let input = trimmed("  go north  ");
    assert_eq!(input, "go north");
}

#[test]
fn test_empty_input_not_submitted() {
    let mut buffer = "   ".to_string();
    assert!(take_submission(&mut buffer).is_none());
    assert_eq!(buffer, "   ");
}

#[test]
fn test_input_buffer_clear() {
    let mut buffer = String::from("  hello ");
    assert_eq!(take_submission(&mut buffer).as_deref(), Some("hello"));
    assert!(buffer.is_empty());
}

#[test]
fn inference_response_from_outcome() {
    let ok = InferenceResponse::from_result(3, Ok("world".to_string()));
    assert_eq!(ok.id, 3);
    assert_eq!(ok.text, "world");
    assert!(ok.error.is_none());
    let err = InferenceResponse::from_result(4, Err("timeout".to_string()));
    assert_eq!(err.text, "");
    assert_eq!(err.error.as_deref(), Some("timeout"));
}

#[test]
fn test_debug_help() {
    let lines = debug_help();
    assert!(lines.len() >= 8);
    assert!(lines[0].contains("DEBUG COMMANDS"));
    assert_eq!(lines.len(), 9);
    assert_eq!(lines[8], "  /debug rels <name>      — NPC's relationships");
}

#[test]
fn debug_command_parsing() {
    assert_eq!(parse_debug_command(None), DebugCommand::Overview);
    assert_eq!(parse_debug_command(Some("npcs")), DebugCommand::Npcs);
    assert_eq!(parse_debug_command(Some("TIERS")), DebugCommand::Tiers);
    assert_eq!(parse_debug_command(Some("help")), DebugCommand::Help);
    assert_eq!(
        parse_debug_command(Some("schedule  Padraig O'Brien ")),
        DebugCommand::Schedule(Some("Padraig O'Brien".to_string()))
    );
    assert_eq!(parse_debug_command(Some("memory")), DebugCommand::Memory(None));
    assert_eq!(parse_debug_command(Some("rels siobhan")), DebugCommand::Relationships(Some("siobhan".to_string())));
    assert_eq!(parse_debug_command(Some("relationships")), DebugCommand::Relationships(None));
    assert_eq!(parse_debug_command(Some("Bogus thing")), DebugCommand::Unknown("bogus".to_string()));
    // A trailing space gives an empty argument.
    assert_eq!(parse_debug_command(Some("memory ")), DebugCommand::Memory(Some(String::new())));
}

#[test]
fn unknown_debug_command_reply() {
    let line = unknown_command_line("bogus");
    assert!(line.contains("Unknown debug command"));
    assert_eq!(line, "Unknown debug command: bogus. Try /debug help");
}
