use std::collections::HashSet;

use parish::npc::{
    build_tier1_system_prompt,
    find_response_separator, floor_char_boundary, response_from_action, response_from_parts,
    response_from_plain_text, split_npc_response, trimmed, IrishWordHint, NpcAction, NpcId,
    NpcMetadata, SEPARATOR_HOLDBACK,
};
use parish::schedule::default_npc_state;
use parish::world::LocationId;

#[test]
fn test_find_response_separator_exact() {
    let text = "hello\n---\n{\"a\":1}";
    let (d_end, m_start) = find_response_separator(text).unwrap();
    assert_eq!(&text[..d_end], "hello\n");
    assert!(text[m_start..].trim().starts_with('{'));
}

#[test]
fn test_find_response_separator_with_spaces() {
    let text = "hello\n  ---  \n{\"a\":1}";
    let result = find_response_separator(text);
    assert!(result.is_some());
}

#[test]
fn test_find_response_separator_none() {
    assert!(find_response_separator("no separator here").is_none());
}

#[test]
fn test_find_response_separator_inline() {
    let text = "(smiles) --- {\"action\": \"speaks\", \"mood\": \"content\"}";
    let (d_end, m_start) = find_response_separator(text).unwrap();
    assert_eq!(&text[..d_end], "(smiles)");
    assert!(text[m_start..].trim().starts_with('{'));
}

#[test]
fn test_find_response_separator_inline_with_newline() {
    let text = "(smiles) ---\n{\"action\": \"speaks\"}";
    let (d_end, m_start) = find_response_separator(text).unwrap();
    assert_eq!(&text[..d_end], "(smiles)");
    assert!(text[m_start..].trim().starts_with('{'));
}

#[test]
fn separator_offsets_are_byte_offsets() {
    // "Dia dhuit" with a fada before the separator: offsets count bytes.
    let text = "Slán\n---\n{}";
    let (d_end, m_start) = find_response_separator(text).unwrap();
    assert_eq!(d_end, 6);
    assert_eq!(m_start, 10);
    assert_eq!(&text[m_start..], "{}");
}

#[test]
fn test_floor_char_boundary_ascii() {
    let s = "hello";
    assert_eq!(floor_char_boundary(s, 3), 3);
}

#[test]
fn test_floor_char_boundary_multibyte() {
    let s = "ab\u{2014}cd";
    assert_eq!(floor_char_boundary(s, 3), 2);
    assert_eq!(floor_char_boundary(s, 4), 2);
    assert_eq!(floor_char_boundary(s, 5), 5);
}

#[test]
fn test_floor_char_boundary_at_len() {
    let s = "hello";
    assert_eq!(floor_char_boundary(s, 10), 5);
}

#[test]
fn floor_char_boundary_is_boundary() {
    let s = "Tíobháin — ok";
    for pos in 0..=s.len() + 2 {
        let b = floor_char_boundary(s, pos);
        assert!(b <= pos && s.is_char_boundary(b));
        assert!(b + 4 > pos.min(s.len()));
    }
}

#[test]
fn test_separator_holdback_sufficient() {
    assert!(SEPARATOR_HOLDBACK >= 20);
}

#[test]
fn test_npc_id_hash() {
    let mut set = HashSet::new();
    set.insert(NpcId(1));
    set.insert(NpcId(2));
    assert_eq!(set.len(), 2);
}

#[test]
fn test_default_npc_state() {
    let state = default_npc_state();
    assert!(state.is_at(LocationId(1)));
}

#[test]
fn split_with_separator() {
    let text = "(Looks up) Ah, good morning to ye!\n---\n{\"action\": \"speaks\", \"mood\": \"friendly\"}";
    let (dialogue, meta) = split_npc_response(text).unwrap();
    assert_eq!(dialogue, "(Looks up) Ah, good morning to ye!");
    assert_eq!(meta, "{\"action\": \"speaks\", \"mood\": \"friendly\"}");
}

#[test]
fn split_with_indented_separator() {
    let text = "Good morning to ye!\n  ---\n {\"action\": \"speaks\", \"mood\": \"friendly\"}";
    let (dialogue, meta) = split_npc_response(text).unwrap();
    assert_eq!(dialogue, "Good morning to ye!");
    assert_eq!(meta, "{\"action\": \"speaks\", \"mood\": \"friendly\"}");
}

#[test]
fn split_without_separator() {
    assert!(split_npc_response("Just talking, no metadata.").is_none());
    assert!(split_npc_response("").is_none());
}

#[test]
fn plain_text_response_is_trimmed() {
    let r = response_from_plain_text("  Grand day.\n");
    assert_eq!(r.dialogue, "Grand day.");
    assert!(r.metadata.is_none());
    assert_eq!(trimmed("\t x \n"), "x");
}

#[test]
fn response_from_parts_and_action() {
    let meta = NpcMetadata { action: "speaks".to_string(), mood: "friendly".to_string(), internal_thought: None };
    let r = response_from_parts("Hello".to_string(), Some(meta));
    assert_eq!(r.dialogue, "Hello");
    assert_eq!(r.metadata.unwrap().mood, "friendly");

    let action = NpcAction {
        action: "nods".to_string(),
        target: None,
        dialogue: None,
        mood: "calm".to_string(),
        internal_thought: Some("hm".to_string()),
    };
    let r = response_from_action(action);
    assert_eq!(r.dialogue, "");
    let m = r.metadata.unwrap();
    assert_eq!(m.action, "nods");
    assert_eq!(m.mood, "calm");
    assert_eq!(m.internal_thought.as_deref(), Some("hm"));
}

#[test]
fn test_hint_display_fields() {
    let hint = IrishWordHint {
        word: "sláinte".to_string(),
        pronunciation: "SLAWN-cha".to_string(),
        meaning: Some("Health/cheers".to_string()),
    };
    assert_eq!(hint.word, "sláinte");
    assert_eq!(hint.pronunciation, "SLAWN-cha");
    assert!(hint.meaning.is_some());
}

#[test]
fn test_hint_without_meaning() {
    let hint = IrishWordHint {
        word: "craic".to_string(),
        pronunciation: "crack".to_string(),
        meaning: None,
    };
    assert!(hint.meaning.is_none());
}

#[test]
fn test_build_system_prompt() {
    let prompt = build_tier1_system_prompt(
        "Padraig O'Brien",
        58,
        "Publican",
        "A gruff but warm-hearted publican who has run the crossroads pub for thirty years.",
        "content",
    );
    assert!(prompt.contains("Padraig O'Brien"));
    assert!(prompt.contains("58-year-old"));
    assert!(prompt.contains("Publican"));
    assert!(prompt.contains("content"));
    assert!(prompt.contains("---"));
    assert!(prompt.contains("JSON metadata"));
    assert!(prompt.starts_with(
        "You are Padraig O'Brien, a 58-year-old Publican in a small parish in County Roscommon, Ireland.\n\nPersonality: A gruff"
    ));
    assert!(prompt.ends_with("---\n{\"action\": \"speaks warmly\", \"mood\": \"friendly\", \"internal_thought\": \"New face around here\"}"));
}

#[test]
fn system_prompt_example_follows_its_own_format() {
    let prompt = build_tier1_system_prompt("A", 1, "B", "C", "D");
    let example = prompt.split("Example response:\n").nth(1).unwrap();
    let (d_end, m_start) = find_response_separator(example).unwrap();
    assert!(example[..d_end].starts_with("(Looks up"));
    assert!(example[m_start..].starts_with('{'));
}
