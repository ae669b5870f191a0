use parish::npc::LanguageHint;
use parish::play::{
    autosave_due, idle_message, idle_tick_due, merge_hints, stream_release, stream_rest_start,
    MAX_PRONUNCIATION_HINTS,
};

fn hint(word: &str) -> LanguageHint {
    LanguageHint { word: word.to_string(), pronunciation: String::new(), meaning: None }
}

#[test]
fn idle_world_ticks_after_twenty_seconds() {
    assert!(idle_tick_due(20_000, 20_000, false, false));
    assert!(!idle_tick_due(19_999, 60_000, false, false));
    assert!(!idle_tick_due(60_000, 19_999, false, false));
    assert!(!idle_tick_due(60_000, 60_000, true, false));
    assert!(!idle_tick_due(60_000, 60_000, false, true));
}

#[test]
fn autosave_every_forty_five_seconds() {
    assert!(autosave_due(None));
    assert!(!autosave_due(Some(44)));
    assert!(autosave_due(Some(45)));
    assert!(autosave_due(Some(300)));
}

#[test]
fn idle_messages_come_round_in_turn() {
    assert_eq!(idle_message(0), "The wind stirs, but nothing else.");
    assert_eq!(idle_message(6), "The smell of turf smoke drifts from a cottage chimney.");
    assert_eq!(idle_message(7), "The wind stirs, but nothing else.");
    assert_eq!(idle_message(9), "A dog barks somewhere beyond the hill.");
}

#[test]
fn newest_hints_first_and_at_most_twenty() {
    let mut hints: Vec<LanguageHint> = (0..15).map(|i| hint(&format!("old{}", i))).collect();
    merge_hints(&mut hints, vec![hint("sláinte"), hint("dia duit")]);
    assert_eq!(hints.len(), 17);
    assert_eq!(hints[0].word, "sláinte");
    assert_eq!(hints[1].word, "dia duit");
    assert_eq!(hints[2].word, "old0");
    let new: Vec<LanguageHint> = (0..10).map(|i| hint(&format!("new{}", i))).collect();
    merge_hints(&mut hints, new);
    assert_eq!(hints.len(), MAX_PRONUNCIATION_HINTS);
    assert_eq!(hints[0].word, "new0");
    assert_eq!(hints[10].word, "sláinte");
    assert_eq!(hints[19].word, "old7");
    merge_hints(&mut hints, Vec::new());
    assert_eq!(hints.len(), 20);
    assert_eq!(hints[0].word, "new0");
}

#[test]
fn streaming_holds_back_the_tail() {
    // Short text: everything is held back.
    assert_eq!(stream_release("Hello there", 0, false), (0, false));
    // Thirty bytes: all but the last twenty-four may be shown.
    let text = "a".repeat(30);
    assert_eq!(stream_release(&text, 0, false), (6, false));
    assert_eq!(stream_release(&text, 6, false), (6, false));
    // The cut never splits a character: 'é' takes bytes 5 and 6.
    let text = format!("abcdeé{}", "x".repeat(23));
    assert_eq!(stream_release(&text, 0, false), (5, false));
}

#[test]
fn streaming_stops_at_the_separator() {
    let text = "hello\n---\n{\"a\":1}";
    assert_eq!(stream_release(text, 0, false), (6, true));
    assert_eq!(stream_release(text, 2, true), (2, true));
    assert_eq!(stream_rest_start(text.len(), 2, true), None);
    assert_eq!(stream_rest_start(11, 4, false), Some(4));
    assert_eq!(stream_rest_start(11, 11, false), None);
}
