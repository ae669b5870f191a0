use parish::loading::{
    loading_phrase, spinner_color, spinner_frame, LoadingAnimation, LOADING_PHRASE_COUNT,
    PHRASE_MILLIS, SPINNER_COLOR_COUNT, SPINNER_FRAME_COUNT, SPINNER_FRAME_MILLIS,
};

#[test]
fn test_constants_not_empty() {
    assert!(SPINNER_FRAME_COUNT > 0);
    assert!(LOADING_PHRASE_COUNT > 0);
    assert!(SPINNER_COLOR_COUNT > 0);
    for i in 0..SPINNER_FRAME_COUNT {
        assert!(!spinner_frame(i).is_empty());
    }
    for i in 0..LOADING_PHRASE_COUNT {
        assert!(!loading_phrase(i).is_empty());
    }
}

#[test]
fn test_new_creates_valid_state() {
    let anim = LoadingAnimation::new();
    assert!(anim.frame_index() < SPINNER_FRAME_COUNT);
    assert!(anim.phrase_index() < LOADING_PHRASE_COUNT);
    assert_eq!(anim.color_index(), 0);
}

#[test]
fn test_tick_no_change_when_called_immediately() {
    let mut anim = LoadingAnimation::new();
    let initial_frame = anim.frame_index();
    let initial_phrase = anim.phrase_index();
    anim.tick();
    assert_eq!(anim.frame_index(), initial_frame);
    assert_eq!(anim.phrase_index(), initial_phrase);
}

#[test]
fn test_frame_advances_after_duration() {
    let mut anim = LoadingAnimation::new();
    let initial_frame = anim.frame_index();
    anim.tick_at(SPINNER_FRAME_MILLIS);
    assert_eq!(anim.frame_index(), (initial_frame + 1) % SPINNER_FRAME_COUNT);
}

#[test]
fn frame_does_not_advance_early() {
    let mut anim = LoadingAnimation::with_seed(0);
    anim.tick_at(SPINNER_FRAME_MILLIS - 1);
    assert_eq!(anim.frame_index(), 0);
    assert_eq!(anim.last_frame_change_ms(), 0);
    anim.tick_at(SPINNER_FRAME_MILLIS);
    assert_eq!(anim.frame_index(), 1);
    assert_eq!(anim.last_frame_change_ms(), SPINNER_FRAME_MILLIS);
}

#[test]
fn test_phrase_advances_after_duration() {
    let mut anim = LoadingAnimation::new();
    let initial_phrase = anim.phrase_index();
    anim.tick_at(PHRASE_MILLIS);
    let expected = (initial_phrase + 1) % LOADING_PHRASE_COUNT;
    assert_eq!(anim.phrase_index(), expected);
}

#[test]
fn test_color_changes_with_phrase() {
    let mut anim = LoadingAnimation::new();
    assert_eq!(anim.color_index(), 0);
    anim.tick_at(PHRASE_MILLIS);
    assert_eq!(anim.color_index(), 1);
}

#[test]
fn test_frame_wraps_around() {
    let mut anim = LoadingAnimation::new();
    for k in 1..=SPINNER_FRAME_COUNT as u64 {
        anim.tick_at(k * SPINNER_FRAME_MILLIS);
    }
    assert!(anim.frame_index() < SPINNER_FRAME_COUNT);
    assert_eq!(anim.frame_index(), 0);
}

#[test]
fn test_phrase_wraps_around() {
    let mut anim = LoadingAnimation::with_seed(5);
    for k in 1..=LOADING_PHRASE_COUNT as u64 {
        anim.tick_at(k * PHRASE_MILLIS);
    }
    assert!(anim.phrase_index() < LOADING_PHRASE_COUNT);
    assert_eq!(anim.phrase_index(), 5);
    assert_eq!(anim.color_index(), LOADING_PHRASE_COUNT % SPINNER_COLOR_COUNT);
}

#[test]
fn test_display_text_contains_spinner_and_phrase() {
    let anim = LoadingAnimation::new();
    let text = anim.display_text();
    assert!((0..SPINNER_FRAME_COUNT).any(|i| text.contains(spinner_frame(i))));
    assert!(text.contains(loading_phrase(anim.phrase_index())));
}

#[test]
fn test_display_text_format() {
    let anim = LoadingAnimation::new();
    let text = anim.display_text();
    assert!(text.contains(' '));
    assert!(text.ends_with("..."));
}

#[test]
fn display_text_exact() {
    let anim = LoadingAnimation::with_seed(26);
    assert_eq!(anim.display_text(), "✢ Brewing a thought...");
    assert_eq!(anim.spinner_char(), "✢");
    assert_eq!(anim.phrase(), "Brewing a thought...");
}

#[test]
fn test_current_color_rgb_returns_tuple() {
    let anim = LoadingAnimation::new();
    let (r, g, b) = anim.current_color_rgb();
    assert_eq!((r, g, b), (72, 199, 142));
}

#[test]
fn test_current_color_ansi_format() {
    let anim = LoadingAnimation::new();
    let ansi = anim.current_color_ansi();
    assert!(ansi.starts_with("\x1b[38;2;"));
    assert!(ansi.ends_with('m'));
}

#[test]
fn current_color_ansi_exact() {
    let anim = LoadingAnimation::new();
    assert_eq!(anim.current_color_ansi(), "\x1b[38;2;72;199;142m");
    assert_eq!(spinner_color(1), (255, 200, 87));
}

#[test]
fn test_default_matches_new() {
    let a = LoadingAnimation::new();
    let b = LoadingAnimation::default();
    assert_eq!(a.frame_index(), b.frame_index());
    assert_eq!(a.color_index(), b.color_index());
}
