//! Screenshot capture: the times of day captured, the capture state and
//! the per-frame decisions of the capture sequence, and the sample content
//! shown while capturing.

use std::path::PathBuf;

use vstd::prelude::*;

use crate::npc::LanguageHint;
use crate::text::{concat3, owned};
use crate::world::TimeOfDay;

verus! {

#[verifier::external_type_specification]
#[verifier::external_body]
pub struct ExPathBuf(PathBuf);

/// Number of times of day captured.
pub const SCREENSHOT_COUNT: usize = 4;

/// The `i`-th capture: time of day, file-name stem and clock hour.
pub open spec fn spec_screenshot_time(i: int) -> Option<(TimeOfDay, Seq<char>, u32)> {
    if i == 0 {
        Some((TimeOfDay::Morning, "morning"@, 8u32))
    } else if i == 1 {
        Some((TimeOfDay::Midday, "midday"@, 12u32))
    } else if i == 2 {
        Some((TimeOfDay::Dusk, "dusk"@, 17u32))
    } else if i == 3 {
        Some((TimeOfDay::Night, "night"@, 21u32))
    } else {
        None
    }
}

/// The `i`-th capture: time of day, file-name stem and clock hour; `None`
/// past the last one.
pub fn screenshot_time(i: usize) -> (r: Option<(TimeOfDay, &'static str, u32)>)
    ensures
        match r {
            Some((t, name, h)) => spec_screenshot_time(i as int) == Some((t, name@, h)),
            None => spec_screenshot_time(i as int) is None,
        },
{
    if i == 0 {
        Some((TimeOfDay::Morning, "morning", 8))
    } else if i == 1 {
        Some((TimeOfDay::Midday, "midday", 12))
    } else if i == 2 {
        Some((TimeOfDay::Dusk, "dusk", 17))
    } else if i == 3 {
        Some((TimeOfDay::Night, "night", 21))
    } else {
        None
    }
}

/// The file name of the `i`-th capture.
pub open spec fn spec_filename(i: int) -> Seq<char> {
    match spec_screenshot_time(i) {
        Some((_, name, _)) => "gui-"@ + name + ".png"@,
        None => "gui-unknown.png"@,
    }
}

/// Minutes the clock must advance from `current_hour` to reach
/// `target_hour`, the same day or the next.
pub open spec fn advance_minutes(target_hour: int, current_hour: int) -> int {
    if target_hour >= current_hour {
        (target_hour - current_hour) * 60
    } else {
        (24 - current_hour + target_hour) * 60
    }
}

/// Minutes the clock must advance from `current_hour` to reach
/// `target_hour`, the same day or the next.
pub fn clock_advance_minutes(target_hour: u32, current_hour: u32) -> (r: i64)
    requires
        target_hour < 24,
        current_hour < 24,
    ensures
        r == advance_minutes(target_hour as int, current_hour as int),
        0 <= r < 24 * 60,
{
    let t = target_hour as i64;
    let c = current_hour as i64;
    if t >= c {
        (t - c) * 60
    } else {
        (24 - c + t) * 60
    }
}

/// Law: advancing the clock by `advance_minutes` from whole hour
/// `current_hour` lands on `target_hour`, less than a day later.
pub proof fn law_advance_reaches_target(target_hour: int, current_hour: int)
    requires
        0 <= target_hour < 24,
        0 <= current_hour < 24,
    ensures
        advance_minutes(target_hour, current_hour) % 60 == 0,
        0 <= advance_minutes(target_hour, current_hour) < 24 * 60,
        (current_hour + advance_minutes(target_hour, current_hour) / 60) % 24 == target_hour,
{
    let a = advance_minutes(target_hour, current_hour);
    if target_hour >= current_hour {
        assert(a == (target_hour - current_hour) * 60);
        assert(a / 60 == target_hour - current_hour);
    } else {
        assert(a == (24 - current_hour + target_hour) * 60);
        assert(a / 60 == 24 - current_hour + target_hour);
        assert(current_hour + (24 - current_hour + target_hour) == 24 + target_hour);
    }
}

/// Configuration and progress of screenshot capture mode.
#[derive(Debug)]
pub struct ScreenshotConfig {
    /// Output directory for screenshots.
    pub output_dir: PathBuf,
    /// Frame counter (screenshots are requested after a few frames).
    pub frame_count: u32,
    /// Index of the current capture.
    pub current_index: usize,
    /// Whether a screenshot request is pending.
    pub pending_request: bool,
    /// Whether the current screenshot has been saved.
    pub saved: bool,
}

impl ScreenshotConfig {
    /// A capture configuration targeting `output_dir`, at its start.
    pub fn new(output_dir: PathBuf) -> (r: Self)
        ensures
            r.output_dir == output_dir,
            r.frame_count == 0,
            r.current_index == 0,
            !r.pending_request,
            !r.saved,
    {
        ScreenshotConfig {
            output_dir,
            frame_count: 0,
            current_index: 0,
            pending_request: false,
            saved: false,
        }
    }

    /// The file name of the current screenshot (`gui-<time>.png`, or
    /// `gui-unknown.png` past the last capture).
    pub fn current_filename(&self) -> (r: String)
        ensures
            r@ == spec_filename(self.current_index as int),
    {
        match screenshot_time(self.current_index) {
            Some((_, name, _)) => concat3("gui-", name, ".png"),
            None => owned("gui-unknown.png"),
        }
    }

    /// The current capture, if any is left.
    pub fn current_time(&self) -> (r: Option<(TimeOfDay, &'static str, u32)>)
        ensures
            match r {
                Some((t, name, h)) => spec_screenshot_time(self.current_index as int) == Some(
                    (t, name@, h),
                ),
                None => spec_screenshot_time(self.current_index as int) is None,
            },
    {
        screenshot_time(self.current_index)
    }

    /// Whether all screenshots have been captured.
    pub fn is_done(&self) -> (r: bool)
        ensures
            r == (self.current_index >= SCREENSHOT_COUNT),
    {
        self.current_index >= SCREENSHOT_COUNT
    }
}

/// What the frame loop does after one frame of capture mode.
#[derive(Debug, Clone)]
pub struct FrameAction {
    /// Capture is over: leave the program.
    pub quit: bool,
    /// Minutes to advance the game clock by (0: none).
    pub advance_minutes: i64,
    /// Ask the renderer for a screenshot.
    pub request_screenshot: bool,
    /// Save the captured image under this file name.
    pub save_as: Option<String>,
    /// Ask for another frame to be drawn.
    pub repaint: bool,
}

/// The counters after a frame: (frame count, index, pending, saved).
pub open spec fn frame_counters(c: ScreenshotConfig, captured: bool) -> (u32, usize, bool, bool) {
    let f = (c.frame_count + 1) as u32;
    if c.current_index >= SCREENSHOT_COUNT {
        (f, c.current_index, c.pending_request, c.saved)
    } else if c.saved {
        (1, (c.current_index + 1) as usize, false, false)
    } else if f == 3 && !c.pending_request {
        (f, c.current_index, true, false)
    } else if c.pending_request && captured {
        (f, c.current_index, true, true)
    } else {
        (f, c.current_index, c.pending_request, false)
    }
}

/// Decides one frame of capture mode.
///
/// Each capture sets the clock to its hour on its first frame, asks for a
/// screenshot on the third, and saves the image once it arrives; the next
/// frame moves to the next capture. `current_hour` is the game clock's
/// hour; `captured` says whether a screenshot image arrived this frame.
pub fn screenshot_frame_step(config: &mut ScreenshotConfig, current_hour: u32, captured: bool) -> (r:
    FrameAction)
    requires
        old(config).frame_count < u32::MAX,
        current_hour < 24,
    ensures
        final(config).output_dir == old(config).output_dir,
        (final(config).frame_count, final(config).current_index, final(config).pending_request,
            final(config).saved) == frame_counters(*old(config), captured),
        r.quit == (old(config).current_index >= SCREENSHOT_COUNT || (old(config).saved
            && old(config).current_index + 1 >= SCREENSHOT_COUNT)),
        r.advance_minutes == (if !r.quit && (old(config).frame_count == 0 || old(config).saved) {
            match spec_screenshot_time(final(config).current_index as int) {
                Some((_, _, h)) => advance_minutes(h as int, current_hour as int),
                None => 0,
            }
        } else {
            0
        }),
        r.request_screenshot == (!r.quit && !old(config).saved && old(config).frame_count + 1 == 3
            && !old(config).pending_request),
        match r.save_as {
            Some(name) => !r.quit && !old(config).saved && !r.request_screenshot
                && old(config).pending_request && captured && name@ == spec_filename(
                old(config).current_index as int,
            ),
            None => !(!r.quit && !old(config).saved && !r.request_screenshot
                && old(config).pending_request && captured),
        },
        r.repaint == (!r.quit && (r.request_screenshot || final(config).pending_request)),
{
    config.frame_count = config.frame_count + 1;
    if config.is_done() {
        return FrameAction {
            quit: true,
            advance_minutes: 0,
            request_screenshot: false,
            save_as: None,
            repaint: false,
        };
    }
    let mut advance: i64 = 0;
    if config.frame_count == 1 || config.saved {
        if config.saved {
            config.current_index = config.current_index + 1;
            config.pending_request = false;
            config.saved = false;
            config.frame_count = 1;
            if config.is_done() {
                return FrameAction {
                    quit: true,
                    advance_minutes: 0,
                    request_screenshot: false,
                    save_as: None,
                    repaint: false,
                };
            }
        }
        match config.current_time() {
            Some((_, _, hour)) => {
                advance = clock_advance_minutes(hour, current_hour);
            },
            None => {},
        }
    }
    if config.frame_count == 3 && !config.pending_request {
        config.pending_request = true;
        return FrameAction {
            quit: false,
            advance_minutes: advance,
            request_screenshot: true,
            save_as: None,
            repaint: true,
        };
    }
    let mut save_as: Option<String> = None;
    if config.pending_request && captured {
        save_as = Some(config.current_filename());
        config.saved = true;
    }
    FrameAction {
        quit: false,
        advance_minutes: advance,
        request_screenshot: false,
        save_as,
        repaint: config.pending_request,
    }
}

/// Number of lines of sample content.
pub const SAMPLE_LINE_COUNT: usize = 18;

/// The `i`-th line of sample content shown in screenshots.
pub open spec fn spec_sample_line(i: int) -> Seq<char> {
    if i == 0 {
        "— Kilteevan Village —"@
    } else if i == 1 {
        "The small village of Kilteevan — a handful of whitewashed cottages clustered around a well and an old stone bridge over a shallow stream. Smoke drifts from chimneys."@
    } else if i == 2 {
        "Seán Darcy is here."@
    } else if i == 3 {
        "Exits: The Crossroads (north), Murphy's Farm (east), Lough Ree Shore (south)"@
    } else if i == 5 {
        "> hello Seán"@
    } else if i == 6 {
        "Seán Darcy: (Looks up from sweeping the step) Dia dhuit, a chara! A fine soft morning, so it is. Will ye have a cup of tae? The kettle's only just boiled."@
    } else if i == 8 {
        "> tell me about the village"@
    } else if i == 9 {
        "Seán Darcy: (Leans on the broom) Ah, Cill Tíobháin — sure it's been here since before anyone can remember. The church above was built in the time of the Penal Laws, would ye believe. And that well there — they say Brigid herself blessed it."@
    } else if i == 11 {
        "> go to crossroads"@
    } else if i == 12 {
        "You walk along the road north past low fields to the crossroads. (6 minutes)"@
    } else if i == 14 {
        "— The Crossroads —"@
    } else if i == 15 {
        "A quiet crossroads where four narrow roads meet. A weathered stone wall lines the eastern side, half-hidden by brambles. The air smells of turf and wet grass."@
    } else if i == 16 {
        "Padraig O'Brien is here."@
    } else {
        ""@
    }
}

/// The `i`-th line of sample content shown in screenshots.
fn sample_line(i: usize) -> (r: &'static str)
    ensures
        r@ == spec_sample_line(i as int),
{
    if i == 0 {
        "— Kilteevan Village —"
    } else if i == 1 {
        "The small village of Kilteevan — a handful of whitewashed cottages clustered around a well and an old stone bridge over a shallow stream. Smoke drifts from chimneys."
    } else if i == 2 {
        "Seán Darcy is here."
    } else if i == 3 {
        "Exits: The Crossroads (north), Murphy's Farm (east), Lough Ree Shore (south)"
    } else if i == 5 {
        "> hello Seán"
    } else if i == 6 {
        "Seán Darcy: (Looks up from sweeping the step) Dia dhuit, a chara! A fine soft morning, so it is. Will ye have a cup of tae? The kettle's only just boiled."
    } else if i == 8 {
        "> tell me about the village"
    } else if i == 9 {
        "Seán Darcy: (Leans on the broom) Ah, Cill Tíobháin — sure it's been here since before anyone can remember. The church above was built in the time of the Penal Laws, would ye believe. And that well there — they say Brigid herself blessed it."
    } else if i == 11 {
        "> go to crossroads"
    } else if i == 12 {
        "You walk along the road north past low fields to the crossroads. (6 minutes)"
    } else if i == 14 {
        "— The Crossroads —"
    } else if i == 15 {
        "A quiet crossroads where four narrow roads meet. A weathered stone wall lines the eastern side, half-hidden by brambles. The air smells of turf and wet grass."
    } else if i == 16 {
        "Padraig O'Brien is here."
    } else {
        ""
    }
}

/// A pronunciation hint with a meaning.
fn hint(word: &str, pronunciation: &str, meaning: &str) -> (r: LanguageHint)
    ensures
        r.word@ == word@,
        r.pronunciation@ == pronunciation@,
        r.meaning matches Some(m) && m@ == meaning@,
{
    LanguageHint {
        word: owned(word),
        pronunciation: owned(pronunciation),
        meaning: Some(owned(meaning)),
    }
}

/// Replaces the text log with representative sample content (a village
/// description, dialogue with a villager and a walk to the crossroads) and
/// returns sample pronunciation hints for the words used in it.
pub fn populate_sample_content(text_log: &mut Vec<String>) -> (r: Vec<LanguageHint>)
    ensures
        final(text_log)@.len() == SAMPLE_LINE_COUNT,
        forall|i: int|
            0 <= i < SAMPLE_LINE_COUNT ==> (#[trigger] final(text_log)@[i])@ == spec_sample_line(i),
        r@.len() == 4,
        r@[0].word@ == "Dia dhuit"@,
        r@[0].pronunciation@ == "DEE-ah gwit"@,
        r@[0].meaning matches Some(m) && m@ == "Hello (lit. God to you)"@,
        r@[1].word@ == "a chara"@,
        r@[1].pronunciation@ == "ah KHAR-ah"@,
        r@[1].meaning matches Some(m) && m@ == "friend"@,
        r@[2].word@ == "tae"@,
        r@[2].pronunciation@ == "tay"@,
        r@[2].meaning matches Some(m) && m@ == "tea"@,
        r@[3].word@ == "Cill Tíobháin"@,
        r@[3].pronunciation@ == "kill tee-VAWN"@,
        r@[3].meaning matches Some(m) && m@ == "Kilteevan (church of St. Tíobhán)"@,
{
    text_log.clear();
    let mut i: usize = 0;
    while i < SAMPLE_LINE_COUNT
        invariant
            i <= SAMPLE_LINE_COUNT,
            text_log@.len() == i,
            forall|j: int| 0 <= j < i ==> (#[trigger] text_log@[j])@ == spec_sample_line(j),
        decreases SAMPLE_LINE_COUNT - i,
    {
        text_log.push(owned(sample_line(i)));
        i = i + 1;
    }
    let mut hints: Vec<LanguageHint> = Vec::new();
    hints.push(hint("Dia dhuit", "DEE-ah gwit", "Hello (lit. God to you)"));
    hints.push(hint("a chara", "ah KHAR-ah", "friend"));
    hints.push(hint("tae", "tay", "tea"));
    hints.push(hint("Cill Tíobháin", "kill tee-VAWN", "Kilteevan (church of St. Tíobhán)"));
    hints
}

} // verus!
