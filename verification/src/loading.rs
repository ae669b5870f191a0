//! Loading animation shown while waiting for language-model responses:
//! a cycling Celtic-cross spinner, Irish-themed phrases and colours.
//!
//! Time is measured in milliseconds since the animation was created.

use std::time::{Duration, Instant, SystemTime, UNIX_EPOCH};

use vstd::prelude::*;

use crate::fmt::{decimal, u64_to_string};
use crate::text::owned;

verus! {

/// Number of spinner frames.
pub const SPINNER_FRAME_COUNT: usize = 8;

/// Number of loading phrases.
pub const LOADING_PHRASE_COUNT: usize = 24;

/// Number of spinner colours.
pub const SPINNER_COLOR_COUNT: usize = 6;

/// How long each spinner frame is shown, in milliseconds.
pub const SPINNER_FRAME_MILLIS: u64 = 300;

/// How long each phrase (and colour) is shown, in milliseconds.
pub const PHRASE_MILLIS: u64 = 3000;

/// The spinner frames: thin, hollow, bold and back.
pub open spec fn spinner_frames() -> Seq<Seq<char>> {
    seq!["✢"@, "✙"@, "✛"@, "✜"@, "✚"@, "✜"@, "✛"@, "✙"@]
}

/// The loading phrases.
pub open spec fn loading_phrases() -> Seq<Seq<char>> {
    seq![
        "Pondering the craic..."@,
        "Consulting the sheep..."@,
        "Brewing a thought..."@,
        "Asking the wind..."@,
        "Checking with the crows..."@,
        "Reading the tea leaves..."@,
        "Warming up by the fire..."@,
        "Rummaging through the thatch..."@,
        "Having a think..."@,
        "Debating with the rain..."@,
        "Summoning the storyteller..."@,
        "Tuning the fiddle..."@,
        "Waiting on the kettle..."@,
        "Counting the stones..."@,
        "Muttering in Irish..."@,
        "Conferring with the bog..."@,
        "Herding stray notions..."@,
        "Stirring the porridge..."@,
        "Listening to the river..."@,
        "Polishing the words..."@,
        "Untangling the yarn..."@,
        "Feeding the donkey..."@,
        "Sweeping the hearth..."@,
        "Searching for the right word..."@,
    ]
}

/// The spinner colours (green, gold, blue, orange, lavender, mint).
pub open spec fn spinner_colors() -> Seq<(u8, u8, u8)> {
    seq![
        (72u8, 199u8, 142u8),
        (255u8, 200u8, 87u8),
        (100u8, 149u8, 237u8),
        (255u8, 160u8, 100u8),
        (180u8, 130u8, 255u8),
        (120u8, 220u8, 180u8),
    ]
}

/// The spinner frame at an index.
pub fn spinner_frame(i: usize) -> (r: &'static str)
    requires
        i < SPINNER_FRAME_COUNT,
    ensures
        r@ == spinner_frames()[i as int],
{
    match i {
        0 => "✢",
        1 => "✙",
        2 => "✛",
        3 => "✜",
        4 => "✚",
        5 => "✜",
        6 => "✛",
        _ => "✙",
    }
}

/// The loading phrase at an index.
pub fn loading_phrase(i: usize) -> (r: &'static str)
    requires
        i < LOADING_PHRASE_COUNT,
    ensures
        r@ == loading_phrases()[i as int],
{
    match i {
        0 => "Pondering the craic...",
        1 => "Consulting the sheep...",
        2 => "Brewing a thought...",
        3 => "Asking the wind...",
        4 => "Checking with the crows...",
        5 => "Reading the tea leaves...",
        6 => "Warming up by the fire...",
        7 => "Rummaging through the thatch...",
        8 => "Having a think...",
        9 => "Debating with the rain...",
        10 => "Summoning the storyteller...",
        11 => "Tuning the fiddle...",
        12 => "Waiting on the kettle...",
        13 => "Counting the stones...",
        14 => "Muttering in Irish...",
        15 => "Conferring with the bog...",
        16 => "Herding stray notions...",
        17 => "Stirring the porridge...",
        18 => "Listening to the river...",
        19 => "Polishing the words...",
        20 => "Untangling the yarn...",
        21 => "Feeding the donkey...",
        22 => "Sweeping the hearth...",
        _ => "Searching for the right word...",
    }
}

/// The spinner colour at an index.
pub fn spinner_color(i: usize) -> (r: (u8, u8, u8))
    requires
        i < SPINNER_COLOR_COUNT,
    ensures
        r == spinner_colors()[i as int],
{
    match i {
        0 => (72, 199, 142),
        1 => (255, 200, 87),
        2 => (100, 149, 237),
        3 => (255, 160, 100),
        4 => (180, 130, 255),
        _ => (120, 220, 180),
    }
}

#[verifier::external_type_specification]
#[verifier::external_body]
pub struct ExInstant(Instant);

/// The current instant, from `Instant::now`.
#[verifier::external_body]
fn instant_now() -> (r: Instant) {
    Instant::now()
}

/// The time elapsed since `start`, from `Instant::elapsed`.
///
/// Trusted to return some duration: it depends on the clock.
#[verifier::external_body]
fn elapsed_since(start: &Instant) -> (r: Duration) {
    start.elapsed()
}

/// The whole milliseconds of a duration, from `Duration::as_millis`.
///
/// Nothing is stated of the value: durations are opaque here.
#[verifier::external_body]
fn whole_millis(d: &Duration) -> (r: u128) {
    d.as_millis()
}

#[verifier::external_type_specification]
#[verifier::external_body]
pub struct ExSystemTime(SystemTime);

/// The current wall-clock time, from `SystemTime::now`.
#[verifier::external_body]
fn system_now() -> (r: SystemTime) {
    SystemTime::now()
}

/// The time since the Unix epoch, from `SystemTime::duration_since`
/// (`None` when the clock is before the epoch).
#[verifier::external_body]
fn since_epoch(t: &SystemTime) -> (r: Option<Duration>) {
    t.duration_since(UNIX_EPOCH).ok()
}

/// Milliseconds elapsed since `start`, saturating at `u64::MAX`.
///
/// Nothing is stated of the value: it is read from the clock.
fn millis_since(start: &Instant) -> (r: u64) {
    let ms = whole_millis(&elapsed_since(start));
    if ms > 18_446_744_073_709_551_615u128 {
        u64::MAX
    } else {
        ms as u64
    }
}

/// A seed from the wall clock: milliseconds since the Unix epoch modulo
/// the number of phrases (0 when the clock is before the epoch).
///
/// Only its range is stated: the value is read from the clock.
fn wall_clock_seed() -> (r: usize)
    ensures
        r < LOADING_PHRASE_COUNT,
{
    match since_epoch(&system_now()) {
        Some(d) => (whole_millis(&d) % 24u128) as usize,
        None => 0,
    }
}

/// Whether `new` is `old` advanced to the moment `now` (ms since
/// creation): the frame moves on once 300 ms have passed since it last
/// changed, the phrase and the colour once 3000 ms have.
pub open spec fn ticked(old: LoadingAnimation, new: LoadingAnimation, now: u64) -> bool {
    &&& if (if now >= old.last_frame_change() {
        now - old.last_frame_change()
    } else {
        0
    }) >= SPINNER_FRAME_MILLIS {
        new.frame() == (old.frame() + 1) % SPINNER_FRAME_COUNT as int && new.last_frame_change()
            == now
    } else {
        new.frame() == old.frame() && new.last_frame_change() == old.last_frame_change()
    }
    &&& if (if now >= old.last_phrase_change() {
        now - old.last_phrase_change()
    } else {
        0
    }) >= PHRASE_MILLIS {
        new.phrase_at() == (old.phrase_at() + 1) % LOADING_PHRASE_COUNT as int && new.color() == (
        old.color() + 1) % SPINNER_COLOR_COUNT as int && new.last_phrase_change() == now
    } else {
        new.phrase_at() == old.phrase_at() && new.color() == old.color()
            && new.last_phrase_change() == old.last_phrase_change()
    }
}

/// Animated loading indicator.
pub struct LoadingAnimation {
    frame_index: usize,
    phrase_index: usize,
    color_index: usize,
    last_frame_change_ms: u64,
    last_phrase_change_ms: u64,
    started: Instant,
}

impl LoadingAnimation {
    /// Indices stay within their tables.
    pub closed spec fn wf(&self) -> bool {
        &&& self.frame_index < SPINNER_FRAME_COUNT
        &&& self.phrase_index < LOADING_PHRASE_COUNT
        &&& self.color_index < SPINNER_COLOR_COUNT
    }

    /// Current spinner frame index.
    pub closed spec fn frame(&self) -> int {
        self.frame_index as int
    }

    /// Current phrase index.
    pub closed spec fn phrase_at(&self) -> int {
        self.phrase_index as int
    }

    /// Current colour index.
    pub closed spec fn color(&self) -> int {
        self.color_index as int
    }

    /// When the frame last changed (ms since creation).
    pub closed spec fn last_frame_change(&self) -> u64 {
        self.last_frame_change_ms
    }

    /// When the phrase last changed (ms since creation).
    pub closed spec fn last_phrase_change(&self) -> u64 {
        self.last_phrase_change_ms
    }

    /// An animation starting at frame 0, colour 0 and phrase `seed mod 24`.
    pub fn with_seed(seed: usize) -> (r: Self)
        ensures
            r.wf(),
            r.frame() == 0,
            r.color() == 0,
            r.phrase_at() == (seed % LOADING_PHRASE_COUNT) as int,
            r.last_frame_change() == 0,
            r.last_phrase_change() == 0,
    {
        LoadingAnimation {
            frame_index: 0,
            phrase_index: seed % LOADING_PHRASE_COUNT,
            color_index: 0,
            last_frame_change_ms: 0,
            last_phrase_change_ms: 0,
            started: instant_now(),
        }
    }

    /// Creates a new animation with a phrase picked by the wall clock.
    ///
    /// The starting phrase depends on the clock, so of it only that it is
    /// in range (`wf`) is stated; `with_seed` states it for a given seed.
    pub fn new() -> (r: Self)
        ensures
            r.wf(),
            r.frame() == 0,
            r.color() == 0,
            r.last_frame_change() == 0,
            r.last_phrase_change() == 0,
    {
        Self::with_seed(wall_clock_seed())
    }

    /// Advances the animation to a moment (ms since creation): the frame
    /// advances once 300 ms have passed since it last changed, the phrase
    /// and colour once 3000 ms have.
    pub fn tick_at(&mut self, now_ms: u64)
        requires
            old(self).wf(),
        ensures
            final(self).wf(),
            ticked(*old(self), *final(self), now_ms),
    {
        if now_ms.saturating_sub(self.last_frame_change_ms) >= SPINNER_FRAME_MILLIS {
            self.frame_index = (self.frame_index + 1) % SPINNER_FRAME_COUNT;
            self.last_frame_change_ms = now_ms;
        }
        if now_ms.saturating_sub(self.last_phrase_change_ms) >= PHRASE_MILLIS {
            self.phrase_index = (self.phrase_index + 1) % LOADING_PHRASE_COUNT;
            self.color_index = (self.color_index + 1) % SPINNER_COLOR_COUNT;
            self.last_phrase_change_ms = now_ms;
        }
    }

    /// Advances the animation by the elapsed wall-clock time: as `tick_at`
    /// does at some moment, the one the clock gives.
    pub fn tick(&mut self)
        requires
            old(self).wf(),
        ensures
            final(self).wf(),
            exists|now_ms: u64| ticked(*old(self), *final(self), now_ms),
    {
        let now = millis_since(&self.started);
        self.tick_at(now);
    }

    /// Current spinner frame index.
    pub fn frame_index(&self) -> (r: usize)
        ensures
            r == self.frame(),
    {
        self.frame_index
    }

    /// Current phrase index.
    pub fn phrase_index(&self) -> (r: usize)
        ensures
            r == self.phrase_at(),
    {
        self.phrase_index
    }

    /// Current colour index.
    pub fn color_index(&self) -> (r: usize)
        ensures
            r == self.color(),
    {
        self.color_index
    }

    /// When the frame last changed (ms since creation).
    pub fn last_frame_change_ms(&self) -> (r: u64)
        ensures
            r == self.last_frame_change(),
    {
        self.last_frame_change_ms
    }

    /// When the phrase last changed (ms since creation).
    pub fn last_phrase_change_ms(&self) -> (r: u64)
        ensures
            r == self.last_phrase_change(),
    {
        self.last_phrase_change_ms
    }

    /// The display string: spinner frame, a space, and the phrase.
    pub fn display_text(&self) -> (r: String)
        requires
            self.wf(),
        ensures
            r@ == spinner_frames()[self.frame()] + " "@ + loading_phrases()[self.phrase_at()],
    {
        let mut s = owned(spinner_frame(self.frame_index));
        s.append(" ");
        s.append(loading_phrase(self.phrase_index));
        s
    }

    /// The current spinner character.
    pub fn spinner_char(&self) -> (r: &'static str)
        requires
            self.wf(),
        ensures
            r@ == spinner_frames()[self.frame()],
    {
        spinner_frame(self.frame_index)
    }

    /// The current loading phrase.
    pub fn phrase(&self) -> (r: &'static str)
        requires
            self.wf(),
        ensures
            r@ == loading_phrases()[self.phrase_at()],
    {
        loading_phrase(self.phrase_index)
    }

    /// The current colour as `(R, G, B)`.
    pub fn current_color_rgb(&self) -> (r: (u8, u8, u8))
        requires
            self.wf(),
        ensures
            r == spinner_colors()[self.color()],
    {
        spinner_color(self.color_index % SPINNER_COLOR_COUNT)
    }

    /// The ANSI 24-bit foreground colour escape sequence of the current colour.
    pub fn current_color_ansi(&self) -> (r: String)
        requires
            self.wf(),
        ensures
            ({
                let (cr, cg, cb) = spinner_colors()[self.color()];
                r@ == "\x1b[38;2;"@ + decimal(cr as nat) + ";"@ + decimal(cg as nat) + ";"@
                    + decimal(cb as nat) + "m"@
            }),
    {
        let (cr, cg, cb) = self.current_color_rgb();
        let mut s = owned("\x1b[38;2;");
        let a = u64_to_string(cr as u64);
        s.append(a.as_str());
        s.append(";");
        let b = u64_to_string(cg as u64);
        s.append(b.as_str());
        s.append(";");
        let c = u64_to_string(cb as u64);
        s.append(c.as_str());
        s.append("m");
        s
    }
}

impl Default for LoadingAnimation {
    fn default() -> (r: Self)
        ensures
            r.wf(),
            r.frame() == 0,
            r.color() == 0,
    {
        Self::new()
    }
}

} // verus!
