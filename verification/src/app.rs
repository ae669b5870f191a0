//! Scroll state of the main text panel and the bounded debug activity log.

use std::collections::VecDeque;

use vstd::prelude::*;

verus! {

/// Maximum number of entries in the debug activity log.
pub const DEBUG_LOG_CAPACITY: usize = 50;

/// The log after `msg` is pushed: the oldest entry goes first when the log
/// already holds `DEBUG_LOG_CAPACITY` entries or more.
pub open spec fn log_after_push(log: Seq<String>, msg: String) -> Seq<String> {
    (if log.len() >= DEBUG_LOG_CAPACITY {
        log.drop_first()
    } else {
        log
    }).push(msg)
}

/// Pushes an entry to the debug activity log (a ring buffer of
/// `DEBUG_LOG_CAPACITY` entries).
pub fn push_debug_log(log: &mut VecDeque<String>, msg: String)
    ensures
        final(log)@ == log_after_push(old(log)@, msg),
{
    if log.len() >= DEBUG_LOG_CAPACITY {
        log.pop_front();
    }
    log.push_back(msg);
}

/// Law: a log that holds at most `DEBUG_LOG_CAPACITY` entries still does
/// after a push, its newest entry is the one pushed, and the entries before
/// it are the newest of the old log, in order.
pub proof fn law_debug_log_bounded(log: Seq<String>, msg: String)
    requires
        log.len() <= DEBUG_LOG_CAPACITY,
    ensures
        log_after_push(log, msg).len() <= DEBUG_LOG_CAPACITY,
        log_after_push(log, msg).last() == msg,
        log_after_push(log, msg).drop_last() == log.skip(
            log.len() + 1 - log_after_push(log, msg).len(),
        ),
{
    let r = log_after_push(log, msg);
    if log.len() >= DEBUG_LOG_CAPACITY {
        assert(r.drop_last() == log.drop_first());
        assert(log.drop_first() == log.skip(1));
    } else {
        assert(r.drop_last() == log);
        assert(log.skip(0) == log);
    }
}

/// The offset after scrolling up by `lines` (saturating at `u16::MAX`).
pub open spec fn scrolled_up(offset: u16, lines: u16) -> u16 {
    if offset + lines > u16::MAX {
        u16::MAX
    } else {
        (offset + lines) as u16
    }
}

/// The offset after scrolling down by `lines` (saturating at the bottom, 0).
pub open spec fn scrolled_down(offset: u16, lines: u16) -> u16 {
    if offset >= lines {
        (offset - lines) as u16
    } else {
        0
    }
}

/// Law: scrolling down by as many lines as were scrolled up returns to the
/// same offset, unless scrolling up saturated.
pub proof fn law_scroll_round_trip(offset: u16, lines: u16)
    requires
        offset + lines <= u16::MAX,
    ensures
        scrolled_down(scrolled_up(offset, lines), lines) == offset,
{
}

/// Scroll state for the main text panel.
///
/// `offset` is the distance from the bottom in lines; `auto_scroll` says
/// whether new output is followed.
#[derive(Debug, Clone)]
pub struct ScrollState {
    /// Current scroll offset in lines from the bottom.
    pub offset: u16,
    /// Whether to auto-scroll to the bottom on new content.
    pub auto_scroll: bool,
}

impl ScrollState {
    /// Creates a new scroll state at the bottom with auto-scroll enabled.
    pub fn new() -> (s: Self)
        ensures
            s.offset == 0,
            s.auto_scroll,
    {
        ScrollState { offset: 0, auto_scroll: true }
    }

    /// Scrolls up by `lines` (saturating) and disables auto-scroll.
    pub fn scroll_up(&mut self, lines: u16)
        ensures
            final(self).offset == scrolled_up(old(self).offset, lines),
            !final(self).auto_scroll,
    {
        self.offset = self.offset.saturating_add(lines);
        self.auto_scroll = false;
    }

    /// Scrolls down by `lines` (saturating at the bottom); reaching the
    /// bottom re-enables auto-scroll. `max_offset` is not used here.
    pub fn scroll_down(&mut self, lines: u16, max_offset: u16)
        ensures
            final(self).offset == scrolled_down(old(self).offset, lines),
            final(self).auto_scroll == (final(self).offset == 0 || old(self).auto_scroll),
    {
        self.offset = self.offset.saturating_sub(lines);
        if self.offset == 0 {
            self.auto_scroll = true;
        }
    }

    /// Scrolls to the top (`max_offset`) and disables auto-scroll.
    pub fn scroll_to_top(&mut self, max_offset: u16)
        ensures
            final(self).offset == max_offset,
            !final(self).auto_scroll,
    {
        self.offset = max_offset;
        self.auto_scroll = false;
    }

    /// Scrolls to the bottom and re-enables auto-scroll.
    pub fn scroll_to_bottom(&mut self)
        ensures
            final(self).offset == 0,
            final(self).auto_scroll,
    {
        self.offset = 0;
        self.auto_scroll = true;
    }
}

impl Default for ScrollState {
    fn default() -> (s: Self)
        ensures
            s.offset == 0,
            s.auto_scroll,
    {
        Self::new()
    }
}

} // verus!
