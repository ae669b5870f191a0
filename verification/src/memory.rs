//! NPC short-term memory: a ring buffer of recent interactions and
//! observations, oldest first, holding at most `MEMORY_CAPACITY` entries.

use std::collections::VecDeque;

use vstd::prelude::*;

use crate::fmt::{two_digit_string, two_digits};
use crate::npc::NpcId;
use crate::text::owned;
use crate::world::LocationId;

verus! {

/// Maximum number of entries in short-term memory.
pub const MEMORY_CAPACITY: usize = 20;

/// A single memory entry recording something an NPC experienced.
#[derive(Debug)]
pub struct MemoryEntry {
    /// When this happened in game time, in seconds since the Unix epoch (UTC).
    pub timestamp: i64,
    /// What happened.
    pub content: String,
    /// NPCs involved in this event.
    pub participants: Vec<NpcId>,
    /// Where this happened.
    pub location: LocationId,
}

/// Seconds into the UTC day of a timestamp.
pub open spec fn second_of_day(ts: int) -> int {
    ts % 86400
}

/// `HH:MM` of a timestamp in UTC, as chrono's `%H:%M` prints it.
pub open spec fn hh_mm(ts: int) -> Seq<char> {
    let d = second_of_day(ts);
    two_digits((d / 3600) as nat) + seq![':'] + two_digits(((d % 3600) / 60) as nat)
}

fn seconds_into_day(ts: i64) -> (r: u64)
    ensures
        r == second_of_day(ts as int),
        r < 86400,
{
    if ts >= 0 {
        (ts as u64) % 86400
    } else {
        let neg = ((-(ts + 1)) as u64) % 86400;
        proof {
            let t = ts as int;
            let m = -(t + 1);
            assert(neg == m % 86400);
            assert((86399 - neg) == t % 86400) by (nonlinear_arith)
                requires
                    t < 0,
                    m == -(t + 1),
                    neg == m % 86400,
            ;
        }
        86399 - neg
    }
}

/// Formats a timestamp as `HH:MM` (UTC).
pub fn format_hh_mm(ts: i64) -> (r: String)
    ensures
        r@ == hh_mm(ts as int),
{
    let d = seconds_into_day(ts);
    let mut s = two_digit_string(d / 3600);
    s.append(":");
    let m = two_digit_string((d % 3600) / 60);
    s.append(m.as_str());
    proof {
        reveal_strlit(":");
    }
    s
}

/// The prompt line of one memory: `- [HH:MM] content`.
pub open spec fn memory_line(e: MemoryEntry) -> Seq<char> {
    "- ["@ + hh_mm(e.timestamp as int) + "] "@ + e.content@
}

/// Lines joined by newlines.
pub open spec fn join_lines(ls: Seq<Seq<char>>) -> Seq<char>
    decreases ls.len(),
{
    if ls.len() == 0 {
        Seq::empty()
    } else if ls.len() == 1 {
        ls[0]
    } else {
        join_lines(ls.drop_last()) + "\n"@ + ls.last()
    }
}

/// Ring buffer of recent NPC memories, ordered oldest to newest.
#[derive(Debug)]
pub struct ShortTermMemory {
    entries: VecDeque<MemoryEntry>,
}

impl View for ShortTermMemory {
    type V = Seq<MemoryEntry>;

    closed spec fn view(&self) -> Seq<MemoryEntry> {
        self.entries@
    }
}

/// The entries a memory keeps after `add(e)`: the newest `MEMORY_CAPACITY`.
pub open spec fn after_add(old: Seq<MemoryEntry>, e: MemoryEntry) -> Seq<MemoryEntry> {
    if old.len() >= MEMORY_CAPACITY {
        old.drop_first().push(e)
    } else {
        old.push(e)
    }
}

/// The `n` most recent entries, oldest first.
pub open spec fn spec_recent(s: Seq<MemoryEntry>, n: int) -> Seq<MemoryEntry> {
    if n >= s.len() {
        s
    } else {
        s.skip(s.len() - n)
    }
}

impl ShortTermMemory {
    /// The buffer never holds more than `MEMORY_CAPACITY` entries.
    pub open spec fn wf(&self) -> bool {
        self@.len() <= MEMORY_CAPACITY
    }

    /// Creates an empty short-term memory.
    pub fn new() -> (m: Self)
        ensures
            m@ == Seq::<MemoryEntry>::empty(),
            m.wf(),
    {
        ShortTermMemory { entries: VecDeque::with_capacity(MEMORY_CAPACITY) }
    }

    /// Adds a new memory entry, evicting the oldest if at capacity.
    pub fn add(&mut self, entry: MemoryEntry)
        requires
            old(self).wf(),
        ensures
            final(self).wf(),
            final(self)@ == after_add(old(self)@, entry),
    {
        if self.entries.len() >= MEMORY_CAPACITY {
            self.entries.pop_front();
        }
        self.entries.push_back(entry);
    }

    /// Returns the `n` most recent entries, newest last.
    pub fn recent(&self, n: usize) -> (r: Vec<&MemoryEntry>)
        ensures
            r@.len() == spec_recent(self@, n as int).len(),
            forall|i: int| 0 <= i < r@.len() ==> *r@[i] == spec_recent(self@, n as int)[i],
    {
        let len = self.entries.len();
        let skip = if len >= n {
            len - n
        } else {
            0
        };
        let mut r: Vec<&MemoryEntry> = Vec::new();
        let mut i = skip;
        while i < len
            invariant
                skip <= i <= len,
                len == self@.len(),
                skip == (if n >= len { 0 } else { len - n }),
                r@.len() == i - skip,
                forall|j: int| 0 <= j < r@.len() ==> *r@[j] == self@[skip + j],
            decreases len - i,
        {
            r.push(&self.entries[i]);
            i = i + 1;
        }
        r
    }

    /// Returns the number of stored entries.
    pub fn len(&self) -> (r: usize)
        ensures
            r == self@.len(),
    {
        self.entries.len()
    }

    /// Returns true if there are no stored entries.
    pub fn is_empty(&self) -> (r: bool)
        ensures
            r == (self@.len() == 0),
    {
        self.entries.len() == 0
    }

    /// Formats the `n` most recent memories as prompt context: one
    /// `- [HH:MM] content` line each, joined by newlines (empty when there
    /// are none).
    pub fn context_string(&self, n: usize) -> (r: String)
        ensures
            r@ == join_lines(spec_recent(self@, n as int).map_values(|e: MemoryEntry| memory_line(e))),
    {
        let recent = self.recent(n);
        let ghost lines = spec_recent(self@, n as int).map_values(|e: MemoryEntry| memory_line(e));
        let mut out = String::new();
        let mut i: usize = 0;
        while i < recent.len()
            invariant
                i <= recent@.len(),
                recent@.len() == lines.len(),
                lines == spec_recent(self@, n as int).map_values(|e: MemoryEntry| memory_line(e)),
                forall|j: int| 0 <= j < recent@.len() ==> *recent@[j] == spec_recent(
                    self@,
                    n as int,
                )[j],
                out@ == join_lines(lines.take(i as int)),
            decreases recent@.len() - i,
        {
            let e = recent[i];
            let mut line = owned("- [");
            let t = format_hh_mm(e.timestamp);
            line.append(t.as_str());
            line.append("] ");
            line.append(e.content.as_str());
            assert(line@ == lines[i as int]);
            if i > 0 {
                out.append("\n");
            }
            out.append(line.as_str());
            proof {
                let next = lines.take(i + 1);
                assert(next.drop_last() == lines.take(i as int));
                assert(next.last() == lines[i as int]);
                if i == 0 {
                    assert(next.len() == 1);
                }
            }
            i = i + 1;
        }
        assert(lines.take(lines.len() as int) == lines);
        out
    }
}

impl Default for ShortTermMemory {
    fn default() -> (m: Self)
        ensures
            m@ == Seq::<MemoryEntry>::empty(),
            m.wf(),
    {
        Self::new()
    }
}

/// Law: whatever was in memory, after `add(e)` the memory is well formed,
/// `e` is its newest entry, and it holds the newest `MEMORY_CAPACITY` of
/// the old entries followed by `e`.
pub proof fn law_add_keeps_newest(old: Seq<MemoryEntry>, e: MemoryEntry)
    requires
        old.len() <= MEMORY_CAPACITY,
    ensures
        after_add(old, e).len() <= MEMORY_CAPACITY,
        after_add(old, e).last() == e,
        after_add(old, e) == spec_recent(old.push(e), MEMORY_CAPACITY as int),
{
    if old.len() >= MEMORY_CAPACITY {
        assert(old.drop_first().push(e) =~= old.push(e).skip(1));
    }
}

} // verus!
