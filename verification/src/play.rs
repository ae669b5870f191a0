//! Decisions of the play loop: when the idle world ticks by itself, when
//! the game autosaves, how much of a streaming reply may be shown, which
//! idle line is shown when nobody is there to talk to, and which
//! pronunciation hints are kept.

use vstd::prelude::*;

use vstd::string::StringSliceAdditionalSpecFns;
use vstd::utf8::*;

use crate::npc::{
    find_response_separator, floor_char_boundary, separator_bytes, LanguageHint,
    SEPARATOR_HOLDBACK,
};
use crate::text::utf8_len;

verus! {

/// Milliseconds without input (and since the last idle tick) after which
/// the world ticks by itself.
pub const IDLE_TICK_MILLIS: u64 = 20000;

/// Whole seconds between autosaves.
pub const AUTOSAVE_SECS: u64 = 45;

/// The most pronunciation hints kept in the sidebar.
pub const MAX_PRONUNCIATION_HINTS: usize = 20;

/// Number of idle lines.
pub const IDLE_MESSAGE_COUNT: usize = 7;

/// Whether the idle world ticks now: no reply is streaming, the player has
/// been idle and the last idle tick lies at least `IDLE_TICK_MILLIS` back,
/// and time is not paused.
pub fn idle_tick_due(since_input_ms: u64, since_last_tick_ms: u64, streaming: bool, paused: bool) -> (r:
    bool)
    ensures
        r == (!streaming && since_input_ms >= IDLE_TICK_MILLIS && since_last_tick_ms
            >= IDLE_TICK_MILLIS && !paused),
{
    !streaming && since_input_ms >= IDLE_TICK_MILLIS && since_last_tick_ms >= IDLE_TICK_MILLIS
        && !paused
}

/// Whether an autosave is due: never saved yet, or the last save lies at
/// least `AUTOSAVE_SECS` whole seconds back.
pub fn autosave_due(since_last_save_secs: Option<u64>) -> (r: bool)
    ensures
        r == match since_last_save_secs {
            Some(t) => t >= AUTOSAVE_SECS,
            None => true,
        },
{
    match since_last_save_secs {
        Some(t) => t >= AUTOSAVE_SECS,
        None => true,
    }
}

/// Whether `b` is the greatest character boundary of `bytes` not above
/// `pos` (for `pos` below the length).
pub open spec fn is_floor_boundary(bytes: Seq<u8>, pos: int, b: int) -> bool {
    &&& 0 <= b <= pos
    &&& is_char_boundary(bytes, b)
    &&& forall|q: int| b < q <= pos ==> !is_char_boundary(bytes, q)
}

/// The byte offset a streaming reply may be shown up to while no
/// separator has been seen: all but the last `SEPARATOR_HOLDBACK` bytes,
/// rounded down to a character boundary.
pub open spec fn holdback_floor(bytes: Seq<u8>) -> int {
    let raw = if bytes.len() >= SEPARATOR_HOLDBACK {
        bytes.len() - SEPARATOR_HOLDBACK
    } else {
        0
    };
    choose|b: int| is_floor_boundary(bytes, raw, b)
}

/// Only one offset is the floor boundary of a position.
proof fn lemma_floor_boundary_unique(bytes: Seq<u8>, pos: int, a: int, b: int)
    requires
        is_floor_boundary(bytes, pos, a),
        is_floor_boundary(bytes, pos, b),
    ensures
        a == b,
{
}

/// How far a streaming reply may be shown after a token arrived, given
/// the text so far, how much of it is shown and whether the separator was
/// already seen: the new shown length and whether the separator has now
/// been seen. Once the separator is seen nothing more is shown; when it
/// first appears, the dialogue before it is shown in full; until then the
/// last `SEPARATOR_HOLDBACK` bytes are held back, so that a separator
/// arriving in pieces never reaches the player.
pub fn stream_release(accumulated: &str, shown: usize, separator_found: bool) -> (r: (usize, bool))
    requires
        utf8_len(accumulated@) <= usize::MAX,
    ensures
        separator_found ==> r == (shown, true),
        !separator_found ==> match separator_bytes(accumulated@) {
            Some((d, _)) => r == (if d > shown {
                d
            } else {
                shown
            }, true),
            None => !r.1 && r.0 == (if holdback_floor(accumulated.spec_bytes()) > shown {
                holdback_floor(accumulated.spec_bytes())
            } else {
                shown as int
            }),
        },
{
    if separator_found {
        return (shown, true);
    }
    match find_response_separator(accumulated) {
        Some((d, _)) => {
            if d > shown {
                (d, true)
            } else {
                (shown, true)
            }
        },
        None => {
            let n = accumulated.len();
            let raw = if n >= SEPARATOR_HOLDBACK {
                n - SEPARATOR_HOLDBACK
            } else {
                0
            };
            let safe = floor_char_boundary(accumulated, raw);
            proof {
                let bytes = accumulated.spec_bytes();
                if raw >= bytes.len() {
                    assert(bytes.len() == 0);
                    assert(is_char_boundary(bytes, 0));
                    assert(is_floor_boundary(bytes, raw as int, 0));
                } else {
                    assert(is_floor_boundary(bytes, raw as int, safe as int));
                }
                let c = holdback_floor(bytes);
                lemma_floor_boundary_unique(bytes, raw as int, c, safe as int);
            }
            if safe > shown {
                (safe, false)
            } else {
                (shown, false)
            }
        },
    }
}

/// What is left to show when the stream ends: the rest of the text, when
/// no separator was seen.
pub fn stream_rest_start(len: usize, shown: usize, separator_found: bool) -> (r: Option<usize>)
    ensures
        r == (if !separator_found && shown < len {
            Some(shown)
        } else {
            None::<usize>
        }),
{
    if !separator_found && shown < len {
        Some(shown)
    } else {
        None
    }
}

/// The `i`-th idle line.
pub open spec fn spec_idle_message(i: int) -> Seq<char> {
    if i == 0 {
        "The wind stirs, but nothing else."@
    } else if i == 1 {
        "Only the sound of a distant crow."@
    } else if i == 2 {
        "A dog barks somewhere beyond the hill."@
    } else if i == 3 {
        "The clouds shift. The parish carries on."@
    } else if i == 4 {
        "Somewhere nearby, a door creaks shut."@
    } else if i == 5 {
        "A wren hops along the stone wall and vanishes."@
    } else {
        "The smell of turf smoke drifts from a cottage chimney."@
    }
}

/// The idle line shown for the `counter`-th time nobody is there to talk
/// to: the lines come round in turn.
pub fn idle_message(counter: usize) -> (r: &'static str)
    ensures
        r@ == spec_idle_message((counter % IDLE_MESSAGE_COUNT) as int),
{
    let i = counter % IDLE_MESSAGE_COUNT;
    if i == 0 {
        "The wind stirs, but nothing else."
    } else if i == 1 {
        "Only the sound of a distant crow."
    } else if i == 2 {
        "A dog barks somewhere beyond the hill."
    } else if i == 3 {
        "The clouds shift. The parish carries on."
    } else if i == 4 {
        "Somewhere nearby, a door creaks shut."
    } else if i == 5 {
        "A wren hops along the stone wall and vanishes."
    } else {
        "The smell of turf smoke drifts from a cottage chimney."
    }
}

/// The hints after a reply brought `new` ones: the new hints first, then
/// the old, the most recent `MAX_PRONUNCIATION_HINTS` kept. A reply without
/// hints leaves them as they are.
pub open spec fn hints_after(old: Seq<LanguageHint>, new: Seq<LanguageHint>) -> Seq<LanguageHint> {
    if new.len() == 0 {
        old
    } else if new.len() + old.len() <= MAX_PRONUNCIATION_HINTS {
        new + old
    } else {
        (new + old).take(MAX_PRONUNCIATION_HINTS as int)
    }
}

/// Takes in the pronunciation hints of a reply.
pub fn merge_hints(hints: &mut Vec<LanguageHint>, new: Vec<LanguageHint>)
    ensures
        final(hints)@ == hints_after(old(hints)@, new@),
{
    if new.len() == 0 {
        return ;
    }
    let mut merged = new;
    merged.append(hints);
    merged.truncate(MAX_PRONUNCIATION_HINTS);
    *hints = merged;
}

/// Law: however many hints arrive, at most `MAX_PRONUNCIATION_HINTS` are
/// kept, the newest come first, and the old ones follow in their order.
pub proof fn law_hints_bounded(old: Seq<LanguageHint>, new: Seq<LanguageHint>)
    requires
        old.len() <= MAX_PRONUNCIATION_HINTS,
    ensures
        hints_after(old, new).len() <= MAX_PRONUNCIATION_HINTS,
        forall|i: int|
            0 <= i < new.len() && i < MAX_PRONUNCIATION_HINTS ==> hints_after(old, new)[i]
                == new[i],
        forall|i: int|
            0 <= i < old.len() && new.len() + i < MAX_PRONUNCIATION_HINTS ==> hints_after(
                old,
                new,
            )[new.len() + i] == old[i],
{
}

} // verus!
