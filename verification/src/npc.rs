//! NPC identity and the text protocol of NPC responses.
//!
//! An NPC's language-model response is dialogue, a `---` separator and a
//! JSON metadata block. The functions here find the separator and split
//! a response; decoding the JSON is left to the caller.

use vstd::prelude::*;
use vstd::string::StringSliceAdditionalSpecFns;
use vstd::utf8::*;

use crate::fmt::{decimal, u64_to_string};
use crate::text::{
    byte_offset, chars_of, find_from, find_pattern, lemma_find_from, lemma_str_len, matches_at,
    string_of_range, trim, trim_bounds, utf8_len,
};

verus! {

/// Maximum number of bytes to hold back during streaming to detect the
/// separator pattern.
pub const SEPARATOR_HOLDBACK: usize = 24;

/// Unique identifier for an NPC.
#[derive(Debug, Clone, Copy, PartialEq, Eq, Hash, Structural)]
pub struct NpcId(pub u32);

/// Rounds a byte offset down to the nearest UTF-8 char boundary in `s`.
///
/// Offsets at or past the end give `s.len()`; otherwise the result is the
/// greatest char boundary not above `pos` (0 is always one).
pub fn floor_char_boundary(s: &str, pos: usize) -> (r: usize)
    requires
        utf8_len(s@) <= usize::MAX,
    ensures
        pos >= s.spec_bytes().len() ==> r == s.spec_bytes().len(),
        pos < s.spec_bytes().len() ==> {
            &&& r <= pos
            &&& is_char_boundary(s.spec_bytes(), r as int)
            &&& forall|q: int| r < q <= pos ==> !is_char_boundary(s.spec_bytes(), q)
        },
{
    proof {
        encode_utf8_valid_utf8(s@);
    }
    if pos >= s.len() {
        return s.len();
    }
    let mut p = pos;
    while p > 0 && !s.is_char_boundary(p)
        invariant
            p <= pos < s.spec_bytes().len(),
            forall|q: int| p < q <= pos ==> !is_char_boundary(s.spec_bytes(), q),
            valid_utf8(s.spec_bytes()),
        decreases p,
    {
        p = p - 1;
    }
    proof {
        if p == 0 {
            assert(is_char_boundary(s.spec_bytes(), 0));
        }
    }
    p
}

/// Index of the first `'\n'` at or after `start`, or `s.len()`.
pub open spec fn line_end(s: Seq<char>, start: int) -> int
    decreases s.len() - start,
{
    if start >= s.len() {
        s.len() as int
    } else if s[start] == '\n' {
        start
    } else {
        line_end(s, start + 1)
    }
}

/// `line_end` lies between `start` and the end.
pub proof fn lemma_line_end(s: Seq<char>, start: int)
    requires
        0 <= start <= s.len(),
    ensures
        start <= line_end(s, start) <= s.len(),
        line_end(s, start) < s.len() ==> s[line_end(s, start)] == '\n',
        forall|k: int| start <= k < line_end(s, start) ==> s[k] != '\n',
    decreases s.len() - start,
{
    if start < s.len() && s[start] != '\n' {
        lemma_line_end(s, start + 1);
    }
}

/// The three dashes of the separator.
pub open spec fn dashes() -> Seq<char> {
    seq!['-', '-', '-']
}

/// The first line, from `start` on, that trims to `---`: its start and end
/// (the index of its `'\n'` or the text's end).
pub open spec fn dash_line_from(s: Seq<char>, start: int) -> Option<(int, int)>
    decreases s.len() + 1 - start,
{
    if start < 0 || start > s.len() {
        None
    } else {
        let e = line_end(s, start);
        if trim(s.subrange(start, e)) == dashes() {
            Some((start, e))
        } else if e >= s.len() {
            None
        } else {
            proof {
                lemma_line_end(s, start);
            }
            dash_line_from(s, e + 1)
        }
    }
}

/// The inline separator ` --- `.
pub open spec fn inline_sep() -> Seq<char> {
    seq![' ', '-', '-', '-', ' ']
}

/// The inline separator ` ---` followed by a newline.
pub open spec fn inline_sep_nl() -> Seq<char> {
    seq![' ', '-', '-', '-', '\n']
}

/// Where the separator is, in character indices: (end of the dialogue,
/// start of the metadata).
///
/// A line that trims to `---` wins (the metadata starts after its
/// newline, or at the end); then the first ` --- `; then the first
/// ` ---\n`; the metadata starts after the five separator characters.
pub open spec fn separator_chars(s: Seq<char>) -> Option<(int, int)> {
    match dash_line_from(s, 0) {
        Some((start, e)) => Some((start, if e + 1 < s.len() { e + 1 } else { s.len() as int })),
        None => match find_from(s, inline_sep(), 0) {
            Some(p) => Some((p, p + 5)),
            None => match find_from(s, inline_sep_nl(), 0) {
                Some(p) => Some((p, p + 5)),
                None => None,
            },
        },
    }
}

/// The separator's position in bytes, as `find_response_separator` returns it.
pub open spec fn separator_bytes(s: Seq<char>) -> Option<(usize, usize)> {
    match separator_chars(s) {
        Some((d, m)) => Some(
            (utf8_len(s.take(d)) as usize, utf8_len(s.take(m)) as usize),
        ),
        None => None,
    }
}

fn is_dash_line(v: &Vec<char>, start: usize, e: usize) -> (r: bool)
    requires
        start <= e <= v@.len(),
    ensures
        r == (trim(v@.subrange(start as int, e as int)) == dashes()),
{
    let (a, b) = trim_bounds(v, start, e);
    let r = b - a == 3 && v[a] == '-' && v[a + 1] == '-' && v[a + 2] == '-';
    proof {
        let t = v@.subrange(a as int, b as int);
        assert(dashes().len() == 3 && dashes()[0] == '-' && dashes()[1] == '-' && dashes()[2]
            == '-');
        if r {
            assert(t =~= dashes());
        }
        if t == dashes() {
            assert(t.len() == 3);
            assert(t[0] == v@[a as int]);
            assert(t[1] == v@[a + 1]);
            assert(t[2] == v@[a + 2]);
        }
    }
    r
}

fn find_dash_line(v: &Vec<char>) -> (r: Option<(usize, usize)>)
    ensures
        match r {
            Some((a, b)) => dash_line_from(v@, 0) == Some((a as int, b as int)),
            None => dash_line_from(v@, 0) is None,
        },
{
    let n = v.len();
    let mut start: usize = 0;
    loop
        invariant
            n == v@.len(),
            start <= n,
            dash_line_from(v@, 0) == dash_line_from(v@, start as int),
        decreases n + 1 - start,
    {
        let mut e = start;
        while e < n && v[e] != '\n'
            invariant
                start <= e <= n,
                n == v@.len(),
                line_end(v@, start as int) == line_end(v@, e as int),
            decreases n - e,
        {
            e = e + 1;
        }
        proof {
            lemma_line_end(v@, start as int);
        }
        if is_dash_line(v, start, e) {
            return Some((start, e));
        }
        if e >= n {
            return None;
        }
        start = e + 1;
    }
}

/// The separator's position in character indices (see `separator_chars`).
pub fn find_separator_chars(v: &Vec<char>) -> (r: Option<(usize, usize)>)
    ensures
        match r {
            Some((d, m)) => separator_chars(v@) == Some((d as int, m as int)),
            None => separator_chars(v@) is None,
        },
{
    let n = v.len();
    match find_dash_line(v) {
        Some((start, e)) => {
            proof {
                lemma_dash_line_bounds(v@, 0);
            }
            let m = if e < n {
                e + 1
            } else {
                n
            };
            return Some((start, m));
        },
        None => {},
    }
    let sep = vec![' ', '-', '-', '-', ' '];
    assert(sep@ =~= inline_sep());
    match find_pattern(v, &sep) {
        Some(p) => {
            proof {
                lemma_find_from(v@, inline_sep(), 0);
            }
            return Some((p, p + 5));
        },
        None => {},
    }
    let sep_nl = vec![' ', '-', '-', '-', '\n'];
    assert(sep_nl@ =~= inline_sep_nl());
    match find_pattern(v, &sep_nl) {
        Some(p) => {
            proof {
                lemma_find_from(v@, inline_sep_nl(), 0);
            }
            Some((p, p + 5))
        },
        None => None,
    }
}

/// Finds the separator between dialogue and metadata in an NPC response.
///
/// Returns `Some((dialogue_end, metadata_start))` as byte offsets (see
/// `separator_chars` for which separator wins), or `None`.
pub fn find_response_separator(text: &str) -> (r: Option<(usize, usize)>)
    requires
        utf8_len(text@) <= usize::MAX,
    ensures
        r == separator_bytes(text@),
{
    let v = chars_of(text);
    proof {
        lemma_str_len(text);
    }
    let total = text.len();
    match find_separator_chars(&v) {
        Some((d, m)) => {
            proof {
                find_separator_in_bounds(v@, d as int, m as int);
            }
            let db = byte_offset(&v, d);
            let mb = byte_offset(&v, m);
            Some((db, mb))
        },
        None => None,
    }
}

proof fn find_separator_in_bounds(s: Seq<char>, d: int, m: int)
    requires
        separator_chars(s) == Some((d, m)),
    ensures
        0 <= d <= m <= s.len(),
{
    match dash_line_from(s, 0) {
        Some((start, e)) => {
            lemma_dash_line_bounds(s, 0);
        },
        None => match find_from(s, inline_sep(), 0) {
            Some(p) => {
                lemma_find_from(s, inline_sep(), 0);
            },
            None => {
                lemma_find_from(s, inline_sep_nl(), 0);
            },
        },
    }
}

/// A found dash line lies inside the text.
pub proof fn lemma_dash_line_bounds(s: Seq<char>, start: int)
    requires
        0 <= start <= s.len(),
    ensures
        dash_line_from(s, start) matches Some((a, e)) ==> start <= a <= e <= s.len(),
    decreases s.len() + 1 - start,
{
    lemma_line_end(s, start);
    let e = line_end(s, start);
    if trim(s.subrange(start, e)) != dashes() && e < s.len() {
        lemma_dash_line_bounds(s, e + 1);
    }
}


/// Metadata block of an NPC response (decoded from the JSON after the separator).
#[derive(Debug, Clone)]
pub struct NpcMetadata {
    /// What the NPC physically does.
    pub action: String,
    /// The NPC's mood after this interaction.
    pub mood: String,
    /// Internal thought (not shown to the player).
    pub internal_thought: Option<String>,
}

/// Structured action output of an NPC's language-model response (legacy format).
#[derive(Debug, Clone)]
pub struct NpcAction {
    /// What the NPC does (e.g. "speaks", "moves").
    pub action: String,
    /// The target of the action.
    pub target: Option<String>,
    /// Dialogue spoken by the NPC.
    pub dialogue: Option<String>,
    /// The NPC's mood after this action.
    pub mood: String,
    /// Internal thought (not shown to the player).
    pub internal_thought: Option<String>,
}

/// Parsed result of a streamed NPC response.
#[derive(Debug, Clone)]
pub struct NpcStreamResponse {
    /// The dialogue and action text shown to the player.
    pub dialogue: String,
    /// Decoded metadata, if present.
    pub metadata: Option<NpcMetadata>,
}

/// A pronunciation hint for a word in the secondary language.
#[derive(Debug, Clone)]
pub struct LanguageHint {
    /// The word or phrase.
    pub word: String,
    /// How to say it.
    pub pronunciation: String,
    /// What it means, if given.
    pub meaning: Option<String>,
}

/// The system prompt of a Tier 1 conversation: who the NPC is, its
/// personality and mood, and the reply format — spoken text, a `---`
/// line, then a JSON metadata block.
pub open spec fn spec_tier1_system_prompt(
    name: Seq<char>,
    age: u8,
    occupation: Seq<char>,
    personality: Seq<char>,
    mood: Seq<char>,
) -> Seq<char> {
    "You are "@ + name + ", a "@ + decimal(age as nat) + "-year-old "@ + occupation + " in a small parish in County Roscommon, Ireland.\n\nPersonality: "@ + personality + "\n\nCurrent mood: "@ + mood + "\n\nRespond in character as "@ + name + ". Use this EXACT format:\n\n1. First, write what you say or do, in plain text. Stay in character. Describe actions in parentheses, e.g. (leans on the bar).\n2. Then on a new line write exactly: ---\n3. Then on the next line write a JSON metadata block with these fields:\n- \"action\": what you physically do (e.g. \"speaks\", \"nods\", \"sighs\")\n- \"mood\": your mood after this interaction\n- \"internal_thought\": what you're thinking but not saying (optional)\n\nExample response:\n(Looks up from polishing a glass) Ah, good morning to ye! Fine day for it, so it is.\n---\n{\"action\": \"speaks warmly\", \"mood\": \"friendly\", \"internal_thought\": \"New face around here\"}"@
}

/// Builds the Tier 1 system prompt for an NPC from its name, age,
/// occupation, personality and current mood.
pub fn build_tier1_system_prompt(
    name: &str,
    age: u8,
    occupation: &str,
    personality: &str,
    mood: &str,
) -> (r: String)
    ensures
        r@ == spec_tier1_system_prompt(name@, age, occupation@, personality@, mood@),
{
    let mut s = String::new();
    s.append("You are ");
    s.append(name);
    s.append(", a ");
    let a = u64_to_string(age as u64);
    s.append(a.as_str());
    s.append("-year-old ");
    s.append(occupation);
    s.append(" in a small parish in County Roscommon, Ireland.\n\nPersonality: ");
    s.append(personality);
    s.append("\n\nCurrent mood: ");
    s.append(mood);
    s.append("\n\nRespond in character as ");
    s.append(name);
    s.append(". Use this EXACT format:\n\n1. First, write what you say or do, in plain text. Stay in character. Describe actions in parentheses, e.g. (leans on the bar).\n2. Then on a new line write exactly: ---\n3. Then on the next line write a JSON metadata block with these fields:\n- \"action\": what you physically do (e.g. \"speaks\", \"nods\", \"sighs\")\n- \"mood\": your mood after this interaction\n- \"internal_thought\": what you're thinking but not saying (optional)\n\nExample response:\n(Looks up from polishing a glass) Ah, good morning to ye! Fine day for it, so it is.\n---\n{\"action\": \"speaks warmly\", \"mood\": \"friendly\", \"internal_thought\": \"New face around here\"}");
    s
}

/// A pronunciation hint for an Irish word.
pub type IrishWordHint = LanguageHint;

/// `s` with surrounding white space removed (`str::trim`).
pub fn trimmed(s: &str) -> (r: String)
    ensures
        r@ == trim(s@),
{
    let v = chars_of(s);
    let (a, b) = trim_bounds(&v, 0, v.len());
    assert(v@.subrange(0, v@.len() as int) == s@);
    string_of_range(s, a, b)
}

/// Splits a response at its separator: the trimmed dialogue before it and
/// the trimmed metadata text after it; `None` when there is no separator.
pub fn split_npc_response(full_text: &str) -> (r: Option<(String, String)>)
    ensures
        match separator_chars(full_text@) {
            Some((d, m)) => r matches Some((dialogue, meta)) && dialogue@ == trim(
                full_text@.take(d),
            ) && meta@ == trim(full_text@.skip(m)),
            None => r is None,
        },
{
    let v = chars_of(full_text);
    match find_separator_chars(&v) {
        Some((d, m)) => {
            proof {
                find_separator_in_bounds(v@, d as int, m as int);
            }
            let n = v.len();
            let (a, b) = trim_bounds(&v, 0, d);
            let (c, e) = trim_bounds(&v, m, n);
            assert(v@.subrange(0, d as int) == full_text@.take(d as int));
            assert(v@.subrange(m as int, n as int) == full_text@.skip(m as int));
            Some((string_of_range(full_text, a, b), string_of_range(full_text, c, e)))
        },
        None => None,
    }
}

/// The response made of separated dialogue and its decoded metadata (if
/// the metadata text decoded).
pub fn response_from_parts(dialogue: String, metadata: Option<NpcMetadata>) -> (r:
    NpcStreamResponse)
    ensures
        r.dialogue == dialogue,
        r.metadata == metadata,
{
    NpcStreamResponse { dialogue, metadata }
}

/// The response made from a whole reply that decoded as a legacy action:
/// its dialogue (empty when absent) and its action, mood and thought.
pub fn response_from_action(action: NpcAction) -> (r: NpcStreamResponse)
    ensures
        r.dialogue@ == (match action.dialogue {
            Some(d) => d@,
            None => Seq::<char>::empty(),
        }),
        r.metadata matches Some(m) && m.action == action.action && m.mood == action.mood
            && m.internal_thought == action.internal_thought,
{
    let dialogue = match action.dialogue {
        Some(d) => d,
        None => String::new(),
    };
    NpcStreamResponse {
        dialogue,
        metadata: Some(
            NpcMetadata {
                action: action.action,
                mood: action.mood,
                internal_thought: action.internal_thought,
            },
        ),
    }
}

/// The response made from a reply that is plain text: all of it, trimmed,
/// without metadata.
pub fn response_from_plain_text(full_text: &str) -> (r: NpcStreamResponse)
    ensures
        r.dialogue@ == trim(full_text@),
        r.metadata is None,
{
    NpcStreamResponse { dialogue: trimmed(full_text), metadata: None }
}

} // verus!
