//! Replies to the player's system commands (`/help`, `/status`, `/key`,
//! `/provider`, ...): masking of API keys and the lines each command shows.

use vstd::prelude::*;

use crate::config::{spec_category_name, InferenceCategory};
use crate::text::{
    chars_of, char_utf8_len, char_width, concat2, concat3, lemma_str_len, lemma_utf8_len_prefix_le,
    lemma_utf8_len_push, owned, string_of_range, utf8_len,
};
use crate::world::{season_name, time_of_day_name, Season, TimeOfDay};

verus! {

/// Whether byte offset `b` of the UTF-8 text of `s` falls between
/// characters.
pub open spec fn at_char_boundary(s: Seq<char>, b: int) -> bool {
    exists|i: int| 0 <= i <= s.len() && utf8_len(s.take(i)) == b
}

/// Encoded prefixes grow with their length.
proof fn lemma_prefix_len_monotone(s: Seq<char>, i: int, j: int)
    requires
        0 <= i <= j <= s.len(),
    ensures
        utf8_len(s.take(i)) <= utf8_len(s.take(j)),
{
    lemma_utf8_len_prefix_le(s.take(j), i);
    assert(s.take(j).take(i) == s.take(i));
}

/// The character index at byte offset `b`, which must fall between
/// characters.
fn char_index_at_byte(v: &Vec<char>, b: usize) -> (r: usize)
    requires
        utf8_len(v@) <= usize::MAX,
        at_char_boundary(v@, b as int),
    ensures
        r <= v@.len(),
        utf8_len(v@.take(r as int)) == b,
{
    let ghost w = choose|i: int| 0 <= i <= v@.len() && utf8_len(v@.take(i)) == b;
    let mut k: usize = 0;
    let mut acc: usize = 0;
    assert(v@.take(0) == Seq::<char>::empty());
    while acc < b
        invariant
            k <= v@.len(),
            acc == utf8_len(v@.take(k as int)),
            acc <= b,
            utf8_len(v@) <= usize::MAX,
            0 <= w <= v@.len(),
            utf8_len(v@.take(w)) == b,
        decreases b - acc,
    {
        if k >= v.len() {
            proof {
                assert(v@.take(k as int) == v@);
                lemma_prefix_len_monotone(v@, w, k as int);
            }
        }
        proof {
            assert(k < v@.len()) by {
                if k >= v@.len() {
                    assert(v@.take(k as int) == v@);
                    lemma_prefix_len_monotone(v@, w, v@.len() as int);
                    assert(v@.take(v@.len() as int) == v@);
                }
            }
            lemma_utf8_len_push(v@.take(k as int), v@[k as int]);
            assert(v@.take(k + 1) == v@.take(k as int).push(v@[k as int]));
            lemma_utf8_len_prefix_le(v@, k + 1);
            if utf8_len(v@.take(k + 1)) > b {
                if w <= k {
                    lemma_prefix_len_monotone(v@, w, k as int);
                } else {
                    lemma_prefix_len_monotone(v@, k + 1, w);
                }
            }
        }
        acc = acc + char_width(v[k]);
        k = k + 1;
    }
    k
}

/// `key` masked for display: its first four and last four bytes around
/// `...`.
pub open spec fn is_masked(r: Seq<char>, key: Seq<char>) -> bool {
    exists|i: int, j: int|
        0 <= i <= j <= key.len() && utf8_len(key.take(i)) == 4 && utf8_len(key.take(j)) == utf8_len(
            key,
        ) - 4 && r == key.take(i) + "..."@ + key.skip(j)
}

/// Masks an API key for display: its first four and last four bytes with
/// `...` between. Both cuts must fall on character boundaries of the
/// UTF-8 text.
pub fn mask_api_key(key: &str) -> (r: String)
    requires
        utf8_len(key@) <= usize::MAX,
        utf8_len(key@) > 8,
        at_char_boundary(key@, 4),
        at_char_boundary(key@, utf8_len(key@) - 4),
    ensures
        is_masked(r@, key@),
{
    proof {
        lemma_str_len(key);
    }
    let v = chars_of(key);
    let n = key.len();
    assert(v@ == key@);
    assert(n == utf8_len(v@));
    let i = char_index_at_byte(&v, 4);
    let j = char_index_at_byte(&v, n - 4);
    proof {
        if j < i {
            lemma_prefix_len_monotone(v@, j as int, i as int);
        }
    }
    let head = string_of_range(key, 0, i);
    let tail = string_of_range(key, j, v.len());
    proof {
        reveal_strlit("...");
        assert(head@ == key@.take(i as int));
        assert(tail@ == key@.skip(j as int));
    }
    concat3(head.as_str(), "...", tail.as_str())
}

/// The line showing an API key: masked when longer than eight bytes.
pub open spec fn key_line(label: Seq<char>, key: Option<Seq<char>>, r: Seq<char>) -> bool {
    match key {
        None => r == label + ": (not set)"@,
        Some(k) => if utf8_len(k) > 8 {
            exists|m: Seq<char>| is_masked(m, k) && r == label + ": "@ + m
        } else {
            r == label + ": (set, too short to mask)"@
        },
    }
}

/// The line `/key` (and its cloud and per-category forms) shows for a
/// key: `<label>: <masked key>`, or that it is too short to mask, or not
/// set.
pub fn api_key_line(label: &str, key: Option<&str>) -> (r: String)
    requires
        key matches Some(k) ==> utf8_len(k@) <= usize::MAX,
        key matches Some(k) ==> (utf8_len(k@) > 8 ==> at_char_boundary(k@, 4) && at_char_boundary(
            k@,
            utf8_len(k@) - 4,
        )),
    ensures
        key_line(
            label@,
            match key {
                Some(k) => Some(k@),
                None => None,
            },
            r@,
        ),
{
    match key {
        None => concat2(label, ": (not set)"),
        Some(k) => {
            proof {
                lemma_str_len(k);
            }
            if k.len() > 8 {
                let m = mask_api_key(k);
                let r = concat3(label, ": ", m.as_str());
                assert(is_masked(m@, k@) && r@ == label@ + ": "@ + m@);
                r
            } else {
                concat2(label, ": (set, too short to mask)")
            }
        },
    }
}

/// Whether an optional API key can be shown: its UTF-8 length fits in
/// memory and, when it is long enough to be masked, both cuts fall on
/// character boundaries.
pub open spec fn key_displayable(key: Option<Seq<char>>) -> bool {
    match key {
        Some(k) => utf8_len(k) <= usize::MAX && (utf8_len(k) > 8 ==> at_char_boundary(k, 4)
            && at_char_boundary(k, utf8_len(k) - 4)),
        None => true,
    }
}

/// The reply to toggling the pronunciation sidebar, by its new state.
pub open spec fn spec_sidebar_message(visible: bool) -> Seq<char> {
    if visible {
        "The pronunciation guide opens at your side."@
    } else {
        "The pronunciation guide folds away."@
    }
}

/// The reply to toggling improv craft, by its new state.
pub open spec fn spec_improv_message(enabled: bool) -> Seq<char> {
    if enabled {
        "The characters loosen up — improv craft engaged."@
    } else {
        "The characters settle back to their usual selves."@
    }
}

/// The `/status` line.
pub open spec fn spec_status_line(
    location: Seq<char>,
    time: TimeOfDay,
    season: Season,
    paused: bool,
) -> Seq<char> {
    "Location: "@ + location + " | "@ + time_of_day_name(time) + " | "@ + season_name(season)
        + " "@ + (if paused {
        " (paused)"@
    } else {
        ""@
    })
}

/// The line `/provider <category>` shows.
pub open spec fn spec_category_provider_line(
    cat: InferenceCategory,
    provider: Option<Seq<char>>,
    base: Seq<char>,
) -> Seq<char> {
    match provider {
        Some(p) => spec_category_name(cat) + " provider: "@ + p,
        None => spec_category_name(cat) + " provider: (inherits base: "@ + base + ")"@,
    }
}

/// The line `/model <category>` shows.
pub open spec fn spec_category_model_line(
    cat: InferenceCategory,
    model: Seq<char>,
    base_model: Seq<char>,
) -> Seq<char> {
    if model.len() == 0 {
        spec_category_name(cat) + " model: (inherits base: "@ + base_model + ")"@
    } else {
        spec_category_name(cat) + " model: "@ + model
    }
}

/// The line `/cloud` shows.
pub open spec fn spec_cloud_line(provider: Option<Seq<char>>, model: Option<Seq<char>>) -> Seq<
    char,
> {
    match provider {
        Some(p) => "Cloud: "@ + p + " | Model: "@ + match model {
            Some(m) => m,
            None => "(none)"@,
        },
        None => "No cloud provider configured. Use --cloud-provider or parish.toml [cloud]."@,
    }
}

/// The reply to toggling the pronunciation sidebar.
pub fn sidebar_toggle_message(visible: bool) -> (r: &'static str)
    ensures
        r@ == spec_sidebar_message(visible),
{
    if visible {
        "The pronunciation guide opens at your side."
    } else {
        "The pronunciation guide folds away."
    }
}

/// The reply to toggling improv craft.
pub fn improv_toggle_message(enabled: bool) -> (r: &'static str)
    ensures
        r@ == spec_improv_message(enabled),
{
    if enabled {
        "The characters loosen up — improv craft engaged."
    } else {
        "The characters settle back to their usual selves."
    }
}

/// The `/status` line: location, time of day, season, and whether time
/// is paused.
pub fn status_line(location: &str, time: TimeOfDay, season: Season, paused: bool) -> (r: String)
    ensures
        r@ == spec_status_line(location@, time, season, paused),
{
    let mut s = concat2("Location: ", location);
    s.append(" | ");
    let t = time.to_string();
    s.append(t.as_str());
    s.append(" | ");
    let se = season.to_string();
    s.append(se.as_str());
    s.append(" ");
    if paused {
        s.append(" (paused)");
    } else {
        s.append("");
    }
    s
}

/// The reply to an unknown game speed.
pub fn unknown_speed_message(name: &str) -> (r: String)
    ensures
        r@ == "Unknown speed '"@ + name@ + "'. Try: slow, normal, fast, fastest, ludicrous."@,
{
    concat3("Unknown speed '", name, "'. Try: slow, normal, fast, fastest, ludicrous.")
}

/// The line `/provider <category>` shows: the category's own provider, or
/// that it inherits the base provider.
pub fn category_provider_line(cat: InferenceCategory, provider: Option<&str>, base: &str) -> (r:
    String)
    ensures
        r@ == spec_category_provider_line(
            cat,
            match provider {
                Some(p) => Some(p@),
                None => None,
            },
            base@,
        ),
{
    let mut s = owned(cat.name());
    match provider {
        Some(p) => {
            s.append(" provider: ");
            s.append(p);
        },
        None => {
            s.append(" provider: (inherits base: ");
            s.append(base);
            s.append(")");
        },
    }
    s
}

/// The line `/model <category>` shows: the category's own model, or that
/// it inherits the base model (when its model is empty).
pub fn category_model_line(cat: InferenceCategory, model: &str, base_model: &str) -> (r: String)
    ensures
        r@ == spec_category_model_line(cat, model@, base_model@),
{
    let mut s = owned(cat.name());
    if model.is_empty() {
        s.append(" model: (inherits base: ");
        s.append(base_model);
        s.append(")");
    } else {
        s.append(" model: ");
        s.append(model);
    }
    s
}

/// The line `/cloud` shows: provider and model, or how to configure one.
pub fn cloud_line(provider: Option<&str>, model: Option<&str>) -> (r: String)
    ensures
        r@ == spec_cloud_line(
            match provider {
                Some(p) => Some(p@),
                None => None,
            },
            match model {
                Some(m) => Some(m@),
                None => None,
            },
        ),
{
    match provider {
        Some(p) => {
            let mut s = concat3("Cloud: ", p, " | Model: ");
            match model {
                Some(m) => s.append(m),
                None => s.append("(none)"),
            }
            s
        },
        None => owned("No cloud provider configured. Use --cloud-provider or parish.toml [cloud]."),
    }
}

/// Number of lines of the `/help` reply.
pub const SYSTEM_HELP_LINE_COUNT: usize = 19;

/// The `i`-th line of the `/help` reply.
pub open spec fn spec_system_help_line(i: int) -> Seq<char> {
    if i == 0 {
        "A few things ye might say:"@
    } else if i == 1 {
        "  /quit     — Take your leave"@
    } else if i == 2 {
        "  /pause    — Hold time still"@
    } else if i == 3 {
        "  /resume   — Let time flow again"@
    } else if i == 4 {
        "  /speed    — Show or change game speed (slow/normal/fast/fastest/ludicrous)"@
    } else if i == 5 {
        "  /status   — Where am I?"@
    } else if i == 6 {
        "  /irish    — Toggle the Irish words sidebar (or press Tab)"@
    } else if i == 7 {
        "  /improv   — Toggle improv craft for NPC dialogue"@
    } else if i == 8 {
        "  /provider — Show or change LLM provider"@
    } else if i == 9 {
        "  /model    — Show or change model name"@
    } else if i == 10 {
        "  /key      — Show or change API key"@
    } else if i == 11 {
        "  /cloud    — Show or change cloud dialogue provider"@
    } else if i == 12 {
        "  /debug    — Debug commands (try /debug help)"@
    } else if i == 13 {
        "  /help     — Show this help"@
    } else if i == 14 {
        "  /save     — Save game"@
    } else if i == 15 {
        "  /fork <n> — Fork a new timeline branch"@
    } else if i == 16 {
        "  /load <n> — Load a saved branch"@
    } else if i == 17 {
        "  /branches — List save branches"@
    } else {
        "  /log      — Show snapshot history"@
    }
}

fn system_help_line(i: usize) -> (r: &'static str)
    ensures
        r@ == spec_system_help_line(i as int),
{
    if i == 0 {
        "A few things ye might say:"
    } else if i == 1 {
        "  /quit     — Take your leave"
    } else if i == 2 {
        "  /pause    — Hold time still"
    } else if i == 3 {
        "  /resume   — Let time flow again"
    } else if i == 4 {
        "  /speed    — Show or change game speed (slow/normal/fast/fastest/ludicrous)"
    } else if i == 5 {
        "  /status   — Where am I?"
    } else if i == 6 {
        "  /irish    — Toggle the Irish words sidebar (or press Tab)"
    } else if i == 7 {
        "  /improv   — Toggle improv craft for NPC dialogue"
    } else if i == 8 {
        "  /provider — Show or change LLM provider"
    } else if i == 9 {
        "  /model    — Show or change model name"
    } else if i == 10 {
        "  /key      — Show or change API key"
    } else if i == 11 {
        "  /cloud    — Show or change cloud dialogue provider"
    } else if i == 12 {
        "  /debug    — Debug commands (try /debug help)"
    } else if i == 13 {
        "  /help     — Show this help"
    } else if i == 14 {
        "  /save     — Save game"
    } else if i == 15 {
        "  /fork <n> — Fork a new timeline branch"
    } else if i == 16 {
        "  /load <n> — Load a saved branch"
    } else if i == 17 {
        "  /branches — List save branches"
    } else {
        "  /log      — Show snapshot history"
    }
}

/// The `/help` reply, one line each.
pub fn system_help() -> (r: Vec<String>)
    ensures
        r@.len() == SYSTEM_HELP_LINE_COUNT,
        forall|i: int|
            0 <= i < SYSTEM_HELP_LINE_COUNT ==> (#[trigger] r@[i])@ == spec_system_help_line(i),
{
    let mut r: Vec<String> = Vec::new();
    let mut i: usize = 0;
    while i < SYSTEM_HELP_LINE_COUNT
        invariant
            i <= SYSTEM_HELP_LINE_COUNT,
            r@.len() == i,
            forall|j: int| 0 <= j < i ==> (#[trigger] r@[j])@ == spec_system_help_line(j),
        decreases SYSTEM_HELP_LINE_COUNT - i,
    {
        r.push(owned(system_help_line(i)));
        i = i + 1;
    }
    r
}

} // verus!
