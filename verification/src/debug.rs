//! The `/debug` command: which inspection a command line asks for, the
//! help text, how locations are named in the output, how an NPC is found
//! by name, and the tier and schedule inspections.

use vstd::prelude::*;

use crate::fmt::{decimal, u64_to_string};
use crate::npc::trimmed;
use crate::text::{
    chars_of, concat3, find_from, find_pattern, lemma_find_from, lowercase, owned, string_of_range,
    to_lowercase, trim,
};
use crate::schedule::ScheduleEntry;
use crate::text::concat2;
use crate::tier::CogTier;
use crate::world::LocationId;

verus! {

/// A `/debug` inspection.
#[derive(Debug, Clone, PartialEq, Eq)]
pub enum DebugCommand {
    /// Clock, tier counts and NPCs at the player's location.
    Overview,
    /// All NPCs with location, tier and mood.
    Npcs,
    /// Tier assignment summary.
    Tiers,
    /// Game time details.
    Clock,
    /// Details of the player's location.
    Here,
    /// An NPC's daily schedule (by name, if given).
    Schedule(Option<String>),
    /// An NPC's recent memories (by name, if given).
    Memory(Option<String>),
    /// An NPC's relationships (by name, if given).
    Relationships(Option<String>),
    /// The list of debug commands.
    Help,
    /// Not a debug command; holds the lower-cased word.
    Unknown(String),
}

/// The view of an optional string.
pub open spec fn opt_view(o: Option<String>) -> Option<Seq<char>> {
    match o {
        Some(s) => Some(s@),
        None => None,
    }
}

/// Whether `r` is the command the lower-cased word `cmd` with argument
/// `arg` asks for.
pub open spec fn is_debug_command(r: DebugCommand, cmd: Seq<char>, arg: Option<Seq<char>>) -> bool {
    if cmd == "npcs"@ {
        r == DebugCommand::Npcs
    } else if cmd == "tiers"@ {
        r == DebugCommand::Tiers
    } else if cmd == "clock"@ {
        r == DebugCommand::Clock
    } else if cmd == "here"@ {
        r == DebugCommand::Here
    } else if cmd == "schedule"@ {
        r matches DebugCommand::Schedule(a) && opt_view(a) == arg
    } else if cmd == "memory"@ {
        r matches DebugCommand::Memory(a) && opt_view(a) == arg
    } else if cmd == "relationships"@ || cmd == "rels"@ {
        r matches DebugCommand::Relationships(a) && opt_view(a) == arg
    } else if cmd == "help"@ {
        r == DebugCommand::Help
    } else {
        r matches DebugCommand::Unknown(w) && w@ == cmd
    }
}

/// The command a lower-cased command word asks for, with its argument.
pub fn debug_command(cmd: &str, arg: Option<&str>) -> (r: DebugCommand)
    ensures
        is_debug_command(r, cmd@, match arg {
            Some(a) => Some(a@),
            None => None,
        }),
{
    let a = match arg {
        Some(x) => Some(owned(x)),
        None => None,
    };
    let c = owned(cmd);
    if c == owned("npcs") {
        DebugCommand::Npcs
    } else if c == owned("tiers") {
        DebugCommand::Tiers
    } else if c == owned("clock") {
        DebugCommand::Clock
    } else if c == owned("here") {
        DebugCommand::Here
    } else if c == owned("schedule") {
        DebugCommand::Schedule(a)
    } else if c == owned("memory") {
        DebugCommand::Memory(a)
    } else if c == owned("relationships") || c == owned("rels") {
        DebugCommand::Relationships(a)
    } else if c == owned("help") {
        DebugCommand::Help
    } else {
        DebugCommand::Unknown(c)
    }
}

/// The word and the argument of a `/debug` line: split at the first space
/// (`splitn(2, ' ')`), the argument trimmed.
pub open spec fn debug_parts(s: Seq<char>) -> (Seq<char>, Option<Seq<char>>) {
    match find_from(s, seq![' '], 0) {
        Some(p) => (s.take(p), Some(trim(s.skip(p + 1)))),
        None => (s, None),
    }
}

/// The command of a `/debug` line: `None` (bare `/debug`) is the
/// overview; otherwise the first word, lower-cased, picks the inspection
/// and the rest, trimmed, is its argument.
pub fn parse_debug_command(sub: Option<&str>) -> (r: DebugCommand)
    ensures
        sub is None ==> r == DebugCommand::Overview,
        sub matches Some(s) ==> is_debug_command(
            r,
            lowercase(debug_parts(s@).0),
            debug_parts(s@).1,
        ),
{
    match sub {
        None => DebugCommand::Overview,
        Some(s) => {
            let v = chars_of(s);
            let space = chars_of(" ");
            proof {
                reveal_strlit(" ");
                assert(space@ == seq![' ']);
            }
            match find_pattern(&v, &space) {
                Some(p) => {
                    proof {
                        assert(find_from(v@, seq![' '], 0) == Some(p as int));
                        lemma_find_from(v@, seq![' '], 0);
                    }
                    let n = v.len();
                    assert(p + 1 <= n);
                    let word = string_of_range(s, 0, p);
                    let rest = string_of_range(s, p + 1, n);
                    assert(word@ == s@.take(p as int));
                    assert(rest@ == s@.skip(p + 1));
                    let lower = to_lowercase(word.as_str());
                    let arg = trimmed(rest.as_str());
                    debug_command(lower.as_str(), Some(arg.as_str()))
                },
                None => {
                    let lower = to_lowercase(s);
                    debug_command(lower.as_str(), None)
                },
            }
        },
    }
}

/// The reply to an unknown debug command.
pub fn unknown_command_line(cmd: &str) -> (r: String)
    ensures
        r@ == "Unknown debug command: "@ + cmd@ + ". Try /debug help"@,
{
    concat3("Unknown debug command: ", cmd, ". Try /debug help")
}

/// The `i`-th line of the debug help.
pub open spec fn spec_help_line(i: int) -> Seq<char> {
    if i == 0 {
        "[DEBUG COMMANDS]"@
    } else if i == 1 {
        "  /debug          — Overview (clock, tiers, NPCs here)"@
    } else if i == 2 {
        "  /debug npcs     — All NPCs with location, tier, mood"@
    } else if i == 3 {
        "  /debug tiers    — Tier assignment summary"@
    } else if i == 4 {
        "  /debug clock    — Game time details"@
    } else if i == 5 {
        "  /debug here     — Current location details"@
    } else if i == 6 {
        "  /debug schedule <name>  — NPC's daily schedule"@
    } else if i == 7 {
        "  /debug memory <name>    — NPC's recent memories"@
    } else {
        "  /debug rels <name>      — NPC's relationships"@
    }
}

/// Number of lines of the debug help.
pub const HELP_LINE_COUNT: usize = 9;

fn help_line(i: usize) -> (r: &'static str)
    ensures
        r@ == spec_help_line(i as int),
{
    if i == 0 {
        "[DEBUG COMMANDS]"
    } else if i == 1 {
        "  /debug          — Overview (clock, tiers, NPCs here)"
    } else if i == 2 {
        "  /debug npcs     — All NPCs with location, tier, mood"
    } else if i == 3 {
        "  /debug tiers    — Tier assignment summary"
    } else if i == 4 {
        "  /debug clock    — Game time details"
    } else if i == 5 {
        "  /debug here     — Current location details"
    } else if i == 6 {
        "  /debug schedule <name>  — NPC's daily schedule"
    } else if i == 7 {
        "  /debug memory <name>    — NPC's recent memories"
    } else {
        "  /debug rels <name>      — NPC's relationships"
    }
}

/// The help for the `/debug` subcommands, one line each.
pub fn debug_help() -> (r: Vec<String>)
    ensures
        r@.len() == HELP_LINE_COUNT,
        forall|i: int| 0 <= i < HELP_LINE_COUNT ==> (#[trigger] r@[i])@ == spec_help_line(i),
{
    let mut r: Vec<String> = Vec::new();
    let mut i: usize = 0;
    while i < HELP_LINE_COUNT
        invariant
            i <= HELP_LINE_COUNT,
            r@.len() == i,
            forall|j: int| 0 <= j < i ==> (#[trigger] r@[j])@ == spec_help_line(j),
        decreases HELP_LINE_COUNT - i,
    {
        r.push(owned(help_line(i)));
        i = i + 1;
    }
    r
}

/// The name shown for a location: its name when the world knows it, else
/// `Location(<id>)`.
pub open spec fn location_label(id: LocationId, name: Option<Seq<char>>) -> Seq<char> {
    match name {
        Some(n) => n,
        None => "Location("@ + decimal(id.0 as nat) + ")"@,
    }
}

/// The name shown for a location: `name` when the world knows the location,
/// else `Location(<id>)`.
pub fn location_name(id: LocationId, name: Option<&str>) -> (r: String)
    ensures
        r@ == location_label(id, match name {
            Some(n) => Some(n@),
            None => None,
        }),
{
    match name {
        Some(n) => owned(n),
        None => {
            let digits = u64_to_string(id.0 as u64);
            concat3("Location(", digits.as_str(), ")")
        },
    }
}

/// `n` written with at least two digits.
pub open spec fn pad2(n: nat) -> Seq<char> {
    if n < 10 {
        "0"@ + decimal(n)
    } else {
        decimal(n)
    }
}

fn pad2_string(n: u8) -> (r: String)
    ensures
        r@ == pad2(n as nat),
{
    let d = u64_to_string(n as u64);
    if n < 10 {
        concat2("0", d.as_str())
    } else {
        d
    }
}

/// Names joined by `, `.
pub open spec fn join_names(ns: Seq<Seq<char>>) -> Seq<char>
    decreases ns.len(),
{
    if ns.len() == 0 {
        Seq::empty()
    } else if ns.len() == 1 {
        ns[0]
    } else {
        join_names(ns.drop_last()) + ", "@ + ns.last()
    }
}

/// The names of the NPCs in tier `t`, in the order given.
pub open spec fn names_in_tier(npcs: Seq<(String, Option<CogTier>)>, t: CogTier) -> Seq<Seq<char>>
    decreases npcs.len(),
{
    if npcs.len() == 0 {
        Seq::empty()
    } else {
        let rest = names_in_tier(npcs.drop_last(), t);
        if npcs.last().1 == Some(t) {
            rest.push(npcs.last().0@)
        } else {
            rest
        }
    }
}

/// The heading of a tier in `/debug tiers`.
pub open spec fn tier_heading(t: CogTier) -> Seq<char> {
    match t {
        CogTier::Tier1 => "Tier 1 (here)"@,
        CogTier::Tier2 => "Tier 2 (nearby)"@,
        _ => "Tier 3 (far)"@,
    }
}

/// The line of a tier in `/debug tiers`: its NPCs, or `(none)`.
pub open spec fn tier_line(t: CogTier, names: Seq<Seq<char>>) -> Seq<char> {
    if names.len() == 0 {
        "  "@ + tier_heading(t) + ": (none)"@
    } else {
        "  "@ + tier_heading(t) + ": "@ + join_names(names)
    }
}

/// The `/debug tiers` report.
pub open spec fn spec_debug_tiers(player_loc: Seq<char>, npcs: Seq<(String, Option<CogTier>)>) -> Seq<
    Seq<char>,
> {
    seq![
        "[DEBUG TIERS]"@,
        "  Player at: "@ + player_loc,
        tier_line(CogTier::Tier1, names_in_tier(npcs, CogTier::Tier1)),
        tier_line(CogTier::Tier2, names_in_tier(npcs, CogTier::Tier2)),
        tier_line(CogTier::Tier3, names_in_tier(npcs, CogTier::Tier3)),
    ]
}

fn tier_heading_str(t: CogTier) -> (r: &'static str)
    ensures
        r@ == tier_heading(t),
{
    match t {
        CogTier::Tier1 => "Tier 1 (here)",
        CogTier::Tier2 => "Tier 2 (nearby)",
        _ => "Tier 3 (far)",
    }
}

fn tier_line_string(npcs: &Vec<(String, Option<CogTier>)>, t: CogTier) -> (r: String)
    ensures
        r@ == tier_line(t, names_in_tier(npcs@, t)),
{
    let mut joined = String::new();
    let mut count: usize = 0;
    let mut i: usize = 0;
    proof {
        reveal_strlit("");
    }
    while i < npcs.len()
        invariant
            i <= npcs@.len(),
            count <= i,
            count == names_in_tier(npcs@.take(i as int), t).len(),
            joined@ == join_names(names_in_tier(npcs@.take(i as int), t)),
        decreases npcs@.len() - i,
    {
        proof {
            assert(npcs@.take(i + 1).drop_last() == npcs@.take(i as int));
            assert(npcs@.take(i + 1).last() == npcs@[i as int]);
        }
        if npcs[i].1 == Some(t) {
            if count > 0 {
                joined.append(", ");
            }
            joined.append(npcs[i].0.as_str());
            count = count + 1;
            proof {
                let prev = names_in_tier(npcs@.take(i as int), t);
                let next = names_in_tier(npcs@.take(i + 1), t);
                assert(next == prev.push(npcs@[i as int].0@));
                assert(next.drop_last() == prev);
                if prev.len() == 0 {
                    assert(joined@ == Seq::<char>::empty() + npcs@[i as int].0@);
                }
            }
        }
        i = i + 1;
    }
    proof {
        assert(npcs@.take(npcs@.len() as int) == npcs@);
    }
    let mut line = concat3("  ", tier_heading_str(t), ": ");
    if count == 0 {
        concat3("  ", tier_heading_str(t), ": (none)")
    } else {
        line.append(joined.as_str());
        line
    }
}

/// The `/debug tiers` report: where the player is, then the NPCs of each
/// of the first three tiers, in the order given (`None`: no tier yet).
pub fn debug_tiers(player_loc: &str, npcs: &Vec<(String, Option<CogTier>)>) -> (r: Vec<String>)
    ensures
        r@.map_values(|l: String| l@) == spec_debug_tiers(player_loc@, npcs@),
{
    let mut r: Vec<String> = Vec::new();
    r.push(owned("[DEBUG TIERS]"));
    r.push(concat2("  Player at: ", player_loc));
    r.push(tier_line_string(npcs, CogTier::Tier1));
    r.push(tier_line_string(npcs, CogTier::Tier2));
    r.push(tier_line_string(npcs, CogTier::Tier3));
    assert(r@.map_values(|l: String| l@) =~= spec_debug_tiers(player_loc@, npcs@));
    r
}

/// The index of the first name holding `query`, both lower-cased.
pub open spec fn spec_find_by_name(names: Seq<Seq<char>>, query: Seq<char>) -> Option<int>
    decreases names.len(),
{
    if names.len() == 0 {
        None
    } else {
        match spec_find_by_name(names.drop_last(), query) {
            Some(i) => Some(i),
            None => if lowercase(query).len() == 0 || find_from(
                lowercase(names.last()),
                lowercase(query),
                0,
            ) is Some {
                Some(names.len() - 1)
            } else {
                None
            },
        }
    }
}

/// A name found among the first names stays the one found among all.
proof fn lemma_find_by_name_prefix(names: Seq<Seq<char>>, query: Seq<char>, n: int, i: int)
    requires
        0 <= n <= names.len(),
        spec_find_by_name(names.take(n), query) == Some(i),
    ensures
        spec_find_by_name(names, query) == Some(i),
    decreases names.len() - n,
{
    if n < names.len() {
        assert(names.take(n + 1).drop_last() == names.take(n));
        lemma_find_by_name_prefix(names, query, n + 1, i);
    } else {
        assert(names.take(n) == names);
    }
}

/// Finds an NPC by name, ignoring case: the first whose lower-cased name
/// holds the lower-cased query.
pub fn find_npc_by_name(names: &Vec<String>, query: &str) -> (r: Option<usize>)
    ensures
        match r {
            Some(i) => spec_find_by_name(names@.map_values(|n: String| n@), query@) == Some(
                i as int,
            ),
            None => spec_find_by_name(names@.map_values(|n: String| n@), query@) is None,
        },
{
    let ghost ns = names@.map_values(|n: String| n@);
    let lower = to_lowercase(query);
    let pat = chars_of(lower.as_str());
    let mut i: usize = 0;
    while i < names.len()
        invariant
            i <= names@.len(),
            ns == names@.map_values(|n: String| n@),
            pat@ == lowercase(query@),
            spec_find_by_name(ns.take(i as int), query@) is None,
        decreases names@.len() - i,
    {
        proof {
            assert(ns.take(i + 1).drop_last() == ns.take(i as int));
            assert(ns.take(i + 1).last() == names@[i as int]@);
        }
        let name_lower = to_lowercase(names[i].as_str());
        let hay = chars_of(name_lower.as_str());
        let hit = if pat.len() == 0 {
            true
        } else {
            find_pattern(&hay, &pat).is_some()
        };
        if hit {
            proof {
                lemma_find_by_name_prefix(ns, query@, i + 1, i as int);
            }
            return Some(i);
        }
        i = i + 1;
    }
    proof {
        assert(ns.take(names@.len() as int) == ns);
    }
    None
}

/// A schedule row of `/debug schedule`: hours, location name, activity.
pub open spec fn schedule_row(e: ScheduleEntry, loc: Seq<char>) -> Seq<char> {
    "  "@ + pad2(e.start_hour as nat) + ":00-"@ + pad2(e.end_hour as nat) + ":00  "@ + loc
        + "  ("@ + e.activity@ + ")"@
}

/// The `/debug schedule` report of an NPC: a heading, then one row per
/// entry (with the names of their locations), or `(no schedule)`.
pub open spec fn spec_debug_schedule(
    name: Seq<char>,
    entries: Option<Seq<ScheduleEntry>>,
    locs: Seq<String>,
) -> Seq<Seq<char>> {
    let head = seq!["[DEBUG SCHEDULE: "@ + name + "]"@];
    match entries {
        Some(es) => head + Seq::new(es.len(), |i: int| schedule_row(es[i], locs[i]@)),
        None => head + seq!["  (no schedule)"@],
    }
}

/// The `/debug schedule` report of an NPC; `locs[i]` names the location of
/// the `i`-th entry.
pub fn debug_schedule(name: &str, entries: Option<&Vec<ScheduleEntry>>, locs: &Vec<String>) -> (r:
    Vec<String>)
    requires
        entries matches Some(es) ==> locs@.len() == es@.len(),
    ensures
        r@.map_values(|l: String| l@) == spec_debug_schedule(
            name@,
            match entries {
                Some(es) => Some(es@),
                None => None,
            },
            locs@,
        ),
{
    let mut r: Vec<String> = Vec::new();
    let mut head = concat2("[DEBUG SCHEDULE: ", name);
    head.append("]");
    r.push(head);
    match entries {
        Some(es) => {
            let mut i: usize = 0;
            while i < es.len()
                invariant
                    i <= es@.len(),
                    locs@.len() == es@.len(),
                    r@.len() == i + 1,
                    r@[0]@ == "[DEBUG SCHEDULE: "@ + name@ + "]"@,
                    forall|k: int|
                        1 <= k <= i ==> (#[trigger] r@[k])@ == schedule_row(es@[k - 1], locs@[k - 1]@),
                decreases es@.len() - i,
            {
                let e = &es[i];
                let mut row = concat2("  ", pad2_string(e.start_hour).as_str());
                row.append(":00-");
                row.append(pad2_string(e.end_hour).as_str());
                row.append(":00  ");
                row.append(locs[i].as_str());
                row.append("  (");
                row.append(e.activity.as_str());
                row.append(")");
                r.push(row);
                i = i + 1;
            }
            let ghost want = spec_debug_schedule(name@, Some(es@), locs@);
            assert forall|k: int| 0 <= k < r@.len() implies r@.map_values(|l: String| l@)[k]
                == want[k] by {
                if k > 0 {
                    assert(r@[k]@ == schedule_row(es@[k - 1], locs@[k - 1]@));
                }
            }
            assert(r@.map_values(|l: String| l@) =~= want);
        },
        None => {
            r.push(owned("  (no schedule)"));
            assert(r@.map_values(|l: String| l@) =~= spec_debug_schedule(name@, None, locs@));
        },
    }
    r
}

/// A tier as `{:?}` prints it.
pub open spec fn tier_debug_name(t: CogTier) -> Seq<char> {
    match t {
        CogTier::Tier1 => "Tier1"@,
        CogTier::Tier2 => "Tier2"@,
        CogTier::Tier3 => "Tier3"@,
        CogTier::Tier4 => "Tier4"@,
    }
}

fn tier_debug_str(t: Option<CogTier>) -> (r: &'static str)
    ensures
        r@ == match t {
            Some(x) => tier_debug_name(x),
            None => ""@,
        },
{
    proof {
        reveal_strlit("");
    }
    match t {
        Some(CogTier::Tier1) => "Tier1",
        Some(CogTier::Tier2) => "Tier2",
        Some(CogTier::Tier3) => "Tier3",
        Some(CogTier::Tier4) => "Tier4",
        None => "",
    }
}

/// A boolean as `{}` prints it.
pub open spec fn bool_text(b: bool) -> Seq<char> {
    if b {
        "true"@
    } else {
        "false"@
    }
}

/// An NPC present, as `/debug here` lists it.
pub struct HereNpc {
    pub name: String,
    pub mood: String,
    pub tier: Option<CogTier>,
}

/// An exit of a location, as `/debug here` lists it.
pub struct HereExit {
    pub destination: String,
    pub minutes: u16,
}

/// The line of an NPC present.
pub open spec fn here_npc_line(n: HereNpc) -> Seq<char> {
    "    "@ + n.name@ + " ["@ + n.mood@ + "] ("@ + match n.tier {
        Some(t) => tier_debug_name(t),
        None => ""@,
    } + ")"@
}

/// The line of an exit.
pub open spec fn here_exit_line(x: HereExit) -> Seq<char> {
    "    -> "@ + x.destination@ + " ("@ + decimal(x.minutes as nat) + "min)"@
}

/// The `/debug here` report: the location, its properties, the NPCs
/// present and, when the world knows the location, its exits.
pub open spec fn spec_debug_here(
    name: Seq<char>,
    id: LocationId,
    indoor: bool,
    public: bool,
    npcs: Seq<HereNpc>,
    exits: Option<Seq<HereExit>>,
) -> Seq<Seq<char>> {
    seq![
        "[DEBUG HERE]"@,
        "  "@ + name + " (id: "@ + decimal(id.0 as nat) + ")"@,
        "  Indoor: "@ + bool_text(indoor) + " | Public: "@ + bool_text(public),
    ] + (if npcs.len() == 0 {
        seq!["  NPCs: (none)"@]
    } else {
        seq!["  NPCs:"@] + Seq::new(npcs.len(), |i: int| here_npc_line(npcs[i]))
    }) + match exits {
        Some(xs) => seq!["  Exits:"@] + Seq::new(xs.len(), |i: int| here_exit_line(xs[i])),
        None => Seq::empty(),
    }
}

fn bool_str(b: bool) -> (r: &'static str)
    ensures
        r@ == bool_text(b),
{
    if b {
        "true"
    } else {
        "false"
    }
}

/// Appends one line.
fn push_text(lines: &mut Vec<String>, line: String)
    ensures
        final(lines)@.map_values(|l: String| l@) == old(lines)@.map_values(|l: String| l@).push(
            line@,
        ),
{
    let ghost lv = line@;
    lines.push(line);
    proof {
        assert(lines@.map_values(|l: String| l@) =~= old(lines)@.map_values(|l: String| l@).push(
            lv,
        ));
    }
}

/// The `/debug here` report: the location with its id, whether it is
/// indoor and public, the NPCs present (with mood and tier) and, when the
/// world knows the location, its exits with their walking minutes.
pub fn debug_here(
    name: &str,
    id: LocationId,
    indoor: bool,
    public: bool,
    npcs: &Vec<HereNpc>,
    exits: Option<&Vec<HereExit>>,
) -> (r: Vec<String>)
    ensures
        r@.map_values(|l: String| l@) == spec_debug_here(
            name@,
            id,
            indoor,
            public,
            npcs@,
            match exits {
                Some(xs) => Some(xs@),
                None => None,
            },
        ),
{
    let mut r: Vec<String> = Vec::new();
    push_text(&mut r, owned("[DEBUG HERE]"));
    let mut l = concat2("  ", name);
    l.append(" (id: ");
    l.append(u64_to_string(id.0 as u64).as_str());
    l.append(")");
    push_text(&mut r, l);
    let mut l = concat2("  Indoor: ", bool_str(indoor));
    l.append(" | Public: ");
    l.append(bool_str(public));
    push_text(&mut r, l);
    let ghost head = r@.map_values(|l: String| l@);
    if npcs.len() == 0 {
        push_text(&mut r, owned("  NPCs: (none)"));
    } else {
        push_text(&mut r, owned("  NPCs:"));
        let mut i: usize = 0;
        while i < npcs.len()
            invariant
                i <= npcs@.len(),
                r@.map_values(|l: String| l@) == head + seq!["  NPCs:"@] + Seq::new(
                    i as nat,
                    |k: int| here_npc_line(npcs@[k]),
                ),
            decreases npcs@.len() - i,
        {
            let n = &npcs[i];
            let mut l = concat3("    ", n.name.as_str(), " [");
            l.append(n.mood.as_str());
            l.append("] (");
            l.append(tier_debug_str(n.tier));
            l.append(")");
            let ghost before = r@.map_values(|l: String| l@);
            push_text(&mut r, l);
            proof {
                assert(before.push(here_npc_line(npcs@[i as int])) =~= head + seq!["  NPCs:"@]
                    + Seq::new((i + 1) as nat, |k: int| here_npc_line(npcs@[k])));
            }
            i = i + 1;
        }
    }
    let ghost mid = r@.map_values(|l: String| l@);
    match exits {
        Some(xs) => {
            push_text(&mut r, owned("  Exits:"));
            let mut i: usize = 0;
            while i < xs.len()
                invariant
                    i <= xs@.len(),
                    r@.map_values(|l: String| l@) == mid + seq!["  Exits:"@] + Seq::new(
                        i as nat,
                        |k: int| here_exit_line(xs@[k]),
                    ),
                decreases xs@.len() - i,
            {
                let x = &xs[i];
                let mut l = concat3("    -> ", x.destination.as_str(), " (");
                l.append(u64_to_string(x.minutes as u64).as_str());
                l.append("min)");
                let ghost before = r@.map_values(|l: String| l@);
                push_text(&mut r, l);
                proof {
                    assert(before.push(here_exit_line(xs@[i as int])) =~= mid + seq!["  Exits:"@]
                        + Seq::new((i + 1) as nat, |k: int| here_exit_line(xs@[k])));
                }
                i = i + 1;
            }
        },
        None => {},
    }
    proof {
        let want = spec_debug_here(
            name@,
            id,
            indoor,
            public,
            npcs@,
            match exits {
                Some(xs) => Some(xs@),
                None => None,
            },
        );
        if npcs@.len() == 0 {
            assert(mid =~= head + seq!["  NPCs: (none)"@]);
        } else {
            assert(Seq::new(npcs@.len() as nat, |k: int| here_npc_line(npcs@[k])) =~= Seq::new(
                npcs@.len(),
                |i: int| here_npc_line(npcs@[i]),
            ));
        }
        match exits {
            Some(xs) => {
                assert(Seq::new(xs@.len() as nat, |k: int| here_exit_line(xs@[k])) =~= Seq::new(
                    xs@.len(),
                    |i: int| here_exit_line(xs@[i]),
                ));
            },
            None => {},
        }
        assert(r@.map_values(|l: String| l@) =~= want);
    }
    r
}

} // verus!
