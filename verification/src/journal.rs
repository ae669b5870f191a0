//! The journal of world events and its replay after a snapshot.
//!
//! Every meaningful change of the world is recorded as a `WorldEvent`; on
//! recovery the events are replayed in order onto the state restored from
//! the last snapshot. Replay changes the player's location, the weather
//! and the NPCs' locations and moods here; what lives outside the library
//! (relationship strengths, the game clock, NPC memories, which need the
//! clock) comes back as actions for the caller to perform in order.

use vstd::prelude::*;

use crate::npc::NpcId;
use crate::schedule::NpcState;
use crate::text::owned;
use crate::world::{weather_name, LocationId, Weather};

verus! {

/// A discrete state change in the game world. The change of a
/// relationship's strength is a number the caller keeps; here it is the
/// index under which the caller keeps it.
#[derive(Debug)]
pub enum WorldEvent {
    /// The player moved between locations.
    PlayerMoved { from: LocationId, to: LocationId },
    /// An NPC moved between locations.
    NpcMoved { npc_id: NpcId, from: LocationId, to: LocationId },
    /// An NPC's mood changed.
    NpcMoodChanged { npc_id: NpcId, mood: String },
    /// A relationship strength changed between two NPCs.
    RelationshipChanged { npc_a: NpcId, npc_b: NpcId, delta: u64 },
    /// A dialogue occurred between the player and an NPC.
    DialogueOccurred { npc_id: NpcId, player_said: String, npc_said: String },
    /// The weather changed.
    WeatherChanged { new_weather: String },
    /// A memory was added to an NPC's short-term memory.
    MemoryAdded { npc_id: NpcId, content: String },
    /// The game clock was advanced by a number of minutes.
    ClockAdvanced { minutes: i64 },
}

/// The name of an event's kind, as stored in the journal.
pub open spec fn spec_event_type(e: WorldEvent) -> Seq<char> {
    match e {
        WorldEvent::PlayerMoved { .. } => "PlayerMoved"@,
        WorldEvent::NpcMoved { .. } => "NpcMoved"@,
        WorldEvent::NpcMoodChanged { .. } => "NpcMoodChanged"@,
        WorldEvent::RelationshipChanged { .. } => "RelationshipChanged"@,
        WorldEvent::DialogueOccurred { .. } => "DialogueOccurred"@,
        WorldEvent::WeatherChanged { .. } => "WeatherChanged"@,
        WorldEvent::MemoryAdded { .. } => "MemoryAdded"@,
        WorldEvent::ClockAdvanced { .. } => "ClockAdvanced"@,
    }
}

impl WorldEvent {
    /// The name of the event's kind, for the `event_type` column.
    pub fn event_type(&self) -> (r: &str)
        ensures
            r@ == spec_event_type(*self),
    {
        match self {
            WorldEvent::PlayerMoved { .. } => "PlayerMoved",
            WorldEvent::NpcMoved { .. } => "NpcMoved",
            WorldEvent::NpcMoodChanged { .. } => "NpcMoodChanged",
            WorldEvent::RelationshipChanged { .. } => "RelationshipChanged",
            WorldEvent::DialogueOccurred { .. } => "DialogueOccurred",
            WorldEvent::WeatherChanged { .. } => "WeatherChanged",
            WorldEvent::MemoryAdded { .. } => "MemoryAdded",
            WorldEvent::ClockAdvanced { .. } => "ClockAdvanced",
        }
    }
}

/// An NPC as replay sees it.
pub struct ReplayNpc {
    pub id: NpcId,
    pub location: LocationId,
    pub state: NpcState,
    pub mood: String,
}

/// The part of the world that replay changes.
pub struct ReplayState {
    pub player_location: LocationId,
    pub weather: Weather,
    pub npcs: Vec<ReplayNpc>,
}

/// Work replay leaves to the caller, in journal order.
#[derive(Debug)]
pub enum ReplayAction {
    /// Adjust the strength of `npc`'s relationship to `target`, if it has
    /// one, by the change kept under `delta`.
    AdjustRelationship { npc: NpcId, target: NpcId, delta: u64 },
    /// Add a memory to `npc`, made now, at `location`.
    AddMemory { npc: NpcId, content: String, location: LocationId },
    /// Advance the game clock.
    AdvanceClock { minutes: i64 },
}

/// The index of the first NPC with id `id`, or -1.
pub open spec fn npc_index(npcs: Seq<ReplayNpc>, id: NpcId) -> int
    decreases npcs.len(),
{
    if npcs.len() == 0 {
        -1
    } else if npcs[0].id == id {
        0
    } else {
        let k = npc_index(npcs.drop_first(), id);
        if k < 0 {
            -1
        } else {
            k + 1
        }
    }
}

/// The weather a name gives: the weather shown under that name, else
/// clear.
pub open spec fn spec_parse_weather(name: Seq<char>) -> Weather {
    if name == weather_name(Weather::Overcast) {
        Weather::Overcast
    } else if name == weather_name(Weather::Rain) {
        Weather::Rain
    } else if name == weather_name(Weather::Fog) {
        Weather::Fog
    } else if name == weather_name(Weather::Storm) {
        Weather::Storm
    } else {
        Weather::Clear
    }
}

/// The player's location after an event.
pub open spec fn player_after(p: LocationId, e: WorldEvent) -> LocationId {
    match e {
        WorldEvent::PlayerMoved { to, .. } => to,
        _ => p,
    }
}

/// The weather after an event.
pub open spec fn weather_after(w: Weather, e: WorldEvent) -> Weather {
    match e {
        WorldEvent::WeatherChanged { new_weather } => spec_parse_weather(new_weather@),
        _ => w,
    }
}

/// The NPCs after an event: a move or a change of mood of a known NPC.
pub open spec fn npcs_after(npcs: Seq<ReplayNpc>, e: WorldEvent) -> Seq<ReplayNpc> {
    match e {
        WorldEvent::NpcMoved { npc_id, to, .. } => {
            let j = npc_index(npcs, npc_id);
            if j >= 0 {
                npcs.update(
                    j,
                    ReplayNpc { location: to, state: NpcState::Present(to), ..npcs[j] },
                )
            } else {
                npcs
            }
        },
        WorldEvent::NpcMoodChanged { npc_id, mood } => {
            let j = npc_index(npcs, npc_id);
            if j >= 0 {
                npcs.update(j, ReplayNpc { mood: mood, ..npcs[j] })
            } else {
                npcs
            }
        },
        _ => npcs,
    }
}

/// The work an event leaves to the caller, if any.
pub open spec fn spec_action(npcs: Seq<ReplayNpc>, e: WorldEvent) -> Option<ReplayAction> {
    match e {
        WorldEvent::RelationshipChanged { npc_a, npc_b, delta } => if npc_index(npcs, npc_a) >= 0 {
            Some(ReplayAction::AdjustRelationship { npc: npc_a, target: npc_b, delta })
        } else {
            None
        },
        WorldEvent::MemoryAdded { npc_id, content } => {
            let j = npc_index(npcs, npc_id);
            if j >= 0 {
                Some(ReplayAction::AddMemory { npc: npc_id, content, location: npcs[j].location })
            } else {
                None
            }
        },
        WorldEvent::ClockAdvanced { minutes } => Some(ReplayAction::AdvanceClock { minutes }),
        _ => None,
    }
}

/// The state after replaying events in order: the player's location, the
/// weather and the NPCs.
pub open spec fn replayed(
    p: LocationId,
    w: Weather,
    npcs: Seq<ReplayNpc>,
    es: Seq<WorldEvent>,
) -> (LocationId, Weather, Seq<ReplayNpc>)
    decreases es.len(),
{
    if es.len() == 0 {
        (p, w, npcs)
    } else {
        let prev = replayed(p, w, npcs, es.drop_last());
        (
            player_after(prev.0, es.last()),
            weather_after(prev.1, es.last()),
            npcs_after(prev.2, es.last()),
        )
    }
}

/// The work replaying events in order leaves to the caller, in order.
pub open spec fn replay_actions(npcs: Seq<ReplayNpc>, es: Seq<WorldEvent>) -> Seq<ReplayAction>
    decreases es.len(),
{
    if es.len() == 0 {
        Seq::empty()
    } else {
        let before = replayed(LocationId(0), Weather::Clear, npcs, es.drop_last()).2;
        replay_actions(npcs, es.drop_last()) + match spec_action(before, es.last()) {
            Some(a) => seq![a],
            None => Seq::empty(),
        }
    }
}

/// The index of the first NPC with id `id`, if any.
fn find_npc(npcs: &Vec<ReplayNpc>, id: NpcId) -> (r: Option<usize>)
    ensures
        match r {
            Some(j) => j < npcs@.len() && j as int == npc_index(npcs@, id),
            None => npc_index(npcs@, id) == -1,
        },
{
    let mut j: usize = 0;
    while j < npcs.len()
        invariant
            j <= npcs@.len(),
            forall|k: int| 0 <= k < j ==> npcs@[k].id != id,
        decreases npcs@.len() - j,
    {
        if npcs[j].id == id {
            proof {
                lemma_npc_index_at(npcs@, id, j as int);
            }
            return Some(j);
        }
        j = j + 1;
    }
    proof {
        lemma_npc_index_none(npcs@, id);
    }
    None
}

proof fn lemma_npc_index_at(npcs: Seq<ReplayNpc>, id: NpcId, j: int)
    requires
        0 <= j < npcs.len(),
        npcs[j].id == id,
        forall|k: int| 0 <= k < j ==> npcs[k].id != id,
    ensures
        npc_index(npcs, id) == j,
    decreases j,
{
    if j > 0 {
        lemma_npc_index_at(npcs.drop_first(), id, j - 1);
    }
}

proof fn lemma_npc_index_none(npcs: Seq<ReplayNpc>, id: NpcId)
    requires
        forall|k: int| 0 <= k < npcs.len() ==> npcs[k].id != id,
    ensures
        npc_index(npcs, id) == -1,
    decreases npcs.len(),
{
    if npcs.len() > 0 {
        lemma_npc_index_none(npcs.drop_first(), id);
    }
}

/// Reads a weather name: the weather shown under that name, else clear.
pub fn parse_weather(name: &str) -> (r: Weather)
    ensures
        r == spec_parse_weather(name@),
{
    let n = owned(name);
    if n == Weather::Overcast.to_string() {
        Weather::Overcast
    } else if n == Weather::Rain.to_string() {
        Weather::Rain
    } else if n == Weather::Fog.to_string() {
        Weather::Fog
    } else if n == Weather::Storm.to_string() {
        Weather::Storm
    } else {
        Weather::Clear
    }
}

/// The NPCs after replay do not depend on the player's location or the
/// weather.
proof fn lemma_replayed_npcs(
    p1: LocationId,
    w1: Weather,
    p2: LocationId,
    w2: Weather,
    npcs: Seq<ReplayNpc>,
    es: Seq<WorldEvent>,
)
    ensures
        replayed(p1, w1, npcs, es).2 == replayed(p2, w2, npcs, es).2,
    decreases es.len(),
{
    if es.len() > 0 {
        lemma_replayed_npcs(p1, w1, p2, w2, npcs, es.drop_last());
    }
}

/// Replays one event onto the state and returns the work it leaves to the
/// caller. Events about NPCs that are not there are skipped.
pub fn replay_event(s: &mut ReplayState, e: WorldEvent) -> (a: Option<ReplayAction>)
    ensures
        final(s).player_location == player_after(old(s).player_location, e),
        final(s).weather == weather_after(old(s).weather, e),
        final(s).npcs@ == npcs_after(old(s).npcs@, e),
        a == spec_action(old(s).npcs@, e),
{
    match e {
        WorldEvent::PlayerMoved { to, .. } => {
            s.player_location = to;
            None
        },
        WorldEvent::NpcMoved { npc_id, to, .. } => {
            if let Some(j) = find_npc(&s.npcs, npc_id) {
                let mut n = s.npcs.remove(j);
                n.location = to;
                n.state = NpcState::Present(to);
                s.npcs.insert(j, n);
            }
            None
        },
        WorldEvent::NpcMoodChanged { npc_id, mood } => {
            if let Some(j) = find_npc(&s.npcs, npc_id) {
                let mut n = s.npcs.remove(j);
                n.mood = mood;
                s.npcs.insert(j, n);
            }
            None
        },
        WorldEvent::RelationshipChanged { npc_a, npc_b, delta } => {
            match find_npc(&s.npcs, npc_a) {
                Some(_) => Some(ReplayAction::AdjustRelationship { npc: npc_a, target: npc_b, delta }),
                None => None,
            }
        },
        WorldEvent::WeatherChanged { new_weather } => {
            s.weather = parse_weather(new_weather.as_str());
            None
        },
        WorldEvent::MemoryAdded { npc_id, content } => {
            match find_npc(&s.npcs, npc_id) {
                Some(j) => Some(
                    ReplayAction::AddMemory { npc: npc_id, content, location: s.npcs[j].location },
                ),
                None => None,
            }
        },
        WorldEvent::ClockAdvanced { minutes } => Some(ReplayAction::AdvanceClock { minutes }),
        WorldEvent::DialogueOccurred { .. } => None,
    }
}

/// Replays the journal events in order onto the state and returns the
/// work they leave to the caller, in order.
pub fn replay_journal(s: &mut ReplayState, events: Vec<WorldEvent>) -> (acts: Vec<ReplayAction>)
    ensures
        (final(s).player_location, final(s).weather, final(s).npcs@) == replayed(
            old(s).player_location,
            old(s).weather,
            old(s).npcs@,
            events@,
        ),
        acts@ == replay_actions(old(s).npcs@, events@),
{
    let ghost es = events@;
    let ghost p0 = s.player_location;
    let ghost w0 = s.weather;
    let ghost n0 = s.npcs@;
    let total = events.len();
    let mut events = events;
    let mut acts: Vec<ReplayAction> = Vec::new();
    let mut i: usize = 0;
    while events.len() > 0
        invariant
            i <= es.len(),
            es.len() == total,
            events@ == es.skip(i as int),
            (s.player_location, s.weather, s.npcs@) == replayed(p0, w0, n0, es.take(i as int)),
            acts@ == replay_actions(n0, es.take(i as int)),
        decreases events@.len(),
    {
        let e = events.remove(0);
        proof {
            assert(e == es[i as int]);
            assert(es.take(i + 1).drop_last() == es.take(i as int));
            assert(es.take(i + 1).last() == es[i as int]);
            lemma_replayed_npcs(p0, w0, LocationId(0), Weather::Clear, n0, es.take(i as int));
            assert(events@ == es.skip(i + 1));
        }
        let a = replay_event(s, e);
        match a {
            Some(x) => {
                acts.push(x);
            },
            None => {},
        }
        i = i + 1;
    }
    proof {
        assert(es.take(i as int) == es);
    }
    acts
}

/// Law: replaying a journal in two parts, the second onto the state the
/// first left, is replaying it whole.
pub proof fn law_replay_in_parts(
    p: LocationId,
    w: Weather,
    npcs: Seq<ReplayNpc>,
    a: Seq<WorldEvent>,
    b: Seq<WorldEvent>,
)
    ensures
        replayed(p, w, npcs, a + b) == {
            let mid = replayed(p, w, npcs, a);
            replayed(mid.0, mid.1, mid.2, b)
        },
    decreases b.len(),
{
    if b.len() == 0 {
        assert(a + b == a);
    } else {
        assert((a + b).drop_last() == a + b.drop_last());
        assert((a + b).last() == b.last());
        law_replay_in_parts(p, w, npcs, a, b.drop_last());
    }
}

/// Law: a dialogue is kept for history only, and an event about an NPC
/// that is not there is skipped: neither changes the state or leaves work
/// to the caller.
pub proof fn law_replay_skips(p: LocationId, w: Weather, npcs: Seq<ReplayNpc>, e: WorldEvent)
    requires
        e is DialogueOccurred || (e matches WorldEvent::NpcMoved { npc_id, .. } && npc_index(
            npcs,
            npc_id,
        ) < 0) || (e matches WorldEvent::NpcMoodChanged { npc_id, .. } && npc_index(npcs, npc_id)
            < 0) || (e matches WorldEvent::MemoryAdded { npc_id, .. } && npc_index(npcs, npc_id) < 0)
            || (e matches WorldEvent::RelationshipChanged { npc_a, .. } && npc_index(npcs, npc_a)
            < 0),
    ensures
        player_after(p, e) == p,
        weather_after(w, e) == w,
        npcs_after(npcs, e) == npcs,
        spec_action(npcs, e) is None,
{
}

/// Law: reading a weather's display name gives that weather back, so
/// replaying a change to the weather shown as `w` leaves the weather `w`.
pub proof fn law_weather_name_round_trip(w: Weather, before: Weather, e: WorldEvent)
    ensures
        spec_parse_weather(weather_name(w)) == w,
        (e matches WorldEvent::WeatherChanged { new_weather } && new_weather@ == weather_name(w))
            ==> weather_after(before, e) == w,
{
    reveal_strlit("Clear");
    reveal_strlit("Overcast");
    reveal_strlit("Rain");
    reveal_strlit("Fog");
    reveal_strlit("Storm");
    assert(weather_name(Weather::Clear).len() != weather_name(Weather::Overcast).len());
    assert(weather_name(Weather::Clear).len() != weather_name(Weather::Rain).len());
    assert(weather_name(Weather::Clear)[0] != weather_name(Weather::Fog)[0]);
    assert(weather_name(Weather::Clear)[0] != weather_name(Weather::Storm)[0]);
    assert(weather_name(Weather::Rain).len() != weather_name(Weather::Overcast).len());
    assert(weather_name(Weather::Fog).len() != weather_name(Weather::Overcast).len());
    assert(weather_name(Weather::Fog)[0] != weather_name(Weather::Rain)[0]);
    assert(weather_name(Weather::Storm).len() != weather_name(Weather::Overcast).len());
    assert(weather_name(Weather::Storm).len() != weather_name(Weather::Rain).len());
    assert(weather_name(Weather::Storm).len() != weather_name(Weather::Fog).len());
}

} // verus!
