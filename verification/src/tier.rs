//! Cognitive tiers: how much simulation effort an NPC gets, by its
//! distance from the player, and Tier 3 batching.

use vstd::prelude::*;

use crate::npc::NpcId;
use crate::schedule::NpcState;
use crate::inference::InferenceResponse;
use crate::memory::join_lines;
use crate::world::{time_of_day_name, TimeOfDay};
use crate::npc::trimmed;
use crate::text::{concat3, owned, trim};
use crate::world::LocationId;

verus! {

/// Cognitive fidelity tier for an NPC (lower = more fidelity).
#[derive(Debug, Clone, Copy, PartialEq, Eq, Structural)]
pub enum CogTier {
    /// Full LLM inference — same location as the player.
    Tier1,
    /// Lighter LLM inference — 1-2 edges away.
    Tier2,
    /// Rule-based simulation — 3+ edges away.
    Tier3,
    /// Schedule-only — unreachable or in transit.
    Tier4,
}

/// The tier of an NPC given the number of locations on the shortest path
/// from the player to it (`None` when unreachable).
pub open spec fn spec_tier(state: NpcState, player: LocationId, path_nodes: Option<usize>) -> CogTier {
    match state {
        NpcState::InTransit { .. } => CogTier::Tier4,
        NpcState::Present(loc) => if loc == player {
            CogTier::Tier1
        } else {
            match path_nodes {
                Some(n) => if n - 1 == 0 {
                    CogTier::Tier1
                } else if n - 1 <= 2 {
                    CogTier::Tier2
                } else {
                    CogTier::Tier3
                },
                None => CogTier::Tier4,
            }
        },
    }
}

/// Assigns a tier: Tier 1 at the player's location, Tier 2 one or two
/// edges away, Tier 3 further, Tier 4 when unreachable or in transit.
/// `path_nodes` counts the locations on the shortest path, both ends included.
pub fn tier_for(state: NpcState, player: LocationId, path_nodes: Option<usize>) -> (r: CogTier)
    requires
        path_nodes matches Some(n) ==> n >= 1,
    ensures
        r == spec_tier(state, player, path_nodes),
{
    match state {
        NpcState::InTransit { .. } => CogTier::Tier4,
        NpcState::Present(npc_loc) => {
            if npc_loc == player {
                CogTier::Tier1
            } else {
                match path_nodes {
                    Some(n) => {
                        let distance = n - 1;
                        if distance == 0 {
                            CogTier::Tier1
                        } else if distance <= 2 {
                            CogTier::Tier2
                        } else {
                            CogTier::Tier3
                        }
                    },
                    None => CogTier::Tier4,
                }
            }
        },
    }
}

/// Assigns every NPC its tier, in the order given: `path_nodes[i]` is the
/// number of locations on the shortest path from the player to the `i`-th
/// NPC's location (`None` when unreachable), as the world graph reports.
pub fn assign_tiers(
    npcs: &[(NpcId, NpcState)],
    player: LocationId,
    path_nodes: &[Option<usize>],
) -> (r: Vec<(NpcId, CogTier)>)
    requires
        path_nodes@.len() == npcs@.len(),
        forall|i: int|
            0 <= i < path_nodes@.len() ==> (#[trigger] path_nodes@[i] matches Some(n) ==> n >= 1),
    ensures
        r@.len() == npcs@.len(),
        forall|i: int|
            0 <= i < npcs@.len() ==> #[trigger] r@[i] == (
                npcs@[i].0,
                spec_tier(npcs@[i].1, player, path_nodes@[i]),
            ),
{
    let mut r: Vec<(NpcId, CogTier)> = Vec::new();
    let mut i: usize = 0;
    while i < npcs.len()
        invariant
            i <= npcs@.len(),
            path_nodes@.len() == npcs@.len(),
            forall|k: int|
                0 <= k < path_nodes@.len() ==> (#[trigger] path_nodes@[k] matches Some(n) ==> n
                    >= 1),
            r@.len() == i,
            forall|k: int|
                0 <= k < i ==> #[trigger] r@[k] == (
                    npcs@[k].0,
                    spec_tier(npcs@[k].1, player, path_nodes@[k]),
                ),
        decreases npcs@.len() - i,
    {
        let (id, state) = npcs[i];
        let t = tier_for(state, player, path_nodes[i]);
        r.push((id, t));
        i = i + 1;
    }
    r
}

/// The tier's number (1 for Tier 1, ... 4 for Tier 4).
pub open spec fn tier_rank(t: CogTier) -> int {
    match t {
        CogTier::Tier1 => 1,
        CogTier::Tier2 => 2,
        CogTier::Tier3 => 3,
        CogTier::Tier4 => 4,
    }
}

/// Law: an NPC further from the player never gets more fidelity, an
/// unreachable one gets the least, and one at the player's location the
/// most.
pub proof fn law_tier_monotone(loc: LocationId, player: LocationId, n1: usize, n2: usize)
    requires
        1 <= n1 <= n2,
    ensures
        tier_rank(spec_tier(NpcState::Present(loc), player, Some(n1))) <= tier_rank(
            spec_tier(NpcState::Present(loc), player, Some(n2)),
        ),
        tier_rank(spec_tier(NpcState::Present(loc), player, Some(n1))) <= tier_rank(
            spec_tier(NpcState::Present(loc), player, None),
        ),
        spec_tier(NpcState::Present(player), player, Some(n2)) == CogTier::Tier1,
{
}

/// The short label of a tier ("T1" .. "T4").
pub open spec fn spec_tier_label(t: CogTier) -> Seq<char> {
    match t {
        CogTier::Tier1 => "T1"@,
        CogTier::Tier2 => "T2"@,
        CogTier::Tier3 => "T3"@,
        CogTier::Tier4 => "T4"@,
    }
}

/// The short label of a tier ("T1" .. "T4").
pub fn tier_label(tier: CogTier) -> (r: &'static str)
    ensures
        r@ == spec_tier_label(tier),
{
    match tier {
        CogTier::Tier1 => "T1",
        CogTier::Tier2 => "T2",
        CogTier::Tier3 => "T3",
        CogTier::Tier4 => "T4",
    }
}

/// Number of tiers in `ts` equal to `t`.
pub open spec fn count_tier(ts: Seq<CogTier>, t: CogTier) -> nat
    decreases ts.len(),
{
    if ts.len() == 0 {
        0
    } else {
        count_tier(ts.drop_last(), t) + if ts.last() == t {
            1nat
        } else {
            0nat
        }
    }
}

/// Counts tiers: (Tier 1, Tier 2, everything else).
pub fn tier_counts(tiers: &[CogTier]) -> (r: (usize, usize, usize))
    ensures
        r.0 == count_tier(tiers@, CogTier::Tier1),
        r.1 == count_tier(tiers@, CogTier::Tier2),
        r.0 + r.1 + r.2 == tiers@.len(),
{
    let mut t1: usize = 0;
    let mut t2: usize = 0;
    let mut t3: usize = 0;
    let mut i: usize = 0;
    while i < tiers.len()
        invariant
            i <= tiers@.len(),
            t1 == count_tier(tiers@.take(i as int), CogTier::Tier1),
            t2 == count_tier(tiers@.take(i as int), CogTier::Tier2),
            t1 + t2 + t3 == i,
        decreases tiers@.len() - i,
    {
        proof {
            assert(tiers@.take(i + 1).drop_last() == tiers@.take(i as int));
            assert(tiers@.take(i + 1).last() == tiers@[i as int]);
        }
        match tiers[i] {
            CogTier::Tier1 => t1 = t1 + 1,
            CogTier::Tier2 => t2 = t2 + 1,
            _ => t3 = t3 + 1,
        }
        i = i + 1;
    }
    assert(tiers@.take(tiers@.len() as int) == tiers@);
    (t1, t2, t3)
}

/// The ids assigned a given tier, in assignment order.
pub fn npcs_in_tier(assignments: &[(NpcId, CogTier)], tier: CogTier) -> (r: Vec<NpcId>)
    ensures
        r@ == assignments@.filter(|a: (NpcId, CogTier)| a.1 == tier).map_values(
            |a: (NpcId, CogTier)| a.0,
        ),
{
    let ghost f = |a: (NpcId, CogTier)| a.1 == tier;
    let ghost g = |a: (NpcId, CogTier)| a.0;
    let mut r: Vec<NpcId> = Vec::new();
    let mut i: usize = 0;
    while i < assignments.len()
        invariant
            i <= assignments@.len(),
            f == (|a: (NpcId, CogTier)| a.1 == tier),
            g == (|a: (NpcId, CogTier)| a.0),
            r@ == assignments@.take(i as int).filter(f).map_values(g),
        decreases assignments@.len() - i,
    {
        proof {
            reveal(Seq::filter);
            assert(assignments@.take(i + 1).drop_last() == assignments@.take(i as int));
            assert(assignments@.take(i + 1).last() == assignments@[i as int]);
        }
        let (id, t) = assignments[i];
        if t == tier {
            r.push(id);
            proof {
                let old_f = assignments@.take(i as int).filter(f);
                assert(old_f.push(assignments@[i as int]).map_values(g) == old_f.map_values(g).push(
                    id,
                ));
            }
        }
        i = i + 1;
    }
    assert(assignments@.take(assignments@.len() as int) == assignments@);
    r
}

/// The summary a Tier 2 interaction gets: the model's text, trimmed, or —
/// when the request failed or the text is blank — a quiet default naming
/// the place.
pub open spec fn spec_tier2_summary(response: InferenceResponse, loc_name: Seq<char>) -> Seq<char> {
    if response.error is Some || trim(response.text@).len() == 0 {
        "The people at "@ + loc_name + " go about their business quietly."@
    } else {
        trim(response.text@)
    }
}

/// The summary of a Tier 2 interaction from the model's response.
pub fn tier2_summary(response: &InferenceResponse, loc_name: &str) -> (r: String)
    ensures
        r@ == spec_tier2_summary(*response, loc_name@),
{
    let text = trimmed(response.text.as_str());
    if response.error.is_some() || text.unicode_len() == 0 {
        concat3("The people at ", loc_name, " go about their business quietly.")
    } else {
        text
    }
}

/// The line describing one NPC in a Tier 2 prompt.
pub open spec fn spec_tier2_npc_line(
    name: Seq<char>,
    occupation: Seq<char>,
    mood: Seq<char>,
    personality: Seq<char>,
) -> Seq<char> {
    "- "@ + name + " ("@ + occupation + "), mood: "@ + mood + ", personality: "@ + personality
}

/// The line describing one NPC in a Tier 2 prompt.
pub fn tier2_npc_line(name: &str, occupation: &str, mood: &str, personality: &str) -> (r: String)
    ensures
        r@ == spec_tier2_npc_line(name@, occupation@, mood@, personality@),
{
    let mut s = concat3("- ", name, " (");
    s.append(occupation);
    s.append("), mood: ");
    s.append(mood);
    s.append(", personality: ");
    s.append(personality);
    s
}

/// The prompt asking for a Tier 2 interaction between the NPCs at a place.
pub open spec fn spec_tier2_prompt(time: TimeOfDay, loc_name: Seq<char>, lines: Seq<Seq<char>>) -> Seq<
    char,
> {
    "It is "@ + time_of_day_name(time) + " at "@ + loc_name + ". The following people are here:\n"@
        + join_lines(lines)
        + "\n\nIn 1-2 sentences, briefly describe a natural interaction between them. Focus on dialogue and small actions. Stay in character.\nRespond with just the narrative text, no JSON."@
}

/// The system prompt of Tier 2 requests.
pub fn tier2_system_prompt() -> (r: &'static str)
    ensures
        r@ == "You are a narrator for an Irish village simulation. Write brief, atmospheric prose about village life. Keep responses to 1-2 sentences."@,
{
    "You are a narrator for an Irish village simulation. Write brief, atmospheric prose about village life. Keep responses to 1-2 sentences."
}

/// The prompt asking for a Tier 2 interaction: the time, the place, and
/// one line per NPC present.
pub fn tier2_prompt(time: TimeOfDay, loc_name: &str, npc_lines: &Vec<String>) -> (r: String)
    ensures
        r@ == spec_tier2_prompt(time, loc_name@, npc_lines@.map_values(|l: String| l@)),
{
    let ghost lines = npc_lines@.map_values(|l: String| l@);
    let mut s = owned("It is ");
    let t = time.to_string();
    s.append(t.as_str());
    s.append(" at ");
    s.append(loc_name);
    s.append(". The following people are here:\n");
    let ghost head = s@;
    let mut joined = String::new();
    let mut i: usize = 0;
    while i < npc_lines.len()
        invariant
            i <= npc_lines@.len(),
            lines == npc_lines@.map_values(|l: String| l@),
            joined@ == join_lines(lines.take(i as int)),
        decreases npc_lines@.len() - i,
    {
        if i > 0 {
            joined.append("\n");
        }
        joined.append(npc_lines[i].as_str());
        proof {
            reveal_strlit("\n");
            let next = lines.take(i + 1);
            assert(next.drop_last() == lines.take(i as int));
            assert(next.last() == lines[i as int]);
            if i == 0 {
                assert(next.len() == 1);
                assert(lines.take(0).len() == 0);
            }
        }
        i = i + 1;
    }
    assert(lines.take(lines.len() as int) == lines);
    s.append(joined.as_str());
    s.append(
        "\n\nIn 1-2 sentences, briefly describe a natural interaction between them. Focus on dialogue and small actions. Stay in character.\nRespond with just the narrative text, no JSON.",
    );
    s
}

/// Maximum NPCs per Tier 3 batch.
pub const TIER3_BATCH_SIZE: usize = 8;

/// Game-minutes between Tier 3 ticks (one game day).
pub const TIER3_TICK_GAME_MINUTES: i64 = 1440;

/// The batches `ids` splits into: consecutive chunks of `size`, the last
/// possibly shorter; none when `size` is 0.
pub open spec fn batches_of(ids: Seq<NpcId>, size: nat) -> Seq<Seq<NpcId>>
    decreases ids.len(),
{
    if size == 0 || ids.len() == 0 {
        Seq::empty()
    } else if ids.len() <= size {
        seq![ids]
    } else {
        seq![ids.take(size as int)] + batches_of(ids.skip(size as int), size)
    }
}

/// Splits NPC ids into batches of the given size (the last may be smaller).
pub fn split_into_batches(npc_ids: &[NpcId], batch_size: usize) -> (r: Vec<Vec<NpcId>>)
    ensures
        r@.map_values(|b: Vec<NpcId>| b@) == batches_of(npc_ids@, batch_size as nat),
{
    let mut r: Vec<Vec<NpcId>> = Vec::new();
    if batch_size == 0 {
        assert(r@.map_values(|b: Vec<NpcId>| b@) == Seq::<Seq<NpcId>>::empty());
        return r;
    }
    let n = npc_ids.len();
    let mut start: usize = 0;
    assert(r@.map_values(|b: Vec<NpcId>| b@) == Seq::<Seq<NpcId>>::empty());
    assert(npc_ids@.skip(0) == npc_ids@);
    assert(Seq::<Seq<NpcId>>::empty() + batches_of(npc_ids@, batch_size as nat) == batches_of(npc_ids@, batch_size as nat));
    while start < n
        invariant
            batch_size > 0,
            n == npc_ids@.len(),
            start <= n,
            r@.map_values(|b: Vec<NpcId>| b@) + batches_of(npc_ids@.skip(start as int), batch_size as nat)
                == batches_of(npc_ids@, batch_size as nat),
        decreases n - start,
    {
        let end = if n - start > batch_size {
            start + batch_size
        } else {
            n
        };
        let mut chunk: Vec<NpcId> = Vec::new();
        let mut k = start;
        while k < end
            invariant
                start <= k <= end <= n,
                n == npc_ids@.len(),
                chunk@ == npc_ids@.subrange(start as int, k as int),
            decreases end - k,
        {
            chunk.push(npc_ids[k]);
            assert(npc_ids@.subrange(start as int, k + 1) == npc_ids@.subrange(start as int, k as int).push(npc_ids@[k as int]));
            k = k + 1;
        }
        let ghost rest = npc_ids@.skip(start as int);
        let ghost before = r@.map_values(|b: Vec<NpcId>| b@);
        r.push(chunk);
        proof {
            assert(r@.map_values(|b: Vec<NpcId>| b@) == before.push(chunk@));
            if rest.len() <= batch_size {
                assert(chunk@ == rest);
                assert(npc_ids@.skip(end as int).len() == 0);
                assert(batches_of(npc_ids@.skip(end as int), batch_size as nat) == Seq::<Seq<NpcId>>::empty());
                assert(before + seq![rest] == before.push(chunk@));
            } else {
                assert(chunk@ == rest.take(batch_size as int));
                assert(rest.skip(batch_size as int) == npc_ids@.skip(end as int));
                assert(before + (seq![chunk@] + batches_of(npc_ids@.skip(end as int), batch_size as nat))
                    == before.push(chunk@) + batches_of(npc_ids@.skip(end as int), batch_size as nat));
            }
        }
        start = end;
    }
    assert(npc_ids@.skip(n as int).len() == 0);
    assert(batches_of(npc_ids@.skip(n as int), batch_size as nat) == Seq::<Seq<NpcId>>::empty());
    assert(r@.map_values(|b: Vec<NpcId>| b@) + Seq::<Seq<NpcId>>::empty() == r@.map_values(|b: Vec<NpcId>| b@));
    r
}

/// Law: the batches, concatenated, give back the ids, and every batch has
/// between 1 and `size` ids.
pub proof fn law_batches_partition(ids: Seq<NpcId>, size: nat)
    requires
        size > 0,
    ensures
        batches_of(ids, size).flatten() == ids,
        forall|i: int|
            0 <= i < batches_of(ids, size).len() ==> 1 <= (#[trigger] batches_of(ids, size)[i]).len() <= size,
    decreases ids.len(),
{
    let bs = batches_of(ids, size);
    if ids.len() == 0 {
        assert(bs.len() == 0);
        assert(ids == Seq::<NpcId>::empty());
    } else if ids.len() <= size {
        assert(bs == seq![ids]);
        assert(bs.drop_first() == Seq::<Seq<NpcId>>::empty());
        assert(bs.drop_first().flatten() == Seq::<NpcId>::empty());
        assert(bs.flatten() == bs.first() + bs.drop_first().flatten());
        assert(ids + Seq::<NpcId>::empty() == ids);
    } else {
        let rest = ids.skip(size as int);
        law_batches_partition(rest, size);
        let rb = batches_of(rest, size);
        assert(bs == seq![ids.take(size as int)] + rb);
        assert(bs.first() == ids.take(size as int));
        assert(bs.drop_first() == rb);
        assert(ids.take(size as int) + rest == ids);
        assert(bs.flatten() == bs.first() + bs.drop_first().flatten());
        assert forall|i: int| 0 <= i < bs.len() implies 1 <= (#[trigger] bs[i]).len() <= size by {
            if i > 0 {
                assert(bs[i] == rb[i - 1]);
            }
        }
    }
}

} // verus!
