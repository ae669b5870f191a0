//! Relationships among the NPCs of a loaded roster, made two-way.
//!
//! When the NPC file says that A relates to B, B gets a relationship back
//! to A of the same kind and strength, unless it already names A. A
//! relationship's strength is a number kept by the caller; here it is the
//! index under which the caller keeps it.

use vstd::prelude::*;

use crate::npc::NpcId;
use crate::relationship::RelationshipKind;

verus! {

/// A relationship from one NPC to another.
#[derive(Debug, Clone, Copy, PartialEq, Eq, Structural)]
pub struct RelationLink {
    /// The NPC related to.
    pub target: NpcId,
    /// The kind of relationship.
    pub kind: RelationshipKind,
    /// Where the caller keeps the relationship's strength.
    pub strength: u64,
}

/// An NPC of the roster and its relationships, in file order.
#[derive(Debug)]
pub struct RosterEntry {
    pub id: NpcId,
    pub links: Vec<RelationLink>,
}

/// A roster entry as plain values.
pub open spec fn entry_view(e: RosterEntry) -> (NpcId, Seq<RelationLink>) {
    (e.id, e.links@)
}

/// A roster as plain values.
pub open spec fn roster_view(r: Seq<RosterEntry>) -> Seq<(NpcId, Seq<RelationLink>)> {
    r.map_values(|e: RosterEntry| entry_view(e))
}

/// The reciprocal wishes of one NPC: for each of its relationships, the
/// NPC that wishes it and the relationship.
pub open spec fn wishes_of(e: (NpcId, Seq<RelationLink>)) -> Seq<(NpcId, RelationLink)> {
    e.1.map_values(|l: RelationLink| (e.0, l))
}

/// The reciprocal wishes of a roster, NPC by NPC in order.
pub open spec fn wishes(r: Seq<(NpcId, Seq<RelationLink>)>) -> Seq<(NpcId, RelationLink)>
    decreases r.len(),
{
    if r.len() == 0 {
        Seq::empty()
    } else {
        wishes(r.drop_last()) + wishes_of(r.last())
    }
}

/// The index of the first NPC with id `id`, or -1.
pub open spec fn first_index(r: Seq<(NpcId, Seq<RelationLink>)>, id: NpcId) -> int
    decreases r.len(),
{
    if r.len() == 0 {
        -1
    } else if r[0].0 == id {
        0
    } else {
        let k = first_index(r.drop_first(), id);
        if k < 0 {
            -1
        } else {
            k + 1
        }
    }
}

/// Whether `links` name `id`.
pub open spec fn names(links: Seq<RelationLink>, id: NpcId) -> bool {
    exists|k: int| 0 <= k < links.len() && links[k].target == id
}

/// The roster after one wish: the first NPC with the wished-for id gets a
/// relationship back to the NPC that wishes it, unless it already names
/// that NPC.
pub open spec fn grant(
    r: Seq<(NpcId, Seq<RelationLink>)>,
    w: (NpcId, RelationLink),
) -> Seq<(NpcId, Seq<RelationLink>)> {
    let j = first_index(r, w.1.target);
    if j >= 0 && !names(r[j].1, w.0) {
        r.update(
            j,
            (r[j].0, r[j].1.push(RelationLink { target: w.0, kind: w.1.kind, strength: w.1.strength })),
        )
    } else {
        r
    }
}

/// The roster after the wishes, granted in order.
pub open spec fn grant_all(
    r: Seq<(NpcId, Seq<RelationLink>)>,
    ws: Seq<(NpcId, RelationLink)>,
) -> Seq<(NpcId, Seq<RelationLink>)>
    decreases ws.len(),
{
    if ws.len() == 0 {
        r
    } else {
        grant(grant_all(r, ws.drop_last()), ws.last())
    }
}

/// The roster with every relationship made two-way.
pub open spec fn reciprocated(r: Seq<(NpcId, Seq<RelationLink>)>) -> Seq<(NpcId, Seq<RelationLink>)> {
    grant_all(r, wishes(r))
}

/// Whether no two NPCs of a roster share an id.
pub open spec fn ids_unique(r: Seq<(NpcId, Seq<RelationLink>)>) -> bool {
    forall|a: int, b: int| 0 <= a < b < r.len() ==> r[a].0 != r[b].0
}

/// Whether `r2` has the NPCs of `r1`, in order, each with its
/// relationships first and maybe more after them.
pub open spec fn extends(r1: Seq<(NpcId, Seq<RelationLink>)>, r2: Seq<(NpcId, Seq<RelationLink>)>) -> bool {
    &&& r2.len() == r1.len()
    &&& forall|i: int|
        0 <= i < r1.len() ==> {
            &&& #[trigger] r2[i].0 == r1[i].0
            &&& r2[i].1.len() >= r1[i].1.len()
            &&& forall|k: int| 0 <= k < r1[i].1.len() ==> r2[i].1[k] == r1[i].1[k]
        }
}

/// The first index is -1 or the first position holding the id.
proof fn lemma_first_index_spec(r: Seq<(NpcId, Seq<RelationLink>)>, id: NpcId)
    ensures
        first_index(r, id) == -1 || (0 <= first_index(r, id) < r.len() && r[first_index(r, id)].0
            == id),
        first_index(r, id) == -1 ==> forall|k: int| 0 <= k < r.len() ==> r[k].0 != id,
    decreases r.len(),
{
    if r.len() > 0 && r[0].0 != id {
        lemma_first_index_spec(r.drop_first(), id);
        assert forall|k: int| 0 <= k < r.len() && first_index(r, id) == -1 implies r[k].0 != id by {
            if k > 0 {
                assert(r[k] == r.drop_first()[k - 1]);
            }
        }
    }
}

/// Rosters with the same ids in the same order agree on first indices.
proof fn lemma_first_index_same_ids(
    r1: Seq<(NpcId, Seq<RelationLink>)>,
    r2: Seq<(NpcId, Seq<RelationLink>)>,
    id: NpcId,
)
    requires
        r1.len() == r2.len(),
        forall|i: int| 0 <= i < r1.len() ==> #[trigger] r1[i].0 == r2[i].0,
    ensures
        first_index(r1, id) == first_index(r2, id),
    decreases r1.len(),
{
    if r1.len() > 0 {
        assert(r1[0].0 == r2[0].0);
        assert forall|i: int| 0 <= i < r1.drop_first().len() implies #[trigger] r1.drop_first()[i].0
            == r2.drop_first()[i].0 by {
            assert(r1[i + 1].0 == r2[i + 1].0);
        }
        lemma_first_index_same_ids(r1.drop_first(), r2.drop_first(), id);
    }
}

/// With unique ids, the position holding an id is its first index.
proof fn lemma_first_index_unique(r: Seq<(NpcId, Seq<RelationLink>)>, j: int)
    requires
        ids_unique(r),
        0 <= j < r.len(),
    ensures
        first_index(r, r[j].0) == j,
{
    lemma_first_index_at(r, r[j].0, j);
}

/// A grant only adds a relationship at the end of one NPC's list.
proof fn lemma_grant_extends(r: Seq<(NpcId, Seq<RelationLink>)>, w: (NpcId, RelationLink))
    ensures
        extends(r, grant(r, w)),
{
    lemma_first_index_spec(r, w.1.target);
}

/// `extends` is transitive.
proof fn lemma_extends_trans(
    a: Seq<(NpcId, Seq<RelationLink>)>,
    b: Seq<(NpcId, Seq<RelationLink>)>,
    c: Seq<(NpcId, Seq<RelationLink>)>,
)
    requires
        extends(a, b),
        extends(b, c),
    ensures
        extends(a, c),
{
    assert forall|i: int| 0 <= i < a.len() implies {
        &&& #[trigger] c[i].0 == a[i].0
        &&& c[i].1.len() >= a[i].1.len()
        &&& forall|k: int| 0 <= k < a[i].1.len() ==> c[i].1[k] == a[i].1[k]
    } by {
        assert(b[i].0 == a[i].0);
        assert(c[i].0 == b[i].0);
    }
}

/// Granting wishes only adds relationships.
proof fn lemma_grant_all_extends(r: Seq<(NpcId, Seq<RelationLink>)>, ws: Seq<(NpcId, RelationLink)>)
    ensures
        extends(r, grant_all(r, ws)),
    decreases ws.len(),
{
    if ws.len() == 0 {
        assert(extends(r, r));
    } else {
        lemma_grant_all_extends(r, ws.drop_last());
        lemma_grant_extends(grant_all(r, ws.drop_last()), ws.last());
        lemma_extends_trans(r, grant_all(r, ws.drop_last()), grant_all(r, ws));
    }
}

/// Every granted wish is answered: the first NPC with the wished-for id
/// names the NPC that wished.
proof fn lemma_grant_all_answers(
    r: Seq<(NpcId, Seq<RelationLink>)>,
    ws: Seq<(NpcId, RelationLink)>,
    m: int,
)
    requires
        0 <= m < ws.len(),
        first_index(r, ws[m].1.target) >= 0,
    ensures
        names(grant_all(r, ws)[first_index(r, ws[m].1.target)].1, ws[m].0),
    decreases ws.len(),
{
    let prev = grant_all(r, ws.drop_last());
    let j = first_index(r, ws[m].1.target);
    lemma_grant_all_extends(r, ws.drop_last());
    lemma_first_index_same_ids(r, prev, ws[m].1.target);
    lemma_first_index_spec(r, ws[m].1.target);
    lemma_grant_extends(prev, ws.last());
    if m == ws.len() - 1 {
        let w = ws.last();
        if names(prev[j].1, w.0) {
            let k = choose|k: int| 0 <= k < prev[j].1.len() && prev[j].1[k].target == w.0;
            assert(grant_all(r, ws)[j].1[k] == prev[j].1[k]);
        } else {
            assert(grant_all(r, ws)[j].1[prev[j].1.len() as int].target == w.0);
        }
    } else {
        assert(ws.drop_last()[m] == ws[m]);
        lemma_grant_all_answers(r, ws.drop_last(), m);
        let k = choose|k: int| 0 <= k < prev[j].1.len() && prev[j].1[k].target == ws[m].0;
        assert(grant_all(r, ws) == grant(prev, ws.last()));
        assert(grant(prev, ws.last())[j].0 == prev[j].0);
        assert(grant_all(r, ws)[j].1[k] == prev[j].1[k]);
    }
}

/// A relationship that granting added answers a wish: its NPC holds the
/// wished-for id, and it points at the NPC that wished.
proof fn lemma_grant_all_added(
    r: Seq<(NpcId, Seq<RelationLink>)>,
    ws: Seq<(NpcId, RelationLink)>,
    i: int,
    k: int,
)
    requires
        0 <= i < r.len(),
        r[i].1.len() <= k < grant_all(r, ws)[i].1.len(),
    ensures
        exists|m: int|
            0 <= m < ws.len() && #[trigger] ws[m].1.target == r[i].0 && ws[m].0 == grant_all(
                r,
                ws,
            )[i].1[k].target && ws[m].1.kind == grant_all(r, ws)[i].1[k].kind && ws[m].1.strength
                == grant_all(r, ws)[i].1[k].strength,
    decreases ws.len(),
{
    let prev = grant_all(r, ws.drop_last());
    lemma_grant_all_extends(r, ws.drop_last());
    lemma_grant_extends(prev, ws.last());
    let w = ws.last();
    let j = first_index(prev, w.1.target);
    lemma_first_index_spec(prev, w.1.target);
    if k < prev[i].1.len() {
        lemma_grant_all_added(r, ws.drop_last(), i, k);
        let m = choose|m: int|
            0 <= m < ws.drop_last().len() && #[trigger] ws.drop_last()[m].1.target == r[i].0
                && ws.drop_last()[m].0 == prev[i].1[k].target && ws.drop_last()[m].1.kind
                == prev[i].1[k].kind && ws.drop_last()[m].1.strength == prev[i].1[k].strength;
        assert(ws[m] == ws.drop_last()[m]);
        assert(grant_all(r, ws)[i].1[k] == prev[i].1[k]);
    } else {
        assert(j == i);
        assert(ws[ws.len() - 1] == w);
        assert(ws[ws.len() - 1].1.target == r[i].0);
    }
}

/// Every relationship of the roster is among its wishes.
proof fn lemma_wishes_cover(r: Seq<(NpcId, Seq<RelationLink>)>, p: int, k: int)
    requires
        0 <= p < r.len(),
        0 <= k < r[p].1.len(),
    ensures
        exists|m: int| 0 <= m < wishes(r).len() && #[trigger] wishes(r)[m] == (r[p].0, r[p].1[k]),
    decreases r.len(),
{
    let ws = wishes(r);
    let before = wishes(r.drop_last());
    if p == r.len() - 1 {
        assert(ws[before.len() + k] == wishes_of(r.last())[k]);
    } else {
        assert(r.drop_last()[p] == r[p]);
        lemma_wishes_cover(r.drop_last(), p, k);
        let m = choose|m: int| 0 <= m < before.len() && #[trigger] before[m] == (r[p].0, r[p].1[k]);
        assert(ws[m] == before[m]);
    }
}

/// Every wish comes from a relationship of the roster.
proof fn lemma_wishes_from(r: Seq<(NpcId, Seq<RelationLink>)>, m: int)
    requires
        0 <= m < wishes(r).len(),
    ensures
        exists|p: int, k: int|
            0 <= p < r.len() && 0 <= k < r[p].1.len() && #[trigger] wishes(r)[m] == (
                r[p].0,
                #[trigger] r[p].1[k],
            ),
    decreases r.len(),
{
    let before = wishes(r.drop_last());
    if m < before.len() {
        lemma_wishes_from(r.drop_last(), m);
        let (p, k) = choose|p: int, k: int|
            0 <= p < r.drop_last().len() && 0 <= k < r.drop_last()[p].1.len()
                && #[trigger] before[m] == (r.drop_last()[p].0, #[trigger] r.drop_last()[p].1[k]);
        assert(r.drop_last()[p] == r[p]);
        assert(wishes(r)[m] == before[m]);
    } else {
        let p = r.len() - 1;
        let k = m - before.len();
        assert(wishes(r)[m] == wishes_of(r.last())[k]);
        assert(wishes(r)[m] == (r[p].0, r[p].1[k]));
    }
}

/// Law: `reciprocate` keeps the roster's NPCs and order, and keeps each
/// NPC's relationships first in its list.
pub proof fn law_reciprocate_keeps(r: Seq<(NpcId, Seq<RelationLink>)>)
    ensures
        extends(r, reciprocated(r)),
{
    lemma_grant_all_extends(r, wishes(r));
}

/// Law: in a roster whose NPC ids are unique, after `reciprocate` every
/// relationship to an NPC of the roster is two-way: that NPC names the
/// first one back.
pub proof fn law_reciprocated_two_way(r: Seq<(NpcId, Seq<RelationLink>)>, i: int, k: int, j: int)
    requires
        ids_unique(r),
        0 <= i < reciprocated(r).len(),
        0 <= k < reciprocated(r)[i].1.len(),
        0 <= j < reciprocated(r).len(),
        reciprocated(r)[j].0 == reciprocated(r)[i].1[k].target,
    ensures
        names(reciprocated(r)[j].1, reciprocated(r)[i].0),
{
    let ws = wishes(r);
    let big = reciprocated(r);
    lemma_grant_all_extends(r, ws);
    let x = big[i].1[k];
    assert(big[i].0 == r[i].0);
    assert(big[j].0 == r[j].0);
    lemma_first_index_unique(r, j);
    if k < r[i].1.len() {
        lemma_wishes_cover(r, i, k);
        let m = choose|m: int| 0 <= m < ws.len() && #[trigger] ws[m] == (r[i].0, r[i].1[k]);
        assert(x == r[i].1[k]);
        lemma_grant_all_answers(r, ws, m);
    } else {
        lemma_grant_all_added(r, ws, i, k);
        let m = choose|m: int|
            0 <= m < ws.len() && #[trigger] ws[m].1.target == r[i].0 && ws[m].0 == x.target
                && ws[m].1.kind == x.kind && ws[m].1.strength == x.strength;
        lemma_wishes_from(r, m);
        let (p, k2) = choose|p: int, k2: int|
            0 <= p < r.len() && 0 <= k2 < r[p].1.len() && #[trigger] ws[m] == (
                r[p].0,
                #[trigger] r[p].1[k2],
            );
        assert(r[p].0 == r[j].0);
        if p != j {
            if p < j {
                assert(r[p].0 != r[j].0);
            } else {
                assert(r[j].0 != r[p].0);
            }
        }
        assert(big[j].1[k2] == r[j].1[k2]);
        assert(big[j].1[k2].target == big[i].0);
    }
}

/// Law: a relationship that reciprocation adds answers one of the file:
/// some NPC with the id it points at has a relationship to the NPC that
/// gained it, of the same kind and strength.
pub proof fn law_reciprocated_same_kind(r: Seq<(NpcId, Seq<RelationLink>)>, j: int, k: int)
    requires
        0 <= j < r.len(),
        r[j].1.len() <= k < reciprocated(r)[j].1.len(),
    ensures
        exists|i: int, k2: int|
            0 <= i < r.len() && 0 <= k2 < r[i].1.len() && r[i].0 == reciprocated(r)[j].1[k].target
                && #[trigger] r[i].1[k2].target == r[j].0 && r[i].1[k2].kind == reciprocated(
                r,
            )[j].1[k].kind && r[i].1[k2].strength == reciprocated(r)[j].1[k].strength,
{
    let ws = wishes(r);
    let x = reciprocated(r)[j].1[k];
    lemma_grant_all_added(r, ws, j, k);
    let m = choose|m: int|
        0 <= m < ws.len() && #[trigger] ws[m].1.target == r[j].0 && ws[m].0 == x.target
            && ws[m].1.kind == x.kind && ws[m].1.strength == x.strength;
    lemma_wishes_from(r, m);
    let (p, k2) = choose|p: int, k2: int|
        0 <= p < r.len() && 0 <= k2 < r[p].1.len() && #[trigger] ws[m] == (
            r[p].0,
            #[trigger] r[p].1[k2],
        );
    assert(r[p].1[k2].target == r[j].0);
}

/// The index of the first entry with id `id`, if any.
fn find_entry(npcs: &Vec<RosterEntry>, id: NpcId) -> (r: Option<usize>)
    ensures
        match r {
            Some(j) => j as int == first_index(roster_view(npcs@), id) && j < npcs@.len()
                && npcs@[j as int].id == id,
            None => first_index(roster_view(npcs@), id) == -1,
        },
{
    let ghost rv = roster_view(npcs@);
    let mut j: usize = 0;
    while j < npcs.len()
        invariant
            j <= npcs@.len(),
            rv == roster_view(npcs@),
            forall|k: int| 0 <= k < j ==> npcs@[k].id != id,
        decreases npcs@.len() - j,
    {
        if npcs[j].id == id {
            proof {
                lemma_first_index_at(rv, id, j as int);
            }
            return Some(j);
        }
        j = j + 1;
    }
    proof {
        lemma_first_index_none(rv, id);
    }
    None
}

/// The first index is the first position holding the id.
proof fn lemma_first_index_at(r: Seq<(NpcId, Seq<RelationLink>)>, id: NpcId, j: int)
    requires
        0 <= j < r.len(),
        r[j].0 == id,
        forall|k: int| 0 <= k < j ==> r[k].0 != id,
    ensures
        first_index(r, id) == j,
    decreases j,
{
    if j > 0 {
        lemma_first_index_at(r.drop_first(), id, j - 1);
    }
}

/// No position holds the id: the first index is -1.
proof fn lemma_first_index_none(r: Seq<(NpcId, Seq<RelationLink>)>, id: NpcId)
    requires
        forall|k: int| 0 <= k < r.len() ==> r[k].0 != id,
    ensures
        first_index(r, id) == -1,
    decreases r.len(),
{
    if r.len() > 0 {
        lemma_first_index_none(r.drop_first(), id);
    }
}

/// Whether some relationship in `links` names `id`.
fn names_exec(links: &Vec<RelationLink>, id: NpcId) -> (r: bool)
    ensures
        r == names(links@, id),
{
    let mut k: usize = 0;
    while k < links.len()
        invariant
            k <= links@.len(),
            forall|m: int| 0 <= m < k ==> links@[m].target != id,
        decreases links@.len() - k,
    {
        if links[k].target == id {
            return true;
        }
        k = k + 1;
    }
    false
}

/// The reciprocal wishes of the roster, NPC by NPC.
fn collect_wishes(npcs: &Vec<RosterEntry>) -> (ws: Vec<(NpcId, RelationLink)>)
    ensures
        ws@ == wishes(roster_view(npcs@)),
{
    let ghost r0 = roster_view(npcs@);
    let mut ws: Vec<(NpcId, RelationLink)> = Vec::new();
    let mut i: usize = 0;
    while i < npcs.len()
        invariant
            i <= npcs@.len(),
            r0 == roster_view(npcs@),
            ws@ == wishes(r0.take(i as int)),
        decreases npcs@.len() - i,
    {
        let id = npcs[i].id;
        let mut k: usize = 0;
        let ghost before = ws@;
        while k < npcs[i].links.len()
            invariant
                i < npcs@.len(),
                k <= npcs@[i as int].links@.len(),
                r0 == roster_view(npcs@),
                id == npcs@[i as int].id,
                before == wishes(r0.take(i as int)),
                ws@ == before + wishes_of(r0[i as int]).take(k as int),
            decreases npcs@[i as int].links@.len() - k,
        {
            let l = npcs[i].links[k];
            ws.push((id, l));
            proof {
                assert(wishes_of(r0[i as int]).take(k + 1) == wishes_of(r0[i as int]).take(
                    k as int,
                ).push((id, l)));
            }
            k = k + 1;
        }
        proof {
            assert(wishes_of(r0[i as int]).take(k as int) == wishes_of(r0[i as int]));
            assert(r0.take(i + 1).drop_last() == r0.take(i as int));
        }
        i = i + 1;
    }
    proof {
        assert(r0.take(npcs@.len() as int) == r0);
    }
    ws
}

/// Grants one wish.
fn grant_one(npcs: &mut Vec<RosterEntry>, from: NpcId, l: RelationLink)
    ensures
        roster_view(final(npcs)@) == grant(roster_view(old(npcs)@), (from, l)),
{
    let ghost cur = roster_view(npcs@);
    match find_entry(npcs, l.target) {
        Some(j) => {
            if !names_exec(&npcs[j].links, from) {
                let mut e = npcs.remove(j);
                e.links.push(RelationLink { target: from, kind: l.kind, strength: l.strength });
                npcs.insert(j, e);
                proof {
                    assert(roster_view(npcs@) =~= grant(cur, (from, l)));
                }
            }
        },
        None => {},
    }
}

/// Makes every relationship of the roster two-way: for each relationship
/// of each NPC, in file order, the first NPC with the related id gets a
/// relationship back of the same kind and strength, unless it already
/// names that NPC.
pub fn reciprocate(npcs: &mut Vec<RosterEntry>)
    ensures
        roster_view(final(npcs)@) == reciprocated(roster_view(old(npcs)@)),
{
    let ghost r0 = roster_view(npcs@);
    let ws = collect_wishes(npcs);
    let mut m: usize = 0;
    while m < ws.len()
        invariant
            m <= ws@.len(),
            ws@ == wishes(r0),
            roster_view(npcs@) == grant_all(r0, ws@.take(m as int)),
        decreases ws@.len() - m,
    {
        let (from, l) = ws[m];
        proof {
            assert(ws@.take(m + 1).drop_last() == ws@.take(m as int));
        }
        grant_one(npcs, from, l);
        m = m + 1;
    }
    proof {
        assert(ws@.take(ws@.len() as int) == ws@);
    }
}

} // verus!
