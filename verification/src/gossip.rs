//! Gossip propagation network.
//!
//! NPCs spread gossip with probabilistic transfer and simple string
//! mutation for distortion over time.

use rand::rngs::ThreadRng;
use rand::Rng;
use vstd::prelude::*;

use crate::memory::{format_hh_mm, hh_mm, join_lines};
use crate::npc::NpcId;
use crate::text::{
    chars_of, concat2, concat3, find_from, find_pattern, lemma_find_from, owned, string_of_range,
    utf8_len,
};

verus! {

/// The word swaps gossip undergoes, tried in order.
pub open spec fn swap_pairs() -> Seq<(Seq<char>, Seq<char>)> {
    seq![
        ("saw"@, "heard"@),
        ("told"@, "mentioned"@),
        ("went to"@, "was seen near"@),
        ("said"@, "whispered"@),
        ("angry"@, "upset"@),
    ]
}

/// The hedges prefixed when no swap changes the text.
pub open spec fn hedges() -> Seq<Seq<char>> {
    seq!["Apparently, "@, "Supposedly, "@, "I heard that "@]
}

/// Index of the first swap whose word occurs in `s`, from swap `k` on.
pub open spec fn first_swap_from(s: Seq<char>, k: int) -> Option<int>
    decreases 5 - k,
{
    if k < 0 || k >= 5 {
        None
    } else if find_from(s, swap_pairs()[k].0, 0) is Some {
        Some(k)
    } else {
        first_swap_from(s, k + 1)
    }
}

/// `s` with the first occurrence of `from` replaced by `to` (`replacen(.., 1)`).
pub open spec fn replace_first(s: Seq<char>, from: Seq<char>, to: Seq<char>) -> Seq<char> {
    match find_from(s, from, 0) {
        Some(p) => s.take(p) + to + s.skip(p + from.len()),
        None => s,
    }
}

/// What `distort` makes of a text: the first applicable swap, or — when
/// the text comes out unchanged — a hedge picked by the text's byte
/// length modulo 3, in front.
pub open spec fn distorted(s: Seq<char>) -> Seq<char> {
    let swapped = match first_swap_from(s, 0) {
        Some(k) => replace_first(s, swap_pairs()[k].0, swap_pairs()[k].1),
        None => s,
    };
    if swapped == s {
        hedges()[(utf8_len(s) % 3) as int] + swapped
    } else {
        swapped
    }
}

fn swap_word(k: usize) -> (r: (&'static str, &'static str))
    requires
        k < 5,
    ensures
        r.0@ == swap_pairs()[k as int].0,
        r.1@ == swap_pairs()[k as int].1,
{
    if k == 0 {
        ("saw", "heard")
    } else if k == 1 {
        ("told", "mentioned")
    } else if k == 2 {
        ("went to", "was seen near")
    } else if k == 3 {
        ("said", "whispered")
    } else {
        ("angry", "upset")
    }
}

fn hedge(i: usize) -> (r: &'static str)
    requires
        i < 3,
    ensures
        r@ == hedges()[i as int],
{
    if i == 0 {
        "Apparently, "
    } else if i == 1 {
        "Supposedly, "
    } else {
        "I heard that "
    }
}

fn replace_first_exec(text: &str, v: &Vec<char>, from: &str, to: &str) -> (r: Option<String>)
    requires
        v@ == text@,
        from@.len() > 0,
    ensures
        match find_from(text@, from@, 0) {
            Some(_) => r matches Some(s) && s@ == replace_first(text@, from@, to@),
            None => r is None,
        },
{
    let pat = chars_of(from);
    match find_pattern(v, &pat) {
        Some(p) => {
            proof {
                assert(find_from(text@, from@, 0) == Some(p as int));
                lemma_find_from(text@, from@, 0);
                assert(p + from@.len() <= text@.len());
                assert(p + pat@.len() <= v@.len());
            }
            let plen = pat.len();
            let n = v.len();
            assert(p + plen <= n);
            let end = p + plen;
            let before = string_of_range(text, 0, p);
            let after = string_of_range(text, end, v.len());
            assert(text@.subrange(0, p as int) == text@.take(p as int));
            assert(text@.subrange(p + from@.len(), text@.len() as int) == text@.skip(
                p + from@.len(),
            ));
            Some(concat3(before.as_str(), to, after.as_str()))
        },
        None => None,
    }
}

/// Distorts gossip text with simple string mutations: the first of the
/// word swaps whose word occurs replaces its first occurrence; when that
/// leaves the text unchanged a hedge ("Apparently, " etc.) is prefixed.
pub fn distort(text: &str) -> (r: String)
    requires
        utf8_len(text@) <= usize::MAX,
    ensures
        r@ == distorted(text@),
{
    let v = chars_of(text);
    let mut result = owned(text);
    let mut k: usize = 0;
    let mut done = false;
    while k < 5 && !done
        invariant
            v@ == text@,
            k <= 5,
            !done ==> first_swap_from(text@, 0) == first_swap_from(text@, k as int) && result@
                == text@,
            done ==> (first_swap_from(text@, 0) matches Some(j) && 0 <= j < 5 && result@
                == replace_first(text@, swap_pairs()[j].0, swap_pairs()[j].1)),
        decreases 5 - k + (if done { 0int } else { 1int }),
    {
        let (from, to) = swap_word(k);
        proof {
            reveal_strlit("saw");
            reveal_strlit("told");
            reveal_strlit("went to");
            reveal_strlit("said");
            reveal_strlit("angry");
        }
        match replace_first_exec(text, &v, from, to) {
            Some(s) => {
                result = s;
                done = true;
            },
            None => {
                k = k + 1;
            },
        }
    }
    if result == owned(text) {
        proof {
            crate::text::lemma_str_len(text);
        }
        let idx = text.len() % 3;
        concat2(hedge(idx), result.as_str())
    } else {
        result
    }
}

/// Law: distortion always changes the text, so retold gossip never
/// reads exactly as it was heard.
pub proof fn law_distort_changes(s: Seq<char>)
    ensures
        distorted(s) != s,
{
    let swapped = match first_swap_from(s, 0) {
        Some(k) => replace_first(s, swap_pairs()[k].0, swap_pairs()[k].1),
        None => s,
    };
    if swapped == s {
        reveal_strlit("Apparently, ");
        reveal_strlit("Supposedly, ");
        reveal_strlit("I heard that ");
        let i = (utf8_len(s) % 3) as int;
        assert(0 <= i < 3);
        assert(hedges()[i].len() > 0);
        assert((hedges()[i] + swapped).len() > s.len());
    }
}

/// A piece of gossip circulating in the parish.
#[derive(Debug)]
pub struct GossipItem {
    /// Unique identifier for this gossip item.
    pub id: u32,
    /// The current (possibly distorted) content.
    pub content: String,
    /// The original undistorted content.
    pub original_content: String,
    /// The NPC who originated this gossip.
    pub source: NpcId,
    /// NPCs who currently know this gossip (no repeats).
    pub known_by: Vec<NpcId>,
    /// How many times this gossip has been distorted (0 = original).
    pub distortion_level: u8,
    /// When this gossip was created (seconds since the epoch, UTC).
    pub timestamp: i64,
}

/// Whether the gossip is known by an NPC.
pub open spec fn knows(item: GossipItem, npc: NpcId) -> bool {
    item.known_by@.contains(npc)
}

fn known_by_contains(known: &Vec<NpcId>, npc: NpcId) -> (r: bool)
    ensures
        r == known@.contains(npc),
{
    let mut i: usize = 0;
    while i < known.len()
        invariant
            i <= known@.len(),
            forall|j: int| 0 <= j < i ==> known@[j] != npc,
        decreases known@.len() - i,
    {
        if known[i] == npc {
            return true;
        }
        i = i + 1;
    }
    false
}

/// Gossip network tracking all circulating gossip.
#[derive(Debug)]
pub struct GossipNetwork {
    items: Vec<GossipItem>,
    next_id: u32,
}

impl View for GossipNetwork {
    type V = Seq<GossipItem>;

    closed spec fn view(&self) -> Seq<GossipItem> {
        self.items@
    }
}

/// The effect of one propagation step on an item, given whether the
/// transfer happened and whether the content was distorted.
pub open spec fn spread(
    old: GossipItem,
    new: GossipItem,
    from: NpcId,
    to: NpcId,
    transfer: bool,
    distorts: bool,
) -> bool {
    &&& new.id == old.id
    &&& new.original_content == old.original_content
    &&& new.source == old.source
    &&& new.timestamp == old.timestamp
    &&& if knows(old, from) && !knows(old, to) && transfer {
        &&& new.known_by@ == old.known_by@.push(to)
        &&& if distorts {
            &&& new.content@ == distorted(old.content@)
            &&& new.distortion_level == (if old.distortion_level == u8::MAX {
                u8::MAX as int
            } else {
                old.distortion_level + 1
            })
        } else {
            &&& new.content == old.content
            &&& new.distortion_level == old.distortion_level
        }
    } else {
        &&& new.known_by == old.known_by
        &&& new.content == old.content
        &&& new.distortion_level == old.distortion_level
    }
}

/// The effect of one propagation step on an item, whichever way the dice fell:
/// untouched, transferred, or transferred and distorted.
pub open spec fn spread_some(old: GossipItem, new: GossipItem, from: NpcId, to: NpcId) -> bool {
    ||| spread(old, new, from, to, false, false)
    ||| spread(old, new, from, to, true, false)
    ||| spread(old, new, from, to, true, true)
}

#[verifier::external_type_specification]
#[verifier::external_body]
pub struct ExThreadRng(ThreadRng);

/// The thread-local random generator, from `rand::thread_rng`.
#[verifier::external_body]
fn thread_rng() -> (r: ThreadRng) {
    rand::thread_rng()
}

/// Draws a uniformly random percentage, from `Rng::gen_range(0..100)`.
///
/// Trusted: the value lies in `0..100`; which one is left open.
#[verifier::external_body]
fn random_percent(rng: &mut ThreadRng) -> (r: u32)
    ensures
        r < 100,
{
    rng.gen_range(0u32..100)
}

impl GossipNetwork {
    /// Ids are distinct, below `next_id`, and each item is known by its source.
    pub open spec fn wf(&self) -> bool {
        &&& forall|i: int| 0 <= i < self@.len() ==> #[trigger] self@[i].id < self.spec_next_id()
        &&& forall|i: int, j: int|
            0 <= i < j < self@.len() ==> #[trigger] self@[i].id != #[trigger] self@[j].id
        &&& forall|i: int| 0 <= i < self@.len() ==> knows(#[trigger] self@[i], self@[i].source)
        &&& forall|i: int| 0 <= i < self@.len() ==> (#[trigger] self@[i]).known_by@.no_duplicates()
    }

    /// The id the next gossip item will get.
    pub closed spec fn spec_next_id(&self) -> u32 {
        self.next_id
    }

    /// Creates an empty gossip network.
    pub fn new() -> (r: Self)
        ensures
            r@ == Seq::<GossipItem>::empty(),
            r.spec_next_id() == 0,
            r.wf(),
    {
        GossipNetwork { items: Vec::new(), next_id: 0 }
    }

    /// Adds new gossip known by its source; returns its id, the next in
    /// sequence.
    pub fn add_gossip(&mut self, content: String, source: NpcId, timestamp: i64) -> (id: u32)
        requires
            old(self).wf(),
            old(self).spec_next_id() < u32::MAX,
        ensures
            final(self).wf(),
            id == old(self).spec_next_id(),
            final(self).spec_next_id() == id + 1,
            final(self)@.len() == old(self)@.len() + 1,
            final(self)@.drop_last() == old(self)@,
            final(self)@.last().id == id,
            final(self)@.last().content == content,
            final(self)@.last().original_content@ == content@,
            final(self)@.last().source == source,
            final(self)@.last().known_by@ == seq![source],
            final(self)@.last().distortion_level == 0,
            final(self)@.last().timestamp == timestamp,
    {
        let id = self.next_id;
        self.next_id = self.next_id + 1;
        let mut known_by: Vec<NpcId> = Vec::new();
        known_by.push(source);
        let original_content = content.clone();
        self.items.push(
            GossipItem {
                id,
                original_content,
                content,
                source,
                known_by,
                distortion_level: 0,
                timestamp,
            },
        );
        proof {
            assert(self@.drop_last() == old(self)@);
            assert(self@.last().known_by@ == seq![source]);
            assert(self@.last().known_by@[0] == source);
            assert(knows(self@.last(), source));
            assert forall|i: int| 0 <= i < old(self)@.len() implies #[trigger] self@[i] == old(
                self,
            )@[i] by {}
        }
        id
    }

    /// One propagation step from `from` to `to` with given dice: item `i`
    /// transfers when `rolls[i].0 < 60` and is distorted on transfer when
    /// `rolls[i].1 < 20` (only items `from` knows and `to` does not).
    pub fn propagate_with_rolls(&mut self, from: NpcId, to: NpcId, rolls: &Vec<(u32, u32)>)
        requires
            old(self).wf(),
            rolls@.len() == old(self)@.len(),
            forall|i: int| 0 <= i < old(self)@.len() ==> utf8_len(#[trigger] old(self)@[i].content@) <= usize::MAX,
        ensures
            final(self).wf(),
            final(self).spec_next_id() == old(self).spec_next_id(),
            final(self)@.len() == old(self)@.len(),
            forall|i: int|
                0 <= i < old(self)@.len() ==> spread(
                    old(self)@[i],
                    #[trigger] final(self)@[i],
                    from,
                    to,
                    rolls@[i].0 < 60,
                    rolls@[i].1 < 20,
                ),
    {
        let n = self.items.len();
        let mut i: usize = 0;
        while i < n
            invariant
                n == self@.len(),
                n == old(self)@.len(),
                i <= n,
                rolls@.len() == n,
                self.spec_next_id() == old(self).spec_next_id(),
                old(self).wf(),
                forall|j: int| 0 <= j < n ==> utf8_len(#[trigger] old(self)@[j].content@) <= usize::MAX,
                forall|j: int|
                    0 <= j < i ==> spread(
                        old(self)@[j],
                        #[trigger] self@[j],
                        from,
                        to,
                        rolls@[j].0 < 60,
                        rolls@[j].1 < 20,
                    ),
                forall|j: int| i <= j < n ==> #[trigger] self@[j] == old(self)@[j],
            decreases n - i,
        {
            let (t, d) = rolls[i];
            let knows_from = known_by_contains(&self.items[i].known_by, from);
            let knows_to = known_by_contains(&self.items[i].known_by, to);
            if knows_from && !knows_to && t < 60 {
                let mut item = self.items.remove(i);
                item.known_by.push(to);
                if d < 20 {
                    item.content = distort(item.content.as_str());
                    item.distortion_level = item.distortion_level.saturating_add(1);
                }
                self.items.insert(i, item);
            }
            i = i + 1;
        }
        proof {
            assert forall|a: int| 0 <= a < self@.len() implies #[trigger] self@[a].id
                < self.spec_next_id() by {
                assert(spread(old(self)@[a], self@[a], from, to, rolls@[a].0 < 60, rolls@[a].1 < 20));
            }
            assert forall|a: int, b: int| 0 <= a < b < self@.len() implies #[trigger] self@[a].id
                != #[trigger] self@[b].id by {
                assert(spread(old(self)@[a], self@[a], from, to, rolls@[a].0 < 60, rolls@[a].1 < 20));
                assert(spread(old(self)@[b], self@[b], from, to, rolls@[b].0 < 60, rolls@[b].1 < 20));
            }
            assert forall|a: int| 0 <= a < self@.len() implies knows(#[trigger] self@[a], self@[a].source) by {
                assert(spread(old(self)@[a], self@[a], from, to, rolls@[a].0 < 60, rolls@[a].1 < 20));
                if knows(old(self)@[a], from) && !knows(old(self)@[a], to) && rolls@[a].0 < 60 {
                    assert(old(self)@[a].known_by@.contains(old(self)@[a].source));
                    let k = choose|k: int| 0 <= k < old(self)@[a].known_by@.len() && old(self)@[a].known_by@[k] == old(self)@[a].source;
                    assert(self@[a].known_by@[k] == old(self)@[a].source);
                }
            }
            assert forall|a: int| 0 <= a < self@.len() implies (#[trigger] self@[a]).known_by@.no_duplicates() by {
                assert(spread(old(self)@[a], self@[a], from, to, rolls@[a].0 < 60, rolls@[a].1 < 20));
                if knows(old(self)@[a], from) && !knows(old(self)@[a], to) && rolls@[a].0 < 60 {
                    let ks = old(self)@[a].known_by@;
                    assert(ks.no_duplicates());
                    assert(!ks.contains(to));
                    assert forall|x: int, y: int| 0 <= x < y < ks.push(to).len() implies ks.push(to)[x] != ks.push(to)[y] by {
                        if y == ks.len() {
                            assert(ks.push(to)[x] == ks[x]);
                        }
                    }
                }
            }
        }
    }

    /// Propagates gossip from one NPC to another: each item `from` knows
    /// and `to` does not transfers with probability 60%, and a transferred
    /// item is distorted with probability 20%.
    ///
    /// Which items transfer is left to chance, so the contract states what
    /// holds of every outcome (leaving everything as it was is one of them);
    /// `propagate_with_rolls` states the exact effect of given rolls.
    pub fn propagate(&mut self, from: NpcId, to: NpcId)
        requires
            old(self).wf(),
            forall|i: int| 0 <= i < old(self)@.len() ==> utf8_len(#[trigger] old(self)@[i].content@) <= usize::MAX,
        ensures
            final(self).wf(),
            final(self).spec_next_id() == old(self).spec_next_id(),
            final(self)@.len() == old(self)@.len(),
            forall|i: int|
                0 <= i < old(self)@.len() ==> spread_some(
                    old(self)@[i],
                    #[trigger] final(self)@[i],
                    from,
                    to,
                ),
    {
        let n = self.items.len();
        let mut rng = thread_rng();
        let mut rolls: Vec<(u32, u32)> = Vec::new();
        let mut i: usize = 0;
        while i < n
            invariant
                i <= n,
                rolls@.len() == i,
            decreases n - i,
        {
            let t = random_percent(&mut rng);
            let d = random_percent(&mut rng);
            rolls.push((t, d));
            i = i + 1;
        }
        self.propagate_with_rolls(from, to, &rolls);
        assert forall|i: int| 0 <= i < old(self)@.len() implies spread_some(
            old(self)@[i],
            #[trigger] self@[i],
            from,
            to,
        ) by {
            assert(spread(old(self)@[i], self@[i], from, to, rolls@[i].0 < 60, rolls@[i].1 < 20));
        }
    }

    /// Returns all gossip items.
    pub fn all_items(&self) -> (r: &Vec<GossipItem>)
        ensures
            r@ == self@,
    {
        &self.items
    }

    /// Returns the items known by an NPC, in network order.
    pub fn gossip_for_npc(&self, npc_id: NpcId) -> (r: Vec<&GossipItem>)
        ensures
            r@.len() == self@.filter(|g: GossipItem| knows(g, npc_id)).len(),
            forall|i: int| 0 <= i < r@.len() ==> *r@[i] == self@.filter(|g: GossipItem| knows(g, npc_id))[i],
    {
        let mut r: Vec<&GossipItem> = Vec::new();
        let mut i: usize = 0;
        let ghost f = |g: GossipItem| knows(g, npc_id);
        while i < self.items.len()
            invariant
                i <= self@.len(),
                f == (|g: GossipItem| knows(g, npc_id)),
                r@.len() == self@.take(i as int).filter(f).len(),
                forall|j: int| 0 <= j < r@.len() ==> *r@[j] == self@.take(i as int).filter(f)[j],
            decreases self@.len() - i,
        {
            proof {
                reveal(Seq::filter);
                assert(self@.take(i + 1).drop_last() == self@.take(i as int));
            }
            let hit = known_by_contains(&self.items[i].known_by, npc_id);
            if hit {
                r.push(&self.items[i]);
            }
            proof {
                assert(self@.take(i + 1).last() == self@[i as int]);
                assert(f(self@[i as int]) == hit);
                assert(self@.take(i + 1).filter(f) == if hit {
                    self@.take(i as int).filter(f).push(self@[i as int])
                } else {
                    self@.take(i as int).filter(f)
                });
            }
            i = i + 1;
        }
        assert(self@.take(self@.len() as int) == self@);
        r
    }

    /// Formats the gossip an NPC knows as prompt context: a heading line
    /// and one `- [HH:MM] content` line per item (empty when it knows none).
    pub fn inject_gossip_context(&self, npc_id: NpcId) -> (r: String)
        ensures
            ({
                let known = self@.filter(|g: GossipItem| knows(g, npc_id));
                r@ == if known.len() == 0 {
                    Seq::<char>::empty()
                } else {
                    join_lines(
                        seq!["Gossip you've heard:"@] + known.map_values(|g: GossipItem| gossip_line(g)),
                    )
                }
            }),
    {
        let known = self.gossip_for_npc(npc_id);
        let ghost kn = self@.filter(|g: GossipItem| knows(g, npc_id));
        if known.len() == 0 {
            return String::new();
        }
        let ghost lines = seq!["Gossip you've heard:"@] + kn.map_values(|g: GossipItem| gossip_line(g));
        let mut out = owned("Gossip you've heard:");
        assert(lines.take(1) == seq!["Gossip you've heard:"@]);
        let mut i: usize = 0;
        while i < known.len()
            invariant
                i <= known@.len(),
                known@.len() == kn.len(),
                lines == seq!["Gossip you've heard:"@] + kn.map_values(|g: GossipItem| gossip_line(g)),
                forall|j: int| 0 <= j < known@.len() ==> *known@[j] == kn[j],
                out@ == join_lines(lines.take(i + 1)),
            decreases known@.len() - i,
        {
            let g = known[i];
            let mut line = owned("- [");
            let t = format_hh_mm(g.timestamp);
            line.append(t.as_str());
            line.append("] ");
            line.append(g.content.as_str());
            assert(line@ == lines[i + 1]);
            out.append("\n");
            out.append(line.as_str());
            proof {
                let next = lines.take(i + 2);
                assert(next.drop_last() == lines.take(i + 1));
                assert(next.last() == lines[i + 1]);
            }
            i = i + 1;
        }
        assert(lines.take(known@.len() + 1int) == lines);
        out
    }
}

/// The prompt line of one gossip item: `- [HH:MM] content`.
pub open spec fn gossip_line(g: GossipItem) -> Seq<char> {
    "- ["@ + hh_mm(g.timestamp as int) + "] "@ + g.content@
}

impl Default for GossipNetwork {
    fn default() -> (r: Self)
        ensures
            r@ == Seq::<GossipItem>::empty(),
            r.spec_next_id() == 0,
            r.wf(),
    {
        Self::new()
    }
}

} // verus!
