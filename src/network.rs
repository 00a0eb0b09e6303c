//! The registry of known nodes, with temporary exclusion of suspect ones,
//! and the choice of default target nodes.
use vstd::prelude::*;
use crate::entity_id::AccountId;

verus! {

/// A known node and the time until which it is held suspect.
#[derive(Clone, Copy, Debug, PartialEq, Eq)]
pub struct NodeEntry {
    pub account_id: AccountId,
    pub suspect_until: u64,
}

/// Known nodes, in a fixed order.
pub struct NodeRegistry {
    pub nodes: Vec<NodeEntry>,
}

/// A node is eligible at `now` once its suspect window has elapsed.
pub open spec fn is_healthy(e: NodeEntry, now: u64) -> bool {
    e.suspect_until <= now
}

/// The account ids of the nodes eligible at `now`, in registry order.
pub open spec fn healthy_ids(nodes: Seq<NodeEntry>, now: u64) -> Seq<AccountId>
    decreases nodes.len(),
{
    if nodes.len() == 0 {
        Seq::empty()
    } else if is_healthy(nodes.last(), now) {
        healthy_ids(nodes.drop_last(), now).push(nodes.last().account_id)
    } else {
        healthy_ids(nodes.drop_last(), now)
    }
}

/// Whether two ids name the same node: same `shard.realm.num`, whatever
/// checksum they carry.
pub open spec fn same_node(a: AccountId, b: AccountId) -> bool {
    a.shard == b.shard && a.realm == b.realm && a.num == b.num
}

/// Whether some entry of `nodes` names the node `id`.
pub open spec fn names_node(nodes: Seq<NodeEntry>, id: AccountId) -> bool {
    exists|j: int| 0 <= j < nodes.len() && same_node(id, #[trigger] nodes[j].account_id)
}

/// Whether some id in `s` names the node `id`.
pub open spec fn lists_node(s: Seq<AccountId>, id: AccountId) -> bool {
    exists|j: int| 0 <= j < s.len() && same_node(id, #[trigger] s[j])
}

/// `ids` in order, without the later mentions of a node listed before.
pub open spec fn first_seen(ids: Seq<AccountId>) -> Seq<AccountId>
    decreases ids.len(),
{
    if ids.len() == 0 {
        Seq::empty()
    } else {
        let prev = first_seen(ids.drop_last());
        if lists_node(prev, ids.last()) {
            prev
        } else {
            prev.push(ids.last())
        }
    }
}

/// The account ids of the entries, in registry order.
pub open spec fn account_ids(nodes: Seq<NodeEntry>) -> Seq<AccountId> {
    nodes.map_values(|e: NodeEntry| e.account_id)
}

proof fn lemma_names_node_lists(nodes: Seq<NodeEntry>, id: AccountId)
    ensures
        names_node(nodes, id) <==> lists_node(account_ids(nodes), id),
{
    if names_node(nodes, id) {
        let j = choose|j: int| 0 <= j < nodes.len() && same_node(id, #[trigger] nodes[j].account_id);
        assert(account_ids(nodes)[j] == nodes[j].account_id);
    }
    if lists_node(account_ids(nodes), id) {
        let j = choose|j: int| 0 <= j < account_ids(nodes).len() && same_node(id, #[trigger] account_ids(nodes)[j]);
        assert(account_ids(nodes)[j] == nodes[j].account_id);
    }
}

/// No two entries name the same node.
pub open spec fn ids_unique(nodes: Seq<NodeEntry>) -> bool {
    forall|i: int, j: int|
        0 <= i < nodes.len() && 0 <= j < nodes.len() && i != j ==> !same_node(
            #[trigger] nodes[i].account_id,
            #[trigger] nodes[j].account_id,
        )
}

/// The entry of node `i` after it is marked suspect at `now` for `duration`.
pub open spec fn marked(nodes: Seq<NodeEntry>, i: int, now: u64, duration: u64) -> Seq<NodeEntry> {
    let until = if now + duration > u64::MAX { u64::MAX } else { (now + duration) as u64 };
    nodes.update(i, NodeEntry { suspect_until: until, ..nodes[i] })
}

/// How many default target nodes are picked among `n` healthy ones: a
/// third of them, and at least one when there is any.
pub open spec fn default_node_count(n: nat) -> nat {
    if n == 0 {
        0
    } else if n / 3 == 0 {
        1
    } else {
        n / 3
    }
}

proof fn lemma_healthy_ids_contains(nodes: Seq<NodeEntry>, now: u64, id: AccountId)
    ensures
        healthy_ids(nodes, now).contains(id) <==> exists|i: int|
            0 <= i < nodes.len() && nodes[i].account_id == id && is_healthy(#[trigger] nodes[i], now),
    decreases nodes.len(),
{
    if nodes.len() > 0 {
        let init = nodes.drop_last();
        lemma_healthy_ids_contains(init, now, id);
        if healthy_ids(nodes, now).contains(id) {
            if !healthy_ids(init, now).contains(id) {
                let k = nodes.len() - 1;
                assert(nodes[k].account_id == id && is_healthy(nodes[k], now));
            } else {
                let i = choose|i: int| 0 <= i < init.len() && init[i].account_id == id && is_healthy(#[trigger] init[i], now);
                assert(nodes[i] == init[i]);
            }
        }
        if exists|i: int| 0 <= i < nodes.len() && nodes[i].account_id == id && is_healthy(#[trigger] nodes[i], now) {
            let i = choose|i: int| 0 <= i < nodes.len() && nodes[i].account_id == id && is_healthy(#[trigger] nodes[i], now);
            if i == nodes.len() - 1 {
                assert(healthy_ids(nodes, now).last() == id);
            } else {
                assert(init[i] == nodes[i]);
                let s = healthy_ids(init, now);
                let j = choose|j: int| 0 <= j < s.len() && s[j] == id;
                if is_healthy(nodes.last(), now) {
                    assert(s.push(nodes.last().account_id)[j] == id);
                }
            }
        }
    }
}

/// A node marked suspect is not among the healthy nodes at any time before
/// its window elapses, and is among them again at any time from then on.
pub proof fn lemma_suspect_window(nodes: Seq<NodeEntry>, i: int, now: u64, duration: u64, t: u64)
    requires
        ids_unique(nodes),
        0 <= i < nodes.len(),
        now + duration <= u64::MAX,
    ensures
        t < now + duration ==> !healthy_ids(marked(nodes, i, now, duration), t).contains(nodes[i].account_id),
        t >= now + duration ==> healthy_ids(marked(nodes, i, now, duration), t).contains(nodes[i].account_id),
{
    let m = marked(nodes, i, now, duration);
    let id = nodes[i].account_id;
    lemma_healthy_ids_contains(m, t, id);
    if t < now + duration {
        assert forall|j: int| 0 <= j < m.len() && m[j].account_id == id implies !is_healthy(#[trigger] m[j], t) by {
            if j != i {
                assert(nodes[j].account_id == m[j].account_id);
                assert(!same_node(nodes[i].account_id, nodes[j].account_id));
            }
        }
    } else {
        assert(m[i].account_id == id && is_healthy(m[i], t));
    }
}

impl NodeRegistry {
    pub open spec fn wf(&self) -> bool {
        ids_unique(self.nodes@)
    }

    /// A registry of the given nodes, none of them suspect; a node listed
    /// more than once is kept once, at its first place.
    pub fn new(ids: &Vec<AccountId>) -> (r: Self)
        ensures
            r.wf(),
            account_ids(r.nodes@) == first_seen(ids@),
            r.nodes@.len() <= ids@.len(),
            forall|j: int| 0 <= j < r.nodes@.len() ==> #[trigger] r.nodes@[j].suspect_until == 0,
            forall|j: int| 0 <= j < r.nodes@.len() ==> ids@.contains(#[trigger] r.nodes@[j].account_id),
            forall|i: int| 0 <= i < ids@.len() ==> names_node(r.nodes@, #[trigger] ids@[i]),
    {
        let mut reg = NodeRegistry { nodes: Vec::new() };
        let mut i: usize = 0;
        while i < ids.len()
            invariant
                i <= ids@.len(),
                reg.wf(),
                reg.nodes@.len() <= i,
                forall|j: int| 0 <= j < reg.nodes@.len() ==> #[trigger] reg.nodes@[j].suspect_until == 0,
                forall|j: int| 0 <= j < reg.nodes@.len() ==> ids@.contains(#[trigger] reg.nodes@[j].account_id),
                forall|k: int| 0 <= k < i ==> names_node(reg.nodes@, #[trigger] ids@[k]),
                account_ids(reg.nodes@) == first_seen(ids@.take(i as int)),
            decreases ids.len() - i,
        {
            let id = ids[i];
            let found = reg.index_of(id);
            proof {
                assert(ids@.take(i + 1).drop_last() =~= ids@.take(i as int));
                assert(ids@.take(i + 1).last() == id);
                lemma_names_node_lists(reg.nodes@, id);
            }
            if found.is_none() {
                let ghost before = reg.nodes@;
                reg.nodes.push(NodeEntry { account_id: id, suspect_until: 0 });
                proof {
                    assert(!names_node(before, id)) by {
                        if names_node(before, id) {
                            let j = choose|j: int| 0 <= j < before.len() && same_node(id, #[trigger] before[j].account_id);
                            assert(!(before[j].account_id.shard == id.shard && before[j].account_id.realm == id.realm
                                && before[j].account_id.num == id.num));
                        }
                    }
                    assert(account_ids(reg.nodes@) =~= account_ids(before).push(id));
                    assert(ids@.contains(ids@[i as int]));
                    assert forall|k: int| 0 <= k < i + 1 implies names_node(reg.nodes@, #[trigger] ids@[k]) by {
                        if k < i {
                            let j = choose|j: int| 0 <= j < before.len() && same_node(ids@[k], #[trigger] before[j].account_id);
                            assert(reg.nodes@[j] == before[j]);
                        } else {
                            assert(same_node(ids@[k], reg.nodes@[before.len() as int].account_id));
                        }
                    }
                    assert forall|a: int, b: int|
                        0 <= a < reg.nodes@.len() && 0 <= b < reg.nodes@.len() && a != b implies !same_node(
                        #[trigger] reg.nodes@[a].account_id,
                        #[trigger] reg.nodes@[b].account_id,
                    ) by {
                        if a < before.len() && b < before.len() {
                            assert(reg.nodes@[a] == before[a] && reg.nodes@[b] == before[b]);
                        } else if a < before.len() {
                            assert(reg.nodes@[a] == before[a]);
                        } else {
                            assert(reg.nodes@[b] == before[b]);
                        }
                    }
                }
            } else {
                proof {
                    let j = found->Some_0 as int;
                    assert(same_node(ids@[i as int], reg.nodes@[j].account_id));
                    assert(names_node(reg.nodes@, ids@[i as int]));
                }
            }
            i += 1;
        }
        proof {
            assert(ids@.take(ids@.len() as int) =~= ids@);
        }
        reg
    }

    /// The account ids of the nodes eligible at `now`, in registry order.
    pub fn healthy_nodes(&self, now: u64) -> (r: Vec<AccountId>)
        ensures
            r@ == healthy_ids(self.nodes@, now),
    {
        let mut r: Vec<AccountId> = Vec::new();
        let mut i: usize = 0;
        while i < self.nodes.len()
            invariant
                i <= self.nodes@.len(),
                r@ == healthy_ids(self.nodes@.take(i as int), now),
            decreases self.nodes.len() - i,
        {
            proof {
                assert(self.nodes@.take(i + 1).drop_last() =~= self.nodes@.take(i as int));
            }
            if self.nodes[i].suspect_until <= now {
                r.push(self.nodes[i].account_id);
            }
            i += 1;
        }
        proof {
            assert(self.nodes@.take(self.nodes@.len() as int) =~= self.nodes@);
        }
        r
    }

    /// Holds node `index` suspect from `now` for `duration`: it leaves the
    /// healthy nodes until then.
    pub fn mark_suspect(&mut self, index: usize, now: u64, duration: u64)
        requires
            old(self).wf(),
            index < old(self).nodes@.len(),
        ensures
            final(self).wf(),
            final(self).nodes@ == marked(old(self).nodes@, index as int, now, duration),
    {
        let entry = self.nodes[index];
        let ghost before = self.nodes@;
        self.nodes.set(index, NodeEntry { account_id: entry.account_id, suspect_until: now.saturating_add(duration) });
        proof {
            assert forall|a: int, b: int|
                0 <= a < self.nodes@.len() && 0 <= b < self.nodes@.len() && a != b implies !same_node(
                #[trigger] self.nodes@[a].account_id,
                #[trigger] self.nodes@[b].account_id,
            ) by {
                assert(self.nodes@[a].account_id == before[a].account_id);
                assert(self.nodes@[b].account_id == before[b].account_id);
            }
        }
    }

    /// The position of the node with the given `shard.realm.num`, if known.
    pub fn index_of(&self, id: AccountId) -> (r: Option<usize>)
        ensures
            r matches Some(i) ==> i < self.nodes@.len() && self.nodes@[i as int].account_id.shard == id.shard
                && self.nodes@[i as int].account_id.realm == id.realm && self.nodes@[i as int].account_id.num
                == id.num,
            r is None ==> forall|i: int|
                0 <= i < self.nodes@.len() ==> !(#[trigger] self.nodes@[i].account_id.shard == id.shard
                    && self.nodes@[i].account_id.realm == id.realm && self.nodes@[i].account_id.num == id.num),
    {
        let mut i: usize = 0;
        while i < self.nodes.len()
            invariant
                i <= self.nodes@.len(),
                forall|k: int|
                    0 <= k < i ==> !(#[trigger] self.nodes@[k].account_id.shard == id.shard
                        && self.nodes@[k].account_id.realm == id.realm && self.nodes@[k].account_id.num == id.num),
            decreases self.nodes.len() - i,
        {
            let a = self.nodes[i].account_id;
            if a.shard == id.shard && a.realm == id.realm && a.num == id.num {
                return Some(i);
            }
            i += 1;
        }
        None
    }
}

/// The default target nodes: `default_node_count` of the healthy nodes,
/// taken in order from position `start`, wrapping around. The caller picks
/// `start` at random to spread load across nodes.
pub fn select_default_nodes(healthy: &Vec<AccountId>, start: usize) -> (r: Vec<AccountId>)
    ensures
        r@.len() == default_node_count(healthy@.len()),
        forall|i: int|
            0 <= i < r@.len() ==> #[trigger] r@[i] == healthy@[(start + i) % (healthy@.len() as int)],
{
    let n = healthy.len();
    let count: usize = if n == 0 {
        0
    } else if n / 3 == 0 {
        1
    } else {
        n / 3
    };
    let mut r: Vec<AccountId> = Vec::new();
    if n == 0 {
        return r;
    }
    let first = start % n;
    let mut i: usize = 0;
    while i < count
        invariant
            n == healthy@.len(),
            n > 0,
            count <= n,
            first as int == (start as int) % (n as int),
            i <= count,
            r@.len() == i,
            forall|k: int| 0 <= k < i ==> #[trigger] r@[k] == healthy@[(start + k) % (n as int)],
        decreases count - i,
    {
        let pos = if i >= n - first { i - (n - first) } else { first + i };
        proof {
            assert(pos == (start + i) % (n as int)) by {
                vstd::arithmetic::div_mod::lemma_add_mod_noop(start as int, i as int, n as int);
                vstd::arithmetic::div_mod::lemma_small_mod(i as nat, n as nat);
                if first + i >= n {
                    vstd::arithmetic::div_mod::lemma_small_mod((first + i - n) as nat, n as nat);
                    vstd::arithmetic::div_mod::lemma_mod_sub_multiples_vanish((first + i) as int, n as int);
                } else {
                    vstd::arithmetic::div_mod::lemma_small_mod((first + i) as nat, n as nat);
                }
            }
        }
        r.push(healthy[pos]);
        i += 1;
    }
    r
}

} // verus!
