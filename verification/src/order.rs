//! Stable ordering by rank.
//!
//! A listing never moves the items it orders. It computes, from the ranks of
//! the items, the order in which the positions are to be read, and the items
//! are then read in that order. Positions of equal rank stay in the order in
//! which they stood.
use vstd::prelude::*;

verus! {

/// The place in `order` where a position of rank `rank` goes: behind the
/// last position whose rank is not greater.
pub open spec fn slot(ranks: Seq<int>, order: Seq<int>, rank: int) -> int
    decreases order.len(),
{
    if order.len() == 0 {
        0
    } else if ranks[order.last()] <= rank {
        order.len() as int
    } else {
        slot(ranks, order.drop_last(), rank)
    }
}

/// The positions of `ranks`, ordered by rising rank; positions of equal
/// rank in rising order.
pub open spec fn order_of(ranks: Seq<int>) -> Seq<int>
    decreases ranks.len(),
{
    if ranks.len() == 0 {
        Seq::empty()
    } else {
        let before = order_of(ranks.drop_last());
        before.insert(slot(ranks, before, ranks.last()), ranks.len() - 1)
    }
}

/// `items` read in the order `order`.
pub open spec fn arranged<A>(items: Seq<A>, order: Seq<int>) -> Seq<A> {
    order.map_values(|i: int| items[i])
}

/// `order` names each of the positions `0 .. n` exactly once.
pub open spec fn is_arrangement(order: Seq<int>, n: nat) -> bool {
    &&& order.len() == n
    &&& forall|k: int| 0 <= k < order.len() ==> 0 <= #[trigger] order[k] < n
    &&& forall|a: int, b: int| 0 <= a < b < order.len() ==> order[a] != order[b]
    &&& forall|i: int| 0 <= i < n ==> order.contains(i)
}

/// The ranks rise along `order`, and positions of equal rank come in rising
/// order.
pub open spec fn rises(ranks: Seq<int>, order: Seq<int>) -> bool {
    forall|a: int, b: int|
        0 <= a < b < order.len() ==> ranks[#[trigger] order[a]] < ranks[#[trigger] order[b]] || (
        ranks[order[a]] == ranks[order[b]] && order[a] < order[b])
}

/// The slot lies within `order`; what stands before it has a rank that is
/// not greater, what stands at or behind it a greater one.
pub proof fn lemma_slot(ranks: Seq<int>, order: Seq<int>, rank: int)
    requires
        forall|a: int, b: int|
            0 <= a < b < order.len() ==> ranks[#[trigger] order[a]] <= ranks[#[trigger] order[b]],
    ensures
        0 <= slot(ranks, order, rank) <= order.len(),
        forall|k: int| 0 <= k < slot(ranks, order, rank) ==> ranks[#[trigger] order[k]] <= rank,
        forall|k: int|
            slot(ranks, order, rank) <= k < order.len() ==> ranks[#[trigger] order[k]] > rank,
    decreases order.len(),
{
    if order.len() > 0 && ranks[order.last()] > rank {
        let shorter = order.drop_last();
        assert forall|a: int, b: int| 0 <= a < b < shorter.len() implies ranks[#[trigger] shorter[a]]
            <= ranks[#[trigger] shorter[b]] by {
            assert(shorter[a] == order[a] && shorter[b] == order[b]);
        }
        lemma_slot(ranks, shorter, rank);
        let s = slot(ranks, shorter, rank);
        assert forall|k: int| 0 <= k < s implies ranks[#[trigger] order[k]] <= rank by {
            assert(shorter[k] == order[k]);
        }
        assert forall|k: int| s <= k < order.len() implies ranks[#[trigger] order[k]] > rank by {
            if k < shorter.len() {
                assert(shorter[k] == order[k]);
            }
        }
    }
}

/// The slot depends on the ranks of the positions in `order` alone.
pub proof fn lemma_slot_prefix(ranks: Seq<int>, longer: Seq<int>, order: Seq<int>, rank: int)
    requires
        ranks.len() <= longer.len(),
        forall|i: int| 0 <= i < ranks.len() ==> ranks[i] == longer[i],
        forall|k: int| 0 <= k < order.len() ==> 0 <= #[trigger] order[k] < ranks.len(),
    ensures
        slot(ranks, order, rank) == slot(longer, order, rank),
    decreases order.len(),
{
    if order.len() > 0 {
        assert(0 <= order[order.len() - 1] < ranks.len());
        let shorter = order.drop_last();
        assert forall|k: int| 0 <= k < shorter.len() implies 0 <= #[trigger] shorter[k]
            < ranks.len() by {
            assert(shorter[k] == order[k]);
        }
        lemma_slot_prefix(ranks, longer, shorter, rank);
    }
}

/// `order_of` names every position exactly once, by rising rank, and keeps
/// positions of equal rank in their order.
pub proof fn lemma_order_of(ranks: Seq<int>)
    ensures
        is_arrangement(order_of(ranks), ranks.len()),
        rises(ranks, order_of(ranks)),
    decreases ranks.len(),
{
    if ranks.len() > 0 {
        let shorter = ranks.drop_last();
        let before = order_of(shorter);
        let last = ranks.len() - 1;
        lemma_order_of(shorter);
        assert forall|a: int, b: int| 0 <= a < b < before.len() implies ranks[#[trigger] before[a]]
            <= ranks[#[trigger] before[b]] by {
            assert(shorter[before[a]] == ranks[before[a]]);
            assert(shorter[before[b]] == ranks[before[b]]);
        }
        lemma_slot(ranks, before, ranks.last());
        let s = slot(ranks, before, ranks.last());
        let order = before.insert(s, last);
        assert(order_of(ranks) == order);
        assert forall|k: int| 0 <= k < order.len() implies 0 <= #[trigger] order[k] < ranks.len() by {
            if k < s {
                assert(order[k] == before[k]);
            } else if k > s {
                assert(order[k] == before[k - 1]);
            }
        }
        assert forall|a: int, b: int| 0 <= a < b < order.len() implies (ranks[#[trigger] order[a]]
            < ranks[#[trigger] order[b]] || (ranks[order[a]] == ranks[order[b]] && order[a]
            < order[b])) && order[a] != order[b] by {
            let pa = if a < s {
                a
            } else {
                a - 1
            };
            let pb = if b < s {
                b
            } else {
                b - 1
            };
            if a != s && b != s {
                assert(order[a] == before[pa] && order[b] == before[pb]);
                assert(shorter[before[pa]] == ranks[before[pa]]);
                assert(shorter[before[pb]] == ranks[before[pb]]);
            } else if a == s {
                assert(order[b] == before[pb]);
                assert(0 <= before[pb] < last);
            } else {
                assert(order[a] == before[pa]);
                assert(0 <= before[pa] < last);
            }
        }
        assert forall|i: int| 0 <= i < ranks.len() implies order.contains(i) by {
            if i == last {
                assert(order[s] == i);
            } else {
                assert(before.contains(i));
                let k = choose|k: int| 0 <= k < before.len() && before[k] == i;
                if k < s {
                    assert(order[k] == i);
                } else {
                    assert(order[k + 1] == i);
                }
            }
        }
    }
}

/// Computes `order_of`.
pub fn sorted_order(ranks: &Vec<i128>) -> (order: Vec<usize>)
    ensures
        order@.map_values(|i: usize| i as int) == order_of(ranks@.map_values(|r: i128| r as int)),
        order.len() == ranks.len(),
        forall|k: int| 0 <= k < order.len() ==> order@[k] < ranks.len(),
{
    let ghost all = ranks@.map_values(|r: i128| r as int);
    let mut order: Vec<usize> = Vec::new();
    let mut n: usize = 0;
    assert(all.take(0) =~= Seq::<int>::empty());
    while n < ranks.len()
        invariant
            0 <= n <= ranks.len(),
            all == ranks@.map_values(|r: i128| r as int),
            order@.map_values(|i: usize| i as int) == order_of(all.take(n as int)),
            order.len() == n,
            forall|k: int| 0 <= k < order.len() ==> order@[k] < n,
        decreases ranks.len() - n,
    {
        let rank = ranks[n];
        let ghost before = order@.map_values(|i: usize| i as int);
        let ghost known = all.take(n as int + 1);
        let mut at: usize = order.len();
        assert(before.take(at as int) =~= before);
        while at > 0 && ranks[order[at - 1]] > rank
            invariant
                0 <= at <= order.len(),
                order.len() == n,
                n < ranks.len(),
                all == ranks@.map_values(|r: i128| r as int),
                before == order@.map_values(|i: usize| i as int),
                forall|k: int| 0 <= k < order.len() ==> order@[k] < n,
                slot(all, before, rank as int) == slot(all, before.take(at as int), rank as int),
            decreases at,
        {
            assert(before.take(at as int).drop_last() =~= before.take(at as int - 1));
            assert(before.take(at as int).last() == order@[at as int - 1] as int);
            at -= 1;
        }
        proof {
            if at > 0 {
                assert(before.take(at as int).last() == order@[at as int - 1] as int);
            }
            assert(slot(all, before, rank as int) == at);
            assert(known.drop_last() =~= all.take(n as int));
            assert(known.last() == rank as int);
            lemma_order_of(all.take(n as int));
            lemma_slot_prefix(known, all, before, rank as int);
        }
        order.insert(at, n);
        assert(order@.map_values(|i: usize| i as int) =~= before.insert(at as int, n as int));
        n += 1;
    }
    assert(all.take(ranks.len() as int) =~= all);
    order
}

} // verus!
