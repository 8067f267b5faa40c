//! Dropping the flagged items of a list.
use vstd::prelude::*;

verus! {

broadcast use vstd::std_specs::vec::group_vec_axioms;

/// The first `n` items of `items` without those that `flags` marks.
pub open spec fn unflagged_upto<A>(items: Seq<A>, flags: Seq<bool>, n: int) -> Seq<A>
    decreases n,
{
    if n <= 0 {
        Seq::empty()
    } else {
        let before = unflagged_upto(items, flags, n - 1);
        if flags[n - 1] {
            before
        } else {
            before.push(items[n - 1])
        }
    }
}

/// `items` without those that `flags` marks, in their order.
pub open spec fn unflagged<A>(items: Seq<A>, flags: Seq<bool>) -> Seq<A> {
    unflagged_upto(items, flags, items.len() as int)
}

/// How many of the first `n` flags are set.
pub open spec fn flagged_upto(flags: Seq<bool>, n: int) -> nat
    decreases n,
{
    if n <= 0 {
        0
    } else if flags[n - 1] {
        flagged_upto(flags, n - 1) + 1
    } else {
        flagged_upto(flags, n - 1)
    }
}

/// How many flags are set.
pub open spec fn flagged(flags: Seq<bool>) -> nat {
    flagged_upto(flags, flags.len() as int)
}

/// Each of the first `n` items is either kept or counted as dropped.
pub proof fn lemma_unflagged_len<A>(items: Seq<A>, flags: Seq<bool>, n: int)
    requires
        0 <= n,
    ensures
        unflagged_upto(items, flags, n).len() + flagged_upto(flags, n) == n,
    decreases n,
{
    if n > 0 {
        lemma_unflagged_len(items, flags, n - 1);
    }
}

/// Dropping commutes with taking a view of each item.
pub proof fn lemma_unflagged_map<A, B>(items: Seq<A>, f: spec_fn(A) -> B, flags: Seq<bool>, n: int)
    requires
        0 <= n <= items.len(),
    ensures
        unflagged_upto(items, flags, n).map_values(f) == unflagged_upto(
            items.map_values(f),
            flags,
            n,
        ),
    decreases n,
{
    if n > 0 {
        lemma_unflagged_map(items, f, flags, n - 1);
        let before = unflagged_upto(items, flags, n - 1);
        if !flags[n - 1] {
            assert(before.push(items[n - 1]).map_values(f) =~= before.map_values(f).push(
                f(items[n - 1]),
            ));
        }
    } else {
        assert(unflagged_upto(items, flags, n).map_values(f) =~= Seq::<B>::empty());
    }
}

/// With no flag set among the first `n`, the first `n` items stay as they are.
pub proof fn lemma_unflagged_none<A>(items: Seq<A>, flags: Seq<bool>, n: int)
    requires
        0 <= n <= items.len(),
        forall|i: int| 0 <= i < n ==> !flags[i],
    ensures
        unflagged_upto(items, flags, n) == items.take(n),
        flagged_upto(flags, n) == 0,
    decreases n,
{
    if n > 0 {
        lemma_unflagged_none(items, flags, n - 1);
        assert(items.take(n) =~= items.take(n - 1).push(items[n - 1]));
    } else {
        assert(items.take(n) =~= Seq::<A>::empty());
    }
}

/// With exactly the flag at `at` set among the first `n`, exactly that item
/// goes.
pub proof fn lemma_unflagged_one<A>(items: Seq<A>, flags: Seq<bool>, n: int, at: int)
    requires
        0 <= at < n <= items.len(),
        forall|i: int| 0 <= i < n ==> flags[i] == (i == at),
    ensures
        unflagged_upto(items, flags, n) == items.take(n).remove(at),
        flagged_upto(flags, n) == 1,
    decreases n,
{
    if n - 1 == at {
        lemma_unflagged_none(items, flags, n - 1);
        assert(items.take(n).remove(at) =~= items.take(n - 1));
    } else {
        lemma_unflagged_one(items, flags, n - 1, at);
        assert(items.take(n).remove(at) =~= items.take(n - 1).remove(at).push(items[n - 1]));
    }
}

/// Every item that is kept was there, unflagged, and every unflagged item
/// is kept.
pub proof fn lemma_unflagged_members<A>(items: Seq<A>, flags: Seq<bool>, n: int)
    requires
        0 <= n <= items.len(),
    ensures
        forall|k: int|
            0 <= k < unflagged_upto(items, flags, n).len() ==> exists|i: int|
                0 <= i < n && !flags[i] && items[i] == #[trigger] unflagged_upto(items, flags, n)[k],
        forall|i: int|
            0 <= i < n && !flags[i] ==> unflagged_upto(items, flags, n).contains(#[trigger] items[i]),
    decreases n,
{
    if n > 0 {
        lemma_unflagged_members(items, flags, n - 1);
        let before = unflagged_upto(items, flags, n - 1);
        let now = unflagged_upto(items, flags, n);
        assert forall|k: int| 0 <= k < now.len() implies exists|i: int|
            0 <= i < n && !flags[i] && items[i] == #[trigger] now[k] by {
            if k < before.len() {
                assert(now[k] == before[k]);
                let i = choose|i: int| 0 <= i < n - 1 && !flags[i] && items[i] == before[k];
                assert(0 <= i < n && !flags[i] && items[i] == now[k]);
            } else {
                assert(!flags[n - 1] && items[n - 1] == now[k]);
            }
        }
        assert forall|i: int| 0 <= i < n && !flags[i] implies now.contains(#[trigger] items[i]) by {
            if i < n - 1 {
                assert(before.contains(items[i]));
                let k = choose|k: int| 0 <= k < before.len() && before[k] == items[i];
                assert(now[k] == items[i]);
            } else {
                assert(now[now.len() - 1] == items[i]);
            }
        }
    }
}

/// Drops from `items` those that `flags` marks, and says how many went.
pub fn retain_unflagged<T>(items: &mut Vec<T>, flags: &Vec<bool>) -> (dropped: usize)
    requires
        flags.len() == old(items).len(),
    ensures
        final(items)@ == unflagged(old(items)@, flags@),
        dropped == flagged(flags@),
        final(items).len() + dropped == old(items).len(),
{
    let mut taken: Vec<T> = Vec::new();
    std::mem::swap(items, &mut taken);
    let mut i: usize = 0;
    let mut dropped: usize = 0;
    for item in it: taken
        invariant
            it.seq() == old(items)@,
            flags.len() == old(items).len(),
            i == it.index(),
            items@ == unflagged_upto(old(items)@, flags@, i as int),
            dropped == flagged_upto(flags@, i as int),
            dropped <= i,
    {
        if flags[i] {
            dropped += 1;
        } else {
            items.push(item);
        }
        i += 1;
    }
    proof {
        lemma_unflagged_len(old(items)@, flags@, i as int);
    }
    dropped
}

} // verus!
