//! Chance: the one place where the crate asks for a random number.

use vstd::prelude::*;
use rand::rngs::StdRng;
use rand::seq::SliceRandom;
use rand::Rng;
use rand::SeedableRng;

verus! {

/// `Rng::gen_range` on `rand::thread_rng()`, over the range from zero up to,
/// and without, the bound: some number below the bound. Nothing is said of
/// which one. An empty range makes `gen_range` panic, so the bound is
/// positive. `thread_rng` itself panics where the system can give it no
/// seed; no input rules that out.
#[verifier::external_body]
pub(crate) fn below(bound: u64) -> (r: u64)
    requires
        bound > 0,
    ensures
        r < bound,
{
    rand::thread_rng().gen_range(0..bound)
}

/// What the standard generator, seeded with a number, shuffles some numbers to.
pub uninterp spec fn shuffled_order(seed: u64, items: Seq<usize>) -> Seq<usize>;

/// `SliceRandom::shuffle` with `StdRng::seed_from_u64`: the numbers in the
/// order that this seed gives them. The same seed gives the same numbers the
/// same order, and a shuffle moves items and neither adds nor drops one.
#[verifier::external_body]
pub(crate) fn shuffle(items: &mut Vec<usize>, seed: u64)
    ensures
        final(items)@ == shuffled_order(seed, old(items)@),
        final(items)@.to_multiset() == old(items)@.to_multiset(),
{
    items.shuffle(&mut StdRng::seed_from_u64(seed))
}

/// The numbers below `n`, in order.
pub open spec fn numbers_below(n: nat) -> Seq<usize> {
    Seq::new(n, |k: int| k as usize)
}

/// Whether an order is one of the numbers below `n`: each of them once.
pub open spec fn is_order(order: Seq<usize>, n: nat) -> bool {
    &&& order.len() == n
    &&& forall|i: int| 0 <= i < n ==> #[trigger] order[i] < n
    &&& forall|i: int, j: int| 0 <= i < j < n ==> #[trigger] order[i] != #[trigger] order[j]
}

/// Numbers that are the numbers below `n` in some order hold each of them once.
pub proof fn lemma_shuffled_is_order(order: Seq<usize>, n: nat)
    requires
        n <= usize::MAX,
        order.to_multiset() == numbers_below(n).to_multiset(),
    ensures
        is_order(order, n),
{
    broadcast use vstd::seq_lib::to_multiset_len;
    broadcast use vstd::seq_lib::to_multiset_contains;

    let plain = numbers_below(n);
    assert(plain.no_duplicates());
    plain.lemma_multiset_has_no_duplicates();
    order.lemma_multiset_has_no_duplicates_conv();
    assert(order.len() == order.to_multiset().len());
    assert(plain.len() == plain.to_multiset().len());
    assert forall|i: int| 0 <= i < n implies #[trigger] order[i] < n by {
        assert(order.contains(order[i]));
        assert(order.to_multiset().contains(order[i]));
        assert(plain.contains(order[i]));
        let k = choose|k: int| 0 <= k < plain.len() && plain[k] == order[i];
        assert(plain[k] == k as usize);
    }
}

/// The numbers below `n` in the order that the standard generator, seeded
/// with a number, shuffles them to.
pub fn shuffled(seed: u64, n: usize) -> (r: Vec<usize>)
    ensures
        r@ == shuffled_order(seed, numbers_below(n as nat)),
        is_order(r@, n as nat),
{
    let mut order: Vec<usize> = Vec::new();
    let mut k: usize = 0;
    while k < n
        invariant
            k <= n,
            order@.len() == k,
            forall|j: int| 0 <= j < k ==> order@[j] == j,
        decreases n - k,
    {
        order.push(k);
        k = k + 1;
    }
    assert(order@ =~= numbers_below(n as nat));
    shuffle(&mut order, seed);
    proof {
        lemma_shuffled_is_order(order@, n as nat);
    }
    order
}

/// Some index into a collection of `len` items.
pub fn index_below(len: usize) -> (r: usize)
    requires
        len > 0,
    ensures
        r < len,
{
    below(len as u64) as usize
}

} // verus!
