//! Sums of lamport amounts.

use vstd::prelude::*;

verus! {

/// The sum of a sequence of amounts.
pub open spec fn total(amounts: Seq<u64>) -> nat
    decreases amounts.len(),
{
    if amounts.len() == 0 {
        0
    } else {
        total(amounts.drop_last()) + amounts.last() as nat
    }
}

/// A sequence of `len` amounts, each of them zero.
pub open spec fn zeros(len: nat) -> Seq<u64> {
    Seq::new(len, |i: int| 0u64)
}

/// Taking one more amount adds that amount to the sum.
pub proof fn lemma_total_step(amounts: Seq<u64>, i: int)
    requires
        0 <= i < amounts.len(),
    ensures
        total(amounts.take(i + 1)) == total(amounts.take(i)) + amounts[i] as nat,
{
    assert(amounts.take(i + 1).drop_last() =~= amounts.take(i));
}

/// Each amount is at most the sum of all.
pub proof fn lemma_total_covers(amounts: Seq<u64>, i: int)
    requires
        0 <= i < amounts.len(),
    ensures
        amounts[i] as nat <= total(amounts),
    decreases amounts.len(),
{
    if i < amounts.len() - 1 {
        lemma_total_covers(amounts.drop_last(), i);
    }
}

/// A sum of zeros is zero.
pub proof fn lemma_total_zeros(len: nat)
    ensures
        total(zeros(len)) == 0,
    decreases len,
{
    if len > 0 {
        assert(zeros(len).drop_last() =~= zeros((len - 1) as nat));
        lemma_total_zeros((len - 1) as nat);
    }
}

/// Adds up a list of amounts: what a page's investors have locked, or what
/// they are paid.
pub fn total_of(amounts: &Vec<u64>) -> (sum: u128)
    ensures
        sum == total(amounts@),
{
    let mut sum: u128 = 0;
    let mut i: usize = 0;
    while i < amounts.len()
        invariant
            i <= amounts.len(),
            sum == total(amounts@.take(i as int)),
            sum <= i * u64::MAX,
        decreases amounts.len() - i,
    {
        proof {
            lemma_total_step(amounts@, i as int);
        }
        sum = sum + amounts[i] as u128;
        i = i + 1;
    }
    assert(amounts@.take(i as int) =~= amounts@);
    sum
}

/// A list of `len` payouts of nothing.
pub fn no_payouts(len: usize) -> (payouts: Vec<u64>)
    ensures
        payouts@ == zeros(len as nat),
{
    let mut payouts: Vec<u64> = Vec::with_capacity(len);
    let mut i: usize = 0;
    while i < len
        invariant
            i <= len,
            payouts@ == zeros(i as nat),
        decreases len - i,
    {
        payouts.push(0);
        i = i + 1;
        assert(payouts@ =~= zeros(i as nat));
    }
    payouts
}

} // verus!
