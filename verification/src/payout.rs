//! The payouts of a page: each investor's share of the pool, and the dust rule.

use crate::amounts::{
    lemma_total_covers, lemma_total_step, lemma_total_zeros, no_payouts, total, total_of, zeros,
};
use crate::model;
use vstd::prelude::*;

verus! {

/// A part of the pool in proportion to a part of the whole is within the pool.
pub proof fn lemma_share_within_pool(available: nat, locked: nat, locked_total: nat)
    ensures
        locked <= locked_total ==> model::raw_share(available, locked, locked_total) <= available,
        model::raw_share(available, locked, locked_total) * locked_total <= available * locked,
{
    if locked_total > 0 {
        assert(locked <= locked_total ==> available * locked / locked_total <= available)
            by (nonlinear_arith)
            requires
                locked_total > 0,
        ;
        assert((available * locked / locked_total) * locked_total <= available * locked)
            by (nonlinear_arith)
            requires
                locked_total > 0,
        ;
    }
}

/// No payout is more than the investor's share, and none more than the pool.
pub proof fn lemma_payout_within_share(
    available: nat,
    locked_amounts: Seq<u64>,
    min_payout: nat,
    i: int,
)
    requires
        0 <= i < locked_amounts.len(),
    ensures
        model::payout(available, locked_amounts[i] as nat, total(locked_amounts), min_payout)
            <= model::raw_share(available, locked_amounts[i] as nat, total(locked_amounts))
            <= available,
{
    lemma_total_covers(locked_amounts, i);
    lemma_share_within_pool(available, locked_amounts[i] as nat, total(locked_amounts));
}

/// The payouts of the first `k` investors, taken `locked_total` times, are
/// within the pool taken as many times as those investors have locked.
proof fn lemma_payouts_prefix(available: nat, locked_amounts: Seq<u64>, min_payout: nat, k: int)
    requires
        available <= u64::MAX,
        0 <= k <= locked_amounts.len(),
    ensures
        total(model::page_payouts(available, locked_amounts, min_payout).take(k)) * total(
            locked_amounts,
        ) <= available * total(locked_amounts.take(k)),
    decreases k,
{
    let payouts = model::page_payouts(available, locked_amounts, min_payout);
    let whole = total(locked_amounts);
    let paid_so_far = total(payouts.take(k));
    let locked_so_far = total(locked_amounts.take(k));
    if k == 0 {
        assert(paid_so_far * whole <= available * locked_so_far) by (nonlinear_arith)
            requires
                paid_so_far == 0,
                locked_so_far == 0,
        ;
    } else {
        lemma_payouts_prefix(available, locked_amounts, min_payout, k - 1);
        lemma_total_step(payouts, k - 1);
        lemma_total_step(locked_amounts, k - 1);
        lemma_payout_within_share(available, locked_amounts, min_payout, k - 1);
        let locked = locked_amounts[k - 1] as nat;
        let share = model::raw_share(available, locked, whole);
        let paid = payouts[k - 1] as nat;
        lemma_share_within_pool(available, locked, whole);
        let before = total(payouts.take(k - 1));
        let locked_before = total(locked_amounts.take(k - 1));
        assert(paid_so_far * whole <= available * locked_so_far) by (nonlinear_arith)
            requires
                paid_so_far == before + paid,
                locked_so_far == locked_before + locked,
                before * whole <= available * locked_before,
                paid <= share,
                share * whole <= available * locked,
        ;
    }
}

/// All the payouts of a page together are within the pool.
pub proof fn lemma_payouts_within_pool(available: nat, locked_amounts: Seq<u64>, min_payout: nat)
    requires
        available <= u64::MAX,
    ensures
        total(model::page_payouts(available, locked_amounts, min_payout)) <= available,
{
    let payouts = model::page_payouts(available, locked_amounts, min_payout);
    let whole = total(locked_amounts);
    if whole == 0 {
        assert(payouts =~= zeros(locked_amounts.len()));
        lemma_total_zeros(locked_amounts.len());
    } else {
        lemma_payouts_prefix(available, locked_amounts, min_payout, locked_amounts.len() as int);
        assert(payouts.take(locked_amounts.len() as int) =~= payouts);
        assert(locked_amounts.take(locked_amounts.len() as int) =~= locked_amounts);
        let paid = total(payouts);
        assert(paid <= available) by (nonlinear_arith)
            requires
                paid * whole <= available * whole,
                whole > 0,
        ;
    }
}

/// Computes the payouts of a page from the pool that may be paid out: to each
/// investor the share that goes with the investor's locked amount, rounded
/// down, and nothing where that is less than the least payout.
pub fn page_payouts(available: u64, locked_amounts: &Vec<u64>, min_payout_lamports: u64) -> (payouts:
    Vec<u64>)
    ensures
        payouts@ == model::page_payouts(
            available as nat,
            locked_amounts@,
            min_payout_lamports as nat,
        ),
{
    let locked_total = total_of(locked_amounts);
    if locked_total == 0 {
        assert(model::page_payouts(available as nat, locked_amounts@, min_payout_lamports as nat)
            =~= zeros(locked_amounts@.len()));
        return no_payouts(locked_amounts.len());
    }
    let mut payouts: Vec<u64> = Vec::with_capacity(locked_amounts.len());
    let mut i: usize = 0;
    while i < locked_amounts.len()
        invariant
            i <= locked_amounts.len(),
            locked_total == total(locked_amounts@),
            locked_total > 0,
            payouts@.len() == i,
            forall|j: int|
                0 <= j < i ==> payouts@[j] as nat == model::payout(
                    available as nat,
                    #[trigger] locked_amounts@[j] as nat,
                    total(locked_amounts@),
                    min_payout_lamports as nat,
                ),
        decreases locked_amounts.len() - i,
    {
        let locked = locked_amounts[i];
        proof {
            lemma_payout_within_share(
                available as nat,
                locked_amounts@,
                min_payout_lamports as nat,
                i as int,
            );
        }
        assert(available as u128 * locked as u128 <= 0xffff_ffff_ffff_ffff * 0xffff_ffff_ffff_ffff)
            by (nonlinear_arith);
        let share = available as u128 * locked as u128 / locked_total;
        let paid: u64 = if share < min_payout_lamports as u128 {
            0
        } else {
            share as u64
        };
        payouts.push(paid);
        i = i + 1;
    }
    proof {
        let expected = model::page_payouts(
            available as nat,
            locked_amounts@,
            min_payout_lamports as nat,
        );
        assert forall|j: int| 0 <= j < payouts@.len() implies payouts@[j] == expected[j] by {
            lemma_payout_within_share(
                available as nat,
                locked_amounts@,
                min_payout_lamports as nat,
                j,
            );
        }
        assert(payouts@ =~= expected);
    }
    payouts
}

} // verus!
