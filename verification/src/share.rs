//! How much of the claimed fees a page may pay to investors.

use crate::model;
use vstd::prelude::*;

verus! {

/// A quotient is at least `c` where the dividend is at least `c` times the divisor.
proof fn lemma_quotient_at_least(a: nat, b: nat, c: nat)
    by (nonlinear_arith)
    requires
        b > 0,
        a >= c * b,
    ensures
        a / b >= c,
{
}

/// The locked fraction of the genesis allocation, in basis points. The
/// locked total must leave room for the product with 10,000;
/// `eligible_share_bps` has no such limit.
pub fn locked_fraction_bps(locked_total: u128, y0_total_alloc: u64) -> (bps: u128)
    requires
        locked_total * 10_000 <= u128::MAX,
    ensures
        bps == model::locked_fraction_bps(locked_total as nat, y0_total_alloc as nat),
{
    if y0_total_alloc == 0 {
        0
    } else {
        locked_total * 10_000 / (y0_total_alloc as u128)
    }
}

/// The investors' share of the fees, in basis points: the locked fraction,
/// capped by the policy's share. It is exact also where the locked fraction
/// itself is too large a number to be computed.
pub fn eligible_share_bps(investor_fee_share_bps: u16, locked_total: u128, y0_total_alloc: u64) -> (bps:
    u16)
    ensures
        bps == model::eligible_share_bps(
            investor_fee_share_bps as nat,
            locked_total as nat,
            y0_total_alloc as nat,
        ),
{
    if y0_total_alloc == 0 {
        0
    } else if locked_total > u128::MAX / 10_000 {
        proof {
            assert(locked_total as nat * 10_000 >= investor_fee_share_bps as nat
                * y0_total_alloc as nat) by (nonlinear_arith)
                requires
                    locked_total > u128::MAX / 10_000,
                    investor_fee_share_bps <= u16::MAX,
                    y0_total_alloc <= u64::MAX,
            ;
            lemma_quotient_at_least(
                locked_total as nat * 10_000,
                y0_total_alloc as nat,
                investor_fee_share_bps as nat,
            );
        }
        investor_fee_share_bps
    } else {
        let fraction = locked_fraction_bps(locked_total, y0_total_alloc);
        if fraction < investor_fee_share_bps as u128 {
            fraction as u16
        } else {
            investor_fee_share_bps
        }
    }
}

/// The investors' part of the claimed fees.
pub fn investor_fee_quote(claimed_quote: u64, eligible_bps: u16) -> (fee: u128)
    ensures
        fee == model::investor_fee_quote(claimed_quote as nat, eligible_bps as nat),
{
    assert(claimed_quote as u128 * eligible_bps as u128 <= 0xffff_ffff_ffff_ffff * 0xffff)
        by (nonlinear_arith);
    claimed_quote as u128 * eligible_bps as u128 / 10_000
}

/// What the page may pay out: the carry and the investors' part of the fees,
/// within what is left of the daily cap. Once the cap is reached that is
/// nothing. The sum of carry and fees must be a number that can be computed,
/// as it is with every fee that `investor_fee_quote` gives.
pub fn payable_pool(
    carry_lamports: u64,
    investor_fee: u128,
    daily_cap_lamports: Option<u64>,
    current_day_cumulative: u64,
) -> (available: u128)
    requires
        carry_lamports + investor_fee <= u128::MAX,
    ensures
        available == model::payable_pool(
            carry_lamports as nat,
            investor_fee as nat,
            daily_cap_lamports,
            current_day_cumulative as nat,
        ),
{
    let uncapped = carry_lamports as u128 + investor_fee;
    match daily_cap_lamports {
        None => uncapped,
        Some(cap) => {
            if current_day_cumulative >= cap {
                0
            } else {
                let remaining_cap = (cap - current_day_cumulative) as u128;
                if uncapped > remaining_cap {
                    remaining_cap
                } else {
                    uncapped
                }
            }
        },
    }
}

} // verus!
