//! What a distribution call does, as mathematics: the arithmetic of one
//! page over the natural numbers, the day window, and the call as a whole.
//!
//! Every quotient here is rounded down.

use crate::accounts::CrankDistribute;
use crate::amounts::{total, zeros};
use crate::errors::HonoraryError;
use crate::events::{CreatorPayoutDayClose, InvestorPayoutPage, PageView, QuoteFeesClaimed};
use crate::state::{Policy, Progress};
use vstd::prelude::*;

verus! {

/// The smaller of two numbers.
pub open spec fn least(a: nat, b: nat) -> nat {
    if a <= b {
        a
    } else {
        b
    }
}

/// The part of the genesis allocation that is still locked, in basis points.
/// With no allocation at genesis it is zero.
pub open spec fn locked_fraction_bps(locked_total: nat, y0_total_alloc: nat) -> nat {
    if y0_total_alloc == 0 {
        0
    } else {
        locked_total * 10_000 / y0_total_alloc
    }
}

/// The share that investors are entitled to: the locked fraction, up to the
/// share that the policy grants.
pub open spec fn eligible_share_bps(
    investor_fee_share_bps: nat,
    locked_total: nat,
    y0_total_alloc: nat,
) -> nat {
    least(investor_fee_share_bps, locked_fraction_bps(locked_total, y0_total_alloc))
}

/// The investors' part of the claimed fees.
pub open spec fn investor_fee_quote(claimed_quote: nat, eligible_bps: nat) -> nat {
    claimed_quote * eligible_bps / 10_000
}

/// What a page may pay out: the carry and the investors' part of the fees,
/// within what the daily cap leaves. What the cap cuts off is not carried.
pub open spec fn payable_pool(
    carry: nat,
    investor_fee: nat,
    daily_cap: Option<u64>,
    cumulative: nat,
) -> nat {
    match daily_cap {
        None => carry + investor_fee,
        Some(cap) => if cumulative >= cap {
            0
        } else {
            least(carry + investor_fee, (cap - cumulative) as nat)
        },
    }
}

/// An investor's share of the pool, in proportion to what the investor has
/// locked. Where nothing is locked, nobody has a share.
pub open spec fn raw_share(available: nat, locked: nat, locked_total: nat) -> nat {
    if locked_total == 0 {
        0
    } else {
        available * locked / locked_total
    }
}

/// What an investor is paid: the share, or nothing where the share is below
/// the least payout.
pub open spec fn payout(available: nat, locked: nat, locked_total: nat, min_payout: nat) -> nat {
    if raw_share(available, locked, locked_total) < min_payout {
        0
    } else {
        raw_share(available, locked, locked_total)
    }
}

/// The payouts of a page, one for each investor and in the investors' order.
pub open spec fn page_payouts(available: nat, locked_amounts: Seq<u64>, min_payout: nat) -> Seq<u64> {
    Seq::new(
        locked_amounts.len(),
        |i: int| payout(available, locked_amounts[i] as nat, total(locked_amounts), min_payout) as u64,
    )
}

/// Each investor's share of the pool, before the dust rule.
pub open spec fn page_raw_shares(available: nat, locked_amounts: Seq<u64>) -> Seq<u64> {
    Seq::new(
        locked_amounts.len(),
        |i: int| raw_share(available, locked_amounts[i] as nat, total(locked_amounts)) as u64,
    )
}

/// What the dust rule keeps back from each investor: the whole share where
/// it is below the least payout, else nothing.
pub open spec fn page_dust(available: nat, locked_amounts: Seq<u64>, min_payout: nat) -> Seq<u64> {
    Seq::new(
        locked_amounts.len(),
        |i: int|
            (page_raw_shares(available, locked_amounts)[i] - page_payouts(
                available,
                locked_amounts,
                min_payout,
            )[i]) as u64,
    )
}

/// The length of a day, in seconds.
pub const DAY_SECONDS: i64 = 86_400;

/// Whether a call at `now_ts` begins a new day: nothing was distributed yet,
/// or a day or more has passed since the current day began.
pub open spec fn is_new_day(progress: Progress, now_ts: i64) -> bool {
    progress.last_distribution_ts == 0 || now_ts - progress.last_distribution_ts >= DAY_SECONDS
}

/// The record at the beginning of a day that opens at `now_ts`: nothing paid
/// yet, the first page due, and the carry kept.
pub open spec fn opened_day(progress: Progress, now_ts: i64) -> Progress {
    Progress {
        last_distribution_ts: now_ts,
        current_day_cumulative: 0,
        page_cursor: 0,
        in_day: true,
        ..progress
    }
}

/// The record with which a call at `now_ts` works: that of a new day where
/// one begins, else the record as it is if its day is open. Else there is
/// none: a day that was closed is not taken up again.
pub open spec fn day_window(progress: Progress, now_ts: i64) -> Option<Progress> {
    if is_new_day(progress, now_ts) {
        Some(opened_day(progress, now_ts))
    } else if progress.in_day {
        Some(progress)
    } else {
        None
    }
}

/// The page that a call is for: the one it names, or else the one that is due.
pub open spec fn page_index(page_index_opt: Option<u64>, progress: Progress) -> u64 {
    match page_index_opt {
        Some(index) => index,
        None => progress.page_cursor,
    }
}

/// What a page may pay out, from the records and the balance of the fee pool.
pub open spec fn page_available(
    policy: Policy,
    progress: Progress,
    claimed_quote: u64,
    locked_amounts: Seq<u64>,
) -> nat {
    payable_pool(
        progress.carry_lamports as nat,
        investor_fee_quote(
            claimed_quote as nat,
            eligible_share_bps(
                policy.investor_fee_share_bps as nat,
                total(locked_amounts),
                policy.y0_total_alloc as nat,
            ),
        ),
        policy.daily_cap_lamports,
        progress.current_day_cumulative as nat,
    )
}

/// The first of the identity checks that the accounts of a call fail, if any.
pub open spec fn account_refusal(accounts: CrankDistribute) -> Option<HonoraryError> {
    if accounts.policy.quote_mint != accounts.quote_mint {
        Some(HonoraryError::QuoteMintMismatch)
    } else if accounts.treasury_mint != accounts.quote_mint {
        Some(HonoraryError::TreasuryMintMismatch)
    } else if accounts.creator_quote_ata != accounts.policy.creator_quote_ata {
        Some(HonoraryError::CreatorAtaMismatch)
    } else {
        None
    }
}

/// The report of a call that pays nothing and closes nothing.
pub open spec fn idle_page(accounts: CrankDistribute, page_index: u64, investors: nat) -> PageView {
    PageView {
        claimed: QuoteFeesClaimed {
            claimed_amount: accounts.treasury_amount,
            treasury: accounts.treasury,
        },
        page: InvestorPayoutPage { page_index, distributed: 0 },
        payouts: zeros(investors),
        day_close: None,
    }
}

/// A page that is due, within the open day of `progress`: the payouts, and
/// the record after them. It is refused where the pool, the day's total or
/// the cursor leaves the range of an amount, and where the payouts come to
/// more than the fee pool holds.
pub open spec fn due_page(
    accounts: CrankDistribute,
    progress: Progress,
    locked_amounts: Seq<u64>,
    page_is_final: bool,
) -> Result<(Progress, PageView), HonoraryError> {
    let claimed_quote = accounts.treasury_amount;
    let available = page_available(accounts.policy, progress, claimed_quote, locked_amounts);
    let payouts = page_payouts(
        available,
        locked_amounts,
        accounts.policy.min_payout_lamports as nat,
    );
    let distributed = total(payouts);
    if available > u64::MAX || distributed > claimed_quote || progress.current_day_cumulative
        + distributed > u64::MAX || progress.page_cursor + 1 > u64::MAX {
        Err(HonoraryError::Overflow)
    } else {
        Ok(
            (
                Progress {
                    current_day_cumulative: (progress.current_day_cumulative + distributed) as u64,
                    carry_lamports: if page_is_final {
                        0
                    } else {
                        (available - distributed) as u64
                    },
                    page_cursor: (progress.page_cursor + 1) as u64,
                    in_day: !page_is_final,
                    ..progress
                },
                PageView {
                    claimed: QuoteFeesClaimed {
                        claimed_amount: claimed_quote,
                        treasury: accounts.treasury,
                    },
                    page: InvestorPayoutPage {
                        page_index: progress.page_cursor,
                        distributed: distributed as u64,
                    },
                    payouts,
                    day_close: if page_is_final {
                        Some(
                            CreatorPayoutDayClose {
                                day_ts: progress.last_distribution_ts,
                                remainder_to_creator: (claimed_quote - distributed) as u64,
                            },
                        )
                    } else {
                        None
                    },
                },
            ),
        )
    }
}

/// One distribution call: the record that it leaves and what it reports, or
/// why it is refused.
///
/// The accounts are checked first. An empty fee pool ends the call with
/// nothing done. A balance of the secondary asset is refused. Then the day
/// window is passed. A page other than the one that is due is a repeat: it
/// pays nothing. The page that is due is paid, and closes the day if it is
/// the last.
pub open spec fn crank(
    accounts: CrankDistribute,
    now_ts: i64,
    page_index_opt: Option<u64>,
    locked_amounts: Seq<u64>,
    page_is_final: bool,
) -> Result<(Progress, PageView), HonoraryError> {
    if let Some(refusal) = account_refusal(accounts) {
        Err(refusal)
    } else if accounts.treasury_amount == 0 {
        Ok(
            (
                accounts.progress,
                idle_page(
                    accounts,
                    page_index(page_index_opt, accounts.progress),
                    locked_amounts.len(),
                ),
            ),
        )
    } else if accounts.base_treasury_amount matches Some(balance) && balance > 0 {
        Err(HonoraryError::BaseFeesDetected)
    } else {
        match day_window(accounts.progress, now_ts) {
            None => Err(HonoraryError::NotInActiveDay),
            Some(progress) => if page_index(page_index_opt, progress) != progress.page_cursor {
                Ok(
                    (
                        progress,
                        idle_page(
                            accounts,
                            page_index(page_index_opt, progress),
                            locked_amounts.len(),
                        ),
                    ),
                )
            } else {
                due_page(accounts, progress, locked_amounts, page_is_final)
            },
        }
    }
}

} // verus!
