//! The two operations on a position: to initialize it, and to distribute a
//! page of the day's fees.

use crate::accounts::{CrankDistribute, Initialize};
use crate::amounts::{no_payouts, total, total_of, zeros};
use crate::day::day_window;
use crate::errors::HonoraryError;
use crate::events::{
    CreatorPayoutDayClose, HonoraryPositionInitialized, InvestorPayoutPage, PageOutcome, PageView,
    QuoteFeesClaimed,
};
use crate::laws::{lemma_call_conserves, lemma_call_keeps_cap, lemma_zero_locked_pays_nobody};
use crate::model;
use crate::payout::{lemma_payouts_within_pool, page_payouts};
use crate::share::{eligible_share_bps, investor_fee_quote, payable_pool};
use crate::state::{Policy, Progress, MAX_BPS};
use vstd::prelude::*;

verus! {

/// Sets up a position: writes its policy from the configuration given, and a
/// progress record on which nothing has happened yet, and reports the
/// accounts of the position.
///
/// The fee pool must hold the fee asset: where it holds another, the call is
/// refused, and only then. The fee share is a share in basis points, so at
/// most 10,000.
pub fn initialize(
    accounts: &Initialize,
    investor_fee_share_bps: u16,
    daily_cap_lamports_opt: Option<u64>,
    min_payout_lamports: u64,
    y0_total_alloc: u64,
) -> (made: Result<(Policy, Progress, HonoraryPositionInitialized), HonoraryError>)
    requires
        investor_fee_share_bps <= MAX_BPS,
    ensures
        match made {
            Ok((policy, progress, event)) => {
                &&& accounts.treasury_mint == accounts.quote_mint
                &&& policy == (Policy {
                    bump: accounts.policy_bump,
                    investor_fee_share_bps,
                    daily_cap_lamports: daily_cap_lamports_opt,
                    min_payout_lamports,
                    y0_total_alloc,
                    quote_mint: accounts.quote_mint,
                    creator_quote_ata: accounts.creator_quote_ata,
                    streamflow_program: accounts.streamflow_program,
                })
                &&& progress == Progress::initial(accounts.progress_bump)
                &&& event == (HonoraryPositionInitialized {
                    policy: accounts.policy,
                    progress: accounts.progress,
                    treasury: accounts.treasury,
                    quote_mint: accounts.quote_mint,
                    creator_quote_ata: accounts.creator_quote_ata,
                })
                &&& policy.wf()
                &&& progress.within_cap(policy)
            },
            Err(refusal) => {
                &&& accounts.treasury_mint != accounts.quote_mint
                &&& refusal == HonoraryError::TreasuryMintMismatch
            },
        },
{
    if accounts.treasury_mint != accounts.quote_mint {
        return Err(HonoraryError::TreasuryMintMismatch);
    }
    let policy = Policy {
        bump: accounts.policy_bump,
        investor_fee_share_bps,
        daily_cap_lamports: daily_cap_lamports_opt,
        min_payout_lamports,
        y0_total_alloc,
        quote_mint: accounts.quote_mint,
        creator_quote_ata: accounts.creator_quote_ata,
        streamflow_program: accounts.streamflow_program,
    };
    let progress = Progress {
        bump: accounts.progress_bump,
        last_distribution_ts: 0,
        current_day_cumulative: 0,
        carry_lamports: 0,
        page_cursor: 0,
        in_day: false,
    };
    let event = HonoraryPositionInitialized {
        policy: accounts.policy,
        progress: accounts.progress,
        treasury: accounts.treasury,
        quote_mint: accounts.quote_mint,
        creator_quote_ata: accounts.creator_quote_ata,
    };
    Ok((policy, progress, event))
}

/// The investors' part of the fees is at most the fees times the share.
proof fn lemma_fee_bound(claimed_quote: nat, eligible_bps: nat)
    by (nonlinear_arith)
    requires
        claimed_quote <= u64::MAX,
        eligible_bps <= u16::MAX,
    ensures
        model::investor_fee_quote(claimed_quote, eligible_bps) <= 0xffff_ffff_ffff_ffff * 0xffff,
{
}

/// The report of a call that pays nothing and closes nothing.
fn idle_page(accounts: &CrankDistribute, page_index: u64, investors: usize) -> (outcome: PageOutcome)
    ensures
        outcome@ == model::idle_page(*accounts, page_index, investors as nat),
{
    PageOutcome {
        claimed: QuoteFeesClaimed {
            claimed_amount: accounts.treasury_amount,
            treasury: accounts.treasury,
        },
        page: InvestorPayoutPage { page_index, distributed: 0 },
        payouts: no_payouts(investors),
        day_close: None,
    }
}

/// Distributes one page of the day's fees.
///
/// The call is given the records of the position and what the ledger holds,
/// the time, the page it is for (the page that is due, if it names none),
/// what each investor of the page still has locked, and whether the page is
/// the day's last. It writes the progress record and returns what is to be
/// transferred: a payout for each investor and, on the last page, all that is
/// left of the fee pool for the creator.
///
/// What the call does is `model::crank`, exactly. A call that is refused
/// changes nothing. Of a call that goes through, the contract goes on to say
/// what `model::crank` implies for it: the payouts come to what is reported
/// as distributed and to no more than the fee pool holds; a page that closes
/// the day hands out the whole pool; where nothing is locked nobody is paid;
/// and the day's total stays within the daily cap.
///
/// A claim, where the caller has one to relay, is relayed before this call,
/// so that the balance of the fee pool is the balance after the claim: see
/// `relay::claim_request`.
pub fn crank_distribute(
    accounts: &mut CrankDistribute,
    now_ts: i64,
    page_index_opt: Option<u64>,
    locked_amounts: Vec<u64>,
    page_is_final: bool,
) -> (done: Result<PageOutcome, HonoraryError>)
    ensures
        match done {
            Ok(outcome) => model::crank(
                *old(accounts),
                now_ts,
                page_index_opt,
                locked_amounts@,
                page_is_final,
            ) == Ok::<(Progress, PageView), HonoraryError>((final(accounts).progress, outcome@)),
            Err(refusal) => model::crank(
                *old(accounts),
                now_ts,
                page_index_opt,
                locked_amounts@,
                page_is_final,
            ) == Err::<(Progress, PageView), HonoraryError>(refusal) && final(accounts).progress
                == old(accounts).progress,
        },
        *final(accounts) == (CrankDistribute { progress: final(accounts).progress, ..*old(accounts) }),
        done matches Ok(outcome) ==> {
            &&& outcome.payouts@.len() == locked_amounts@.len()
            &&& outcome.page.distributed == total(outcome.payouts@)
            &&& outcome.page.distributed <= old(accounts).treasury_amount
            &&& outcome.day_close matches Some(close) ==> outcome.page.distributed
                + close.remainder_to_creator == old(accounts).treasury_amount
            &&& total(locked_amounts@) == 0 ==> outcome.payouts@ == zeros(locked_amounts@.len())
        },
        old(accounts).progress.within_cap(old(accounts).policy) ==> final(accounts).progress.within_cap(
            old(accounts).policy,
        ),
{
    proof {
        lemma_call_conserves(*accounts, now_ts, page_index_opt, locked_amounts@, page_is_final);
        if total(locked_amounts@) == 0 {
            lemma_zero_locked_pays_nobody(
                *accounts,
                now_ts,
                page_index_opt,
                locked_amounts@,
                page_is_final,
            );
        }
        if accounts.progress.within_cap(accounts.policy) {
            lemma_call_keeps_cap(*accounts, now_ts, page_index_opt, locked_amounts@, page_is_final);
        }
    }
    let policy = accounts.policy;
    if policy.quote_mint != accounts.quote_mint {
        return Err(HonoraryError::QuoteMintMismatch);
    }
    if accounts.treasury_mint != accounts.quote_mint {
        return Err(HonoraryError::TreasuryMintMismatch);
    }
    if accounts.creator_quote_ata != policy.creator_quote_ata {
        return Err(HonoraryError::CreatorAtaMismatch);
    }
    let claimed_quote = accounts.treasury_amount;
    if claimed_quote == 0 {
        let page_index = match page_index_opt {
            Some(index) => index,
            None => accounts.progress.page_cursor,
        };
        return Ok(idle_page(accounts, page_index, locked_amounts.len()));
    }
    if let Some(balance) = accounts.base_treasury_amount {
        if balance > 0 {
            return Err(HonoraryError::BaseFeesDetected);
        }
    }
    let progress = match day_window(&accounts.progress, now_ts) {
        Ok(progress) => progress,
        Err(refusal) => {
            return Err(refusal);
        },
    };
    let page_index = match page_index_opt {
        Some(index) => index,
        None => progress.page_cursor,
    };
    if page_index != progress.page_cursor {
        let outcome = idle_page(accounts, page_index, locked_amounts.len());
        accounts.progress = progress;
        return Ok(outcome);
    }
    let locked_total = total_of(&locked_amounts);
    let eligible_bps = eligible_share_bps(
        policy.investor_fee_share_bps,
        locked_total,
        policy.y0_total_alloc,
    );
    let investor_fee = investor_fee_quote(claimed_quote, eligible_bps);
    proof {
        lemma_fee_bound(claimed_quote as nat, eligible_bps as nat);
    }
    let available = payable_pool(
        progress.carry_lamports,
        investor_fee,
        policy.daily_cap_lamports,
        progress.current_day_cumulative,
    );
    if available > u64::MAX as u128 {
        return Err(HonoraryError::Overflow);
    }
    let available = available as u64;
    let payouts = page_payouts(available, &locked_amounts, policy.min_payout_lamports);
    let distributed = total_of(&payouts);
    proof {
        lemma_payouts_within_pool(
            available as nat,
            locked_amounts@,
            policy.min_payout_lamports as nat,
        );
    }
    if distributed > claimed_quote as u128 {
        return Err(HonoraryError::Overflow);
    }
    let distributed = distributed as u64;
    let current_day_cumulative = match progress.current_day_cumulative.checked_add(distributed) {
        Some(sum) => sum,
        None => {
            return Err(HonoraryError::Overflow);
        },
    };
    let page_cursor = match progress.page_cursor.checked_add(1) {
        Some(next) => next,
        None => {
            return Err(HonoraryError::Overflow);
        },
    };
    let outcome = PageOutcome {
        claimed: QuoteFeesClaimed { claimed_amount: claimed_quote, treasury: accounts.treasury },
        page: InvestorPayoutPage { page_index, distributed },
        payouts,
        day_close: if page_is_final {
            Some(
                CreatorPayoutDayClose {
                    day_ts: progress.last_distribution_ts,
                    remainder_to_creator: claimed_quote - distributed,
                },
            )
        } else {
            None
        },
    };
    accounts.progress = Progress {
        bump: progress.bump,
        last_distribution_ts: progress.last_distribution_ts,
        current_day_cumulative,
        carry_lamports: if page_is_final {
            0
        } else {
            available - distributed
        },
        page_cursor,
        in_day: !page_is_final,
    };
    Ok(outcome)
}

} // verus!
