//! What holds of every distribution call, and of every run of calls.

use crate::accounts::CrankDistribute;
use crate::amounts::{lemma_total_zeros, total, zeros};
use crate::model;
use crate::payout::{lemma_payout_within_share, lemma_payouts_within_pool};
use crate::state::{Policy, Progress};
use vstd::prelude::*;

verus! {

/// Whether a call is for the page that is due and goes through: it pays that
/// page and moves the cursor on.
pub open spec fn commits_page(
    accounts: CrankDistribute,
    now_ts: i64,
    page_index_opt: Option<u64>,
    locked_amounts: Seq<u64>,
    page_is_final: bool,
) -> bool {
    &&& model::crank(accounts, now_ts, page_index_opt, locked_amounts, page_is_final) is Ok
    &&& accounts.treasury_amount > 0
    &&& model::day_window(accounts.progress, now_ts) matches Some(progress)
    &&& model::page_index(page_index_opt, progress) == progress.page_cursor
}

/// Conservation, call by call. What a call reports as distributed is the sum
/// of its payouts, and they come to no more than the fee pool holds. A call
/// that closes the day sends the creator all the rest: payouts and remainder
/// together are the balance of the pool, to the lamport.
pub proof fn lemma_call_conserves(
    accounts: CrankDistribute,
    now_ts: i64,
    page_index_opt: Option<u64>,
    locked_amounts: Seq<u64>,
    page_is_final: bool,
)
    ensures
        model::crank(accounts, now_ts, page_index_opt, locked_amounts, page_is_final) matches Ok(
            (_, report),
        ) ==> {
            &&& report.payouts.len() == locked_amounts.len()
            &&& report.page.distributed == total(report.payouts)
            &&& report.page.distributed <= accounts.treasury_amount
            &&& report.claimed.claimed_amount == accounts.treasury_amount
            &&& report.day_close matches Some(close) ==> report.page.distributed
                + close.remainder_to_creator == accounts.treasury_amount
        },
{
    lemma_total_zeros(locked_amounts.len());
}

/// A call that names another page than the one that is due, within the day
/// that is open, pays nothing, closes nothing and leaves the progress record
/// as it is.
pub proof fn lemma_stale_page_is_idle(
    accounts: CrankDistribute,
    now_ts: i64,
    page_index: u64,
    locked_amounts: Seq<u64>,
    page_is_final: bool,
)
    requires
        !model::is_new_day(accounts.progress, now_ts),
        page_index != accounts.progress.page_cursor,
    ensures
        model::crank(accounts, now_ts, Some(page_index), locked_amounts, page_is_final) matches Ok(
            (progress, report),
        ) ==> {
            &&& progress == accounts.progress
            &&& report.payouts == zeros(locked_amounts.len())
            &&& report.page.distributed == 0
            &&& report.day_close is None
        },
{
}

/// Idempotency. Once a page has been paid, a call that names the same page
/// again within the same day changes nothing: if it is not refused, it pays
/// nothing, closes nothing and leaves the progress record as the first call
/// left it. (From the next day on the same index names a page of that day.)
pub proof fn lemma_resubmission_is_idle(
    first: CrankDistribute,
    first_ts: i64,
    page_index_opt: Option<u64>,
    first_locked: Seq<u64>,
    first_is_final: bool,
    second: CrankDistribute,
    second_ts: i64,
    second_locked: Seq<u64>,
    second_is_final: bool,
)
    requires
        commits_page(first, first_ts, page_index_opt, first_locked, first_is_final),
        model::crank(first, first_ts, page_index_opt, first_locked, first_is_final) matches Ok(
            (progress, _),
        ) && second.progress == progress,
        !model::is_new_day(second.progress, second_ts),
    ensures
        model::crank(first, first_ts, page_index_opt, first_locked, first_is_final) matches Ok(
            (_, paid),
        ) && (model::crank(
            second,
            second_ts,
            Some(paid.page.page_index),
            second_locked,
            second_is_final,
        ) matches Ok((progress, report)) ==> {
            &&& progress == second.progress
            &&& report.payouts == zeros(second_locked.len())
            &&& report.page.distributed == 0
            &&& report.day_close is None
        }),
{
}

/// The cap, call by call. If the day's total is within the daily cap before
/// a call, it is within it after.
pub proof fn lemma_call_keeps_cap(
    accounts: CrankDistribute,
    now_ts: i64,
    page_index_opt: Option<u64>,
    locked_amounts: Seq<u64>,
    page_is_final: bool,
)
    requires
        accounts.progress.within_cap(accounts.policy),
    ensures
        model::crank(accounts, now_ts, page_index_opt, locked_amounts, page_is_final) matches Ok(
            (progress, _),
        ) ==> progress.within_cap(accounts.policy),
{
    if let Some(progress) = model::day_window(accounts.progress, now_ts) {
        let available = model::page_available(
            accounts.policy,
            progress,
            accounts.treasury_amount,
            locked_amounts,
        );
        if available <= u64::MAX {
            lemma_payouts_within_pool(
                available,
                locked_amounts,
                accounts.policy.min_payout_lamports as nat,
            );
        }
    }
}

/// Where nothing is locked on a page, no investor of the page is paid. If
/// the page is paid as the day's last, the whole balance of the fee pool goes
/// to the creator.
pub proof fn lemma_zero_locked_pays_nobody(
    accounts: CrankDistribute,
    now_ts: i64,
    page_index_opt: Option<u64>,
    locked_amounts: Seq<u64>,
    page_is_final: bool,
)
    requires
        total(locked_amounts) == 0,
    ensures
        model::crank(accounts, now_ts, page_index_opt, locked_amounts, page_is_final) matches Ok(
            (_, report),
        ) ==> {
            &&& report.payouts == zeros(locked_amounts.len())
            &&& report.page.distributed == 0
            &&& page_is_final && commits_page(
                accounts,
                now_ts,
                page_index_opt,
                locked_amounts,
                page_is_final,
            ) ==> (report.day_close matches Some(close) && close.remainder_to_creator
                == accounts.treasury_amount)
        },
{
    lemma_total_zeros(locked_amounts.len());
    assert forall|available: nat, min_payout: nat|
        model::page_payouts(available, locked_amounts, min_payout) == zeros(
            locked_amounts.len(),
        ) by {
        assert(model::page_payouts(available, locked_amounts, min_payout) =~= zeros(
            locked_amounts.len(),
        ));
    }
}

/// The cursor moves with paid pages only. Within a day, a call that pays the
/// page that is due moves the cursor on by one; any other call that goes
/// through leaves it where it is.
pub proof fn lemma_cursor_counts_paid_pages(
    accounts: CrankDistribute,
    now_ts: i64,
    page_index_opt: Option<u64>,
    locked_amounts: Seq<u64>,
    page_is_final: bool,
)
    requires
        !model::is_new_day(accounts.progress, now_ts),
    ensures
        model::crank(accounts, now_ts, page_index_opt, locked_amounts, page_is_final) matches Ok(
            (progress, report),
        ) ==> if commits_page(accounts, now_ts, page_index_opt, locked_amounts, page_is_final) {
            &&& report.page.page_index == accounts.progress.page_cursor
            &&& progress.page_cursor == accounts.progress.page_cursor + 1
            &&& progress.current_day_cumulative == accounts.progress.current_day_cumulative
                + report.page.distributed
        } else {
            progress == accounts.progress && report.page.distributed == 0
        },
{
}

/// The investors' share is within its two bounds: the share that the policy
/// grants and the fraction that is still locked. Under a policy that is well
/// formed, the investors' part of the fees is no more than the fees.
pub proof fn lemma_share_within_bounds(policy: Policy, locked_total: nat, claimed_quote: nat)
    ensures
        model::eligible_share_bps(
            policy.investor_fee_share_bps as nat,
            locked_total,
            policy.y0_total_alloc as nat,
        ) <= policy.investor_fee_share_bps,
        model::eligible_share_bps(
            policy.investor_fee_share_bps as nat,
            locked_total,
            policy.y0_total_alloc as nat,
        ) <= model::locked_fraction_bps(locked_total, policy.y0_total_alloc as nat),
        policy.wf() ==> model::investor_fee_quote(
            claimed_quote,
            model::eligible_share_bps(
                policy.investor_fee_share_bps as nat,
                locked_total,
                policy.y0_total_alloc as nat,
            ),
        ) <= claimed_quote,
{
    let eligible = model::eligible_share_bps(
        policy.investor_fee_share_bps as nat,
        locked_total,
        policy.y0_total_alloc as nat,
    );
    if policy.wf() {
        assert(claimed_quote * eligible / 10_000 <= claimed_quote) by (nonlinear_arith)
            requires
                eligible <= 10_000,
        ;
    }
}

/// The dust rule. Each investor is paid the whole share or nothing, and
/// nothing exactly where the share is below the least payout.
pub proof fn lemma_payout_is_share_or_nothing(
    available: nat,
    locked_amounts: Seq<u64>,
    min_payout: nat,
    i: int,
)
    requires
        available <= u64::MAX,
        0 <= i < locked_amounts.len(),
    ensures
        ({
            let share = model::raw_share(
                available,
                locked_amounts[i] as nat,
                total(locked_amounts),
            );
            let paid = model::page_payouts(available, locked_amounts, min_payout)[i];
            &&& share < min_payout ==> paid == 0
            &&& share >= min_payout ==> paid == share
            &&& share <= available
        }),
{
    lemma_payout_within_share(available, locked_amounts, min_payout, i);
}

/// The sum of two lists of amounts, taken investor by investor, is the sum
/// of their sums.
proof fn lemma_total_of_sums(parts: Seq<u64>, others: Seq<u64>, sums: Seq<u64>)
    requires
        parts.len() == sums.len(),
        others.len() == sums.len(),
        forall|i: int| 0 <= i < sums.len() ==> sums[i] == parts[i] + others[i],
    ensures
        total(sums) == total(parts) + total(others),
    decreases sums.len(),
{
    if sums.len() > 0 {
        lemma_total_of_sums(parts.drop_last(), others.drop_last(), sums.drop_last());
    }
}

/// Dust is not lost, in the arithmetic of a page. The shares come to no more
/// than the pool; each share is either paid or kept back as dust; and so what
/// the page leaves unpaid is the dust and what rounding left over, exactly.
pub proof fn lemma_unpaid_is_dust_and_rounding(
    available: nat,
    locked_amounts: Seq<u64>,
    min_payout: nat,
)
    requires
        available <= u64::MAX,
    ensures
        total(model::page_raw_shares(available, locked_amounts)) <= available,
        total(model::page_raw_shares(available, locked_amounts)) == total(
            model::page_payouts(available, locked_amounts, min_payout),
        ) + total(model::page_dust(available, locked_amounts, min_payout)),
        available - total(model::page_payouts(available, locked_amounts, min_payout)) == total(
            model::page_dust(available, locked_amounts, min_payout),
        ) + (available - total(model::page_raw_shares(available, locked_amounts))),
        forall|i: int|
            0 <= i < locked_amounts.len() ==> (#[trigger] model::page_dust(
                available,
                locked_amounts,
                min_payout,
            )[i]) as nat == if model::raw_share(
                available,
                locked_amounts[i] as nat,
                total(locked_amounts),
            ) < min_payout {
                model::raw_share(available, locked_amounts[i] as nat, total(locked_amounts))
            } else {
                0
            },
{
    let shares = model::page_raw_shares(available, locked_amounts);
    let payouts = model::page_payouts(available, locked_amounts, min_payout);
    let dust = model::page_dust(available, locked_amounts, min_payout);
    assert(shares =~= model::page_payouts(available, locked_amounts, 0));
    lemma_payouts_within_pool(available, locked_amounts, 0);
    assert forall|i: int| 0 <= i < locked_amounts.len() implies shares[i] == payouts[i] + dust[i]
        && dust[i] as nat == if model::raw_share(
        available,
        locked_amounts[i] as nat,
        total(locked_amounts),
    ) < min_payout {
        model::raw_share(available, locked_amounts[i] as nat, total(locked_amounts))
    } else {
        0
    } by {
        lemma_payout_within_share(available, locked_amounts, 0, i);
        lemma_payout_within_share(available, locked_amounts, min_payout, i);
    }
    lemma_total_of_sums(payouts, dust, shares);
}

/// Dust is not lost. A page that is paid and does not close the day leaves
/// as carry exactly what it kept back as dust and what rounding left over of
/// the pool it had to pay out. A page that closes the day carries nothing:
/// all that it did not pay goes to the creator.
pub proof fn lemma_carry_is_dust_and_rounding(
    accounts: CrankDistribute,
    now_ts: i64,
    page_index_opt: Option<u64>,
    locked_amounts: Seq<u64>,
    page_is_final: bool,
)
    requires
        commits_page(accounts, now_ts, page_index_opt, locked_amounts, page_is_final),
    ensures
        ({
            let available = model::page_available(
                accounts.policy,
                model::day_window(accounts.progress, now_ts).unwrap(),
                accounts.treasury_amount,
                locked_amounts,
            );
            let min_payout = accounts.policy.min_payout_lamports as nat;
            let progress = model::crank(
                accounts,
                now_ts,
                page_index_opt,
                locked_amounts,
                page_is_final,
            ).unwrap().0;
            &&& total(model::page_raw_shares(available, locked_amounts)) <= available
            &&& !page_is_final ==> progress.carry_lamports == total(
                model::page_dust(available, locked_amounts, min_payout),
            ) + (available - total(model::page_raw_shares(available, locked_amounts)))
            &&& page_is_final ==> progress.carry_lamports == 0
        }),
{
    let available = model::page_available(
        accounts.policy,
        model::day_window(accounts.progress, now_ts).unwrap(),
        accounts.treasury_amount,
        locked_amounts,
    );
    lemma_unpaid_is_dust_and_rounding(
        available,
        locked_amounts,
        accounts.policy.min_payout_lamports as nat,
    );
}

/// The books of a run of calls: the progress record, what the fee pool
/// holds, and what has come into it and gone out of it since the books were
/// opened.
pub struct Books {
    pub progress: Progress,
    /// The balance of the fee pool.
    pub pool: nat,
    /// All the fees that were claimed into the pool.
    pub claimed: nat,
    /// All that was paid to investors.
    pub paid: nat,
    /// All that went to the creator.
    pub swept: nat,
}

/// One call of a run.
pub struct Call {
    pub accounts: CrankDistribute,
    pub now_ts: i64,
    pub page_index_opt: Option<u64>,
    pub locked_amounts: Seq<u64>,
    pub page_is_final: bool,
}

impl Call {
    /// What the call does.
    pub open spec fn done(self) -> Result<(Progress, crate::events::PageView), crate::errors::HonoraryError> {
        model::crank(
            self.accounts,
            self.now_ts,
            self.page_index_opt,
            self.locked_amounts,
            self.page_is_final,
        )
    }

    /// Whether the call pays the page that is due.
    pub open spec fn commits(self) -> bool {
        commits_page(
            self.accounts,
            self.now_ts,
            self.page_index_opt,
            self.locked_amounts,
            self.page_is_final,
        )
    }
}

impl Books {
    /// Books on which nothing has happened: an empty pool, and the record given.
    pub open spec fn opened(progress: Progress) -> Books {
        Books { progress, pool: 0, claimed: 0, paid: 0, swept: 0 }
    }

    /// Whether the books balance: what came in has gone out or is in the pool.
    pub open spec fn balanced(self) -> bool {
        self.paid + self.swept + self.pool == self.claimed
    }

    /// Whether a call goes with these books: it works under the policy given
    /// and on the record as the books have it, and it finds in the fee pool
    /// what the books say or more. What it finds above that are fees that
    /// were claimed since the call before.
    pub open spec fn fits(self, policy: Policy, call: Call) -> bool {
        &&& call.accounts.policy == policy
        &&& call.accounts.progress == self.progress
        &&& call.accounts.treasury_amount >= self.pool
    }

    /// The books after a call. A call that is refused moves nothing; one
    /// that goes through takes out of the pool what it pays.
    pub open spec fn after(self, call: Call) -> Books {
        let found = call.accounts.treasury_amount as nat;
        let claimed = self.claimed + (found - self.pool) as nat;
        match call.done() {
            Err(_) => Books { pool: found, claimed, ..self },
            Ok((progress, report)) => {
                let remainder = match report.day_close {
                    Some(close) => close.remainder_to_creator as nat,
                    None => 0,
                };
                Books {
                    progress,
                    pool: (found - report.page.distributed - remainder) as nat,
                    claimed,
                    paid: self.paid + report.page.distributed as nat,
                    swept: self.swept + remainder,
                }
            },
        }
    }

    /// The books after a run of calls.
    pub open spec fn after_all(self, calls: Seq<Call>) -> Books
        decreases calls.len(),
    {
        if calls.len() == 0 {
            self
        } else {
            self.after_all(calls.drop_last()).after(calls.last())
        }
    }

    /// Whether each call of a run goes with the books as the calls before it
    /// left them.
    pub open spec fn all_fit(self, policy: Policy, calls: Seq<Call>) -> bool {
        forall|k: int|
            0 <= k < calls.len() ==> (#[trigger] self.after_all(calls.take(k))).fits(
                policy,
                calls[k],
            )
    }
}

/// A run without its last call is a run that fits, if the whole run does.
proof fn lemma_shorter_run_fits(books: Books, policy: Policy, calls: Seq<Call>)
    requires
        calls.len() > 0,
        books.all_fit(policy, calls),
    ensures
        books.all_fit(policy, calls.drop_last()),
        books.after_all(calls.drop_last()).fits(policy, calls.last()),
{
    let shorter = calls.drop_last();
    assert forall|k: int| 0 <= k < shorter.len() implies (#[trigger] books.after_all(
        shorter.take(k),
    )).fits(policy, shorter[k]) by {
        assert(shorter.take(k) =~= calls.take(k));
        assert(books.after_all(calls.take(k)).fits(policy, calls[k]));
    }
    assert(calls.take(calls.len() - 1) =~= shorter);
    assert(books.after_all(calls.take(calls.len() - 1)).fits(policy, calls[calls.len() - 1]));
}

/// Conservation. Over any run of calls the books balance: every lamport that
/// was claimed into the fee pool has been paid to an investor, has gone to
/// the creator, or is in the pool. After a call that pays the day's last
/// page the pool is empty, so that the payouts to investors and what went to
/// the creator are together what was claimed: no value is made, none is lost.
pub proof fn lemma_run_conserves(books: Books, policy: Policy, calls: Seq<Call>)
    requires
        books.balanced(),
        books.all_fit(policy, calls),
    ensures
        books.after_all(calls).balanced(),
        calls.len() > 0 && calls.last().page_is_final && calls.last().commits() ==> {
            &&& books.after_all(calls).pool == 0
            &&& books.after_all(calls).paid + books.after_all(calls).swept == books.after_all(
                calls,
            ).claimed
        },
    decreases calls.len(),
{
    if calls.len() > 0 {
        lemma_shorter_run_fits(books, policy, calls);
        lemma_run_conserves(books, policy, calls.drop_last());
        let call = calls.last();
        lemma_call_conserves(
            call.accounts,
            call.now_ts,
            call.page_index_opt,
            call.locked_amounts,
            call.page_is_final,
        );
    }
}

/// The cap. Over any run of calls under one policy, the day's total never
/// exceeds the daily cap, where the policy sets one and the run began within
/// it.
pub proof fn lemma_run_keeps_cap(books: Books, policy: Policy, calls: Seq<Call>)
    requires
        books.progress.within_cap(policy),
        books.all_fit(policy, calls),
    ensures
        books.after_all(calls).progress.within_cap(policy),
    decreases calls.len(),
{
    if calls.len() > 0 {
        lemma_shorter_run_fits(books, policy, calls);
        lemma_run_keeps_cap(books, policy, calls.drop_last());
        let call = calls.last();
        lemma_call_keeps_cap(
            call.accounts,
            call.now_ts,
            call.page_index_opt,
            call.locked_amounts,
            call.page_is_final,
        );
    }
}

} // verus!
