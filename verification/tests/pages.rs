use honorary_fee_module::accounts::CrankDistribute;
use honorary_fee_module::amounts::total_of;
use honorary_fee_module::engine::crank_distribute;
use honorary_fee_module::errors::HonoraryError;
use honorary_fee_module::events::{InvestorPayoutPage, QuoteFeesClaimed};
use honorary_fee_module::keys::Pubkey;
use honorary_fee_module::share::{
    eligible_share_bps, investor_fee_quote, locked_fraction_bps, payable_pool,
};
use honorary_fee_module::state::{Policy, Progress};

const T0: i64 = 1_700_000_000;

fn key(tag: u8) -> Pubkey {
    Pubkey::new_from_array([tag; 32])
}

fn policy(min_payout_lamports: u64) -> Policy {
    Policy {
        bump: 254,
        investor_fee_share_bps: 5000,
        daily_cap_lamports: None,
        min_payout_lamports,
        y0_total_alloc: 1_000_000,
        quote_mint: key(1),
        creator_quote_ata: key(2),
        streamflow_program: key(3),
    }
}

fn fresh_progress() -> Progress {
    Progress {
        bump: 253,
        last_distribution_ts: 0,
        current_day_cumulative: 0,
        carry_lamports: 0,
        page_cursor: 0,
        in_day: false,
    }
}

fn accounts(policy: Policy, progress: Progress, treasury_amount: u64) -> CrankDistribute {
    CrankDistribute {
        policy,
        progress,
        quote_mint: key(1),
        treasury: key(4),
        treasury_mint: key(1),
        treasury_amount,
        base_treasury_amount: None,
        creator_quote_ata: key(2),
    }
}

#[test]
fn share_and_pool_of_a_page() {
    let locked = vec![300_000u64, 100_000];
    let locked_total = total_of(&locked);
    assert_eq!(locked_total, 400_000);
    assert_eq!(locked_fraction_bps(locked_total, 1_000_000), 4_000);
    let eligible = eligible_share_bps(5000, locked_total, 1_000_000);
    assert_eq!(eligible, 4_000);
    let fee = investor_fee_quote(10_000, eligible);
    assert_eq!(fee, 4_000);
    assert_eq!(payable_pool(0, fee, None, 0), 4_000);
}

#[test]
fn two_investors_are_paid_in_proportion() {
    let mut acc = accounts(policy(500), fresh_progress(), 10_000);
    let out = crank_distribute(&mut acc, T0, Some(0), vec![300_000, 100_000], false).unwrap();
    assert_eq!(out.payouts, vec![3_000, 1_000]);
    assert_eq!(out.page, InvestorPayoutPage { page_index: 0, distributed: 4_000 });
    assert_eq!(out.claimed, QuoteFeesClaimed { claimed_amount: 10_000, treasury: key(4) });
    assert_eq!(out.day_close, None);
    assert_eq!(acc.progress.carry_lamports, 0);
    assert_eq!(acc.progress.current_day_cumulative, 4_000);
    assert_eq!(acc.progress.page_cursor, 1);
    assert!(acc.progress.in_day);
    assert_eq!(acc.progress.last_distribution_ts, T0);
    assert_eq!(acc.progress.bump, 253);
}

#[test]
fn share_below_the_least_payout_is_carried() {
    let mut acc = accounts(policy(1_500), fresh_progress(), 10_000);
    let out = crank_distribute(&mut acc, T0, Some(0), vec![300_000, 100_000], false).unwrap();
    assert_eq!(out.payouts, vec![3_000, 0]);
    assert_eq!(out.page.distributed, 3_000);
    assert_eq!(acc.progress.carry_lamports, 1_000);
    assert_eq!(acc.progress.current_day_cumulative, 3_000);
    assert_eq!(acc.progress.page_cursor, 1);
}

#[test]
fn closed_day_is_not_taken_up_again() {
    let mut acc = accounts(policy(500), fresh_progress(), 10_000);
    let first = crank_distribute(&mut acc, T0, Some(0), vec![300_000, 100_000], true).unwrap();
    assert!(first.day_close.is_some());
    assert!(!acc.progress.in_day);
    let closed = acc.progress;

    acc.treasury_amount = 2_000;
    let second = crank_distribute(&mut acc, T0 + 3_600, Some(1), vec![300_000, 100_000], false);
    assert_eq!(second, Err(HonoraryError::NotInActiveDay));
    assert_eq!(acc.progress, closed);

    let at_the_last_second =
        crank_distribute(&mut acc, T0 + 86_399, None, vec![300_000, 100_000], false);
    assert_eq!(at_the_last_second, Err(HonoraryError::NotInActiveDay));
    assert_eq!(acc.progress, closed);
}

#[test]
fn second_submission_of_a_page_pays_nothing() {
    let mut acc = accounts(policy(1_500), fresh_progress(), 10_000);
    crank_distribute(&mut acc, T0, Some(0), vec![300_000, 100_000], false).unwrap();
    let after_first = acc.progress;
    assert_eq!(after_first.current_day_cumulative, 3_000);
    assert_eq!(after_first.carry_lamports, 1_000);

    acc.treasury_amount = 7_000;
    let again = crank_distribute(&mut acc, T0 + 60, Some(0), vec![300_000, 100_000], false).unwrap();
    assert_eq!(again.page, InvestorPayoutPage { page_index: 0, distributed: 0 });
    assert_eq!(again.payouts, vec![0, 0]);
    assert_eq!(again.day_close, None);
    assert_eq!(acc.progress, after_first);
}
