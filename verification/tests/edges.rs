use honorary_fee_module::accounts::CrankDistribute;
use honorary_fee_module::day::{day_window, is_new_day};
use honorary_fee_module::engine::crank_distribute;
use honorary_fee_module::errors::HonoraryError;
use honorary_fee_module::events::{CreatorPayoutDayClose, InvestorPayoutPage};
use honorary_fee_module::keys::Pubkey;
use honorary_fee_module::state::{Policy, Progress};

const T0: i64 = 1_700_000_000;

fn key(tag: u8) -> Pubkey {
    Pubkey::new_from_array([tag; 32])
}

fn policy(
    investor_fee_share_bps: u16,
    daily_cap_lamports: Option<u64>,
    min_payout_lamports: u64,
    y0_total_alloc: u64,
) -> Policy {
    Policy {
        bump: 254,
        investor_fee_share_bps,
        daily_cap_lamports,
        min_payout_lamports,
        y0_total_alloc,
        quote_mint: key(1),
        creator_quote_ata: key(2),
        streamflow_program: key(3),
    }
}

fn open_day(started: i64, cumulative: u64, carry: u64, cursor: u64) -> Progress {
    Progress {
        bump: 253,
        last_distribution_ts: started,
        current_day_cumulative: cumulative,
        carry_lamports: carry,
        page_cursor: cursor,
        in_day: true,
    }
}

fn accounts(policy: Policy, progress: Progress, treasury_amount: u64) -> CrankDistribute {
    CrankDistribute {
        policy,
        progress,
        quote_mint: key(1),
        treasury: key(4),
        treasury_mint: key(1),
        treasury_amount,
        base_treasury_amount: None,
        creator_quote_ata: key(2),
    }
}

#[test]
fn day_begins_at_the_first_call_and_after_a_full_day() {
    let never = Progress { last_distribution_ts: 0, in_day: false, ..open_day(0, 0, 0, 0) };
    assert!(is_new_day(&never, -5));
    assert!(is_new_day(&never, 0));
    assert!(is_new_day(&never, T0));

    let running = open_day(T0, 10, 20, 3);
    assert!(!is_new_day(&running, T0));
    assert!(!is_new_day(&running, T0 + 86_399));
    assert!(is_new_day(&running, T0 + 86_400));
    assert!(is_new_day(&running, T0 + 86_401));
    assert!(!is_new_day(&running, T0 - 1_000_000));
}

#[test]
fn day_window_at_the_ends_of_time() {
    let early = open_day(i64::MIN, 1, 2, 3);
    assert!(is_new_day(&early, i64::MIN + 86_400));
    assert!(!is_new_day(&early, i64::MIN + 86_399));
    assert!(is_new_day(&early, i64::MAX));

    let late = open_day(i64::MAX, 1, 2, 3);
    assert!(!is_new_day(&late, i64::MAX));
    assert!(!is_new_day(&late, i64::MIN));

    let nearly_late = open_day(i64::MAX - 86_400, 1, 2, 3);
    assert!(is_new_day(&nearly_late, i64::MAX));
    assert!(!is_new_day(&nearly_late, i64::MAX - 1));
}

#[test]
fn new_day_keeps_the_carry_and_resets_the_rest() {
    let running = open_day(T0, 900, 77, 5);
    let next = day_window(&running, T0 + 86_400).unwrap();
    assert_eq!(
        next,
        Progress {
            bump: 253,
            last_distribution_ts: T0 + 86_400,
            current_day_cumulative: 0,
            carry_lamports: 77,
            page_cursor: 0,
            in_day: true,
        }
    );
    assert_eq!(day_window(&running, T0 + 100), Ok(running));

    let closed = Progress { in_day: false, ..running };
    assert_eq!(day_window(&closed, T0 + 100), Err(HonoraryError::NotInActiveDay));
    assert_eq!(day_window(&closed, T0 + 86_400).unwrap().in_day, true);
}

#[test]
fn page_index_defaults_to_the_page_that_is_due() {
    let mut acc = accounts(policy(5000, None, 500, 1_000_000), open_day(T0, 0, 0, 7), 10_000);
    let out = crank_distribute(&mut acc, T0 + 1, None, vec![300_000, 100_000], false).unwrap();
    assert_eq!(out.page, InvestorPayoutPage { page_index: 7, distributed: 4_000 });
    assert_eq!(acc.progress.page_cursor, 8);
}

#[test]
fn empty_pool_ends_the_call_at_once() {
    let closed = Progress { in_day: false, ..open_day(T0, 5, 6, 7) };
    let mut acc = accounts(policy(5000, None, 500, 1_000_000), closed, 0);
    acc.base_treasury_amount = Some(9);

    // neither the day window nor the secondary pool is looked at
    let within = crank_distribute(&mut acc, T0 + 1, None, vec![300_000, 100_000], true).unwrap();
    assert_eq!(within.page, InvestorPayoutPage { page_index: 7, distributed: 0 });
    assert_eq!(within.claimed.claimed_amount, 0);
    assert_eq!(within.payouts, vec![0, 0]);
    assert_eq!(within.day_close, None);
    assert_eq!(acc.progress, closed);

    let later = crank_distribute(&mut acc, T0 + 90_000, Some(3), vec![1], true).unwrap();
    assert_eq!(later.page, InvestorPayoutPage { page_index: 3, distributed: 0 });
    assert_eq!(later.payouts, vec![0]);
    assert_eq!(acc.progress, closed);
}

#[test]
fn repeated_page_on_a_new_day_opens_the_day_and_pays_nothing() {
    let mut acc = accounts(policy(5000, None, 500, 1_000_000), open_day(T0, 4_000, 12, 3), 10_000);
    let out = crank_distribute(&mut acc, T0 + 86_400, Some(2), vec![300_000, 100_000], true).unwrap();
    assert_eq!(out.page, InvestorPayoutPage { page_index: 2, distributed: 0 });
    assert_eq!(out.payouts, vec![0, 0]);
    assert_eq!(out.day_close, None);
    assert_eq!(
        acc.progress,
        Progress {
            bump: 253,
            last_distribution_ts: T0 + 86_400,
            current_day_cumulative: 0,
            carry_lamports: 12,
            page_cursor: 0,
            in_day: true,
        }
    );
}

#[test]
fn no_allocation_at_genesis_means_no_share() {
    let mut acc = accounts(policy(5000, None, 0, 0), open_day(T0, 0, 0, 0), 10_000);
    let out = crank_distribute(&mut acc, T0 + 1, None, vec![300_000, 100_000], true).unwrap();
    assert_eq!(out.payouts, vec![0, 0]);
    assert_eq!(out.day_close.unwrap().remainder_to_creator, 10_000);
}

#[test]
fn carry_is_paid_out_with_the_next_page() {
    // no share of the fees, but a carry of 800 to hand out
    let mut acc = accounts(policy(0, None, 100, 1_000_000), open_day(T0, 0, 800, 1), 10_000);
    let out = crank_distribute(&mut acc, T0 + 1, Some(1), vec![300_000, 100_000], false).unwrap();
    assert_eq!(out.payouts, vec![600, 200]);
    assert_eq!(acc.progress.carry_lamports, 0);
    assert_eq!(acc.progress.current_day_cumulative, 800);
}

#[test]
fn last_page_closes_the_day_and_drops_the_carry() {
    let mut acc = accounts(policy(5000, None, 1_500, 1_000_000), open_day(T0, 100, 0, 2), 10_000);
    let out = crank_distribute(&mut acc, T0 + 50, Some(2), vec![300_000, 100_000], true).unwrap();
    assert_eq!(out.payouts, vec![3_000, 0]);
    assert_eq!(
        out.day_close,
        Some(CreatorPayoutDayClose { day_ts: T0, remainder_to_creator: 7_000 })
    );
    assert_eq!(
        acc.progress,
        Progress {
            bump: 253,
            last_distribution_ts: T0,
            current_day_cumulative: 3_100,
            carry_lamports: 0,
            page_cursor: 3,
            in_day: false,
        }
    );
}

#[test]
fn page_without_investors_moves_the_cursor() {
    let mut acc = accounts(policy(5000, None, 500, 1_000_000), open_day(T0, 0, 5, 0), 10_000);
    let out = crank_distribute(&mut acc, T0 + 1, Some(0), vec![], false).unwrap();
    assert_eq!(out.payouts, Vec::<u64>::new());
    assert_eq!(out.page.distributed, 0);
    assert_eq!(acc.progress.page_cursor, 1);
    assert_eq!(acc.progress.carry_lamports, 5);
}

#[test]
fn locked_amounts_above_the_allocation_do_not_raise_the_share() {
    let mut acc = accounts(policy(2_500, None, 0, 1_000), open_day(T0, 0, 0, 0), 8_000);
    let out = crank_distribute(&mut acc, T0 + 1, None, vec![u64::MAX, u64::MAX], false).unwrap();
    assert_eq!(out.payouts, vec![1_000, 1_000]);
    assert_eq!(acc.progress.carry_lamports, 0);
}

#[test]
fn largest_amounts_are_paid_exactly() {
    let mut acc = accounts(policy(10_000, None, 0, 1), open_day(T0, 0, 0, 0), u64::MAX);
    let out = crank_distribute(&mut acc, T0 + 1, None, vec![u64::MAX, 0, 1], true).unwrap();
    // shares of u64::MAX in proportion u64::MAX : 0 : 1 of 2^64
    assert_eq!(out.payouts, vec![u64::MAX - 1, 0, 0]);
    assert_eq!(out.day_close.unwrap().remainder_to_creator, 1);
    assert_eq!(acc.progress.current_day_cumulative, u64::MAX - 1);
}
