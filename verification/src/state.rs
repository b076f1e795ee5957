//! The two records kept for each managed position.

use crate::keys::Pubkey;
use vstd::prelude::*;

verus! {

/// The largest fee share: all of it, in basis points.
pub const MAX_BPS: u16 = 10_000;

/// The fee policy of a position. It is written once, when the position is
/// initialized, and read ever after.
#[derive(Clone, Copy, Debug, PartialEq, Eq)]
pub struct Policy {
    pub bump: u8,
    /// The largest share of the claimed fees that investors may get, in basis points.
    pub investor_fee_share_bps: u16,
    /// The most that investors may be paid in one day, if there is such a limit.
    pub daily_cap_lamports: Option<u64>,
    /// The least amount worth a transfer; a smaller share is kept back as dust.
    pub min_payout_lamports: u64,
    /// What all investors together were allocated at genesis.
    pub y0_total_alloc: u64,
    /// The asset in which fees are distributed.
    pub quote_mint: Pubkey,
    /// Where the creator is paid.
    pub creator_quote_ata: Pubkey,
    /// The authority over the lock schedules.
    pub streamflow_program: Pubkey,
}

impl Policy {
    /// The bytes that a stored policy takes.
    pub const SIZE: usize = 1 + 2 + 9 + 8 + 8 + 32 + 32 + 32;

    /// A policy is well formed when its fee share is a share: at most the whole.
    pub open spec fn wf(self) -> bool {
        self.investor_fee_share_bps <= MAX_BPS
    }
}

/// The bookkeeping of the current day, or of the last one.
#[derive(Clone, Copy, Debug, PartialEq, Eq, Structural)]
pub struct Progress {
    pub bump: u8,
    /// When the current day began, or the last one if none is open; zero before the first.
    pub last_distribution_ts: i64,
    /// What investors have been paid so far in this day.
    pub current_day_cumulative: u64,
    /// What was held back from investors and waits for the next page.
    pub carry_lamports: u64,
    /// The index of the page that is due next.
    pub page_cursor: u64,
    /// Whether a day is open.
    pub in_day: bool,
}

impl Progress {
    /// The bytes that a stored progress record takes.
    pub const SIZE: usize = 1 + 8 + 8 + 8 + 8 + 1;

    /// The record of a position on which nothing was distributed yet.
    pub open spec fn initial(bump: u8) -> Progress {
        Progress {
            bump,
            last_distribution_ts: 0,
            current_day_cumulative: 0,
            carry_lamports: 0,
            page_cursor: 0,
            in_day: false,
        }
    }

    /// Whether the day's payments so far are within the policy's daily cap.
    pub open spec fn within_cap(self, policy: Policy) -> bool {
        policy.daily_cap_lamports matches Some(cap) ==> self.current_day_cumulative <= cap
    }
}

/// The authority that owns the position and signs for the fee pool.
#[derive(Clone, Copy, Debug, PartialEq, Eq, Structural)]
pub struct InvestorFeePosOwner {
    pub bump: u8,
}

} // verus!
