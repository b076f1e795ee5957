//! What an invocation reports of what it did.

use crate::keys::Pubkey;
use vstd::prelude::*;

verus! {

/// A position was initialized.
#[derive(Clone, Copy, Debug, PartialEq, Eq)]
pub struct HonoraryPositionInitialized {
    pub policy: Pubkey,
    pub progress: Pubkey,
    pub treasury: Pubkey,
    pub quote_mint: Pubkey,
    pub creator_quote_ata: Pubkey,
}

/// The balance that an invocation found in the fee pool, zero included.
#[derive(Clone, Copy, Debug, PartialEq, Eq)]
pub struct QuoteFeesClaimed {
    pub claimed_amount: u64,
    pub treasury: Pubkey,
}

/// A page, and what its investors were paid in all.
#[derive(Clone, Copy, Debug, PartialEq, Eq, Structural)]
pub struct InvestorPayoutPage {
    pub page_index: u64,
    pub distributed: u64,
}

/// A day was closed, and what was left of the pool went to the creator.
#[derive(Clone, Copy, Debug, PartialEq, Eq, Structural)]
pub struct CreatorPayoutDayClose {
    pub day_ts: i64,
    pub remainder_to_creator: u64,
}

/// What one distribution call did, or rather what is to be done for it:
/// the state is already written, the transfers are the caller's to make.
#[derive(Debug, PartialEq, Eq)]
pub struct PageOutcome {
    /// The balance found in the fee pool.
    pub claimed: QuoteFeesClaimed,
    /// The page that the call was for, and what it distributes in all.
    pub page: InvestorPayoutPage,
    /// What each investor of the page is to be paid, in the order of the
    /// locked amounts; zero where an investor gets nothing.
    pub payouts: Vec<u64>,
    /// On a page that closes the day: the day, and what goes to the creator.
    pub day_close: Option<CreatorPayoutDayClose>,
}

/// A `PageOutcome` as a mathematical value.
pub struct PageView {
    pub claimed: QuoteFeesClaimed,
    pub page: InvestorPayoutPage,
    pub payouts: Seq<u64>,
    pub day_close: Option<CreatorPayoutDayClose>,
}

impl View for PageOutcome {
    type V = PageView;

    open spec fn view(&self) -> PageView {
        PageView {
            claimed: self.claimed,
            page: self.page,
            payouts: self.payouts@,
            day_close: self.day_close,
        }
    }
}

} // verus!
