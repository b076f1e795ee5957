//! The ways in which an invocation is refused.

use vstd::prelude::*;

verus! {

/// Why an invocation was refused. Every refusal is final for that invocation:
/// nothing is paid and no record changes.
#[derive(Clone, Copy, Debug, PartialEq, Eq, Structural)]
pub enum HonoraryError {
    /// The fee pool holds another asset than the fee asset.
    TreasuryMintMismatch,
    /// The fee asset that was supplied is not the one the policy names.
    QuoteMintMismatch,
    /// The secondary asset's pool holds a balance.
    BaseFeesDetected,
    /// An amount leaves its range: the pool to pay out or the day's total is
    /// more than an amount can be, the payouts are more than the fee pool
    /// holds, or the page cursor is at its end.
    Overflow,
    /// A claim payload came without any account to relay it to.
    MissingCpAmmAccounts,
    /// No day is open, and it is too early to open the next.
    NotInActiveDay,
    /// The creator's destination that was supplied is not the one the policy names.
    CreatorAtaMismatch,
}

impl HonoraryError {
    /// The text of the message that goes with each refusal.
    pub open spec fn message_text(self) -> Seq<char> {
        match self {
            HonoraryError::TreasuryMintMismatch => "Treasury mint mismatch"@,
            HonoraryError::QuoteMintMismatch => "Quote mint mismatch"@,
            HonoraryError::BaseFeesDetected =>
                "Base token fees detected; aborting to enforce quote-only."@,
            HonoraryError::Overflow => "Overflow in arithmetic"@,
            HonoraryError::MissingCpAmmAccounts =>
                "Missing cp-amm accounts when claim_ix_data provided"@,
            HonoraryError::NotInActiveDay => "Not in active day; start a new day first"@,
            HonoraryError::CreatorAtaMismatch => "Creator quote account mismatch"@,
        }
    }

    /// The message that goes with this refusal.
    pub fn message(&self) -> (text: &'static str)
        ensures
            text@ == self.message_text(),
    {
        match self {
            HonoraryError::TreasuryMintMismatch => "Treasury mint mismatch",
            HonoraryError::QuoteMintMismatch => "Quote mint mismatch",
            HonoraryError::BaseFeesDetected =>
                "Base token fees detected; aborting to enforce quote-only.",
            HonoraryError::Overflow => "Overflow in arithmetic",
            HonoraryError::MissingCpAmmAccounts =>
                "Missing cp-amm accounts when claim_ix_data provided",
            HonoraryError::NotInActiveDay => "Not in active day; start a new day first",
            HonoraryError::CreatorAtaMismatch => "Creator quote account mismatch",
        }
    }
}

} // verus!
