//! What an invocation is given: the records of the position, and what the
//! ledger holds in the accounts that come with the call.

use crate::keys::Pubkey;
use crate::state::{Policy, Progress};
use vstd::prelude::*;

verus! {

/// The accounts of an initialization, as far as it reads them.
#[derive(Clone, Copy, Debug, PartialEq, Eq)]
pub struct Initialize {
    /// Where the policy will be stored.
    pub policy: Pubkey,
    pub policy_bump: u8,
    /// Where the progress record will be stored.
    pub progress: Pubkey,
    pub progress_bump: u8,
    /// The asset in which fees are to be distributed.
    pub quote_mint: Pubkey,
    /// The fee pool.
    pub treasury: Pubkey,
    /// The asset that the fee pool holds.
    pub treasury_mint: Pubkey,
    /// Where the creator is to be paid.
    pub creator_quote_ata: Pubkey,
    /// The authority over the lock schedules.
    pub streamflow_program: Pubkey,
}

/// The accounts of a distribution, as far as it reads them, and the progress
/// record that it writes.
#[derive(Clone, Copy, Debug, PartialEq, Eq)]
pub struct CrankDistribute {
    pub policy: Policy,
    pub progress: Progress,
    /// The fee asset that the caller names.
    pub quote_mint: Pubkey,
    /// The fee pool.
    pub treasury: Pubkey,
    /// The asset that the fee pool holds.
    pub treasury_mint: Pubkey,
    /// The balance of the fee pool: the fees claimed and not yet handed on.
    pub treasury_amount: u64,
    /// The balance of the secondary asset's pool, where the caller supplies one.
    pub base_treasury_amount: Option<u64>,
    /// The creator's destination that the caller names.
    pub creator_quote_ata: Pubkey,
}

} // verus!
