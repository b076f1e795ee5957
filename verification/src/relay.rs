//! The claim relay: the request that is handed on to the fee-claiming
//! contract before a distribution, where the caller supplies a payload.
//!
//! The payload is not read. The contract to call is the first of the
//! accounts that come with the call, and all of them are handed on.

use crate::errors::HonoraryError;
use crate::keys::Pubkey;
use vstd::prelude::*;

verus! {

/// An account that a relayed call is given, and what the call may do with it.
#[derive(Clone, Copy, Debug, PartialEq, Eq)]
pub struct RelayAccount {
    pub pubkey: Pubkey,
    pub is_signer: bool,
    pub is_writable: bool,
}

/// A call to relay: the contract, its accounts, and the payload as it came.
#[derive(Debug, PartialEq, Eq)]
pub struct ClaimRequest {
    pub program_id: Pubkey,
    pub accounts: Vec<RelayAccount>,
    pub data: Vec<u8>,
}

/// Makes the request to relay for a distribution call.
///
/// Without a payload there is nothing to relay. With a payload and no
/// account to relay it to, the call is refused. Else the request goes to the
/// first of the accounts, with all the accounts in their order and the
/// payload unchanged.
pub fn claim_request(claim_ix_data: Option<Vec<u8>>, remaining_accounts: &Vec<RelayAccount>) -> (request:
    Result<Option<ClaimRequest>, HonoraryError>)
    ensures
        match claim_ix_data {
            None => request matches Ok(None),
            Some(payload) => if remaining_accounts@.len() == 0 {
                request matches Err(HonoraryError::MissingCpAmmAccounts)
            } else {
                request matches Ok(Some(relayed)) && relayed.program_id
                    == remaining_accounts@[0].pubkey && relayed.accounts@ == remaining_accounts@
                    && relayed.data@ == payload@
            },
        },
{
    match claim_ix_data {
        None => Ok(None),
        Some(data) => {
            if remaining_accounts.len() == 0 {
                return Err(HonoraryError::MissingCpAmmAccounts);
            }
            let mut accounts: Vec<RelayAccount> = Vec::with_capacity(remaining_accounts.len());
            let mut i: usize = 0;
            while i < remaining_accounts.len()
                invariant
                    i <= remaining_accounts.len(),
                    accounts@ == remaining_accounts@.take(i as int),
                decreases remaining_accounts.len() - i,
            {
                accounts.push(remaining_accounts[i]);
                i = i + 1;
                assert(accounts@ =~= remaining_accounts@.take(i as int));
            }
            assert(remaining_accounts@.take(i as int) =~= remaining_accounts@);
            Ok(Some(ClaimRequest { program_id: remaining_accounts[0].pubkey, accounts, data }))
        },
    }
}

} // verus!
