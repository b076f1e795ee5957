//! The authority that owns a position, and the seeds from which the
//! addresses of a position's accounts are derived.

use crate::keys::Pubkey;
use crate::state::InvestorFeePosOwner;
use vstd::prelude::*;

verus! {

/// `vault`
pub const VAULT_SEED: [u8; 5] = [0x76, 0x61, 0x75, 0x6c, 0x74];

/// `investor_fee_pos_owner`
pub const INVESTOR_FEE_POS_OWNER_SEED: [u8; 22] = [
    0x69, 0x6e, 0x76, 0x65, 0x73, 0x74, 0x6f, 0x72, 0x5f, 0x66, 0x65, 0x65, 0x5f, 0x70, 0x6f, 0x73,
    0x5f, 0x6f, 0x77, 0x6e, 0x65, 0x72,
];

/// `policy`
pub const POLICY_PDA_SEED: [u8; 6] = [0x70, 0x6f, 0x6c, 0x69, 0x63, 0x79];

/// `progress`
pub const PROGRESS_PDA_SEED: [u8; 8] = [0x70, 0x72, 0x6f, 0x67, 0x72, 0x65, 0x73, 0x73];

/// `quote_treasury`
pub const TREASURY_SEED: [u8; 14] = [
    0x71, 0x75, 0x6f, 0x74, 0x65, 0x5f, 0x74, 0x72, 0x65, 0x61, 0x73, 0x75, 0x72, 0x79,
];

/// The bytes of a seed, as a list of their own.
fn seed<const N: usize>(bytes: &[u8; N]) -> (copy: Vec<u8>)
    ensures
        copy@ == bytes@,
{
    let mut copy: Vec<u8> = Vec::with_capacity(N);
    let mut i: usize = 0;
    while i < N
        invariant
            i <= N,
            copy@ == bytes@.take(i as int),
        decreases N - i,
    {
        copy.push(bytes[i]);
        i = i + 1;
        assert(copy@ =~= bytes@.take(i as int));
    }
    assert(bytes@.take(N as int) =~= bytes@);
    copy
}

impl InvestorFeePosOwner {
    /// The seeds with which the authority of a vault's position signs: the
    /// vault seed, the vault's identity, the owner seed and the bump.
    pub fn signer_seeds(&self, vault: &Pubkey) -> (seeds: Vec<Vec<u8>>)
        ensures
            seeds@.len() == 4,
            seeds@[0]@ == VAULT_SEED@,
            seeds@[1]@ == vault.bytes@,
            seeds@[2]@ == INVESTOR_FEE_POS_OWNER_SEED@,
            seeds@[3]@ == seq![self.bump],
    {
        let mut seeds: Vec<Vec<u8>> = Vec::with_capacity(4);
        seeds.push(seed(&VAULT_SEED));
        seeds.push(seed(&vault.bytes));
        seeds.push(seed(&INVESTOR_FEE_POS_OWNER_SEED));
        let mut bump: Vec<u8> = Vec::with_capacity(1);
        bump.push(self.bump);
        assert(bump@ =~= seq![self.bump]);
        seeds.push(bump);
        seeds
    }
}

} // verus!
