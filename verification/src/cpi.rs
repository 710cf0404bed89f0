//! The cross-program instructions that the programs issue, as plain values.
//! A `signer_seeds` list that is empty means the instruction is issued
//! without program-derived signing.

use vstd::prelude::*;
use crate::accounts::Pubkey;

verus! {

/// A token-program `transfer_checked`.
pub struct TransferChecked {
    pub from: Pubkey,
    pub mint: Pubkey,
    pub to: Pubkey,
    pub authority: Pubkey,
    pub amount: u64,
    pub decimals: u8,
    pub signer_seeds: Vec<Vec<u8>>,
}

/// A token-program `mint_to`.
pub struct MintTo {
    pub mint: Pubkey,
    pub to: Pubkey,
    pub authority: Pubkey,
    pub amount: u64,
    pub signer_seeds: Vec<Vec<u8>>,
}

/// A token-program `burn`, signed by the owner of `from`.
pub struct Burn {
    pub mint: Pubkey,
    pub from: Pubkey,
    pub authority: Pubkey,
    pub amount: u64,
}

/// A token-program `close_account`: the rent of `account` goes to `destination`.
pub struct CloseAccount {
    pub account: Pubkey,
    pub destination: Pubkey,
    pub authority: Pubkey,
    pub signer_seeds: Vec<Vec<u8>>,
}

/// A system-program lamport `transfer`, signed by `from`.
pub struct SolTransfer {
    pub from: Pubkey,
    pub to: Pubkey,
    pub lamports: u64,
}

/// A token-program `approve`, signed by `authority`.
pub struct Approve {
    pub to: Pubkey,
    pub delegate: Pubkey,
    pub authority: Pubkey,
    pub amount: u64,
}

/// A token-program `revoke`, signed by `authority`.
pub struct Revoke {
    pub source: Pubkey,
    pub authority: Pubkey,
}

/// A token-metadata `freeze_delegated_account` (or, with `freeze` false,
/// `thaw_delegated_account`) signed by the delegate's seeds.
pub struct DelegatedFreeze {
    pub freeze: bool,
    pub delegate: Pubkey,
    pub token_account: Pubkey,
    pub edition: Pubkey,
    pub mint: Pubkey,
    pub signer_seeds: Vec<Vec<u8>>,
}

} // verus!
