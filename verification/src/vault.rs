//! The lamport vault's state account.

use vstd::prelude::*;

verus! {

/// The vault state: the bumps of the vault and of this state account.
#[derive(Clone, Copy)]
pub struct VaultState {
    pub vault_bump: u8,
    pub state_bump: u8,
}

impl VaultState {
    /// The space the program allocates for the account: the 8-byte
    /// discriminator and the two bumps.
    pub const INIT_SPACE: usize = 8 + 1 * 2;
}

} // verus!
