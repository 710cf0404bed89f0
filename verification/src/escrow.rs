//! Escrow: the maker's refund, which empties the vault back to the maker
//! and closes it.

use vstd::prelude::*;
use crate::accounts::{
    Pubkey, Mint, TokenAccount, seeds_view, tag_escrow, tag_escrow_seed, u64_le_bytes, u64_le_seed,
    byte_seed,
};
use crate::cpi::{TransferChecked, CloseAccount};

verus! {

/// The fields of the escrow state account that a refund reads.
#[derive(Clone, Copy)]
pub struct Escrow {
    pub seed: u64,
    pub bump: u8,
}

/// The accounts that a refund reads.
#[derive(Clone, Copy)]
pub struct Refund {
    pub maker: Pubkey,
    pub mint_a: Mint,
    pub maker_ata_a: TokenAccount,
    pub escrow: Escrow,
    pub escrow_key: Pubkey,
    pub vault: TokenAccount,
}

/// The instructions a refund issues, in order.
pub struct RefundPlan {
    pub transfer: TransferChecked,
    pub close: CloseAccount,
}

impl Refund {
    /// The escrow account's signer seeds: the tag, the maker's address, the
    /// little-endian escrow seed and the bump.
    pub open spec fn escrow_signer_seeds(&self) -> Seq<Seq<u8>> {
        seq![tag_escrow(), self.maker@, u64_le_bytes(self.escrow.seed), seq![self.escrow.bump]]
    }

    /// `t` moves the vault's whole balance back to the maker.
    pub open spec fn is_refund_transfer(&self, t: TransferChecked) -> bool {
        &&& t.from == self.vault.key
        &&& t.to == self.maker_ata_a.key
        &&& t.authority == self.escrow_key
        &&& t.mint == self.mint_a.key
        &&& t.amount == self.vault.amount
        &&& t.decimals == self.mint_a.decimals
        &&& seeds_view(t.signer_seeds@) == self.escrow_signer_seeds()
    }

    /// `c` closes the vault and gives its rent to the maker.
    pub open spec fn is_vault_close(&self, c: CloseAccount) -> bool {
        &&& c.account == self.vault.key
        &&& c.destination == self.maker
        &&& c.authority == self.escrow_key
        &&& seeds_view(c.signer_seeds@) == self.escrow_signer_seeds()
    }

    fn make_signer_seeds(&self) -> (r: Vec<Vec<u8>>)
        ensures
            seeds_view(r@) == self.escrow_signer_seeds(),
    {
        let mut r: Vec<Vec<u8>> = Vec::new();
        r.push(tag_escrow_seed());
        r.push(self.maker.seed());
        r.push(u64_le_seed(self.escrow.seed));
        r.push(byte_seed(self.escrow.bump));
        assert(seeds_view(r@) =~= self.escrow_signer_seeds());
        r
    }

    /// Returns the vault's whole balance to the maker, then closes the vault.
    pub fn refund_and_close_vault(&self) -> (r: RefundPlan)
        ensures
            self.is_refund_transfer(r.transfer),
            self.is_vault_close(r.close),
            r.transfer.amount == self.vault.amount,
            r.transfer.from == self.vault.key,
            r.transfer.to == self.maker_ata_a.key,
            r.close.account == self.vault.key,
            r.close.destination == self.maker,
            seeds_view(r.close.signer_seeds@) == seeds_view(r.transfer.signer_seeds@),
    {
        let transfer = TransferChecked {
            from: self.vault.key,
            to: self.maker_ata_a.key,
            authority: self.escrow_key,
            mint: self.mint_a.key,
            amount: self.vault.amount,
            decimals: self.mint_a.decimals,
            signer_seeds: self.make_signer_seeds(),
        };
        let close = CloseAccount {
            account: self.vault.key,
            destination: self.maker,
            authority: self.escrow_key,
            signer_seeds: self.make_signer_seeds(),
        };
        RefundPlan { transfer, close }
    }
}

} // verus!
