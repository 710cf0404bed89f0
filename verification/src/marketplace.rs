//! NFT marketplace: creating the marketplace, delisting and purchasing.

use vstd::prelude::*;
use vstd::utf8::encode_utf8;
use crate::accounts::{
    Pubkey, Mint, TokenAccount, MetadataCollection, seeds_view, tag_listing, tag_listing_seed, byte_seed,
};
use crate::cpi::{TransferChecked, CloseAccount, SolTransfer};

verus! {

/// Why a request is refused.
#[derive(Clone, Copy, Debug, PartialEq, Eq, Structural)]
pub enum MarketplaceError {
    /// The marketplace name is empty or longer than 32 bytes.
    NameTooLong,
    /// The NFT's collection is not the expected one.
    InvalidCollection,
    /// The NFT's collection is not verified.
    UnverifedCollection,
}

/// The marketplace account.
pub struct Marketplace {
    pub bump: u8,
    pub admin: Pubkey,
    pub reward_bump: u8,
    pub treasury_bump: u8,
    pub fees: u32,
    pub name: String,
}

/// A listing account.
#[derive(Clone, Copy)]
pub struct Listing {
    pub maker: Pubkey,
    pub price: u64,
    pub nft_mint: Pubkey,
    pub bump: u8,
}

/// The length in bytes of a name (its UTF-8 encoding), as `str::len` gives it.
pub open spec fn name_len(name: Seq<char>) -> usize {
    encode_utf8(name).len() as usize
}

/// The marketplace's fee on a sale: `price * fees / 10000`, fees being in
/// basis points.
pub open spec fn sale_fee(price: u64, fees: u32) -> int {
    (price * fees) / 10000
}

/// The listing account's signer seeds: the tag, the marketplace's address,
/// the NFT mint's address and the listing bump (in this order, which is not
/// the order of the listing's address derivation).
pub open spec fn listing_signer_seeds(marketplace_key: Pubkey, mint: Pubkey, bump: u8) -> Seq<
    Seq<u8>,
> {
    seq![tag_listing(), marketplace_key@, mint@, seq![bump]]
}

fn make_listing_signer_seeds(marketplace_key: &Pubkey, mint: &Pubkey, bump: u8) -> (r: Vec<
    Vec<u8>,
>)
    ensures
        seeds_view(r@) == listing_signer_seeds(*marketplace_key, *mint, bump),
{
    let mut r: Vec<Vec<u8>> = Vec::new();
    r.push(tag_listing_seed());
    r.push(marketplace_key.seed());
    r.push(mint.seed());
    r.push(byte_seed(bump));
    assert(seeds_view(r@) =~= listing_signer_seeds(*marketplace_key, *mint, bump));
    r
}

/// The accounts that creating a marketplace reads.
#[derive(Clone, Copy)]
pub struct Initialize {
    pub admin: Pubkey,
}

impl Initialize {
    /// Creates the marketplace; refused with `NameTooLong` unless the name
    /// is 1 to 32 bytes long.
    pub fn initialize(
        &self,
        fees: u32,
        name: String,
        marketplace_bump: u8,
        reward_bump: u8,
        treasury_bump: u8,
    ) -> (r: Result<Marketplace, MarketplaceError>)
        ensures
            (1 <= name_len(name@) <= 32) <==> r is Ok,
            r is Err ==> r == Err::<Marketplace, MarketplaceError>(MarketplaceError::NameTooLong),
            r matches Ok(m) ==> {
                &&& m.bump == marketplace_bump
                &&& m.admin == self.admin
                &&& m.reward_bump == reward_bump
                &&& m.treasury_bump == treasury_bump
                &&& m.fees == fees
                &&& m.name == name
            },
    {
        let len = name.as_str().len();
        if !(len >= 1 && len <= 32) {
            return Err(MarketplaceError::NameTooLong);
        }
        Ok(
            Marketplace {
                bump: marketplace_bump,
                admin: self.admin,
                reward_bump,
                treasury_bump,
                fees,
                name,
            },
        )
    }
}

/// The accounts that delisting reads.
#[derive(Clone, Copy)]
pub struct Delist {
    pub maker: Pubkey,
    pub maker_ata: TokenAccount,
    pub maker_mint: Mint,
    pub marketplace_key: Pubkey,
    pub listing: Listing,
    pub listing_key: Pubkey,
    pub vault: TokenAccount,
    pub collection_mint: Pubkey,
    pub metadata_collection: Option<MetadataCollection>,
}

impl Delist {
    /// The delisting's collection checks: the NFT's metadata must name the
    /// expected collection (else `InvalidCollection`) and that collection
    /// must be verified (else `UnverifedCollection`).
    pub fn check_collection(&self) -> (r: Result<(), MarketplaceError>)
        requires
            self.metadata_collection is Some,
        ensures
            r == (if self.metadata_collection.unwrap().key != self.collection_mint {
                Err(MarketplaceError::InvalidCollection)
            } else if !self.metadata_collection.unwrap().verified {
                Err(MarketplaceError::UnverifedCollection)
            } else {
                Ok(())
            }),
    {
        let c = self.metadata_collection.unwrap();
        if !c.key.same_key(&self.collection_mint) {
            return Err(MarketplaceError::InvalidCollection);
        }
        if !(c.verified == true) {
            return Err(MarketplaceError::UnverifedCollection);
        }
        Ok(())
    }

    /// Returns the listed NFT (one token) from the vault to the maker.
    pub fn withdraw_nft(&self) -> (r: TransferChecked)
        ensures
            r.from == self.vault.key,
            r.mint == self.maker_mint.key,
            r.to == self.maker_ata.key,
            r.authority == self.listing_key,
            r.amount == 1,
            r.decimals == self.maker_mint.decimals,
            seeds_view(r.signer_seeds@) == listing_signer_seeds(
                self.marketplace_key,
                self.maker_mint.key,
                self.listing.bump,
            ),
    {
        TransferChecked {
            from: self.vault.key,
            mint: self.maker_mint.key,
            to: self.maker_ata.key,
            authority: self.listing_key,
            amount: 1,
            decimals: self.maker_mint.decimals,
            signer_seeds: make_listing_signer_seeds(
                &self.marketplace_key,
                &self.maker_mint.key,
                self.listing.bump,
            ),
        }
    }

    /// Closes the vault, giving its rent to the maker.
    pub fn close_listing(&self) -> (r: CloseAccount)
        ensures
            r.account == self.vault.key,
            r.destination == self.maker,
            r.authority == self.listing_key,
            seeds_view(r.signer_seeds@) == listing_signer_seeds(
                self.marketplace_key,
                self.maker_mint.key,
                self.listing.bump,
            ),
    {
        CloseAccount {
            account: self.vault.key,
            destination: self.maker,
            authority: self.listing_key,
            signer_seeds: make_listing_signer_seeds(
                &self.marketplace_key,
                &self.maker_mint.key,
                self.listing.bump,
            ),
        }
    }
}

/// The accounts that a purchase reads.
pub struct Purchase {
    pub taker: Pubkey,
    pub maker: Pubkey,
    pub taker_ata: TokenAccount,
    pub maker_mint: Mint,
    pub marketplace: Marketplace,
    pub marketplace_key: Pubkey,
    pub vault: TokenAccount,
    pub listing: Listing,
    pub listing_key: Pubkey,
    pub treasury: Pubkey,
}

/// The lamport payments of a purchase, in order.
pub struct SalePayments {
    pub to_maker: SolTransfer,
    pub to_treasury: SolTransfer,
}

impl Purchase {
    /// Whether the fee computation `price * fees` fits in a `u64`; outside
    /// that range the program aborts.
    pub fn fee_in_range(&self) -> (r: bool)
        ensures
            r == (self.listing.price * self.marketplace.fees <= u64::MAX),
    {
        let fees: u64 = self.marketplace.fees as u64;
        self.listing.price.checked_mul(fees).is_some()
    }

    /// The taker pays the listing price to the maker, then the marketplace
    /// fee to the treasury.
    pub fn send_sol_to_maker(&self) -> (r: SalePayments)
        requires
            self.listing.price * self.marketplace.fees <= u64::MAX,
        ensures
            r.to_maker.from == self.taker,
            r.to_maker.to == self.maker,
            r.to_maker.lamports == self.listing.price,
            r.to_treasury.from == self.taker,
            r.to_treasury.to == self.treasury,
            r.to_treasury.lamports == sale_fee(self.listing.price, self.marketplace.fees),
            r.to_treasury.lamports * 10000 <= self.listing.price * self.marketplace.fees,
            self.listing.price * self.marketplace.fees < (r.to_treasury.lamports + 1) * 10000,
    {
        proof {
            lemma_fee_is_floor(self.listing.price, self.marketplace.fees);
        }
        let to_maker = SolTransfer { from: self.taker, to: self.maker, lamports: self.listing.price };
        let fees: u64 = self.marketplace.fees as u64;
        let fee: u64 = self.listing.price * fees / 10000;
        let to_treasury = SolTransfer { from: self.taker, to: self.treasury, lamports: fee };
        SalePayments { to_maker, to_treasury }
    }

    /// Moves the listed NFT (one token) from the vault to the taker.
    pub fn transfer_nft_to_taker(&self) -> (r: TransferChecked)
        ensures
            r.from == self.vault.key,
            r.mint == self.maker_mint.key,
            r.to == self.taker_ata.key,
            r.authority == self.listing_key,
            r.amount == 1,
            r.decimals == self.maker_mint.decimals,
            seeds_view(r.signer_seeds@) == listing_signer_seeds(
                self.marketplace_key,
                self.maker_mint.key,
                self.listing.bump,
            ),
    {
        TransferChecked {
            from: self.vault.key,
            mint: self.maker_mint.key,
            to: self.taker_ata.key,
            authority: self.listing_key,
            amount: 1,
            decimals: self.maker_mint.decimals,
            signer_seeds: make_listing_signer_seeds(
                &self.marketplace_key,
                &self.maker_mint.key,
                self.listing.bump,
            ),
        }
    }

    /// Closes the vault, giving its rent to the maker.
    pub fn close_vault(&self) -> (r: CloseAccount)
        ensures
            r.account == self.vault.key,
            r.destination == self.maker,
            r.authority == self.listing_key,
            seeds_view(r.signer_seeds@) == listing_signer_seeds(
                self.marketplace_key,
                self.maker_mint.key,
                self.listing.bump,
            ),
    {
        CloseAccount {
            account: self.vault.key,
            destination: self.maker,
            authority: self.listing_key,
            signer_seeds: make_listing_signer_seeds(
                &self.marketplace_key,
                &self.maker_mint.key,
                self.listing.bump,
            ),
        }
    }
}

/// With fees of at most 10000 basis points, the marketplace fee never
/// exceeds the price.
pub proof fn lemma_fee_within_price(price: u64, fees: u32)
    requires
        fees <= 10000,
    ensures
        0 <= sale_fee(price, fees) <= price,
{
    assert(0 <= (price * fees) / 10000 <= price) by (nonlinear_arith)
        requires
            fees <= 10000,
            price >= 0,
    ;
}

/// The fee is the price times the fee rate in basis points, rounded down:
/// the largest amount whose 10000-fold does not exceed `price * fees`.
pub proof fn lemma_fee_is_floor(price: u64, fees: u32)
    ensures
        sale_fee(price, fees) * 10000 <= price * fees,
        price * fees < (sale_fee(price, fees) + 1) * 10000,
        sale_fee(price, fees) >= 0,
{
    vstd::arithmetic::div_mod::lemma_fundamental_div_mod(price * fees, 10000);
    vstd::arithmetic::mul::lemma_mul_nonnegative(price as int, fees as int);
}

} // verus!
