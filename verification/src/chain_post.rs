//! A posting platform: posts minted as compressed NFTs, tips, comments, and
//! sales of a post as a core NFT.

use vstd::prelude::*;
use crate::accounts::Pubkey;
use crate::cpi::SolTransfer;

verus! {

/// Why a request is refused.
#[derive(Clone, Copy, Debug, PartialEq, Eq, Structural)]
pub enum ChainPostError {
    /// The account given as the post's author is not its author.
    InvalidCreator,
}

/// The platform's configuration account.
#[derive(Clone, Copy)]
pub struct PlatformConfig {
    pub merkle_tree: Pubkey,
    pub bump: u8,
    pub authority: Pubkey,
}

/// A user's account.
#[derive(Clone, Copy)]
pub struct UserAccountState {
    pub bump: u8,
    pub post_created: u16,
    pub total_tip: u64,
    pub owner: Pubkey,
}

/// A comment on a post.
pub struct CommentAccount {
    pub owner: Pubkey,
    pub title: String,
    pub comment: String,
    pub post_key: Pubkey,
    pub post_owner: Pubkey,
    pub timestamp: i64,
    pub bump: u8,
    pub seed: u64,
}

/// A post.
pub struct PostAccount {
    pub merkle_tree: Pubkey,
    pub bump: u8,
    pub author: Pubkey,
    pub timestamp: i64,
    pub tip_total: u64,
    pub content: String,
    pub seed: u64,
    pub nft_sold: u64,
}

/// A creator entry of NFT metadata.
#[derive(Clone, Copy)]
pub struct CreatorLocal {
    pub address: Pubkey,
    pub verified: bool,
    pub share: u8,
}

/// A collection entry of NFT metadata.
#[derive(Clone, Copy)]
pub struct CollectionLocal {
    pub key: Pubkey,
    pub verified: bool,
}

/// A uses entry of NFT metadata.
#[derive(Clone, Copy)]
pub struct UsesLocal {
    pub use_method: u8,
    pub remaining: u64,
    pub total: u64,
}

/// The token standards of NFT metadata, in their on-chain order.
#[derive(Clone, Copy)]
pub enum TokenStandardLocal {
    NonFungible,
    FungibleAsset,
    Fungible,
    NonFungibleEdition,
    ProgrammableNonFungible,
    ProgrammableNonFungibleEdition,
}

/// The metadata that a post's author submits.
pub struct MetadataArgsV2Local {
    pub name: String,
    pub symbol: String,
    pub uri: String,
    pub seller_fee_basis_points: u16,
    pub primary_sale_happened: bool,
    pub is_mutable: bool,
    pub token_standard: Option<u8>,
    pub creators: Vec<CreatorLocal>,
    pub collection: Option<CollectionLocal>,
    pub uses: Option<UsesLocal>,
    pub edition_nonce: Option<u8>,
    pub token_program_version: u8,
    pub token_metadata_program: Option<Pubkey>,
}

/// The metadata of a compressed NFT as the bubblegum program takes it.
pub struct CnftMetadata {
    pub name: String,
    pub symbol: String,
    pub uri: String,
    pub seller_fee_basis_points: u16,
    pub primary_sale_happened: bool,
    pub is_mutable: bool,
    pub token_standard: Option<TokenStandardLocal>,
    pub creators: Vec<CreatorLocal>,
    pub collection: Option<Pubkey>,
}

/// A bubblegum `mint_v2` of a compressed NFT into the platform's tree.
pub struct MintCnft {
    pub payer: Pubkey,
    pub tree_creator_or_delegate: Pubkey,
    pub leaf_owner: Pubkey,
    pub leaf_delegate: Pubkey,
    pub merkle_tree: Pubkey,
    pub metadata: CnftMetadata,
}

/// A core `create_v1` of an NFT asset, whose data is held in account state.
pub struct CreateAsset {
    pub asset: Pubkey,
    pub authority: Pubkey,
    pub payer: Pubkey,
    pub owner: Pubkey,
    pub update_authority: Pubkey,
    pub name: String,
    pub uri: String,
}

/// The accounts that creating the platform reads.
#[derive(Clone, Copy)]
pub struct Initialize {
    pub admin: Pubkey,
    pub merkle_tree: Pubkey,
}

impl Initialize {
    /// The platform's configuration: its tree, owned by the admin.
    pub fn initialize(&self, platform_bump: u8) -> (r: PlatformConfig)
        ensures
            r.merkle_tree == self.merkle_tree,
            r.bump == platform_bump,
            r.authority == self.admin,
    {
        PlatformConfig { merkle_tree: self.merkle_tree, bump: platform_bump, authority: self.admin }
    }
}

/// The accounts that creating a post reads and writes.
#[derive(Clone, Copy)]
pub struct CreatePost {
    pub content_creator: Pubkey,
    pub admin: Pubkey,
    pub merkle_tree: Pubkey,
    pub user_account: UserAccountState,
}

impl CreatePost {
    /// The metadata of the post's compressed NFT: the author's name, symbol,
    /// uri, royalty and flags, with no token standard, creators or collection.
    pub open spec fn is_cnft_metadata(m: MetadataArgsV2Local, c: CnftMetadata) -> bool {
        &&& c.name == m.name
        &&& c.symbol == m.symbol
        &&& c.uri == m.uri
        &&& c.seller_fee_basis_points == m.seller_fee_basis_points
        &&& c.primary_sale_happened == m.primary_sale_happened
        &&& c.is_mutable == m.is_mutable
        &&& c.token_standard is None
        &&& c.creators@.len() == 0
        &&& c.collection is None
    }

    /// Creates a post: mints its compressed NFT to the author (delegated to
    /// the admin), records the post with no tips and no sales, and counts
    /// it in the author's account.
    pub fn create_cnft_post(
        &mut self,
        metadata: MetadataArgsV2Local,
        seed: u64,
        post_bump: u8,
        content: String,
        timestamp: i64,
    ) -> (r: (MintCnft, PostAccount))
        requires
            old(self).user_account.post_created < u16::MAX,
        ensures
            r.0.payer == old(self).content_creator,
            r.0.tree_creator_or_delegate == old(self).admin,
            r.0.leaf_owner == old(self).content_creator,
            r.0.leaf_delegate == old(self).admin,
            r.0.merkle_tree == old(self).merkle_tree,
            Self::is_cnft_metadata(metadata, r.0.metadata),
            r.1.merkle_tree == old(self).merkle_tree,
            r.1.bump == post_bump,
            r.1.author == old(self).content_creator,
            r.1.timestamp == timestamp,
            r.1.tip_total == 0,
            r.1.content == content,
            r.1.seed == seed,
            r.1.nft_sold == 0,
            *final(self) == (CreatePost {
                user_account: UserAccountState {
                    post_created: (old(self).user_account.post_created + 1) as u16,
                    ..old(self).user_account
                },
                ..*old(self)
            }),
    {
        let main_metadata = CnftMetadata {
            name: metadata.name,
            symbol: metadata.symbol,
            uri: metadata.uri,
            seller_fee_basis_points: metadata.seller_fee_basis_points,
            primary_sale_happened: metadata.primary_sale_happened,
            is_mutable: metadata.is_mutable,
            token_standard: None,
            creators: Vec::new(),
            collection: None,
        };
        let mint = MintCnft {
            payer: self.content_creator,
            tree_creator_or_delegate: self.admin,
            leaf_owner: self.content_creator,
            leaf_delegate: self.admin,
            merkle_tree: self.merkle_tree,
            metadata: main_metadata,
        };
        let post = PostAccount {
            merkle_tree: self.merkle_tree,
            bump: post_bump,
            author: self.content_creator,
            timestamp,
            tip_total: 0,
            content,
            seed,
            nft_sold: 0,
        };
        self.user_account.post_created = self.user_account.post_created + 1;
        (mint, post)
    }
}

/// The accounts that tipping a post reads and writes.
pub struct TiPPost {
    pub tipper: Pubkey,
    pub content_creator: Pubkey,
    pub user_account: UserAccountState,
    pub post_account: PostAccount,
}

impl TiPPost {
    /// Tips `amount` lamports to the post's author and adds it to the post's
    /// and the tipper's totals; refused when the receiving account is not
    /// the post's author, and then nothing changes.
    pub fn tip_sol(&mut self, amount: u64) -> (r: Result<SolTransfer, ChainPostError>)
        requires
            old(self).content_creator == old(self).post_account.author ==> old(
                self,
            ).post_account.tip_total + amount <= u64::MAX && old(self).user_account.total_tip
                + amount <= u64::MAX,
        ensures
            old(self).content_creator == old(self).post_account.author <==> r is Ok,
            r is Err ==> r == Err::<SolTransfer, ChainPostError>(ChainPostError::InvalidCreator)
                && *final(self) == *old(self),
            r matches Ok(t) ==> {
                &&& t.from == old(self).tipper
                &&& t.to == old(self).content_creator
                &&& t.lamports == amount
                &&& *final(self) == (TiPPost {
                    post_account: PostAccount {
                        tip_total: (old(self).post_account.tip_total + amount) as u64,
                        ..old(self).post_account
                    },
                    user_account: UserAccountState {
                        total_tip: (old(self).user_account.total_tip + amount) as u64,
                        ..old(self).user_account
                    },
                    ..*old(self)
                })
            },
    {
        if !self.content_creator.same_key(&self.post_account.author) {
            return Err(ChainPostError::InvalidCreator);
        }
        let t = SolTransfer { from: self.tipper, to: self.content_creator, lamports: amount };
        self.post_account.tip_total = self.post_account.tip_total + amount;
        self.user_account.total_tip = self.user_account.total_tip + amount;
        Ok(t)
    }
}

/// The accounts that commenting on a post reads.
pub struct CommentOnPost {
    pub commenter: Pubkey,
    pub author: Pubkey,
    pub post_key: Pubkey,
    pub post_account: PostAccount,
}

impl CommentOnPost {
    /// The comment record: by the commenter, on the post, at `timestamp`.
    pub fn comment(
        &self,
        seed: u64,
        title: String,
        comment: String,
        timestamp: i64,
        comment_bump: u8,
    ) -> (r: CommentAccount)
        ensures
            r.owner == self.commenter,
            r.title == title,
            r.comment == comment,
            r.post_key == self.post_key,
            r.post_owner == self.post_account.author,
            r.timestamp == timestamp,
            r.bump == comment_bump,
            r.seed == seed,
    {
        CommentAccount {
            owner: self.commenter,
            title,
            comment,
            post_key: self.post_key,
            post_owner: self.post_account.author,
            timestamp,
            bump: comment_bump,
            seed,
        }
    }
}

/// The accounts that buying a post's NFT reads and writes.
pub struct BuyPostNft {
    pub buyer: Pubkey,
    pub author: Pubkey,
    pub nft_mint: Pubkey,
    pub user_account: UserAccountState,
    pub post_account: PostAccount,
}

impl BuyPostNft {
    /// Pays `amount` lamports from the buyer to the post's author; refused
    /// when the receiving account is not the post's author.
    pub fn transfer_sol(&self, amount: u64) -> (r: Result<SolTransfer, ChainPostError>)
        ensures
            self.author == self.post_account.author <==> r is Ok,
            r is Err ==> r == Err::<SolTransfer, ChainPostError>(ChainPostError::InvalidCreator),
            r matches Ok(t) ==> t.from == self.buyer && t.to == self.author && t.lamports
                == amount,
    {
        if !self.author.same_key(&self.post_account.author) {
            return Err(ChainPostError::InvalidCreator);
        }
        Ok(SolTransfer { from: self.buyer, to: self.author, lamports: amount })
    }

    /// Mints the post's NFT asset to the buyer, with the author as its
    /// authority, and counts the sale on the post.
    pub fn mint_nft_to_buyer(&mut self, name: String, uri: String) -> (r: CreateAsset)
        requires
            old(self).post_account.nft_sold < u64::MAX,
        ensures
            r.asset == old(self).nft_mint,
            r.authority == old(self).author,
            r.payer == old(self).buyer,
            r.owner == old(self).buyer,
            r.update_authority == old(self).author,
            r.name == name,
            r.uri == uri,
            *final(self) == (BuyPostNft {
                post_account: PostAccount {
                    nft_sold: (old(self).post_account.nft_sold + 1) as u64,
                    ..old(self).post_account
                },
                ..*old(self)
            }),
    {
        let asset = CreateAsset {
            asset: self.nft_mint,
            authority: self.author,
            payer: self.buyer,
            owner: self.buyer,
            update_authority: self.author,
            name,
            uri,
        };
        self.post_account.nft_sold = self.post_account.nft_sold + 1;
        asset
    }
}


/// Sells a post's NFT: the buyer pays `amount` lamports to the author, then
/// the NFT asset is minted to the buyer and the sale is counted on the
/// post.  Refused with `InvalidCreator`, nothing minted and nothing
/// changed, when the receiving account is not the post's author.
pub fn buy_post_nft(accounts: &mut BuyPostNft, amount: u64, name: String, uri: String) -> (r: Result<
    (SolTransfer, CreateAsset),
    ChainPostError,
>)
    requires
        old(accounts).author == old(accounts).post_account.author ==> old(
            accounts,
        ).post_account.nft_sold < u64::MAX,
    ensures
        old(accounts).author == old(accounts).post_account.author <==> r is Ok,
        r is Err ==> r == Err::<(SolTransfer, CreateAsset), ChainPostError>(
            ChainPostError::InvalidCreator,
        ) && *final(accounts) == *old(accounts),
        r matches Ok((pay, asset)) ==> {
            &&& pay.from == old(accounts).buyer
            &&& pay.to == old(accounts).author
            &&& pay.lamports == amount
            &&& asset.asset == old(accounts).nft_mint
            &&& asset.authority == old(accounts).author
            &&& asset.payer == old(accounts).buyer
            &&& asset.owner == old(accounts).buyer
            &&& asset.update_authority == old(accounts).author
            &&& asset.name == name
            &&& asset.uri == uri
            &&& *final(accounts) == (BuyPostNft {
                post_account: PostAccount {
                    nft_sold: (old(accounts).post_account.nft_sold + 1) as u64,
                    ..old(accounts).post_account
                },
                ..*old(accounts)
            })
        },
{
    let pay = match accounts.transfer_sol(amount) {
        Ok(t) => t,
        Err(e) => {
            return Err(e);
        },
    };
    let asset = accounts.mint_nft_to_buyer(name, uri);
    Ok((pay, asset))
}

} // verus!
