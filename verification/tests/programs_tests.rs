use anchor_programs::accounts::{
    byte_seed, u64_be_seed, u64_le_seed, MetadataCollection, Mint, Pubkey, TokenAccount,
};
use anchor_programs::chain_post::{
    self, BuyPostNft, ChainPostError, CommentOnPost, CreatePost, MetadataArgsV2Local,
    PostAccount, TiPPost, UserAccountState,
};
use anchor_programs::escrow::{Escrow, Refund};
use anchor_programs::marketplace::{
    self, Delist, Listing, Marketplace, MarketplaceError, Purchase,
};
use anchor_programs::staking::{
    InitializeConfig, Stake, StakeConfig, StakeError, Unstake, StakeAccountState,
    UserAccountState as StakeUser,
};
use anchor_programs::vault::VaultState;
use anchor_programs::voting::{CastVote, InitProposal, Initialize as VotingInitialize};

fn key(b: u8) -> Pubkey {
    Pubkey { bytes: [b; 32] }
}

#[test]
fn same_key_compares_all_bytes() {
    let a = key(1);
    let mut b = key(1);
    assert!(a.same_key(&b));
    b.bytes[31] = 2;
    assert!(!a.same_key(&b));
    assert_eq!(a.seed(), vec![1u8; 32]);
}

#[test]
fn seed_byte_encodings() {
    assert_eq!(u64_le_seed(0x0102_0304_0506_0708), vec![8, 7, 6, 5, 4, 3, 2, 1]);
    assert_eq!(u64_be_seed(0x0102_0304_0506_0708), vec![1, 2, 3, 4, 5, 6, 7, 8]);
    assert_eq!(u64_le_seed(300), 300u64.to_le_bytes().to_vec());
    assert_eq!(u64_be_seed(u64::MAX), u64::MAX.to_be_bytes().to_vec());
    assert_eq!(byte_seed(7), vec![7]);
}

#[test]
fn refund_returns_the_whole_vault() {
    let r = Refund {
        maker: key(1),
        mint_a: Mint { key: key(2), decimals: 5, supply: 10_000 },
        maker_ata_a: TokenAccount { key: key(3), amount: 0 },
        escrow: Escrow { seed: 42, bump: 250 },
        escrow_key: key(4),
        vault: TokenAccount { key: key(5), amount: 777 },
    };
    let plan = r.refund_and_close_vault();
    assert_eq!(plan.transfer.amount, 777);
    assert_eq!(plan.transfer.from.bytes, [5u8; 32]);
    assert_eq!(plan.transfer.to.bytes, [3u8; 32]);
    assert_eq!(plan.transfer.authority.bytes, [4u8; 32]);
    assert_eq!(plan.transfer.mint.bytes, [2u8; 32]);
    assert_eq!(plan.transfer.decimals, 5);
    let seeds = vec![b"escrow".to_vec(), vec![1u8; 32], 42u64.to_le_bytes().to_vec(), vec![250]];
    assert_eq!(plan.transfer.signer_seeds, seeds);
    assert_eq!(plan.close.account.bytes, [5u8; 32]);
    assert_eq!(plan.close.destination.bytes, [1u8; 32]);
    assert_eq!(plan.close.authority.bytes, [4u8; 32]);
    assert_eq!(plan.close.signer_seeds, seeds);
}

#[test]
fn voting_records_start_empty() {
    let dao = VotingInitialize { creator: key(1) }.init_dao("dao".to_string(), 9);
    assert_eq!(dao.name, "dao");
    assert_eq!(dao.authority.bytes, [1u8; 32]);
    assert_eq!(dao.bump, 9);
    assert_eq!(dao.proposal_count, 0);
    let p = InitProposal { creator: key(2) }.init_proposal("meta".to_string(), 8);
    assert_eq!(p.metadata, "meta");
    assert_eq!((p.yes_vote_count, p.no_vote_count, p.bump), (0, 0, 8));
    assert_eq!(p.authority.bytes, [2u8; 32]);
    let v = CastVote { voter: key(3) }.cast_vote(1, 12, 7);
    assert_eq!((v.vote_type, v.vote_credit, v.bump), (1, 12, 7));
    assert_eq!(v.authority.bytes, [3u8; 32]);
}

#[test]
fn vault_state_space() {
    assert_eq!(VaultState::INIT_SPACE, 10);
}

fn post(author: u8, tip_total: u64, nft_sold: u64) -> PostAccount {
    PostAccount {
        merkle_tree: key(20),
        bump: 1,
        author: key(author),
        timestamp: 5,
        tip_total,
        content: "hello".to_string(),
        seed: 3,
        nft_sold,
    }
}

fn user(post_created: u16, total_tip: u64) -> UserAccountState {
    UserAccountState { bump: 2, post_created, total_tip, owner: key(30) }
}

#[test]
fn tip_adds_to_both_totals() {
    let mut t = TiPPost {
        tipper: key(1),
        content_creator: key(2),
        user_account: user(0, 10),
        post_account: post(2, 100, 0),
    };
    let pay = t.tip_sol(25).unwrap();
    assert_eq!(pay.lamports, 25);
    assert_eq!(pay.from.bytes, [1u8; 32]);
    assert_eq!(pay.to.bytes, [2u8; 32]);
    assert_eq!(t.post_account.tip_total, 125);
    assert_eq!(t.user_account.total_tip, 35);
}

#[test]
fn tip_to_wrong_author_changes_nothing() {
    let mut t = TiPPost {
        tipper: key(1),
        content_creator: key(3),
        user_account: user(0, 10),
        post_account: post(2, 100, 0),
    };
    assert_eq!(t.tip_sol(25).err(), Some(ChainPostError::InvalidCreator));
    assert_eq!(t.post_account.tip_total, 100);
    assert_eq!(t.user_account.total_tip, 10);
}

#[test]
fn buying_a_post_nft() {
    let mut b = BuyPostNft {
        buyer: key(1),
        author: key(2),
        nft_mint: key(9),
        user_account: user(0, 0),
        post_account: post(2, 0, 4),
    };
    let (pay, asset) =
        chain_post::buy_post_nft(&mut b, 500, "n".to_string(), "u".to_string()).unwrap();
    assert_eq!(pay.lamports, 500);
    assert_eq!(pay.to.bytes, [2u8; 32]);
    assert_eq!(asset.asset.bytes, [9u8; 32]);
    assert_eq!(asset.owner.bytes, [1u8; 32]);
    assert_eq!(asset.payer.bytes, [1u8; 32]);
    assert_eq!(asset.authority.bytes, [2u8; 32]);
    assert_eq!(asset.update_authority.bytes, [2u8; 32]);
    assert_eq!((asset.name.as_str(), asset.uri.as_str()), ("n", "u"));
    assert_eq!(b.post_account.nft_sold, 5);

    let mut wrong = BuyPostNft {
        buyer: key(1),
        author: key(3),
        nft_mint: key(9),
        user_account: user(0, 0),
        post_account: post(2, 0, 4),
    };
    let r = chain_post::buy_post_nft(&mut wrong, 500, "n".to_string(), "u".to_string());
    assert_eq!(r.err(), Some(ChainPostError::InvalidCreator));
    assert_eq!(wrong.post_account.nft_sold, 4);
    assert_eq!(wrong.transfer_sol(1).err(), Some(ChainPostError::InvalidCreator));
}

#[test]
fn creating_a_post() {
    let mut c = CreatePost {
        content_creator: key(1),
        admin: key(2),
        merkle_tree: key(3),
        user_account: user(7, 0),
    };
    let meta = MetadataArgsV2Local {
        name: "name".to_string(),
        symbol: "SYM".to_string(),
        uri: "uri".to_string(),
        seller_fee_basis_points: 500,
        primary_sale_happened: true,
        is_mutable: false,
        token_standard: Some(0),
        creators: vec![],
        collection: None,
        uses: None,
        edition_nonce: None,
        token_program_version: 0,
        token_metadata_program: None,
    };
    let (mint, p) = c.create_cnft_post(meta, 11, 254, "content".to_string(), 1_700_000_000);
    assert_eq!(c.user_account.post_created, 8);
    assert_eq!(mint.metadata.name, "name");
    assert_eq!(mint.metadata.symbol, "SYM");
    assert_eq!(mint.metadata.seller_fee_basis_points, 500);
    assert!(mint.metadata.primary_sale_happened);
    assert!(!mint.metadata.is_mutable);
    assert!(mint.metadata.token_standard.is_none());
    assert!(mint.metadata.creators.is_empty());
    assert!(mint.metadata.collection.is_none());
    assert_eq!(mint.leaf_owner.bytes, [1u8; 32]);
    assert_eq!(mint.leaf_delegate.bytes, [2u8; 32]);
    assert_eq!(mint.merkle_tree.bytes, [3u8; 32]);
    assert_eq!(p.author.bytes, [1u8; 32]);
    assert_eq!((p.timestamp, p.tip_total, p.seed, p.nft_sold, p.bump), (1_700_000_000, 0, 11, 0, 254));
    assert_eq!(p.content, "content");
}

#[test]
fn commenting_on_a_post() {
    let c = CommentOnPost { commenter: key(1), author: key(2), post_key: key(4), post_account: post(2, 0, 0) };
    let rec = c.comment(6, "t".to_string(), "c".to_string(), 99, 3);
    assert_eq!(rec.owner.bytes, [1u8; 32]);
    assert_eq!(rec.post_key.bytes, [4u8; 32]);
    assert_eq!(rec.post_owner.bytes, [2u8; 32]);
    assert_eq!((rec.timestamp, rec.bump, rec.seed), (99, 3, 6));
    assert_eq!((rec.title.as_str(), rec.comment.as_str()), ("t", "c"));
    let cfg = chain_post::Initialize { admin: key(5), merkle_tree: key(6) }.initialize(200);
    assert_eq!(cfg.authority.bytes, [5u8; 32]);
    assert_eq!(cfg.merkle_tree.bytes, [6u8; 32]);
    assert_eq!(cfg.bump, 200);
}

#[test]
fn marketplace_name_bounds() {
    let init = marketplace::Initialize { admin: key(1) };
    assert_eq!(init.initialize(100, String::new(), 1, 2, 3).err(), Some(MarketplaceError::NameTooLong));
    assert_eq!(init.initialize(100, "x".repeat(33), 1, 2, 3).err(), Some(MarketplaceError::NameTooLong));
    // 17 two-byte characters are 34 bytes
    assert_eq!(init.initialize(100, "é".repeat(17), 1, 2, 3).err(), Some(MarketplaceError::NameTooLong));
    let m = init.initialize(250, "x".repeat(32), 1, 2, 3).unwrap();
    assert_eq!((m.fees, m.bump, m.reward_bump, m.treasury_bump), (250, 1, 2, 3));
    assert_eq!(m.name.len(), 32);
    assert_eq!(m.admin.bytes, [1u8; 32]);
    assert!(init.initialize(0, "a".to_string(), 0, 0, 0).is_ok());
}

fn purchase(price: u64, fees: u32) -> Purchase {
    Purchase {
        taker: key(1),
        maker: key(2),
        taker_ata: TokenAccount { key: key(3), amount: 0 },
        maker_mint: Mint { key: key(4), decimals: 0, supply: 1 },
        marketplace: Marketplace {
            bump: 1,
            admin: key(5),
            reward_bump: 2,
            treasury_bump: 3,
            fees,
            name: "m".to_string(),
        },
        marketplace_key: key(6),
        vault: TokenAccount { key: key(7), amount: 1 },
        listing: Listing { maker: key(2), price, nft_mint: key(4), bump: 9 },
        listing_key: key(8),
        treasury: key(10),
    }
}

fn listing_seeds() -> Vec<Vec<u8>> {
    vec![b"listing".to_vec(), vec![6u8; 32], vec![4u8; 32], vec![9]]
}

#[test]
fn purchase_pays_price_and_fee() {
    let p = purchase(1_000, 250);
    let pay = p.send_sol_to_maker();
    assert_eq!(pay.to_maker.lamports, 1_000);
    assert_eq!(pay.to_maker.to.bytes, [2u8; 32]);
    assert_eq!(pay.to_treasury.lamports, 25);
    assert_eq!(pay.to_treasury.to.bytes, [10u8; 32]);
    assert_eq!(pay.to_treasury.from.bytes, [1u8; 32]);
    // the fee rounds down
    assert_eq!(purchase(399, 25).send_sol_to_maker().to_treasury.lamports, 0);
    // a fee of 10000 basis points is the whole price
    assert_eq!(purchase(123, 10_000).send_sol_to_maker().to_treasury.lamports, 123);
    let nft = p.transfer_nft_to_taker();
    assert_eq!(nft.amount, 1);
    assert_eq!(nft.from.bytes, [7u8; 32]);
    assert_eq!(nft.to.bytes, [3u8; 32]);
    assert_eq!(nft.authority.bytes, [8u8; 32]);
    assert_eq!(nft.signer_seeds, listing_seeds());
    let close = p.close_vault();
    assert_eq!(close.account.bytes, [7u8; 32]);
    assert_eq!(close.destination.bytes, [2u8; 32]);
    assert_eq!(close.signer_seeds, listing_seeds());
}

#[test]
fn delisting() {
    let d = Delist {
        maker: key(2),
        maker_ata: TokenAccount { key: key(11), amount: 0 },
        maker_mint: Mint { key: key(4), decimals: 0, supply: 1 },
        marketplace_key: key(6),
        listing: Listing { maker: key(2), price: 5, nft_mint: key(4), bump: 9 },
        listing_key: key(8),
        vault: TokenAccount { key: key(7), amount: 1 },
        collection_mint: key(12),
        metadata_collection: Some(MetadataCollection { key: key(12), verified: true }),
    };
    assert_eq!(d.check_collection(), Ok(()));
    let t = d.withdraw_nft();
    assert_eq!(t.amount, 1);
    assert_eq!(t.to.bytes, [11u8; 32]);
    assert_eq!(t.signer_seeds, listing_seeds());
    let c = d.close_listing();
    assert_eq!(c.destination.bytes, [2u8; 32]);
    let mut wrong = d;
    wrong.metadata_collection = Some(MetadataCollection { key: key(13), verified: true });
    assert_eq!(wrong.check_collection(), Err(MarketplaceError::InvalidCollection));
    wrong.metadata_collection = Some(MetadataCollection { key: key(12), verified: false });
    assert_eq!(wrong.check_collection(), Err(MarketplaceError::UnverifedCollection));
}

fn stake_accounts(amount_staked: u8, max_stake: u8) -> Stake {
    Stake {
        user: key(1),
        nft_mint: key(2),
        collection_mint: key(3),
        metadata_collection: Some(MetadataCollection { key: key(3), verified: true }),
        nft_mint_ata: key(4),
        edition: key(5),
        config: InitializeConfig { payer: key(9) }.init(10, 0, max_stake, 250, 251),
        config_key: key(6),
        user_account: StakeUser { bump: 1, amount_staked, points: 0 },
        user_account_key: key(7),
        stake_account_key: key(8),
    }
}

#[test]
fn staking_counts_and_freezes() {
    let mut s = stake_accounts(1, 2);
    assert!(s.check_collection());
    let plan = s.stake(249, 1_000).unwrap();
    assert_eq!(s.user_account.amount_staked, 2);
    assert_eq!(plan.stake_account.staked_at, 1_000);
    assert_eq!(plan.stake_account.owner.bytes, [1u8; 32]);
    assert_eq!(plan.stake_account.nft_mint.bytes, [2u8; 32]);
    assert_eq!(plan.approve.amount, 1);
    assert_eq!(plan.approve.delegate.bytes, [8u8; 32]);
    assert_eq!(plan.approve.authority.bytes, [7u8; 32]);
    assert!(plan.freeze.freeze);
    assert_eq!(
        plan.freeze.signer_seeds,
        vec![b"stake_account".to_vec(), vec![2u8; 32], vec![6u8; 32], vec![249]]
    );
    // the maximum is now reached
    assert_eq!(s.stake(249, 1_000).err(), Some(StakeError::MaxStakeReeached));
    assert_eq!(s.user_account.amount_staked, 2);
}

#[test]
fn stake_collection_checks() {
    let mut s = stake_accounts(0, 1);
    s.metadata_collection = Some(MetadataCollection { key: key(3), verified: false });
    assert!(!s.check_collection());
    s.metadata_collection = Some(MetadataCollection { key: key(4), verified: true });
    assert!(!s.check_collection());
}

fn unstake_accounts(staked_at: i64, points: u32, pps: u8) -> Unstake {
    Unstake {
        user: key(1),
        nft_mint: key(2),
        collection_mint: key(3),
        metadata_collection: Some(MetadataCollection { key: key(3), verified: true }),
        nft_mint_ata: key(4),
        edition: key(5),
        config: StakeConfig { point_per_stake: pps, reward_bump: 0, bump: 0, freeze_period: 0, max_stake: 5 },
        config_key: key(6),
        user_account: StakeUser { bump: 1, amount_staked: 1, points },
        stake_account: StakeAccountState { nft_mint: key(2), owner: key(1), bump: 248, staked_at },
        stake_account_key: key(8),
    }
}

#[test]
fn unstaking_earns_points_per_whole_day() {
    let mut u = unstake_accounts(100, 7, 10);
    assert!(u.check_collection());
    let plan = u.unstake(100 + 3 * 86_400 + 86_399);
    assert_eq!(u.user_account.amount_staked, 0);
    assert_eq!(u.user_account.points, 37);
    assert!(!plan.thaw.freeze);
    assert_eq!(
        plan.thaw.signer_seeds,
        vec![b"stake_account".to_vec(), vec![2u8; 32], vec![6u8; 32], vec![248]]
    );
    assert_eq!(plan.revoke.source.bytes, [4u8; 32]);
    assert_eq!(plan.revoke.authority.bytes, [1u8; 32]);
}

#[test]
fn unstaking_the_same_day_earns_nothing() {
    let mut u = unstake_accounts(0, 7, 10);
    u.unstake(86_399);
    assert_eq!(u.user_account.points, 7);
}

#[test]
fn stake_then_unstake_round_trip() {
    let mut s = stake_accounts(0, 3);
    let plan = s.stake(247, 0).unwrap();
    let mut u = unstake_accounts(plan.stake_account.staked_at, s.user_account.points, 10);
    u.user_account = s.user_account;
    u.unstake(2 * 86_400);
    assert_eq!(u.user_account.amount_staked, 0);
    assert_eq!(u.user_account.points, 20);
}

#[test]
fn unstake_limits() {
    let u = unstake_accounts(0, 7, 10);
    assert!(u.can_unstake(86_400));
    // nothing staked
    let mut none = unstake_accounts(0, 7, 10);
    none.user_account.amount_staked = 0;
    assert!(!none.can_unstake(86_400));
    // the elapsed time overflows an i64
    let far = unstake_accounts(i64::MIN, 7, 10);
    assert!(!far.can_unstake(1));
    // the points total overflows a u32
    let full = unstake_accounts(0, u32::MAX, 10);
    assert!(!full.can_unstake(86_400));
    assert!(full.can_unstake(86_399));
    // a negative elapsed time wraps to a huge day count
    let early = unstake_accounts(86_400, 0, 10);
    assert!(!early.can_unstake(0));
    let mut early_no_points = unstake_accounts(86_400, 0, 0);
    assert!(early_no_points.can_unstake(0));
    early_no_points.unstake(0);
    assert_eq!(early_no_points.user_account.points, 0);
}

#[test]
fn fee_range() {
    assert!(purchase(1_000, 250).fee_in_range());
    assert!(!purchase(u64::MAX, 2).fee_in_range());
    assert!(purchase(u64::MAX, 1).fee_in_range());
}
