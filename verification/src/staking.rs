//! NFT staking: an NFT is frozen in its owner's wallet while staked, and
//! unstaking earns points per whole day staked.

use vstd::prelude::*;
use crate::accounts::{Pubkey, MetadataCollection, seeds_view, tag_stake_account, tag_stake_account_seed, byte_seed};
use crate::cpi::{Approve, Revoke, DelegatedFreeze};

verus! {

/// Why a request is refused.
#[derive(Clone, Copy, Debug, PartialEq, Eq, Structural)]
pub enum StakeError {
    /// The user already stakes the maximum number of NFTs.
    MaxStakeReeached,
}

/// The staking configuration.
#[derive(Clone, Copy)]
pub struct StakeConfig {
    pub point_per_stake: u8,
    pub reward_bump: u8,
    pub bump: u8,
    pub freeze_period: u32,
    pub max_stake: u8,
}

/// The record of one staked NFT.
#[derive(Clone, Copy)]
pub struct StakeAccountState {
    pub nft_mint: Pubkey,
    pub owner: Pubkey,
    pub bump: u8,
    pub staked_at: i64,
}

/// A user's staking account.
#[derive(Clone, Copy)]
pub struct UserAccountState {
    pub bump: u8,
    pub amount_staked: u8,
    pub points: u32,
}

/// Seconds in a day.
pub const SECONDS_PER_DAY: i64 = 86400;

/// Rust's integer division, which rounds toward zero, for a positive divisor.
pub open spec fn trunc_div(a: int, b: int) -> int {
    if a >= 0 {
        a / b
    } else {
        -((-a) / b)
    }
}

/// The whole days between staking and `now`, computed as
/// the elapsed seconds divided by a day, rounded toward zero, cast to `u32`.
pub open spec fn staked_days(now: i64, staked_at: i64) -> u32 {
    trunc_div(now - staked_at, SECONDS_PER_DAY as int) as u32
}

/// The user's account after staking one more NFT.
pub open spec fn after_stake(u: UserAccountState) -> UserAccountState {
    UserAccountState { amount_staked: (u.amount_staked + 1) as u8, ..u }
}

/// The user's account after unstaking one NFT and earning `earned` points.
pub open spec fn after_unstake(u: UserAccountState, earned: int) -> UserAccountState {
    UserAccountState {
        amount_staked: (u.amount_staked - 1) as u8,
        points: (u.points + earned) as u32,
        ..u
    }
}

/// The stake account's signer seeds: the tag, the NFT mint's address, the
/// config's address and the stake account's bump.
pub open spec fn stake_signer_seeds(nft_mint: Pubkey, config_key: Pubkey, bump: u8) -> Seq<
    Seq<u8>,
> {
    seq![tag_stake_account(), nft_mint@, config_key@, seq![bump]]
}

fn make_stake_signer_seeds(nft_mint: &Pubkey, config_key: &Pubkey, bump: u8) -> (r: Vec<Vec<u8>>)
    ensures
        seeds_view(r@) == stake_signer_seeds(*nft_mint, *config_key, bump),
{
    let mut r: Vec<Vec<u8>> = Vec::new();
    r.push(tag_stake_account_seed());
    r.push(nft_mint.seed());
    r.push(config_key.seed());
    r.push(byte_seed(bump));
    assert(seeds_view(r@) =~= stake_signer_seeds(*nft_mint, *config_key, bump));
    r
}

/// The accounts that creating the configuration reads.
#[derive(Clone, Copy)]
pub struct InitializeConfig {
    pub payer: Pubkey,
}

impl InitializeConfig {
    /// The staking configuration.
    pub fn init(
        &self,
        points_per_stake: u8,
        freeze_period: u32,
        max_stake: u8,
        config_bump: u8,
        reward_bump: u8,
    ) -> (r: StakeConfig)
        ensures
            r.point_per_stake == points_per_stake,
            r.reward_bump == reward_bump,
            r.bump == config_bump,
            r.freeze_period == freeze_period,
            r.max_stake == max_stake,
    {
        StakeConfig {
            point_per_stake: points_per_stake,
            reward_bump,
            bump: config_bump,
            freeze_period,
            max_stake,
        }
    }
}

/// The collection checks on the NFT's metadata that staking and
/// unstaking make: it names the expected collection, and that collection
/// is verified.
pub open spec fn collection_ok(collection: MetadataCollection, collection_mint: Pubkey) -> bool {
    collection.key == collection_mint && collection.verified
}

fn check_collection(collection: &Option<MetadataCollection>, collection_mint: &Pubkey) -> (r: bool)
    requires
        collection is Some,
    ensures
        r == collection_ok(collection.unwrap(), *collection_mint),
        r == (collection.unwrap().key == *collection_mint && collection.unwrap().verified),
{
    let c = collection.unwrap();
    c.key.same_key(collection_mint) && c.verified == true
}

/// The accounts that staking reads and writes.
#[derive(Clone, Copy)]
pub struct Stake {
    pub user: Pubkey,
    pub nft_mint: Pubkey,
    pub collection_mint: Pubkey,
    pub metadata_collection: Option<MetadataCollection>,
    pub nft_mint_ata: Pubkey,
    pub edition: Pubkey,
    pub config: StakeConfig,
    pub config_key: Pubkey,
    pub user_account: UserAccountState,
    pub user_account_key: Pubkey,
    pub stake_account_key: Pubkey,
}

/// What staking records and issues, in order.
pub struct StakePlan {
    pub stake_account: StakeAccountState,
    pub approve: Approve,
    pub freeze: DelegatedFreeze,
}

impl Stake {
    /// Whether the NFT's metadata passes the collection checks.
    pub fn check_collection(&self) -> (r: bool)
        requires
            self.metadata_collection is Some,
        ensures
            r == collection_ok(self.metadata_collection.unwrap(), self.collection_mint),
            r == (self.metadata_collection.unwrap().key == self.collection_mint
                && self.metadata_collection.unwrap().verified),
    {
        check_collection(&self.metadata_collection, &self.collection_mint)
    }

    /// Stakes the NFT at time `now`: counts it on the user's account, records
    /// the stake, delegates the NFT to the stake account and freezes it.
    /// Refused when the user already stakes `max_stake` NFTs, and then
    /// nothing changes.
    pub fn stake(&mut self, stake_bump: u8, now: i64) -> (r: Result<StakePlan, StakeError>)
        ensures
            (old(self).user_account.amount_staked < old(self).config.max_stake) <==> r is Ok,
            r is Err ==> r == Err::<StakePlan, StakeError>(StakeError::MaxStakeReeached)
                && *final(self) == *old(self),
            r matches Ok(p) ==> {
                &&& *final(self) == (Stake {
                    user_account: after_stake(old(self).user_account),
                    ..*old(self)
                })
                &&& final(self).user_account.amount_staked == old(self).user_account.amount_staked + 1
                &&& final(self).user_account.points == old(self).user_account.points
                &&& final(self).user_account.bump == old(self).user_account.bump
                &&& p.stake_account.nft_mint == old(self).nft_mint
                &&& p.stake_account.owner == old(self).user
                &&& p.stake_account.bump == stake_bump
                &&& p.stake_account.staked_at == now
                &&& p.approve.to == old(self).nft_mint_ata
                &&& p.approve.delegate == old(self).stake_account_key
                &&& p.approve.authority == old(self).user_account_key
                &&& p.approve.amount == 1
                &&& p.freeze.freeze
                &&& p.freeze.delegate == old(self).stake_account_key
                &&& p.freeze.token_account == old(self).nft_mint_ata
                &&& p.freeze.edition == old(self).edition
                &&& p.freeze.mint == old(self).nft_mint
                &&& seeds_view(p.freeze.signer_seeds@) == stake_signer_seeds(
                    old(self).nft_mint,
                    old(self).config_key,
                    stake_bump,
                )
            },
    {
        if !(self.user_account.amount_staked < self.config.max_stake) {
            return Err(StakeError::MaxStakeReeached);
        }
        self.user_account.amount_staked = self.user_account.amount_staked + 1;
        let stake_account = StakeAccountState {
            nft_mint: self.nft_mint,
            owner: self.user,
            bump: stake_bump,
            staked_at: now,
        };
        let approve = Approve {
            to: self.nft_mint_ata,
            delegate: self.stake_account_key,
            authority: self.user_account_key,
            amount: 1,
        };
        let freeze = DelegatedFreeze {
            freeze: true,
            delegate: self.stake_account_key,
            token_account: self.nft_mint_ata,
            edition: self.edition,
            mint: self.nft_mint,
            signer_seeds: make_stake_signer_seeds(&self.nft_mint, &self.config_key, stake_bump),
        };
        Ok(StakePlan { stake_account, approve, freeze })
    }
}

/// The accounts that unstaking reads and writes.
#[derive(Clone, Copy)]
pub struct Unstake {
    pub user: Pubkey,
    pub nft_mint: Pubkey,
    pub collection_mint: Pubkey,
    pub metadata_collection: Option<MetadataCollection>,
    pub nft_mint_ata: Pubkey,
    pub edition: Pubkey,
    pub config: StakeConfig,
    pub config_key: Pubkey,
    pub user_account: UserAccountState,
    pub stake_account: StakeAccountState,
    pub stake_account_key: Pubkey,
}

/// What unstaking issues, in order.
pub struct UnstakePlan {
    pub thaw: DelegatedFreeze,
    pub revoke: Revoke,
}

impl Unstake {
    /// Whether the NFT's metadata passes the collection checks.
    pub fn check_collection(&self) -> (r: bool)
        requires
            self.metadata_collection is Some,
        ensures
            r == collection_ok(self.metadata_collection.unwrap(), self.collection_mint),
            r == (self.metadata_collection.unwrap().key == self.collection_mint
                && self.metadata_collection.unwrap().verified),
    {
        check_collection(&self.metadata_collection, &self.collection_mint)
    }

    /// The points that unstaking at `now` earns: whole days staked times
    /// the configured points per stake.
    pub open spec fn earned(&self, now: i64) -> int {
        staked_days(now, self.stake_account.staked_at) * self.config.point_per_stake
    }

    /// Unstaking at `now` stays within the accounts' integer ranges: an NFT
    /// is counted as staked, the elapsed time fits in an `i64`, and the
    /// points earned and the new points total fit in a `u32`.  Outside
    /// these limits the program aborts on overflow.
    pub open spec fn within_limits(&self, now: i64) -> bool {
        &&& self.user_account.amount_staked >= 1
        &&& i64::MIN <= now - self.stake_account.staked_at <= i64::MAX
        &&& self.earned(now) <= u32::MAX
        &&& self.user_account.points + self.earned(now) <= u32::MAX
    }

    /// Whether unstaking at `now` stays within the accounts' integer ranges.
    pub fn can_unstake(&self, now: i64) -> (r: bool)
        ensures
            r == self.within_limits(now),
    {
        if self.user_account.amount_staked < 1 {
            return false;
        }
        let elapsed: i64 = match now.checked_sub(self.stake_account.staked_at) {
            Some(e) => e,
            None => {
                return false;
            },
        };
        let days: u32 = (elapsed / SECONDS_PER_DAY) as u32;
        let per_stake: u32 = self.config.point_per_stake as u32;
        let earned: u32 = match days.checked_mul(per_stake) {
            Some(e) => e,
            None => {
                return false;
            },
        };
        self.user_account.points.checked_add(earned).is_some()
    }

    /// Unstakes the NFT at time `now`: uncounts it on the user's account,
    /// thaws it, credits the points earned and revokes the delegation.
    pub fn unstake(&mut self, now: i64) -> (r: UnstakePlan)
        requires
            old(self).within_limits(now),
        ensures
            *final(self) == (Unstake {
                user_account: after_unstake(old(self).user_account, old(self).earned(now)),
                ..*old(self)
            }),
            final(self).user_account.amount_staked == old(self).user_account.amount_staked - 1,
            final(self).user_account.points == old(self).user_account.points + old(self).earned(now),
            final(self).user_account.bump == old(self).user_account.bump,
            r.thaw.freeze == false,
            r.thaw.delegate == old(self).stake_account_key,
            r.thaw.token_account == old(self).nft_mint_ata,
            r.thaw.edition == old(self).edition,
            r.thaw.mint == old(self).nft_mint,
            seeds_view(r.thaw.signer_seeds@) == stake_signer_seeds(
                old(self).nft_mint,
                old(self).config_key,
                old(self).stake_account.bump,
            ),
            ({
                let e = now - old(self).stake_account.staked_at;
                let days = e / (SECONDS_PER_DAY as int);
                0 <= e && days <= u32::MAX ==> final(self).user_account.points == old(self).user_account.points + days * old(self).config.point_per_stake
            }),
            r.revoke.source == old(self).nft_mint_ata,
            r.revoke.authority == old(self).user,
    {
        self.user_account.amount_staked = self.user_account.amount_staked - 1;
        let thaw = DelegatedFreeze {
            freeze: false,
            delegate: self.stake_account_key,
            token_account: self.nft_mint_ata,
            edition: self.edition,
            mint: self.nft_mint,
            signer_seeds: make_stake_signer_seeds(
                &self.nft_mint,
                &self.config_key,
                self.stake_account.bump,
            ),
        };
        let elapsed: i64 = now - self.stake_account.staked_at;
        let days: u32 = (elapsed / SECONDS_PER_DAY) as u32;
        let per_stake: u32 = self.config.point_per_stake as u32;
        self.user_account.points = self.user_account.points + days * per_stake;
        let revoke = Revoke { source: self.nft_mint_ata, authority: self.user };
        UnstakePlan { thaw, revoke }
    }
}

/// Staking an NFT and unstaking it again leaves the user's count of staked
/// NFTs where it was, and adds exactly the points earned.
pub proof fn lemma_stake_unstake_round_trip(u: UserAccountState, max_stake: u8, earned: int)
    requires
        u.amount_staked < max_stake,
        0 <= earned,
        u.points + earned <= u32::MAX,
    ensures
        after_unstake(after_stake(u), earned).amount_staked == u.amount_staked,
        after_unstake(after_stake(u), earned).points == u.points + earned,
        after_unstake(after_stake(u), earned).bump == u.bump,
{
}

/// Staking keeps a user's count of staked NFTs at most the configured
/// maximum: a stake that goes through starts below it.
pub proof fn lemma_stake_respects_max(u: UserAccountState, max_stake: u8)
    requires
        u.amount_staked < max_stake,
    ensures
        after_stake(u).amount_staked <= max_stake,
        after_stake(u).amount_staked == u.amount_staked + 1,
{
}

/// The staked days are the whole days elapsed: for a stake that started no
/// later than `now` (and a day count that fits in a `u32`), that many days
/// fit in the elapsed time and one more does not.
pub proof fn lemma_staked_days_are_whole_days(now: i64, staked_at: i64)
    requires
        staked_at <= now,
        (now - staked_at) / SECONDS_PER_DAY as int <= u32::MAX,
    ensures
        staked_days(now, staked_at) * SECONDS_PER_DAY <= now - staked_at,
        now - staked_at < (staked_days(now, staked_at) + 1) * SECONDS_PER_DAY,
        staked_days(now, staked_at) == (now - staked_at) / SECONDS_PER_DAY as int,
{
    let e: int = now - staked_at;
    vstd::arithmetic::div_mod::lemma_fundamental_div_mod(e, SECONDS_PER_DAY as int);
    assert(trunc_div(e, SECONDS_PER_DAY as int) == e / (SECONDS_PER_DAY as int));
}

/// Unstaking earns the configured points for each whole day staked.
pub proof fn lemma_unstake_earns_per_whole_day(u: Unstake, now: i64)
    requires
        u.stake_account.staked_at <= now,
        (now - u.stake_account.staked_at) / SECONDS_PER_DAY as int <= u32::MAX,
    ensures
        u.earned(now) == ((now - u.stake_account.staked_at) / SECONDS_PER_DAY as int)
            * u.config.point_per_stake,
{
    lemma_staked_days_are_whole_days(now, u.stake_account.staked_at);
}

/// The collection check passes exactly when the metadata names the
/// configured collection and that collection is verified.
pub proof fn lemma_collection_check(c: MetadataCollection, collection_mint: Pubkey)
    ensures
        collection_ok(c, collection_mint) ==> c.key == collection_mint && c.verified,
        c.key == collection_mint && c.verified ==> collection_ok(c, collection_mint),
        c.key != collection_mint ==> !collection_ok(c, collection_mint),
        !c.verified ==> !collection_ok(c, collection_mint),
{
}

/// `trunc_div` is division rounded toward zero: the quotient times the
/// divisor lies between zero and the dividend, within one divisor of it.
pub proof fn lemma_trunc_div_rounds_toward_zero(a: int, b: int)
    requires
        b > 0,
    ensures
        a >= 0 ==> 0 <= trunc_div(a, b) * b <= a < (trunc_div(a, b) + 1) * b,
        a < 0 ==> (trunc_div(a, b) - 1) * b < a <= trunc_div(a, b) * b <= 0,
{
    if a >= 0 {
        vstd::arithmetic::div_mod::lemma_fundamental_div_mod(a, b);
        vstd::arithmetic::div_mod::lemma_div_pos_is_pos(a, b);
        vstd::arithmetic::mul::lemma_mul_nonnegative(a / b, b);
        assert((a / b + 1) * b == (a / b) * b + b) by (nonlinear_arith);
    } else {
        let n = -a;
        vstd::arithmetic::div_mod::lemma_fundamental_div_mod(n, b);
        vstd::arithmetic::div_mod::lemma_div_pos_is_pos(n, b);
        vstd::arithmetic::mul::lemma_mul_nonnegative(n / b, b);
        assert((-(n / b)) * b == -((n / b) * b)) by (nonlinear_arith);
        assert((-(n / b) - 1) * b == -((n / b) * b) - b) by (nonlinear_arith);
    }
}

} // verus!
