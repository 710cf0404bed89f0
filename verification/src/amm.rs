//! Constant-product AMM: liquidity deposits and withdrawals.
//!
//! The amounts of token x and token y that a deposit or withdrawal of a
//! given amount of LP tokens moves are quoted by the constant-product curve
//! (`ConstantProduct::xy_deposit_amounts_from_l` and
//! `ConstantProduct::xy_withdraw_amounts_from_l`, called with precision 6).
//! The functions here take that quote as an argument: `needs_quote` says
//! exactly when the program asks the curve for one.

use vstd::prelude::*;
use crate::accounts::{
    Pubkey, Mint, TokenAccount, seeds_view, tag_config, tag_config_seed, u64_be_bytes, u64_be_seed,
};
use crate::cpi::{TransferChecked, MintTo, Burn};

verus! {

/// The pool's configuration account.
#[derive(Clone, Copy)]
pub struct Config {
    pub seed: u64,
    pub locked: bool,
    pub mint_x: Pubkey,
    pub mint_y: Pubkey,
    pub authority: Option<Pubkey>,
    pub fees: u16,
    pub lp_bump: u8,
    pub config_bump: u8,
}

/// Why a deposit or withdrawal is refused.
#[derive(Clone, Copy, Debug, PartialEq, Eq, Structural)]
pub enum AmmError {
    InvalidAmount,
    AMMLocked,
    InsufficientTokenX,
    InsufficientTokenY,
}

/// Amounts of token x and token y.
#[derive(Clone, Copy, Debug, PartialEq, Eq, Structural)]
pub struct XYAmounts {
    pub x: u64,
    pub y: u64,
}

/// The signer seeds with which the pool's config account signs: the tag,
/// the address of mint x twice (the address of mint y does not appear), and
/// the big-endian config seed, with no bump.
pub open spec fn config_signer_seeds(mint_x: Pubkey, seed: u64) -> Seq<Seq<u8>> {
    seq![tag_config(), mint_x@, mint_x@, u64_be_bytes(seed)]
}

fn make_config_signer_seeds(mint_x: &Pubkey, seed: u64) -> (r: Vec<Vec<u8>>)
    ensures
        seeds_view(r@) == config_signer_seeds(*mint_x, seed),
{
    let mut r: Vec<Vec<u8>> = Vec::new();
    r.push(tag_config_seed());
    r.push(mint_x.seed());
    r.push(mint_x.seed());
    r.push(u64_be_seed(seed));
    assert(seeds_view(r@) =~= config_signer_seeds(*mint_x, seed));
    r
}

/// The accounts that a deposit reads.
#[derive(Clone, Copy)]
pub struct Deposit {
    pub lp_provider: Pubkey,
    pub mint_x: Mint,
    pub mint_y: Mint,
    pub config: Config,
    pub config_key: Pubkey,
    pub mint_lp: Mint,
    pub vault_x: TokenAccount,
    pub vault_y: TokenAccount,
    pub lp_provider_ata_x: TokenAccount,
    pub lp_provider_ata_y: TokenAccount,
    pub lp_provider_ata_lp: TokenAccount,
}

/// The instructions a deposit issues, in order.
pub struct DepositPlan {
    pub transfer_x: TransferChecked,
    pub transfer_y: TransferChecked,
    pub mint_lp: MintTo,
}

impl Deposit {
    /// The pool has no LP supply and both vaults are empty.
    pub open spec fn is_first_deposit(&self) -> bool {
        self.mint_lp.supply == 0 && self.vault_x.amount == 0 && self.vault_y.amount == 0
    }

    /// The program asks the curve for a quote exactly when the request
    /// passes its first two checks and the pool is not empty.
    pub open spec fn quote_needed(&self, lp_amount: u64) -> bool {
        lp_amount > 0 && !self.config.locked && !self.is_first_deposit()
    }

    /// The amounts of x and y that a deposit asks for: the caller's maxima
    /// on the first deposit, the curve's quote otherwise.
    pub open spec fn requested(&self, max_y: u64, max_x: u64, quote: Option<XYAmounts>) -> XYAmounts {
        if self.is_first_deposit() {
            XYAmounts { x: max_x, y: max_y }
        } else {
            quote.unwrap()
        }
    }

    /// The outcome of a deposit: the amounts moved, or why it is refused.
    pub open spec fn deposit_result(
        &self,
        max_y: u64,
        max_x: u64,
        lp_amount: u64,
        quote: Option<XYAmounts>,
    ) -> Result<XYAmounts, AmmError> {
        let xy = self.requested(max_y, max_x, quote);
        if lp_amount == 0 {
            Err(AmmError::InvalidAmount)
        } else if self.config.locked {
            Err(AmmError::AMMLocked)
        } else if max_x < xy.x {
            Err(AmmError::InsufficientTokenX)
        } else if max_y < xy.y {
            Err(AmmError::InsufficientTokenY)
        } else {
            Ok(xy)
        }
    }

    /// `t` moves `amount` of token x (or y) from the provider to the vault.
    pub open spec fn is_deposit_transfer(&self, is_x: bool, amount: u64, t: TransferChecked) -> bool {
        &&& t.from == (if is_x { self.lp_provider_ata_x.key } else { self.lp_provider_ata_y.key })
        &&& t.mint == (if is_x { self.mint_x.key } else { self.mint_y.key })
        &&& t.to == (if is_x { self.vault_x.key } else { self.vault_y.key })
        &&& t.authority == self.lp_provider
        &&& t.amount == amount
        &&& t.decimals == (if is_x { self.mint_x.decimals } else { self.mint_y.decimals })
        &&& t.signer_seeds@.len() == 0
    }

    /// `m` mints `amount` LP tokens, signed by the config account.
    pub open spec fn is_lp_mint(&self, amount: u64, m: MintTo) -> bool {
        &&& m.mint == self.mint_lp.key
        &&& m.to == self.lp_provider_ata_lp.key
        &&& m.authority == self.config_key
        &&& m.amount == amount
        &&& seeds_view(m.signer_seeds@) == config_signer_seeds(self.mint_x.key, self.config.seed)
    }

    /// Whether the program asks the curve for a deposit quote.
    pub fn needs_quote(&self, lp_amount: u64) -> (r: bool)
        ensures
            r == self.quote_needed(lp_amount),
    {
        let first = self.mint_lp.supply == 0 && self.vault_x.amount == 0 && self.vault_y.amount
            == 0;
        lp_amount > 0 && !self.config.locked && !first
    }

    /// Deposits liquidity: `lp_amount` LP tokens are minted to the provider
    /// against at most `max_x` of token x and `max_y` of token y.
    pub fn deposit(&self, max_y: u64, max_x: u64, lp_amount: u64, quote: Option<XYAmounts>) -> (r:
        Result<DepositPlan, AmmError>)
        requires
            self.quote_needed(lp_amount) ==> quote is Some,
        ensures
            match r {
                Ok(plan) => {
                    &&& self.deposit_result(max_y, max_x, lp_amount, quote) == Ok::<
                        XYAmounts,
                        AmmError,
                    >(XYAmounts { x: plan.transfer_x.amount, y: plan.transfer_y.amount })
                    &&& self.is_deposit_transfer(true, plan.transfer_x.amount, plan.transfer_x)
                    &&& self.is_deposit_transfer(false, plan.transfer_y.amount, plan.transfer_y)
                    &&& self.is_lp_mint(lp_amount, plan.mint_lp)
                    &&& self.is_first_deposit() ==> plan.transfer_x.amount == max_x
                        && plan.transfer_y.amount == max_y
                    &&& !self.is_first_deposit() ==> quote == Some(
                        XYAmounts { x: plan.transfer_x.amount, y: plan.transfer_y.amount },
                    )
                    &&& plan.mint_lp.amount == lp_amount
                },
                Err(e) => self.deposit_result(max_y, max_x, lp_amount, quote) == Err::<
                    XYAmounts,
                    AmmError,
                >(e),
            },
    {
        if lp_amount == 0 {
            return Err(AmmError::InvalidAmount);
        }
        if self.config.locked {
            return Err(AmmError::AMMLocked);
        }
        let first = self.mint_lp.supply == 0 && self.vault_x.amount == 0 && self.vault_y.amount
            == 0;
        let (x, y) = if first {
            (max_x, max_y)
        } else {
            let q = quote.unwrap();
            (q.x, q.y)
        };
        if !(max_x >= x) {
            return Err(AmmError::InsufficientTokenX);
        }
        if !(max_y >= y) {
            return Err(AmmError::InsufficientTokenY);
        }
        let transfer_x = self.deposit_tokens(true, x);
        let transfer_y = self.deposit_tokens(false, y);
        let mint_lp = self.mint_lp_token(lp_amount);
        Ok(DepositPlan { transfer_x, transfer_y, mint_lp })
    }

    /// The transfer of `amount` of token x (`is_x`) or token y from the
    /// provider's token account into the pool's vault.
    pub fn deposit_tokens(&self, is_x: bool, amount: u64) -> (r: TransferChecked)
        ensures
            self.is_deposit_transfer(is_x, amount, r),
    {
        let (from, mint, to, decimals) = if is_x {
            (self.lp_provider_ata_x.key, self.mint_x.key, self.vault_x.key, self.mint_x.decimals)
        } else {
            (self.lp_provider_ata_y.key, self.mint_y.key, self.vault_y.key, self.mint_y.decimals)
        };
        TransferChecked {
            from,
            mint,
            to,
            authority: self.lp_provider,
            amount,
            decimals,
            signer_seeds: Vec::new(),
        }
    }

    /// The mint of `amount` LP tokens to the provider, signed by the config.
    pub fn mint_lp_token(&self, amount: u64) -> (r: MintTo)
        ensures
            self.is_lp_mint(amount, r),
    {
        MintTo {
            mint: self.mint_lp.key,
            to: self.lp_provider_ata_lp.key,
            authority: self.config_key,
            amount,
            signer_seeds: make_config_signer_seeds(&self.mint_x.key, self.config.seed),
        }
    }
}

/// The accounts that a withdrawal reads.
#[derive(Clone, Copy)]
pub struct Withdraw {
    pub lp_provider: Pubkey,
    pub mint_x: Mint,
    pub mint_y: Mint,
    pub config: Config,
    pub config_key: Pubkey,
    pub mint_lp: Mint,
    pub vault_x: TokenAccount,
    pub vault_y: TokenAccount,
    pub lp_provider_ata_x: TokenAccount,
    pub lp_provider_ata_y: TokenAccount,
    pub lp_provider_ata_lp: TokenAccount,
}

/// The instructions a withdrawal issues, in order.
pub struct WithdrawPlan {
    pub transfer_x: TransferChecked,
    pub transfer_y: TransferChecked,
    pub burn_lp: Burn,
}

impl Withdraw {
    /// The program asks the curve for a quote exactly when the request
    /// passes its first two checks.
    pub open spec fn quote_needed(&self, lp_amount: u64) -> bool {
        lp_amount > 0 && !self.config.locked
    }

    /// The outcome of a withdrawal: the amounts paid out, or why it is refused.
    pub open spec fn withdraw_result(
        &self,
        lp_amount: u64,
        min_x: u64,
        min_y: u64,
        quote: Option<XYAmounts>,
    ) -> Result<XYAmounts, AmmError> {
        let xy = quote.unwrap();
        if lp_amount == 0 {
            Err(AmmError::InvalidAmount)
        } else if self.config.locked {
            Err(AmmError::AMMLocked)
        } else if !(min_x <= xy.x) {
            Err(AmmError::InsufficientTokenX)
        } else if !(min_y <= xy.y) {
            Err(AmmError::InsufficientTokenY)
        } else {
            Ok(xy)
        }
    }

    /// `t` pays `amount` of token x (or y) from the vault to the provider,
    /// signed by the config account.
    pub open spec fn is_withdraw_transfer(&self, is_x: bool, amount: u64, t: TransferChecked) -> bool {
        &&& t.from == (if is_x { self.vault_x.key } else { self.vault_y.key })
        &&& t.to == (if is_x { self.lp_provider_ata_x.key } else { self.lp_provider_ata_y.key })
        &&& t.mint == (if is_x { self.mint_x.key } else { self.mint_y.key })
        &&& t.authority == self.config_key
        &&& t.amount == amount
        &&& t.decimals == (if is_x { self.mint_x.decimals } else { self.mint_y.decimals })
        &&& seeds_view(t.signer_seeds@) == config_signer_seeds(self.mint_x.key, self.config.seed)
    }

    /// `b` burns `amount` LP tokens from the provider's LP token account.
    pub open spec fn is_lp_burn(&self, amount: u64, b: Burn) -> bool {
        &&& b.mint == self.mint_lp.key
        &&& b.from == self.lp_provider_ata_lp.key
        &&& b.authority == self.lp_provider
        &&& b.amount == amount
    }

    /// Whether the program asks the curve for a withdrawal quote.
    pub fn needs_quote(&self, lp_amount: u64) -> (r: bool)
        ensures
            r == self.quote_needed(lp_amount),
    {
        lp_amount > 0 && !self.config.locked
    }

    /// Withdraws liquidity: `lp_amount` LP tokens are burned against at
    /// least `min_x` of token x and `min_y` of token y.
    pub fn withdraw(&self, lp_amount: u64, min_x: u64, min_y: u64, quote: Option<XYAmounts>) -> (r:
        Result<WithdrawPlan, AmmError>)
        requires
            self.quote_needed(lp_amount) ==> quote is Some,
        ensures
            match r {
                Ok(plan) => {
                    &&& self.withdraw_result(lp_amount, min_x, min_y, quote) == Ok::<
                        XYAmounts,
                        AmmError,
                    >(XYAmounts { x: plan.transfer_x.amount, y: plan.transfer_y.amount })
                    &&& self.is_withdraw_transfer(true, plan.transfer_x.amount, plan.transfer_x)
                    &&& self.is_withdraw_transfer(false, plan.transfer_y.amount, plan.transfer_y)
                    &&& self.is_lp_burn(lp_amount, plan.burn_lp)
                    &&& quote == Some(
                        XYAmounts { x: plan.transfer_x.amount, y: plan.transfer_y.amount },
                    )
                    &&& plan.burn_lp.amount == lp_amount
                },
                Err(e) => self.withdraw_result(lp_amount, min_x, min_y, quote) == Err::<
                    XYAmounts,
                    AmmError,
                >(e),
            },
    {
        if lp_amount == 0 {
            return Err(AmmError::InvalidAmount);
        }
        if self.config.locked {
            return Err(AmmError::AMMLocked);
        }
        let xy = quote.unwrap();
        if !(min_x <= xy.x) {
            return Err(AmmError::InsufficientTokenX);
        }
        if !(min_y <= xy.y) {
            return Err(AmmError::InsufficientTokenY);
        }
        let transfer_x = self.withdraw_tokens(true, xy.x);
        let transfer_y = self.withdraw_tokens(false, xy.y);
        let burn_lp = self.burn_lp_tokens(lp_amount);
        Ok(WithdrawPlan { transfer_x, transfer_y, burn_lp })
    }

    /// The transfer of `amount` of token x (`is_x`) or token y from the
    /// pool's vault to the provider, signed by the config account.
    pub fn withdraw_tokens(&self, is_x: bool, amount: u64) -> (r: TransferChecked)
        ensures
            self.is_withdraw_transfer(is_x, amount, r),
    {
        let (from, to, mint, decimals) = if is_x {
            (self.vault_x.key, self.lp_provider_ata_x.key, self.mint_x.key, self.mint_x.decimals)
        } else {
            (self.vault_y.key, self.lp_provider_ata_y.key, self.mint_y.key, self.mint_y.decimals)
        };
        TransferChecked {
            from,
            mint,
            to,
            authority: self.config_key,
            amount,
            decimals,
            signer_seeds: make_config_signer_seeds(&self.mint_x.key, self.config.seed),
        }
    }

    /// The burn of `amount` LP tokens from the provider's LP token account.
    pub fn burn_lp_tokens(&self, amount: u64) -> (r: Burn)
        ensures
            self.is_lp_burn(amount, r),
    {
        Burn {
            mint: self.mint_lp.key,
            from: self.lp_provider_ata_lp.key,
            authority: self.lp_provider,
            amount,
        }
    }
}


/// A deposit that goes through never takes more of either token than the
/// caller's maxima.
pub proof fn lemma_deposit_within_maxima(
    d: Deposit,
    max_y: u64,
    max_x: u64,
    lp_amount: u64,
    quote: Option<XYAmounts>,
)
    ensures
        d.deposit_result(max_y, max_x, lp_amount, quote) matches Ok(xy) ==> xy.x <= max_x && xy.y
            <= max_y,
{
}

/// A withdrawal that goes through pays at least the caller's minima of
/// both tokens.
pub proof fn lemma_withdraw_meets_minima(
    w: Withdraw,
    lp_amount: u64,
    min_x: u64,
    min_y: u64,
    quote: Option<XYAmounts>,
)
    ensures
        w.withdraw_result(lp_amount, min_x, min_y, quote) matches Ok(xy) ==> min_x <= xy.x && min_y
            <= xy.y,
{
}

/// A locked pool refuses every deposit and every withdrawal of a positive
/// LP amount with `AMMLocked`, whatever the quote, without asking the curve.
pub proof fn lemma_locked_pool_refuses(
    d: Deposit,
    w: Withdraw,
    lp_amount: u64,
    max_y: u64,
    max_x: u64,
    min_x: u64,
    min_y: u64,
    quote: Option<XYAmounts>,
)
    requires
        d.config.locked,
        w.config.locked,
        lp_amount > 0,
    ensures
        d.deposit_result(max_y, max_x, lp_amount, quote) == Err::<XYAmounts, AmmError>(
            AmmError::AMMLocked,
        ),
        w.withdraw_result(lp_amount, min_x, min_y, quote) == Err::<XYAmounts, AmmError>(
            AmmError::AMMLocked,
        ),
        !d.quote_needed(lp_amount),
        !w.quote_needed(lp_amount),
{
}

/// A zero LP amount is refused with `InvalidAmount` by deposits and
/// withdrawals alike, whether or not the pool is locked.
pub proof fn lemma_zero_lp_amount_refused(
    d: Deposit,
    w: Withdraw,
    max_y: u64,
    max_x: u64,
    min_x: u64,
    min_y: u64,
    quote: Option<XYAmounts>,
)
    ensures
        d.deposit_result(max_y, max_x, 0, quote) == Err::<XYAmounts, AmmError>(
            AmmError::InvalidAmount,
        ),
        w.withdraw_result(0, min_x, min_y, quote) == Err::<XYAmounts, AmmError>(
            AmmError::InvalidAmount,
        ),
{
}

/// The first deposit into an empty, unlocked pool needs no quote and takes
/// exactly the caller's maxima.
pub proof fn lemma_first_deposit_takes_maxima(
    d: Deposit,
    max_y: u64,
    max_x: u64,
    lp_amount: u64,
    quote: Option<XYAmounts>,
)
    requires
        d.is_first_deposit(),
        !d.config.locked,
        lp_amount > 0,
    ensures
        !d.quote_needed(lp_amount),
        d.deposit_result(max_y, max_x, lp_amount, quote) == Ok::<XYAmounts, AmmError>(
            XYAmounts { x: max_x, y: max_y },
        ),
{
}

/// A withdrawal pays out exactly the curve's quote: with a positive LP
/// amount, an unlocked pool and minima that the quote meets, the outcome is
/// the quote itself; and any withdrawal that goes through pays the quote.
pub proof fn lemma_withdraw_pays_quote(
    w: Withdraw,
    lp_amount: u64,
    min_x: u64,
    min_y: u64,
    q: XYAmounts,
)
    ensures
        (lp_amount > 0 && !w.config.locked && min_x <= q.x && min_y <= q.y) ==> w.withdraw_result(
            lp_amount,
            min_x,
            min_y,
            Some(q),
        ) == Ok::<XYAmounts, AmmError>(q),
        w.withdraw_result(lp_amount, min_x, min_y, Some(q)) matches Ok(paid) ==> paid == q,
        w.withdraw_result(lp_amount, min_x, min_y, Some(q)) is Ok <==> (lp_amount > 0
            && !w.config.locked && min_x <= q.x && min_y <= q.y),
{
}

/// On a funded pool a deposit takes exactly the curve's quote: with a
/// positive LP amount, an unlocked pool and maxima that cover the quote,
/// the outcome is the quote itself; any deposit that goes through takes the
/// quote; and the first deposit into an empty pool takes the maxima.
pub proof fn lemma_deposit_takes_quote(
    d: Deposit,
    max_y: u64,
    max_x: u64,
    lp_amount: u64,
    q: XYAmounts,
)
    ensures
        (!d.is_first_deposit() && lp_amount > 0 && !d.config.locked && q.x <= max_x && q.y
            <= max_y) ==> d.deposit_result(max_y, max_x, lp_amount, Some(q)) == Ok::<
            XYAmounts,
            AmmError,
        >(q),
        !d.is_first_deposit() ==> (d.deposit_result(max_y, max_x, lp_amount, Some(q)) matches Ok(
            taken,
        ) ==> taken == q),
        d.is_first_deposit() ==> (d.deposit_result(max_y, max_x, lp_amount, Some(q)) matches Ok(
            taken,
        ) ==> taken.x == max_x && taken.y == max_y),
        (d.mint_lp.supply > 0 || d.vault_x.amount > 0 || d.vault_y.amount > 0)
            ==> !d.is_first_deposit(),
        !d.is_first_deposit() ==> (d.deposit_result(max_y, max_x, lp_amount, Some(q)) is Ok <==> (
        lp_amount > 0 && !d.config.locked && q.x <= max_x && q.y <= max_y)),
{
}

/// Over the same accounts, a withdrawal transfer of a token is the mirror
/// of a deposit transfer of that token: the deposit moves it from the
/// provider's account into the token's vault, signed by the provider; the
/// withdrawal moves it from that vault back to the provider's account,
/// signed by the config account, under the same mint and decimals.
pub proof fn lemma_withdraw_mirrors_deposit(
    d: Deposit,
    w: Withdraw,
    is_x: bool,
    amount: u64,
    td: TransferChecked,
    tw: TransferChecked,
)
    requires
        d.lp_provider == w.lp_provider,
        d.mint_x == w.mint_x,
        d.mint_y == w.mint_y,
        d.config_key == w.config_key,
        d.vault_x == w.vault_x,
        d.vault_y == w.vault_y,
        d.lp_provider_ata_x == w.lp_provider_ata_x,
        d.lp_provider_ata_y == w.lp_provider_ata_y,
        d.is_deposit_transfer(is_x, amount, td),
        w.is_withdraw_transfer(is_x, amount, tw),
    ensures
        td.from == tw.to,
        td.to == tw.from,
        td.mint == tw.mint,
        td.decimals == tw.decimals,
        td.amount == tw.amount,
        td.to == (if is_x { d.vault_x.key } else { d.vault_y.key }),
        td.mint == (if is_x { d.mint_x.key } else { d.mint_y.key }),
        td.authority == d.lp_provider,
        tw.authority == w.config_key,
        td.signer_seeds@.len() == 0,
{
}

} // verus!
