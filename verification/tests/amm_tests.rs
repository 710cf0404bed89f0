use anchor_programs::accounts::{Mint, Pubkey, TokenAccount};
use anchor_programs::amm::{AmmError, Config, Deposit, Withdraw, XYAmounts};

fn key(b: u8) -> Pubkey {
    Pubkey { bytes: [b; 32] }
}

fn config(locked: bool) -> Config {
    Config {
        seed: 0x0102_0304_0506_0708,
        locked,
        mint_x: key(2),
        mint_y: key(3),
        authority: None,
        fees: 30,
        lp_bump: 254,
        config_bump: 253,
    }
}

fn deposit_accounts(locked: bool, supply: u64, vx: u64, vy: u64) -> Deposit {
    Deposit {
        lp_provider: key(1),
        mint_x: Mint { key: key(2), decimals: 6, supply: 1_000_000 },
        mint_y: Mint { key: key(3), decimals: 9, supply: 1_000_000 },
        config: config(locked),
        config_key: key(4),
        mint_lp: Mint { key: key(5), decimals: 6, supply },
        vault_x: TokenAccount { key: key(6), amount: vx },
        vault_y: TokenAccount { key: key(7), amount: vy },
        lp_provider_ata_x: TokenAccount { key: key(8), amount: 500 },
        lp_provider_ata_y: TokenAccount { key: key(9), amount: 500 },
        lp_provider_ata_lp: TokenAccount { key: key(10), amount: 0 },
    }
}

fn withdraw_accounts(locked: bool) -> Withdraw {
    let d = deposit_accounts(locked, 100, 1000, 2000);
    Withdraw {
        lp_provider: d.lp_provider,
        mint_x: d.mint_x,
        mint_y: d.mint_y,
        config: d.config,
        config_key: d.config_key,
        mint_lp: d.mint_lp,
        vault_x: d.vault_x,
        vault_y: d.vault_y,
        lp_provider_ata_x: d.lp_provider_ata_x,
        lp_provider_ata_y: d.lp_provider_ata_y,
        lp_provider_ata_lp: d.lp_provider_ata_lp,
    }
}

fn config_seeds() -> Vec<Vec<u8>> {
    vec![
        b"config".to_vec(),
        vec![2u8; 32],
        vec![2u8; 32],
        vec![1, 2, 3, 4, 5, 6, 7, 8],
    ]
}

#[test]
fn first_deposit_takes_the_maxima() {
    let d = deposit_accounts(false, 0, 0, 0);
    assert!(!d.needs_quote(10));
    let plan = d.deposit(70, 40, 10, None).unwrap();
    assert_eq!(plan.transfer_x.amount, 40);
    assert_eq!(plan.transfer_y.amount, 70);
    assert_eq!(plan.mint_lp.amount, 10);
}

#[test]
fn deposit_uses_the_quote_on_a_funded_pool() {
    let d = deposit_accounts(false, 100, 1000, 2000);
    assert!(d.needs_quote(10));
    let q = XYAmounts { x: 100, y: 200 };
    let plan = d.deposit(250, 150, 10, Some(q)).unwrap();
    assert_eq!(plan.transfer_x.amount, 100);
    assert_eq!(plan.transfer_y.amount, 200);
    // transfers go from the provider into the vaults
    assert_eq!(plan.transfer_x.from.bytes, [8u8; 32]);
    assert_eq!(plan.transfer_x.to.bytes, [6u8; 32]);
    assert_eq!(plan.transfer_x.mint.bytes, [2u8; 32]);
    assert_eq!(plan.transfer_x.authority.bytes, [1u8; 32]);
    assert_eq!(plan.transfer_x.decimals, 6);
    assert!(plan.transfer_x.signer_seeds.is_empty());
    assert_eq!(plan.transfer_y.from.bytes, [9u8; 32]);
    assert_eq!(plan.transfer_y.to.bytes, [7u8; 32]);
    assert_eq!(plan.transfer_y.mint.bytes, [3u8; 32]);
    assert_eq!(plan.transfer_y.decimals, 9);
    // the LP mint is signed by the config account
    assert_eq!(plan.mint_lp.mint.bytes, [5u8; 32]);
    assert_eq!(plan.mint_lp.to.bytes, [10u8; 32]);
    assert_eq!(plan.mint_lp.authority.bytes, [4u8; 32]);
    assert_eq!(plan.mint_lp.signer_seeds, config_seeds());
}

#[test]
fn deposit_of_zero_lp_is_invalid() {
    let d = deposit_accounts(true, 100, 1000, 2000);
    assert!(!d.needs_quote(0));
    assert_eq!(d.deposit(1, 1, 0, None).err(), Some(AmmError::InvalidAmount));
}

#[test]
fn deposit_into_locked_pool_is_refused() {
    let d = deposit_accounts(true, 100, 1000, 2000);
    assert!(!d.needs_quote(5));
    assert_eq!(d.deposit(1000, 1000, 5, None).err(), Some(AmmError::AMMLocked));
}

#[test]
fn deposit_above_max_x_is_refused() {
    let d = deposit_accounts(false, 100, 1000, 2000);
    let q = XYAmounts { x: 101, y: 1 };
    assert_eq!(d.deposit(1000, 100, 10, Some(q)).err(), Some(AmmError::InsufficientTokenX));
}

#[test]
fn deposit_above_max_y_is_refused() {
    let d = deposit_accounts(false, 100, 1000, 2000);
    let q = XYAmounts { x: 100, y: 201 };
    assert_eq!(d.deposit(200, 100, 10, Some(q)).err(), Some(AmmError::InsufficientTokenY));
}

#[test]
fn deposit_at_exactly_the_maxima_goes_through() {
    let d = deposit_accounts(false, 100, 1000, 2000);
    let q = XYAmounts { x: 100, y: 200 };
    assert!(d.deposit(200, 100, 10, Some(q)).is_ok());
}

#[test]
fn deposit_tokens_routes_by_token() {
    let d = deposit_accounts(false, 0, 0, 0);
    let y = d.deposit_tokens(false, 33);
    assert_eq!(y.amount, 33);
    assert_eq!(y.from.bytes, [9u8; 32]);
    assert_eq!(y.to.bytes, [7u8; 32]);
}

#[test]
fn withdraw_pays_the_quote_and_burns_lp() {
    let w = withdraw_accounts(false);
    assert!(w.needs_quote(10));
    let q = XYAmounts { x: 100, y: 200 };
    let plan = w.withdraw(10, 100, 200, Some(q)).unwrap();
    assert_eq!(plan.transfer_x.amount, 100);
    assert_eq!(plan.transfer_y.amount, 200);
    assert_eq!(plan.transfer_x.from.bytes, [6u8; 32]);
    assert_eq!(plan.transfer_x.to.bytes, [8u8; 32]);
    assert_eq!(plan.transfer_x.authority.bytes, [4u8; 32]);
    assert_eq!(plan.transfer_y.from.bytes, [7u8; 32]);
    assert_eq!(plan.transfer_y.to.bytes, [9u8; 32]);
    assert_eq!(plan.transfer_y.signer_seeds, config_seeds());
    assert_eq!(plan.burn_lp.amount, 10);
    assert_eq!(plan.burn_lp.mint.bytes, [5u8; 32]);
    assert_eq!(plan.burn_lp.from.bytes, [10u8; 32]);
    assert_eq!(plan.burn_lp.authority.bytes, [1u8; 32]);
}

#[test]
fn withdraw_errors() {
    let w = withdraw_accounts(false);
    let q = XYAmounts { x: 100, y: 200 };
    assert_eq!(w.withdraw(0, 0, 0, None).err(), Some(AmmError::InvalidAmount));
    assert_eq!(w.withdraw(10, 101, 0, Some(q)).err(), Some(AmmError::InsufficientTokenX));
    assert_eq!(w.withdraw(10, 100, 201, Some(q)).err(), Some(AmmError::InsufficientTokenY));
    let locked = withdraw_accounts(true);
    assert!(!locked.needs_quote(10));
    assert_eq!(locked.withdraw(10, 0, 0, None).err(), Some(AmmError::AMMLocked));
}
