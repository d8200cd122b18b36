use fee_vault::{
    deposit_fees, initialize, record_swap_receipt, set_config, toggle_pause, ConfigParams,
    DepositFees, FeeVault, FeeVaultError, Initialize, Pubkey, RecordSwapReceipt, SetConfig,
    TogglePause, VaultEvent,
};

fn key(n: u8) -> Pubkey {
    let mut bytes = [0u8; 32];
    bytes[0] = n;
    bytes[31] = n.wrapping_mul(3);
    Pubkey::new(bytes)
}

const AUTHORITY: u8 = 1;
const KEEPER: u8 = 2;
const GUARDIAN: u8 = 3;
const STRANGER: u8 = 9;

fn policy(buyback: u8, lp: u8, burn: u8, slippage: u16) -> ConfigParams {
    ConfigParams {
        cycle_seconds: 86400,
        min_swap_sol: 1_000_000,
        max_spend_sol: 10_000_000,
        max_slippage_bps: slippage,
        split_buyback: buyback,
        split_lp: lp,
        split_burn: burn,
        cooldown_seconds: 3600,
    }
}

fn standard_policy() -> ConfigParams {
    policy(50, 30, 20, 500)
}

fn fresh_vault() -> FeeVault {
    let ctx = Initialize { payer: key(AUTHORITY), vault_authority: key(AUTHORITY), bump: 254 };
    initialize(&ctx, key(KEEPER), key(GUARDIAN), standard_policy(), 1_700_000_000).unwrap()
}

fn deposit(vault: FeeVault, sol: u64, usdc: u64) -> (FeeVault, Result<(), FeeVaultError>, Vec<VaultEvent>) {
    let mut ctx = DepositFees { depositor: key(STRANGER), fee_vault: vault };
    let mut log = Vec::new();
    let r = deposit_fees(&mut ctx, &mut log, sol, usdc, 1_700_000_100);
    (ctx.fee_vault, r, log)
}

fn toggle(vault: FeeVault, signer: u8, log: &mut Vec<VaultEvent>, now: i64) -> (FeeVault, Result<(), FeeVaultError>) {
    let mut ctx = TogglePause { pause_guardian: key(signer), fee_vault: vault };
    let r = toggle_pause(&mut ctx, log, now);
    (ctx.fee_vault, r)
}

fn swap(vault: FeeVault, signer: u8, now: i64) -> (FeeVault, Result<(), FeeVaultError>, Vec<VaultEvent>) {
    let mut ctx = RecordSwapReceipt { keeper: key(signer), fee_vault: vault };
    let mut log = Vec::new();
    let r = record_swap_receipt(
        &mut ctx,
        &mut log,
        "SOL".to_string(),
        1_000_000,
        "TOKEN".to_string(),
        42_000,
        (0.042f64).to_bits(),
        35,
        now,
    );
    (ctx.fee_vault, r, log)
}

fn configure(vault: FeeVault, signer: u8, config: ConfigParams) -> (FeeVault, Result<(), FeeVaultError>, Vec<VaultEvent>) {
    let mut ctx = SetConfig { admin: key(signer), fee_vault: vault };
    let mut log = Vec::new();
    let r = set_config(&mut ctx, &mut log, config, 1_700_000_500);
    (ctx.fee_vault, r, log)
}

#[test]
fn initialize_scenario() {
    let v = fresh_vault();
    assert_eq!(v.fee_balance_sol, 0);
    assert_eq!(v.fee_balance_usdc, 0);
    assert!(!v.is_paused);
    assert!(v.vault_authority == key(AUTHORITY));
    assert!(v.keeper_role == key(KEEPER));
    assert!(v.pause_guardian == key(GUARDIAN));
    assert_eq!(v.config, standard_policy());
    assert_eq!(v.last_swap_time, 1_700_000_000);
    assert_eq!(v.bump, 254);
}

#[test]
fn initialize_rejects_bad_split() {
    let ctx = Initialize { payer: key(AUTHORITY), vault_authority: key(AUTHORITY), bump: 1 };
    let r = initialize(&ctx, key(KEEPER), key(GUARDIAN), policy(50, 30, 10, 500), 0);
    assert_eq!(r.unwrap_err(), FeeVaultError::InvalidConfig);
}

#[test]
fn initialize_rejects_high_slippage() {
    let ctx = Initialize { payer: key(AUTHORITY), vault_authority: key(AUTHORITY), bump: 1 };
    let r = initialize(&ctx, key(KEEPER), key(GUARDIAN), policy(50, 30, 20, 5001), 0);
    assert_eq!(r.unwrap_err(), FeeVaultError::InvalidConfig);
}

#[test]
fn validate_edges() {
    assert!(policy(100, 0, 0, 5000).validate());
    assert!(policy(0, 0, 100, 0).validate());
    assert!(!policy(50, 30, 20, 5001).validate());
    assert!(!policy(50, 30, 19, 500).validate());
    assert!(!policy(255, 255, 255, 0).validate());
    assert!(!policy(60, 30, 20, 500).validate());
}

#[test]
fn deposit_scenario() {
    let (v, r, log) = deposit(fresh_vault(), 5_000_000, 2_000_000);
    assert_eq!(r, Ok(()));
    assert_eq!(v.fee_balance_sol, 5_000_000);
    assert_eq!(v.fee_balance_usdc, 2_000_000);
    assert_eq!(log.len(), 1);
    match &log[0] {
        VaultEvent::FeeDeposited(e) => {
            assert!(e.depositor == key(STRANGER));
            assert_eq!(e.amount_sol, 5_000_000);
            assert_eq!(e.amount_usdc, 2_000_000);
            assert_eq!(e.timestamp, 1_700_000_100);
        }
        other => panic!("unexpected event {:?}", other),
    }
}

#[test]
fn deposits_combine() {
    let (v1, r1, _) = deposit(fresh_vault(), 3, 40);
    let (v2, r2, _) = deposit(v1, 7, 60);
    let (w, r3, _) = deposit(fresh_vault(), 10, 100);
    assert_eq!((r1, r2, r3), (Ok(()), Ok(()), Ok(())));
    assert_eq!((v2.fee_balance_sol, v2.fee_balance_usdc), (10, 100));
    assert_eq!((w.fee_balance_sol, w.fee_balance_usdc), (10, 100));
}

#[test]
fn deposit_up_to_max_succeeds() {
    let (v, r, _) = deposit(fresh_vault(), u64::MAX, u64::MAX);
    assert_eq!(r, Ok(()));
    assert_eq!(v.fee_balance_sol, u64::MAX);
    assert_eq!(v.fee_balance_usdc, u64::MAX);
}

#[test]
fn deposit_sol_overflow_changes_nothing() {
    let (v, _, _) = deposit(fresh_vault(), u64::MAX - 5, 11);
    let (w, r, log) = deposit(v, 6, 1);
    assert_eq!(r, Err(FeeVaultError::Overflow));
    assert_eq!(w.fee_balance_sol, u64::MAX - 5);
    assert_eq!(w.fee_balance_usdc, 11);
    assert!(log.is_empty());
}

#[test]
fn deposit_usdc_overflow_changes_nothing() {
    let (v, _, _) = deposit(fresh_vault(), 4, u64::MAX);
    let (w, r, log) = deposit(v, 1, 1);
    assert_eq!(r, Err(FeeVaultError::Overflow));
    assert_eq!(w.fee_balance_sol, 4);
    assert_eq!(w.fee_balance_usdc, u64::MAX);
    assert!(log.is_empty());
}

#[test]
fn toggle_twice_restores() {
    let v = fresh_vault();
    let mut log = Vec::new();
    let (v1, r1) = toggle(v, GUARDIAN, &mut log, 10);
    assert_eq!(r1, Ok(()));
    assert!(v1.is_paused);
    let (v2, r2) = toggle(v1, GUARDIAN, &mut log, 20);
    assert_eq!(r2, Ok(()));
    assert!(!v2.is_paused);
    assert_eq!(log.len(), 2);
    match (&log[0], &log[1]) {
        (VaultEvent::PauseToggled(a), VaultEvent::PauseToggled(b)) => {
            assert!(a.is_paused);
            assert_eq!(a.timestamp, 10);
            assert!(!b.is_paused);
            assert_eq!(b.timestamp, 20);
        }
        other => panic!("unexpected events {:?}", other),
    }
}

#[test]
fn paused_vault_blocks_deposit_and_receipt() {
    let mut log = Vec::new();
    let (paused, _) = toggle(fresh_vault(), GUARDIAN, &mut log, 10);
    let (v, r, dlog) = deposit(paused, 1, 1);
    assert_eq!(r, Err(FeeVaultError::VaultPaused));
    assert_eq!((v.fee_balance_sol, v.fee_balance_usdc), (0, 0));
    assert!(dlog.is_empty());
    let (w, r, slog) = swap(paused, KEEPER, 99);
    assert_eq!(r, Err(FeeVaultError::VaultPaused));
    assert_eq!(w.last_swap_time, 1_700_000_000);
    assert!(slog.is_empty());
}

#[test]
fn admin_operations_work_while_paused() {
    let mut log = Vec::new();
    let (paused, _) = toggle(fresh_vault(), GUARDIAN, &mut log, 10);
    let (v, r, clog) = configure(paused, AUTHORITY, policy(40, 40, 20, 100));
    assert_eq!(r, Ok(()));
    assert_eq!(v.config, policy(40, 40, 20, 100));
    assert_eq!(clog.len(), 1);
    let (u, r) = toggle(v, GUARDIAN, &mut log, 11);
    assert_eq!(r, Ok(()));
    assert!(!u.is_paused);
}

#[test]
fn record_swap_receipt_by_keeper() {
    let (v, r, log) = swap(fresh_vault(), KEEPER, 1_700_000_900);
    assert_eq!(r, Ok(()));
    assert_eq!(v.last_swap_time, 1_700_000_900);
    assert_eq!((v.fee_balance_sol, v.fee_balance_usdc), (0, 0));
    assert_eq!(log.len(), 1);
    match &log[0] {
        VaultEvent::SwapExecuted(e) => {
            assert_eq!(e.sold_token, "SOL");
            assert_eq!(e.sold_amount, 1_000_000);
            assert_eq!(e.bought_token, "TOKEN");
            assert_eq!(e.bought_amount, 42_000);
            assert_eq!(f64::from_bits(e.price_bits), 0.042);
            assert_eq!(e.slippage_bps, 35);
            assert_eq!(e.timestamp, 1_700_000_900);
        }
        other => panic!("unexpected event {:?}", other),
    }
}

#[test]
fn roles_are_enforced() {
    let v = fresh_vault();
    let (w, r, log) = swap(v, GUARDIAN, 5);
    assert_eq!(r, Err(FeeVaultError::Unauthorized));
    assert_eq!(w.last_swap_time, 1_700_000_000);
    assert!(log.is_empty());
    let (w, r, log) = configure(v, KEEPER, policy(40, 40, 20, 100));
    assert_eq!(r, Err(FeeVaultError::Unauthorized));
    assert_eq!(w.config, standard_policy());
    assert!(log.is_empty());
    let mut tlog = Vec::new();
    let (w, r) = toggle(v, AUTHORITY, &mut tlog, 5);
    assert_eq!(r, Err(FeeVaultError::Unauthorized));
    assert!(!w.is_paused);
    assert!(tlog.is_empty());
}

#[test]
fn unauthorized_takes_precedence_over_pause() {
    let mut log = Vec::new();
    let (paused, _) = toggle(fresh_vault(), GUARDIAN, &mut log, 10);
    let (_, r, _) = swap(paused, STRANGER, 5);
    assert_eq!(r, Err(FeeVaultError::Unauthorized));
}

#[test]
fn set_config_bad_split_scenario() {
    let v = fresh_vault();
    let (w, r, log) = configure(v, AUTHORITY, policy(60, 30, 20, 500));
    assert_eq!(r, Err(FeeVaultError::InvalidConfig));
    assert_eq!(w.config, standard_policy());
    assert!(log.is_empty());
}

#[test]
fn set_config_high_slippage_rejected() {
    let (w, r, _) = configure(fresh_vault(), AUTHORITY, policy(50, 30, 20, 5001));
    assert_eq!(r, Err(FeeVaultError::InvalidConfig));
    assert_eq!(w.config, standard_policy());
}

#[test]
fn set_config_replaces_policy() {
    let new_policy = ConfigParams {
        cycle_seconds: 600,
        min_swap_sol: 5,
        max_spend_sol: 9,
        max_slippage_bps: 5000,
        split_buyback: 0,
        split_lp: 100,
        split_burn: 0,
        cooldown_seconds: 60,
    };
    let (w, r, log) = configure(fresh_vault(), AUTHORITY, new_policy);
    assert_eq!(r, Ok(()));
    assert_eq!(w.config, new_policy);
    assert_eq!(log.len(), 1);
    match &log[0] {
        VaultEvent::ConfigUpdated(e) => {
            assert_eq!(e.parameter, "full_config");
            assert_eq!(e.new_value, "updated");
            assert_eq!(e.timestamp, 1_700_000_500);
        }
        other => panic!("unexpected event {:?}", other),
    }
}

#[test]
fn keys_compare_by_every_byte() {
    let mut a = [7u8; 32];
    let b = a;
    assert!(Pubkey::new(a) == Pubkey::new(b));
    a[17] = 8;
    assert!(Pubkey::new(a) != Pubkey::new(b));
}

#[test]
fn error_messages() {
    assert_eq!(FeeVaultError::Unauthorized.message(), "Unauthorized");
    assert_eq!(FeeVaultError::VaultPaused.message(), "Vault is paused");
    assert_eq!(FeeVaultError::InvalidConfig.message(), "Invalid config");
    assert_eq!(FeeVaultError::InsufficientBalance.message(), "Insufficient balance");
    assert_eq!(FeeVaultError::InvalidRole.message(), "Invalid role");
    assert_eq!(FeeVaultError::Overflow.message(), "Overflow");
}
