use vstd::prelude::*;

use crate::errors::FeeVaultError;
use crate::vault::{
    ConfigParams, ConfigUpdated, FeeDeposited, FeeVault, PauseToggled, Pubkey, SwapExecuted,
    VaultEvent,
};

pub mod deposit_fees;
pub mod initialize;
pub mod pause;
pub mod record_swap_receipt;
pub mod set_config;

verus! {

/// What `initialize` is handed: the authenticated signers and the record's
/// derivation byte.
#[derive(Debug, Clone, Copy)]
pub struct Initialize {
    pub payer: Pubkey,
    pub vault_authority: Pubkey,
    pub bump: u8,
}

/// What `deposit_fees` is handed: any authenticated depositor and the vault.
#[derive(Debug, Clone, Copy)]
pub struct DepositFees {
    pub depositor: Pubkey,
    pub fee_vault: FeeVault,
}

/// What `record_swap_receipt` is handed: the signer and the vault.
#[derive(Debug, Clone, Copy)]
pub struct RecordSwapReceipt {
    pub keeper: Pubkey,
    pub fee_vault: FeeVault,
}

/// What `set_config` is handed: the signer and the vault.
#[derive(Debug, Clone, Copy)]
pub struct SetConfig {
    pub admin: Pubkey,
    pub fee_vault: FeeVault,
}

/// What `toggle_pause` is handed: the signer and the vault.
#[derive(Debug, Clone, Copy)]
pub struct TogglePause {
    pub pause_guardian: Pubkey,
    pub fee_vault: FeeVault,
}

/// Two identities are the same account.
pub open spec fn same_key(a: Pubkey, b: Pubkey) -> bool {
    a.bytes@ == b.bytes@
}

/// The record that `initialize` creates, or the error it ends in.
pub open spec fn initialized(
    authority: Pubkey,
    keeper: Pubkey,
    pause_guardian: Pubkey,
    config: ConfigParams,
    now: i64,
    bump: u8,
) -> Result<FeeVault, FeeVaultError> {
    if !config.valid() {
        Err(FeeVaultError::InvalidConfig)
    } else {
        Ok(
            FeeVault {
                vault_authority: authority,
                keeper_role: keeper,
                pause_guardian,
                fee_balance_sol: 0,
                fee_balance_usdc: 0,
                is_paused: false,
                config,
                last_swap_time: now,
                bump,
            },
        )
    }
}

/// The vault after a deposit of the two amounts, or the error it ends in.
pub open spec fn after_deposit(v: FeeVault, amount_sol: u64, amount_usdc: u64) -> Result<
    FeeVault,
    FeeVaultError,
> {
    if v.is_paused {
        Err(FeeVaultError::VaultPaused)
    } else if v.fee_balance_sol + amount_sol > u64::MAX || v.fee_balance_usdc + amount_usdc
        > u64::MAX {
        Err(FeeVaultError::Overflow)
    } else {
        Ok(
            FeeVault {
                fee_balance_sol: (v.fee_balance_sol + amount_sol) as u64,
                fee_balance_usdc: (v.fee_balance_usdc + amount_usdc) as u64,
                ..v
            },
        )
    }
}

/// The vault after `caller` records a swap receipt at time `now`, or the error.
pub open spec fn after_swap_receipt(v: FeeVault, caller: Pubkey, now: i64) -> Result<
    FeeVault,
    FeeVaultError,
> {
    if !same_key(caller, v.keeper_role) {
        Err(FeeVaultError::Unauthorized)
    } else if v.is_paused {
        Err(FeeVaultError::VaultPaused)
    } else {
        Ok(FeeVault { last_swap_time: now, ..v })
    }
}

/// The vault after `caller` replaces its policy with `config`, or the error.
pub open spec fn after_set_config(v: FeeVault, caller: Pubkey, config: ConfigParams) -> Result<
    FeeVault,
    FeeVaultError,
> {
    if !same_key(caller, v.vault_authority) {
        Err(FeeVaultError::Unauthorized)
    } else if !config.valid() {
        Err(FeeVaultError::InvalidConfig)
    } else {
        Ok(FeeVault { config, ..v })
    }
}

/// The vault after `caller` flips the pause flag, or the error.
pub open spec fn after_toggle_pause(v: FeeVault, caller: Pubkey) -> Result<
    FeeVault,
    FeeVaultError,
> {
    if !same_key(caller, v.pause_guardian) {
        Err(FeeVaultError::Unauthorized)
    } else {
        Ok(FeeVault { is_paused: !v.is_paused, ..v })
    }
}

/// The `FeeDeposited` entry a deposit logs.
pub open spec fn deposit_event(depositor: Pubkey, amount_sol: u64, amount_usdc: u64, now: i64) -> VaultEvent {
    VaultEvent::FeeDeposited(FeeDeposited { depositor, amount_sol, amount_usdc, timestamp: now })
}

/// The `SwapExecuted` entry a swap receipt logs.
pub open spec fn swap_event(
    sold_token: String,
    sold_amount: u64,
    bought_token: String,
    bought_amount: u64,
    price_bits: u64,
    slippage_bps: u16,
    now: i64,
) -> VaultEvent {
    VaultEvent::SwapExecuted(
        SwapExecuted {
            sold_token,
            sold_amount,
            bought_token,
            bought_amount,
            price_bits,
            slippage_bps,
            timestamp: now,
        },
    )
}

/// The `PauseToggled` entry a toggle logs, carrying the new flag.
pub open spec fn pause_event(is_paused: bool, now: i64) -> VaultEvent {
    VaultEvent::PauseToggled(PauseToggled { is_paused, timestamp: now })
}

/// A `ConfigUpdated` entry with the fixed markers, stamped `now`.
pub open spec fn is_config_event(e: VaultEvent, now: i64) -> bool {
    match e {
        VaultEvent::ConfigUpdated(c) => {
            &&& c.parameter@ == "full_config"@
            &&& c.new_value@ == "updated"@
            &&& c.timestamp == now
        },
        _ => false,
    }
}

/// The outcome of a deposit: on success the vault is `after_deposit` and one
/// `FeeDeposited` entry is appended; on failure nothing changes.
pub open spec fn deposit_fees_outcome(
    before: DepositFees,
    after: DepositFees,
    log_before: Seq<VaultEvent>,
    log_after: Seq<VaultEvent>,
    amount_sol: u64,
    amount_usdc: u64,
    now: i64,
    r: Result<(), FeeVaultError>,
) -> bool {
    &&& after.depositor == before.depositor
    &&& match after_deposit(before.fee_vault, amount_sol, amount_usdc) {
        Ok(v) => {
            &&& r is Ok
            &&& after.fee_vault == v
            &&& log_after == log_before.push(
                deposit_event(before.depositor, amount_sol, amount_usdc, now),
            )
        },
        Err(e) => {
            &&& r == Err::<(), FeeVaultError>(e)
            &&& after.fee_vault == before.fee_vault
            &&& log_after == log_before
        },
    }
}

/// The outcome of a swap receipt: on success the vault is
/// `after_swap_receipt` and one `SwapExecuted` entry is appended; on failure
/// nothing changes.
pub open spec fn swap_receipt_outcome(
    before: RecordSwapReceipt,
    after: RecordSwapReceipt,
    log_before: Seq<VaultEvent>,
    log_after: Seq<VaultEvent>,
    sold_token: String,
    sold_amount: u64,
    bought_token: String,
    bought_amount: u64,
    price_bits: u64,
    slippage_bps: u16,
    now: i64,
    r: Result<(), FeeVaultError>,
) -> bool {
    &&& after.keeper == before.keeper
    &&& match after_swap_receipt(before.fee_vault, before.keeper, now) {
        Ok(v) => {
            &&& r is Ok
            &&& after.fee_vault == v
            &&& log_after == log_before.push(
                swap_event(
                    sold_token,
                    sold_amount,
                    bought_token,
                    bought_amount,
                    price_bits,
                    slippage_bps,
                    now,
                ),
            )
        },
        Err(e) => {
            &&& r == Err::<(), FeeVaultError>(e)
            &&& after.fee_vault == before.fee_vault
            &&& log_after == log_before
        },
    }
}

/// The outcome of a policy change: on success the vault is
/// `after_set_config` and one `ConfigUpdated` entry is appended; on failure
/// nothing changes.
pub open spec fn set_config_outcome(
    before: SetConfig,
    after: SetConfig,
    log_before: Seq<VaultEvent>,
    log_after: Seq<VaultEvent>,
    config: ConfigParams,
    now: i64,
    r: Result<(), FeeVaultError>,
) -> bool {
    &&& after.admin == before.admin
    &&& match after_set_config(before.fee_vault, before.admin, config) {
        Ok(v) => {
            &&& r is Ok
            &&& after.fee_vault == v
            &&& log_after.len() == log_before.len() + 1
            &&& log_after.drop_last() == log_before
            &&& is_config_event(log_after.last(), now)
        },
        Err(e) => {
            &&& r == Err::<(), FeeVaultError>(e)
            &&& after.fee_vault == before.fee_vault
            &&& log_after == log_before
        },
    }
}

/// The outcome of a pause toggle: on success the vault is
/// `after_toggle_pause` and one `PauseToggled` entry with the new flag is
/// appended; on failure nothing changes.
pub open spec fn toggle_pause_outcome(
    before: TogglePause,
    after: TogglePause,
    log_before: Seq<VaultEvent>,
    log_after: Seq<VaultEvent>,
    now: i64,
    r: Result<(), FeeVaultError>,
) -> bool {
    &&& after.pause_guardian == before.pause_guardian
    &&& match after_toggle_pause(before.fee_vault, before.pause_guardian) {
        Ok(v) => {
            &&& r is Ok
            &&& after.fee_vault == v
            &&& log_after == log_before.push(pause_event(v.is_paused, now))
        },
        Err(e) => {
            &&& r == Err::<(), FeeVaultError>(e)
            &&& after.fee_vault == before.fee_vault
            &&& log_after == log_before
        },
    }
}

} // verus!
