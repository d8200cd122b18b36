//! Facts about the vault's operations, stated over the transition functions
//! and outcome predicates that the operations' contracts use.
use vstd::prelude::*;

use crate::errors::FeeVaultError;
use crate::instructions::{
    after_deposit, after_set_config, after_swap_receipt, after_toggle_pause, deposit_fees_outcome,
    initialized, pause_event, same_key, set_config_outcome, toggle_pause_outcome, DepositFees,
    SetConfig, TogglePause,
};
use crate::vault::{ConfigParams, FeeVault, Pubkey, VaultEvent, MAX_SLIPPAGE_BPS};

verus! {

/// A policy whose splits do not sum to 100 is not acceptable: `initialize`
/// rejects it with `InvalidConfig`, `set_config` rejects it (with
/// `InvalidConfig` when the signer is the authority), and a rejected
/// `set_config` leaves the vault and the log as they were.
pub proof fn lemma_bad_split_rejected(
    config: ConfigParams,
    authority: Pubkey,
    keeper: Pubkey,
    pause_guardian: Pubkey,
    now: i64,
    bump: u8,
    before: SetConfig,
    after: SetConfig,
    log_before: Seq<VaultEvent>,
    log_after: Seq<VaultEvent>,
    r: Result<(), FeeVaultError>,
)
    requires
        config.split_total() != 100,
    ensures
        !config.valid(),
        initialized(authority, keeper, pause_guardian, config, now, bump) == Err::<
            FeeVault,
            FeeVaultError,
        >(FeeVaultError::InvalidConfig),
        after_set_config(before.fee_vault, before.admin, config) is Err,
        same_key(before.admin, before.fee_vault.vault_authority) ==> after_set_config(
            before.fee_vault,
            before.admin,
            config,
        ) == Err::<FeeVault, FeeVaultError>(FeeVaultError::InvalidConfig),
        set_config_outcome(before, after, log_before, log_after, config, now, r) ==> {
            &&& r is Err
            &&& after.fee_vault == before.fee_vault
            &&& log_after == log_before
        },
{
}

/// A policy whose slippage cap is above 5000 bps is not acceptable.
pub proof fn lemma_slippage_cap_rejected(config: ConfigParams)
    requires
        config.max_slippage_bps > MAX_SLIPPAGE_BPS,
    ensures
        !config.valid(),
{
}

/// On a freshly created vault, depositing `(a, b)` and then `(c, d)` ends in
/// the same vault as depositing `(a + c, b + d)` at once, when neither sum
/// overflows.
pub proof fn lemma_deposits_combine(
    authority: Pubkey,
    keeper: Pubkey,
    pause_guardian: Pubkey,
    config: ConfigParams,
    now: i64,
    bump: u8,
    a: u64,
    b: u64,
    c: u64,
    d: u64,
)
    requires
        config.valid(),
        a + c <= u64::MAX,
        b + d <= u64::MAX,
    ensures
        ({
            let fresh = initialized(authority, keeper, pause_guardian, config, now, bump)->Ok_0;
            &&& after_deposit(fresh, a, b) is Ok
            &&& after_deposit(after_deposit(fresh, a, b)->Ok_0, c, d) == after_deposit(
                fresh,
                (a + c) as u64,
                (b + d) as u64,
            )
        }),
{
}

/// A deposit on an active vault whose SOL sum would leave the 64-bit range
/// fails with `Overflow`, and both balances stay exactly as they were.
pub proof fn lemma_deposit_overflow(
    before: DepositFees,
    after: DepositFees,
    log_before: Seq<VaultEvent>,
    log_after: Seq<VaultEvent>,
    amount_sol: u64,
    amount_usdc: u64,
    now: i64,
    r: Result<(), FeeVaultError>,
)
    requires
        !before.fee_vault.is_paused,
        before.fee_vault.fee_balance_sol + amount_sol > u64::MAX,
    ensures
        after_deposit(before.fee_vault, amount_sol, amount_usdc) == Err::<FeeVault, FeeVaultError>(
            FeeVaultError::Overflow,
        ),
        deposit_fees_outcome(
            before,
            after,
            log_before,
            log_after,
            amount_sol,
            amount_usdc,
            now,
            r,
        ) ==> {
            &&& r == Err::<(), FeeVaultError>(FeeVaultError::Overflow)
            &&& after.fee_vault.fee_balance_sol == before.fee_vault.fee_balance_sol
            &&& after.fee_vault.fee_balance_usdc == before.fee_vault.fee_balance_usdc
        },
{
}

/// Two toggles by the guardian restore the vault exactly, and log two
/// `PauseToggled` entries in order: the flipped flag, then the starting one.
pub proof fn lemma_toggle_twice(
    first: TogglePause,
    second: TogglePause,
    third: TogglePause,
    log0: Seq<VaultEvent>,
    log1: Seq<VaultEvent>,
    log2: Seq<VaultEvent>,
    t1: i64,
    t2: i64,
    r1: Result<(), FeeVaultError>,
    r2: Result<(), FeeVaultError>,
)
    requires
        same_key(first.pause_guardian, first.fee_vault.pause_guardian),
        toggle_pause_outcome(first, second, log0, log1, t1, r1),
        toggle_pause_outcome(second, third, log1, log2, t2, r2),
    ensures
        r1 is Ok,
        r2 is Ok,
        third.fee_vault == first.fee_vault,
        log2 == log0.push(pause_event(!first.fee_vault.is_paused, t1)).push(
            pause_event(first.fee_vault.is_paused, t2),
        ),
{
}

/// While the vault is paused, deposits fail with `VaultPaused`, and so do the
/// keeper's swap receipts.
pub proof fn lemma_pause_blocks(
    v: FeeVault,
    caller: Pubkey,
    amount_sol: u64,
    amount_usdc: u64,
    now: i64,
)
    requires
        v.is_paused,
    ensures
        after_deposit(v, amount_sol, amount_usdc) == Err::<FeeVault, FeeVaultError>(
            FeeVaultError::VaultPaused,
        ),
        same_key(caller, v.keeper_role) ==> after_swap_receipt(v, caller, now) == Err::<
            FeeVault,
            FeeVaultError,
        >(FeeVaultError::VaultPaused),
{
}

/// The administrative operations do not look at the pause flag: the
/// authority's acceptable policy change and the guardian's toggle succeed
/// whether the vault is paused or not.
pub proof fn lemma_admin_ignores_pause(v: FeeVault, caller: Pubkey, config: ConfigParams, paused: bool)
    ensures
        same_key(caller, v.vault_authority) && config.valid() ==> {
            &&& after_set_config(v, caller, config) is Ok
            &&& after_set_config(FeeVault { is_paused: paused, ..v }, caller, config) is Ok
        },
        same_key(caller, v.pause_guardian) ==> {
            &&& after_toggle_pause(v, caller) is Ok
            &&& after_toggle_pause(FeeVault { is_paused: paused, ..v }, caller) is Ok
        },
{
}

/// Each role-gated operation fails with `Unauthorized` for any signer other
/// than its role: swap receipts for the keeper, policy changes for the
/// authority, toggles for the guardian.
pub proof fn lemma_roles_enforced(v: FeeVault, caller: Pubkey, config: ConfigParams, now: i64)
    ensures
        !same_key(caller, v.keeper_role) ==> after_swap_receipt(v, caller, now) == Err::<
            FeeVault,
            FeeVaultError,
        >(FeeVaultError::Unauthorized),
        !same_key(caller, v.vault_authority) ==> after_set_config(v, caller, config) == Err::<
            FeeVault,
            FeeVaultError,
        >(FeeVaultError::Unauthorized),
        !same_key(caller, v.pause_guardian) ==> after_toggle_pause(v, caller) == Err::<
            FeeVault,
            FeeVaultError,
        >(FeeVaultError::Unauthorized),
{
}

/// Every successful operation keeps the policy acceptable and never lowers
/// a balance.
pub proof fn lemma_invariants_kept(
    v: FeeVault,
    caller: Pubkey,
    config: ConfigParams,
    amount_sol: u64,
    amount_usdc: u64,
    now: i64,
)
    requires
        v.wf(),
    ensures
        after_deposit(v, amount_sol, amount_usdc) matches Ok(w) ==> w.wf()
            && w.fee_balance_sol >= v.fee_balance_sol && w.fee_balance_usdc
            >= v.fee_balance_usdc,
        after_swap_receipt(v, caller, now) matches Ok(w) ==> w.wf() && w.fee_balance_sol
            == v.fee_balance_sol && w.fee_balance_usdc == v.fee_balance_usdc,
        after_set_config(v, caller, config) matches Ok(w) ==> w.wf() && w.fee_balance_sol
            == v.fee_balance_sol && w.fee_balance_usdc == v.fee_balance_usdc,
        after_toggle_pause(v, caller) matches Ok(w) ==> w.wf() && w.fee_balance_sol
            == v.fee_balance_sol && w.fee_balance_usdc == v.fee_balance_usdc,
{
}

} // verus!
