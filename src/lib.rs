//! State-transition core of a fee vault: two fee balances, a validated split
//! policy, three roles and a pause gate. The host supplies the authenticated
//! signers, the clock and storage; every operation here computes the whole new
//! state before touching anything and either succeeds or changes nothing.
use vstd::prelude::*;

pub mod errors;
pub mod instructions;
pub mod laws;
pub mod vault;

pub use errors::FeeVaultError;
pub use instructions::{DepositFees, Initialize, RecordSwapReceipt, SetConfig, TogglePause};
pub use vault::{
    ConfigParams, ConfigUpdated, FeeDeposited, FeeVault, PauseToggled, Pubkey, SwapExecuted,
    VaultEvent,
};

verus! {

use crate::instructions::{
    deposit_fees_outcome, initialized, set_config_outcome, swap_receipt_outcome,
    toggle_pause_outcome,
};

/// Creates the vault record; see `instructions::initialize::handler`.
pub fn initialize(
    ctx: &Initialize,
    keeper: Pubkey,
    pause_guardian: Pubkey,
    config: ConfigParams,
    now: i64,
) -> (r: Result<FeeVault, FeeVaultError>)
    ensures
        r == initialized(ctx.vault_authority, keeper, pause_guardian, config, now, ctx.bump),
        r is Ok ==> r->Ok_0.wf(),
{
    instructions::initialize::handler(ctx, keeper, pause_guardian, config, now)
}

/// Records a deposit; see `instructions::deposit_fees::handler`.
pub fn deposit_fees(
    ctx: &mut DepositFees,
    log: &mut Vec<VaultEvent>,
    amount_sol: u64,
    amount_usdc: u64,
    now: i64,
) -> (r: Result<(), FeeVaultError>)
    ensures
        deposit_fees_outcome(
            *old(ctx),
            *final(ctx),
            old(log)@,
            final(log)@,
            amount_sol,
            amount_usdc,
            now,
            r,
        ),
        old(ctx).fee_vault.wf() ==> final(ctx).fee_vault.wf(),
{
    instructions::deposit_fees::handler(ctx, log, amount_sol, amount_usdc, now)
}

/// Records a keeper's swap receipt; see
/// `instructions::record_swap_receipt::handler`.
pub fn record_swap_receipt(
    ctx: &mut RecordSwapReceipt,
    log: &mut Vec<VaultEvent>,
    sold_token: String,
    sold_amount: u64,
    bought_token: String,
    bought_amount: u64,
    price_bits: u64,
    slippage_bps: u16,
    now: i64,
) -> (r: Result<(), FeeVaultError>)
    ensures
        swap_receipt_outcome(
            *old(ctx),
            *final(ctx),
            old(log)@,
            final(log)@,
            sold_token,
            sold_amount,
            bought_token,
            bought_amount,
            price_bits,
            slippage_bps,
            now,
            r,
        ),
        old(ctx).fee_vault.wf() ==> final(ctx).fee_vault.wf(),
{
    instructions::record_swap_receipt::handler(
        ctx,
        log,
        sold_token,
        sold_amount,
        bought_token,
        bought_amount,
        price_bits,
        slippage_bps,
        now,
    )
}

/// Replaces the policy; see `instructions::set_config::handler`.
pub fn set_config(
    ctx: &mut SetConfig,
    log: &mut Vec<VaultEvent>,
    config: ConfigParams,
    now: i64,
) -> (r: Result<(), FeeVaultError>)
    ensures
        set_config_outcome(*old(ctx), *final(ctx), old(log)@, final(log)@, config, now, r),
        old(ctx).fee_vault.wf() ==> final(ctx).fee_vault.wf(),
{
    instructions::set_config::handler(ctx, log, config, now)
}

/// Flips the pause flag; see `instructions::pause::handler`.
pub fn toggle_pause(ctx: &mut TogglePause, log: &mut Vec<VaultEvent>, now: i64) -> (r: Result<
    (),
    FeeVaultError,
>)
    ensures
        toggle_pause_outcome(*old(ctx), *final(ctx), old(log)@, final(log)@, now, r),
        old(ctx).fee_vault.wf() ==> final(ctx).fee_vault.wf(),
{
    instructions::pause::handler(ctx, log, now)
}

} // verus!
