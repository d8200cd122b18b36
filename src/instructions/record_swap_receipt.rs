use vstd::prelude::*;

use crate::errors::FeeVaultError;
use crate::instructions::{swap_receipt_outcome, RecordSwapReceipt};
use crate::vault::{SwapExecuted, VaultEvent};

verus! {

/// Records a swap reported by the keeper: stamps `now` as the last swap
/// time and logs a `SwapExecuted` entry. No balance is read or changed.
/// Fails with `Unauthorized` when the signer is not the keeper, then with
/// `VaultPaused` while the vault is paused; a failure changes nothing.
pub fn handler(
    ctx: &mut RecordSwapReceipt,
    log: &mut Vec<VaultEvent>,
    sold_token: String,
    sold_amount: u64,
    bought_token: String,
    bought_amount: u64,
    price_bits: u64,
    slippage_bps: u16,
    now: i64,
) -> (r: Result<(), FeeVaultError>)
    ensures
        swap_receipt_outcome(
            *old(ctx),
            *final(ctx),
            old(log)@,
            final(log)@,
            sold_token,
            sold_amount,
            bought_token,
            bought_amount,
            price_bits,
            slippage_bps,
            now,
            r,
        ),
        old(ctx).fee_vault.wf() ==> final(ctx).fee_vault.wf(),
{
    if !(ctx.keeper == ctx.fee_vault.keeper_role) {
        return Err(FeeVaultError::Unauthorized);
    }
    if ctx.fee_vault.is_paused {
        return Err(FeeVaultError::VaultPaused);
    }
    ctx.fee_vault.last_swap_time = now;
    log.push(
        VaultEvent::SwapExecuted(
            SwapExecuted {
                sold_token,
                sold_amount,
                bought_token,
                bought_amount,
                price_bits,
                slippage_bps,
                timestamp: now,
            },
        ),
    );
    Ok(())
}

} // verus!
