use vstd::prelude::*;

use crate::errors::FeeVaultError;
use crate::instructions::{deposit_fees_outcome, DepositFees};
use crate::vault::{FeeDeposited, VaultEvent};

verus! {

/// Adds the two amounts to the vault's balances and logs a `FeeDeposited`
/// entry. Anyone may deposit. Fails with `VaultPaused` while the vault is
/// paused, and with `Overflow` when either sum leaves the 64-bit range; a
/// failure changes neither balance nor the log.
pub fn handler(
    ctx: &mut DepositFees,
    log: &mut Vec<VaultEvent>,
    amount_sol: u64,
    amount_usdc: u64,
    now: i64,
) -> (r: Result<(), FeeVaultError>)
    ensures
        deposit_fees_outcome(
            *old(ctx),
            *final(ctx),
            old(log)@,
            final(log)@,
            amount_sol,
            amount_usdc,
            now,
            r,
        ),
        old(ctx).fee_vault.wf() ==> final(ctx).fee_vault.wf(),
        final(ctx).fee_vault.fee_balance_sol >= old(ctx).fee_vault.fee_balance_sol,
        final(ctx).fee_vault.fee_balance_usdc >= old(ctx).fee_vault.fee_balance_usdc,
{
    if ctx.fee_vault.is_paused {
        return Err(FeeVaultError::VaultPaused);
    }
    let sol = match ctx.fee_vault.fee_balance_sol.checked_add(amount_sol) {
        Some(s) => s,
        None => return Err(FeeVaultError::Overflow),
    };
    let usdc = match ctx.fee_vault.fee_balance_usdc.checked_add(amount_usdc) {
        Some(u) => u,
        None => return Err(FeeVaultError::Overflow),
    };
    ctx.fee_vault.fee_balance_sol = sol;
    ctx.fee_vault.fee_balance_usdc = usdc;
    log.push(
        VaultEvent::FeeDeposited(
            FeeDeposited { depositor: ctx.depositor, amount_sol, amount_usdc, timestamp: now },
        ),
    );
    Ok(())
}

} // verus!
