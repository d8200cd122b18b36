use vstd::prelude::*;

use crate::errors::FeeVaultError;
use crate::instructions::{initialized, Initialize};
use crate::vault::{ConfigParams, FeeVault, Pubkey};

verus! {

/// Creates the vault record: the signing authority becomes its admin, both
/// balances start at zero, the vault is active, and `now` is the last swap
/// time. Fails with `InvalidConfig` when the policy is not acceptable.
pub fn handler(
    ctx: &Initialize,
    keeper: Pubkey,
    pause_guardian: Pubkey,
    config: ConfigParams,
    now: i64,
) -> (r: Result<FeeVault, FeeVaultError>)
    ensures
        r == initialized(ctx.vault_authority, keeper, pause_guardian, config, now, ctx.bump),
        r is Ok ==> r->Ok_0.wf(),
{
    if !config.validate() {
        return Err(FeeVaultError::InvalidConfig);
    }
    Ok(
        FeeVault {
            vault_authority: ctx.vault_authority,
            keeper_role: keeper,
            pause_guardian,
            fee_balance_sol: 0,
            fee_balance_usdc: 0,
            is_paused: false,
            config,
            last_swap_time: now,
            bump: ctx.bump,
        },
    )
}

} // verus!
