use vstd::prelude::*;

use crate::errors::FeeVaultError;
use crate::instructions::{set_config_outcome, SetConfig};
use crate::vault::{ConfigParams, ConfigUpdated, VaultEvent};

verus! {

/// Replaces the vault's policy wholesale and logs a `ConfigUpdated` entry.
/// Fails with `Unauthorized` when the signer is not the vault authority,
/// then with `InvalidConfig` when the new policy is not acceptable; a
/// failure changes nothing. The pause flag plays no part.
pub fn handler(
    ctx: &mut SetConfig,
    log: &mut Vec<VaultEvent>,
    config: ConfigParams,
    now: i64,
) -> (r: Result<(), FeeVaultError>)
    ensures
        set_config_outcome(*old(ctx), *final(ctx), old(log)@, final(log)@, config, now, r),
        old(ctx).fee_vault.wf() ==> final(ctx).fee_vault.wf(),
{
    if !(ctx.admin == ctx.fee_vault.vault_authority) {
        return Err(FeeVaultError::Unauthorized);
    }
    if !config.validate() {
        return Err(FeeVaultError::InvalidConfig);
    }
    ctx.fee_vault.config = config;
    let event = ConfigUpdated {
        parameter: "full_config".to_string(),
        new_value: "updated".to_string(),
        timestamp: now,
    };
    log.push(VaultEvent::ConfigUpdated(event));
    proof {
        assert(final(log)@.drop_last() =~= old(log)@);
    }
    Ok(())
}

} // verus!
