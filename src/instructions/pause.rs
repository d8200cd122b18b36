use vstd::prelude::*;

use crate::errors::FeeVaultError;
use crate::instructions::{toggle_pause_outcome, TogglePause};
use crate::vault::{PauseToggled, VaultEvent};

verus! {

/// Flips the pause flag and logs a `PauseToggled` entry with its new value.
/// Fails with `Unauthorized` when the signer is not the pause guardian; a
/// failure changes nothing. Works whether or not the vault is paused.
pub fn handler(ctx: &mut TogglePause, log: &mut Vec<VaultEvent>, now: i64) -> (r: Result<
    (),
    FeeVaultError,
>)
    ensures
        toggle_pause_outcome(*old(ctx), *final(ctx), old(log)@, final(log)@, now, r),
        old(ctx).fee_vault.wf() ==> final(ctx).fee_vault.wf(),
{
    if !(ctx.pause_guardian == ctx.fee_vault.pause_guardian) {
        return Err(FeeVaultError::Unauthorized);
    }
    ctx.fee_vault.is_paused = !ctx.fee_vault.is_paused;
    log.push(
        VaultEvent::PauseToggled(
            PauseToggled { is_paused: ctx.fee_vault.is_paused, timestamp: now },
        ),
    );
    Ok(())
}

} // verus!
