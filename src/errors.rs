use vstd::prelude::*;

verus! {

/// The errors a vault operation can end in. Every failure leaves the vault
/// exactly as it was.
#[derive(Debug, Clone, Copy, PartialEq, Eq, Structural)]
pub enum FeeVaultError {
    /// The caller is not the role the operation requires.
    Unauthorized,
    /// A deposit or a swap receipt was attempted while the vault is paused.
    VaultPaused,
    /// The split percentages do not sum to 100, or the slippage cap is above 5000 bps.
    InvalidConfig,
    /// Reserved: no operation raises it.
    InsufficientBalance,
    /// Reserved: no operation raises it.
    InvalidRole,
    /// A balance addition would leave the 64-bit range.
    Overflow,
}

pub open spec fn error_message(e: FeeVaultError) -> Seq<char> {
    match e {
        FeeVaultError::Unauthorized => "Unauthorized"@,
        FeeVaultError::VaultPaused => "Vault is paused"@,
        FeeVaultError::InvalidConfig => "Invalid config"@,
        FeeVaultError::InsufficientBalance => "Insufficient balance"@,
        FeeVaultError::InvalidRole => "Invalid role"@,
        FeeVaultError::Overflow => "Overflow"@,
    }
}

impl FeeVaultError {
    /// The human-readable message attached to each error.
    pub fn message(&self) -> (r: &'static str)
        ensures
            r@ == error_message(*self),
    {
        match self {
            FeeVaultError::Unauthorized => "Unauthorized",
            FeeVaultError::VaultPaused => "Vault is paused",
            FeeVaultError::InvalidConfig => "Invalid config",
            FeeVaultError::InsufficientBalance => "Insufficient balance",
            FeeVaultError::InvalidRole => "Invalid role",
            FeeVaultError::Overflow => "Overflow",
        }
    }
}

} // verus!
