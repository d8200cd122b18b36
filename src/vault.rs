use vstd::prelude::*;

verus! {

/// Largest split-policy slippage cap, in basis points (50%).
pub const MAX_SLIPPAGE_BPS: u16 = 5000;

/// A 32-byte account identity, as authenticated by the host.
#[derive(Debug, Clone, Copy)]
pub struct Pubkey {
    pub bytes: [u8; 32],
}

impl Pubkey {
    pub fn new(bytes: [u8; 32]) -> (r: Pubkey)
        ensures
            r.bytes == bytes,
    {
        Pubkey { bytes }
    }
}

impl PartialEq for Pubkey {
    fn eq(&self, other: &Pubkey) -> (r: bool) {
        let mut i: usize = 0;
        while i < 32
            invariant
                0 <= i <= 32,
                forall|j: int| 0 <= j < i ==> self.bytes@[j] == other.bytes@[j],
            decreases 32 - i,
        {
            if self.bytes[i] != other.bytes[i] {
                return false;
            }
            i = i + 1;
        }
        proof {
            assert(self.bytes@ =~= other.bytes@);
        }
        true
    }
}

impl vstd::std_specs::cmp::PartialEqSpecImpl for Pubkey {
    open spec fn obeys_eq_spec() -> bool {
        true
    }

    open spec fn eq_spec(&self, other: &Pubkey) -> bool {
        self.bytes@ == other.bytes@
    }
}

/// The vault's split and threshold policy.
#[derive(Debug, Clone, Copy, PartialEq, Eq, Structural)]
pub struct ConfigParams {
    pub cycle_seconds: u32,
    pub min_swap_sol: u64,
    pub max_spend_sol: u64,
    pub max_slippage_bps: u16,
    pub split_buyback: u8,
    pub split_lp: u8,
    pub split_burn: u8,
    pub cooldown_seconds: u32,
}

impl ConfigParams {
    /// The three split percentages, summed without overflow.
    pub open spec fn split_total(self) -> int {
        self.split_buyback + self.split_lp + self.split_burn
    }

    /// A policy is acceptable when its splits sum to exactly 100 and its
    /// slippage cap is at most 5000 bps.
    pub open spec fn valid(self) -> bool {
        &&& self.split_total() == 100
        &&& self.max_slippage_bps <= MAX_SLIPPAGE_BPS
    }

    pub fn validate(&self) -> (r: bool)
        ensures
            r == self.valid(),
    {
        if self.split_buyback as u16 + self.split_lp as u16 + self.split_burn as u16 != 100 {
            return false;
        }
        if self.max_slippage_bps > MAX_SLIPPAGE_BPS {
            return false;
        }
        true
    }
}

/// The vault's persistent record.
#[derive(Debug, Clone, Copy)]
pub struct FeeVault {
    pub vault_authority: Pubkey,
    pub keeper_role: Pubkey,
    pub pause_guardian: Pubkey,
    pub fee_balance_sol: u64,
    pub fee_balance_usdc: u64,
    pub is_paused: bool,
    pub config: ConfigParams,
    pub last_swap_time: i64,
    pub bump: u8,
}

impl FeeVault {
    /// The record's invariant: its policy is acceptable.
    pub open spec fn wf(self) -> bool {
        self.config.valid()
    }
}

/// A deposit was recorded.
#[derive(Debug, Clone, Copy)]
pub struct FeeDeposited {
    pub depositor: Pubkey,
    pub amount_sol: u64,
    pub amount_usdc: u64,
    pub timestamp: i64,
}

/// A swap receipt was recorded. The reported price is carried as the bit
/// pattern of an IEEE-754 double; nothing here reads it.
#[derive(Debug, Clone)]
pub struct SwapExecuted {
    pub sold_token: String,
    pub sold_amount: u64,
    pub bought_token: String,
    pub bought_amount: u64,
    pub price_bits: u64,
    pub slippage_bps: u16,
    pub timestamp: i64,
}

/// The pause flag was flipped; `is_paused` is its new value.
#[derive(Debug, Clone, Copy, PartialEq, Eq, Structural)]
pub struct PauseToggled {
    pub is_paused: bool,
    pub timestamp: i64,
}

/// The policy was replaced. The two fields are fixed markers, not a diff.
#[derive(Debug, Clone)]
pub struct ConfigUpdated {
    pub parameter: String,
    pub new_value: String,
    pub timestamp: i64,
}

/// One entry of the vault's ordered event log.
#[derive(Debug, Clone)]
pub enum VaultEvent {
    FeeDeposited(FeeDeposited),
    SwapExecuted(SwapExecuted),
    PauseToggled(PauseToggled),
    ConfigUpdated(ConfigUpdated),
}

} // verus!
