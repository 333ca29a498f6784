use vstd::prelude::*;

use crate::keys::Pubkey;

verus! {

#[derive(Clone, Copy, Debug, PartialEq, Eq)]
pub struct VaultInitialized {
    pub admin: Pubkey,
    pub deposit_mint: Pubkey,
    pub reward_rate_per_second: u64,
}

#[derive(Clone, Copy, Debug, PartialEq, Eq)]
pub struct Deposited {
    pub user: Pubkey,
    pub amount: u64,
    pub total_user_staked: u64,
}

#[derive(Clone, Copy, Debug, PartialEq, Eq)]
pub struct Withdrawn {
    pub user: Pubkey,
    pub amount: u64,
    pub remaining_staked: u64,
}

#[derive(Clone, Copy, Debug, PartialEq, Eq)]
pub struct RewardsClaimed {
    pub user: Pubkey,
    pub amount: u64,
}

#[derive(Clone, Copy, Debug, PartialEq, Eq)]
pub struct RewardRateUpdated {
    pub old_rate: u64,
    pub new_rate: u64,
}

#[derive(Clone, Copy, Debug, PartialEq, Eq)]
pub struct VaultPauseToggled {
    pub paused: bool,
}

} // verus!
