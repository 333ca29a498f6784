use vstd::prelude::*;

use crate::keys::Pubkey;

verus! {

/// The state of a vault.
#[derive(Clone, Copy, Debug, PartialEq, Eq)]
pub struct VaultState {
    pub admin: Pubkey,
    pub deposit_mint: Pubkey,
    pub reward_mint: Pubkey,
    /// Reward tokens that the vault emits each second, over all stakers.
    pub reward_rate_per_second: u64,
    pub total_staked: u64,
    /// When the accumulator was last brought up to date, in seconds.
    pub last_update_time: u64,
    /// Reward tokens earned by one staked token since the vault began, scaled by `PRECISION`.
    pub reward_per_token_stored: u64,
    /// Whether deposits are halted.
    pub paused: bool,
    /// The bump seed of the vault's own address.
    pub bump: u8,
}

/// The position of one user in a vault.
#[derive(Clone, Copy, Debug, PartialEq, Eq)]
pub struct UserPosition {
    pub owner: Pubkey,
    pub staked_amount: u64,
    /// The value of `reward_per_token_stored` up to which the position's rewards are settled.
    pub reward_debt: u64,
    /// Rewards that are settled and not yet claimed.
    pub pending_rewards: u64,
    /// Rewards claimed over the position's lifetime.
    pub rewards_claimed: u64,
    pub last_update: u64,
}

impl Default for VaultState {
    fn default() -> (state: Self)
        ensures
            state.admin@ == Seq::new(32, |i: int| 0u8),
            state.deposit_mint@ == Seq::new(32, |i: int| 0u8),
            state.reward_mint@ == Seq::new(32, |i: int| 0u8),
            state.reward_rate_per_second == 0,
            state.total_staked == 0,
            state.last_update_time == 0,
            state.reward_per_token_stored == 0,
            !state.paused,
            state.bump == 0,
    {
        VaultState {
            admin: Pubkey::default(),
            deposit_mint: Pubkey::default(),
            reward_mint: Pubkey::default(),
            reward_rate_per_second: 0,
            total_staked: 0,
            last_update_time: 0,
            reward_per_token_stored: 0,
            paused: false,
            bump: 0,
        }
    }
}

impl Default for UserPosition {
    /// The position of a user who never deposited.
    fn default() -> (position: Self)
        ensures
            position.owner@ == Seq::new(32, |i: int| 0u8),
            position.staked_amount == 0,
            position.reward_debt == 0,
            position.pending_rewards == 0,
            position.rewards_claimed == 0,
            position.last_update == 0,
    {
        UserPosition {
            owner: Pubkey::default(),
            staked_amount: 0,
            reward_debt: 0,
            pending_rewards: 0,
            rewards_claimed: 0,
            last_update: 0,
        }
    }
}

} // verus!
