//! A staking vault: users deposit tokens, and reward tokens accrue to them every second in
//! proportion to their share of the stake.
//!
//! Rewards are kept with a reward-per-token accumulator, so that no instruction ever walks
//! over the positions. The library decides; the calls into the chain's runtime (the clock, the
//! token transfers, the account storage) are made around it by its caller.
//!
//! * [`keys`]: account addresses.
//! * [`errors`]: the errors of the vault and of the account constraints.
//! * [`state`]: the state of a vault and of a user's position.
//! * [`events`]: what each instruction announces.
//! * [`rewards`]: the accumulator and the rewards that follow from it.
//! * [`pda`]: the program derived addresses of the vault's accounts.
//! * [`accounts`]: the accounts of each instruction and the constraints on them.
//! * [`instructions`]: the instructions.
//! * [`promises`]: what each operation does, in plain numbers.
//! * [`laws`]: what holds of the instructions together.
//! * [`ledger`]: what holds of a vault with all of its positions.

pub mod accounts;
pub mod errors;
pub mod events;
pub mod instructions;
pub mod keys;
pub mod laws;
pub mod ledger;
pub mod pda;
pub mod promises;
pub mod rewards;
pub mod state;
