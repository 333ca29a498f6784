use vstd::prelude::*;

use crate::accounts::{Account, AdminAction, ClaimRewards, Deposit, Initialize, Withdraw};
use crate::errors::{InstructionError, VaultError};
use crate::events::{
    Deposited, RewardRateUpdated, RewardsClaimed, VaultInitialized, VaultPauseToggled, Withdrawn,
};
use crate::keys::Pubkey;
use crate::pda;
use crate::rewards;
use crate::state::{UserPosition, VaultState};

verus! {

/// The vault as the signer of a transfer.
#[derive(Clone, Copy, Debug, PartialEq, Eq)]
pub struct VaultSigner {
    pub deposit_mint: Pubkey,
    pub bump: u8,
}

impl VaultSigner {
    /// The seeds under which the vault signs.
    pub fn seeds(&self) -> (seeds: Vec<Vec<u8>>)
        ensures
            seeds.deep_view() == pda::vault_signer_seeds(self.deposit_mint, self.bump),
    {
        pda::signer_seeds(&self.deposit_mint, self.bump)
    }
}

/// A transfer that the token program is asked for. Without a `signer` the authority has signed
/// the instruction itself.
#[derive(Clone, Copy, Debug, PartialEq, Eq)]
pub struct TokenTransfer {
    pub from: Pubkey,
    pub to: Pubkey,
    pub authority: Pubkey,
    pub amount: u64,
    pub signer: Option<VaultSigner>,
}

/// A deposit whose rewards are settled and whose transfer is still to be made.
#[derive(Clone, Copy, Debug, PartialEq, Eq)]
pub struct PendingDeposit {
    pub accounts: Deposit,
    pub amount: u64,
    pub now: u64,
    pub transfer: TokenTransfer,
}

/// A withdrawal whose rewards are settled and whose transfer is still to be made.
#[derive(Clone, Copy, Debug, PartialEq, Eq)]
pub struct PendingWithdrawal {
    pub accounts: Withdraw,
    pub amount: u64,
    pub transfer: TokenTransfer,
}

/// A claim whose reward is known and whose transfer is still to be made.
#[derive(Clone, Copy, Debug, PartialEq, Eq)]
pub struct PendingClaim {
    pub accounts: ClaimRewards,
    pub amount: u64,
    pub transfer: TokenTransfer,
}

// ---------------------------------------------------------------------------------------------
// Initialize
// ---------------------------------------------------------------------------------------------
/// A vault as it begins: nothing staked, nothing earned, deposits open.
pub open spec fn opened_vault(
    accounts: Initialize,
    bump: u8,
    reward_rate_per_second: u64,
    now: u64,
) -> VaultState {
    VaultState {
        admin: accounts.admin,
        deposit_mint: accounts.deposit_mint,
        reward_mint: accounts.reward_mint,
        reward_rate_per_second,
        total_staked: 0,
        last_update_time: now,
        reward_per_token_stored: 0,
        paused: false,
        bump,
    }
}

/// What `initialize` announces.
pub open spec fn opening(accounts: Initialize, reward_rate_per_second: u64) -> VaultInitialized {
    VaultInitialized {
        admin: accounts.admin,
        deposit_mint: accounts.deposit_mint,
        reward_rate_per_second,
    }
}

/// The answer to `initialize`.
pub open spec fn initialize_answer(
    accounts: Initialize,
    program_id: Seq<u8>,
    reward_rate_per_second: u64,
    now: u64,
) -> Result<(VaultState, VaultInitialized), InstructionError> {
    let seeds = pda::vault_state_seeds(accounts.deposit_mint);
    match accounts.constraints(
        pda::found_bytes(seeds, program_id),
        pda::found_bytes(pda::vault_treasury_seeds(accounts.deposit_mint), program_id),
        pda::found_bytes(pda::reward_treasury_seeds(accounts.reward_mint), program_id),
    ) {
        Ok(()) => {
            let bump = pda::found_address(seeds, program_id)->Some_0.1;
            Ok(
                (
                    opened_vault(accounts, bump, reward_rate_per_second, now),
                    opening(accounts, reward_rate_per_second),
                ),
            )
        },
        Err(e) => Err(e),
    }
}

/// The state of a new vault whose address has the given bump seed, and its announcement.
pub fn open_vault(
    accounts: &Initialize,
    bump: u8,
    reward_rate_per_second: u64,
    now: u64,
) -> (res: (VaultState, VaultInitialized))
    ensures
        res.0 == opened_vault(*accounts, bump, reward_rate_per_second, now),
        res.1 == opening(*accounts, reward_rate_per_second),
{
    let vault_state = VaultState {
        admin: accounts.admin,
        deposit_mint: accounts.deposit_mint,
        reward_mint: accounts.reward_mint,
        reward_rate_per_second,
        total_staked: 0,
        last_update_time: now,
        reward_per_token_stored: 0,
        paused: false,
        bump,
    };
    let event = VaultInitialized {
        admin: vault_state.admin,
        deposit_mint: vault_state.deposit_mint,
        reward_rate_per_second,
    };
    (vault_state, event)
}

/// Opens a vault. The bump seed that the vault keeps derives its own address, so that the vault
/// signs for both of its treasuries.
pub fn initialize(
    accounts: &Initialize,
    program_id: &Pubkey,
    reward_rate_per_second: u64,
    unix_timestamp: i64,
) -> (res: Result<(VaultState, VaultInitialized), InstructionError>)
    ensures
        res == initialize_answer(
            *accounts,
            program_id@,
            reward_rate_per_second,
            rewards::clock_time(unix_timestamp),
        ),
        res matches Ok((vault_state, _)) ==> {
            let signer = pda::created_address(
                pda::vault_signer_seeds(vault_state.deposit_mint, vault_state.bump),
                program_id@,
            );
            &&& signer == Some(accounts.vault_state@)
            &&& signer == Some(accounts.vault_treasury.owner@)
            &&& signer == Some(accounts.reward_treasury.owner@)
        },
{
    let (address, bump): (Option<Pubkey>, u8) = match pda::find_vault_state(
        &accounts.deposit_mint,
        program_id,
    ) {
        Some((address, bump)) => (Some(address), bump),
        None => (None, 0),
    };
    let vault_treasury: Option<Pubkey> = pda::find_vault_treasury(
        &accounts.deposit_mint,
        program_id,
    );
    let reward_treasury: Option<Pubkey> = pda::find_reward_treasury(
        &accounts.reward_mint,
        program_id,
    );
    match accounts.check_constraints(&address, &vault_treasury, &reward_treasury) {
        Ok(()) => Ok(
            open_vault(
                accounts,
                bump,
                reward_rate_per_second,
                rewards::clock_seconds(unix_timestamp),
            ),
        ),
        Err(e) => Err(e),
    }
}

// ---------------------------------------------------------------------------------------------
// Deposit
// ---------------------------------------------------------------------------------------------
/// A deposit up to its transfer: the accumulator is brought up to `now`, the position's rewards
/// are settled, and the user is to pay `amount` into the treasury.
pub open spec fn deposit_begun(accounts: Deposit, amount: u64, now: u64) -> Result<
    PendingDeposit,
    VaultError,
> {
    let vault_state = accounts.vault_state.data;
    let current = rewards::accrued(vault_state, now);
    let user_position = accounts.user_position.data;
    if amount == 0 {
        Err(VaultError::ZeroAmount)
    } else if rewards::accumulator_at(vault_state, now) > u64::MAX || rewards::owed(
        current,
        user_position,
    ) > u64::MAX {
        Err(VaultError::MathOverflow)
    } else {
        Ok(
            PendingDeposit {
                accounts: Deposit {
                    vault_state: Account { key: accounts.vault_state.key, data: current },
                    user_position: Account {
                        key: accounts.user_position.key,
                        data: rewards::settled(current, user_position),
                    },
                    ..accounts
                },
                amount,
                now,
                transfer: TokenTransfer {
                    from: accounts.user_token_account.key,
                    to: accounts.vault_treasury.key,
                    authority: accounts.user,
                    amount,
                    signer: None,
                },
            },
        )
    }
}

/// A deposit after its transfer: the stake grows by the amount, and the position's debt is the
/// present accumulator.
pub open spec fn deposit_finished(pending: PendingDeposit) -> Result<
    (Deposit, Deposited),
    VaultError,
> {
    let accounts = pending.accounts;
    let vault_state = accounts.vault_state.data;
    let user_position = accounts.user_position.data;
    if vault_state.total_staked + pending.amount > u64::MAX || user_position.staked_amount
        + pending.amount > u64::MAX {
        Err(VaultError::MathOverflow)
    } else {
        Ok(
            (
                Deposit {
                    vault_state: Account {
                        key: accounts.vault_state.key,
                        data: VaultState {
                            total_staked: (vault_state.total_staked + pending.amount) as u64,
                            ..vault_state
                        },
                    },
                    user_position: Account {
                        key: accounts.user_position.key,
                        data: UserPosition {
                            owner: accounts.user,
                            staked_amount: (user_position.staked_amount + pending.amount) as u64,
                            reward_debt: vault_state.reward_per_token_stored,
                            last_update: pending.now,
                            ..user_position
                        },
                    },
                    ..accounts
                },
                Deposited {
                    user: accounts.user,
                    amount: pending.amount,
                    total_user_staked: (user_position.staked_amount + pending.amount) as u64,
                },
            ),
        )
    }
}

/// The answer to `deposit`.
pub open spec fn deposit_answer(
    accounts: Deposit,
    program_id: Seq<u8>,
    amount: u64,
    now: u64,
) -> Result<PendingDeposit, InstructionError> {
    match accounts.constraints(accounts.addresses(program_id)) {
        Ok(()) => match deposit_begun(accounts, amount, now) {
            Ok(pending) => Ok(pending),
            Err(e) => Err(InstructionError::Vault(e)),
        },
        Err(e) => Err(e),
    }
}

/// Begins a deposit on accounts that meet their constraints.
pub fn begin_deposit(accounts: &Deposit, amount: u64, now: u64) -> (res: Result<
    PendingDeposit,
    VaultError,
>)
    ensures
        res == deposit_begun(*accounts, amount, now),
{
    if amount == 0 {
        return Err(VaultError::ZeroAmount);
    }
    let mut vault_state: VaultState = accounts.vault_state.data;
    let mut user_position: UserPosition = accounts.user_position.data;
    match rewards::update_reward_per_token(&mut vault_state, now) {
        Ok(()) => {},
        Err(e) => {
            return Err(e);
        },
    }
    match rewards::settle_pending_rewards(&vault_state, &mut user_position) {
        Ok(()) => {},
        Err(e) => {
            return Err(e);
        },
    }
    Ok(
        PendingDeposit {
            accounts: Deposit {
                vault_state: Account { key: accounts.vault_state.key, data: vault_state },
                user_position: Account { key: accounts.user_position.key, data: user_position },
                vault_treasury: accounts.vault_treasury,
                user_token_account: accounts.user_token_account,
                user: accounts.user,
            },
            amount,
            now,
            transfer: TokenTransfer {
                from: accounts.user_token_account.key,
                to: accounts.vault_treasury.key,
                authority: accounts.user,
                amount,
                signer: None,
            },
        },
    )
}

/// Deposits `amount` of the user's tokens. The accounts change only when the deposit is
/// finished, which is for when the transfer has been made.
pub fn deposit(accounts: &Deposit, program_id: &Pubkey, amount: u64, unix_timestamp: i64) -> (res:
    Result<PendingDeposit, InstructionError>)
    ensures
        res == deposit_answer(
            *accounts,
            program_id@,
            amount,
            rewards::clock_time(unix_timestamp),
        ),
{
    match accounts.check_constraints(&accounts.derive_addresses(program_id)) {
        Ok(()) => match begin_deposit(accounts, amount, rewards::clock_seconds(unix_timestamp)) {
            Ok(pending) => Ok(pending),
            Err(e) => Err(InstructionError::Vault(e)),
        },
        Err(e) => Err(e),
    }
}

/// Finishes a deposit whose transfer has been made: the accounts as they are now, and the
/// announcement.
pub fn finish_deposit(pending: &PendingDeposit) -> (res: Result<(Deposit, Deposited), VaultError>)
    ensures
        res == deposit_finished(*pending),
{
    let mut accounts: Deposit = pending.accounts;
    let mut vault_state: VaultState = accounts.vault_state.data;
    let mut user_position: UserPosition = accounts.user_position.data;
    match vault_state.total_staked.checked_add(pending.amount) {
        Some(total_staked) => {
            vault_state.total_staked = total_staked;
        },
        None => {
            return Err(VaultError::MathOverflow);
        },
    }
    user_position.owner = accounts.user;
    match user_position.staked_amount.checked_add(pending.amount) {
        Some(staked_amount) => {
            user_position.staked_amount = staked_amount;
        },
        None => {
            return Err(VaultError::MathOverflow);
        },
    }
    user_position.reward_debt = vault_state.reward_per_token_stored;
    user_position.last_update = pending.now;
    let event = Deposited {
        user: accounts.user,
        amount: pending.amount,
        total_user_staked: user_position.staked_amount,
    };
    accounts.vault_state.data = vault_state;
    accounts.user_position.data = user_position;
    Ok((accounts, event))
}

// ---------------------------------------------------------------------------------------------
// Withdraw
// ---------------------------------------------------------------------------------------------
/// The vault as the signer of transfers out of its treasuries.
pub open spec fn vault_signer(vault_state: VaultState) -> VaultSigner {
    VaultSigner { deposit_mint: vault_state.deposit_mint, bump: vault_state.bump }
}

/// A withdrawal up to its transfer: the accumulator is brought up to `now`, the position's
/// rewards are settled, and the vault is to pay `amount` out of the treasury.
pub open spec fn withdraw_begun(accounts: Withdraw, amount: u64, now: u64) -> Result<
    PendingWithdrawal,
    VaultError,
> {
    let vault_state = accounts.vault_state.data;
    let current = rewards::accrued(vault_state, now);
    let user_position = accounts.user_position.data;
    if amount == 0 {
        Err(VaultError::ZeroAmount)
    } else if user_position.staked_amount < amount {
        Err(VaultError::InsufficientBalance)
    } else if rewards::accumulator_at(vault_state, now) > u64::MAX || rewards::owed(
        current,
        user_position,
    ) > u64::MAX {
        Err(VaultError::MathOverflow)
    } else {
        Ok(
            PendingWithdrawal {
                accounts: Withdraw {
                    vault_state: Account { key: accounts.vault_state.key, data: current },
                    user_position: Account {
                        key: accounts.user_position.key,
                        data: rewards::settled(current, user_position),
                    },
                    ..accounts
                },
                amount,
                transfer: TokenTransfer {
                    from: accounts.vault_treasury.key,
                    to: accounts.user_token_account.key,
                    authority: accounts.vault_state.key,
                    amount,
                    signer: Some(vault_signer(vault_state)),
                },
            },
        )
    }
}

/// A withdrawal after its transfer: the stake shrinks by the amount, and the position's debt is
/// the present accumulator.
pub open spec fn withdraw_finished(pending: PendingWithdrawal) -> Result<
    (Withdraw, Withdrawn),
    VaultError,
> {
    let accounts = pending.accounts;
    let vault_state = accounts.vault_state.data;
    let user_position = accounts.user_position.data;
    if vault_state.total_staked < pending.amount || user_position.staked_amount < pending.amount {
        Err(VaultError::MathOverflow)
    } else {
        Ok(
            (
                Withdraw {
                    vault_state: Account {
                        key: accounts.vault_state.key,
                        data: VaultState {
                            total_staked: (vault_state.total_staked - pending.amount) as u64,
                            ..vault_state
                        },
                    },
                    user_position: Account {
                        key: accounts.user_position.key,
                        data: UserPosition {
                            staked_amount: (user_position.staked_amount - pending.amount) as u64,
                            reward_debt: vault_state.reward_per_token_stored,
                            ..user_position
                        },
                    },
                    ..accounts
                },
                Withdrawn {
                    user: accounts.user,
                    amount: pending.amount,
                    remaining_staked: (user_position.staked_amount - pending.amount) as u64,
                },
            ),
        )
    }
}

/// The answer to `withdraw`.
pub open spec fn withdraw_answer(
    accounts: Withdraw,
    program_id: Seq<u8>,
    amount: u64,
    now: u64,
) -> Result<PendingWithdrawal, InstructionError> {
    match accounts.constraints(accounts.addresses(program_id)) {
        Ok(()) => match withdraw_begun(accounts, amount, now) {
            Ok(pending) => Ok(pending),
            Err(e) => Err(InstructionError::Vault(e)),
        },
        Err(e) => Err(e),
    }
}

/// Begins a withdrawal on accounts that meet their constraints.
pub fn begin_withdraw(accounts: &Withdraw, amount: u64, now: u64) -> (res: Result<
    PendingWithdrawal,
    VaultError,
>)
    ensures
        res == withdraw_begun(*accounts, amount, now),
{
    if amount == 0 {
        return Err(VaultError::ZeroAmount);
    }
    if accounts.user_position.data.staked_amount < amount {
        return Err(VaultError::InsufficientBalance);
    }
    let mut vault_state: VaultState = accounts.vault_state.data;
    let mut user_position: UserPosition = accounts.user_position.data;
    match rewards::update_reward_per_token(&mut vault_state, now) {
        Ok(()) => {},
        Err(e) => {
            return Err(e);
        },
    }
    match rewards::settle_pending_rewards(&vault_state, &mut user_position) {
        Ok(()) => {},
        Err(e) => {
            return Err(e);
        },
    }
    Ok(
        PendingWithdrawal {
            accounts: Withdraw {
                vault_state: Account { key: accounts.vault_state.key, data: vault_state },
                user_position: Account { key: accounts.user_position.key, data: user_position },
                vault_treasury: accounts.vault_treasury,
                user_token_account: accounts.user_token_account,
                user: accounts.user,
            },
            amount,
            transfer: TokenTransfer {
                from: accounts.vault_treasury.key,
                to: accounts.user_token_account.key,
                authority: accounts.vault_state.key,
                amount,
                signer: Some(
                    VaultSigner { deposit_mint: vault_state.deposit_mint, bump: vault_state.bump },
                ),
            },
        },
    )
}

/// Withdraws `amount` of the user's stake; the rewards earned so far stay with the position as
/// pending ones. The accounts change only when the withdrawal is finished, which is for when the
/// transfer has been made.
pub fn withdraw(accounts: &Withdraw, program_id: &Pubkey, amount: u64, unix_timestamp: i64) -> (res:
    Result<PendingWithdrawal, InstructionError>)
    ensures
        res == withdraw_answer(
            *accounts,
            program_id@,
            amount,
            rewards::clock_time(unix_timestamp),
        ),
{
    match accounts.check_constraints(&accounts.derive_addresses(program_id)) {
        Ok(()) => match begin_withdraw(accounts, amount, rewards::clock_seconds(unix_timestamp)) {
            Ok(pending) => Ok(pending),
            Err(e) => Err(InstructionError::Vault(e)),
        },
        Err(e) => Err(e),
    }
}

/// Finishes a withdrawal whose transfer has been made: the accounts as they are now, and the
/// announcement.
pub fn finish_withdraw(pending: &PendingWithdrawal) -> (res: Result<
    (Withdraw, Withdrawn),
    VaultError,
>)
    ensures
        res == withdraw_finished(*pending),
{
    let mut accounts: Withdraw = pending.accounts;
    let mut vault_state: VaultState = accounts.vault_state.data;
    let mut user_position: UserPosition = accounts.user_position.data;
    match vault_state.total_staked.checked_sub(pending.amount) {
        Some(total_staked) => {
            vault_state.total_staked = total_staked;
        },
        None => {
            return Err(VaultError::MathOverflow);
        },
    }
    match user_position.staked_amount.checked_sub(pending.amount) {
        Some(staked_amount) => {
            user_position.staked_amount = staked_amount;
        },
        None => {
            return Err(VaultError::MathOverflow);
        },
    }
    user_position.reward_debt = vault_state.reward_per_token_stored;
    let event = Withdrawn {
        user: accounts.user,
        amount: pending.amount,
        remaining_staked: user_position.staked_amount,
    };
    accounts.vault_state.data = vault_state;
    accounts.user_position.data = user_position;
    Ok((accounts, event))
}

// ---------------------------------------------------------------------------------------------
// Claim
// ---------------------------------------------------------------------------------------------
/// A claim up to its transfer: the accumulator is brought up to `now`, and the vault is to pay
/// all that it owes the position out of the reward treasury.
pub open spec fn claim_begun(accounts: ClaimRewards, now: u64) -> Result<PendingClaim, VaultError> {
    let vault_state = accounts.vault_state.data;
    let current = rewards::accrued(vault_state, now);
    let amount = rewards::owed(current, accounts.user_position.data);
    if rewards::accumulator_at(vault_state, now) > u64::MAX || amount > u64::MAX {
        Err(VaultError::MathOverflow)
    } else if amount == 0 {
        Err(VaultError::NoRewardsToClaim)
    } else {
        Ok(
            PendingClaim {
                accounts: ClaimRewards {
                    vault_state: Account { key: accounts.vault_state.key, data: current },
                    ..accounts
                },
                amount: amount as u64,
                transfer: TokenTransfer {
                    from: accounts.reward_treasury.key,
                    to: accounts.user_reward_account.key,
                    authority: accounts.vault_state.key,
                    amount: amount as u64,
                    signer: Some(vault_signer(vault_state)),
                },
            },
        )
    }
}

/// A claim after its transfer: nothing is pending, the position's debt is the present
/// accumulator, and the stake is untouched.
pub open spec fn claim_finished(pending: PendingClaim) -> Result<
    (ClaimRewards, RewardsClaimed),
    VaultError,
> {
    let accounts = pending.accounts;
    let user_position = accounts.user_position.data;
    if user_position.rewards_claimed + pending.amount > u64::MAX {
        Err(VaultError::MathOverflow)
    } else {
        Ok(
            (
                ClaimRewards {
                    user_position: Account {
                        key: accounts.user_position.key,
                        data: UserPosition {
                            rewards_claimed: (user_position.rewards_claimed
                                + pending.amount) as u64,
                            reward_debt: accounts.vault_state.data.reward_per_token_stored,
                            pending_rewards: 0,
                            ..user_position
                        },
                    },
                    ..accounts
                },
                RewardsClaimed { user: accounts.user, amount: pending.amount },
            ),
        )
    }
}

/// The answer to `claim_rewards`.
pub open spec fn claim_answer(accounts: ClaimRewards, program_id: Seq<u8>, now: u64) -> Result<
    PendingClaim,
    InstructionError,
> {
    match accounts.constraints(accounts.addresses(program_id)) {
        Ok(()) => match claim_begun(accounts, now) {
            Ok(pending) => Ok(pending),
            Err(e) => Err(InstructionError::Vault(e)),
        },
        Err(e) => Err(e),
    }
}

/// Begins a claim on accounts that meet their constraints.
pub fn begin_claim(accounts: &ClaimRewards, now: u64) -> (res: Result<PendingClaim, VaultError>)
    ensures
        res == claim_begun(*accounts, now),
{
    let mut vault_state: VaultState = accounts.vault_state.data;
    match rewards::update_reward_per_token(&mut vault_state, now) {
        Ok(()) => {},
        Err(e) => {
            return Err(e);
        },
    }
    let amount: u64 = match rewards::claimable_rewards(&vault_state, &accounts.user_position.data) {
        Ok(amount) => amount,
        Err(e) => {
            return Err(e);
        },
    };
    if amount == 0 {
        return Err(VaultError::NoRewardsToClaim);
    }
    Ok(
        PendingClaim {
            accounts: ClaimRewards {
                vault_state: Account { key: accounts.vault_state.key, data: vault_state },
                user_position: accounts.user_position,
                reward_treasury: accounts.reward_treasury,
                user_reward_account: accounts.user_reward_account,
                user: accounts.user,
            },
            amount,
            transfer: TokenTransfer {
                from: accounts.reward_treasury.key,
                to: accounts.user_reward_account.key,
                authority: accounts.vault_state.key,
                amount,
                signer: Some(
                    VaultSigner { deposit_mint: vault_state.deposit_mint, bump: vault_state.bump },
                ),
            },
        },
    )
}

/// Claims all rewards of the user without touching the stake. The accounts change only when the
/// claim is finished, which is for when the transfer has been made.
pub fn claim_rewards(accounts: &ClaimRewards, program_id: &Pubkey, unix_timestamp: i64) -> (res:
    Result<PendingClaim, InstructionError>)
    ensures
        res == claim_answer(*accounts, program_id@, rewards::clock_time(unix_timestamp)),
{
    match accounts.check_constraints(&accounts.derive_addresses(program_id)) {
        Ok(()) => match begin_claim(accounts, rewards::clock_seconds(unix_timestamp)) {
            Ok(pending) => Ok(pending),
            Err(e) => Err(InstructionError::Vault(e)),
        },
        Err(e) => Err(e),
    }
}

/// Finishes a claim whose transfer has been made: the accounts as they are now, and the
/// announcement.
pub fn finish_claim(pending: &PendingClaim) -> (res: Result<
    (ClaimRewards, RewardsClaimed),
    VaultError,
>)
    ensures
        res == claim_finished(*pending),
{
    let mut accounts: ClaimRewards = pending.accounts;
    let mut user_position: UserPosition = accounts.user_position.data;
    match user_position.rewards_claimed.checked_add(pending.amount) {
        Some(rewards_claimed) => {
            user_position.rewards_claimed = rewards_claimed;
        },
        None => {
            return Err(VaultError::MathOverflow);
        },
    }
    user_position.reward_debt = accounts.vault_state.data.reward_per_token_stored;
    user_position.pending_rewards = 0;
    accounts.user_position.data = user_position;
    Ok((accounts, RewardsClaimed { user: accounts.user, amount: pending.amount }))
}

// ---------------------------------------------------------------------------------------------
// Administration
// ---------------------------------------------------------------------------------------------
/// The vault with its accumulator brought up to `now` under the old rate, and with the new rate
/// from there on.
pub open spec fn rate_changed(vault_state: VaultState, new_rate: u64, now: u64) -> Result<
    (VaultState, RewardRateUpdated),
    VaultError,
> {
    if rewards::accumulator_at(vault_state, now) > u64::MAX {
        Err(VaultError::MathOverflow)
    } else {
        Ok(
            (
                VaultState {
                    reward_rate_per_second: new_rate,
                    ..rewards::accrued(vault_state, now)
                },
                RewardRateUpdated { old_rate: vault_state.reward_rate_per_second, new_rate },
            ),
        )
    }
}

/// The answer to `set_reward_rate`: the accounts afterwards and the announcement.
pub open spec fn set_reward_rate_answer(
    accounts: AdminAction,
    program_id: Seq<u8>,
    new_rate: u64,
    now: u64,
) -> Result<(AdminAction, RewardRateUpdated), InstructionError> {
    match accounts.constraints(accounts.address(program_id)) {
        Ok(()) => match rate_changed(accounts.vault_state.data, new_rate, now) {
            Ok((vault_state, event)) => Ok(
                (
                    AdminAction {
                        vault_state: Account { key: accounts.vault_state.key, data: vault_state },
                        ..accounts
                    },
                    event,
                ),
            ),
            Err(e) => Err(InstructionError::Vault(e)),
        },
        Err(e) => Err(e),
    }
}

/// The answer to `set_paused`: the accounts afterwards and the announcement.
pub open spec fn set_paused_answer(accounts: AdminAction, program_id: Seq<u8>, paused: bool) -> Result<
    (AdminAction, VaultPauseToggled),
    InstructionError,
> {
    match accounts.constraints(accounts.address(program_id)) {
        Ok(()) => Ok(
            (
                AdminAction {
                    vault_state: Account {
                        key: accounts.vault_state.key,
                        data: VaultState { paused, ..accounts.vault_state.data },
                    },
                    ..accounts
                },
                VaultPauseToggled { paused },
            ),
        ),
        Err(e) => Err(e),
    }
}

/// Changes the rate of a vault whose administrator asks for it.
pub fn change_rate(vault_state: &mut VaultState, new_rate: u64, now: u64) -> (res: Result<
    RewardRateUpdated,
    VaultError,
>)
    ensures
        match rate_changed(*old(vault_state), new_rate, now) {
            Ok((after, event)) => res == Ok::<RewardRateUpdated, VaultError>(event)
                && *final(vault_state) == after,
            Err(e) => res == Err::<RewardRateUpdated, VaultError>(e) && *final(vault_state)
                == *old(vault_state),
        },
{
    match rewards::update_reward_per_token(vault_state, now) {
        Ok(()) => {},
        Err(e) => {
            return Err(e);
        },
    }
    let old_rate: u64 = vault_state.reward_rate_per_second;
    vault_state.reward_rate_per_second = new_rate;
    Ok(RewardRateUpdated { old_rate, new_rate })
}

/// Sets the rate at which rewards are emitted from now on. A refusal changes nothing.
pub fn set_reward_rate(
    accounts: &mut AdminAction,
    program_id: &Pubkey,
    new_rate: u64,
    unix_timestamp: i64,
) -> (res: Result<RewardRateUpdated, InstructionError>)
    ensures
        match set_reward_rate_answer(
            *old(accounts),
            program_id@,
            new_rate,
            rewards::clock_time(unix_timestamp),
        ) {
            Ok((after, event)) => res == Ok::<RewardRateUpdated, InstructionError>(event)
                && *final(accounts) == after,
            Err(e) => res == Err::<RewardRateUpdated, InstructionError>(e) && *final(accounts)
                == *old(accounts),
        },
{
    match accounts.check_constraints(&accounts.derive_address(program_id)) {
        Ok(()) => {},
        Err(e) => {
            return Err(e);
        },
    }
    let now: u64 = rewards::clock_seconds(unix_timestamp);
    match change_rate(&mut accounts.vault_state.data, new_rate, now) {
        Ok(event) => Ok(event),
        Err(e) => Err(InstructionError::Vault(e)),
    }
}

/// Halts deposits, or opens them again. A refusal changes nothing.
pub fn set_paused(accounts: &mut AdminAction, program_id: &Pubkey, paused: bool) -> (res: Result<
    VaultPauseToggled,
    InstructionError,
>)
    ensures
        match set_paused_answer(*old(accounts), program_id@, paused) {
            Ok((after, event)) => res == Ok::<VaultPauseToggled, InstructionError>(event)
                && *final(accounts) == after,
            Err(e) => res == Err::<VaultPauseToggled, InstructionError>(e) && *final(accounts)
                == *old(accounts),
        },
{
    match accounts.check_constraints(&accounts.derive_address(program_id)) {
        Ok(()) => {},
        Err(e) => {
            return Err(e);
        },
    }
    accounts.vault_state.data.paused = paused;
    Ok(VaultPauseToggled { paused })
}

} // verus!
