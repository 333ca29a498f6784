//! What each operation does, in plain numbers: when it succeeds, which error it gives otherwise,
//! and every field of what it leaves behind, in terms of what was there before.

use vstd::arithmetic::div_mod::*;
use vstd::prelude::*;
use vstd::string::*;

use crate::accounts::{
    AddressBytes, AdminAction, ClaimRewards, Deposit, DerivedAddresses, Initialize, Withdraw,
};
use crate::errors::{ConstraintError, InstructionError, VaultError};
use crate::instructions;
use crate::instructions::{PendingClaim, PendingDeposit, PendingWithdrawal};
use crate::keys::Pubkey;
use crate::laws;
use crate::pda;
use crate::rewards;
use crate::rewards::PRECISION;
use crate::state::{UserPosition, VaultState};

verus! {

// ---------------------------------------------------------------------------------------------
// Time and rewards
// ---------------------------------------------------------------------------------------------
/// A reading of the clock from the epoch on is taken as it is; every reading is kept up to a
/// multiple of two to the power of 64.
pub proof fn law_clock_in_numbers(unix_timestamp: i64)
    ensures
        unix_timestamp >= 0 ==> rewards::clock_time(unix_timestamp) == unix_timestamp,
        unix_timestamp < 0 ==> rewards::clock_time(unix_timestamp) - unix_timestamp
            == 18_446_744_073_709_551_616,
{
}

/// With something staked, and the clock not before the last update, the accumulator grows by
/// exactly `(now - last_update_time) * rate * 1_000_000_000 / total_staked`, rounded down.
pub proof fn law_accumulator_grows_by_the_time_passed(vault_state: VaultState, now: u64)
    requires
        vault_state.total_staked > 0,
        now >= vault_state.last_update_time,
    ensures
        ({
            let total = vault_state.total_staked as int;
            let reward = (now - vault_state.last_update_time) * vault_state.reward_rate_per_second
                * 1_000_000_000;
            let grown = rewards::accumulator_at(vault_state, now)
                - vault_state.reward_per_token_stored;
            &&& grown == reward / total
            &&& 0 <= grown
            &&& grown * total <= reward < (grown + 1) * total
        }),
{
    let total = vault_state.total_staked as int;
    let seconds = now - vault_state.last_update_time;
    let rate = vault_state.reward_rate_per_second as int;
    let reward = seconds * rate * 1_000_000_000;
    assert(reward >= 0) by (nonlinear_arith)
        requires
            seconds >= 0,
            rate >= 0,
            reward == seconds * rate * 1_000_000_000,
    ;
    lemma_fundamental_div_mod(reward, total);
    lemma_div_pos_is_pos(reward, total);
    let grown = reward / total;
    assert(grown * total <= reward < (grown + 1) * total) by (nonlinear_arith)
        requires
            reward == total * grown + reward % total,
            0 <= reward % total < total,
    ;
}

/// With nothing staked, or the clock not after the last update, the accumulator stays.
pub proof fn law_accumulator_stays_otherwise(vault_state: VaultState, now: u64)
    requires
        vault_state.total_staked == 0 || now <= vault_state.last_update_time,
    ensures
        rewards::accumulator_at(vault_state, now) == vault_state.reward_per_token_stored,
{
    if vault_state.total_staked > 0 {
        let rate = vault_state.reward_rate_per_second as nat;
        assert(0nat * rate * (PRECISION as nat) == 0) by (nonlinear_arith);
        lemma_div_of0(vault_state.total_staked as int);
    }
}

/// The accumulator is never behind what is stored, and the growth is never negative.
pub proof fn law_accumulator_never_behind(vault_state: VaultState, now: u64)
    ensures
        rewards::accumulator_at(vault_state, now) >= vault_state.reward_per_token_stored,
        vault_state.total_staked > 0 && now >= vault_state.last_update_time ==> (now
            - vault_state.last_update_time) * vault_state.reward_rate_per_second * 1_000_000_000 / (
        vault_state.total_staked as int) >= 0,
{
    if vault_state.total_staked > 0 && now >= vault_state.last_update_time {
        law_accumulator_grows_by_the_time_passed(vault_state, now);
    }
}

/// The accumulator at `now`, in numbers.
proof fn lemma_accumulator(vault_state: VaultState, now: u64)
    ensures
        rewards::accumulator_at(vault_state, now) == vault_state.reward_per_token_stored + (if vault_state.total_staked
            > 0 && now >= vault_state.last_update_time {
            (now - vault_state.last_update_time) * vault_state.reward_rate_per_second
                * 1_000_000_000 / (vault_state.total_staked as int)
        } else {
            0
        }),
{
    if vault_state.total_staked > 0 && now >= vault_state.last_update_time {
        law_accumulator_grows_by_the_time_passed(vault_state, now);
    } else {
        law_accumulator_stays_otherwise(vault_state, now);
    }
}

/// An update that fits stores the accumulator, and the later of the two times where something is
/// staked, the present one where nothing is. It changes nothing else.
pub proof fn law_update_in_numbers(vault_state: VaultState, now: u64)
    requires
        rewards::accumulator_at(vault_state, now) <= u64::MAX,
    ensures
        ({
            let after = rewards::accrued(vault_state, now);
            &&& vault_state.total_staked > 0 && now >= vault_state.last_update_time ==> {
                &&& after.reward_per_token_stored == vault_state.reward_per_token_stored + (now
                    - vault_state.last_update_time) * vault_state.reward_rate_per_second
                    * 1_000_000_000 / (vault_state.total_staked as int)
                &&& after.last_update_time == now
            }
            &&& vault_state.total_staked > 0 && now < vault_state.last_update_time ==> after
                == vault_state
            &&& vault_state.total_staked == 0 ==> {
                &&& after.reward_per_token_stored == vault_state.reward_per_token_stored
                &&& after.last_update_time == now
            }
            &&& after.admin == vault_state.admin
            &&& after.deposit_mint == vault_state.deposit_mint
            &&& after.reward_mint == vault_state.reward_mint
            &&& after.reward_rate_per_second == vault_state.reward_rate_per_second
            &&& after.total_staked == vault_state.total_staked
            &&& after.paused == vault_state.paused
            &&& after.bump == vault_state.bump
        }),
{
    lemma_accumulator(vault_state, now);
}

/// A position earns its stake times what the accumulator moved past its debt, over
/// 1_000_000_000, rounded down; nothing, where its debt is not behind.
pub proof fn law_earned_in_numbers(vault_state: VaultState, user_position: UserPosition)
    ensures
        ({
            let staked = user_position.staked_amount as int;
            let moved = vault_state.reward_per_token_stored - user_position.reward_debt;
            let earned = rewards::newly_earned(vault_state, user_position) as int;
            &&& moved >= 0 ==> earned == staked * moved / 1_000_000_000
            &&& moved >= 0 ==> earned * 1_000_000_000 <= staked * moved < (earned + 1)
                * 1_000_000_000
            &&& moved <= 0 ==> earned == 0
        }),
{
    let staked = user_position.staked_amount as int;
    let moved = vault_state.reward_per_token_stored - user_position.reward_debt;
    if moved >= 0 {
        assert(staked * moved >= 0) by (nonlinear_arith)
            requires
                staked >= 0,
                moved >= 0,
        ;
        lemma_fundamental_div_mod(staked * moved, 1_000_000_000);
    }
    if moved <= 0 {
        assert(user_position.staked_amount as nat * 0nat == 0) by (nonlinear_arith);
        lemma_div_of0(PRECISION as int);
    }
}

/// What is owed is what is pending and what is newly earned. Settling makes all of it pending and
/// changes nothing else.
pub proof fn law_settling_in_numbers(vault_state: VaultState, user_position: UserPosition)
    ensures
        rewards::owed(vault_state, user_position) == user_position.pending_rewards + (if vault_state.reward_per_token_stored
            >= user_position.reward_debt {
            user_position.staked_amount * (vault_state.reward_per_token_stored
                - user_position.reward_debt) / 1_000_000_000
        } else {
            0
        }),
        rewards::owed(vault_state, user_position) <= u64::MAX ==> ({
            let after = rewards::settled(vault_state, user_position);
            &&& after.pending_rewards == rewards::owed(vault_state, user_position)
            &&& after.owner == user_position.owner
            &&& after.staked_amount == user_position.staked_amount
            &&& after.reward_debt == user_position.reward_debt
            &&& after.rewards_claimed == user_position.rewards_claimed
            &&& after.last_update == user_position.last_update
        }),
{
    law_earned_in_numbers(vault_state, user_position);
}

// ---------------------------------------------------------------------------------------------
// Addresses
// ---------------------------------------------------------------------------------------------
/// The seeds of each account: a label, then the addresses that single it out; a vault signs under
/// the seeds of its state with its bump seed last.
pub proof fn law_seeds(deposit_mint: Pubkey, reward_mint: Pubkey, vault: Pubkey, user: Pubkey, bump: u8)
    ensures
        pda::vault_state_seeds(deposit_mint) == seq!["vault_state".spec_bytes(), deposit_mint.bytes@],
        pda::vault_treasury_seeds(deposit_mint) == seq![
            "vault_treasury".spec_bytes(),
            deposit_mint.bytes@,
        ],
        pda::reward_treasury_seeds(reward_mint) == seq![
            "reward_treasury".spec_bytes(),
            reward_mint.bytes@,
        ],
        pda::user_position_seeds(vault, user) == seq![
            "user_position".spec_bytes(),
            vault.bytes@,
            user.bytes@,
        ],
        pda::vault_signer_seeds(deposit_mint, bump) == seq![
            "vault_state".spec_bytes(),
            deposit_mint.bytes@,
            seq![bump],
        ],
{
    assert(pda::vault_signer_seeds(deposit_mint, bump) =~= seq![
        "vault_state".spec_bytes(),
        deposit_mint.bytes@,
        seq![bump],
    ]);
}

/// Derived addresses are compared by their bytes, and an address that is found is the one beside
/// its bump seed.
pub proof fn law_derived_bytes(
    addresses: DerivedAddresses,
    address: Pubkey,
    seeds: Seq<Seq<u8>>,
    program_id: Seq<u8>,
)
    ensures
        pda::address_bytes(Some(address)) == Some(address.bytes@),
        pda::address_bytes(None) == None::<Seq<u8>>,
        pda::found_address(seeds, program_id) is None ==> pda::found_bytes(seeds, program_id) is None,
        pda::found_address(seeds, program_id) matches Some(found) ==> pda::found_bytes(
            seeds,
            program_id,
        ) == Some(found.0),
        addresses@.vault_state == pda::address_bytes(addresses.vault_state),
        addresses@.user_position == pda::address_bytes(addresses.user_position),
        addresses@.treasury == pda::address_bytes(addresses.treasury),
{
}

/// The addresses at which an instruction expects its accounts: the vault under its own bump seed,
/// the user's position in it, and the treasury concerned.
pub proof fn law_expected_addresses(
    deposit: Deposit,
    withdrawal: Withdraw,
    claim: ClaimRewards,
    admin: AdminAction,
    program_id: Seq<u8>,
)
    ensures
        ({
            let state = deposit.vault_state.data;
            let expected = deposit.addresses(program_id);
            &&& expected.vault_state == pda::created_address(
                seq!["vault_state".spec_bytes(), state.deposit_mint.bytes@, seq![state.bump]],
                program_id,
            )
            &&& expected.user_position == pda::found_bytes(
                seq![
                    "user_position".spec_bytes(),
                    deposit.vault_state.key.bytes@,
                    deposit.user.bytes@,
                ],
                program_id,
            )
            &&& expected.treasury == pda::found_bytes(
                seq!["vault_treasury".spec_bytes(), state.deposit_mint.bytes@],
                program_id,
            )
        }),
        ({
            let state = withdrawal.vault_state.data;
            let expected = withdrawal.addresses(program_id);
            &&& expected.vault_state == pda::created_address(
                seq!["vault_state".spec_bytes(), state.deposit_mint.bytes@, seq![state.bump]],
                program_id,
            )
            &&& expected.user_position == pda::found_bytes(
                seq![
                    "user_position".spec_bytes(),
                    withdrawal.vault_state.key.bytes@,
                    withdrawal.user.bytes@,
                ],
                program_id,
            )
            &&& expected.treasury == pda::found_bytes(
                seq!["vault_treasury".spec_bytes(), state.deposit_mint.bytes@],
                program_id,
            )
        }),
        ({
            let state = claim.vault_state.data;
            let expected = claim.addresses(program_id);
            &&& expected.vault_state == pda::created_address(
                seq!["vault_state".spec_bytes(), state.deposit_mint.bytes@, seq![state.bump]],
                program_id,
            )
            &&& expected.user_position == pda::found_bytes(
                seq![
                    "user_position".spec_bytes(),
                    claim.vault_state.key.bytes@,
                    claim.user.bytes@,
                ],
                program_id,
            )
            &&& expected.treasury == pda::found_bytes(
                seq!["reward_treasury".spec_bytes(), state.reward_mint.bytes@],
                program_id,
            )
        }),
        ({
            let state = admin.vault_state.data;
            admin.address(program_id) == pda::created_address(
                seq!["vault_state".spec_bytes(), state.deposit_mint.bytes@, seq![state.bump]],
                program_id,
            )
        }),
{
    law_seeds(
        deposit.vault_state.data.deposit_mint,
        claim.vault_state.data.reward_mint,
        deposit.vault_state.key,
        deposit.user,
        deposit.vault_state.data.bump,
    );
    law_seeds(
        withdrawal.vault_state.data.deposit_mint,
        claim.vault_state.data.reward_mint,
        withdrawal.vault_state.key,
        withdrawal.user,
        withdrawal.vault_state.data.bump,
    );
    law_seeds(
        claim.vault_state.data.deposit_mint,
        claim.vault_state.data.reward_mint,
        claim.vault_state.key,
        claim.user,
        claim.vault_state.data.bump,
    );
    law_seeds(
        admin.vault_state.data.deposit_mint,
        claim.vault_state.data.reward_mint,
        claim.vault_state.key,
        claim.user,
        admin.vault_state.data.bump,
    );
}

// ---------------------------------------------------------------------------------------------
// Constraints
// ---------------------------------------------------------------------------------------------
/// A vault is opened where its account and both treasuries stand at their addresses, each treasury
/// holds its token, and both belong to the vault. The first thing that is wrong is reported.
pub proof fn law_initialize_constraints(
    accounts: Initialize,
    vault_state: Option<Seq<u8>>,
    vault_treasury: Option<Seq<u8>>,
    reward_treasury: Option<Seq<u8>>,
)
    ensures
        ({
            let answer = accounts.constraints(vault_state, vault_treasury, reward_treasury);
            let first = vault_state == Some(accounts.vault_state.bytes@) && vault_treasury == Some(
                accounts.vault_treasury.key.bytes@,
            );
            let second = first && accounts.vault_treasury.mint == accounts.deposit_mint
                && accounts.vault_treasury.owner == accounts.vault_state;
            let third = second && reward_treasury == Some(accounts.reward_treasury.key.bytes@);
            &&& answer is Ok <==> third && accounts.reward_treasury.mint == accounts.reward_mint
                && accounts.reward_treasury.owner == accounts.vault_state
            &&& !first || second && !third ==> answer is Err && answer->Err_0
                == InstructionError::Constraint(ConstraintError::Seeds)
            &&& first && accounts.vault_treasury.mint != accounts.deposit_mint || third
                && accounts.reward_treasury.mint != accounts.reward_mint ==> answer is Err
                && answer->Err_0 == InstructionError::Constraint(ConstraintError::TokenMint)
            &&& first && accounts.vault_treasury.mint == accounts.deposit_mint
                && accounts.vault_treasury.owner != accounts.vault_state || third
                && accounts.reward_treasury.mint == accounts.reward_mint
                && accounts.reward_treasury.owner != accounts.vault_state ==> answer is Err
                && answer->Err_0 == InstructionError::Constraint(ConstraintError::TokenOwner)
        }),
{
}

/// A deposit is let through where the vault, the position and the treasury stand at their
/// addresses, the vault is not paused, and the treasury and the user's token account hold the
/// deposit token, the latter in the user's name. The first thing that is wrong is reported.
pub proof fn law_deposit_constraints(accounts: Deposit, addresses: AddressBytes)
    ensures
        ({
            let answer = accounts.constraints(addresses);
            let mint = accounts.vault_state.data.deposit_mint;
            let placed = addresses.user_position == Some(accounts.user_position.key.bytes@)
                && addresses.vault_state == Some(accounts.vault_state.key.bytes@);
            let open = placed && !accounts.vault_state.data.paused;
            let found = open && addresses.treasury == Some(accounts.vault_treasury.key.bytes@);
            let sound = found && accounts.vault_treasury.mint == mint;
            let own = sound && accounts.user_token_account.owner == accounts.user;
            &&& answer is Ok <==> own && accounts.user_token_account.mint == mint
            &&& !placed || open && !found ==> answer is Err && answer->Err_0
                == InstructionError::Constraint(ConstraintError::Seeds)
            &&& placed && !open ==> answer is Err && answer->Err_0 == InstructionError::Vault(
                VaultError::VaultPaused,
            )
            &&& found && !sound || own && accounts.user_token_account.mint != mint ==> answer is Err
                && answer->Err_0 == InstructionError::Constraint(ConstraintError::TokenMint)
            &&& sound && !own ==> answer is Err && answer->Err_0 == InstructionError::Constraint(
                ConstraintError::TokenOwner,
            )
        }),
{
}

/// A withdrawal is let through where the vault, the position and the treasury stand at their
/// addresses, the position is the user's, and the user's token account holds the deposit token in
/// the user's name. The first thing that is wrong is reported.
pub proof fn law_withdraw_constraints(accounts: Withdraw, addresses: AddressBytes)
    ensures
        ({
            let answer = accounts.constraints(addresses);
            let placed = addresses.vault_state == Some(accounts.vault_state.key.bytes@)
                && addresses.user_position == Some(accounts.user_position.key.bytes@);
            let entitled = placed && accounts.user_position.data.owner == accounts.user;
            let found = entitled && addresses.treasury == Some(accounts.vault_treasury.key.bytes@);
            let own = found && accounts.user_token_account.owner == accounts.user;
            let held = own && accounts.user_token_account.mint
                == accounts.vault_state.data.deposit_mint;
            &&& answer is Ok <==> held
            &&& !placed || entitled && !found ==> answer is Err && answer->Err_0
                == InstructionError::Constraint(ConstraintError::Seeds)
            &&& placed && !entitled ==> answer is Err && answer->Err_0 == InstructionError::Vault(
                VaultError::Unauthorized,
            )
            &&& found && !own ==> answer is Err && answer->Err_0 == InstructionError::Constraint(
                ConstraintError::TokenOwner,
            )
            &&& own && !held ==> answer is Err && answer->Err_0 == InstructionError::Constraint(
                ConstraintError::TokenMint,
            )
        }),
{
}

/// A claim is let through where the vault, the position and the reward treasury stand at their
/// addresses, the position is the user's, and the user's reward account holds the reward token in
/// the user's name. The first thing that is wrong is reported.
pub proof fn law_claim_constraints(accounts: ClaimRewards, addresses: AddressBytes)
    ensures
        ({
            let answer = accounts.constraints(addresses);
            let placed = addresses.vault_state == Some(accounts.vault_state.key.bytes@)
                && addresses.user_position == Some(accounts.user_position.key.bytes@);
            let entitled = placed && accounts.user_position.data.owner == accounts.user;
            let found = entitled && addresses.treasury == Some(accounts.reward_treasury.key.bytes@);
            let own = found && accounts.user_reward_account.owner == accounts.user;
            let held = own && accounts.user_reward_account.mint
                == accounts.vault_state.data.reward_mint;
            &&& answer is Ok <==> held
            &&& !placed || entitled && !found ==> answer is Err && answer->Err_0
                == InstructionError::Constraint(ConstraintError::Seeds)
            &&& placed && !entitled ==> answer is Err && answer->Err_0 == InstructionError::Vault(
                VaultError::Unauthorized,
            )
            &&& found && !own ==> answer is Err && answer->Err_0 == InstructionError::Constraint(
                ConstraintError::TokenOwner,
            )
            &&& own && !held ==> answer is Err && answer->Err_0 == InstructionError::Constraint(
                ConstraintError::TokenMint,
            )
        }),
{
}

/// An administrator's instruction is let through where the vault stands at its address and the
/// signer is its administrator. The first thing that is wrong is reported.
pub proof fn law_admin_constraints(accounts: AdminAction, vault_state: Option<Seq<u8>>)
    ensures
        ({
            let answer = accounts.constraints(vault_state);
            let placed = vault_state == Some(accounts.vault_state.key.bytes@);
            &&& answer is Ok <==> placed && accounts.vault_state.data.admin == accounts.admin
            &&& !placed ==> answer is Err && answer->Err_0 == InstructionError::Constraint(
                ConstraintError::Seeds,
            )
            &&& placed && accounts.vault_state.data.admin != accounts.admin ==> answer is Err
                && answer->Err_0 == InstructionError::Vault(VaultError::Unauthorized)
        }),
{
}

// ---------------------------------------------------------------------------------------------
// Initialize
// ---------------------------------------------------------------------------------------------
/// A vault is opened wherever its accounts meet their constraints, whatever the rate and the time.
/// It begins with nothing staked and nothing earned, open for deposits, under the rate, the time
/// and the accounts that it was opened with and the bump seed of its address; it is announced so.
pub proof fn law_initialize_in_numbers(
    accounts: Initialize,
    program_id: Seq<u8>,
    reward_rate_per_second: u64,
    now: u64,
)
    ensures
        ({
            let found = pda::found_address(
                seq!["vault_state".spec_bytes(), accounts.deposit_mint.bytes@],
                program_id,
            );
            let met = accounts.constraints(
                match found {
                    Some(f) => Some(f.0),
                    None => None,
                },
                pda::found_bytes(
                    seq!["vault_treasury".spec_bytes(), accounts.deposit_mint.bytes@],
                    program_id,
                ),
                pda::found_bytes(
                    seq!["reward_treasury".spec_bytes(), accounts.reward_mint.bytes@],
                    program_id,
                ),
            );
            let answer = instructions::initialize_answer(
                accounts,
                program_id,
                reward_rate_per_second,
                now,
            );
            &&& met is Ok <==> answer is Ok
            &&& met is Err ==> answer->Err_0 == met->Err_0
            &&& answer matches Ok((state, event)) ==> {
                &&& found matches Some(f) && state.bump == f.1
                &&& state.admin == accounts.admin
                &&& state.deposit_mint == accounts.deposit_mint
                &&& state.reward_mint == accounts.reward_mint
                &&& state.reward_rate_per_second == reward_rate_per_second
                &&& state.total_staked == 0
                &&& state.last_update_time == now
                &&& state.reward_per_token_stored == 0
                &&& !state.paused
                &&& event.admin == accounts.admin
                &&& event.deposit_mint == accounts.deposit_mint
                &&& event.reward_rate_per_second == reward_rate_per_second
            }
        }),
{
    law_seeds(accounts.deposit_mint, accounts.reward_mint, accounts.admin, accounts.admin, 0);
}

/// A new vault and its announcement, field by field.
pub proof fn law_opening_in_numbers(
    accounts: Initialize,
    bump: u8,
    reward_rate_per_second: u64,
    now: u64,
)
    ensures
        ({
            let state = instructions::opened_vault(accounts, bump, reward_rate_per_second, now);
            &&& state.bump == bump
            &&& state.admin == accounts.admin
            &&& state.deposit_mint == accounts.deposit_mint
            &&& state.reward_mint == accounts.reward_mint
            &&& state.reward_rate_per_second == reward_rate_per_second
            &&& state.total_staked == 0
            &&& state.last_update_time == now
            &&& state.reward_per_token_stored == 0
            &&& !state.paused
        }),
        ({
            let event = instructions::opening(accounts, reward_rate_per_second);
            &&& event.admin == accounts.admin
            &&& event.deposit_mint == accounts.deposit_mint
            &&& event.reward_rate_per_second == reward_rate_per_second
        }),
{
}

/// What is owed at `now`, in numbers.
proof fn lemma_owed(vault_state: VaultState, user_position: UserPosition, now: u64)
    requires
        rewards::accumulator_at(vault_state, now) <= u64::MAX,
    ensures
        ({
            let per_token = vault_state.reward_per_token_stored + (if vault_state.total_staked > 0
                && now >= vault_state.last_update_time {
                (now - vault_state.last_update_time) * vault_state.reward_rate_per_second
                    * 1_000_000_000 / (vault_state.total_staked as int)
            } else {
                0
            });
            let owed = user_position.pending_rewards + (if per_token >= user_position.reward_debt {
                user_position.staked_amount * (per_token - user_position.reward_debt)
                    / 1_000_000_000
            } else {
                0
            });
            &&& rewards::accumulator_at(vault_state, now) == per_token
            &&& rewards::owed(rewards::accrued(vault_state, now), user_position) == owed
        }),
{
    lemma_accumulator(vault_state, now);
    law_settling_in_numbers(rewards::accrued(vault_state, now), user_position);
}

// ---------------------------------------------------------------------------------------------
// Deposit
// ---------------------------------------------------------------------------------------------
/// A deposit begins at any time and for any amount but zero, wherever the accumulator and the
/// rewards owed fit in 64 bits; a number that does not fit is the only other reason to refuse it.
pub proof fn law_when_a_deposit_begins(accounts: Deposit, amount: u64, now: u64)
    ensures
        ({
            let vault_state = accounts.vault_state.data;
            let user_position = accounts.user_position.data;
            let per_token = vault_state.reward_per_token_stored + (if vault_state.total_staked > 0
                && now >= vault_state.last_update_time {
                (now - vault_state.last_update_time) * vault_state.reward_rate_per_second
                    * 1_000_000_000 / (vault_state.total_staked as int)
            } else {
                0
            });
            let owed = user_position.pending_rewards + (if per_token >= user_position.reward_debt {
                user_position.staked_amount * (per_token - user_position.reward_debt)
                    / 1_000_000_000
            } else {
                0
            });
            let answer = instructions::deposit_begun(accounts, amount, now);
            &&& answer is Ok <==> amount > 0 && per_token <= u64::MAX && owed <= u64::MAX
            &&& amount == 0 ==> answer->Err_0 == VaultError::ZeroAmount
            &&& amount > 0 && answer is Err ==> answer->Err_0 == VaultError::MathOverflow
        }),
{
    lemma_accumulator(accounts.vault_state.data, now);
    if rewards::accumulator_at(accounts.vault_state.data, now) <= u64::MAX {
        lemma_owed(accounts.vault_state.data, accounts.user_position.data, now);
    }
}

/// What a deposit that has begun holds: the vault brought up to date, the position with all that
/// is owed to it pending, and a transfer of the amount from the user's account, on the user's own
/// authority, to the treasury.
pub proof fn law_what_a_deposit_begins_with(accounts: Deposit, amount: u64, now: u64)
    requires
        instructions::deposit_begun(accounts, amount, now) is Ok,
    ensures
        ({
            let vault_state = accounts.vault_state.data;
            let user_position = accounts.user_position.data;
            let per_token = vault_state.reward_per_token_stored + (if vault_state.total_staked > 0
                && now >= vault_state.last_update_time {
                (now - vault_state.last_update_time) * vault_state.reward_rate_per_second
                    * 1_000_000_000 / (vault_state.total_staked as int)
            } else {
                0
            });
            let owed = user_position.pending_rewards + (if per_token >= user_position.reward_debt {
                user_position.staked_amount * (per_token - user_position.reward_debt)
                    / 1_000_000_000
            } else {
                0
            });
            let pending = instructions::deposit_begun(accounts, amount, now)->Ok_0;
            let current = pending.accounts.vault_state.data;
            let settled = pending.accounts.user_position.data;
            &&& current.reward_per_token_stored == per_token
            &&& current.last_update_time == (if vault_state.total_staked == 0 || now
                > vault_state.last_update_time {
                now
            } else {
                vault_state.last_update_time
            })
            &&& current.admin == vault_state.admin
            &&& current.deposit_mint == vault_state.deposit_mint
            &&& current.reward_mint == vault_state.reward_mint
            &&& current.reward_rate_per_second == vault_state.reward_rate_per_second
            &&& current.total_staked == vault_state.total_staked
            &&& current.paused == vault_state.paused
            &&& current.bump == vault_state.bump
            &&& settled.pending_rewards == owed
            &&& settled.owner == user_position.owner
            &&& settled.staked_amount == user_position.staked_amount
            &&& settled.reward_debt == user_position.reward_debt
            &&& settled.rewards_claimed == user_position.rewards_claimed
            &&& settled.last_update == user_position.last_update
            &&& pending.accounts.vault_state.key == accounts.vault_state.key
            &&& pending.accounts.user_position.key == accounts.user_position.key
            &&& pending.accounts.vault_treasury == accounts.vault_treasury
            &&& pending.accounts.user_token_account == accounts.user_token_account
            &&& pending.accounts.user == accounts.user
            &&& pending.amount == amount
            &&& pending.now == now
            &&& pending.transfer.from == accounts.user_token_account.key
            &&& pending.transfer.to == accounts.vault_treasury.key
            &&& pending.transfer.authority == accounts.user
            &&& pending.transfer.amount == amount
            &&& pending.transfer.signer is None
        }),
{
    lemma_accumulator(accounts.vault_state.data, now);
    if rewards::accumulator_at(accounts.vault_state.data, now) <= u64::MAX {
        lemma_owed(accounts.vault_state.data, accounts.user_position.data, now);
    }
}

/// With its constraints met, a deposit is answered as it begins.
pub proof fn law_deposit_is_answered_as_it_begins(
    accounts: Deposit,
    program_id: Seq<u8>,
    amount: u64,
    now: u64,
)
    requires
        accounts.constraints(accounts.addresses(program_id)) is Ok,
    ensures
        match (
            instructions::deposit_begun(accounts, amount, now),
            instructions::deposit_answer(accounts, program_id, amount, now),
        ) {
            (Ok(begun), Ok(answer)) => begun == answer,
            (Err(refusal), Err(answer)) => answer == InstructionError::Vault(refusal),
            _ => false,
        },
{
}

/// A deposit whose transfer has been made is finished wherever the vault's total and the user's
/// stake, each with the amount added, fit in 64 bits. Both grow by the amount, the position is the
/// user's, settled at the present accumulator and time, and nothing else changes.
pub proof fn law_deposit_is_finished(pending: PendingDeposit)
    ensures
        ({
            let accounts = pending.accounts;
            let vault_state = accounts.vault_state.data;
            let user_position = accounts.user_position.data;
            let answer = instructions::deposit_finished(pending);
            &&& answer is Ok <==> vault_state.total_staked + pending.amount <= u64::MAX
                && user_position.staked_amount + pending.amount <= u64::MAX
            &&& answer is Err ==> answer->Err_0 == VaultError::MathOverflow
            &&& answer matches Ok((after, event)) ==> {
                &&& after.vault_state.data.total_staked == vault_state.total_staked + pending.amount
                &&& after.vault_state.data.reward_per_token_stored
                    == vault_state.reward_per_token_stored
                &&& after.vault_state.data.last_update_time == vault_state.last_update_time
                &&& after.vault_state.data.admin == vault_state.admin
                &&& after.vault_state.data.deposit_mint == vault_state.deposit_mint
                &&& after.vault_state.data.reward_mint == vault_state.reward_mint
                &&& after.vault_state.data.reward_rate_per_second == vault_state.reward_rate_per_second
                &&& after.vault_state.data.paused == vault_state.paused
                &&& after.vault_state.data.bump == vault_state.bump
                &&& after.user_position.data.owner == accounts.user
                &&& after.user_position.data.staked_amount == user_position.staked_amount
                    + pending.amount
                &&& after.user_position.data.reward_debt == vault_state.reward_per_token_stored
                &&& after.user_position.data.pending_rewards == user_position.pending_rewards
                &&& after.user_position.data.rewards_claimed == user_position.rewards_claimed
                &&& after.user_position.data.last_update == pending.now
                &&& after.vault_state.key == accounts.vault_state.key
                &&& after.user_position.key == accounts.user_position.key
                &&& after.vault_treasury == accounts.vault_treasury
                &&& after.user_token_account == accounts.user_token_account
                &&& after.user == accounts.user
                &&& event.user == accounts.user
                &&& event.amount == pending.amount
                &&& event.total_user_staked == user_position.staked_amount + pending.amount
            }
        }),
{
}

/// A deposit as a whole succeeds exactly where its accounts meet their constraints, the amount is
/// not zero, and the accumulator, the rewards owed and both stakes with the amount added fit in 64
/// bits. The stakes grow by the amount, and what was owed is pending.
pub proof fn law_deposit_as_a_whole(
    accounts: Deposit,
    program_id: Seq<u8>,
    amount: u64,
    now: u64,
)
    ensures
        ({
            let vault_state = accounts.vault_state.data;
            let user_position = accounts.user_position.data;
            let per_token = vault_state.reward_per_token_stored + (if vault_state.total_staked > 0
                && now >= vault_state.last_update_time {
                (now - vault_state.last_update_time) * vault_state.reward_rate_per_second
                    * 1_000_000_000 / (vault_state.total_staked as int)
            } else {
                0
            });
            let owed = user_position.pending_rewards + (if per_token >= user_position.reward_debt {
                user_position.staked_amount * (per_token - user_position.reward_debt)
                    / 1_000_000_000
            } else {
                0
            });
            let outcome = laws::deposit_outcome(accounts, program_id, amount, now);
            &&& outcome is Ok <==> {
                &&& accounts.constraints(accounts.addresses(program_id)) is Ok
                &&& amount > 0
                &&& per_token <= u64::MAX
                &&& owed <= u64::MAX
                &&& vault_state.total_staked + amount <= u64::MAX
                &&& user_position.staked_amount + amount <= u64::MAX
            }
            &&& outcome matches Ok((after, event)) ==> {
                &&& after.vault_state.data.total_staked == vault_state.total_staked + amount
                &&& after.vault_state.data.reward_per_token_stored == per_token
                &&& after.user_position.data.staked_amount == user_position.staked_amount + amount
                &&& after.user_position.data.pending_rewards == owed
                &&& after.user_position.data.reward_debt == per_token
                &&& after.user_position.data.owner == accounts.user
                &&& event.amount == amount
            }
        }),
{
    lemma_accumulator(accounts.vault_state.data, now);
    if rewards::accumulator_at(accounts.vault_state.data, now) <= u64::MAX {
        lemma_owed(accounts.vault_state.data, accounts.user_position.data, now);
    }
}

// ---------------------------------------------------------------------------------------------
// Withdraw
// ---------------------------------------------------------------------------------------------
/// A withdrawal begins at any time and for any amount from one up to the stake, wherever the
/// accumulator and the rewards owed fit in 64 bits; a zero amount, too small a stake and a number
/// that does not fit are the only reasons to refuse it, in this order.
pub proof fn law_when_a_withdrawal_begins(accounts: Withdraw, amount: u64, now: u64)
    ensures
        ({
            let vault_state = accounts.vault_state.data;
            let user_position = accounts.user_position.data;
            let per_token = vault_state.reward_per_token_stored + (if vault_state.total_staked > 0
                && now >= vault_state.last_update_time {
                (now - vault_state.last_update_time) * vault_state.reward_rate_per_second
                    * 1_000_000_000 / (vault_state.total_staked as int)
            } else {
                0
            });
            let owed = user_position.pending_rewards + (if per_token >= user_position.reward_debt {
                user_position.staked_amount * (per_token - user_position.reward_debt)
                    / 1_000_000_000
            } else {
                0
            });
            let answer = instructions::withdraw_begun(accounts, amount, now);
            &&& answer is Ok <==> 0 < amount <= user_position.staked_amount && per_token <= u64::MAX
                && owed <= u64::MAX
            &&& amount == 0 ==> answer->Err_0 == VaultError::ZeroAmount
            &&& amount > user_position.staked_amount ==> answer->Err_0
                == VaultError::InsufficientBalance
            &&& 0 < amount <= user_position.staked_amount && answer is Err ==> answer->Err_0
                == VaultError::MathOverflow
        }),
{
    lemma_accumulator(accounts.vault_state.data, now);
    if rewards::accumulator_at(accounts.vault_state.data, now) <= u64::MAX {
        lemma_owed(accounts.vault_state.data, accounts.user_position.data, now);
    }
}

/// What a withdrawal that has begun holds: the vault brought up to date, the position with all
/// that is owed to it pending, and a transfer of the amount from the treasury, which the vault
/// signs, to the user's account.
pub proof fn law_what_a_withdrawal_begins_with(accounts: Withdraw, amount: u64, now: u64)
    requires
        instructions::withdraw_begun(accounts, amount, now) is Ok,
    ensures
        ({
            let vault_state = accounts.vault_state.data;
            let user_position = accounts.user_position.data;
            let per_token = vault_state.reward_per_token_stored + (if vault_state.total_staked > 0
                && now >= vault_state.last_update_time {
                (now - vault_state.last_update_time) * vault_state.reward_rate_per_second
                    * 1_000_000_000 / (vault_state.total_staked as int)
            } else {
                0
            });
            let owed = user_position.pending_rewards + (if per_token >= user_position.reward_debt {
                user_position.staked_amount * (per_token - user_position.reward_debt)
                    / 1_000_000_000
            } else {
                0
            });
            let pending = instructions::withdraw_begun(accounts, amount, now)->Ok_0;
            let current = pending.accounts.vault_state.data;
            let settled = pending.accounts.user_position.data;
            &&& current.reward_per_token_stored == per_token
            &&& current.last_update_time == (if vault_state.total_staked == 0 || now
                > vault_state.last_update_time {
                now
            } else {
                vault_state.last_update_time
            })
            &&& current.admin == vault_state.admin
            &&& current.deposit_mint == vault_state.deposit_mint
            &&& current.reward_mint == vault_state.reward_mint
            &&& current.reward_rate_per_second == vault_state.reward_rate_per_second
            &&& current.total_staked == vault_state.total_staked
            &&& current.paused == vault_state.paused
            &&& current.bump == vault_state.bump
            &&& settled.pending_rewards == owed
            &&& settled.owner == user_position.owner
            &&& settled.staked_amount == user_position.staked_amount
            &&& settled.reward_debt == user_position.reward_debt
            &&& settled.rewards_claimed == user_position.rewards_claimed
            &&& settled.last_update == user_position.last_update
            &&& pending.accounts.vault_state.key == accounts.vault_state.key
            &&& pending.accounts.user_position.key == accounts.user_position.key
            &&& pending.accounts.vault_treasury == accounts.vault_treasury
            &&& pending.accounts.user_token_account == accounts.user_token_account
            &&& pending.accounts.user == accounts.user
            &&& pending.amount == amount
            &&& pending.transfer.from == accounts.vault_treasury.key
            &&& pending.transfer.to == accounts.user_token_account.key
            &&& pending.transfer.authority == accounts.vault_state.key
            &&& pending.transfer.amount == amount
            &&& pending.transfer.signer matches Some(signer) && signer.deposit_mint
                == vault_state.deposit_mint && signer.bump == vault_state.bump
        }),
{
    lemma_accumulator(accounts.vault_state.data, now);
    if rewards::accumulator_at(accounts.vault_state.data, now) <= u64::MAX {
        lemma_owed(accounts.vault_state.data, accounts.user_position.data, now);
    }
}

/// With its constraints met, a withdrawal is answered as it begins.
pub proof fn law_withdrawal_is_answered_as_it_begins(
    accounts: Withdraw,
    program_id: Seq<u8>,
    amount: u64,
    now: u64,
)
    requires
        accounts.constraints(accounts.addresses(program_id)) is Ok,
    ensures
        match (
            instructions::withdraw_begun(accounts, amount, now),
            instructions::withdraw_answer(accounts, program_id, amount, now),
        ) {
            (Ok(begun), Ok(answer)) => begun == answer,
            (Err(refusal), Err(answer)) => answer == InstructionError::Vault(refusal),
            _ => false,
        },
{
}

/// A withdrawal whose transfer has been made is finished wherever neither the vault's total nor
/// the user's stake is smaller than the amount. Both shrink by it, the position is settled at the
/// present accumulator, and nothing else changes.
pub proof fn law_withdrawal_is_finished(pending: PendingWithdrawal)
    ensures
        ({
            let accounts = pending.accounts;
            let vault_state = accounts.vault_state.data;
            let user_position = accounts.user_position.data;
            let answer = instructions::withdraw_finished(pending);
            &&& answer is Ok <==> pending.amount <= vault_state.total_staked && pending.amount
                <= user_position.staked_amount
            &&& answer is Err ==> answer->Err_0 == VaultError::MathOverflow
            &&& answer matches Ok((after, event)) ==> {
                &&& after.vault_state.data.total_staked == vault_state.total_staked - pending.amount
                &&& after.vault_state.data.reward_per_token_stored
                    == vault_state.reward_per_token_stored
                &&& after.vault_state.data.last_update_time == vault_state.last_update_time
                &&& after.vault_state.data.admin == vault_state.admin
                &&& after.vault_state.data.deposit_mint == vault_state.deposit_mint
                &&& after.vault_state.data.reward_mint == vault_state.reward_mint
                &&& after.vault_state.data.reward_rate_per_second == vault_state.reward_rate_per_second
                &&& after.vault_state.data.paused == vault_state.paused
                &&& after.vault_state.data.bump == vault_state.bump
                &&& after.user_position.data.owner == user_position.owner
                &&& after.user_position.data.staked_amount == user_position.staked_amount
                    - pending.amount
                &&& after.user_position.data.reward_debt == vault_state.reward_per_token_stored
                &&& after.user_position.data.pending_rewards == user_position.pending_rewards
                &&& after.user_position.data.rewards_claimed == user_position.rewards_claimed
                &&& after.user_position.data.last_update == user_position.last_update
                &&& after.vault_state.key == accounts.vault_state.key
                &&& after.user_position.key == accounts.user_position.key
                &&& after.vault_treasury == accounts.vault_treasury
                &&& after.user_token_account == accounts.user_token_account
                &&& after.user == accounts.user
                &&& event.user == accounts.user
                &&& event.amount == pending.amount
                &&& event.remaining_staked == user_position.staked_amount - pending.amount
            }
        }),
{
}

/// A withdrawal as a whole succeeds, at any time, exactly where its accounts meet their
/// constraints, the amount is not zero and within the stake and the total, and the accumulator and
/// the rewards owed fit in 64 bits. The stakes shrink by the amount, and what was owed is pending.
pub proof fn law_withdrawal_as_a_whole(
    accounts: Withdraw,
    program_id: Seq<u8>,
    amount: u64,
    now: u64,
)
    ensures
        ({
            let vault_state = accounts.vault_state.data;
            let user_position = accounts.user_position.data;
            let per_token = vault_state.reward_per_token_stored + (if vault_state.total_staked > 0
                && now >= vault_state.last_update_time {
                (now - vault_state.last_update_time) * vault_state.reward_rate_per_second
                    * 1_000_000_000 / (vault_state.total_staked as int)
            } else {
                0
            });
            let owed = user_position.pending_rewards + (if per_token >= user_position.reward_debt {
                user_position.staked_amount * (per_token - user_position.reward_debt)
                    / 1_000_000_000
            } else {
                0
            });
            let outcome = laws::withdraw_outcome(accounts, program_id, amount, now);
            &&& outcome is Ok <==> {
                &&& accounts.constraints(accounts.addresses(program_id)) is Ok
                &&& 0 < amount <= user_position.staked_amount
                &&& amount <= vault_state.total_staked
                &&& per_token <= u64::MAX
                &&& owed <= u64::MAX
            }
            &&& outcome matches Ok((after, event)) ==> {
                &&& after.vault_state.data.total_staked == vault_state.total_staked - amount
                &&& after.vault_state.data.reward_per_token_stored == per_token
                &&& after.user_position.data.staked_amount == user_position.staked_amount - amount
                &&& after.user_position.data.pending_rewards == owed
                &&& after.user_position.data.reward_debt == per_token
                &&& event.amount == amount
            }
        }),
{
    lemma_accumulator(accounts.vault_state.data, now);
    if rewards::accumulator_at(accounts.vault_state.data, now) <= u64::MAX {
        lemma_owed(accounts.vault_state.data, accounts.user_position.data, now);
    }
}

// ---------------------------------------------------------------------------------------------
// Claim
// ---------------------------------------------------------------------------------------------
/// A claim begins at any time and for whatever is owed, however much, wherever anything is owed
/// and the accumulator and the amount fit in 64 bits. Nothing to claim is the answer exactly where
/// nothing is owed.
pub proof fn law_when_a_claim_begins(accounts: ClaimRewards, now: u64)
    ensures
        ({
            let vault_state = accounts.vault_state.data;
            let user_position = accounts.user_position.data;
            let per_token = vault_state.reward_per_token_stored + (if vault_state.total_staked > 0
                && now >= vault_state.last_update_time {
                (now - vault_state.last_update_time) * vault_state.reward_rate_per_second
                    * 1_000_000_000 / (vault_state.total_staked as int)
            } else {
                0
            });
            let owed = user_position.pending_rewards + (if per_token >= user_position.reward_debt {
                user_position.staked_amount * (per_token - user_position.reward_debt)
                    / 1_000_000_000
            } else {
                0
            });
            let answer = instructions::claim_begun(accounts, now);
            &&& answer is Ok <==> per_token <= u64::MAX && 0 < owed <= u64::MAX
            &&& per_token <= u64::MAX && owed == 0 <==> answer is Err && answer->Err_0
                == VaultError::NoRewardsToClaim
            &&& per_token > u64::MAX || owed > u64::MAX <==> answer is Err && answer->Err_0
                == VaultError::MathOverflow
        }),
{
    lemma_accumulator(accounts.vault_state.data, now);
    if rewards::accumulator_at(accounts.vault_state.data, now) <= u64::MAX {
        lemma_owed(accounts.vault_state.data, accounts.user_position.data, now);
    }
}

/// What a claim that has begun holds: the vault brought up to date, the position as it was, and a
/// transfer of all that is owed from the reward treasury, which the vault signs, to the user's
/// account.
pub proof fn law_what_a_claim_begins_with(accounts: ClaimRewards, now: u64)
    requires
        instructions::claim_begun(accounts, now) is Ok,
    ensures
        ({
            let vault_state = accounts.vault_state.data;
            let user_position = accounts.user_position.data;
            let per_token = vault_state.reward_per_token_stored + (if vault_state.total_staked > 0
                && now >= vault_state.last_update_time {
                (now - vault_state.last_update_time) * vault_state.reward_rate_per_second
                    * 1_000_000_000 / (vault_state.total_staked as int)
            } else {
                0
            });
            let owed = user_position.pending_rewards + (if per_token >= user_position.reward_debt {
                user_position.staked_amount * (per_token - user_position.reward_debt)
                    / 1_000_000_000
            } else {
                0
            });
            let pending = instructions::claim_begun(accounts, now)->Ok_0;
            let current = pending.accounts.vault_state.data;
            &&& current.reward_per_token_stored == per_token
            &&& current.last_update_time == (if vault_state.total_staked == 0 || now
                > vault_state.last_update_time {
                now
            } else {
                vault_state.last_update_time
            })
            &&& current.admin == vault_state.admin
            &&& current.deposit_mint == vault_state.deposit_mint
            &&& current.reward_mint == vault_state.reward_mint
            &&& current.reward_rate_per_second == vault_state.reward_rate_per_second
            &&& current.total_staked == vault_state.total_staked
            &&& current.paused == vault_state.paused
            &&& current.bump == vault_state.bump
            &&& pending.accounts.vault_state.key == accounts.vault_state.key
            &&& pending.accounts.user_position == accounts.user_position
            &&& pending.accounts.reward_treasury == accounts.reward_treasury
            &&& pending.accounts.user_reward_account == accounts.user_reward_account
            &&& pending.accounts.user == accounts.user
            &&& pending.amount == owed
            &&& pending.transfer.from == accounts.reward_treasury.key
            &&& pending.transfer.to == accounts.user_reward_account.key
            &&& pending.transfer.authority == accounts.vault_state.key
            &&& pending.transfer.amount == owed
            &&& pending.transfer.signer matches Some(signer) && signer.deposit_mint
                == vault_state.deposit_mint && signer.bump == vault_state.bump
        }),
{
    lemma_accumulator(accounts.vault_state.data, now);
    if rewards::accumulator_at(accounts.vault_state.data, now) <= u64::MAX {
        lemma_owed(accounts.vault_state.data, accounts.user_position.data, now);
    }
}

/// With its constraints met, a claim is answered as it begins.
pub proof fn law_claim_is_answered_as_it_begins(
    accounts: ClaimRewards,
    program_id: Seq<u8>,
    now: u64,
)
    requires
        accounts.constraints(accounts.addresses(program_id)) is Ok,
    ensures
        match (
            instructions::claim_begun(accounts, now),
            instructions::claim_answer(accounts, program_id, now),
        ) {
            (Ok(begun), Ok(answer)) => begun == answer,
            (Err(refusal), Err(answer)) => answer == InstructionError::Vault(refusal),
            _ => false,
        },
{
}

/// A claim whose transfer has been made is finished wherever the rewards claimed, with the amount
/// added, fit in 64 bits. They grow by the amount, nothing is pending, the position is settled at
/// the present accumulator, and nothing else changes.
pub proof fn law_claim_is_finished(pending: PendingClaim)
    ensures
        ({
            let accounts = pending.accounts;
            let user_position = accounts.user_position.data;
            let answer = instructions::claim_finished(pending);
            &&& answer is Ok <==> user_position.rewards_claimed + pending.amount <= u64::MAX
            &&& answer is Err ==> answer->Err_0 == VaultError::MathOverflow
            &&& answer matches Ok((after, event)) ==> {
                &&& after.user_position.data.rewards_claimed == user_position.rewards_claimed
                    + pending.amount
                &&& after.user_position.data.pending_rewards == 0
                &&& after.user_position.data.reward_debt
                    == accounts.vault_state.data.reward_per_token_stored
                &&& after.user_position.data.owner == user_position.owner
                &&& after.user_position.data.staked_amount == user_position.staked_amount
                &&& after.user_position.data.last_update == user_position.last_update
                &&& after.user_position.key == accounts.user_position.key
                &&& after.vault_state == accounts.vault_state
                &&& after.reward_treasury == accounts.reward_treasury
                &&& after.user_reward_account == accounts.user_reward_account
                &&& after.user == accounts.user
                &&& event.user == accounts.user
                &&& event.amount == pending.amount
            }
        }),
{
}

/// A claim as a whole succeeds, at any time, exactly where its accounts meet their constraints,
/// anything is owed, and the accumulator, the amount and the rewards claimed with it fit in 64
/// bits. It asks for a transfer of exactly what is owed, and books it.
pub proof fn law_claim_as_a_whole(accounts: ClaimRewards, program_id: Seq<u8>, now: u64)
    ensures
        ({
            let vault_state = accounts.vault_state.data;
            let user_position = accounts.user_position.data;
            let per_token = vault_state.reward_per_token_stored + (if vault_state.total_staked > 0
                && now >= vault_state.last_update_time {
                (now - vault_state.last_update_time) * vault_state.reward_rate_per_second
                    * 1_000_000_000 / (vault_state.total_staked as int)
            } else {
                0
            });
            let owed = user_position.pending_rewards + (if per_token >= user_position.reward_debt {
                user_position.staked_amount * (per_token - user_position.reward_debt)
                    / 1_000_000_000
            } else {
                0
            });
            let met = accounts.constraints(accounts.addresses(program_id)) is Ok;
            let answer = instructions::claim_answer(accounts, program_id, now);
            let outcome = laws::claim_outcome(accounts, program_id, now);
            &&& answer is Ok <==> met && per_token <= u64::MAX && 0 < owed <= u64::MAX
            &&& answer is Ok ==> answer->Ok_0.transfer.amount == owed
            &&& outcome is Ok <==> answer is Ok && user_position.rewards_claimed + owed <= u64::MAX
            &&& outcome matches Ok((after, event)) ==> {
                &&& event.amount == owed
                &&& after.user_position.data.rewards_claimed == user_position.rewards_claimed + owed
                &&& after.user_position.data.pending_rewards == 0
                &&& after.user_position.data.reward_debt == per_token
                &&& after.user_position.data.staked_amount == user_position.staked_amount
                &&& after.vault_state.data.total_staked == vault_state.total_staked
            }
        }),
{
    lemma_accumulator(accounts.vault_state.data, now);
    if rewards::accumulator_at(accounts.vault_state.data, now) <= u64::MAX {
        lemma_owed(accounts.vault_state.data, accounts.user_position.data, now);
    }
}

// ---------------------------------------------------------------------------------------------
// Administration
// ---------------------------------------------------------------------------------------------
/// The rate of a vault can be changed to any other, up or down, at any time, wherever the
/// accumulator fits in 64 bits. Afterwards the new rate holds, the time before is settled under the
/// old one, and nothing else changes; both rates are announced.
pub proof fn law_rate_change_in_numbers(vault_state: VaultState, new_rate: u64, now: u64)
    ensures
        ({
            let per_token = vault_state.reward_per_token_stored + (if vault_state.total_staked > 0
                && now >= vault_state.last_update_time {
                (now - vault_state.last_update_time) * vault_state.reward_rate_per_second
                    * 1_000_000_000 / (vault_state.total_staked as int)
            } else {
                0
            });
            let answer = instructions::rate_changed(vault_state, new_rate, now);
            &&& answer is Ok <==> per_token <= u64::MAX
            &&& answer is Err ==> answer->Err_0 == VaultError::MathOverflow
            &&& answer matches Ok((after, event)) ==> {
                &&& after.reward_rate_per_second == new_rate
                &&& event.new_rate == new_rate
                &&& event.old_rate == vault_state.reward_rate_per_second
                &&& after.reward_per_token_stored == per_token
                &&& after.last_update_time == (if vault_state.total_staked == 0 || now
                    > vault_state.last_update_time {
                    now
                } else {
                    vault_state.last_update_time
                })
                &&& after.admin == vault_state.admin
                &&& after.deposit_mint == vault_state.deposit_mint
                &&& after.reward_mint == vault_state.reward_mint
                &&& after.total_staked == vault_state.total_staked
                &&& after.paused == vault_state.paused
                &&& after.bump == vault_state.bump
            }
        }),
{
    lemma_accumulator(vault_state, now);
}

/// From a change of the rate on, a stake that is settled there earns its share of what the new
/// rate emits: over the time from the change to `later`, at most `time * new_rate * staked /
/// total_staked`, and short of that by no more than the rounding of the accumulator and of the
/// amount.
pub proof fn law_new_rate_holds_from_the_change(
    vault_state: VaultState,
    new_rate: u64,
    now: u64,
    user_position: UserPosition,
    later: u64,
)
    requires
        vault_state.total_staked > 0,
        vault_state.last_update_time <= now <= later,
        instructions::rate_changed(vault_state, new_rate, now) is Ok,
        user_position.reward_debt == instructions::rate_changed(
            vault_state,
            new_rate,
            now,
        )->Ok_0.0.reward_per_token_stored,
        rewards::accumulator_at(
            instructions::rate_changed(vault_state, new_rate, now)->Ok_0.0,
            later,
        ) <= u64::MAX,
    ensures
        ({
            let (after, _) = instructions::rate_changed(vault_state, new_rate, now)->Ok_0;
            let earned = rewards::newly_earned(
                rewards::accrued(after, later),
                user_position,
            ) as int;
            let staked = user_position.staked_amount as int;
            let total = vault_state.total_staked as int;
            &&& earned * total <= (later - now) * new_rate * staked
            &&& (later - now) * new_rate * staked * 1_000_000_000 <= earned * total * 1_000_000_000
                + total * 1_000_000_000 + staked * total
        }),
{
    let (after, _) = instructions::rate_changed(vault_state, new_rate, now)->Ok_0;
    law_rate_change_in_numbers(vault_state, new_rate, now);
    laws::law_rewards_follow_the_share(after, user_position, later);
}

/// With its constraints met, a change of the rate is answered as the vault takes it; the accounts
/// are otherwise as they were.
pub proof fn law_rate_change_is_answered(
    accounts: AdminAction,
    program_id: Seq<u8>,
    new_rate: u64,
    now: u64,
)
    requires
        accounts.constraints(accounts.address(program_id)) is Ok,
    ensures
        match (
            instructions::rate_changed(accounts.vault_state.data, new_rate, now),
            instructions::set_reward_rate_answer(accounts, program_id, new_rate, now),
        ) {
            (Ok((state, announced)), Ok((after, event))) => {
                &&& after.vault_state.data == state
                &&& after.vault_state.key == accounts.vault_state.key
                &&& after.admin == accounts.admin
                &&& event == announced
                &&& after.vault_state.data.reward_rate_per_second == new_rate
                &&& event.new_rate == new_rate
                &&& event.old_rate == accounts.vault_state.data.reward_rate_per_second
            },
            (Err(refusal), Err(answer)) => answer == InstructionError::Vault(refusal),
            _ => false,
        },
{
}

/// With its constraints met, a pause is set or lifted as asked, at any time; it is announced, and
/// nothing else changes.
pub proof fn law_pause_in_numbers(accounts: AdminAction, program_id: Seq<u8>, paused: bool)
    ensures
        ({
            let met = accounts.constraints(accounts.address(program_id));
            let answer = instructions::set_paused_answer(accounts, program_id, paused);
            let vault_state = accounts.vault_state.data;
            &&& met is Ok <==> answer is Ok
            &&& met is Err ==> answer->Err_0 == met->Err_0
            &&& answer matches Ok((after, event)) ==> {
                &&& after.vault_state.data.paused == paused
                &&& event.paused == paused
                &&& after.vault_state.data.reward_per_token_stored
                    == vault_state.reward_per_token_stored
                &&& after.vault_state.data.last_update_time == vault_state.last_update_time
                &&& after.vault_state.data.admin == vault_state.admin
                &&& after.vault_state.data.deposit_mint == vault_state.deposit_mint
                &&& after.vault_state.data.reward_mint == vault_state.reward_mint
                &&& after.vault_state.data.reward_rate_per_second == vault_state.reward_rate_per_second
                &&& after.vault_state.data.total_staked == vault_state.total_staked
                &&& after.vault_state.data.bump == vault_state.bump
                &&& after.vault_state.key == accounts.vault_state.key
                &&& after.admin == accounts.admin
            }
        }),
{
}

/// An administrator's instruction on accounts that break a constraint is refused for it.
pub proof fn law_rate_change_is_refused_by_constraints(
    accounts: AdminAction,
    program_id: Seq<u8>,
    new_rate: u64,
    now: u64,
)
    requires
        accounts.constraints(accounts.address(program_id)) is Err,
    ensures
        ({
            let answer = instructions::set_reward_rate_answer(accounts, program_id, new_rate, now);
            answer is Err && answer->Err_0 == accounts.constraints(
                accounts.address(program_id),
            )->Err_0
        }),
{
}

} // verus!
