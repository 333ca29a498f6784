use vstd::arithmetic::div_mod::*;
use vstd::arithmetic::mul::*;
use vstd::prelude::*;

use crate::accounts::{AdminAction, ClaimRewards, Deposit, Initialize, Withdraw};
use crate::instructions;
use crate::laws;
use crate::promises;
use crate::rewards;
use crate::rewards::PRECISION;
use crate::state::{UserPosition, VaultState};

verus! {

/// A vault with all of its positions.
#[verifier::ext_equal]
pub struct Ledger {
    pub vault_state: VaultState,
    pub positions: Seq<UserPosition>,
}

/// An instruction to the vault. Those of users name the position by its index.
pub enum Step {
    /// A user without a position gets a fresh one.
    Join { user_position: UserPosition },
    Deposit { index: int, accounts: Deposit, amount: u64, now: u64 },
    Withdraw { index: int, accounts: Withdraw, amount: u64, now: u64 },
    Claim { index: int, accounts: ClaimRewards, now: u64 },
    SetRewardRate { accounts: AdminAction, new_rate: u64, now: u64 },
    SetPaused { accounts: AdminAction, paused: bool },
}

/// A new vault, with no positions yet.
pub open spec fn new_ledger(
    accounts: Initialize,
    bump: u8,
    reward_rate_per_second: u64,
    now: u64,
) -> Ledger {
    Ledger {
        vault_state: instructions::opened_vault(accounts, bump, reward_rate_per_second, now),
        positions: Seq::empty(),
    }
}

/// The sum of a value over positions.
pub open spec fn sum_of(positions: Seq<UserPosition>, value: spec_fn(UserPosition) -> int) -> int
    decreases positions.len(),
{
    if positions.len() == 0 {
        0
    } else {
        sum_of(positions.drop_last(), value) + value(positions.last())
    }
}

/// The stake of a position.
pub open spec fn stake() -> spec_fn(UserPosition) -> int {
    |p: UserPosition| p.staked_amount as int
}

/// All that a position ever earned, scaled by `PRECISION`, where the accumulator is
/// `reward_per_token`: what its stake earned since it was settled, what is pending, and what it
/// claimed.
pub open spec fn earnings(reward_per_token: int) -> spec_fn(UserPosition) -> int {
    |p: UserPosition|
        p.staked_amount * (reward_per_token - p.reward_debt) + PRECISION * (p.pending_rewards
            + p.rewards_claimed)
}

/// What a position has claimed.
pub open spec fn claimed() -> spec_fn(UserPosition) -> int {
    |p: UserPosition| p.rewards_claimed as int
}

/// What a position has claimed and could still claim.
pub open spec fn payout(vault_state: VaultState) -> spec_fn(UserPosition) -> int {
    |p: UserPosition| p.rewards_claimed as int + rewards::owed(vault_state, p) as int
}

/// The rewards that a vault emits up to `now`: its rate, for every second in which anything is
/// staked.
pub open spec fn emission(vault_state: VaultState, now: u64) -> nat {
    if vault_state.total_staked == 0 {
        0
    } else {
        rewards::elapsed(vault_state, now) * vault_state.reward_rate_per_second as nat
    }
}

/// The books of a vault balance: its total is the sum of the stakes, no position is settled ahead
/// of the accumulator, and all that the positions ever earned is covered by the `emitted` rewards.
pub open spec fn balanced(ledger: Ledger, emitted: nat) -> bool {
    let stored = ledger.vault_state.reward_per_token_stored;
    &&& ledger.vault_state.total_staked == sum_of(ledger.positions, stake())
    &&& forall|i: int|
        0 <= i < ledger.positions.len() ==> (#[trigger] ledger.positions[i]).reward_debt <= stored
    &&& sum_of(ledger.positions, earnings(stored as int)) <= PRECISION * emitted
}

/// A position that was never used.
pub open spec fn is_fresh(p: UserPosition) -> bool {
    p.staked_amount == 0 && p.reward_debt == 0 && p.pending_rewards == 0 && p.rewards_claimed == 0
}

/// Whether a step is about this ledger: its accounts hold the vault and a position of it.
pub open spec fn concerns(step: Step, ledger: Ledger) -> bool {
    match step {
        Step::Join { user_position } => is_fresh(user_position),
        Step::Deposit { index, accounts, .. } => {
            &&& 0 <= index < ledger.positions.len()
            &&& accounts.vault_state.data == ledger.vault_state
            &&& accounts.user_position.data == ledger.positions[index]
        },
        Step::Withdraw { index, accounts, .. } => {
            &&& 0 <= index < ledger.positions.len()
            &&& accounts.vault_state.data == ledger.vault_state
            &&& accounts.user_position.data == ledger.positions[index]
        },
        Step::Claim { index, accounts, .. } => {
            &&& 0 <= index < ledger.positions.len()
            &&& accounts.vault_state.data == ledger.vault_state
            &&& accounts.user_position.data == ledger.positions[index]
        },
        Step::SetRewardRate { accounts, .. } => accounts.vault_state.data == ledger.vault_state,
        Step::SetPaused { accounts, .. } => accounts.vault_state.data == ledger.vault_state,
    }
}

/// The ledger with the vault and one position replaced.
pub open spec fn written(
    ledger: Ledger,
    index: int,
    vault_state: VaultState,
    user_position: UserPosition,
) -> Ledger {
    Ledger { vault_state, positions: ledger.positions.update(index, user_position) }
}

/// The ledger after a step; one that is refused leaves it as it is.
pub open spec fn after_step(ledger: Ledger, step: Step, program_id: Seq<u8>) -> Ledger {
    match step {
        Step::Join { user_position } => Ledger {
            vault_state: ledger.vault_state,
            positions: ledger.positions.push(user_position),
        },
        Step::Deposit { index, accounts, amount, now } => match laws::deposit_outcome(
            accounts,
            program_id,
            amount,
            now,
        ) {
            Ok((done, _)) => written(
                ledger,
                index,
                done.vault_state.data,
                done.user_position.data,
            ),
            Err(_) => ledger,
        },
        Step::Withdraw { index, accounts, amount, now } => match laws::withdraw_outcome(
            accounts,
            program_id,
            amount,
            now,
        ) {
            Ok((done, _)) => written(
                ledger,
                index,
                done.vault_state.data,
                done.user_position.data,
            ),
            Err(_) => ledger,
        },
        Step::Claim { index, accounts, now } => match laws::claim_outcome(
            accounts,
            program_id,
            now,
        ) {
            Ok((done, _)) => written(
                ledger,
                index,
                done.vault_state.data,
                done.user_position.data,
            ),
            Err(_) => ledger,
        },
        Step::SetRewardRate { accounts, new_rate, now } => match instructions::set_reward_rate_answer(
            accounts,
            program_id,
            new_rate,
            now,
        ) {
            Ok((done, _)) => Ledger { vault_state: done.vault_state.data, ..ledger },
            Err(_) => ledger,
        },
        Step::SetPaused { accounts, paused } => match instructions::set_paused_answer(
            accounts,
            program_id,
            paused,
        ) {
            Ok((done, _)) => Ledger { vault_state: done.vault_state.data, ..ledger },
            Err(_) => ledger,
        },
    }
}

/// The rewards that the vault emits up to a step; a refused step does not count them yet.
pub open spec fn emitted_by(ledger: Ledger, step: Step, program_id: Seq<u8>) -> nat {
    match step {
        Step::Deposit { accounts, amount, now, .. } => if laws::deposit_outcome(
            accounts,
            program_id,
            amount,
            now,
        ) is Ok {
            emission(ledger.vault_state, now)
        } else {
            0
        },
        Step::Withdraw { accounts, amount, now, .. } => if laws::withdraw_outcome(
            accounts,
            program_id,
            amount,
            now,
        ) is Ok {
            emission(ledger.vault_state, now)
        } else {
            0
        },
        Step::Claim { accounts, now, .. } => if laws::claim_outcome(
            accounts,
            program_id,
            now,
        ) is Ok {
            emission(ledger.vault_state, now)
        } else {
            0
        },
        Step::SetRewardRate { accounts, new_rate, now } => if instructions::set_reward_rate_answer(
            accounts,
            program_id,
            new_rate,
            now,
        ) is Ok {
            emission(ledger.vault_state, now)
        } else {
            0
        },
        _ => 0,
    }
}

/// The tokens that a step moves into the vault's treasury by its transfer: those of a deposit,
/// and, counted negative, those of a withdrawal.
pub open spec fn moved_by(step: Step, program_id: Seq<u8>) -> int {
    match step {
        Step::Deposit { accounts, amount, now, .. } => if laws::deposit_outcome(
            accounts,
            program_id,
            amount,
            now,
        ) is Ok {
            instructions::deposit_answer(
                accounts,
                program_id,
                amount,
                now,
            )->Ok_0.transfer.amount as int
        } else {
            0
        },
        Step::Withdraw { accounts, amount, now, .. } => if laws::withdraw_outcome(
            accounts,
            program_id,
            amount,
            now,
        ) is Ok {
            -(instructions::withdraw_answer(
                accounts,
                program_id,
                amount,
                now,
            )->Ok_0.transfer.amount as int)
        } else {
            0
        },
        _ => 0,
    }
}

/// The tokens that a step moves out of the reward treasury by its transfer.
pub open spec fn paid_by(step: Step, program_id: Seq<u8>) -> int {
    match step {
        Step::Claim { accounts, now, .. } => if laws::claim_outcome(
            accounts,
            program_id,
            now,
        ) is Ok {
            instructions::claim_answer(accounts, program_id, now)->Ok_0.transfer.amount as int
        } else {
            0
        },
        _ => 0,
    }
}

/// The tokens that a history of steps moves into the vault's treasury.
pub open spec fn moved_over(steps: Seq<Step>, program_id: Seq<u8>) -> int
    decreases steps.len(),
{
    if steps.len() == 0 {
        0
    } else {
        moved_over(steps.drop_last(), program_id) + moved_by(steps.last(), program_id)
    }
}

/// The tokens that a history of steps moves out of the reward treasury.
pub open spec fn paid_over(steps: Seq<Step>, program_id: Seq<u8>) -> int
    decreases steps.len(),
{
    if steps.len() == 0 {
        0
    } else {
        paid_over(steps.drop_last(), program_id) + paid_by(steps.last(), program_id)
    }
}

/// The ledger after a history of steps.
pub open spec fn after_steps(ledger: Ledger, steps: Seq<Step>, program_id: Seq<u8>) -> Ledger
    decreases steps.len(),
{
    if steps.len() == 0 {
        ledger
    } else {
        after_step(after_steps(ledger, steps.drop_last(), program_id), steps.last(), program_id)
    }
}

/// The rewards that the vault emits over a history of steps.
pub open spec fn emitted_over(ledger: Ledger, steps: Seq<Step>, program_id: Seq<u8>) -> nat
    decreases steps.len(),
{
    if steps.len() == 0 {
        0
    } else {
        let last = after_steps(ledger, steps.drop_last(), program_id);
        emitted_over(ledger, steps.drop_last(), program_id) + emitted_by(
            last,
            steps.last(),
            program_id,
        )
    }
}

/// Whether every step of a history is about the ledger as it then stands.
pub open spec fn history_of(ledger: Ledger, steps: Seq<Step>, program_id: Seq<u8>) -> bool
    decreases steps.len(),
{
    steps.len() > 0 ==> {
        &&& history_of(ledger, steps.drop_last(), program_id)
        &&& concerns(steps.last(), after_steps(ledger, steps.drop_last(), program_id))
    }
}

// ---------------------------------------------------------------------------------------------
// Sums
// ---------------------------------------------------------------------------------------------
/// Replacing one position changes a sum by the difference.
proof fn lemma_sum_update(
    positions: Seq<UserPosition>,
    index: int,
    p: UserPosition,
    value: spec_fn(UserPosition) -> int,
)
    requires
        0 <= index < positions.len(),
    ensures
        sum_of(positions.update(index, p), value) == sum_of(positions, value) - value(
            positions[index],
        ) + value(p),
    decreases positions.len(),
{
    let changed = positions.update(index, p);
    if index == positions.len() - 1 {
        assert(changed.drop_last() =~= positions.drop_last());
    } else {
        assert(changed.drop_last() =~= positions.drop_last().update(index, p));
        lemma_sum_update(positions.drop_last(), index, p, value);
    }
}

/// A value that is nowhere negative is at most the sum over all positions.
proof fn lemma_sum_covers(
    positions: Seq<UserPosition>,
    index: int,
    value: spec_fn(UserPosition) -> int,
)
    requires
        0 <= index < positions.len(),
        forall|p: UserPosition| #[trigger] value(p) >= 0,
    ensures
        value(positions[index]) <= sum_of(positions, value),
    decreases positions.len(),
{
    if index == positions.len() - 1 {
        lemma_sum_nonnegative(positions.drop_last(), value);
    } else {
        lemma_sum_covers(positions.drop_last(), index, value);
        assert(value(positions.last()) >= 0);
    }
}

/// A sum of values that are nowhere negative is not negative.
proof fn lemma_sum_nonnegative(positions: Seq<UserPosition>, value: spec_fn(UserPosition) -> int)
    requires
        forall|p: UserPosition| #[trigger] value(p) >= 0,
    ensures
        sum_of(positions, value) >= 0,
    decreases positions.len(),
{
    if positions.len() > 0 {
        lemma_sum_nonnegative(positions.drop_last(), value);
        assert(value(positions.last()) >= 0);
    }
}

/// When the accumulator moves, the earnings move by that much for every staked token.
proof fn lemma_earnings_move(positions: Seq<UserPosition>, from: int, to: int)
    ensures
        sum_of(positions, earnings(to)) == sum_of(positions, earnings(from)) + (to - from) * sum_of(
            positions,
            stake(),
        ),
    decreases positions.len(),
{
    if positions.len() == 0 {
        lemma_mul_by_zero_is_zero(to - from);
    } else {
        let p = positions.last();
        let rest = positions.drop_last();
        lemma_earnings_move(rest, from, to);
        lemma_mul_is_distributive_add(to - from, sum_of(rest, stake()), stake()(p));
        let staked = p.staked_amount as int;
        let debt = p.reward_debt as int;
        assert(staked * (to - debt) == staked * (from - debt) + (to - from) * staked)
            by (nonlinear_arith);
    }
}

/// What the positions claimed and could claim is within what they earned.
proof fn lemma_payouts_within_earnings(positions: Seq<UserPosition>, vault_state: VaultState)
    requires
        forall|i: int|
            0 <= i < positions.len() ==> (#[trigger] positions[i]).reward_debt
                <= vault_state.reward_per_token_stored,
    ensures
        PRECISION * sum_of(positions, payout(vault_state)) <= sum_of(
            positions,
            earnings(vault_state.reward_per_token_stored as int),
        ),
    decreases positions.len(),
{
    if positions.len() == 0 {
        lemma_mul_by_zero_is_zero(PRECISION as int);
    } else {
        let p = positions.last();
        let rest = positions.drop_last();
        assert forall|i: int| 0 <= i < rest.len() implies (#[trigger] rest[i]).reward_debt
            <= vault_state.reward_per_token_stored by {
            assert(rest[i] == positions[i]);
        }
        lemma_payouts_within_earnings(rest, vault_state);
        lemma_settling_gains_nothing(vault_state, p);
    }
}

/// What the positions claimed is part of what they claimed and could claim.
proof fn lemma_claimed_within_payouts(positions: Seq<UserPosition>, vault_state: VaultState)
    ensures
        sum_of(positions, claimed()) <= sum_of(positions, payout(vault_state)),
    decreases positions.len(),
{
    if positions.len() > 0 {
        lemma_claimed_within_payouts(positions.drop_last(), vault_state);
    }
}

/// Settling rounds down.
proof fn lemma_settling_gains_nothing(vault_state: VaultState, p: UserPosition)
    requires
        p.reward_debt <= vault_state.reward_per_token_stored,
    ensures
        PRECISION * (rewards::owed(vault_state, p) + p.rewards_claimed) <= earnings(
            vault_state.reward_per_token_stored as int,
        )(p),
{
    let scaled = p.staked_amount * (vault_state.reward_per_token_stored - p.reward_debt);
    lemma_mul_nonnegative(
        p.staked_amount as int,
        vault_state.reward_per_token_stored - p.reward_debt,
    );
    lemma_fundamental_div_mod(scaled, PRECISION as int);
}

// ---------------------------------------------------------------------------------------------
// The steps
// ---------------------------------------------------------------------------------------------
/// Bringing the vault up to date keeps the books balanced.
proof fn lemma_accrual_balances(ledger: Ledger, emitted: nat, now: u64)
    requires
        balanced(ledger, emitted),
        rewards::accumulator_at(ledger.vault_state, now) <= u64::MAX,
    ensures
        balanced(
            Ledger { vault_state: rewards::accrued(ledger.vault_state, now), ..ledger },
            emitted + emission(ledger.vault_state, now),
        ),
{
    let vault_state = ledger.vault_state;
    let before = vault_state.reward_per_token_stored as int;
    let after = rewards::accumulator_at(vault_state, now) as int;
    let total = vault_state.total_staked as int;
    lemma_earnings_move(ledger.positions, before, after);
    if total > 0 {
        let reward = emission(vault_state, now) as int;
        assert((after - before) * total <= reward * PRECISION) by {
            lemma_fundamental_div_mod(reward * PRECISION, total);
            lemma_mul_is_commutative(total, after - before);
        }
        lemma_mul_is_commutative(reward, PRECISION as int);
        lemma_mul_is_distributive_add(PRECISION as int, emitted as int, reward);
    } else {
        lemma_mul_by_zero_is_zero(after - before);
    }
    let current = Ledger { vault_state: rewards::accrued(vault_state, now), ..ledger };
    assert forall|i: int| 0 <= i < current.positions.len() implies (
    #[trigger] current.positions[i]).reward_debt <= after by {
        assert(ledger.positions[i].reward_debt <= before);
    }
}

/// Replacing one position of a balanced ledger by one that is settled up to date, and that took at
/// most what was owed, keeps the books balanced as long as the total follows the stake.
proof fn lemma_position_balances(
    ledger: Ledger,
    emitted: nat,
    index: int,
    vault_state: VaultState,
    p: UserPosition,
)
    requires
        balanced(ledger, emitted),
        0 <= index < ledger.positions.len(),
        vault_state.reward_per_token_stored == ledger.vault_state.reward_per_token_stored,
        vault_state.total_staked - ledger.vault_state.total_staked == p.staked_amount
            - ledger.positions[index].staked_amount,
        p.reward_debt == vault_state.reward_per_token_stored,
        p.pending_rewards + p.rewards_claimed == rewards::owed(
            ledger.vault_state,
            ledger.positions[index],
        ) + ledger.positions[index].rewards_claimed,
    ensures
        balanced(written(ledger, index, vault_state, p), emitted),
{
    let stored = vault_state.reward_per_token_stored as int;
    let old_position = ledger.positions[index];
    let done = written(ledger, index, vault_state, p);
    assert(old_position.reward_debt <= stored);
    lemma_sum_update(ledger.positions, index, p, stake());
    lemma_sum_update(ledger.positions, index, p, earnings(stored));
    lemma_settling_gains_nothing(ledger.vault_state, old_position);
    lemma_mul_by_zero_is_zero(p.staked_amount as int);
    assert(earnings(stored)(p) <= earnings(stored)(old_position));
    assert forall|i: int| 0 <= i < done.positions.len() implies (
    #[trigger] done.positions[i]).reward_debt <= stored by {
        if i != index {
            assert(ledger.positions[i].reward_debt <= stored);
        }
    }
}

/// A new vault has balanced books: nothing is staked, nothing is earned.
pub proof fn law_new_vault_is_balanced(
    accounts: Initialize,
    bump: u8,
    reward_rate_per_second: u64,
    now: u64,
)
    ensures
        balanced(
            new_ledger(accounts, bump, reward_rate_per_second, now),
            0,
        ),
{
}

/// A vault emits its rate for every second since its last update in which anything is staked.
pub proof fn law_emission_in_numbers(vault_state: VaultState, now: u64)
    ensures
        vault_state.total_staked > 0 && now >= vault_state.last_update_time ==> emission(
            vault_state,
            now,
        ) == (now - vault_state.last_update_time) * vault_state.reward_rate_per_second,
        vault_state.total_staked == 0 || now < vault_state.last_update_time ==> emission(
            vault_state,
            now,
        ) == 0,
{
    assert(0nat * (vault_state.reward_rate_per_second as nat) == 0) by (nonlinear_arith);
}

/// Every step keeps the books balanced: the total stays the sum of the stakes, and what the
/// positions earned stays covered by what the vault emitted.
pub proof fn law_steps_keep_the_balance(
    ledger: Ledger,
    emitted: nat,
    step: Step,
    program_id: Seq<u8>,
)
    requires
        balanced(ledger, emitted),
        concerns(step, ledger),
    ensures
        balanced(
            after_step(ledger, step, program_id),
            emitted + emitted_by(ledger, step, program_id),
        ),
{
    match step {
        Step::Join { user_position } => {
            let joined = after_step(ledger, step, program_id);
            assert(joined.positions.drop_last() =~= ledger.positions);
            let stored = ledger.vault_state.reward_per_token_stored as int;
            assert(earnings(stored)(user_position) == 0) by (nonlinear_arith)
                requires
                    is_fresh(user_position),
            ;
            assert forall|i: int| 0 <= i < joined.positions.len() implies (
            #[trigger] joined.positions[i]).reward_debt <= stored by {
                if i < ledger.positions.len() {
                    assert(ledger.positions[i].reward_debt <= stored);
                }
            }
        },
        Step::Deposit { index, accounts, amount, now } => {
            if let Ok((done, _)) = laws::deposit_outcome(accounts, program_id, amount, now) {
                lemma_accrual_balances(ledger, emitted, now);
                let current = Ledger {
                    vault_state: rewards::accrued(ledger.vault_state, now),
                    ..ledger
                };
                lemma_position_balances(
                    current,
                    emitted + emission(ledger.vault_state, now),
                    index,
                    done.vault_state.data,
                    done.user_position.data,
                );
            }
        },
        Step::Withdraw { index, accounts, amount, now } => {
            if let Ok((done, _)) = laws::withdraw_outcome(accounts, program_id, amount, now) {
                lemma_accrual_balances(ledger, emitted, now);
                let current = Ledger {
                    vault_state: rewards::accrued(ledger.vault_state, now),
                    ..ledger
                };
                lemma_position_balances(
                    current,
                    emitted + emission(ledger.vault_state, now),
                    index,
                    done.vault_state.data,
                    done.user_position.data,
                );
            }
        },
        Step::Claim { index, accounts, now } => {
            if let Ok((done, _)) = laws::claim_outcome(accounts, program_id, now) {
                lemma_accrual_balances(ledger, emitted, now);
                let current = Ledger {
                    vault_state: rewards::accrued(ledger.vault_state, now),
                    ..ledger
                };
                lemma_position_balances(
                    current,
                    emitted + emission(ledger.vault_state, now),
                    index,
                    done.vault_state.data,
                    done.user_position.data,
                );
            }
        },
        Step::SetRewardRate { accounts, new_rate, now } => {
            if instructions::set_reward_rate_answer(accounts, program_id, new_rate, now) is Ok {
                lemma_accrual_balances(ledger, emitted, now);
            }
        },
        Step::SetPaused { .. } => {},
    }
}

/// After any history that begins with a new vault the books are balanced.
pub proof fn law_every_history_is_balanced(
    accounts: Initialize,
    bump: u8,
    reward_rate_per_second: u64,
    now: u64,
    steps: Seq<Step>,
    program_id: Seq<u8>,
)
    requires
        ({
            let start = new_ledger(accounts, bump, reward_rate_per_second, now);
            history_of(start, steps, program_id)
        }),
    ensures
        ({
            let start = new_ledger(accounts, bump, reward_rate_per_second, now);
            balanced(
                after_steps(start, steps, program_id),
                emitted_over(start, steps, program_id),
            )
        }),
    decreases steps.len(),
{
    if steps.len() == 0 {
        law_new_vault_is_balanced(accounts, bump, reward_rate_per_second, now);
    } else {
        let start = new_ledger(accounts, bump, reward_rate_per_second, now);
        law_every_history_is_balanced(
            accounts,
            bump,
            reward_rate_per_second,
            now,
            steps.drop_last(),
            program_id,
        );
        law_steps_keep_the_balance(
            after_steps(start, steps.drop_last(), program_id),
            emitted_over(start, steps.drop_last(), program_id),
            steps.last(),
            program_id,
        );
    }
}

/// The vault never promises more than it emitted: all rewards ever claimed, together with all that
/// could be claimed at `now`, are at most the rewards emitted up to `now`.
pub proof fn law_rewards_are_covered(ledger: Ledger, emitted: nat, now: u64)
    requires
        balanced(ledger, emitted),
        rewards::accumulator_at(ledger.vault_state, now) <= u64::MAX,
    ensures
        sum_of(ledger.positions, payout(rewards::accrued(ledger.vault_state, now))) <= emitted + (
        if ledger.vault_state.total_staked > 0 && now >= ledger.vault_state.last_update_time {
            (now - ledger.vault_state.last_update_time) * ledger.vault_state.reward_rate_per_second
        } else {
            0
        }),
{
    law_emission_in_numbers(ledger.vault_state, now);
    let current = rewards::accrued(ledger.vault_state, now);
    lemma_accrual_balances(ledger, emitted, now);
    assert forall|i: int| 0 <= i < ledger.positions.len() implies (
    #[trigger] ledger.positions[i]).reward_debt <= current.reward_per_token_stored by {
        assert(ledger.positions[i].reward_debt <= ledger.vault_state.reward_per_token_stored);
    }
    lemma_payouts_within_earnings(ledger.positions, current);
    let paid = sum_of(ledger.positions, payout(current));
    let bound = emitted + emission(ledger.vault_state, now);
    assert(paid <= bound) by (nonlinear_arith)
        requires
            PRECISION * paid <= PRECISION * bound,
    ;
}

/// After any history that begins with a new vault, all rewards ever claimed, together with all
/// that could be claimed at `at`, are at most the rewards emitted up to `at`.
pub proof fn law_every_history_is_covered(
    accounts: Initialize,
    bump: u8,
    reward_rate_per_second: u64,
    now: u64,
    steps: Seq<Step>,
    program_id: Seq<u8>,
    at: u64,
)
    requires
        ({
            let start = new_ledger(accounts, bump, reward_rate_per_second, now);
            &&& history_of(start, steps, program_id)
            &&& rewards::accumulator_at(
                after_steps(start, steps, program_id).vault_state,
                at,
            ) <= u64::MAX
        }),
    ensures
        ({
            let start = new_ledger(accounts, bump, reward_rate_per_second, now);
            let ledger = after_steps(start, steps, program_id);
            let state = ledger.vault_state;
            sum_of(ledger.positions, payout(rewards::accrued(state, at))) <= emitted_over(
                start,
                steps,
                program_id,
            ) + (if state.total_staked > 0 && at >= state.last_update_time {
                (at - state.last_update_time) * state.reward_rate_per_second
            } else {
                0
            })
        }),
{
    let start = new_ledger(accounts, bump, reward_rate_per_second, now);
    law_every_history_is_balanced(
        accounts,
        bump,
        reward_rate_per_second,
        now,
        steps,
        program_id,
    );
    law_rewards_are_covered(
        after_steps(start, steps, program_id),
        emitted_over(start, steps, program_id),
        at,
    );
}

/// Every step moves exactly the tokens that it books: the vault's total follows the transfers into
/// and out of its treasury, and the rewards booked as claimed follow the transfers out of the
/// reward treasury.
pub proof fn law_steps_book_their_transfers(ledger: Ledger, step: Step, program_id: Seq<u8>)
    requires
        concerns(step, ledger),
    ensures
        ({
            let after = after_step(ledger, step, program_id);
            &&& after.vault_state.total_staked == ledger.vault_state.total_staked + moved_by(
                step,
                program_id,
            )
            &&& sum_of(after.positions, claimed()) == sum_of(ledger.positions, claimed())
                + paid_by(step, program_id)
        }),
{
    match step {
        Step::Join { user_position } => {
            let joined = after_step(ledger, step, program_id);
            assert(joined.positions.drop_last() =~= ledger.positions);
        },
        Step::Deposit { index, accounts, amount, now } => {
            if let Ok((done, _)) = laws::deposit_outcome(accounts, program_id, amount, now) {
                lemma_sum_update(ledger.positions, index, done.user_position.data, claimed());
            }
        },
        Step::Withdraw { index, accounts, amount, now } => {
            if let Ok((done, _)) = laws::withdraw_outcome(accounts, program_id, amount, now) {
                lemma_sum_update(ledger.positions, index, done.user_position.data, claimed());
            }
        },
        Step::Claim { index, accounts, now } => {
            if let Ok((done, _)) = laws::claim_outcome(accounts, program_id, now) {
                lemma_sum_update(ledger.positions, index, done.user_position.data, claimed());
            }
        },
        _ => {},
    }
}

/// A vault's treasury holds the stakes: after any history that begins with a new vault, the
/// amounts of all deposit transfers less those of all withdrawal transfers are the vault's total,
/// which is the sum of the stakes.
pub proof fn law_every_history_holds_the_stakes(
    accounts: Initialize,
    bump: u8,
    reward_rate_per_second: u64,
    now: u64,
    steps: Seq<Step>,
    program_id: Seq<u8>,
)
    requires
        history_of(new_ledger(accounts, bump, reward_rate_per_second, now), steps, program_id),
    ensures
        ({
            let start = new_ledger(accounts, bump, reward_rate_per_second, now);
            let ledger = after_steps(start, steps, program_id);
            &&& moved_over(steps, program_id) == ledger.vault_state.total_staked
            &&& moved_over(steps, program_id) == sum_of(ledger.positions, stake())
        }),
    decreases steps.len(),
{
    let start = new_ledger(accounts, bump, reward_rate_per_second, now);
    law_every_history_is_balanced(
        accounts,
        bump,
        reward_rate_per_second,
        now,
        steps,
        program_id,
    );
    if steps.len() > 0 {
        law_every_history_holds_the_stakes(
            accounts,
            bump,
            reward_rate_per_second,
            now,
            steps.drop_last(),
            program_id,
        );
        law_steps_book_their_transfers(
            after_steps(start, steps.drop_last(), program_id),
            steps.last(),
            program_id,
        );
    }
}

/// After any history that begins with a new vault, the amounts of all reward transfers are the
/// rewards that the positions have claimed, and at most the rewards that the vault emitted.
pub proof fn law_every_history_pays_within_emissions(
    accounts: Initialize,
    bump: u8,
    reward_rate_per_second: u64,
    now: u64,
    steps: Seq<Step>,
    program_id: Seq<u8>,
)
    requires
        history_of(new_ledger(accounts, bump, reward_rate_per_second, now), steps, program_id),
    ensures
        ({
            let start = new_ledger(accounts, bump, reward_rate_per_second, now);
            let ledger = after_steps(start, steps, program_id);
            &&& paid_over(steps, program_id) == sum_of(ledger.positions, claimed())
            &&& paid_over(steps, program_id) <= emitted_over(start, steps, program_id)
        }),
    decreases steps.len(),
{
    let start = new_ledger(accounts, bump, reward_rate_per_second, now);
    let ledger = after_steps(start, steps, program_id);
    let emitted = emitted_over(start, steps, program_id);
    law_every_history_is_balanced(
        accounts,
        bump,
        reward_rate_per_second,
        now,
        steps,
        program_id,
    );
    if steps.len() > 0 {
        law_every_history_pays_within_emissions(
            accounts,
            bump,
            reward_rate_per_second,
            now,
            steps.drop_last(),
            program_id,
        );
        law_steps_book_their_transfers(
            after_steps(start, steps.drop_last(), program_id),
            steps.last(),
            program_id,
        );
    }
    lemma_payouts_within_earnings(ledger.positions, ledger.vault_state);
    lemma_claimed_within_payouts(ledger.positions, ledger.vault_state);
    let paid = sum_of(ledger.positions, payout(ledger.vault_state));
    assert(paid <= emitted) by (nonlinear_arith)
        requires
            PRECISION * paid <= PRECISION * emitted,
    ;
}

/// With balanced books a stake can always be taken out of the total: a withdrawal that has begun
/// can be finished.
pub proof fn law_withdrawals_can_be_finished(
    ledger: Ledger,
    emitted: nat,
    index: int,
    accounts: Withdraw,
    amount: u64,
    now: u64,
)
    requires
        balanced(ledger, emitted),
        0 <= index < ledger.positions.len(),
        accounts.vault_state.data == ledger.vault_state,
        accounts.user_position.data == ledger.positions[index],
        instructions::withdraw_begun(accounts, amount, now) is Ok,
    ensures
        instructions::withdraw_finished(
            instructions::withdraw_begun(accounts, amount, now)->Ok_0,
        ) is Ok,
{
    lemma_sum_covers(ledger.positions, index, stake());
}

/// With balanced books a user gets a stake out at any time: a withdrawal of any part of it succeeds
/// wherever its accounts meet their constraints and the accumulator and the rewards owed fit in 64
/// bits, however long ago the vault was last updated.
pub proof fn law_stakes_can_be_withdrawn(
    ledger: Ledger,
    emitted: nat,
    index: int,
    accounts: Withdraw,
    program_id: Seq<u8>,
    amount: u64,
    now: u64,
)
    requires
        balanced(ledger, emitted),
        0 <= index < ledger.positions.len(),
        accounts.vault_state.data == ledger.vault_state,
        accounts.user_position.data == ledger.positions[index],
        accounts.constraints(accounts.addresses(program_id)) is Ok,
        0 < amount <= ledger.positions[index].staked_amount,
        ({
            let state = ledger.vault_state;
            let position = ledger.positions[index];
            let per_token = state.reward_per_token_stored + (if state.total_staked > 0 && now
                >= state.last_update_time {
                (now - state.last_update_time) * state.reward_rate_per_second * 1_000_000_000 / (
                state.total_staked as int)
            } else {
                0
            });
            &&& per_token <= u64::MAX
            &&& position.pending_rewards + position.staked_amount * (per_token
                - position.reward_debt) / 1_000_000_000 <= u64::MAX
        }),
    ensures
        laws::withdraw_outcome(accounts, program_id, amount, now) is Ok,
        ({
            let (after, event) = laws::withdraw_outcome(accounts, program_id, amount, now)->Ok_0;
            &&& after.vault_state.data.total_staked == ledger.vault_state.total_staked - amount
            &&& after.user_position.data.staked_amount == ledger.positions[index].staked_amount
                - amount
            &&& event.amount == amount
        }),
{
    lemma_sum_covers(ledger.positions, index, stake());
    promises::law_accumulator_never_behind(ledger.vault_state, now);
    assert(ledger.positions[index].reward_debt <= ledger.vault_state.reward_per_token_stored);
    promises::law_withdrawal_as_a_whole(accounts, program_id, amount, now);
}

} // verus!
