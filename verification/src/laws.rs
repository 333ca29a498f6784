use vstd::arithmetic::div_mod::*;
use vstd::arithmetic::mul::*;
use vstd::prelude::*;

use crate::accounts::{Account, AdminAction, ClaimRewards, Deposit, Initialize, Withdraw};
use crate::errors::{InstructionError, VaultError};
use crate::events::{Deposited, RewardsClaimed, Withdrawn};
use crate::instructions;
use crate::pda;
use crate::rewards;
use crate::rewards::PRECISION;
use crate::state::{UserPosition, VaultState};

verus! {

/// The outcome of a whole deposit whose transfer goes through.
pub open spec fn deposit_outcome(
    accounts: Deposit,
    program_id: Seq<u8>,
    amount: u64,
    now: u64,
) -> Result<(Deposit, Deposited), InstructionError> {
    match instructions::deposit_answer(accounts, program_id, amount, now) {
        Ok(pending) => match instructions::deposit_finished(pending) {
            Ok(done) => Ok(done),
            Err(e) => Err(InstructionError::Vault(e)),
        },
        Err(e) => Err(e),
    }
}

/// The outcome of a whole withdrawal whose transfer goes through.
pub open spec fn withdraw_outcome(
    accounts: Withdraw,
    program_id: Seq<u8>,
    amount: u64,
    now: u64,
) -> Result<(Withdraw, Withdrawn), InstructionError> {
    match instructions::withdraw_answer(accounts, program_id, amount, now) {
        Ok(pending) => match instructions::withdraw_finished(pending) {
            Ok(done) => Ok(done),
            Err(e) => Err(InstructionError::Vault(e)),
        },
        Err(e) => Err(e),
    }
}

/// The outcome of a whole claim whose transfer goes through.
pub open spec fn claim_outcome(accounts: ClaimRewards, program_id: Seq<u8>, now: u64) -> Result<
    (ClaimRewards, RewardsClaimed),
    InstructionError,
> {
    match instructions::claim_answer(accounts, program_id, now) {
        Ok(pending) => match instructions::claim_finished(pending) {
            Ok(done) => Ok(done),
            Err(e) => Err(InstructionError::Vault(e)),
        },
        Err(e) => Err(e),
    }
}

/// What users cannot change of a vault: its administrator, its tokens, its rate, its pause and
/// its bump seed.
pub open spec fn same_configuration(a: VaultState, b: VaultState) -> bool {
    &&& a.admin == b.admin
    &&& a.deposit_mint == b.deposit_mint
    &&& a.reward_mint == b.reward_mint
    &&& a.reward_rate_per_second == b.reward_rate_per_second
    &&& a.paused == b.paused
    &&& a.bump == b.bump
}

// ---------------------------------------------------------------------------------------------
// The accumulator
// ---------------------------------------------------------------------------------------------
/// No time passes between two settlements at one moment: right after the vault was brought up to
/// `now`, whatever has since become of its stake, its accumulator stands where it is.
proof fn lemma_current_at(vault_state: VaultState, now: u64)
    requires
        vault_state.last_update_time >= now,
    ensures
        rewards::accumulator_at(vault_state, now) == vault_state.reward_per_token_stored,
        rewards::elapsed(vault_state, now) == 0,
{
    let rate = vault_state.reward_rate_per_second as nat;
    assert(0nat * rate * (PRECISION as nat) == 0) by (nonlinear_arith);
    if vault_state.total_staked > 0 {
        lemma_div_of0(vault_state.total_staked as int);
    }
}

/// The accumulator never falls when the vault is brought up to date.
pub proof fn law_accumulator_never_falls(vault_state: VaultState, now: u64)
    requires
        rewards::accumulator_at(vault_state, now) <= u64::MAX,
    ensures
        rewards::accrued(vault_state, now).reward_per_token_stored
            >= vault_state.reward_per_token_stored,
{
}

/// A vault's time never goes back, as long as something is staked or the clock does not itself go
/// back.
pub proof fn law_time_never_goes_back(vault_state: VaultState, now: u64)
    requires
        vault_state.total_staked > 0 || now >= vault_state.last_update_time,
    ensures
        rewards::accrued(vault_state, now).last_update_time >= vault_state.last_update_time,
{
}

/// Bringing a vault up to date twice at one moment is the same as doing it once.
pub proof fn law_accrual_is_idempotent(vault_state: VaultState, now: u64)
    requires
        rewards::accumulator_at(vault_state, now) <= u64::MAX,
    ensures
        rewards::accumulator_at(rewards::accrued(vault_state, now), now) <= u64::MAX,
        rewards::accrued(rewards::accrued(vault_state, now), now) == rewards::accrued(
            vault_state,
            now,
        ),
{
    lemma_current_at(rewards::accrued(vault_state, now), now);
}

/// Bringing a vault up to date at a moment in between never gains anything, and loses at most one
/// unit of the accumulator.
pub proof fn law_updates_in_between(vault_state: VaultState, between: u64, now: u64)
    requires
        vault_state.last_update_time <= between <= now,
        rewards::accumulator_at(vault_state, now) <= u64::MAX,
    ensures
        rewards::accumulator_at(vault_state, between) <= u64::MAX,
        rewards::accumulator_at(rewards::accrued(vault_state, between), now)
            <= rewards::accumulator_at(vault_state, now) <= rewards::accumulator_at(
            rewards::accrued(vault_state, between),
            now,
        ) + 1,
{
    let total = vault_state.total_staked as int;
    if total > 0 {
        let scale = vault_state.reward_rate_per_second as int * PRECISION as int;
        let t1 = between - vault_state.last_update_time;
        let t2 = now - between;
        let rate = vault_state.reward_rate_per_second as int;
        lemma_mul_is_associative(t1, rate, PRECISION as int);
        lemma_mul_is_associative(t2, rate, PRECISION as int);
        lemma_mul_is_associative(t1 + t2, rate, PRECISION as int);
        lemma_mul_is_distributive_add_other_way(scale, t1, t2);
        lemma_mul_nonnegative(rate, PRECISION as int);
        lemma_mul_nonnegative(t1, scale);
        lemma_mul_nonnegative(t2, scale);
        lemma_split_division(t1 * scale, t2 * scale, total);
    } else {
        lemma_current_at(rewards::accrued(vault_state, between), between);
    }
}

/// Dividing two parts falls short of dividing their sum by at most one.
proof fn lemma_split_division(a: int, b: int, d: int)
    requires
        0 <= a,
        0 <= b,
        0 < d,
    ensures
        0 <= a / d,
        0 <= b / d,
        a / d + b / d <= (a + b) / d <= a / d + b / d + 1,
{
    lemma_fundamental_div_mod(a, d);
    lemma_fundamental_div_mod(b, d);
    lemma_div_pos_is_pos(a, d);
    lemma_div_pos_is_pos(b, d);
    let q = a / d + b / d;
    let r = a % d + b % d;
    assert(a + b == d * q + r) by {
        lemma_mul_is_distributive_add(d, a / d, b / d);
    }
    if r < d {
        lemma_fundamental_div_mod_converse(a + b, d, q, r);
    } else {
        lemma_mul_is_distributive_add(d, q, 1);
        lemma_fundamental_div_mod_converse(a + b, d, q + 1, r - d);
    }
}

// ---------------------------------------------------------------------------------------------
// Rewards
// ---------------------------------------------------------------------------------------------
/// Over `seconds` at `rate`, with `staked` of `total_staked` tokens, the rounded reward is never
/// more than the exact share, and short of it by no more than the two roundings.
proof fn lemma_share(
    seconds: nat,
    rate: nat,
    staked: nat,
    total_staked: nat,
)
    requires
        total_staked > 0,
    ensures
        ({
            let earned = (staked * rewards::reward_per_token(seconds, rate, total_staked))
                / PRECISION as nat;
            &&& earned * total_staked <= seconds * rate * staked
            &&& seconds * rate * staked * PRECISION as nat <= earned * total_staked
                * PRECISION as nat + total_staked * PRECISION as nat + staked * total_staked
        }),
{
    let p = PRECISION as int;
    let t = total_staked as int;
    let s = staked as int;
    let e = seconds as int * rate as int;
    let delta = (e * p) / t;
    let earned = (s * delta) / p;
    lemma_mul_nonnegative(seconds as int, rate as int);
    lemma_fundamental_div_mod(e * p, t);
    lemma_fundamental_div_mod(s * delta, p);
    let r = (e * p) % t;
    let u = (s * delta) % p;
    assert(e * p == t * delta + r);
    assert(s * delta == p * earned + u);
    assert(e * s * p == s * (e * p)) by (nonlinear_arith);
    assert(s * (t * delta + r) == t * (s * delta) + s * r) by (nonlinear_arith);
    assert(t * (p * earned + u) == earned * t * p + u * t) by (nonlinear_arith);
    assert(0 <= u * t < p * t) by (nonlinear_arith)
        requires
            0 <= u < p,
            0 < t,
    ;
    assert(0 <= s * r <= s * t) by (nonlinear_arith)
        requires
            0 <= r < t,
            0 <= s,
    ;
    assert(earned * t <= e * s) by (nonlinear_arith)
        requires
            earned * t * p <= e * s * p,
            p > 0,
    ;
    lemma_mul_is_commutative(p, t);
}

/// A stake earns its share of what the vault emits, up to rounding: from the last update, at which
/// it is settled, up to `now` it earns at most `(now - last_update_time) * rate * staked /
/// total_staked`, and falls short of that by no more than one token and `staked / 1_000_000_000`
/// tokens.
pub proof fn law_rewards_follow_the_share(
    vault_state: VaultState,
    user_position: UserPosition,
    now: u64,
)
    requires
        vault_state.total_staked > 0,
        user_position.reward_debt == vault_state.reward_per_token_stored,
        rewards::accumulator_at(vault_state, now) <= u64::MAX,
    ensures
        ({
            let seconds: int = if now >= vault_state.last_update_time {
                now - vault_state.last_update_time
            } else {
                0
            };
            let rate = vault_state.reward_rate_per_second as int;
            let staked = user_position.staked_amount as int;
            let total_staked = vault_state.total_staked as int;
            let earned = rewards::newly_earned(
                rewards::accrued(vault_state, now),
                user_position,
            ) as int;
            &&& earned * total_staked <= seconds * rate * staked
            &&& seconds * rate * staked * 1_000_000_000 <= earned * total_staked * 1_000_000_000
                + total_staked * 1_000_000_000 + staked * total_staked
        }),
{
    lemma_share(
        rewards::elapsed(vault_state, now),
        vault_state.reward_rate_per_second as nat,
        user_position.staked_amount as nat,
        vault_state.total_staked as nat,
    );
}

/// Of two positions with the same debt, the one with the larger stake has earned at least as much.
pub proof fn law_larger_stake_earns_no_less(
    vault_state: VaultState,
    smaller: UserPosition,
    larger: UserPosition,
)
    requires
        smaller.reward_debt == larger.reward_debt,
        smaller.staked_amount <= larger.staked_amount,
    ensures
        rewards::newly_earned(vault_state, smaller) <= rewards::newly_earned(vault_state, larger),
{
    let delta = rewards::unsettled_per_token(vault_state, smaller) as int;
    lemma_mul_inequality(smaller.staked_amount as int, larger.staked_amount as int, delta);
    lemma_div_is_ordered(
        smaller.staked_amount * delta,
        larger.staked_amount * delta,
        PRECISION as int,
    );
}

/// A position whose debt is the present accumulator has earned nothing since.
proof fn lemma_nothing_new(vault_state: VaultState, user_position: UserPosition)
    requires
        user_position.reward_debt == vault_state.reward_per_token_stored,
    ensures
        rewards::newly_earned(vault_state, user_position) == 0,
{
    assert(user_position.staked_amount as nat * 0nat == 0) by (nonlinear_arith);
    lemma_div_of0(PRECISION as int);
}

/// Rewards are settled before a deposit changes the stake: what the vault owes the user right
/// after is what it owed right before.
pub proof fn law_deposit_keeps_what_is_owed(
    accounts: Deposit,
    program_id: Seq<u8>,
    amount: u64,
    now: u64,
)
    requires
        deposit_outcome(accounts, program_id, amount, now) is Ok,
    ensures
        ({
            let (after, _) = deposit_outcome(accounts, program_id, amount, now)->Ok_0;
            rewards::owed(after.vault_state.data, after.user_position.data) == rewards::owed(
                rewards::accrued(accounts.vault_state.data, now),
                accounts.user_position.data,
            )
        }),
{
    let (after, _) = deposit_outcome(accounts, program_id, amount, now)->Ok_0;
    lemma_nothing_new(after.vault_state.data, after.user_position.data);
}

/// Rewards are settled before a withdrawal changes the stake: what the vault owes the user right
/// after is what it owed right before.
pub proof fn law_withdrawal_keeps_what_is_owed(
    accounts: Withdraw,
    program_id: Seq<u8>,
    amount: u64,
    now: u64,
)
    requires
        withdraw_outcome(accounts, program_id, amount, now) is Ok,
    ensures
        ({
            let (after, _) = withdraw_outcome(accounts, program_id, amount, now)->Ok_0;
            rewards::owed(after.vault_state.data, after.user_position.data) == rewards::owed(
                rewards::accrued(accounts.vault_state.data, now),
                accounts.user_position.data,
            )
        }),
{
    let (after, _) = withdraw_outcome(accounts, program_id, amount, now)->Ok_0;
    lemma_nothing_new(after.vault_state.data, after.user_position.data);
}

/// A deposit buys no rewards of the past: a claim at the same moment pays what it would have paid
/// without the deposit.
pub proof fn law_deposit_buys_no_past_rewards(
    accounts: Deposit,
    program_id: Seq<u8>,
    amount: u64,
    now: u64,
    without: ClaimRewards,
    with: ClaimRewards,
)
    requires
        deposit_outcome(accounts, program_id, amount, now) is Ok,
        without.vault_state.data == accounts.vault_state.data,
        without.user_position.data == accounts.user_position.data,
        ({
            let (after, _) = deposit_outcome(accounts, program_id, amount, now)->Ok_0;
            &&& with.vault_state.data == after.vault_state.data
            &&& with.user_position.data == after.user_position.data
        }),
    ensures
        match (instructions::claim_begun(without, now), instructions::claim_begun(with, now)) {
            (Ok(a), Ok(b)) => a.amount == b.amount,
            (Err(a), Err(b)) => a == b,
            _ => false,
        },
{
    law_deposit_keeps_what_is_owed(accounts, program_id, amount, now);
    lemma_current_at(with.vault_state.data, now);
    assert(rewards::accrued(with.vault_state.data, now).reward_per_token_stored
        == with.vault_state.data.reward_per_token_stored);
}

/// A claim pays all that is owed, leaves nothing owed and is booked as claimed; the stake stays
/// as it is.
pub proof fn law_claim_pays_all_and_leaves_the_stake(
    accounts: ClaimRewards,
    program_id: Seq<u8>,
    now: u64,
)
    requires
        claim_outcome(accounts, program_id, now) is Ok,
    ensures
        ({
            let (after, event) = claim_outcome(accounts, program_id, now)->Ok_0;
            let pending = instructions::claim_answer(accounts, program_id, now)->Ok_0;
            let before = accounts.user_position.data;
            &&& event.amount == rewards::owed(
                rewards::accrued(accounts.vault_state.data, now),
                before,
            )
            &&& pending.transfer.amount == event.amount
            &&& rewards::owed(after.vault_state.data, after.user_position.data) == 0
            &&& after.user_position.data.rewards_claimed == before.rewards_claimed + event.amount
            &&& after.user_position.data.staked_amount == before.staked_amount
            &&& after.vault_state.data.total_staked == accounts.vault_state.data.total_staked
        }),
{
    let (after, _) = claim_outcome(accounts, program_id, now)->Ok_0;
    lemma_nothing_new(after.vault_state.data, after.user_position.data);
}

/// After a claim there is nothing left to claim at the same moment.
pub proof fn law_second_claim_finds_nothing(accounts: ClaimRewards, program_id: Seq<u8>, now: u64)
    requires
        claim_outcome(accounts, program_id, now) is Ok,
    ensures
        claim_outcome(claim_outcome(accounts, program_id, now)->Ok_0.0, program_id, now) == Err::<
            (ClaimRewards, RewardsClaimed),
            InstructionError,
        >(InstructionError::Vault(VaultError::NoRewardsToClaim)),
{
    let (after, _) = claim_outcome(accounts, program_id, now)->Ok_0;
    law_claim_pays_all_and_leaves_the_stake(accounts, program_id, now);
    lemma_current_at(after.vault_state.data, now);
    let again = rewards::accrued(after.vault_state.data, now);
    assert(again.reward_per_token_stored == after.vault_state.data.reward_per_token_stored);
    assert(after.constraints(after.addresses(program_id)) is Ok);
}

/// Claiming more often never pays more: a claim, with all that could be claimed later, is at most
/// what could be claimed later without it. A position's debt is never ahead of its vault.
pub proof fn law_claiming_more_often_pays_no_more(
    accounts: ClaimRewards,
    program_id: Seq<u8>,
    now: u64,
    later: u64,
)
    requires
        now <= later,
        accounts.user_position.data.reward_debt
            <= accounts.vault_state.data.reward_per_token_stored,
        claim_outcome(accounts, program_id, now) is Ok,
        rewards::accumulator_at(accounts.vault_state.data, later) <= u64::MAX,
    ensures
        ({
            let (after, event) = claim_outcome(accounts, program_id, now)->Ok_0;
            event.amount + rewards::owed(
                rewards::accrued(after.vault_state.data, later),
                after.user_position.data,
            ) <= rewards::owed(
                rewards::accrued(accounts.vault_state.data, later),
                accounts.user_position.data,
            )
        }),
{
    let (after, _) = claim_outcome(accounts, program_id, now)->Ok_0;
    let before = accounts.vault_state.data;
    let current = after.vault_state.data;
    assert(current == rewards::accrued(before, now));
    if before.last_update_time <= now {
        law_updates_in_between(before, now, later);
    } else if before.total_staked > 0 {
        lemma_current_at(before, now);
        assert(current == before);
    }
    let p = accounts.user_position.data;
    let staked = p.staked_amount as int;
    let first = current.reward_per_token_stored - p.reward_debt;
    let second = rewards::accumulator_at(current, later) - current.reward_per_token_stored;
    let whole = rewards::accumulator_at(before, later) - p.reward_debt;
    lemma_mul_nonnegative(staked, first);
    lemma_mul_nonnegative(staked, second);
    lemma_mul_is_distributive_add(staked, first, second);
    lemma_mul_inequality(first + second, whole, staked);
    lemma_mul_is_commutative(staked, first + second);
    lemma_mul_is_commutative(staked, whole);
    lemma_split_division(staked * first, staked * second, PRECISION as int);
    lemma_div_is_ordered(staked * (first + second), staked * whole, PRECISION as int);
}

/// A change of the rate is not retroactive: what the vault owes any position at that moment does
/// not depend on the new rate.
pub proof fn law_rate_change_is_not_retroactive(
    vault_state: VaultState,
    new_rate: u64,
    now: u64,
    user_position: UserPosition,
)
    requires
        instructions::rate_changed(vault_state, new_rate, now) is Ok,
    ensures
        ({
            let (after, _) = instructions::rate_changed(vault_state, new_rate, now)->Ok_0;
            &&& rewards::accumulator_at(after, now) == rewards::accumulator_at(vault_state, now)
            &&& rewards::owed(rewards::accrued(after, now), user_position) == rewards::owed(
                rewards::accrued(vault_state, now),
                user_position,
            )
        }),
{
    let (after, _) = instructions::rate_changed(vault_state, new_rate, now)->Ok_0;
    lemma_current_at(after, now);
}

// ---------------------------------------------------------------------------------------------
// Stakes
// ---------------------------------------------------------------------------------------------
/// The accounts of a withdrawal that meets the accounts of a deposit where it left them.
pub open spec fn withdraws_from(accounts: Withdraw, deposit: Deposit) -> bool {
    &&& accounts.vault_state == deposit.vault_state
    &&& accounts.user_position == deposit.user_position
    &&& accounts.vault_treasury == deposit.vault_treasury
    &&& accounts.user_token_account == deposit.user_token_account
    &&& accounts.user == deposit.user
}

/// A withdrawal undoes a deposit: at the same moment the user can take back the amount just
/// deposited, and the stakes are what they were.
pub proof fn law_withdrawal_undoes_deposit(
    accounts: Deposit,
    program_id: Seq<u8>,
    amount: u64,
    now: u64,
    back: Withdraw,
)
    requires
        deposit_outcome(accounts, program_id, amount, now) is Ok,
        withdraws_from(back, deposit_outcome(accounts, program_id, amount, now)->Ok_0.0),
    ensures
        withdraw_outcome(back, program_id, amount, now) is Ok,
        ({
            let (after, _) = withdraw_outcome(back, program_id, amount, now)->Ok_0;
            &&& after.vault_state.data.total_staked == accounts.vault_state.data.total_staked
            &&& after.user_position.data.staked_amount == accounts.user_position.data.staked_amount
            &&& rewards::owed(after.vault_state.data, after.user_position.data) == rewards::owed(
                rewards::accrued(accounts.vault_state.data, now),
                accounts.user_position.data,
            )
        }),
{
    law_deposit_keeps_what_is_owed(accounts, program_id, amount, now);
    let current = back.vault_state.data;
    lemma_current_at(current, now);
    assert(rewards::accrued(current, now).reward_per_token_stored
        == current.reward_per_token_stored);
    assert(back.addresses(program_id) == accounts.addresses(program_id));
    assert(back.constraints(back.addresses(program_id)) is Ok);
    law_withdrawal_keeps_what_is_owed(back, program_id, amount, now);
}

/// A deposit moves exactly the tokens that it books: the transfer, the vault's total and the
/// user's stake change by the same amount.
pub proof fn law_deposit_books_its_transfer(
    accounts: Deposit,
    program_id: Seq<u8>,
    amount: u64,
    now: u64,
)
    requires
        deposit_outcome(accounts, program_id, amount, now) is Ok,
    ensures
        ({
            let transfer = instructions::deposit_answer(
                accounts,
                program_id,
                amount,
                now,
            )->Ok_0.transfer;
            let (after, event) = deposit_outcome(accounts, program_id, amount, now)->Ok_0;
            &&& transfer.amount == amount == event.amount
            &&& after.vault_state.data.total_staked == accounts.vault_state.data.total_staked
                + amount
            &&& after.user_position.data.staked_amount == accounts.user_position.data.staked_amount
                + amount == event.total_user_staked
        }),
{
}

/// A withdrawal moves exactly the tokens that it books: the transfer, the vault's total and the
/// user's stake change by the same amount.
pub proof fn law_withdrawal_books_its_transfer(
    accounts: Withdraw,
    program_id: Seq<u8>,
    amount: u64,
    now: u64,
)
    requires
        withdraw_outcome(accounts, program_id, amount, now) is Ok,
    ensures
        ({
            let transfer = instructions::withdraw_answer(
                accounts,
                program_id,
                amount,
                now,
            )->Ok_0.transfer;
            let (after, event) = withdraw_outcome(accounts, program_id, amount, now)->Ok_0;
            &&& transfer.amount == amount == event.amount
            &&& after.vault_state.data.total_staked == accounts.vault_state.data.total_staked
                - amount
            &&& after.user_position.data.staked_amount == accounts.user_position.data.staked_amount
                - amount == event.remaining_staked
        }),
{
}

// ---------------------------------------------------------------------------------------------
// Access
// ---------------------------------------------------------------------------------------------
/// A paused vault takes no deposits; accounts that stand at their addresses are told so.
pub proof fn law_pause_halts_deposits(
    accounts: Deposit,
    program_id: Seq<u8>,
    amount: u64,
    now: u64,
)
    requires
        accounts.vault_state.data.paused,
    ensures
        instructions::deposit_answer(accounts, program_id, amount, now) is Err,
        ({
            let addresses = accounts.addresses(program_id);
            addresses.user_position == Some(accounts.user_position.key@) && addresses.vault_state
                == Some(accounts.vault_state.key@)
        }) ==> instructions::deposit_answer(accounts, program_id, amount, now) == Err::<
            instructions::PendingDeposit,
            InstructionError,
        >(InstructionError::Vault(VaultError::VaultPaused)),
{
}

/// A vault with its pause set otherwise.
pub open spec fn with_pause(vault_state: Account<VaultState>, paused: bool) -> Account<VaultState> {
    Account { key: vault_state.key, data: VaultState { paused, ..vault_state.data } }
}

/// A pause does not affect withdrawals: they are answered and booked as without it.
pub proof fn law_pause_spares_withdrawals(
    accounts: Withdraw,
    program_id: Seq<u8>,
    amount: u64,
    now: u64,
    paused: bool,
)
    ensures
        ({
            let other = Withdraw {
                vault_state: with_pause(accounts.vault_state, paused),
                ..accounts
            };
            match (
                instructions::withdraw_answer(accounts, program_id, amount, now),
                instructions::withdraw_answer(other, program_id, amount, now),
            ) {
                (Ok(a), Ok(b)) => a.transfer == b.transfer,
                (Err(a), Err(b)) => a == b,
                _ => false,
            }
        }),
        ({
            let other = Withdraw {
                vault_state: with_pause(accounts.vault_state, paused),
                ..accounts
            };
            match (
                withdraw_outcome(accounts, program_id, amount, now),
                withdraw_outcome(other, program_id, amount, now),
            ) {
                (Ok((a, x)), Ok((b, y))) => x == y && b == (Withdraw {
                    vault_state: with_pause(a.vault_state, paused),
                    ..a
                }),
                (Err(a), Err(b)) => a == b,
                _ => false,
            }
        }),
{
    let other = Withdraw { vault_state: with_pause(accounts.vault_state, paused), ..accounts };
    assert(other.addresses(program_id) == accounts.addresses(program_id));
}

/// A pause does not affect claims: they are answered and booked as without it.
pub proof fn law_pause_spares_claims(
    accounts: ClaimRewards,
    program_id: Seq<u8>,
    now: u64,
    paused: bool,
)
    ensures
        ({
            let other = ClaimRewards {
                vault_state: with_pause(accounts.vault_state, paused),
                ..accounts
            };
            match (
                instructions::claim_answer(accounts, program_id, now),
                instructions::claim_answer(other, program_id, now),
            ) {
                (Ok(a), Ok(b)) => a.transfer == b.transfer,
                (Err(a), Err(b)) => a == b,
                _ => false,
            }
        }),
        ({
            let other = ClaimRewards {
                vault_state: with_pause(accounts.vault_state, paused),
                ..accounts
            };
            match (
                claim_outcome(accounts, program_id, now),
                claim_outcome(other, program_id, now),
            ) {
                (Ok((a, x)), Ok((b, y))) => x == y && b == (ClaimRewards {
                    vault_state: with_pause(a.vault_state, paused),
                    ..a
                }),
                (Err(a), Err(b)) => a == b,
                _ => false,
            }
        }),
{
    let other = ClaimRewards { vault_state: with_pause(accounts.vault_state, paused), ..accounts };
    assert(other.addresses(program_id) == accounts.addresses(program_id));
}

/// Only its administrator sets the rate or the pause of a vault; anybody else who names the vault
/// is not authorized.
pub proof fn law_only_the_administrator(
    accounts: AdminAction,
    program_id: Seq<u8>,
    new_rate: u64,
    paused: bool,
    now: u64,
)
    requires
        accounts.admin != accounts.vault_state.data.admin,
    ensures
        instructions::set_reward_rate_answer(accounts, program_id, new_rate, now) is Err,
        instructions::set_paused_answer(accounts, program_id, paused) is Err,
        accounts.address(program_id) == Some(accounts.vault_state.key@) ==> {
            &&& instructions::set_reward_rate_answer(accounts, program_id, new_rate, now)->Err_0
                == InstructionError::Vault(VaultError::Unauthorized)
            &&& instructions::set_paused_answer(accounts, program_id, paused)->Err_0
                == InstructionError::Vault(VaultError::Unauthorized)
        },
{
}

/// Only its owner withdraws from a position; anybody else who names the vault and a position of
/// their own address in it is not authorized.
pub proof fn law_only_the_owner_withdraws(
    accounts: Withdraw,
    program_id: Seq<u8>,
    amount: u64,
    now: u64,
)
    requires
        accounts.user_position.data.owner != accounts.user,
    ensures
        instructions::withdraw_answer(accounts, program_id, amount, now) is Err,
        ({
            let addresses = accounts.addresses(program_id);
            addresses.vault_state == Some(accounts.vault_state.key@) && addresses.user_position
                == Some(accounts.user_position.key@)
        }) ==> instructions::withdraw_answer(accounts, program_id, amount, now)->Err_0
            == InstructionError::Vault(VaultError::Unauthorized),
{
}

/// Only its owner claims the rewards of a position; anybody else who names the vault and a
/// position of their own address in it is not authorized.
pub proof fn law_only_the_owner_claims(accounts: ClaimRewards, program_id: Seq<u8>, now: u64)
    requires
        accounts.user_position.data.owner != accounts.user,
    ensures
        instructions::claim_answer(accounts, program_id, now) is Err,
        ({
            let addresses = accounts.addresses(program_id);
            addresses.vault_state == Some(accounts.vault_state.key@) && addresses.user_position
                == Some(accounts.user_position.key@)
        }) ==> instructions::claim_answer(accounts, program_id, now)->Err_0
            == InstructionError::Vault(VaultError::Unauthorized),
{
}

/// The constraints on the accounts come before every other rule: accounts that break one are
/// refused for it, whatever the amount and the time.
pub proof fn law_constraints_come_first(
    deposit: Deposit,
    withdrawal: Withdraw,
    claim: ClaimRewards,
    program_id: Seq<u8>,
    amount: u64,
    now: u64,
)
    ensures
        deposit.constraints(deposit.addresses(program_id)) matches Err(e)
            ==> instructions::deposit_answer(deposit, program_id, amount, now) == Err::<
            instructions::PendingDeposit,
            InstructionError,
        >(e),
        withdrawal.constraints(withdrawal.addresses(program_id)) matches Err(e)
            ==> instructions::withdraw_answer(withdrawal, program_id, amount, now) == Err::<
            instructions::PendingWithdrawal,
            InstructionError,
        >(e),
        claim.constraints(claim.addresses(program_id)) matches Err(e)
            ==> instructions::claim_answer(claim, program_id, now) == Err::<
            instructions::PendingClaim,
            InstructionError,
        >(e),
{
}

/// The treasuries of a new vault belong to it: the one of its deposits holds the deposit token,
/// the one of its rewards the reward token, each stands at its own address, and the owner of both
/// is the vault's address.
pub proof fn law_treasuries_belong_to_the_vault(
    accounts: Initialize,
    program_id: Seq<u8>,
    reward_rate_per_second: u64,
    now: u64,
)
    requires
        instructions::initialize_answer(
            accounts,
            program_id,
            reward_rate_per_second,
            now,
        ) is Ok,
    ensures
        ({
            let (state, _) = instructions::initialize_answer(
                accounts,
                program_id,
                reward_rate_per_second,
                now,
            )->Ok_0;
            let vault = pda::found_bytes(pda::vault_state_seeds(state.deposit_mint), program_id);
            &&& vault == Some(accounts.vault_state@)
            &&& pda::found_bytes(pda::vault_treasury_seeds(state.deposit_mint), program_id) == Some(
                accounts.vault_treasury.key@,
            )
            &&& accounts.vault_treasury.mint == state.deposit_mint
            &&& vault == Some(accounts.vault_treasury.owner@)
            &&& pda::found_bytes(pda::reward_treasury_seeds(state.reward_mint), program_id) == Some(
                accounts.reward_treasury.key@,
            )
            &&& accounts.reward_treasury.mint == state.reward_mint
            &&& vault == Some(accounts.reward_treasury.owner@)
        }),
{
}

/// Tokens of a deposit go from an account of the user, who signs, to the vault's treasury.
pub proof fn law_deposits_go_to_the_treasury(
    accounts: Deposit,
    program_id: Seq<u8>,
    amount: u64,
    now: u64,
)
    requires
        instructions::deposit_answer(accounts, program_id, amount, now) is Ok,
    ensures
        ({
            let transfer = instructions::deposit_answer(
                accounts,
                program_id,
                amount,
                now,
            )->Ok_0.transfer;
            let mint = accounts.vault_state.data.deposit_mint;
            &&& transfer.from == accounts.user_token_account.key
            &&& accounts.user_token_account.owner == accounts.user
            &&& accounts.user_token_account.mint == mint
            &&& transfer.authority == accounts.user && transfer.signer is None
            &&& pda::found_bytes(pda::vault_treasury_seeds(mint), program_id) == Some(transfer.to@)
        }),
{
}

/// Tokens of a withdrawal go from the vault's treasury to an account of the position's owner, and
/// the vault's own address signs for them.
pub proof fn law_withdrawals_go_to_the_owner(
    accounts: Withdraw,
    program_id: Seq<u8>,
    amount: u64,
    now: u64,
)
    requires
        instructions::withdraw_answer(accounts, program_id, amount, now) is Ok,
    ensures
        ({
            let transfer = instructions::withdraw_answer(
                accounts,
                program_id,
                amount,
                now,
            )->Ok_0.transfer;
            let mint = accounts.vault_state.data.deposit_mint;
            &&& pda::found_bytes(pda::vault_treasury_seeds(mint), program_id) == Some(
                transfer.from@,
            )
            &&& transfer.to == accounts.user_token_account.key
            &&& accounts.user_token_account.owner == accounts.user_position.data.owner
            &&& accounts.user_token_account.mint == mint
            &&& transfer.signer matches Some(signer) && pda::created_address(
                pda::vault_signer_seeds(signer.deposit_mint, signer.bump),
                program_id,
            ) == Some(transfer.authority@)
        }),
{
}

/// Tokens of a claim go from the reward treasury to an account of the position's owner, and the
/// vault's own address signs for them.
pub proof fn law_claims_go_to_the_owner(accounts: ClaimRewards, program_id: Seq<u8>, now: u64)
    requires
        instructions::claim_answer(accounts, program_id, now) is Ok,
    ensures
        ({
            let transfer = instructions::claim_answer(accounts, program_id, now)->Ok_0.transfer;
            let mint = accounts.vault_state.data.reward_mint;
            &&& pda::found_bytes(pda::reward_treasury_seeds(mint), program_id) == Some(
                transfer.from@,
            )
            &&& transfer.to == accounts.user_reward_account.key
            &&& accounts.user_reward_account.owner == accounts.user_position.data.owner
            &&& accounts.user_reward_account.mint == mint
            &&& transfer.signer matches Some(signer) && pda::created_address(
                pda::vault_signer_seeds(signer.deposit_mint, signer.bump),
                program_id,
            ) == Some(transfer.authority@)
        }),
{
}

/// Whether a user's instruction at `now` did to the vault no more than it may: the configuration
/// is as it was, and the accumulator is brought up to `now`, which never lowers it.
pub open spec fn brought_up_to(before: VaultState, after: VaultState, now: u64) -> bool {
    &&& same_configuration(before, after)
    &&& after.reward_per_token_stored == rewards::accumulator_at(before, now)
    &&& after.reward_per_token_stored >= before.reward_per_token_stored
    &&& after.last_update_time == rewards::accrued(before, now).last_update_time
}

/// Every deposit, withdrawal and claim brings the accumulator up to date, and leaves the
/// configuration of the vault as it is.
pub proof fn law_users_bring_the_vault_up_to_date(
    deposit: Deposit,
    withdrawal: Withdraw,
    claim: ClaimRewards,
    program_id: Seq<u8>,
    amount: u64,
    now: u64,
)
    ensures
        deposit_outcome(deposit, program_id, amount, now) matches Ok((after, _)) ==> brought_up_to(
            deposit.vault_state.data,
            after.vault_state.data,
            now,
        ),
        withdraw_outcome(withdrawal, program_id, amount, now) matches Ok((after, _))
            ==> brought_up_to(withdrawal.vault_state.data, after.vault_state.data, now),
        claim_outcome(claim, program_id, now) matches Ok((after, _)) ==> brought_up_to(
            claim.vault_state.data,
            after.vault_state.data,
            now,
        ),
{
}

} // verus!
