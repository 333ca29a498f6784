use vstd::arithmetic::div_mod::*;
use vstd::prelude::*;

use crate::errors::VaultError;
use crate::state::{UserPosition, VaultState};

verus! {

/// The scale of the accumulator: a reward of one token per staked token adds this much to it.
pub const PRECISION: u64 = 1_000_000_000;

/// The seconds that a reading of the clock stands for. A reading before the epoch is taken in
/// two's complement, so that it lies in the far future.
pub open spec fn clock_time(unix_timestamp: i64) -> u64 {
    if unix_timestamp >= 0 {
        unix_timestamp as u64
    } else {
        (unix_timestamp + 0x1_0000_0000_0000_0000) as u64
    }
}

/// The seconds since the accumulator was last brought up to date; none, where the clock stands
/// before that moment.
pub open spec fn elapsed(vault_state: VaultState, now: u64) -> nat {
    if now >= vault_state.last_update_time {
        (now - vault_state.last_update_time) as nat
    } else {
        0
    }
}

/// What one staked token earns, scaled by `PRECISION`, where `seconds` pass at `rate` and
/// `total_staked` tokens share in it.
pub open spec fn reward_per_token(seconds: nat, rate: nat, total_staked: nat) -> nat {
    if total_staked == 0 {
        0
    } else {
        (seconds * rate * PRECISION as nat) / total_staked
    }
}

/// The value of the accumulator at `now`.
pub open spec fn accumulator_at(vault_state: VaultState, now: u64) -> nat {
    vault_state.reward_per_token_stored as nat + reward_per_token(
        elapsed(vault_state, now),
        vault_state.reward_rate_per_second as nat,
        vault_state.total_staked as nat,
    )
}

/// The vault with its accumulator brought up to `now`. Without any stake the vault only notes
/// the time; with a stake its time never goes back.
pub open spec fn accrued(vault_state: VaultState, now: u64) -> VaultState {
    VaultState {
        reward_per_token_stored: accumulator_at(vault_state, now) as u64,
        last_update_time: if vault_state.total_staked == 0 || now
            > vault_state.last_update_time {
            now
        } else {
            vault_state.last_update_time
        },
        ..vault_state
    }
}

/// How far the accumulator has moved past the position's debt.
pub open spec fn unsettled_per_token(
    vault_state: VaultState,
    user_position: UserPosition,
) -> nat {
    if vault_state.reward_per_token_stored >= user_position.reward_debt {
        (vault_state.reward_per_token_stored - user_position.reward_debt) as nat
    } else {
        0
    }
}

/// The rewards that the position's stake earned since they were last settled.
pub open spec fn newly_earned(vault_state: VaultState, user_position: UserPosition) -> nat {
    (user_position.staked_amount as nat * unsettled_per_token(vault_state, user_position))
        / PRECISION as nat
}

/// All rewards that the position could claim: those settled and those newly earned.
pub open spec fn owed(vault_state: VaultState, user_position: UserPosition) -> nat {
    user_position.pending_rewards as nat + newly_earned(vault_state, user_position)
}

/// The position with its newly earned rewards moved to the pending ones.
pub open spec fn settled(
    vault_state: VaultState,
    user_position: UserPosition,
) -> UserPosition {
    UserPosition {
        pending_rewards: owed(vault_state, user_position) as u64,
        ..user_position
    }
}

/// Reads a timestamp of the clock as seconds.
pub fn clock_seconds(unix_timestamp: i64) -> (now: u64)
    ensures
        now == clock_time(unix_timestamp),
{
    assert(unix_timestamp < 0 ==> #[verifier::truncate] (unix_timestamp as u64)
        == unix_timestamp + 0x1_0000_0000_0000_0000) by (bit_vector);
    #[verifier::truncate]
    let now: u64 = unix_timestamp as u64;
    now
}

/// A scaled reward that does not fit in 128 bits does not fit in 64 either once it is shared
/// among at most `u64::MAX` tokens.
proof fn lemma_wide_share(reward: int, total_staked: int)
    requires
        reward > u128::MAX,
        0 < total_staked <= u64::MAX,
    ensures
        reward / total_staked > u64::MAX,
{
    let bound = u64::MAX + 1;
    assert(bound * total_staked <= reward) by (nonlinear_arith)
        requires
            bound == u64::MAX + 1,
            reward > u128::MAX,
            0 < total_staked <= u64::MAX,
    ;
    lemma_div_is_ordered(bound * total_staked, reward, total_staked);
    lemma_div_by_multiple(bound, total_staked);
}

/// Brings the accumulator up to `now`.
pub fn update_reward_per_token(vault_state: &mut VaultState, now: u64) -> (res: Result<
    (),
    VaultError,
>)
    ensures
        match res {
            Ok(()) => accumulator_at(*old(vault_state), now) <= u64::MAX && *final(vault_state)
                == accrued(*old(vault_state), now),
            Err(e) => e == VaultError::MathOverflow && accumulator_at(*old(vault_state), now)
                > u64::MAX && *final(vault_state) == *old(vault_state),
        },
        res is Ok && old(vault_state).total_staked > 0 && now >= old(
            vault_state,
        ).last_update_time ==> {
            &&& final(vault_state).reward_per_token_stored == old(
                vault_state,
            ).reward_per_token_stored + ((now - old(vault_state).last_update_time) * old(
                vault_state,
            ).reward_rate_per_second * PRECISION) / (old(vault_state).total_staked as int)
            &&& final(vault_state).last_update_time == now
        },
{
    if vault_state.total_staked == 0 {
        vault_state.last_update_time = now;
        return Ok(());
    }
    let elapsed: u64 = now.saturating_sub(vault_state.last_update_time);
    let rate: u64 = vault_state.reward_rate_per_second;
    let total: u64 = vault_state.total_staked;
    if elapsed == 0 {
        assert(0nat * (rate as nat) * (PRECISION as nat) == 0) by (nonlinear_arith);
        assert(0nat / (total as nat) == 0) by (nonlinear_arith)
            requires
                total > 0,
        ;
        return Ok(());
    }
    assert(0 <= elapsed * rate <= u128::MAX) by (nonlinear_arith)
        requires
            0 <= elapsed <= u64::MAX,
            0 <= rate <= u64::MAX,
    ;
    let emitted: u128 = match (elapsed as u128).checked_mul(rate as u128) {
        Some(emitted) => emitted,
        None => {
            return Err(VaultError::MathOverflow);
        },
    };
    let scaled: u128 = match emitted.checked_mul(PRECISION as u128) {
        Some(scaled) => scaled,
        None => {
            proof {
                lemma_wide_share(emitted * PRECISION, total as int);
            }
            return Err(VaultError::MathOverflow);
        },
    };
    let reward_delta: u128 = match scaled.checked_div(total as u128) {
        Some(reward_delta) => reward_delta,
        None => {
            return Err(VaultError::MathOverflow);
        },
    };
    if reward_delta > u64::MAX as u128 {
        return Err(VaultError::MathOverflow);
    }
    let stored: u64 = match vault_state.reward_per_token_stored.checked_add(
        reward_delta as u64,
    ) {
        Some(stored) => stored,
        None => {
            return Err(VaultError::MathOverflow);
        },
    };
    vault_state.reward_per_token_stored = stored;
    vault_state.last_update_time = now;
    Ok(())
}

/// The rewards that the position's stake earned since they were last settled.
pub fn calculate_earned(vault_state: &VaultState, user_position: &UserPosition) -> (res: Result<
    u64,
    VaultError,
>)
    ensures
        match res {
            Ok(earned) => earned == newly_earned(*vault_state, *user_position),
            Err(e) => e == VaultError::MathOverflow && newly_earned(*vault_state, *user_position)
                > u64::MAX,
        },
{
    let delta: u64 = vault_state.reward_per_token_stored.saturating_sub(
        user_position.reward_debt,
    );
    let staked: u64 = user_position.staked_amount;
    assert(0 <= staked * delta <= u128::MAX) by (nonlinear_arith)
        requires
            0 <= staked <= u64::MAX,
            0 <= delta <= u64::MAX,
    ;
    let scaled: u128 = match (staked as u128).checked_mul(delta as u128) {
        Some(scaled) => scaled,
        None => {
            return Err(VaultError::MathOverflow);
        },
    };
    let earned: u128 = match scaled.checked_div(PRECISION as u128) {
        Some(earned) => earned,
        None => {
            return Err(VaultError::MathOverflow);
        },
    };
    if earned > u64::MAX as u128 {
        return Err(VaultError::MathOverflow);
    }
    Ok(earned as u64)
}

/// All rewards that the position could claim.
pub fn claimable_rewards(vault_state: &VaultState, user_position: &UserPosition) -> (res: Result<
    u64,
    VaultError,
>)
    ensures
        match res {
            Ok(amount) => amount == owed(*vault_state, *user_position),
            Err(e) => e == VaultError::MathOverflow && owed(*vault_state, *user_position)
                > u64::MAX,
        },
{
    let newly: u64 = match calculate_earned(vault_state, user_position) {
        Ok(newly) => newly,
        Err(e) => {
            return Err(e);
        },
    };
    match user_position.pending_rewards.checked_add(newly) {
        Some(amount) => Ok(amount),
        None => Err(VaultError::MathOverflow),
    }
}

/// Moves the newly earned rewards into the position's pending rewards.
pub fn settle_pending_rewards(
    vault_state: &VaultState,
    user_position: &mut UserPosition,
) -> (res: Result<(), VaultError>)
    ensures
        match res {
            Ok(()) => owed(*vault_state, *old(user_position)) <= u64::MAX && *final(user_position)
                == settled(*vault_state, *old(user_position)),
            Err(e) => e == VaultError::MathOverflow && owed(*vault_state, *old(user_position))
                > u64::MAX && *final(user_position) == *old(user_position),
        },
{
    match claimable_rewards(vault_state, user_position) {
        Ok(pending_rewards) => {
            user_position.pending_rewards = pending_rewards;
            Ok(())
        },
        Err(e) => Err(e),
    }
}

} // verus!
