use defi_vault::errors::VaultError;
use defi_vault::keys::Pubkey;
use defi_vault::rewards::{
    calculate_earned, claimable_rewards, clock_seconds, settle_pending_rewards,
    update_reward_per_token, PRECISION,
};
use defi_vault::state::{UserPosition, VaultState};

fn vault(rate: u64, total_staked: u64, last_update_time: u64, stored: u64) -> VaultState {
    VaultState {
        reward_rate_per_second: rate,
        total_staked,
        last_update_time,
        reward_per_token_stored: stored,
        ..VaultState::default()
    }
}

fn position(staked_amount: u64, reward_debt: u64, pending_rewards: u64) -> UserPosition {
    UserPosition {
        staked_amount,
        reward_debt,
        pending_rewards,
        ..UserPosition::default()
    }
}

#[test]
fn precision_is_one_billion() {
    assert_eq!(PRECISION, 1_000_000_000);
}

#[test]
fn accumulator_grows_by_elapsed_times_rate_over_stake() {
    let mut v = vault(100, 1_000, 10, 5);
    assert_eq!(update_reward_per_token(&mut v, 20), Ok(()));
    assert_eq!(v, vault(100, 1_000, 20, 1_000_000_005));
}

#[test]
fn accumulator_rounds_down() {
    let mut v = vault(1, 3, 0, 0);
    assert_eq!(update_reward_per_token(&mut v, 1), Ok(()));
    assert_eq!(v.reward_per_token_stored, 333_333_333);
}

#[test]
fn nothing_accrues_without_stake() {
    let mut v = vault(100, 0, 10, 5);
    assert_eq!(update_reward_per_token(&mut v, 1_000), Ok(()));
    assert_eq!(v, vault(100, 0, 1_000, 5));
    // Without a stake the vault follows even a clock that goes back.
    assert_eq!(update_reward_per_token(&mut v, 7), Ok(()));
    assert_eq!(v.last_update_time, 7);
}

#[test]
fn a_clock_that_goes_back_changes_nothing() {
    let mut v = vault(100, 1_000, 50, 5);
    assert_eq!(update_reward_per_token(&mut v, 40), Ok(()));
    assert_eq!(v, vault(100, 1_000, 50, 5));
    assert_eq!(update_reward_per_token(&mut v, 50), Ok(()));
    assert_eq!(v, vault(100, 1_000, 50, 5));
}

#[test]
fn accumulator_overflow_is_an_error_and_changes_nothing() {
    // The product does not fit in 128 bits.
    let mut v = vault(u64::MAX, u64::MAX, 0, 0);
    let before = v;
    assert_eq!(update_reward_per_token(&mut v, u64::MAX), Err(VaultError::MathOverflow));
    assert_eq!(v, before);
    // The share does not fit in 64 bits.
    let mut v = vault(u64::MAX, 1, 0, 0);
    let before = v;
    assert_eq!(update_reward_per_token(&mut v, 1), Err(VaultError::MathOverflow));
    assert_eq!(v, before);
    // The sum does not fit in 64 bits.
    let mut v = vault(1, 1, 0, u64::MAX - 999_999_999);
    let before = v;
    assert_eq!(update_reward_per_token(&mut v, 1), Err(VaultError::MathOverflow));
    assert_eq!(v, before);
    // One less fits.
    let mut v = vault(1, 1, 0, u64::MAX - 1_000_000_000);
    assert_eq!(update_reward_per_token(&mut v, 1), Ok(()));
    assert_eq!(v.reward_per_token_stored, u64::MAX);
}

#[test]
fn earned_is_stake_times_accumulator_past_the_debt() {
    let v = vault(0, 0, 0, 3_000_000_000);
    assert_eq!(calculate_earned(&v, &position(500, 1_000_000_000, 0)), Ok(1_000));
    assert_eq!(calculate_earned(&v, &position(1, 2_500_000_001, 0)), Ok(0));
    // Pending rewards are not newly earned.
    assert_eq!(calculate_earned(&v, &position(500, 1_000_000_000, 77)), Ok(1_000));
    // A debt ahead of the accumulator earns nothing.
    assert_eq!(calculate_earned(&v, &position(500, 3_000_000_001, 0)), Ok(0));
}

#[test]
fn earned_overflow_is_an_error() {
    let v = vault(0, 0, 0, u64::MAX);
    assert_eq!(
        calculate_earned(&v, &position(u64::MAX, 0, 0)),
        Err(VaultError::MathOverflow)
    );
    assert_eq!(calculate_earned(&v, &position(1_000_000_000, 0, 0)), Ok(u64::MAX));
}

#[test]
fn claimable_adds_the_pending_rewards() {
    let v = vault(0, 0, 0, 2_000_000_000);
    assert_eq!(claimable_rewards(&v, &position(10, 0, 5)), Ok(25));
    assert_eq!(
        claimable_rewards(&v, &position(10, 0, u64::MAX - 19)),
        Err(VaultError::MathOverflow)
    );
    assert_eq!(claimable_rewards(&v, &position(10, 0, u64::MAX - 20)), Ok(u64::MAX));
}

#[test]
fn settling_moves_only_what_is_new() {
    let v = vault(0, 0, 0, 2_000_000_000);
    let mut p = position(10, 0, 5);
    assert_eq!(settle_pending_rewards(&v, &mut p), Ok(()));
    assert_eq!(p, position(10, 0, 25));
    // Once the debt is up to date, settling again adds nothing.
    p.reward_debt = v.reward_per_token_stored;
    assert_eq!(settle_pending_rewards(&v, &mut p), Ok(()));
    assert_eq!(p.pending_rewards, 25);
    let mut full = position(10, 0, u64::MAX);
    assert_eq!(settle_pending_rewards(&v, &mut full), Err(VaultError::MathOverflow));
    assert_eq!(full, position(10, 0, u64::MAX));
}

#[test]
fn updates_in_between_lose_at_most_one_unit() {
    let mut once = vault(1, 3, 0, 0);
    let mut twice = once;
    assert_eq!(update_reward_per_token(&mut once, 2), Ok(()));
    assert_eq!(update_reward_per_token(&mut twice, 1), Ok(()));
    assert_eq!(update_reward_per_token(&mut twice, 2), Ok(()));
    assert_eq!(once.reward_per_token_stored, 666_666_666);
    assert_eq!(twice.reward_per_token_stored, 666_666_666);
    let mut once = vault(2, 3, 0, 0);
    let mut twice = once;
    assert_eq!(update_reward_per_token(&mut once, 2), Ok(()));
    assert_eq!(update_reward_per_token(&mut twice, 1), Ok(()));
    assert_eq!(update_reward_per_token(&mut twice, 2), Ok(()));
    assert_eq!(once.reward_per_token_stored, 1_333_333_333);
    assert_eq!(twice.reward_per_token_stored, 1_333_333_332);
}

#[test]
fn an_update_at_the_same_moment_changes_nothing() {
    let mut v = vault(100, 1_000, 10, 5);
    assert_eq!(update_reward_per_token(&mut v, 20), Ok(()));
    let once = v;
    assert_eq!(update_reward_per_token(&mut v, 20), Ok(()));
    assert_eq!(v, once);
}

#[test]
fn rewards_follow_the_share() {
    // 10 seconds at 100 tokens, with 250 of 1000 staked: a quarter of 1000 tokens.
    let mut v = vault(100, 1_000, 0, 0);
    assert_eq!(update_reward_per_token(&mut v, 10), Ok(()));
    assert_eq!(calculate_earned(&v, &position(250, 0, 0)), Ok(250));
    assert_eq!(calculate_earned(&v, &position(750, 0, 0)), Ok(750));
    assert_eq!(calculate_earned(&v, &position(0, 0, 0)), Ok(0));
}

#[test]
fn the_clock_is_read_in_twos_complement() {
    assert_eq!(clock_seconds(0), 0);
    assert_eq!(clock_seconds(1_700_000_000), 1_700_000_000);
    assert_eq!(clock_seconds(i64::MAX), 9_223_372_036_854_775_807);
    assert_eq!(clock_seconds(-1), u64::MAX);
    assert_eq!(clock_seconds(i64::MIN), 9_223_372_036_854_775_808);
}

#[test]
fn fresh_values_are_zero() {
    assert_eq!(Pubkey::default(), Pubkey { bytes: [0; 32] });
    let v = VaultState::default();
    assert_eq!(v.admin, Pubkey::default());
    assert_eq!(v.total_staked, 0);
    assert!(!v.paused);
    let p = UserPosition::default();
    assert_eq!(p.owner, Pubkey::default());
    assert_eq!(p.rewards_claimed, 0);
}

#[test]
fn keys_are_equal_by_their_bytes() {
    let a = Pubkey { bytes: [7; 32] };
    let mut bytes = [7; 32];
    assert_eq!(a, Pubkey { bytes });
    bytes[31] = 8;
    assert_ne!(a, Pubkey { bytes });
}

#[test]
fn errors_carry_their_messages() {
    assert_eq!(VaultError::ZeroAmount.message(), "Amount must be greater than zero");
    assert_eq!(VaultError::InsufficientBalance.message(), "Insufficient staked balance");
    assert_eq!(VaultError::NoRewardsToClaim.message(), "No rewards available to claim");
    assert_eq!(VaultError::MathOverflow.message(), "Arithmetic overflow");
    assert_eq!(VaultError::Unauthorized.message(), "Caller is not authorized");
    assert_eq!(VaultError::VaultPaused.message(), "Vault is currently paused");
}
