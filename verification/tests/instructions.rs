use defi_vault::accounts::{
    Account, AdminAction, ClaimRewards, Deposit, DerivedAddresses, Initialize, TokenAccount,
    Withdraw,
};
use defi_vault::errors::{ConstraintError, InstructionError, VaultError};
use defi_vault::events::{
    Deposited, RewardRateUpdated, RewardsClaimed, VaultInitialized, VaultPauseToggled, Withdrawn,
};
use defi_vault::instructions::{
    begin_claim, begin_deposit, begin_withdraw, change_rate, claim_rewards, deposit, finish_claim,
    finish_deposit, finish_withdraw, initialize, open_vault, set_paused, set_reward_rate,
    withdraw, TokenTransfer, VaultSigner,
};
use defi_vault::keys::Pubkey;
use defi_vault::pda::{
    find_reward_treasury, find_user_position, find_vault_state, find_vault_treasury, signer_seeds,
    vault_state_address,
};
use defi_vault::state::{UserPosition, VaultState};

type ChainKey = anchor_lang::prelude::Pubkey;

const START: i64 = 1_700_000_000;

fn key(byte: u8) -> Pubkey {
    Pubkey { bytes: [byte; 32] }
}

fn program() -> Pubkey {
    key(0xC0)
}

fn deposit_mint() -> Pubkey {
    key(1)
}

fn reward_mint() -> Pubkey {
    key(2)
}

fn admin() -> Pubkey {
    key(3)
}

fn alice() -> Pubkey {
    key(4)
}

fn bob() -> Pubkey {
    key(5)
}

/// The address that the chain's SDK finds for these seeds.
fn chain_address(seeds: &[&[u8]]) -> (Pubkey, u8) {
    let program_id = ChainKey::new_from_array(program().bytes);
    let (address, bump) = ChainKey::find_program_address(seeds, &program_id);
    (Pubkey { bytes: address.to_bytes() }, bump)
}

fn vault_key() -> Pubkey {
    chain_address(&[b"vault_state", &deposit_mint().bytes]).0
}

fn treasury_key() -> Pubkey {
    chain_address(&[b"vault_treasury", &deposit_mint().bytes]).0
}

fn reward_treasury_key() -> Pubkey {
    chain_address(&[b"reward_treasury", &reward_mint().bytes]).0
}

fn position_key(user: Pubkey) -> Pubkey {
    chain_address(&[b"user_position", &vault_key().bytes, &user.bytes]).0
}

fn init_accounts() -> Initialize {
    Initialize {
        vault_state: vault_key(),
        vault_treasury: TokenAccount {
            key: treasury_key(),
            mint: deposit_mint(),
            owner: vault_key(),
        },
        reward_treasury: TokenAccount {
            key: reward_treasury_key(),
            mint: reward_mint(),
            owner: vault_key(),
        },
        deposit_mint: deposit_mint(),
        reward_mint: reward_mint(),
        admin: admin(),
    }
}

fn new_vault(rate: u64) -> VaultState {
    match initialize(&init_accounts(), &program(), rate, START) {
        Ok((state, _)) => state,
        Err(e) => panic!("{:?}", e),
    }
}

fn deposit_accounts(state: VaultState, user: Pubkey, position: UserPosition) -> Deposit {
    Deposit {
        vault_state: Account { key: vault_key(), data: state },
        user_position: Account { key: position_key(user), data: position },
        vault_treasury: TokenAccount {
            key: treasury_key(),
            mint: deposit_mint(),
            owner: vault_key(),
        },
        user_token_account: TokenAccount { key: key(0x10), mint: deposit_mint(), owner: user },
        user,
    }
}

fn withdraw_accounts(state: VaultState, user: Pubkey, position: UserPosition) -> Withdraw {
    let d = deposit_accounts(state, user, position);
    Withdraw {
        vault_state: d.vault_state,
        user_position: d.user_position,
        vault_treasury: d.vault_treasury,
        user_token_account: d.user_token_account,
        user,
    }
}

fn claim_accounts(state: VaultState, user: Pubkey, position: UserPosition) -> ClaimRewards {
    ClaimRewards {
        vault_state: Account { key: vault_key(), data: state },
        user_position: Account { key: position_key(user), data: position },
        reward_treasury: TokenAccount {
            key: reward_treasury_key(),
            mint: reward_mint(),
            owner: vault_key(),
        },
        user_reward_account: TokenAccount { key: key(0x11), mint: reward_mint(), owner: user },
        user,
    }
}

fn admin_accounts(state: VaultState, signer: Pubkey) -> AdminAction {
    AdminAction { vault_state: Account { key: vault_key(), data: state }, admin: signer }
}

fn do_deposit(
    state: VaultState,
    user: Pubkey,
    position: UserPosition,
    amount: u64,
    at: i64,
) -> (VaultState, UserPosition) {
    let accounts = deposit_accounts(state, user, position);
    let pending = deposit(&accounts, &program(), amount, at).unwrap();
    let (after, _) = finish_deposit(&pending).unwrap();
    (after.vault_state.data, after.user_position.data)
}

fn do_withdraw(
    state: VaultState,
    user: Pubkey,
    position: UserPosition,
    amount: u64,
    at: i64,
) -> (VaultState, UserPosition) {
    let accounts = withdraw_accounts(state, user, position);
    let pending = withdraw(&accounts, &program(), amount, at).unwrap();
    let (after, _) = finish_withdraw(&pending).unwrap();
    (after.vault_state.data, after.user_position.data)
}

fn do_claim(
    state: VaultState,
    user: Pubkey,
    position: UserPosition,
    at: i64,
) -> (VaultState, UserPosition, u64) {
    let accounts = claim_accounts(state, user, position);
    let pending = claim_rewards(&accounts, &program(), at).unwrap();
    let (after, event) = finish_claim(&pending).unwrap();
    (after.vault_state.data, after.user_position.data, event.amount)
}

fn seeds_error() -> InstructionError {
    InstructionError::Constraint(ConstraintError::Seeds)
}

// Addresses

#[test]
fn addresses_are_those_of_the_chain() {
    let (vault, bump) = chain_address(&[b"vault_state", &deposit_mint().bytes]);
    assert_eq!(find_vault_state(&deposit_mint(), &program()), Some((vault, bump)));
    assert_eq!(vault_state_address(&deposit_mint(), bump, &program()), Some(vault));
    assert_eq!(find_vault_treasury(&deposit_mint(), &program()), Some(treasury_key()));
    assert_eq!(find_reward_treasury(&reward_mint(), &program()), Some(reward_treasury_key()));
    assert_eq!(
        find_user_position(&vault_key(), &alice(), &program()),
        Some(position_key(alice()))
    );
    assert_ne!(position_key(alice()), position_key(bob()));
}

#[test]
fn a_bump_that_was_skipped_derives_no_address_of_the_vault() {
    let program_id = ChainKey::new_from_array(program().bytes);
    let mut without: u32 = 0;
    for bump in 0..=255u8 {
        let mint = deposit_mint();
        let expected = ChainKey::create_program_address(
            &[b"vault_state", &mint.bytes, &[bump]],
            &program_id,
        );
        let address = vault_state_address(&mint, bump, &program());
        match expected {
            Ok(a) => assert_eq!(address, Some(Pubkey { bytes: a.to_bytes() })),
            Err(_) => {
                assert_eq!(address, None);
                without += 1;
            }
        }
    }
    assert!(without > 0);
}

#[test]
fn the_vault_signs_under_its_seeds() {
    let expected: Vec<Vec<u8>> = vec![
        b"vault_state".to_vec(),
        deposit_mint().bytes.to_vec(),
        vec![254],
    ];
    assert_eq!(signer_seeds(&deposit_mint(), 254), expected);
    assert_eq!(VaultSigner { deposit_mint: deposit_mint(), bump: 254 }.seeds(), expected);
}

// Initialize

#[test]
fn initialize_opens_an_empty_vault() {
    let bump = chain_address(&[b"vault_state", &deposit_mint().bytes]).1;
    let expected = VaultState {
        admin: admin(),
        deposit_mint: deposit_mint(),
        reward_mint: reward_mint(),
        reward_rate_per_second: 1_000,
        total_staked: 0,
        last_update_time: 1_700_000_000,
        reward_per_token_stored: 0,
        paused: false,
        bump,
    };
    let event = VaultInitialized {
        admin: admin(),
        deposit_mint: deposit_mint(),
        reward_rate_per_second: 1_000,
    };
    assert_eq!(initialize(&init_accounts(), &program(), 1_000, START), Ok((expected, event)));
    assert_eq!(open_vault(&init_accounts(), bump, 1_000, 1_700_000_000), (expected, event));
}

#[test]
fn initialize_asks_for_the_derived_addresses() {
    let mut accounts = init_accounts();
    accounts.vault_state = key(9);
    assert_eq!(initialize(&accounts, &program(), 1, START), Err(seeds_error()));
    let mut accounts = init_accounts();
    accounts.vault_treasury.key = key(9);
    assert_eq!(initialize(&accounts, &program(), 1, START), Err(seeds_error()));
    let mut accounts = init_accounts();
    accounts.reward_treasury.key = key(9);
    assert_eq!(initialize(&accounts, &program(), 1, START), Err(seeds_error()));
    assert_eq!(initialize(&init_accounts(), &key(9), 1, START), Err(seeds_error()));
    let a = init_accounts();
    assert_eq!(a.check_constraints(&None, &None, &None), Err(seeds_error()));
    assert_eq!(
        a.check_constraints(
            &Some(a.vault_state),
            &Some(a.vault_treasury.key),
            &Some(a.reward_treasury.key)
        ),
        Ok(())
    );
}

#[test]
fn the_treasuries_of_a_new_vault_belong_to_it() {
    let wrong_mint = InstructionError::Constraint(ConstraintError::TokenMint);
    let wrong_owner = InstructionError::Constraint(ConstraintError::TokenOwner);
    let mut accounts = init_accounts();
    accounts.vault_treasury.mint = reward_mint();
    assert_eq!(initialize(&accounts, &program(), 1, START), Err(wrong_mint));
    let mut accounts = init_accounts();
    accounts.vault_treasury.owner = admin();
    // The first treasury is looked at before the second.
    accounts.reward_treasury.mint = deposit_mint();
    assert_eq!(initialize(&accounts, &program(), 1, START), Err(wrong_owner));
    accounts.vault_treasury.owner = vault_key();
    assert_eq!(initialize(&accounts, &program(), 1, START), Err(wrong_mint));
    let mut accounts = init_accounts();
    accounts.reward_treasury.owner = admin();
    assert_eq!(initialize(&accounts, &program(), 1, START), Err(wrong_owner));
    let (state, _) = initialize(&init_accounts(), &program(), 1, START).unwrap();
    assert_eq!(
        vault_state_address(&state.deposit_mint, state.bump, &program()),
        Some(init_accounts().vault_treasury.owner)
    );
}

#[test]
fn a_new_vault_meets_the_constraints_of_its_instructions() {
    let state = new_vault(1_000);
    let accounts = deposit_accounts(state, alice(), UserPosition::default());
    assert!(deposit(&accounts, &program(), 1, START).is_ok());
}

// Deposit

#[test]
fn deposit_transfers_and_books() {
    let state = new_vault(1_000);
    let accounts = deposit_accounts(state, alice(), UserPosition::default());
    let pending = deposit(&accounts, &program(), 500, START + 10).unwrap();
    assert_eq!(
        pending.transfer,
        TokenTransfer {
            from: key(0x10),
            to: treasury_key(),
            authority: alice(),
            amount: 500,
            signer: None,
        }
    );
    let (after, event) = finish_deposit(&pending).unwrap();
    assert_eq!(
        after.vault_state.data,
        VaultState { total_staked: 500, last_update_time: 1_700_000_010, ..state }
    );
    assert_eq!(
        after.user_position.data,
        UserPosition {
            owner: alice(),
            staked_amount: 500,
            reward_debt: 0,
            pending_rewards: 0,
            rewards_claimed: 0,
            last_update: 1_700_000_010,
        }
    );
    assert_eq!(after.vault_state.key, vault_key());
    assert_eq!(after.user, alice());
    assert_eq!(event, Deposited { user: alice(), amount: 500, total_user_staked: 500 });
}

#[test]
fn a_second_deposit_settles_the_rewards_once() {
    let state = new_vault(1_000);
    let (state, p) = do_deposit(state, alice(), UserPosition::default(), 500, START);
    let (state, p) = do_deposit(state, alice(), p, 500, START + 10);
    // 10 seconds at 1000 for the only staker.
    assert_eq!(p.pending_rewards, 10_000);
    assert_eq!(p.reward_debt, 20_000_000_000);
    assert_eq!(state.reward_per_token_stored, 20_000_000_000);
    // Pending rewards are carried over, never counted again.
    let (state, p) = do_deposit(state, alice(), p, 1, START + 10);
    assert_eq!(p.pending_rewards, 10_000);
    let (_, p, paid) = do_claim(state, alice(), p, START + 10);
    assert_eq!(paid, 10_000);
    assert_eq!(p.pending_rewards, 0);
}

#[test]
fn deposit_of_nothing_is_refused() {
    let accounts = deposit_accounts(new_vault(1), alice(), UserPosition::default());
    assert_eq!(
        deposit(&accounts, &program(), 0, START),
        Err(InstructionError::Vault(VaultError::ZeroAmount))
    );
    assert_eq!(begin_deposit(&accounts, 0, 5), Err(VaultError::ZeroAmount));
}

#[test]
fn deposit_overflow_is_refused() {
    let state = new_vault(0);
    let (state, p) = do_deposit(state, alice(), UserPosition::default(), u64::MAX, START);
    // The total overflows.
    let accounts = deposit_accounts(state, bob(), UserPosition::default());
    let pending = deposit(&accounts, &program(), 1, START).unwrap();
    assert_eq!(finish_deposit(&pending), Err(VaultError::MathOverflow));
    // The stake overflows.
    let accounts = deposit_accounts(VaultState { total_staked: 0, ..state }, alice(), p);
    let pending = deposit(&accounts, &program(), 1, START).unwrap();
    assert_eq!(finish_deposit(&pending), Err(VaultError::MathOverflow));
    // The accumulator overflows.
    let fast = VaultState { reward_rate_per_second: u64::MAX, total_staked: 1, ..state };
    let accounts = deposit_accounts(fast, alice(), p);
    assert_eq!(
        deposit(&accounts, &program(), 1, START + 1),
        Err(InstructionError::Vault(VaultError::MathOverflow))
    );
}

#[test]
fn a_paused_vault_takes_no_deposits() {
    let state = VaultState { paused: true, ..new_vault(1) };
    let accounts = deposit_accounts(state, alice(), UserPosition::default());
    assert_eq!(
        deposit(&accounts, &program(), 0, START),
        Err(InstructionError::Vault(VaultError::VaultPaused))
    );
}

#[test]
fn deposit_constraints_are_checked_in_order() {
    let good = deposit_accounts(new_vault(1), alice(), UserPosition::default());
    let addresses = good.derive_addresses(&program());
    assert_eq!(
        addresses,
        DerivedAddresses {
            vault_state: Some(vault_key()),
            user_position: Some(position_key(alice())),
            treasury: Some(treasury_key()),
        }
    );
    assert_eq!(good.check_constraints(&addresses), Ok(()));

    let mut a = good;
    a.user_position.key = key(9);
    assert_eq!(deposit(&a, &program(), 1, START), Err(seeds_error()));
    let mut a = good;
    a.vault_state.key = key(9);
    assert_eq!(deposit(&a, &program(), 1, START), Err(seeds_error()));
    let mut a = good;
    a.vault_state.data.bump = a.vault_state.data.bump.wrapping_sub(1);
    assert_eq!(deposit(&a, &program(), 1, START), Err(seeds_error()));
    let mut a = good;
    a.vault_treasury.key = key(9);
    assert_eq!(deposit(&a, &program(), 1, START), Err(seeds_error()));
    // A pause is reported before the treasury is looked at.
    a.vault_state.data.paused = true;
    assert_eq!(
        deposit(&a, &program(), 1, START),
        Err(InstructionError::Vault(VaultError::VaultPaused))
    );
    let mut a = good;
    a.vault_treasury.mint = key(9);
    a.user_token_account.owner = key(9);
    assert_eq!(
        deposit(&a, &program(), 1, START),
        Err(InstructionError::Constraint(ConstraintError::TokenMint))
    );
    let mut a = good;
    a.user_token_account.owner = bob();
    a.user_token_account.mint = key(9);
    assert_eq!(
        deposit(&a, &program(), 1, START),
        Err(InstructionError::Constraint(ConstraintError::TokenOwner))
    );
    let mut a = good;
    a.user_token_account.mint = key(9);
    // The constraints come before the amount.
    assert_eq!(
        deposit(&a, &program(), 0, START),
        Err(InstructionError::Constraint(ConstraintError::TokenMint))
    );
}

// Withdraw

#[test]
fn withdraw_transfers_and_books() {
    let (state, p) = do_deposit(new_vault(1_000), alice(), UserPosition::default(), 500, START);
    let accounts = withdraw_accounts(state, alice(), p);
    let pending = withdraw(&accounts, &program(), 200, START + 10).unwrap();
    assert_eq!(
        pending.transfer,
        TokenTransfer {
            from: treasury_key(),
            to: key(0x10),
            authority: vault_key(),
            amount: 200,
            signer: Some(VaultSigner { deposit_mint: deposit_mint(), bump: state.bump }),
        }
    );
    let (after, event) = finish_withdraw(&pending).unwrap();
    assert_eq!(
        after.vault_state.data,
        VaultState {
            total_staked: 300,
            last_update_time: 1_700_000_010,
            reward_per_token_stored: 20_000_000_000,
            ..state
        }
    );
    assert_eq!(
        after.user_position.data,
        UserPosition {
            owner: alice(),
            staked_amount: 300,
            reward_debt: 20_000_000_000,
            pending_rewards: 10_000,
            rewards_claimed: 0,
            last_update: 1_700_000_000,
        }
    );
    assert_eq!(event, Withdrawn { user: alice(), amount: 200, remaining_staked: 300 });
}

#[test]
fn withdraw_refuses_nothing_and_too_much() {
    let (state, p) = do_deposit(new_vault(1), alice(), UserPosition::default(), 500, START);
    let accounts = withdraw_accounts(state, alice(), p);
    assert_eq!(
        withdraw(&accounts, &program(), 0, START),
        Err(InstructionError::Vault(VaultError::ZeroAmount))
    );
    assert_eq!(
        withdraw(&accounts, &program(), 501, START),
        Err(InstructionError::Vault(VaultError::InsufficientBalance))
    );
    assert_eq!(begin_withdraw(&accounts, 501, 0), Err(VaultError::InsufficientBalance));
    assert!(withdraw(&accounts, &program(), 500, START).is_ok());
}

#[test]
fn withdraw_overflow_is_refused() {
    let (state, p) = do_deposit(new_vault(1), alice(), UserPosition::default(), 500, START);
    // A total below the stake cannot be drawn on.
    let accounts = withdraw_accounts(VaultState { total_staked: 100, ..state }, alice(), p);
    let pending = withdraw(&accounts, &program(), 101, START).unwrap();
    assert_eq!(finish_withdraw(&pending), Err(VaultError::MathOverflow));
    let fast = VaultState { reward_rate_per_second: u64::MAX, ..state };
    let accounts = withdraw_accounts(fast, alice(), p);
    assert_eq!(
        withdraw(&accounts, &program(), 1, START + 1_000_000),
        Err(InstructionError::Vault(VaultError::MathOverflow))
    );
}

#[test]
fn withdraw_constraints_are_checked_in_order() {
    let (state, p) = do_deposit(new_vault(1), alice(), UserPosition::default(), 500, START);
    let good = withdraw_accounts(state, alice(), p);
    assert_eq!(good.check_constraints(&good.derive_addresses(&program())), Ok(()));
    let mut a = good;
    a.vault_state.key = key(9);
    assert_eq!(withdraw(&a, &program(), 1, START), Err(seeds_error()));
    let mut a = good;
    a.user_position.key = key(9);
    assert_eq!(withdraw(&a, &program(), 1, START), Err(seeds_error()));
    let mut a = good;
    a.user_position.data.owner = bob();
    a.vault_treasury.key = key(9);
    assert_eq!(
        withdraw(&a, &program(), 1, START),
        Err(InstructionError::Vault(VaultError::Unauthorized))
    );
    let mut a = good;
    a.vault_treasury.key = key(9);
    assert_eq!(withdraw(&a, &program(), 1, START), Err(seeds_error()));
    let mut a = good;
    a.user_token_account.owner = bob();
    assert_eq!(
        withdraw(&a, &program(), 1, START),
        Err(InstructionError::Constraint(ConstraintError::TokenOwner))
    );
    let mut a = good;
    a.user_token_account.mint = reward_mint();
    assert_eq!(
        withdraw(&a, &program(), 1, START),
        Err(InstructionError::Constraint(ConstraintError::TokenMint))
    );
}

// Claim

#[test]
fn claim_transfers_and_books() {
    let (state, p) = do_deposit(new_vault(1_000), alice(), UserPosition::default(), 500, START);
    let accounts = claim_accounts(state, alice(), p);
    let pending = claim_rewards(&accounts, &program(), START + 10).unwrap();
    assert_eq!(
        pending.transfer,
        TokenTransfer {
            from: reward_treasury_key(),
            to: key(0x11),
            authority: vault_key(),
            amount: 10_000,
            signer: Some(VaultSigner { deposit_mint: deposit_mint(), bump: state.bump }),
        }
    );
    let (after, event) = finish_claim(&pending).unwrap();
    assert_eq!(
        after.user_position.data,
        UserPosition {
            owner: alice(),
            staked_amount: 500,
            reward_debt: 20_000_000_000,
            pending_rewards: 0,
            rewards_claimed: 10_000,
            last_update: 1_700_000_000,
        }
    );
    assert_eq!(after.vault_state.data.total_staked, 500);
    assert_eq!(after.vault_state.data.last_update_time, 1_700_000_010);
    assert_eq!(event, RewardsClaimed { user: alice(), amount: 10_000 });
}

#[test]
fn a_second_claim_finds_nothing() {
    let (state, p) = do_deposit(new_vault(1_000), alice(), UserPosition::default(), 500, START);
    let (state, p, paid) = do_claim(state, alice(), p, START + 10);
    assert_eq!(paid, 10_000);
    assert_eq!(
        claim_rewards(&claim_accounts(state, alice(), p), &program(), START + 10),
        Err(InstructionError::Vault(VaultError::NoRewardsToClaim))
    );
    assert_eq!(
        begin_claim(&claim_accounts(state, alice(), p), 1_700_000_010),
        Err(VaultError::NoRewardsToClaim)
    );
}

#[test]
fn claim_overflow_is_refused() {
    let (state, p) = do_deposit(new_vault(1_000), alice(), UserPosition::default(), 500, START);
    let p = UserPosition { rewards_claimed: u64::MAX - 9_999, ..p };
    let pending =
        claim_rewards(&claim_accounts(state, alice(), p), &program(), START + 10).unwrap();
    assert_eq!(finish_claim(&pending), Err(VaultError::MathOverflow));
    let p = UserPosition { pending_rewards: u64::MAX, ..p };
    assert_eq!(
        claim_rewards(&claim_accounts(state, alice(), p), &program(), START + 10),
        Err(InstructionError::Vault(VaultError::MathOverflow))
    );
}

#[test]
fn claim_constraints_are_checked_in_order() {
    let (state, p) = do_deposit(new_vault(1_000), alice(), UserPosition::default(), 500, START);
    let good = claim_accounts(state, alice(), p);
    assert_eq!(good.check_constraints(&good.derive_addresses(&program())), Ok(()));
    let at = START + 10;
    let mut a = good;
    a.vault_state.key = key(9);
    assert_eq!(claim_rewards(&a, &program(), at), Err(seeds_error()));
    let mut a = good;
    a.user_position.key = key(9);
    assert_eq!(claim_rewards(&a, &program(), at), Err(seeds_error()));
    let mut a = good;
    a.user_position.data.owner = bob();
    a.reward_treasury.key = key(9);
    assert_eq!(
        claim_rewards(&a, &program(), at),
        Err(InstructionError::Vault(VaultError::Unauthorized))
    );
    let mut a = good;
    a.reward_treasury.key = treasury_key();
    assert_eq!(claim_rewards(&a, &program(), at), Err(seeds_error()));
    let mut a = good;
    a.user_reward_account.owner = bob();
    assert_eq!(
        claim_rewards(&a, &program(), at),
        Err(InstructionError::Constraint(ConstraintError::TokenOwner))
    );
    let mut a = good;
    a.user_reward_account.mint = deposit_mint();
    assert_eq!(
        claim_rewards(&a, &program(), at),
        Err(InstructionError::Constraint(ConstraintError::TokenMint))
    );
}

// Administration

#[test]
fn the_rate_changes_from_now_on() {
    let (state, p) = do_deposit(new_vault(1_000), alice(), UserPosition::default(), 500, START);
    let mut accounts = admin_accounts(state, admin());
    assert_eq!(
        set_reward_rate(&mut accounts, &program(), 1, START + 10),
        Ok(RewardRateUpdated { old_rate: 1_000, new_rate: 1 })
    );
    let state = accounts.vault_state.data;
    assert_eq!(state.reward_rate_per_second, 1);
    assert_eq!(state.reward_per_token_stored, 20_000_000_000);
    assert_eq!(state.last_update_time, 1_700_000_010);
    let (_, _, paid) = do_claim(state, alice(), p, START + 20);
    assert_eq!(paid, 10_010);
    let mut fast = VaultState { reward_rate_per_second: u64::MAX, ..state };
    let before = fast;
    assert_eq!(change_rate(&mut fast, 1, u64::MAX), Err(VaultError::MathOverflow));
    assert_eq!(fast, before);
}

#[test]
fn only_the_administrator_changes_the_vault() {
    let state = new_vault(1_000);
    let mut accounts = admin_accounts(state, alice());
    let before = accounts;
    let refused = InstructionError::Vault(VaultError::Unauthorized);
    assert_eq!(set_reward_rate(&mut accounts, &program(), 1, START), Err(refused));
    assert_eq!(set_paused(&mut accounts, &program(), true), Err(refused));
    assert_eq!(accounts, before);
    let mut accounts = admin_accounts(state, admin());
    accounts.vault_state.key = key(9);
    let before = accounts;
    assert_eq!(set_reward_rate(&mut accounts, &program(), 1, START), Err(seeds_error()));
    assert_eq!(set_paused(&mut accounts, &program(), true), Err(seeds_error()));
    assert_eq!(accounts, before);
    assert_eq!(before.derive_address(&program()), Some(vault_key()));
    assert_eq!(before.check_constraints(&Some(key(9))), Ok(()));
}

#[test]
fn a_pause_halts_deposits_alone() {
    let (state, p) = do_deposit(new_vault(1_000), alice(), UserPosition::default(), 500, START);
    let mut accounts = admin_accounts(state, admin());
    assert_eq!(
        set_paused(&mut accounts, &program(), true),
        Ok(VaultPauseToggled { paused: true })
    );
    let paused = accounts.vault_state.data;
    assert_eq!(paused, VaultState { paused: true, ..state });
    assert!(deposit(&deposit_accounts(paused, alice(), p), &program(), 1, START + 1).is_err());
    let (a, x, paid) = do_claim(paused, alice(), p, START + 10);
    let (b, y, same) = do_claim(state, alice(), p, START + 10);
    assert_eq!(paid, same);
    assert_eq!(x, y);
    assert_eq!(a, VaultState { paused: true, ..b });
    let (a, x) = do_withdraw(paused, alice(), p, 500, START + 10);
    let (b, y) = do_withdraw(state, alice(), p, 500, START + 10);
    assert_eq!(x, y);
    assert_eq!(a, VaultState { paused: true, ..b });
    assert_eq!(
        set_paused(&mut accounts, &program(), false),
        Ok(VaultPauseToggled { paused: false })
    );
    assert_eq!(accounts.vault_state.data, state);
}

// Together

#[test]
fn a_withdrawal_undoes_a_deposit() {
    let (state, a) = do_deposit(new_vault(1_000), alice(), UserPosition::default(), 500, START);
    let (mid, b) = do_deposit(state, bob(), UserPosition::default(), 300, START + 10);
    let (after, b) = do_withdraw(mid, bob(), b, 300, START + 10);
    assert_eq!(after.total_staked, state.total_staked);
    assert_eq!(b.staked_amount, 0);
    assert_eq!(b.pending_rewards, 0);
    let (_, _, paid) = do_claim(after, alice(), a, START + 10);
    assert_eq!(paid, 10_000);
}

#[test]
fn a_deposit_buys_no_past_rewards() {
    let (state, a) = do_deposit(new_vault(1_000), alice(), UserPosition::default(), 500, START);
    let (state, b) = do_deposit(state, bob(), UserPosition::default(), 1_000_000, START + 10);
    assert_eq!(
        claim_rewards(&claim_accounts(state, bob(), b), &program(), START + 10),
        Err(InstructionError::Vault(VaultError::NoRewardsToClaim))
    );
    let (_, _, without) = do_claim(state, alice(), a, START + 10);
    let (state, a) = do_deposit(state, alice(), a, 1_000_000, START + 10);
    let (_, _, with) = do_claim(state, alice(), a, START + 10);
    assert_eq!(without, 10_000);
    assert_eq!(with, without);
}

#[test]
fn the_books_of_a_vault_balance() {
    let rate = 1_000;
    let (v, a) = do_deposit(new_vault(rate), alice(), UserPosition::default(), 300, START);
    let (v, b) = do_deposit(v, bob(), UserPosition::default(), 700, START + 7);
    let (v, a) = do_withdraw(v, alice(), a, 100, START + 20);
    let (v, b, paid_bob) = do_claim(v, bob(), b, START + 31);
    let (v, a) = do_deposit(v, alice(), a, 50, START + 40);
    let (v, a, paid_alice) = do_claim(v, alice(), a, START + 50);
    assert_eq!(v.total_staked, a.staked_amount + b.staked_amount);
    let (v, b, more) = do_claim(v, bob(), b, START + 50);
    assert_eq!(b.rewards_claimed, paid_bob + more);
    assert_eq!(a.rewards_claimed, paid_alice);
    let paid = a.rewards_claimed + b.rewards_claimed;
    let emitted = 50 * rate;
    assert!(paid <= emitted);
    assert!(paid + 10 > emitted);
    let (v, _) = do_withdraw(v, alice(), a, 250, START + 60);
    let (v, _) = do_withdraw(v, bob(), b, 700, START + 60);
    assert_eq!(v.total_staked, 0);
}

#[test]
fn the_treasury_holds_the_stakes() {
    let state = new_vault(1_000);
    let into = deposit(
        &deposit_accounts(state, alice(), UserPosition::default()),
        &program(),
        500,
        START,
    )
    .unwrap();
    let (after, _) = finish_deposit(&into).unwrap();
    let state = after.vault_state.data;
    let a = after.user_position.data;
    let more = deposit(
        &deposit_accounts(state, bob(), UserPosition::default()),
        &program(),
        300,
        START + 3,
    )
    .unwrap();
    let (after, _) = finish_deposit(&more).unwrap();
    let state = after.vault_state.data;
    let b = after.user_position.data;
    let out = withdraw(&withdraw_accounts(state, alice(), a), &program(), 120, START + 9).unwrap();
    let (after, _) = finish_withdraw(&out).unwrap();
    let state = after.vault_state.data;
    let a = after.user_position.data;
    // A refused withdrawal moves nothing.
    assert!(withdraw(&withdraw_accounts(state, bob(), b), &program(), 301, START + 9).is_err());
    let held = into.transfer.amount + more.transfer.amount - out.transfer.amount;
    assert_eq!(held, 680);
    assert_eq!(held, state.total_staked);
    assert_eq!(held, a.staked_amount + b.staked_amount);
}

#[test]
fn reward_transfers_are_what_was_claimed() {
    let (state, p) = do_deposit(new_vault(1_000), alice(), UserPosition::default(), 500, START);
    let first = claim_rewards(&claim_accounts(state, alice(), p), &program(), START + 10).unwrap();
    let (after, _) = finish_claim(&first).unwrap();
    let second = claim_rewards(&after, &program(), START + 25).unwrap();
    let (after, _) = finish_claim(&second).unwrap();
    let paid = first.transfer.amount + second.transfer.amount;
    assert_eq!(paid, 25_000);
    assert_eq!(paid, after.user_position.data.rewards_claimed);
}

#[test]
fn claiming_more_often_pays_no_more() {
    // Three staked tokens share one token per second, so that every claim rounds down.
    let (state, p) = do_deposit(new_vault(1), alice(), UserPosition::default(), 1, START);
    let (state, _) = do_deposit(state, bob(), UserPosition::default(), 2, START);
    let (_, _, once) = do_claim(state, alice(), p, START + 10);
    let (state, p, first) = do_claim(state, alice(), p, START + 5);
    let (_, _, second) = do_claim(state, alice(), p, START + 10);
    assert_eq!(once, 3);
    assert_eq!(first, 1);
    assert_eq!(second, 1);
}
