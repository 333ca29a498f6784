use vstd::prelude::*;

use crate::errors::{ConstraintError, InstructionError, VaultError};
use crate::keys;
use crate::keys::Pubkey;
use crate::pda;
use crate::state::{UserPosition, VaultState};

verus! {

/// An account of the program with its data.
#[derive(Clone, Copy, Debug, PartialEq, Eq)]
pub struct Account<T> {
    pub key: Pubkey,
    pub data: T,
}

/// A token account: what it holds and whose it is.
#[derive(Clone, Copy, Debug, PartialEq, Eq)]
pub struct TokenAccount {
    pub key: Pubkey,
    pub mint: Pubkey,
    pub owner: Pubkey,
}

/// The accounts of `initialize`. The first three are created for it: the vault's own, and the two
/// treasuries, each with the token that it holds and the vault as its owner. `admin` signs.
#[derive(Clone, Copy, Debug, PartialEq, Eq)]
pub struct Initialize {
    pub vault_state: Pubkey,
    pub vault_treasury: TokenAccount,
    pub reward_treasury: TokenAccount,
    pub deposit_mint: Pubkey,
    pub reward_mint: Pubkey,
    pub admin: Pubkey,
}

/// The accounts of `deposit`; `user` signs. The position of a user who never deposited is a
/// fresh one.
#[derive(Clone, Copy, Debug, PartialEq, Eq)]
pub struct Deposit {
    pub vault_state: Account<VaultState>,
    pub user_position: Account<UserPosition>,
    pub vault_treasury: TokenAccount,
    pub user_token_account: TokenAccount,
    pub user: Pubkey,
}

/// The accounts of `withdraw`; `user` signs.
#[derive(Clone, Copy, Debug, PartialEq, Eq)]
pub struct Withdraw {
    pub vault_state: Account<VaultState>,
    pub user_position: Account<UserPosition>,
    pub vault_treasury: TokenAccount,
    pub user_token_account: TokenAccount,
    pub user: Pubkey,
}

/// The accounts of `claim_rewards`; `user` signs.
#[derive(Clone, Copy, Debug, PartialEq, Eq)]
pub struct ClaimRewards {
    pub vault_state: Account<VaultState>,
    pub user_position: Account<UserPosition>,
    pub reward_treasury: TokenAccount,
    pub user_reward_account: TokenAccount,
    pub user: Pubkey,
}

/// The accounts of an administrator's instruction; `admin` signs.
#[derive(Clone, Copy, Debug, PartialEq, Eq)]
pub struct AdminAction {
    pub vault_state: Account<VaultState>,
    pub admin: Pubkey,
}

/// The addresses that the seeds of an instruction's accounts derive; nothing, where they derive
/// none.
#[derive(Clone, Copy, Debug, PartialEq, Eq)]
pub struct DerivedAddresses {
    pub vault_state: Option<Pubkey>,
    pub user_position: Option<Pubkey>,
    pub treasury: Option<Pubkey>,
}

/// The addresses that the seeds of an instruction's accounts derive, as bytes.
#[verifier::ext_equal]
pub struct AddressBytes {
    pub vault_state: Option<Seq<u8>>,
    pub user_position: Option<Seq<u8>>,
    pub treasury: Option<Seq<u8>>,
}

impl View for DerivedAddresses {
    type V = AddressBytes;

    open spec fn view(&self) -> AddressBytes {
        AddressBytes {
            vault_state: pda::address_bytes(self.vault_state),
            user_position: pda::address_bytes(self.user_position),
            treasury: pda::address_bytes(self.treasury),
        }
    }
}

/// The accounts do not stand where they should.
pub open spec fn wrong_seeds() -> Result<(), InstructionError> {
    Err(InstructionError::Constraint(ConstraintError::Seeds))
}

/// A token account holds the wrong token.
pub open spec fn wrong_mint() -> Result<(), InstructionError> {
    Err(InstructionError::Constraint(ConstraintError::TokenMint))
}

/// A token account is somebody else's.
pub open spec fn wrong_owner() -> Result<(), InstructionError> {
    Err(InstructionError::Constraint(ConstraintError::TokenOwner))
}

/// Whether an account stands at a derived address.
fn stands_at(key: &Pubkey, address: &Option<Pubkey>) -> (standing: bool)
    ensures
        standing == (pda::address_bytes(*address) == Some(key@)),
{
    match address {
        Some(address) => {
            proof {
                keys::lemma_same_bytes(*key, *address);
            }
            *key == *address
        },
        None => false,
    }
}

impl Initialize {
    /// The first constraint that the accounts break, if any, in the order in which they are
    /// created. Each stands at its derived address; the vault's treasury holds the deposit token,
    /// the reward treasury the reward token, and both belong to the vault.
    pub open spec fn constraints(
        self,
        vault_state: Option<Seq<u8>>,
        vault_treasury: Option<Seq<u8>>,
        reward_treasury: Option<Seq<u8>>,
    ) -> Result<(), InstructionError> {
        if vault_state != Some(self.vault_state@) {
            wrong_seeds()
        } else if vault_treasury != Some(self.vault_treasury.key@) {
            wrong_seeds()
        } else if self.vault_treasury.mint != self.deposit_mint {
            wrong_mint()
        } else if self.vault_treasury.owner != self.vault_state {
            wrong_owner()
        } else if reward_treasury != Some(self.reward_treasury.key@) {
            wrong_seeds()
        } else if self.reward_treasury.mint != self.reward_mint {
            wrong_mint()
        } else if self.reward_treasury.owner != self.vault_state {
            wrong_owner()
        } else {
            Ok(())
        }
    }

    /// Checks the constraints on the accounts against their derived addresses.
    pub fn check_constraints(
        &self,
        vault_state: &Option<Pubkey>,
        vault_treasury: &Option<Pubkey>,
        reward_treasury: &Option<Pubkey>,
    ) -> (res: Result<(), InstructionError>)
        ensures
            res == self.constraints(
                pda::address_bytes(*vault_state),
                pda::address_bytes(*vault_treasury),
                pda::address_bytes(*reward_treasury),
            ),
    {
        if !stands_at(&self.vault_state, vault_state) {
            Err(InstructionError::Constraint(ConstraintError::Seeds))
        } else if !stands_at(&self.vault_treasury.key, vault_treasury) {
            Err(InstructionError::Constraint(ConstraintError::Seeds))
        } else if self.vault_treasury.mint != self.deposit_mint {
            Err(InstructionError::Constraint(ConstraintError::TokenMint))
        } else if self.vault_treasury.owner != self.vault_state {
            Err(InstructionError::Constraint(ConstraintError::TokenOwner))
        } else if !stands_at(&self.reward_treasury.key, reward_treasury) {
            Err(InstructionError::Constraint(ConstraintError::Seeds))
        } else if self.reward_treasury.mint != self.reward_mint {
            Err(InstructionError::Constraint(ConstraintError::TokenMint))
        } else if self.reward_treasury.owner != self.vault_state {
            Err(InstructionError::Constraint(ConstraintError::TokenOwner))
        } else {
            Ok(())
        }
    }
}

impl Deposit {
    /// The addresses of the position, the vault and the treasury.
    pub open spec fn addresses(self, program_id: Seq<u8>) -> AddressBytes {
        let state = self.vault_state.data;
        AddressBytes {
            vault_state: pda::created_address(
                pda::vault_signer_seeds(state.deposit_mint, state.bump),
                program_id,
            ),
            user_position: pda::found_bytes(
                pda::user_position_seeds(self.vault_state.key, self.user),
                program_id,
            ),
            treasury: pda::found_bytes(pda::vault_treasury_seeds(state.deposit_mint), program_id),
        }
    }

    /// The first constraint that the accounts break, if any, in the order in which they are
    /// checked.
    pub open spec fn constraints(self, addresses: AddressBytes) -> Result<(), InstructionError> {
        let state = self.vault_state.data;
        if addresses.user_position != Some(self.user_position.key@) {
            wrong_seeds()
        } else if addresses.vault_state != Some(self.vault_state.key@) {
            wrong_seeds()
        } else if state.paused {
            Err(InstructionError::Vault(VaultError::VaultPaused))
        } else if addresses.treasury != Some(self.vault_treasury.key@) {
            wrong_seeds()
        } else if self.vault_treasury.mint != state.deposit_mint {
            wrong_mint()
        } else if self.user_token_account.owner != self.user {
            wrong_owner()
        } else if self.user_token_account.mint != state.deposit_mint {
            wrong_mint()
        } else {
            Ok(())
        }
    }

    /// Derives the addresses of the accounts.
    pub fn derive_addresses(&self, program_id: &Pubkey) -> (addresses: DerivedAddresses)
        ensures
            addresses@ == self.addresses(program_id@),
    {
        let state: &VaultState = &self.vault_state.data;
        DerivedAddresses {
            vault_state: pda::vault_state_address(&state.deposit_mint, state.bump, program_id),
            user_position: pda::find_user_position(&self.vault_state.key, &self.user, program_id),
            treasury: pda::find_vault_treasury(&state.deposit_mint, program_id),
        }
    }

    /// Checks the constraints on the accounts against their derived addresses.
    pub fn check_constraints(&self, addresses: &DerivedAddresses) -> (res: Result<
        (),
        InstructionError,
    >)
        ensures
            res == self.constraints(addresses@),
    {
        let state: &VaultState = &self.vault_state.data;
        if !stands_at(&self.user_position.key, &addresses.user_position) {
            Err(InstructionError::Constraint(ConstraintError::Seeds))
        } else if !stands_at(&self.vault_state.key, &addresses.vault_state) {
            Err(InstructionError::Constraint(ConstraintError::Seeds))
        } else if state.paused {
            Err(InstructionError::Vault(VaultError::VaultPaused))
        } else if !stands_at(&self.vault_treasury.key, &addresses.treasury) {
            Err(InstructionError::Constraint(ConstraintError::Seeds))
        } else if self.vault_treasury.mint != state.deposit_mint {
            Err(InstructionError::Constraint(ConstraintError::TokenMint))
        } else if self.user_token_account.owner != self.user {
            Err(InstructionError::Constraint(ConstraintError::TokenOwner))
        } else if self.user_token_account.mint != state.deposit_mint {
            Err(InstructionError::Constraint(ConstraintError::TokenMint))
        } else {
            Ok(())
        }
    }
}

impl Withdraw {
    /// The addresses of the position, the vault and the treasury.
    pub open spec fn addresses(self, program_id: Seq<u8>) -> AddressBytes {
        let state = self.vault_state.data;
        AddressBytes {
            vault_state: pda::created_address(
                pda::vault_signer_seeds(state.deposit_mint, state.bump),
                program_id,
            ),
            user_position: pda::found_bytes(
                pda::user_position_seeds(self.vault_state.key, self.user),
                program_id,
            ),
            treasury: pda::found_bytes(pda::vault_treasury_seeds(state.deposit_mint), program_id),
        }
    }

    /// The first constraint that the accounts break, if any, in the order in which they are
    /// checked.
    pub open spec fn constraints(self, addresses: AddressBytes) -> Result<(), InstructionError> {
        let state = self.vault_state.data;
        if addresses.vault_state != Some(self.vault_state.key@) {
            wrong_seeds()
        } else if addresses.user_position != Some(self.user_position.key@) {
            wrong_seeds()
        } else if self.user_position.data.owner != self.user {
            Err(InstructionError::Vault(VaultError::Unauthorized))
        } else if addresses.treasury != Some(self.vault_treasury.key@) {
            wrong_seeds()
        } else if self.user_token_account.owner != self.user {
            wrong_owner()
        } else if self.user_token_account.mint != state.deposit_mint {
            wrong_mint()
        } else {
            Ok(())
        }
    }

    /// Derives the addresses of the accounts.
    pub fn derive_addresses(&self, program_id: &Pubkey) -> (addresses: DerivedAddresses)
        ensures
            addresses@ == self.addresses(program_id@),
    {
        let state: &VaultState = &self.vault_state.data;
        DerivedAddresses {
            vault_state: pda::vault_state_address(&state.deposit_mint, state.bump, program_id),
            user_position: pda::find_user_position(&self.vault_state.key, &self.user, program_id),
            treasury: pda::find_vault_treasury(&state.deposit_mint, program_id),
        }
    }

    /// Checks the constraints on the accounts against their derived addresses.
    pub fn check_constraints(&self, addresses: &DerivedAddresses) -> (res: Result<
        (),
        InstructionError,
    >)
        ensures
            res == self.constraints(addresses@),
    {
        let state: &VaultState = &self.vault_state.data;
        if !stands_at(&self.vault_state.key, &addresses.vault_state) {
            Err(InstructionError::Constraint(ConstraintError::Seeds))
        } else if !stands_at(&self.user_position.key, &addresses.user_position) {
            Err(InstructionError::Constraint(ConstraintError::Seeds))
        } else if self.user_position.data.owner != self.user {
            Err(InstructionError::Vault(VaultError::Unauthorized))
        } else if !stands_at(&self.vault_treasury.key, &addresses.treasury) {
            Err(InstructionError::Constraint(ConstraintError::Seeds))
        } else if self.user_token_account.owner != self.user {
            Err(InstructionError::Constraint(ConstraintError::TokenOwner))
        } else if self.user_token_account.mint != state.deposit_mint {
            Err(InstructionError::Constraint(ConstraintError::TokenMint))
        } else {
            Ok(())
        }
    }
}

impl ClaimRewards {
    /// The addresses of the position, the vault and the treasury.
    pub open spec fn addresses(self, program_id: Seq<u8>) -> AddressBytes {
        let state = self.vault_state.data;
        AddressBytes {
            vault_state: pda::created_address(
                pda::vault_signer_seeds(state.deposit_mint, state.bump),
                program_id,
            ),
            user_position: pda::found_bytes(
                pda::user_position_seeds(self.vault_state.key, self.user),
                program_id,
            ),
            treasury: pda::found_bytes(pda::reward_treasury_seeds(state.reward_mint), program_id),
        }
    }

    /// The first constraint that the accounts break, if any, in the order in which they are
    /// checked.
    pub open spec fn constraints(self, addresses: AddressBytes) -> Result<(), InstructionError> {
        let state = self.vault_state.data;
        if addresses.vault_state != Some(self.vault_state.key@) {
            wrong_seeds()
        } else if addresses.user_position != Some(self.user_position.key@) {
            wrong_seeds()
        } else if self.user_position.data.owner != self.user {
            Err(InstructionError::Vault(VaultError::Unauthorized))
        } else if addresses.treasury != Some(self.reward_treasury.key@) {
            wrong_seeds()
        } else if self.user_reward_account.owner != self.user {
            wrong_owner()
        } else if self.user_reward_account.mint != state.reward_mint {
            wrong_mint()
        } else {
            Ok(())
        }
    }

    /// Derives the addresses of the accounts.
    pub fn derive_addresses(&self, program_id: &Pubkey) -> (addresses: DerivedAddresses)
        ensures
            addresses@ == self.addresses(program_id@),
    {
        let state: &VaultState = &self.vault_state.data;
        DerivedAddresses {
            vault_state: pda::vault_state_address(&state.deposit_mint, state.bump, program_id),
            user_position: pda::find_user_position(&self.vault_state.key, &self.user, program_id),
            treasury: pda::find_reward_treasury(&state.reward_mint, program_id),
        }
    }

    /// Checks the constraints on the accounts against their derived addresses.
    pub fn check_constraints(&self, addresses: &DerivedAddresses) -> (res: Result<
        (),
        InstructionError,
    >)
        ensures
            res == self.constraints(addresses@),
    {
        let state: &VaultState = &self.vault_state.data;
        if !stands_at(&self.vault_state.key, &addresses.vault_state) {
            Err(InstructionError::Constraint(ConstraintError::Seeds))
        } else if !stands_at(&self.user_position.key, &addresses.user_position) {
            Err(InstructionError::Constraint(ConstraintError::Seeds))
        } else if self.user_position.data.owner != self.user {
            Err(InstructionError::Vault(VaultError::Unauthorized))
        } else if !stands_at(&self.reward_treasury.key, &addresses.treasury) {
            Err(InstructionError::Constraint(ConstraintError::Seeds))
        } else if self.user_reward_account.owner != self.user {
            Err(InstructionError::Constraint(ConstraintError::TokenOwner))
        } else if self.user_reward_account.mint != state.reward_mint {
            Err(InstructionError::Constraint(ConstraintError::TokenMint))
        } else {
            Ok(())
        }
    }
}

impl AdminAction {
    /// The address of the vault.
    pub open spec fn address(self, program_id: Seq<u8>) -> Option<Seq<u8>> {
        let state = self.vault_state.data;
        pda::created_address(pda::vault_signer_seeds(state.deposit_mint, state.bump), program_id)
    }

    /// The first constraint that the accounts break, if any, in the order in which they are
    /// checked.
    pub open spec fn constraints(self, vault_state: Option<Seq<u8>>) -> Result<
        (),
        InstructionError,
    > {
        if vault_state != Some(self.vault_state.key@) {
            wrong_seeds()
        } else if self.vault_state.data.admin != self.admin {
            Err(InstructionError::Vault(VaultError::Unauthorized))
        } else {
            Ok(())
        }
    }

    /// Derives the address of the vault.
    pub fn derive_address(&self, program_id: &Pubkey) -> (vault_state: Option<Pubkey>)
        ensures
            pda::address_bytes(vault_state) == self.address(program_id@),
    {
        let state: &VaultState = &self.vault_state.data;
        pda::vault_state_address(&state.deposit_mint, state.bump, program_id)
    }

    /// Checks the constraints on the accounts against the derived address of the vault.
    pub fn check_constraints(&self, vault_state: &Option<Pubkey>) -> (res: Result<
        (),
        InstructionError,
    >)
        ensures
            res == self.constraints(pda::address_bytes(*vault_state)),
    {
        if !stands_at(&self.vault_state.key, vault_state) {
            Err(InstructionError::Constraint(ConstraintError::Seeds))
        } else if self.vault_state.data.admin != self.admin {
            Err(InstructionError::Vault(VaultError::Unauthorized))
        } else {
            Ok(())
        }
    }
}

} // verus!
