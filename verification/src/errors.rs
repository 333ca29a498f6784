use vstd::prelude::*;

verus! {

/// An error of the vault's own rules.
#[derive(Clone, Copy, Debug, PartialEq, Eq, Structural)]
pub enum VaultError {
    ZeroAmount,
    InsufficientBalance,
    NoRewardsToClaim,
    MathOverflow,
    Unauthorized,
    VaultPaused,
}

impl VaultError {
    /// The text of the error.
    pub open spec fn text(self) -> Seq<char> {
        match self {
            VaultError::ZeroAmount => "Amount must be greater than zero"@,
            VaultError::InsufficientBalance => "Insufficient staked balance"@,
            VaultError::NoRewardsToClaim => "No rewards available to claim"@,
            VaultError::MathOverflow => "Arithmetic overflow"@,
            VaultError::Unauthorized => "Caller is not authorized"@,
            VaultError::VaultPaused => "Vault is currently paused"@,
        }
    }

    /// The message that a caller is shown for the error.
    pub fn message(&self) -> (message: &'static str)
        ensures
            message@ == self.text(),
    {
        match self {
            VaultError::ZeroAmount => "Amount must be greater than zero",
            VaultError::InsufficientBalance => "Insufficient staked balance",
            VaultError::NoRewardsToClaim => "No rewards available to claim",
            VaultError::MathOverflow => "Arithmetic overflow",
            VaultError::Unauthorized => "Caller is not authorized",
            VaultError::VaultPaused => "Vault is currently paused",
        }
    }
}

/// A constraint that an instruction's accounts do not meet.
#[derive(Clone, Copy, Debug, PartialEq, Eq, Structural)]
pub enum ConstraintError {
    /// An account does not stand at the address that its seeds derive.
    Seeds,
    /// A token account holds another token.
    TokenMint,
    /// A token account belongs to another owner.
    TokenOwner,
}

/// Why an instruction was refused.
#[derive(Clone, Copy, Debug, PartialEq, Eq, Structural)]
pub enum InstructionError {
    Constraint(ConstraintError),
    Vault(VaultError),
}

} // verus!
