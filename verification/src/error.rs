//! The reasons an operation of the vault is refused.

use vstd::prelude::*;

verus! {

/// Why an operation was refused. A refused operation changes nothing.
#[derive(Clone, Copy, Debug, PartialEq, Eq, Structural)]
pub enum VaultError {
    /// The strategy name takes more than fifty bytes.
    NameTooLong,
    /// The strategy description takes more than five hundred bytes.
    DescriptionTooLong,
    /// The performance fee is above fifty percent.
    FeeTooHigh,
    /// The strategy does not accept subscribers.
    StrategyInactive,
    /// The deposit is below the minimum stake.
    InsufficientDeposit,
    /// The position has been closed.
    PositionInactive,
    /// The position holds less than the operation would take from it.
    InsufficientBalance,
    /// The balance is not above the profit baseline.
    NoProfitToSettle,
    /// The fee on the accrued profit rounds down to nothing.
    FeeAmountTooSmall,
    /// A counter or balance would leave the range of its type.
    MathOverflow,
    /// An account does not sit at the address derived for it.
    InvalidDerivedAddress,
    /// An account is not linked to the identity or strategy it was presented with.
    Unauthorized,
}

/// The families into which the refusals fall.
#[derive(Clone, Copy, Debug, PartialEq, Eq, Structural)]
pub enum ErrorKind {
    /// A field length, fee rate or deposit outside its bounds.
    Validation,
    /// A strategy or position in a state that does not admit the operation.
    State,
    /// A checked addition or subtraction that would overflow or underflow.
    Arithmetic,
    /// A caller or an account that does not match the required identity.
    Authorization,
    /// An account that holds too little for a transfer it was asked for. This
    /// family belongs to whoever moves the value that an operation asks to be
    /// moved; no refusal of the vault itself falls in it.
    Transfer,
}

impl VaultError {
    /// The family of a refusal.
    pub open spec fn spec_kind(self) -> ErrorKind {
        match self {
            VaultError::NameTooLong => ErrorKind::Validation,
            VaultError::DescriptionTooLong => ErrorKind::Validation,
            VaultError::FeeTooHigh => ErrorKind::Validation,
            VaultError::InsufficientDeposit => ErrorKind::Validation,
            VaultError::StrategyInactive => ErrorKind::State,
            VaultError::PositionInactive => ErrorKind::State,
            VaultError::NoProfitToSettle => ErrorKind::State,
            VaultError::FeeAmountTooSmall => ErrorKind::State,
            VaultError::InsufficientBalance => ErrorKind::Arithmetic,
            VaultError::MathOverflow => ErrorKind::Arithmetic,
            VaultError::InvalidDerivedAddress => ErrorKind::Authorization,
            VaultError::Unauthorized => ErrorKind::Authorization,
        }
    }

    /// The family of a refusal.
    #[verifier::when_used_as_spec(spec_kind)]
    pub fn kind(self) -> (r: ErrorKind)
        ensures
            r == self.spec_kind(),
    {
        match self {
            VaultError::NameTooLong => ErrorKind::Validation,
            VaultError::DescriptionTooLong => ErrorKind::Validation,
            VaultError::FeeTooHigh => ErrorKind::Validation,
            VaultError::InsufficientDeposit => ErrorKind::Validation,
            VaultError::StrategyInactive => ErrorKind::State,
            VaultError::PositionInactive => ErrorKind::State,
            VaultError::NoProfitToSettle => ErrorKind::State,
            VaultError::FeeAmountTooSmall => ErrorKind::State,
            VaultError::InsufficientBalance => ErrorKind::Arithmetic,
            VaultError::MathOverflow => ErrorKind::Arithmetic,
            VaultError::InvalidDerivedAddress => ErrorKind::Authorization,
            VaultError::Unauthorized => ErrorKind::Authorization,
        }
    }

    /// The text shown to a caller for each refusal.
    pub open spec fn spec_message(self) -> Seq<char> {
        match self {
            VaultError::NameTooLong => "Strategy name is too long (max 50 characters)"@,
            VaultError::DescriptionTooLong => "Description is too long (max 500 characters)"@,
            VaultError::FeeTooHigh => "Performance fee is too high (max 50%)"@,
            VaultError::StrategyInactive => "Strategy is not active"@,
            VaultError::InsufficientDeposit => "Insufficient deposit amount (minimum 1 SOL)"@,
            VaultError::PositionInactive => "Position is not active"@,
            VaultError::InsufficientBalance => "Insufficient balance for operation"@,
            VaultError::NoProfitToSettle => "No profit available to settle fees"@,
            VaultError::FeeAmountTooSmall => "Fee amount too small"@,
            VaultError::MathOverflow => "Math operation overflow"@,
            VaultError::InvalidDerivedAddress => "Account address does not match its derivation"@,
            VaultError::Unauthorized => "Account is not linked to the presented identity"@,
        }
    }

    /// The text shown to a caller for each refusal.
    pub fn message(self) -> (r: &'static str)
        ensures
            r@ == self.spec_message(),
    {
        match self {
            VaultError::NameTooLong => "Strategy name is too long (max 50 characters)",
            VaultError::DescriptionTooLong => "Description is too long (max 500 characters)",
            VaultError::FeeTooHigh => "Performance fee is too high (max 50%)",
            VaultError::StrategyInactive => "Strategy is not active",
            VaultError::InsufficientDeposit => "Insufficient deposit amount (minimum 1 SOL)",
            VaultError::PositionInactive => "Position is not active",
            VaultError::InsufficientBalance => "Insufficient balance for operation",
            VaultError::NoProfitToSettle => "No profit available to settle fees",
            VaultError::FeeAmountTooSmall => "Fee amount too small",
            VaultError::MathOverflow => "Math operation overflow",
            VaultError::InvalidDerivedAddress => "Account address does not match its derivation",
            VaultError::Unauthorized => "Account is not linked to the presented identity",
        }
    }
}

} // verus!
