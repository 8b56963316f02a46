//! The door to the confidential token accounts.
//!
//! Balances behind this door are encrypted and their proofs are checked by the
//! token program; nothing of that is inspected here. What is decided here is
//! only whether a deposit or a withdrawal is asked for a real amount, and which
//! checked transfer it then asks of the token program.

use vstd::prelude::*;
use crate::address::Address;

verus! {

/// Why a confidential payment was refused.
#[derive(Clone, Copy, Debug, PartialEq, Eq, Structural)]
pub enum PrivacyError {
    /// The amount is zero.
    InvalidAmount,
    /// The account holds less than the amount.
    InsufficientBalance,
    /// The proof that came with an encrypted amount does not hold.
    InvalidProof,
    /// The auditor is not the one the mint was set up with.
    UnauthorizedAuditor,
}

impl PrivacyError {
    /// The text shown to a caller for each refusal.
    pub open spec fn spec_message(self) -> Seq<char> {
        match self {
            PrivacyError::InvalidAmount => "Invalid amount"@,
            PrivacyError::InsufficientBalance => "Insufficient balance"@,
            PrivacyError::InvalidProof => "Invalid encryption proof"@,
            PrivacyError::UnauthorizedAuditor => "Unauthorized auditor"@,
        }
    }

    /// The text shown to a caller for each refusal.
    pub fn message(self) -> (r: &'static str)
        ensures
            r@ == self.spec_message(),
    {
        match self {
            PrivacyError::InvalidAmount => "Invalid amount",
            PrivacyError::InsufficientBalance => "Insufficient balance",
            PrivacyError::InvalidProof => "Invalid encryption proof",
            PrivacyError::UnauthorizedAuditor => "Unauthorized auditor",
        }
    }
}

/// A transfer asked of the token program, which checks the mint and its
/// decimals before it moves anything.
#[derive(Clone, Copy, Debug, PartialEq, Eq)]
pub struct TransferChecked {
    pub from: Address,
    pub mint: Address,
    pub to: Address,
    pub authority: Address,
    pub amount: u64,
    pub decimals: u8,
}

/// The accounts of a deposit into a confidential account.
#[derive(Clone, Copy, Debug, PartialEq, Eq)]
pub struct DepositConfidential {
    /// The identity that signed the request and owns both token accounts.
    pub authority: Address,
    /// The ordinary token account that the amount is taken from.
    pub source_account: Address,
    /// The confidential token account that receives it.
    pub confidential_account: Address,
    /// The mint of both accounts.
    pub mint: Address,
    /// The decimals that the mint declares.
    pub decimals: u8,
}

/// The accounts of a withdrawal from a confidential account.
#[derive(Clone, Copy, Debug, PartialEq, Eq)]
pub struct WithdrawConfidential {
    /// The identity that signed the request and owns both token accounts.
    pub authority: Address,
    /// The confidential token account that the amount is taken from.
    pub confidential_account: Address,
    /// The ordinary token account that receives it.
    pub destination_account: Address,
    /// The mint of both accounts.
    pub mint: Address,
    /// The decimals that the mint declares.
    pub decimals: u8,
}

/// The transfer that a deposit asks for, or the reason it is refused: an amount
/// of zero is refused, any other is moved from the ordinary account to the
/// confidential one.
pub open spec fn deposit_requested(ctx: DepositConfidential, amount: u64) -> Result<
    TransferChecked,
    PrivacyError,
> {
    if amount == 0 {
        Err(PrivacyError::InvalidAmount)
    } else {
        Ok(
            TransferChecked {
                from: ctx.source_account,
                mint: ctx.mint,
                to: ctx.confidential_account,
                authority: ctx.authority,
                amount,
                decimals: ctx.decimals,
            },
        )
    }
}

/// The transfer that a withdrawal asks for, or the reason it is refused: an
/// amount of zero is refused, any other is moved from the confidential account
/// to the ordinary one.
pub open spec fn withdrawal_requested(ctx: WithdrawConfidential, amount: u64) -> Result<
    TransferChecked,
    PrivacyError,
> {
    if amount == 0 {
        Err(PrivacyError::InvalidAmount)
    } else {
        Ok(
            TransferChecked {
                from: ctx.confidential_account,
                mint: ctx.mint,
                to: ctx.destination_account,
                authority: ctx.authority,
                amount,
                decimals: ctx.decimals,
            },
        )
    }
}

/// Asks for `amount` to be moved from the signer's ordinary token account into
/// the confidential one, where the balance is kept encrypted.
pub fn deposit_confidential(ctx: &DepositConfidential, amount: u64) -> (r: Result<
    TransferChecked,
    PrivacyError,
>)
    ensures
        r == deposit_requested(*ctx, amount),
{
    if amount == 0 {
        return Err(PrivacyError::InvalidAmount);
    }
    Ok(
        TransferChecked {
            from: ctx.source_account,
            mint: ctx.mint,
            to: ctx.confidential_account,
            authority: ctx.authority,
            amount,
            decimals: ctx.decimals,
        },
    )
}

/// Asks for `amount` to be moved from the signer's confidential token account
/// back to the ordinary one.
pub fn withdraw_confidential(ctx: &WithdrawConfidential, amount: u64) -> (r: Result<
    TransferChecked,
    PrivacyError,
>)
    ensures
        r == withdrawal_requested(*ctx, amount),
{
    if amount == 0 {
        return Err(PrivacyError::InvalidAmount);
    }
    Ok(
        TransferChecked {
            from: ctx.confidential_account,
            mint: ctx.mint,
            to: ctx.destination_account,
            authority: ctx.authority,
            amount,
            decimals: ctx.decimals,
        },
    )
}

/// A deposit and the withdrawal of the same amount ask for opposite transfers:
/// what one takes from an account the other gives back to it.
pub proof fn lemma_withdrawal_reverses_deposit(
    deposit: DepositConfidential,
    withdrawal: WithdrawConfidential,
    amount: u64,
)
    requires
        amount > 0,
        withdrawal.confidential_account == deposit.confidential_account,
        withdrawal.destination_account == deposit.source_account,
    ensures
        deposit_requested(deposit, amount) matches Ok(d) && withdrawal_requested(
            withdrawal,
            amount,
        ) matches Ok(w) && w.from == d.to && w.to == d.from && w.amount == d.amount,
{
}

} // verus!
