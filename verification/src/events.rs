//! What an operation announces to outside observers, and what it asks to be
//! moved.

use vstd::prelude::*;
use crate::address::Address;

verus! {

/// A strategy was created.
#[derive(Clone, Debug, PartialEq, Eq)]
pub struct StrategyCreated {
    pub strategy: Address,
    pub trader: Address,
    pub name: String,
    pub performance_fee_bps: u16,
    pub timestamp: i64,
}

/// A strategy's public parameters were changed.
#[derive(Clone, Copy, Debug, PartialEq, Eq)]
pub struct StrategyUpdated {
    pub strategy: Address,
    pub trader: Address,
    pub timestamp: i64,
}

/// A subscriber opened a position.
#[derive(Clone, Copy, Debug, PartialEq, Eq)]
pub struct UserSubscribed {
    pub user: Address,
    pub strategy: Address,
    pub initial_deposit: u64,
    pub timestamp: i64,
}

/// A trade outcome was recorded against a position.
#[derive(Clone, Copy, Debug, PartialEq, Eq)]
pub struct TradeExecuted {
    pub strategy: Address,
    pub user: Address,
    pub amount: u64,
    pub profit_or_loss: i64,
    pub new_balance: u64,
    pub timestamp: i64,
}

/// A performance fee was paid out of a position.
#[derive(Clone, Copy, Debug, PartialEq, Eq)]
pub struct FeesSettled {
    pub user: Address,
    pub strategy: Address,
    pub trader: Address,
    pub fee_amount: u64,
    pub remaining_balance: u64,
    pub timestamp: i64,
}

/// A subscriber closed a position and took the balance out.
#[derive(Clone, Copy, Debug, PartialEq, Eq)]
pub struct UserUnsubscribed {
    pub user: Address,
    pub strategy: Address,
    pub withdrawn_amount: u64,
    pub timestamp: i64,
}

/// An amount to be moved from one account to another. A transfer out of an
/// escrow account carries the seeds that sign for it; a transfer out of a wallet
/// carries none, the wallet's owner having signed the request.
#[derive(Clone, Debug, PartialEq, Eq)]
pub struct Transfer {
    pub from: Address,
    pub to: Address,
    pub amount: u64,
    pub signer_seeds: Vec<Vec<u8>>,
}

} // verus!
