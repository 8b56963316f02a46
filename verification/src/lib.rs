//! A non-custodial subscription vault.
//!
//! A trader publishes a [`Strategy`]; subscribers deposit value into an escrow
//! account bound to the pair (subscriber, strategy) and described by a
//! [`UserPosition`]. The trader records trade outcomes against a position, a
//! performance fee is settled from accrued profit, and a subscriber may leave at
//! any time with the whole remaining balance.
//!
//! Every operation is a function from the accounts it is given to the accounts it
//! leaves behind: it either succeeds and returns what has to be moved and
//! announced, or fails and leaves every account as it was. Moving value, reading
//! the clock and storing accounts are left to the caller.
//!
//! - [`address`]: account addresses.
//! - [`escrow`]: the seeds from which escrow addresses are derived, and the
//!   derivation itself.
//! - [`state`]: the two records and the values they stand for.
//! - [`lifecycle`], [`subscription`], [`trading`], [`settlement`], [`exit`]: the
//!   six operations, each with the transition it applies.
//! - [`ledger`]: how a strategy's subscriber count follows its positions.
//! - [`events`], [`error`]: what is announced and why an operation is refused.
//! - [`privacy_payments`]: deposits into and withdrawals from confidential
//!   token accounts.

pub mod address;
pub mod error;
pub mod escrow;
pub mod events;
pub mod exit;
pub mod ledger;
pub mod lifecycle;
pub mod privacy_payments;
pub mod settlement;
pub mod state;
pub mod subscription;
pub mod trading;

pub use address::Address;
pub use events::{
    FeesSettled, StrategyCreated, StrategyUpdated, TradeExecuted, Transfer, UserSubscribed,
    UserUnsubscribed,
};
pub use exit::{unsubscribe, unsubscribe_given, Unsubscribe};
pub use lifecycle::{
    initialize_strategy, initialize_strategy_given, update_strategy, update_strategy_given,
    InitializeStrategy, UpdateStrategy,
};
pub use settlement::{performance_fee, settle_fees, settle_fees_given, SettleFees};
pub use subscription::{subscribe_to_strategy, subscribe_to_strategy_given, SubscribeToStrategy};
pub use trading::{execute_trade, execute_trade_given, ExecuteTrade};
pub use error::{ErrorKind, VaultError};
pub use state::{
    PositionView, Strategy, StrategyView, UserPosition, BASIS_POINTS_DIVISOR,
    MAX_DESCRIPTION_LENGTH, MAX_FEE_BPS, MAX_NAME_LENGTH, MIN_STAKE_AMOUNT,
};
