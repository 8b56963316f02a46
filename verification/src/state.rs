//! The two records of the vault, and the mathematical values they stand for.

use vstd::prelude::*;
use vstd::utf8::encode_utf8;
use crate::address::Address;

verus! {

/// Longest strategy name, in bytes.
pub const MAX_NAME_LENGTH: usize = 50;

/// Longest strategy description, in bytes.
pub const MAX_DESCRIPTION_LENGTH: usize = 500;

/// Highest performance fee, in basis points: fifty percent.
pub const MAX_FEE_BPS: u16 = 5000;

/// Smallest deposit that opens a position.
pub const MIN_STAKE_AMOUNT: u64 = 1_000_000_000;

/// Denominator that turns basis points into a fraction.
pub const BASIS_POINTS_DIVISOR: u64 = 10_000;

/// The number of bytes that a text takes when stored.
pub open spec fn byte_len(text: Seq<char>) -> nat {
    encode_utf8(text).len()
}

/// The number of bytes that a text takes when stored.
pub fn stored_len(text: &String) -> (r: usize)
    ensures
        r == byte_len(text@),
{
    text.as_str().as_bytes().len()
}

/// A trader's public offering: its fee rate, its aggregate statistics and
/// whether it accepts subscribers.
#[derive(Clone, Debug, PartialEq, Eq)]
pub struct Strategy {
    pub trader: Address,
    pub name: String,
    pub description: String,
    pub performance_fee_bps: u16,
    pub total_subscribers: u32,
    pub total_volume_traded: u64,
    pub total_fees_earned: u64,
    pub is_active: bool,
    pub created_at: i64,
    pub bump: u8,
}

/// What a [`Strategy`] holds, as a mathematical value.
#[verifier::ext_equal]
pub struct StrategyView {
    pub trader: Seq<u8>,
    pub name: Seq<char>,
    pub description: Seq<char>,
    pub performance_fee_bps: u16,
    pub total_subscribers: u32,
    pub total_volume_traded: u64,
    pub total_fees_earned: u64,
    pub is_active: bool,
    pub created_at: i64,
    pub bump: u8,
}

impl View for Strategy {
    type V = StrategyView;

    open spec fn view(&self) -> StrategyView {
        StrategyView {
            trader: self.trader@,
            name: self.name@,
            description: self.description@,
            performance_fee_bps: self.performance_fee_bps,
            total_subscribers: self.total_subscribers,
            total_volume_traded: self.total_volume_traded,
            total_fees_earned: self.total_fees_earned,
            is_active: self.is_active,
            created_at: self.created_at,
            bump: self.bump,
        }
    }
}

impl StrategyView {
    /// The bounds that every strategy of the vault keeps: a name of at most
    /// fifty bytes, a description of at most five hundred, a fee of at most
    /// fifty percent.
    pub open spec fn well_formed(self) -> bool {
        &&& byte_len(self.name) <= MAX_NAME_LENGTH
        &&& byte_len(self.description) <= MAX_DESCRIPTION_LENGTH
        &&& self.performance_fee_bps <= MAX_FEE_BPS
    }
}

impl Strategy {
    /// Bytes reserved for a stored strategy: an eight-byte prefix, the trader,
    /// the two texts each behind a four-byte length, and the fixed fields.
    pub const LEN: usize = 8 + 32 + 54 + 504 + 2 + 4 + 8 + 8 + 1 + 8 + 1;
}

/// One subscriber's stake in one strategy.
#[derive(Clone, Copy, Debug, PartialEq, Eq)]
pub struct UserPosition {
    pub user: Address,
    pub strategy: Address,
    pub initial_balance: u64,
    pub current_balance: u64,
    pub total_fees_paid: u64,
    pub last_fee_settlement: i64,
    pub subscribed_at: i64,
    pub is_active: bool,
    pub bump: u8,
}

/// What a [`UserPosition`] holds, as a mathematical value.
#[verifier::ext_equal]
pub struct PositionView {
    pub user: Seq<u8>,
    pub strategy: Seq<u8>,
    pub initial_balance: u64,
    pub current_balance: u64,
    pub total_fees_paid: u64,
    pub last_fee_settlement: i64,
    pub subscribed_at: i64,
    pub is_active: bool,
    pub bump: u8,
}

impl View for UserPosition {
    type V = PositionView;

    open spec fn view(&self) -> PositionView {
        PositionView {
            user: self.user@,
            strategy: self.strategy@,
            initial_balance: self.initial_balance,
            current_balance: self.current_balance,
            total_fees_paid: self.total_fees_paid,
            last_fee_settlement: self.last_fee_settlement,
            subscribed_at: self.subscribed_at,
            is_active: self.is_active,
            bump: self.bump,
        }
    }
}

impl PositionView {
    /// A closed position is terminal: it holds nothing.
    pub open spec fn well_formed(self) -> bool {
        !self.is_active ==> self.current_balance == 0
    }
}

impl UserPosition {
    /// Bytes reserved for a stored position: an eight-byte prefix and the
    /// fixed fields.
    pub const LEN: usize = 8 + 32 + 32 + 8 + 8 + 8 + 8 + 8 + 1 + 1;
}

} // verus!
