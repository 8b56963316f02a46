//! Opening a position: a deposit into escrow and one more subscriber on the
//! strategy.

use vstd::prelude::*;
use crate::address::Address;
use crate::error::VaultError;
use crate::escrow::{
    bump_at, bump_for, canonical_program_address, derive_strategy_address, derives,
    find_position_address, found_view, position_seeds, sits_at, strategy_seeds, yields,
};
use crate::events::{Transfer, UserSubscribed};
use crate::state::{PositionView, Strategy, StrategyView, UserPosition, MIN_STAKE_AMOUNT};

verus! {

/// The strategy and the new position after a subscription, or the reason it is
/// refused: the strategy must be active, the deposit at least the minimum
/// stake, and the subscriber count must have room for one more. The deposit is
/// both the balance and the profit baseline of the new position.
pub open spec fn subscribed(
    s: StrategyView,
    user: Seq<u8>,
    strategy_key: Seq<u8>,
    initial_deposit: u64,
    now: i64,
    bump: u8,
) -> Result<(StrategyView, PositionView), VaultError> {
    if !s.is_active {
        Err(VaultError::StrategyInactive)
    } else if initial_deposit < MIN_STAKE_AMOUNT {
        Err(VaultError::InsufficientDeposit)
    } else if s.total_subscribers == u32::MAX {
        Err(VaultError::MathOverflow)
    } else {
        Ok(
            (
                StrategyView { total_subscribers: (s.total_subscribers + 1) as u32, ..s },
                PositionView {
                    user,
                    strategy: strategy_key,
                    initial_balance: initial_deposit,
                    current_balance: initial_deposit,
                    total_fees_paid: 0,
                    last_fee_settlement: now,
                    subscribed_at: now,
                    is_active: true,
                    bump,
                },
            ),
        )
    }
}

/// Subscriptions of two subscribers to one strategy commute. Where the count
/// has room for both, both succeed in either order, each position opens the
/// same, and the strategy ends the same, counting two more.
pub proof fn lemma_subscriptions_commute(
    s: StrategyView,
    strategy_key: Seq<u8>,
    user_a: Seq<u8>,
    deposit_a: u64,
    now_a: i64,
    bump_a: u8,
    user_b: Seq<u8>,
    deposit_b: u64,
    now_b: i64,
    bump_b: u8,
)
    requires
        s.is_active,
        s.total_subscribers + 2 <= u32::MAX,
        deposit_a >= MIN_STAKE_AMOUNT,
        deposit_b >= MIN_STAKE_AMOUNT,
    ensures
        ({
            let join_a = |s: StrategyView|
                subscribed(s, user_a, strategy_key, deposit_a, now_a, bump_a);
            let join_b = |s: StrategyView|
                subscribed(s, user_b, strategy_key, deposit_b, now_b, bump_b);
            &&& join_a(s) matches Ok((s_a, a_alone))
            &&& join_b(s) matches Ok((s_b, b_alone))
            &&& join_b(s_a) matches Ok((s_ab, b_second))
            &&& join_a(s_b) matches Ok((s_ba, a_second))
            &&& s_ab == s_ba
            &&& s_ab.total_subscribers == s.total_subscribers + 2
            &&& a_second == a_alone
            &&& b_second == b_alone
        }),
{
}

impl UserPosition {
    /// Opens the position of `user` under the strategy stored at `strategy_key`
    /// and counts the new subscriber. A refused subscription leaves the strategy
    /// as it was.
    pub fn open(
        strategy: &mut Strategy,
        user: Address,
        strategy_key: Address,
        initial_deposit: u64,
        now: i64,
        bump: u8,
    ) -> (r: Result<UserPosition, VaultError>)
        ensures
            match subscribed(old(strategy)@, user@, strategy_key@, initial_deposit, now, bump) {
                Ok((s, p)) => r matches Ok(position) && position@ == p && position.user == user
                    && position.strategy == strategy_key && final(strategy)@ == s,
                Err(e) => r == Err::<UserPosition, VaultError>(e) && *final(strategy) == *old(
                    strategy,
                ),
            },
            r matches Ok(position) ==> position@.well_formed(),
            old(strategy)@.well_formed() ==> final(strategy)@.well_formed(),
    {
        if !strategy.is_active {
            return Err(VaultError::StrategyInactive);
        }
        if initial_deposit < MIN_STAKE_AMOUNT {
            return Err(VaultError::InsufficientDeposit);
        }
        let subscribers: u32 = match strategy.total_subscribers.checked_add(1) {
            Some(n) => n,
            None => {
                return Err(VaultError::MathOverflow);
            },
        };
        strategy.total_subscribers = subscribers;
        Ok(
            UserPosition {
                user,
                strategy: strategy_key,
                initial_balance: initial_deposit,
                current_balance: initial_deposit,
                total_fees_paid: 0,
                last_fee_settlement: now,
                subscribed_at: now,
                is_active: true,
                bump,
            },
        )
    }
}

/// The accounts of a subscription: the subscriber, the strategy and the address
/// at which the position's escrow account is to be created.
#[derive(Clone, Debug, PartialEq, Eq)]
pub struct SubscribeToStrategy {
    /// The program in whose name escrow addresses are derived.
    pub program_id: Address,
    /// The identity that signed the request and pays the deposit.
    pub user: Address,
    /// The address of the strategy account.
    pub strategy_key: Address,
    pub strategy: Strategy,
    /// The address offered for the new position's escrow account.
    pub position_key: Address,
}

impl SubscribeToStrategy {
    /// Whether the strategy account sits at the address derived from its
    /// recorded trader and stored bump.
    pub open spec fn strategy_derived(self) -> bool {
        derives(
            strategy_seeds(self.strategy.trader@),
            self.strategy.bump,
            self.program_id@,
            self.strategy_key@,
        )
    }

    /// The address and bump that the seeds of the subscriber's position find.
    pub open spec fn found(self) -> Option<(Seq<u8>, u8)> {
        canonical_program_address(position_seeds(self.user@, self.strategy_key@), self.program_id@)
    }

    /// What a subscription leaves behind, given what the position's seeds found
    /// and whether the strategy sits at its derived address. It is refused
    /// unless the seeds found the offered address and the strategy sits at its
    /// own; a refused subscription changes nothing. An accepted one opens the
    /// position with the bump that was found, counts the subscriber, and asks
    /// for the deposit to be moved from the subscriber's wallet into escrow.
    pub open spec fn outcome(
        self,
        found: Option<(Seq<u8>, u8)>,
        strategy_derived: bool,
        now: i64,
        initial_deposit: u64,
        after: SubscribeToStrategy,
        r: Result<(UserPosition, Transfer, UserSubscribed), VaultError>,
    ) -> bool {
        match bump_for(found, self.position_key@) {
            None => r == Err::<(UserPosition, Transfer, UserSubscribed), VaultError>(
                VaultError::InvalidDerivedAddress,
            ) && after == self,
            Some(bump) => if !strategy_derived {
                r == Err::<(UserPosition, Transfer, UserSubscribed), VaultError>(
                    VaultError::InvalidDerivedAddress,
                ) && after == self
            } else {
                match subscribed(
                    self.strategy@,
                    self.user@,
                    self.strategy_key@,
                    initial_deposit,
                    now,
                    bump,
                ) {
                    Err(e) => r == Err::<(UserPosition, Transfer, UserSubscribed), VaultError>(e)
                        && after == self,
                    Ok((s, p)) => {
                        &&& r matches Ok((position, deposit, ev))
                        &&& position@ == p
                        &&& position.user == self.user
                        &&& position.strategy == self.strategy_key
                        &&& deposit.from == self.user
                        &&& deposit.to == self.position_key
                        &&& deposit.amount == initial_deposit
                        &&& deposit.signer_seeds@.len() == 0
                        &&& ev == UserSubscribed {
                            user: self.user,
                            strategy: self.strategy_key,
                            initial_deposit,
                            timestamp: now,
                        }
                        &&& after.strategy@ == s
                        &&& after.program_id == self.program_id
                        &&& after.user == self.user
                        &&& after.strategy_key == self.strategy_key
                        &&& after.position_key == self.position_key
                    },
                }
            },
        }
    }
}

/// A subscriber has one position under a strategy: two subscriptions of one
/// subscriber to one strategy under one program are accepted only at the same
/// address, and store the same bump.
pub proof fn lemma_one_position_per_subscriber(
    first: SubscribeToStrategy,
    second: SubscribeToStrategy,
)
    requires
        first.user == second.user,
        first.strategy_key == second.strategy_key,
        first.program_id == second.program_id,
        bump_for(first.found(), first.position_key@) is Some,
        bump_for(second.found(), second.position_key@) is Some,
    ensures
        first.position_key == second.position_key,
        bump_for(first.found(), first.position_key@) == bump_for(
            second.found(),
            second.position_key@,
        ),
{
    Address::lemma_view_injective(first.position_key, second.position_key);
}

/// Opens a position, given what the seeds of the position found and the address
/// that the seeds of the strategy derive.
pub fn subscribe_to_strategy_given(
    ctx: &mut SubscribeToStrategy,
    found: Option<(Address, u8)>,
    strategy_address: Option<Address>,
    now: i64,
    initial_deposit: u64,
) -> (r: Result<(UserPosition, Transfer, UserSubscribed), VaultError>)
    ensures
        old(ctx).outcome(
            found_view(found),
            yields(strategy_address, old(ctx).strategy_key),
            now,
            initial_deposit,
            *final(ctx),
            r,
        ),
        r matches Ok((position, deposit, ev)) ==> position@.well_formed(),
        old(ctx).strategy@.well_formed() ==> final(ctx).strategy@.well_formed(),
{
    let bump: u8 = match bump_at(found, &ctx.position_key) {
        Some(b) => b,
        None => {
            return Err(VaultError::InvalidDerivedAddress);
        },
    };
    if !sits_at(strategy_address, &ctx.strategy_key) {
        return Err(VaultError::InvalidDerivedAddress);
    }
    match UserPosition::open(
        &mut ctx.strategy,
        ctx.user,
        ctx.strategy_key,
        initial_deposit,
        now,
        bump,
    ) {
        Ok(position) => {
            let deposit = Transfer {
                from: ctx.user,
                to: ctx.position_key,
                amount: initial_deposit,
                signer_seeds: Vec::new(),
            };
            let event = UserSubscribed {
                user: ctx.user,
                strategy: ctx.strategy_key,
                initial_deposit,
                timestamp: now,
            };
            Ok((position, deposit, event))
        },
        Err(e) => Err(e),
    }
}

/// Opens the signing subscriber's position under an active strategy with a
/// deposit of at least the minimum stake. The deposit is to be moved from the
/// subscriber's wallet into the position's escrow account, and becomes both the
/// balance and the profit baseline. A position that was opened sits at the
/// address that its subscriber, its strategy and its stored bump derive.
pub fn subscribe_to_strategy(ctx: &mut SubscribeToStrategy, now: i64, initial_deposit: u64) -> (r:
    Result<(UserPosition, Transfer, UserSubscribed), VaultError>)
    ensures
        old(ctx).outcome(
            old(ctx).found(),
            old(ctx).strategy_derived(),
            now,
            initial_deposit,
            *final(ctx),
            r,
        ),
        r matches Ok((position, deposit, ev)) ==> position@.well_formed() && derives(
            position_seeds(position@.user, position@.strategy),
            position@.bump,
            old(ctx).program_id@,
            old(ctx).position_key@,
        ),
        old(ctx).strategy@.well_formed() ==> final(ctx).strategy@.well_formed(),
{
    let found = find_position_address(&ctx.program_id, &ctx.user, &ctx.strategy_key);
    let strategy_address = derive_strategy_address(
        &ctx.program_id,
        &ctx.strategy.trader,
        ctx.strategy.bump,
    );
    subscribe_to_strategy_given(ctx, found, strategy_address, now, initial_deposit)
}

} // verus!
