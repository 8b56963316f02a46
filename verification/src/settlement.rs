//! Settling the performance fee on the profit that a position has accrued above
//! its baseline.

use vstd::prelude::*;
use crate::address::Address;
use crate::error::VaultError;
use crate::escrow::{
    derive_position_address, derive_strategy_address, derives, position_seeds,
    position_signer_seeds, program_address, sits_at, strategy_seeds, with_bump, yields,
};
use crate::events::{FeesSettled, Transfer};
use crate::state::{PositionView, Strategy, StrategyView, UserPosition, BASIS_POINTS_DIVISOR};

verus! {

/// The fee on a profit at a rate in basis points: the product divided by ten
/// thousand, rounded down.
pub open spec fn fee_on(profit: u64, performance_fee_bps: u16) -> nat {
    (profit as nat * performance_fee_bps as nat) / (BASIS_POINTS_DIVISOR as nat)
}

/// The profit of a position: what its balance holds above the baseline, and
/// nothing where it holds no more.
pub open spec fn profit_of(p: PositionView) -> nat {
    if p.current_balance > p.initial_balance {
        (p.current_balance - p.initial_balance) as nat
    } else {
        0
    }
}

/// The strategy, the position and the fee after a settlement, or the reason it
/// is refused. Only a balance strictly above the baseline is charged, and only
/// a fee of at least one unit. The fee leaves the balance, and what remains
/// becomes the new baseline, so that no profit is charged twice.
pub open spec fn settled(s: StrategyView, p: PositionView, now: i64) -> Result<
    (StrategyView, PositionView, u64),
    VaultError,
> {
    let fee = fee_on(profit_of(p) as u64, s.performance_fee_bps);
    if !p.is_active {
        Err(VaultError::PositionInactive)
    } else if p.current_balance <= p.initial_balance {
        Err(VaultError::NoProfitToSettle)
    } else if fee > u64::MAX {
        Err(VaultError::MathOverflow)
    } else if fee == 0 {
        Err(VaultError::FeeAmountTooSmall)
    } else if fee > p.current_balance {
        Err(VaultError::InsufficientBalance)
    } else if p.total_fees_paid + fee > u64::MAX {
        Err(VaultError::MathOverflow)
    } else if s.total_fees_earned + fee > u64::MAX {
        Err(VaultError::MathOverflow)
    } else {
        Ok(
            (
                StrategyView { total_fees_earned: (s.total_fees_earned + fee) as u64, ..s },
                PositionView {
                    initial_balance: (p.current_balance - fee) as u64,
                    current_balance: (p.current_balance - fee) as u64,
                    total_fees_paid: (p.total_fees_paid + fee) as u64,
                    last_fee_settlement: now,
                    ..p
                },
                fee as u64,
            ),
        )
    }
}

/// Under a strategy that keeps its bounds a settlement takes at most half the
/// profit, so it is never refused for want of balance, and the baseline only
/// ever moves up: it ends strictly above where it stood.
pub proof fn lemma_baseline_only_rises(s: StrategyView, p: PositionView, now: i64)
    requires
        s.well_formed(),
    ensures
        settled(s, p, now) != Err::<(StrategyView, PositionView, u64), VaultError>(
            VaultError::InsufficientBalance,
        ),
        settled(s, p, now) matches Ok((after, charged, fee)) ==> 2 * fee <= p.current_balance
            - p.initial_balance && charged.initial_balance > p.initial_balance,
{
    let profit = profit_of(p);
    let rate = s.performance_fee_bps as nat;
    assert(2 * ((profit * rate) / 10000) <= profit) by (nonlinear_arith)
        requires
            rate <= 5000,
    ;
}

/// Once a fee is settled, the profit it was charged on is part of the baseline:
/// a second settlement with no trade between is refused for want of profit,
/// whatever the strategy holds by then. The refusal is one of state.
pub proof fn lemma_settled_profit_is_not_charged_again(
    s: StrategyView,
    p: PositionView,
    now: i64,
    later: StrategyView,
    then: i64,
)
    requires
        settled(s, p, now) is Ok,
    ensures
        settled(s, p, now) matches Ok((after, charged, fee)) && {
            &&& charged.initial_balance == charged.current_balance
            &&& charged.current_balance == p.current_balance - fee
            &&& settled(after, charged, then) == Err::<
                (StrategyView, PositionView, u64),
                VaultError,
            >(VaultError::NoProfitToSettle)
            &&& settled(later, charged, then) == Err::<
                (StrategyView, PositionView, u64),
                VaultError,
            >(VaultError::NoProfitToSettle)
        },
        VaultError::NoProfitToSettle.spec_kind() == crate::error::ErrorKind::State,
{
}

/// Settlements of two positions under one strategy commute. Where each would
/// succeed on the strategy as it stands and the fees earned have room for both
/// fees, both succeed in either order; each position is charged the same fee
/// and ends the same in both orders, the strategy ends the same, and its fees
/// earned have grown by the sum of the two fees.
pub proof fn lemma_settlements_commute(
    s: StrategyView,
    p: PositionView,
    q: PositionView,
    now_p: i64,
    now_q: i64,
)
    requires
        settled(s, p, now_p) is Ok,
        settled(s, q, now_q) is Ok,
        s.total_fees_earned + settled(s, p, now_p)->Ok_0.2 + settled(s, q, now_q)->Ok_0.2
            <= u64::MAX,
    ensures
        ({
            let (s_p, p_alone, fee_p) = settled(s, p, now_p)->Ok_0;
            let (s_q, q_alone, fee_q) = settled(s, q, now_q)->Ok_0;
            &&& settled(s_p, q, now_q) matches Ok((s_pq, q_second, fee_q_second))
            &&& settled(s_q, p, now_p) matches Ok((s_qp, p_second, fee_p_second))
            &&& s_pq == s_qp
            &&& s_pq.total_fees_earned == s.total_fees_earned + fee_p + fee_q
            &&& q_second == q_alone
            &&& p_second == p_alone
            &&& fee_q_second == fee_q
            &&& fee_p_second == fee_p
        }),
{
}

/// The fee on a profit at a rate in basis points, computed in a width that
/// holds the product; `None` where the fee itself does not fit an amount.
pub fn performance_fee(profit: u64, performance_fee_bps: u16) -> (r: Option<u64>)
    ensures
        r == if fee_on(profit, performance_fee_bps) <= u64::MAX {
            Some(fee_on(profit, performance_fee_bps) as u64)
        } else {
            None
        },
{
    assert(profit as nat * performance_fee_bps as nat <= 0xffff_ffff_ffff_ffff * 0xffff)
        by (nonlinear_arith)
        requires
            profit <= 0xffff_ffff_ffff_ffff,
            performance_fee_bps <= 0xffff,
    ;
    let product: u128 = (profit as u128) * (performance_fee_bps as u128);
    let fee: u128 = product / (BASIS_POINTS_DIVISOR as u128);
    if fee <= u64::MAX as u128 {
        Some(fee as u64)
    } else {
        None
    }
}

impl UserPosition {
    /// Charges the performance fee on the accrued profit: takes it from the
    /// balance, moves the baseline to what remains and adds it to the fees paid
    /// by the position and earned by the strategy. Returns the fee. A refused
    /// settlement leaves both as they were.
    pub fn settle(&mut self, strategy: &mut Strategy, now: i64) -> (r: Result<u64, VaultError>)
        ensures
            match settled(old(strategy)@, old(self)@, now) {
                Ok((s, p, fee)) => r == Ok::<u64, VaultError>(fee) && final(strategy)@ == s
                    && final(self)@ == p,
                Err(e) => r == Err::<u64, VaultError>(e) && *final(strategy) == *old(strategy)
                    && *final(self) == *old(self),
            },
            old(self)@.current_balance <= old(self)@.initial_balance ==> r is Err,
            old(self)@.well_formed() ==> final(self)@.well_formed(),
            old(strategy)@.well_formed() ==> final(strategy)@.well_formed(),
    {
        if !self.is_active {
            return Err(VaultError::PositionInactive);
        }
        let profit: u64 = match self.current_balance.checked_sub(self.initial_balance) {
            Some(p) => p,
            None => {
                return Err(VaultError::NoProfitToSettle);
            },
        };
        if profit == 0 {
            return Err(VaultError::NoProfitToSettle);
        }
        let fee: u64 = match performance_fee(profit, strategy.performance_fee_bps) {
            Some(f) => f,
            None => {
                return Err(VaultError::MathOverflow);
            },
        };
        if fee == 0 {
            return Err(VaultError::FeeAmountTooSmall);
        }
        let remaining: u64 = match self.current_balance.checked_sub(fee) {
            Some(b) => b,
            None => {
                return Err(VaultError::InsufficientBalance);
            },
        };
        let paid: u64 = match self.total_fees_paid.checked_add(fee) {
            Some(t) => t,
            None => {
                return Err(VaultError::MathOverflow);
            },
        };
        let earned: u64 = match strategy.total_fees_earned.checked_add(fee) {
            Some(t) => t,
            None => {
                return Err(VaultError::MathOverflow);
            },
        };
        self.current_balance = remaining;
        self.initial_balance = remaining;
        self.total_fees_paid = paid;
        self.last_fee_settlement = now;
        strategy.total_fees_earned = earned;
        Ok(fee)
    }
}

/// The accounts of a fee settlement: the subscriber who asks for it, the trader
/// who is paid, the strategy and the position.
#[derive(Clone, Debug, PartialEq, Eq)]
pub struct SettleFees {
    /// The program in whose name escrow addresses are derived.
    pub program_id: Address,
    /// The identity that signed the request.
    pub user: Address,
    /// The wallet that receives the fee.
    pub trader: Address,
    /// The address of the strategy account.
    pub strategy_key: Address,
    pub strategy: Strategy,
    /// The address of the position's escrow account.
    pub position_key: Address,
    pub position: UserPosition,
}

impl SettleFees {
    /// Whether the strategy account sits at the address derived from its
    /// recorded trader and stored bump.
    pub open spec fn strategy_derived(self) -> bool {
        derives(
            strategy_seeds(self.strategy.trader@),
            self.strategy.bump,
            self.program_id@,
            self.strategy_key@,
        )
    }

    /// Whether the position account sits at the address derived from the
    /// signing subscriber, the strategy's address and the bump stored on the
    /// position.
    pub open spec fn position_derived(self) -> bool {
        derives(
            position_seeds(self.user@, self.strategy_key@),
            self.position.bump,
            self.program_id@,
            self.position_key@,
        )
    }

    /// Why the accounts are refused, if they are: the strategy must sit at its
    /// derived address and name the wallet to be paid as its trader; the
    /// position must sit at its derived address, be the signing subscriber's own
    /// and belong to this strategy.
    pub open spec fn refusal(self, strategy_derived: bool, position_derived: bool) -> Option<
        VaultError,
    > {
        if !strategy_derived {
            Some(VaultError::InvalidDerivedAddress)
        } else if self.strategy.trader@ != self.trader@ {
            Some(VaultError::Unauthorized)
        } else if !position_derived {
            Some(VaultError::InvalidDerivedAddress)
        } else if self.position.user@ != self.user@ {
            Some(VaultError::Unauthorized)
        } else if self.position.strategy@ != self.strategy_key@ {
            Some(VaultError::Unauthorized)
        } else {
            None
        }
    }

    /// What a settlement leaves behind, given whether the two accounts sit at
    /// their derived addresses: refused accounts or a refused settlement change
    /// nothing; an accepted one charges the fee and asks for it to be moved from
    /// the position's escrow account to the trader, signed with the position's
    /// own seeds and bump.
    pub open spec fn outcome(
        self,
        strategy_derived: bool,
        position_derived: bool,
        now: i64,
        after: SettleFees,
        r: Result<(Transfer, FeesSettled), VaultError>,
    ) -> bool {
        match self.refusal(strategy_derived, position_derived) {
            Some(e) => r == Err::<(Transfer, FeesSettled), VaultError>(e) && after == self,
            None => match settled(self.strategy@, self.position@, now) {
                Err(e) => r == Err::<(Transfer, FeesSettled), VaultError>(e) && after == self,
                Ok((s, p, fee)) => {
                    &&& r matches Ok((payout, ev))
                    &&& payout.from == self.position_key
                    &&& payout.to == self.trader
                    &&& payout.amount == fee
                    &&& payout.signer_seeds.deep_view() == with_bump(
                        position_seeds(self.position.user@, self.position.strategy@),
                        self.position.bump,
                    )
                    &&& ev == FeesSettled {
                        user: self.position.user,
                        strategy: self.position.strategy,
                        trader: self.strategy.trader,
                        fee_amount: fee,
                        remaining_balance: p.current_balance,
                        timestamp: now,
                    }
                    &&& after.strategy@ == s
                    &&& after.position@ == p
                    &&& after.program_id == self.program_id
                    &&& after.user == self.user
                    &&& after.trader == self.trader
                    &&& after.strategy_key == self.strategy_key
                    &&& after.position_key == self.position_key
                },
            },
        }
    }
}

/// Settles the performance fee, given the addresses that the seeds of the
/// strategy and of the position derive.
pub fn settle_fees_given(
    ctx: &mut SettleFees,
    strategy_address: Option<Address>,
    position_address: Option<Address>,
    now: i64,
) -> (r: Result<(Transfer, FeesSettled), VaultError>)
    ensures
        old(ctx).outcome(
            yields(strategy_address, old(ctx).strategy_key),
            yields(position_address, old(ctx).position_key),
            now,
            *final(ctx),
            r,
        ),
        old(ctx).position@.well_formed() ==> final(ctx).position@.well_formed(),
        old(ctx).strategy@.well_formed() ==> final(ctx).strategy@.well_formed(),
{
    if !sits_at(strategy_address, &ctx.strategy_key) {
        return Err(VaultError::InvalidDerivedAddress);
    }
    if !ctx.strategy.trader.same(&ctx.trader) {
        return Err(VaultError::Unauthorized);
    }
    if !sits_at(position_address, &ctx.position_key) {
        return Err(VaultError::InvalidDerivedAddress);
    }
    if !ctx.position.user.same(&ctx.user) {
        return Err(VaultError::Unauthorized);
    }
    if !ctx.position.strategy.same(&ctx.strategy_key) {
        return Err(VaultError::Unauthorized);
    }
    let user: Address = ctx.position.user;
    let strategy: Address = ctx.position.strategy;
    let trader: Address = ctx.strategy.trader;
    let bump: u8 = ctx.position.bump;
    match ctx.position.settle(&mut ctx.strategy, now) {
        Ok(fee) => {
            let payout = Transfer {
                from: ctx.position_key,
                to: ctx.trader,
                amount: fee,
                signer_seeds: position_signer_seeds(&user, &strategy, bump),
            };
            let event = FeesSettled {
                user,
                strategy,
                trader,
                fee_amount: fee,
                remaining_balance: ctx.position.current_balance,
                timestamp: now,
            };
            Ok((payout, event))
        },
        Err(e) => Err(e),
    }
}

/// Settles the performance fee on the profit that the signing subscriber's
/// position holds above its baseline, and moves the baseline up to what remains
/// once the fee is taken. It fails whenever the balance is not above the
/// baseline. The payout it asks for carries seeds that derive the very escrow
/// account it is taken from.
pub fn settle_fees(ctx: &mut SettleFees, now: i64) -> (r: Result<
    (Transfer, FeesSettled),
    VaultError,
>)
    ensures
        old(ctx).outcome(
            old(ctx).strategy_derived(),
            old(ctx).position_derived(),
            now,
            *final(ctx),
            r,
        ),
        old(ctx).position.current_balance <= old(ctx).position.initial_balance ==> r is Err,
        r matches Ok((payout, ev)) ==> program_address(
            payout.signer_seeds.deep_view(),
            old(ctx).program_id@,
        ) == Some(payout.from@),
        old(ctx).position@.well_formed() ==> final(ctx).position@.well_formed(),
        old(ctx).strategy@.well_formed() ==> final(ctx).strategy@.well_formed(),
{
    let strategy_address = derive_strategy_address(
        &ctx.program_id,
        &ctx.strategy.trader,
        ctx.strategy.bump,
    );
    let position_address = derive_position_address(
        &ctx.program_id,
        &ctx.user,
        &ctx.strategy_key,
        ctx.position.bump,
    );
    settle_fees_given(ctx, strategy_address, position_address, now)
}

} // verus!
