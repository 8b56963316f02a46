//! Recording a trade outcome that the trader declares against a position.

use vstd::prelude::*;
use crate::address::Address;
use crate::error::VaultError;
use crate::escrow::{
    derive_position_address, derive_strategy_address, derives, position_seeds, sits_at,
    strategy_seeds, yields,
};
use crate::events::TradeExecuted;
use crate::state::{PositionView, Strategy, StrategyView, UserPosition};

verus! {

/// The size of a declared profit or loss, whatever its sign.
pub open spec fn magnitude(profit_or_loss: i64) -> int {
    if profit_or_loss >= 0 {
        profit_or_loss as int
    } else {
        -(profit_or_loss as int)
    }
}

/// The strategy and the position after a trade, or the reason it is refused.
/// A profit is added to the balance and a loss taken from it; the trade's gross
/// size is added to the strategy's volume whatever the sign of the outcome. The
/// balance never leaves the range from zero to the largest amount, and neither
/// does the volume.
pub open spec fn traded(
    s: StrategyView,
    p: PositionView,
    amount: u64,
    profit_or_loss: i64,
) -> Result<(StrategyView, PositionView), VaultError> {
    if !p.is_active {
        Err(VaultError::PositionInactive)
    } else if profit_or_loss >= 0 && p.current_balance + profit_or_loss > u64::MAX {
        Err(VaultError::MathOverflow)
    } else if profit_or_loss < 0 && p.current_balance + profit_or_loss < 0 {
        Err(VaultError::InsufficientBalance)
    } else if s.total_volume_traded + amount > u64::MAX {
        Err(VaultError::MathOverflow)
    } else {
        Ok(
            (
                StrategyView { total_volume_traded: (s.total_volume_traded + amount) as u64, ..s },
                PositionView { current_balance: (p.current_balance + profit_or_loss) as u64, ..p },
            ),
        )
    }
}

/// A loss larger than the balance is refused, whatever else holds of an active
/// position: the balance is never driven below zero. The refusal is one of
/// arithmetic.
pub proof fn lemma_loss_beyond_balance_is_refused(
    s: StrategyView,
    p: PositionView,
    amount: u64,
    profit_or_loss: i64,
)
    requires
        p.is_active,
        p.current_balance + profit_or_loss < 0,
    ensures
        traded(s, p, amount, profit_or_loss) == Err::<(StrategyView, PositionView), VaultError>(
            VaultError::InsufficientBalance,
        ),
        VaultError::InsufficientBalance.spec_kind() == crate::error::ErrorKind::Arithmetic,
{
}

/// Trades on two positions under one strategy commute. Where each would
/// succeed on the strategy as it stands and the volume has room for both
/// sizes, both succeed in either order, each position ends the same, and the
/// strategy ends the same, its volume grown by the sum of the two sizes.
pub proof fn lemma_trades_commute(
    s: StrategyView,
    p: PositionView,
    q: PositionView,
    amount_p: u64,
    outcome_p: i64,
    amount_q: u64,
    outcome_q: i64,
)
    requires
        traded(s, p, amount_p, outcome_p) is Ok,
        traded(s, q, amount_q, outcome_q) is Ok,
        s.total_volume_traded + amount_p + amount_q <= u64::MAX,
    ensures
        ({
            let (s_p, p_alone) = traded(s, p, amount_p, outcome_p)->Ok_0;
            let (s_q, q_alone) = traded(s, q, amount_q, outcome_q)->Ok_0;
            &&& traded(s_p, q, amount_q, outcome_q) matches Ok((s_pq, q_second))
            &&& traded(s_q, p, amount_p, outcome_p) matches Ok((s_qp, p_second))
            &&& s_pq == s_qp
            &&& s_pq.total_volume_traded == s.total_volume_traded + amount_p + amount_q
            &&& q_second == q_alone
            &&& p_second == p_alone
        }),
{
}

/// The size of a declared profit or loss, whatever its sign.
pub fn magnitude_of(profit_or_loss: i64) -> (r: u64)
    ensures
        r == magnitude(profit_or_loss),
{
    if profit_or_loss >= 0 {
        profit_or_loss as u64
    } else {
        let short: i64 = -(profit_or_loss + 1);
        short as u64 + 1
    }
}

impl UserPosition {
    /// Applies a declared trade outcome to the position and adds the trade's
    /// gross size to the strategy's volume. A refused trade leaves both as they
    /// were.
    pub fn record_trade(&mut self, strategy: &mut Strategy, amount: u64, profit_or_loss: i64) -> (r:
        Result<(), VaultError>)
        ensures
            match traded(old(strategy)@, old(self)@, amount, profit_or_loss) {
                Ok((s, p)) => r is Ok && final(strategy)@ == s && final(self)@ == p,
                Err(e) => r == Err::<(), VaultError>(e) && *final(strategy) == *old(strategy)
                    && *final(self) == *old(self),
            },
            old(self)@.well_formed() ==> final(self)@.well_formed(),
            old(strategy)@.well_formed() ==> final(strategy)@.well_formed(),
    {
        if !self.is_active {
            return Err(VaultError::PositionInactive);
        }
        let size: u64 = magnitude_of(profit_or_loss);
        let balance: u64 = if profit_or_loss >= 0 {
            match self.current_balance.checked_add(size) {
                Some(b) => b,
                None => {
                    return Err(VaultError::MathOverflow);
                },
            }
        } else {
            match self.current_balance.checked_sub(size) {
                Some(b) => b,
                None => {
                    return Err(VaultError::InsufficientBalance);
                },
            }
        };
        let volume: u64 = match strategy.total_volume_traded.checked_add(amount) {
            Some(v) => v,
            None => {
                return Err(VaultError::MathOverflow);
            },
        };
        self.current_balance = balance;
        strategy.total_volume_traded = volume;
        Ok(())
    }
}

/// The accounts of a trade: the trader who declares it, the trader's strategy
/// and the position it is recorded against.
#[derive(Clone, Debug, PartialEq, Eq)]
pub struct ExecuteTrade {
    /// The program in whose name escrow addresses are derived.
    pub program_id: Address,
    /// The identity that signed the request.
    pub trader: Address,
    /// The address of the strategy account.
    pub strategy_key: Address,
    pub strategy: Strategy,
    /// The address of the position's escrow account.
    pub position_key: Address,
    pub position: UserPosition,
}

impl ExecuteTrade {
    /// Whether the strategy account sits at the address derived from the
    /// signing trader and the bump stored on the strategy.
    pub open spec fn strategy_derived(self) -> bool {
        derives(
            strategy_seeds(self.trader@),
            self.strategy.bump,
            self.program_id@,
            self.strategy_key@,
        )
    }

    /// Whether the position account sits at the address derived from its
    /// subscriber, the strategy's address and the bump stored on the position.
    pub open spec fn position_derived(self) -> bool {
        derives(
            position_seeds(self.position.user@, self.strategy_key@),
            self.position.bump,
            self.program_id@,
            self.position_key@,
        )
    }

    /// Why the accounts are refused, if they are: the strategy must sit at its
    /// derived address and be the signing trader's own, and the position must
    /// sit at its derived address and belong to this strategy.
    pub open spec fn refusal(self, strategy_derived: bool, position_derived: bool) -> Option<
        VaultError,
    > {
        if !strategy_derived {
            Some(VaultError::InvalidDerivedAddress)
        } else if self.strategy.trader@ != self.trader@ {
            Some(VaultError::Unauthorized)
        } else if !position_derived {
            Some(VaultError::InvalidDerivedAddress)
        } else if self.position.strategy@ != self.strategy_key@ {
            Some(VaultError::Unauthorized)
        } else {
            None
        }
    }

    /// What a trade leaves behind, given whether the two accounts sit at their
    /// derived addresses: refused accounts or a refused trade change nothing; an
    /// accepted trade updates the strategy and the position and announces the new
    /// balance.
    pub open spec fn outcome(
        self,
        strategy_derived: bool,
        position_derived: bool,
        now: i64,
        amount: u64,
        profit_or_loss: i64,
        after: ExecuteTrade,
        r: Result<TradeExecuted, VaultError>,
    ) -> bool {
        match self.refusal(strategy_derived, position_derived) {
            Some(e) => r == Err::<TradeExecuted, VaultError>(e) && after == self,
            None => match traded(self.strategy@, self.position@, amount, profit_or_loss) {
                Err(e) => r == Err::<TradeExecuted, VaultError>(e) && after == self,
                Ok((s, p)) => {
                    &&& r == Ok::<TradeExecuted, VaultError>(
                        TradeExecuted {
                            strategy: self.strategy_key,
                            user: self.position.user,
                            amount,
                            profit_or_loss,
                            new_balance: p.current_balance,
                            timestamp: now,
                        },
                    )
                    &&& after.strategy@ == s
                    &&& after.position@ == p
                    &&& after.program_id == self.program_id
                    &&& after.trader == self.trader
                    &&& after.strategy_key == self.strategy_key
                    &&& after.position_key == self.position_key
                },
            },
        }
    }
}

/// Records a trade, given the addresses that the seeds of the strategy and of
/// the position derive.
pub fn execute_trade_given(
    ctx: &mut ExecuteTrade,
    strategy_address: Option<Address>,
    position_address: Option<Address>,
    now: i64,
    amount: u64,
    profit_or_loss: i64,
) -> (r: Result<TradeExecuted, VaultError>)
    ensures
        old(ctx).outcome(
            yields(strategy_address, old(ctx).strategy_key),
            yields(position_address, old(ctx).position_key),
            now,
            amount,
            profit_or_loss,
            *final(ctx),
            r,
        ),
{
    if !sits_at(strategy_address, &ctx.strategy_key) {
        return Err(VaultError::InvalidDerivedAddress);
    }
    if !ctx.strategy.trader.same(&ctx.trader) {
        return Err(VaultError::Unauthorized);
    }
    if !sits_at(position_address, &ctx.position_key) {
        return Err(VaultError::InvalidDerivedAddress);
    }
    if !ctx.position.strategy.same(&ctx.strategy_key) {
        return Err(VaultError::Unauthorized);
    }
    let user: Address = ctx.position.user;
    match ctx.position.record_trade(&mut ctx.strategy, amount, profit_or_loss) {
        Ok(()) => Ok(
            TradeExecuted {
                strategy: ctx.strategy_key,
                user,
                amount,
                profit_or_loss,
                new_balance: ctx.position.current_balance,
                timestamp: now,
            },
        ),
        Err(e) => Err(e),
    }
}

/// Records a trade outcome that the trader declares: checks that the strategy
/// is the signing trader's and the position belongs to it, applies the profit
/// or loss to the position's balance, and adds the trade's gross size to the
/// strategy's volume. Nothing is checked of the trade itself.
pub fn execute_trade(ctx: &mut ExecuteTrade, now: i64, amount: u64, profit_or_loss: i64) -> (r:
    Result<TradeExecuted, VaultError>)
    ensures
        old(ctx).outcome(
            old(ctx).strategy_derived(),
            old(ctx).position_derived(),
            now,
            amount,
            profit_or_loss,
            *final(ctx),
            r,
        ),
        old(ctx).position.current_balance + profit_or_loss < 0 ==> r is Err && *final(ctx) == *old(
            ctx,
        ),
{
    let strategy_address = derive_strategy_address(
        &ctx.program_id,
        &ctx.trader,
        ctx.strategy.bump,
    );
    let position_address = derive_position_address(
        &ctx.program_id,
        &ctx.position.user,
        &ctx.strategy_key,
        ctx.position.bump,
    );
    execute_trade_given(ctx, strategy_address, position_address, now, amount, profit_or_loss)
}

} // verus!
