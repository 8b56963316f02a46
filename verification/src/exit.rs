//! Closing a position: the whole remaining balance goes back to the subscriber.

use vstd::prelude::*;
use crate::address::Address;
use crate::error::VaultError;
use crate::escrow::{
    derive_position_address, derive_strategy_address, derives, position_seeds,
    position_signer_seeds, program_address, sits_at, strategy_seeds, with_bump, yields,
};
use crate::events::{Transfer, UserUnsubscribed};
use crate::settlement::settled;
use crate::state::{PositionView, Strategy, StrategyView, UserPosition, MIN_STAKE_AMOUNT};
use crate::subscription::subscribed;
use crate::trading::traded;

verus! {

/// The strategy, the closed position and the amount withdrawn after an exit, or
/// the reason it is refused. The whole balance is withdrawn, with no fee; the
/// position is left inactive and empty, and the strategy counts one subscriber
/// fewer.
pub open spec fn unsubscribed(s: StrategyView, p: PositionView) -> Result<
    (StrategyView, PositionView, u64),
    VaultError,
> {
    if !p.is_active {
        Err(VaultError::PositionInactive)
    } else if s.total_subscribers == 0 {
        Err(VaultError::MathOverflow)
    } else {
        Ok(
            (
                StrategyView { total_subscribers: (s.total_subscribers - 1) as u32, ..s },
                PositionView { is_active: false, current_balance: 0, ..p },
                p.current_balance,
            ),
        )
    }
}

/// A subscriber who opens a position and leaves at once, with no trade and no
/// settlement between, is handed back exactly the deposit, and the strategy
/// counts as many subscribers as before.
pub proof fn lemma_immediate_exit_returns_deposit(
    s: StrategyView,
    user: Seq<u8>,
    strategy_key: Seq<u8>,
    initial_deposit: u64,
    now: i64,
    bump: u8,
)
    requires
        s.is_active,
        initial_deposit >= MIN_STAKE_AMOUNT,
        s.total_subscribers < u32::MAX,
    ensures
        subscribed(s, user, strategy_key, initial_deposit, now, bump) matches Ok((joined, held))
            && unsubscribed(joined, held) matches Ok((left, closed, amount)) && amount
            == initial_deposit && left == s,
{
}

/// A closed position is terminal: a second exit is refused because the
/// position is inactive, whatever the strategy holds by then, and so are a
/// trade and a settlement. The refusal is one of state.
pub proof fn lemma_closed_position_is_terminal(
    s: StrategyView,
    p: PositionView,
    later: StrategyView,
    now: i64,
    amount: u64,
    profit_or_loss: i64,
)
    requires
        unsubscribed(s, p) is Ok,
    ensures
        unsubscribed(s, p) matches Ok((left, closed, withdrawn)) && {
            &&& !closed.is_active
            &&& closed.current_balance == 0
            &&& unsubscribed(left, closed) == Err::<(StrategyView, PositionView, u64), VaultError>(
                VaultError::PositionInactive,
            )
            &&& unsubscribed(later, closed) == Err::<(StrategyView, PositionView, u64), VaultError>(
                VaultError::PositionInactive,
            )
            &&& settled(later, closed, now) == Err::<(StrategyView, PositionView, u64), VaultError>(
                VaultError::PositionInactive,
            )
            &&& traded(later, closed, amount, profit_or_loss) == Err::<
                (StrategyView, PositionView),
                VaultError,
            >(VaultError::PositionInactive)
        },
        VaultError::PositionInactive.spec_kind() == crate::error::ErrorKind::State,
{
}

/// Exits of two subscribers from one strategy commute. Where the strategy
/// counts at least the two of them, both succeed in either order, each is
/// handed the same amount, and the strategy ends the same, counting two fewer.
pub proof fn lemma_exits_commute(s: StrategyView, p: PositionView, q: PositionView)
    requires
        p.is_active,
        q.is_active,
        s.total_subscribers >= 2,
    ensures
        ({
            let (s_p, p_alone, amount_p) = unsubscribed(s, p)->Ok_0;
            let (s_q, q_alone, amount_q) = unsubscribed(s, q)->Ok_0;
            &&& unsubscribed(s, p) is Ok
            &&& unsubscribed(s, q) is Ok
            &&& unsubscribed(s_p, q) matches Ok((s_pq, q_second, amount_q_second))
            &&& unsubscribed(s_q, p) matches Ok((s_qp, p_second, amount_p_second))
            &&& s_pq == s_qp
            &&& s_pq.total_subscribers == s.total_subscribers - 2
            &&& q_second == q_alone
            &&& p_second == p_alone
            &&& amount_q_second == amount_q
            &&& amount_p_second == amount_p
        }),
{
}

impl UserPosition {
    /// Closes the position and takes one subscriber off the strategy's count.
    /// Returns the amount to hand back: the whole balance. A refused exit
    /// leaves both as they were.
    pub fn close(&mut self, strategy: &mut Strategy) -> (r: Result<u64, VaultError>)
        ensures
            match unsubscribed(old(strategy)@, old(self)@) {
                Ok((s, p, amount)) => r == Ok::<u64, VaultError>(amount) && final(strategy)@ == s
                    && final(self)@ == p,
                Err(e) => r == Err::<u64, VaultError>(e) && *final(strategy) == *old(strategy)
                    && *final(self) == *old(self),
            },
            r is Ok || old(self)@.well_formed() ==> final(self)@.well_formed(),
            old(strategy)@.well_formed() ==> final(strategy)@.well_formed(),
    {
        if !self.is_active {
            return Err(VaultError::PositionInactive);
        }
        let subscribers: u32 = match strategy.total_subscribers.checked_sub(1) {
            Some(n) => n,
            None => {
                return Err(VaultError::MathOverflow);
            },
        };
        let amount: u64 = self.current_balance;
        self.is_active = false;
        self.current_balance = 0;
        strategy.total_subscribers = subscribers;
        Ok(amount)
    }
}

/// The accounts of an exit: the subscriber who leaves, the strategy and the
/// position.
#[derive(Clone, Debug, PartialEq, Eq)]
pub struct Unsubscribe {
    /// The program in whose name escrow addresses are derived.
    pub program_id: Address,
    /// The identity that signed the request and receives the balance.
    pub user: Address,
    /// The address of the strategy account.
    pub strategy_key: Address,
    pub strategy: Strategy,
    /// The address of the position's escrow account.
    pub position_key: Address,
    pub position: UserPosition,
}

impl Unsubscribe {
    /// Whether the strategy account sits at the address derived from its
    /// recorded trader and stored bump.
    pub open spec fn strategy_derived(self) -> bool {
        derives(
            strategy_seeds(self.strategy.trader@),
            self.strategy.bump,
            self.program_id@,
            self.strategy_key@,
        )
    }

    /// Whether the position account sits at the address derived from the
    /// signing subscriber, the strategy's address and the bump stored on the
    /// position.
    pub open spec fn position_derived(self) -> bool {
        derives(
            position_seeds(self.user@, self.strategy_key@),
            self.position.bump,
            self.program_id@,
            self.position_key@,
        )
    }

    /// Why the accounts are refused, if they are: both must sit at their
    /// derived addresses, and the position must be the signing subscriber's own
    /// and belong to this strategy.
    pub open spec fn refusal(self, strategy_derived: bool, position_derived: bool) -> Option<
        VaultError,
    > {
        if !strategy_derived {
            Some(VaultError::InvalidDerivedAddress)
        } else if !position_derived {
            Some(VaultError::InvalidDerivedAddress)
        } else if self.position.user@ != self.user@ {
            Some(VaultError::Unauthorized)
        } else if self.position.strategy@ != self.strategy_key@ {
            Some(VaultError::Unauthorized)
        } else {
            None
        }
    }

    /// What an exit leaves behind, given whether the two accounts sit at their
    /// derived addresses: refused accounts or a refused exit change nothing; an
    /// accepted one closes the position and asks for its whole balance to be
    /// moved from escrow to the subscriber, signed with the position's own seeds
    /// and bump.
    pub open spec fn outcome(
        self,
        strategy_derived: bool,
        position_derived: bool,
        now: i64,
        after: Unsubscribe,
        r: Result<(Transfer, UserUnsubscribed), VaultError>,
    ) -> bool {
        match self.refusal(strategy_derived, position_derived) {
            Some(e) => r == Err::<(Transfer, UserUnsubscribed), VaultError>(e) && after == self,
            None => match unsubscribed(self.strategy@, self.position@) {
                Err(e) => r == Err::<(Transfer, UserUnsubscribed), VaultError>(e) && after
                    == self,
                Ok((s, p, amount)) => {
                    &&& r matches Ok((payout, ev))
                    &&& payout.from == self.position_key
                    &&& payout.to == self.user
                    &&& payout.amount == amount
                    &&& payout.signer_seeds.deep_view() == with_bump(
                        position_seeds(self.position.user@, self.position.strategy@),
                        self.position.bump,
                    )
                    &&& ev == UserUnsubscribed {
                        user: self.position.user,
                        strategy: self.position.strategy,
                        withdrawn_amount: amount,
                        timestamp: now,
                    }
                    &&& after.strategy@ == s
                    &&& after.position@ == p
                    &&& after.program_id == self.program_id
                    &&& after.user == self.user
                    &&& after.strategy_key == self.strategy_key
                    &&& after.position_key == self.position_key
                },
            },
        }
    }
}

/// Closes a position, given the addresses that the seeds of the strategy and of
/// the position derive.
pub fn unsubscribe_given(
    ctx: &mut Unsubscribe,
    strategy_address: Option<Address>,
    position_address: Option<Address>,
    now: i64,
) -> (r: Result<(Transfer, UserUnsubscribed), VaultError>)
    ensures
        old(ctx).outcome(
            yields(strategy_address, old(ctx).strategy_key),
            yields(position_address, old(ctx).position_key),
            now,
            *final(ctx),
            r,
        ),
        r is Ok || old(ctx).position@.well_formed() ==> final(ctx).position@.well_formed(),
        old(ctx).strategy@.well_formed() ==> final(ctx).strategy@.well_formed(),
{
    if !sits_at(strategy_address, &ctx.strategy_key) {
        return Err(VaultError::InvalidDerivedAddress);
    }
    if !sits_at(position_address, &ctx.position_key) {
        return Err(VaultError::InvalidDerivedAddress);
    }
    if !ctx.position.user.same(&ctx.user) {
        return Err(VaultError::Unauthorized);
    }
    if !ctx.position.strategy.same(&ctx.strategy_key) {
        return Err(VaultError::Unauthorized);
    }
    let user: Address = ctx.position.user;
    let strategy: Address = ctx.position.strategy;
    let bump: u8 = ctx.position.bump;
    match ctx.position.close(&mut ctx.strategy) {
        Ok(amount) => {
            let payout = Transfer {
                from: ctx.position_key,
                to: ctx.user,
                amount,
                signer_seeds: position_signer_seeds(&user, &strategy, bump),
            };
            let event = UserUnsubscribed {
                user,
                strategy,
                withdrawn_amount: amount,
                timestamp: now,
            };
            Ok((payout, event))
        },
        Err(e) => Err(e),
    }
}

/// Closes the signing subscriber's position and hands back its whole remaining
/// balance, with no fee taken at exit. The position is kept, inactive and
/// empty, and cannot be closed again. The payout it asks for carries seeds that
/// derive the very escrow account it is taken from.
pub fn unsubscribe(ctx: &mut Unsubscribe, now: i64) -> (r: Result<
    (Transfer, UserUnsubscribed),
    VaultError,
>)
    ensures
        old(ctx).outcome(
            old(ctx).strategy_derived(),
            old(ctx).position_derived(),
            now,
            *final(ctx),
            r,
        ),
        r matches Ok((payout, ev)) ==> program_address(
            payout.signer_seeds.deep_view(),
            old(ctx).program_id@,
        ) == Some(payout.from@),
        r is Ok || old(ctx).position@.well_formed() ==> final(ctx).position@.well_formed(),
        old(ctx).strategy@.well_formed() ==> final(ctx).strategy@.well_formed(),
{
    let strategy_address = derive_strategy_address(
        &ctx.program_id,
        &ctx.strategy.trader,
        ctx.strategy.bump,
    );
    let position_address = derive_position_address(
        &ctx.program_id,
        &ctx.user,
        &ctx.strategy_key,
        ctx.position.bump,
    );
    unsubscribe_given(ctx, strategy_address, position_address, now)
}

} // verus!
