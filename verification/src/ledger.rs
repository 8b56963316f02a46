//! The book of positions under a strategy, and the count that the strategy keeps
//! of those that are open.
//!
//! A strategy does not hold its positions; it holds a count of them. The
//! statements here relate that count to any collection of positions that is
//! changed only through the operations of the vault.

use vstd::prelude::*;
use crate::error::VaultError;
use crate::exit::unsubscribed;
use crate::lifecycle::{created, updated};
use crate::settlement::settled;
use crate::state::{PositionView, StrategyView};
use crate::subscription::subscribed;
use crate::trading::traded;

verus! {

/// Whether a position is open under the strategy stored at `strategy_key`.
pub open spec fn open_under(p: PositionView, strategy_key: Seq<u8>) -> bool {
    p.is_active && p.strategy == strategy_key
}

/// What a position adds to the count of the strategy stored at `strategy_key`:
/// one where it is open under it, nothing otherwise.
pub open spec fn weight(p: PositionView, strategy_key: Seq<u8>) -> nat {
    if open_under(p, strategy_key) {
        1
    } else {
        0
    }
}

/// How many of the positions are open under the strategy stored at
/// `strategy_key`.
pub open spec fn open_count(positions: Seq<PositionView>, strategy_key: Seq<u8>) -> nat
    decreases positions.len(),
{
    if positions.len() == 0 {
        0
    } else {
        open_count(positions.drop_last(), strategy_key) + weight(positions.last(), strategy_key)
    }
}

/// The strategy's count of subscribers is the number of positions open under
/// it.
pub open spec fn counted(
    s: StrategyView,
    strategy_key: Seq<u8>,
    positions: Seq<PositionView>,
) -> bool {
    s.total_subscribers == open_count(positions, strategy_key)
}

/// Adding a position to the book adds one to the count exactly when the
/// position is open under the strategy.
pub proof fn lemma_open_count_push(
    positions: Seq<PositionView>,
    p: PositionView,
    strategy_key: Seq<u8>,
)
    ensures
        open_count(positions.push(p), strategy_key) == open_count(positions, strategy_key)
            + weight(p, strategy_key),
{
    assert(positions.push(p).drop_last() =~= positions);
}

/// Replacing a position in the book changes the count by what the old and the
/// new position each contribute.
pub proof fn lemma_open_count_update(
    positions: Seq<PositionView>,
    i: int,
    p: PositionView,
    strategy_key: Seq<u8>,
)
    requires
        0 <= i < positions.len(),
    ensures
        open_count(positions.update(i, p), strategy_key) + weight(positions[i], strategy_key)
            == open_count(positions, strategy_key) + weight(p, strategy_key),
    decreases positions.len(),
{
    if i == positions.len() - 1 {
        assert(positions.update(i, p).drop_last() =~= positions.drop_last());
    } else {
        lemma_open_count_update(positions.drop_last(), i, p, strategy_key);
        assert(positions.update(i, p).drop_last() =~= positions.drop_last().update(i, p));
    }
}

/// A book that holds a position open under the strategy counts at least one.
pub proof fn lemma_open_count_positive(
    positions: Seq<PositionView>,
    i: int,
    strategy_key: Seq<u8>,
)
    requires
        0 <= i < positions.len(),
        open_under(positions[i], strategy_key),
    ensures
        open_count(positions, strategy_key) >= 1,
    decreases positions.len(),
{
    if i < positions.len() - 1 {
        lemma_open_count_positive(positions.drop_last(), i, strategy_key);
    }
}

/// A new strategy counts no subscriber, and no position is open under it.
pub proof fn lemma_created_is_counted(
    trader: Seq<u8>,
    name: Seq<char>,
    description: Seq<char>,
    performance_fee_bps: u16,
    now: i64,
    bump: u8,
    strategy_key: Seq<u8>,
)
    requires
        created(trader, name, description, performance_fee_bps, now, bump) is Ok,
    ensures
        counted(
            created(trader, name, description, performance_fee_bps, now, bump)->Ok_0,
            strategy_key,
            Seq::empty(),
        ),
{
}

/// A change of a strategy's parameters keeps the count right.
pub proof fn lemma_update_keeps_count(
    s: StrategyView,
    strategy_key: Seq<u8>,
    positions: Seq<PositionView>,
    name: Option<Seq<char>>,
    description: Option<Seq<char>>,
    is_active: Option<bool>,
)
    requires
        counted(s, strategy_key, positions),
        updated(s, name, description, is_active) is Ok,
    ensures
        counted(updated(s, name, description, is_active)->Ok_0, strategy_key, positions),
{
}

/// A subscription keeps the count right: the new position enters the book
/// open, and the strategy counts one more.
pub proof fn lemma_subscription_keeps_count(
    s: StrategyView,
    strategy_key: Seq<u8>,
    positions: Seq<PositionView>,
    user: Seq<u8>,
    initial_deposit: u64,
    now: i64,
    bump: u8,
)
    requires
        counted(s, strategy_key, positions),
        subscribed(s, user, strategy_key, initial_deposit, now, bump) is Ok,
    ensures
        ({
            let (after, p) = subscribed(s, user, strategy_key, initial_deposit, now, bump)->Ok_0;
            counted(after, strategy_key, positions.push(p))
        }),
{
    let (after, p) = subscribed(s, user, strategy_key, initial_deposit, now, bump)->Ok_0;
    lemma_open_count_push(positions, p, strategy_key);
}

/// A trade keeps the count right: it opens and closes nothing.
pub proof fn lemma_trade_keeps_count(
    s: StrategyView,
    strategy_key: Seq<u8>,
    positions: Seq<PositionView>,
    i: int,
    amount: u64,
    profit_or_loss: i64,
)
    requires
        counted(s, strategy_key, positions),
        0 <= i < positions.len(),
        traded(s, positions[i], amount, profit_or_loss) is Ok,
    ensures
        ({
            let (after, p) = traded(s, positions[i], amount, profit_or_loss)->Ok_0;
            counted(after, strategy_key, positions.update(i, p))
        }),
{
    let (after, p) = traded(s, positions[i], amount, profit_or_loss)->Ok_0;
    lemma_open_count_update(positions, i, p, strategy_key);
}

/// A settlement keeps the count right: it opens and closes nothing.
pub proof fn lemma_settlement_keeps_count(
    s: StrategyView,
    strategy_key: Seq<u8>,
    positions: Seq<PositionView>,
    i: int,
    now: i64,
)
    requires
        counted(s, strategy_key, positions),
        0 <= i < positions.len(),
        settled(s, positions[i], now) is Ok,
    ensures
        ({
            let (after, p, fee) = settled(s, positions[i], now)->Ok_0;
            counted(after, strategy_key, positions.update(i, p))
        }),
{
    let (after, p, fee) = settled(s, positions[i], now)->Ok_0;
    lemma_open_count_update(positions, i, p, strategy_key);
}

/// An exit keeps the count right: the position, which belongs to the strategy,
/// stays in the book closed, and the strategy counts one fewer.
pub proof fn lemma_exit_keeps_count(
    s: StrategyView,
    strategy_key: Seq<u8>,
    positions: Seq<PositionView>,
    i: int,
)
    requires
        counted(s, strategy_key, positions),
        0 <= i < positions.len(),
        positions[i].strategy == strategy_key,
        unsubscribed(s, positions[i]) is Ok,
    ensures
        ({
            let (after, p, amount) = unsubscribed(s, positions[i])->Ok_0;
            counted(after, strategy_key, positions.update(i, p))
        }),
{
    let (after, p, amount) = unsubscribed(s, positions[i])->Ok_0;
    lemma_open_count_update(positions, i, p, strategy_key);
}

/// While the count is right, the exit of an open position that belongs to the
/// strategy is never refused: the guard against a count below zero is not
/// reached.
pub proof fn lemma_exit_of_counted_position_succeeds(
    s: StrategyView,
    strategy_key: Seq<u8>,
    positions: Seq<PositionView>,
    i: int,
)
    requires
        counted(s, strategy_key, positions),
        0 <= i < positions.len(),
        open_under(positions[i], strategy_key),
    ensures
        unsubscribed(s, positions[i]) is Ok,
{
    lemma_open_count_positive(positions, i, strategy_key);
}

} // verus!
