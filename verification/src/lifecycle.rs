//! Creating a strategy and changing its public parameters.

use vstd::prelude::*;
use crate::address::Address;
use crate::error::VaultError;
use crate::escrow::{
    bump_at, bump_for, canonical_program_address, derive_strategy_address, derives,
    find_strategy_address, found_view, sits_at, strategy_seeds, yields,
};
use crate::events::{StrategyCreated, StrategyUpdated};
use crate::state::{
    byte_len, stored_len, Strategy, StrategyView, MAX_DESCRIPTION_LENGTH, MAX_FEE_BPS,
    MAX_NAME_LENGTH,
};

verus! {

/// The strategy that a trader creates, or the reason it is refused: the name,
/// then the description, then the fee are held to their bounds. A new strategy
/// is active and all its counters are zero.
pub open spec fn created(
    trader: Seq<u8>,
    name: Seq<char>,
    description: Seq<char>,
    performance_fee_bps: u16,
    now: i64,
    bump: u8,
) -> Result<StrategyView, VaultError> {
    if byte_len(name) > MAX_NAME_LENGTH {
        Err(VaultError::NameTooLong)
    } else if byte_len(description) > MAX_DESCRIPTION_LENGTH {
        Err(VaultError::DescriptionTooLong)
    } else if performance_fee_bps > MAX_FEE_BPS {
        Err(VaultError::FeeTooHigh)
    } else {
        Ok(
            StrategyView {
                trader,
                name,
                description,
                performance_fee_bps,
                total_subscribers: 0,
                total_volume_traded: 0,
                total_fees_earned: 0,
                is_active: true,
                created_at: now,
                bump,
            },
        )
    }
}

/// The strategy after a change of its parameters, or the reason the change is
/// refused. A field that is absent is left as it was; a name or description that
/// is present is held to its bound before anything is written.
pub open spec fn updated(
    s: StrategyView,
    name: Option<Seq<char>>,
    description: Option<Seq<char>>,
    is_active: Option<bool>,
) -> Result<StrategyView, VaultError> {
    if name is Some && byte_len(name->0) > MAX_NAME_LENGTH {
        Err(VaultError::NameTooLong)
    } else if description is Some && byte_len(description->0) > MAX_DESCRIPTION_LENGTH {
        Err(VaultError::DescriptionTooLong)
    } else {
        Ok(
            StrategyView {
                name: if name is Some {
                    name->0
                } else {
                    s.name
                },
                description: if description is Some {
                    description->0
                } else {
                    s.description
                },
                is_active: if is_active is Some {
                    is_active->0
                } else {
                    s.is_active
                },
                ..s
            },
        )
    }
}

/// The text inside an optional string.
pub open spec fn text_of(text: Option<String>) -> Option<Seq<char>> {
    match text {
        Some(t) => Some(t@),
        None => None,
    }
}

impl Strategy {
    /// Creates a strategy for `trader`, stored with the bump of its address.
    pub fn create(
        trader: Address,
        name: String,
        description: String,
        performance_fee_bps: u16,
        now: i64,
        bump: u8,
    ) -> (r: Result<Strategy, VaultError>)
        ensures
            match created(trader@, name@, description@, performance_fee_bps, now, bump) {
                Ok(v) => r matches Ok(s) && s@ == v,
                Err(e) => r == Err::<Strategy, VaultError>(e),
            },
            r matches Ok(s) ==> s@.well_formed(),
    {
        if stored_len(&name) > MAX_NAME_LENGTH {
            return Err(VaultError::NameTooLong);
        }
        if stored_len(&description) > MAX_DESCRIPTION_LENGTH {
            return Err(VaultError::DescriptionTooLong);
        }
        if performance_fee_bps > MAX_FEE_BPS {
            return Err(VaultError::FeeTooHigh);
        }
        Ok(
            Strategy {
                trader,
                name,
                description,
                performance_fee_bps,
                total_subscribers: 0,
                total_volume_traded: 0,
                total_fees_earned: 0,
                is_active: true,
                created_at: now,
                bump,
            },
        )
    }

    /// Changes the name, the description and the active flag, each where one is
    /// given. A refused change leaves the strategy as it was.
    pub fn update(
        &mut self,
        name: Option<String>,
        description: Option<String>,
        is_active: Option<bool>,
    ) -> (r: Result<(), VaultError>)
        ensures
            match updated(old(self)@, text_of(name), text_of(description), is_active) {
                Ok(v) => r is Ok && final(self)@ == v,
                Err(e) => r == Err::<(), VaultError>(e) && *final(self) == *old(self),
            },
            old(self)@.well_formed() ==> final(self)@.well_formed(),
    {
        if let Some(new_name) = &name {
            if stored_len(new_name) > MAX_NAME_LENGTH {
                return Err(VaultError::NameTooLong);
            }
        }
        if let Some(new_desc) = &description {
            if stored_len(new_desc) > MAX_DESCRIPTION_LENGTH {
                return Err(VaultError::DescriptionTooLong);
            }
        }
        if let Some(new_name) = name {
            self.name = new_name;
        }
        if let Some(new_desc) = description {
            self.description = new_desc;
        }
        if let Some(active) = is_active {
            self.is_active = active;
        }
        Ok(())
    }
}

/// The accounts of a strategy's creation: the trader who creates it and the
/// address at which it is to be stored.
#[derive(Clone, Copy, Debug, PartialEq, Eq)]
pub struct InitializeStrategy {
    /// The program in whose name escrow addresses are derived.
    pub program_id: Address,
    /// The identity that signed the request.
    pub trader: Address,
    /// The address offered for the new strategy account.
    pub strategy_key: Address,
}

impl InitializeStrategy {
    /// The address and bump that the trader's seeds find.
    pub open spec fn found(self) -> Option<(Seq<u8>, u8)> {
        canonical_program_address(strategy_seeds(self.trader@), self.program_id@)
    }

    /// What a creation yields, given what the trader's seeds found: it is
    /// refused unless they found the offered address, and then the strategy is
    /// created with the bump that was found, or refused for its parameters.
    pub open spec fn outcome(
        self,
        found: Option<(Seq<u8>, u8)>,
        now: i64,
        name: Seq<char>,
        description: Seq<char>,
        performance_fee_bps: u16,
        r: Result<(Strategy, StrategyCreated), VaultError>,
    ) -> bool {
        match bump_for(found, self.strategy_key@) {
            None => r == Err::<(Strategy, StrategyCreated), VaultError>(
                VaultError::InvalidDerivedAddress,
            ),
            Some(bump) => match created(
                self.trader@,
                name,
                description,
                performance_fee_bps,
                now,
                bump,
            ) {
                Err(e) => r == Err::<(Strategy, StrategyCreated), VaultError>(e),
                Ok(v) => {
                    &&& r matches Ok((s, ev))
                    &&& s@ == v
                    &&& ev.strategy == self.strategy_key
                    &&& ev.trader == self.trader
                    &&& ev.name@ == name
                    &&& ev.performance_fee_bps == performance_fee_bps
                    &&& ev.timestamp == now
                },
            },
        }
    }
}

/// A trader has one strategy: two creations for one trader under one program
/// are accepted only at the same address, and store the same bump.
pub proof fn lemma_one_strategy_per_trader(first: InitializeStrategy, second: InitializeStrategy)
    requires
        first.trader == second.trader,
        first.program_id == second.program_id,
        bump_for(first.found(), first.strategy_key@) is Some,
        bump_for(second.found(), second.strategy_key@) is Some,
    ensures
        first.strategy_key == second.strategy_key,
        bump_for(first.found(), first.strategy_key@) == bump_for(
            second.found(),
            second.strategy_key@,
        ),
{
    Address::lemma_view_injective(first.strategy_key, second.strategy_key);
}

/// Creates a strategy, given the address and bump that the trader's seeds
/// found.
pub fn initialize_strategy_given(
    ctx: &InitializeStrategy,
    found: Option<(Address, u8)>,
    now: i64,
    name: String,
    description: String,
    performance_fee_bps: u16,
) -> (r: Result<(Strategy, StrategyCreated), VaultError>)
    ensures
        ctx.outcome(found_view(found), now, name@, description@, performance_fee_bps, r),
        r matches Ok((s, ev)) ==> s@.well_formed(),
{
    let bump: u8 = match bump_at(found, &ctx.strategy_key) {
        Some(b) => b,
        None => {
            return Err(VaultError::InvalidDerivedAddress);
        },
    };
    match Strategy::create(ctx.trader, name, description, performance_fee_bps, now, bump) {
        Ok(strategy) => {
            let event = StrategyCreated {
                strategy: ctx.strategy_key,
                trader: ctx.trader,
                name: strategy.name.clone(),
                performance_fee_bps,
                timestamp: now,
            };
            Ok((strategy, event))
        },
        Err(e) => Err(e),
    }
}

/// Creates the signing trader's strategy at the address that the trader's
/// identity derives. The name may take fifty bytes, the description five
/// hundred, and the fee may be fifty percent at most. A strategy that was
/// created sits at the address that its trader and its stored bump derive.
pub fn initialize_strategy(
    ctx: &InitializeStrategy,
    now: i64,
    name: String,
    description: String,
    performance_fee_bps: u16,
) -> (r: Result<(Strategy, StrategyCreated), VaultError>)
    ensures
        ctx.outcome(ctx.found(), now, name@, description@, performance_fee_bps, r),
        r matches Ok((s, ev)) ==> s@.well_formed() && derives(
            strategy_seeds(s@.trader),
            s@.bump,
            ctx.program_id@,
            ctx.strategy_key@,
        ),
{
    let found = find_strategy_address(&ctx.program_id, &ctx.trader);
    initialize_strategy_given(ctx, found, now, name, description, performance_fee_bps)
}

/// The accounts of a change to a strategy: the trader who asks for it and the
/// strategy.
#[derive(Clone, Debug, PartialEq, Eq)]
pub struct UpdateStrategy {
    /// The program in whose name escrow addresses are derived.
    pub program_id: Address,
    /// The identity that signed the request.
    pub trader: Address,
    /// The address of the strategy account.
    pub strategy_key: Address,
    pub strategy: Strategy,
}

impl UpdateStrategy {
    /// Whether the strategy account sits at the address derived from the
    /// signing trader and the bump stored on the strategy.
    pub open spec fn strategy_derived(self) -> bool {
        derives(
            strategy_seeds(self.trader@),
            self.strategy.bump,
            self.program_id@,
            self.strategy_key@,
        )
    }

    /// Why the accounts are refused, if they are: the strategy must sit at its
    /// derived address and be the signing trader's own.
    pub open spec fn refusal(self, strategy_derived: bool) -> Option<VaultError> {
        if !strategy_derived {
            Some(VaultError::InvalidDerivedAddress)
        } else if self.strategy.trader@ != self.trader@ {
            Some(VaultError::Unauthorized)
        } else {
            None
        }
    }

    /// What a change leaves behind, given whether the strategy sits at its
    /// derived address: refused accounts or a refused change alter nothing; an
    /// accepted change overwrites exactly the fields that were given.
    pub open spec fn outcome(
        self,
        strategy_derived: bool,
        now: i64,
        name: Option<Seq<char>>,
        description: Option<Seq<char>>,
        is_active: Option<bool>,
        after: UpdateStrategy,
        r: Result<StrategyUpdated, VaultError>,
    ) -> bool {
        match self.refusal(strategy_derived) {
            Some(e) => r == Err::<StrategyUpdated, VaultError>(e) && after == self,
            None => match updated(self.strategy@, name, description, is_active) {
                Err(e) => r == Err::<StrategyUpdated, VaultError>(e) && after == self,
                Ok(v) => {
                    &&& r == Ok::<StrategyUpdated, VaultError>(
                        StrategyUpdated {
                            strategy: self.strategy_key,
                            trader: self.strategy.trader,
                            timestamp: now,
                        },
                    )
                    &&& after.strategy@ == v
                    &&& after.program_id == self.program_id
                    &&& after.trader == self.trader
                    &&& after.strategy_key == self.strategy_key
                },
            },
        }
    }
}

/// Changes a strategy's parameters, given the address that the seeds of the
/// strategy derive.
pub fn update_strategy_given(
    ctx: &mut UpdateStrategy,
    strategy_address: Option<Address>,
    now: i64,
    name: Option<String>,
    description: Option<String>,
    is_active: Option<bool>,
) -> (r: Result<StrategyUpdated, VaultError>)
    ensures
        old(ctx).outcome(
            yields(strategy_address, old(ctx).strategy_key),
            now,
            text_of(name),
            text_of(description),
            is_active,
            *final(ctx),
            r,
        ),
        old(ctx).strategy@.well_formed() ==> final(ctx).strategy@.well_formed(),
{
    if !sits_at(strategy_address, &ctx.strategy_key) {
        return Err(VaultError::InvalidDerivedAddress);
    }
    if !ctx.strategy.trader.same(&ctx.trader) {
        return Err(VaultError::Unauthorized);
    }
    let trader: Address = ctx.strategy.trader;
    match ctx.strategy.update(name, description, is_active) {
        Ok(()) => Ok(StrategyUpdated { strategy: ctx.strategy_key, trader, timestamp: now }),
        Err(e) => Err(e),
    }
}

/// Changes the name, the description and the active flag of the signing
/// trader's strategy, each where one is given; a field that is absent is left
/// untouched.
pub fn update_strategy(
    ctx: &mut UpdateStrategy,
    now: i64,
    name: Option<String>,
    description: Option<String>,
    is_active: Option<bool>,
) -> (r: Result<StrategyUpdated, VaultError>)
    ensures
        old(ctx).outcome(
            old(ctx).strategy_derived(),
            now,
            text_of(name),
            text_of(description),
            is_active,
            *final(ctx),
            r,
        ),
        old(ctx).strategy@.well_formed() ==> final(ctx).strategy@.well_formed(),
{
    let strategy_address = derive_strategy_address(
        &ctx.program_id,
        &ctx.trader,
        ctx.strategy.bump,
    );
    update_strategy_given(ctx, strategy_address, now, name, description, is_active)
}

} // verus!
