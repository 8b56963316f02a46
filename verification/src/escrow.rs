//! The escrow transfer authority.
//!
//! Strategies and positions live at addresses that have no private key: each is
//! derived from a fixed tag and the identities it belongs to, together with a
//! bump byte found at creation and stored on the account. Value leaves an escrow
//! account only when the same seed tuple and bump are presented again, so the
//! functions here that rebuild the tuple are the only road out of escrow.

use vstd::prelude::*;
use vstd::utf8::{encode_utf8, is_ascii_chars_encode_utf8};
use anchor_lang::prelude::Pubkey;
use crate::address::Address;

verus! {

/// The address that `Pubkey::create_program_address` derives for a program from
/// a seed tuple, or `None` where it derives none.
pub uninterp spec fn program_address(seeds: Seq<Seq<u8>>, program_id: Seq<u8>) -> Option<Seq<u8>>;

/// The address and bump that `Pubkey::try_find_program_address` finds for a
/// program and a seed tuple, or `None` where it finds none.
pub uninterp spec fn canonical_program_address(seeds: Seq<Seq<u8>>, program_id: Seq<u8>) -> Option<
    (Seq<u8>, u8),
>;

/// The tag that opens the seed tuple of a strategy: the bytes of `strategy`.
pub open spec fn strategy_tag() -> Seq<u8> {
    seq![115u8, 116u8, 114u8, 97u8, 116u8, 101u8, 103u8, 121u8]
}

/// The tag that opens the seed tuple of a position: the bytes of `position`.
pub open spec fn position_tag() -> Seq<u8> {
    seq![112u8, 111u8, 115u8, 105u8, 116u8, 105u8, 111u8, 110u8]
}

/// The tags are the bytes of the words they are named after.
pub proof fn lemma_tags_spell_their_words()
    ensures
        strategy_tag() == encode_utf8("strategy"@),
        position_tag() == encode_utf8("position"@),
{
    reveal_strlit("strategy");
    reveal_strlit("position");
    is_ascii_chars_encode_utf8("strategy"@);
    is_ascii_chars_encode_utf8("position"@);
    assert(strategy_tag() =~= encode_utf8("strategy"@));
    assert(position_tag() =~= encode_utf8("position"@));
}

/// The seeds of a trader's strategy: the tag and the trader's identity.
pub open spec fn strategy_seeds(trader: Seq<u8>) -> Seq<Seq<u8>> {
    seq![strategy_tag(), trader]
}

/// The seeds of a subscriber's position under a strategy: the tag, the
/// subscriber's identity and the strategy's address.
pub open spec fn position_seeds(user: Seq<u8>, strategy: Seq<u8>) -> Seq<Seq<u8>> {
    seq![position_tag(), user, strategy]
}

/// A seed tuple closed by its bump byte, as it is presented to sign for an
/// escrow account.
pub open spec fn with_bump(seeds: Seq<Seq<u8>>, bump: u8) -> Seq<Seq<u8>> {
    seeds.push(seq![bump])
}

/// Whether `key` is the address that the seeds and bump derive for the program.
pub open spec fn derives(seeds: Seq<Seq<u8>>, bump: u8, program_id: Seq<u8>, key: Seq<u8>) -> bool {
    program_address(with_bump(seeds, bump), program_id) == Some(key)
}

/// What a search found, as a mathematical value.
pub open spec fn found_view(found: Option<(Address, u8)>) -> Option<(Seq<u8>, u8)> {
    match found {
        Some((a, bump)) => Some((a@, bump)),
        None => None,
    }
}

/// The bump to store on an account about to be created at `key`: the one that
/// the search found, where it found `key`.
pub open spec fn bump_for(found: Option<(Seq<u8>, u8)>, key: Seq<u8>) -> Option<u8> {
    match found {
        Some((a, bump)) => if a == key {
            Some(bump)
        } else {
            None
        },
        None => None,
    }
}

/// Whether a derivation yielded the address `key`.
pub open spec fn yields(derived: Option<Address>, key: Address) -> bool {
    derived matches Some(a) && a@ == key@
}

/// Calls `Pubkey::create_program_address` on the seeds and the program's
/// address. The contract names the outcome `program_address`; every failure of
/// the derivation (a seed that is too long, too many seeds, a hash that lies on
/// the curve) is reported as `None`.
#[verifier::external_body]
fn create_program_address(seeds: &Vec<Vec<u8>>, program_id: &Address) -> (r: Option<Address>)
    ensures
        match r {
            Some(a) => program_address(seeds.deep_view(), program_id@) == Some(a@),
            None => program_address(seeds.deep_view(), program_id@) is None,
        },
{
    let parts: Vec<&[u8]> = seeds.iter().map(|s| s.as_slice()).collect();
    match Pubkey::create_program_address(&parts, &Pubkey::new_from_array(program_id.bytes)) {
        Ok(key) => Some(Address { bytes: key.to_bytes() }),
        Err(_) => None,
    }
}

/// Calls `Pubkey::try_find_program_address` on the seeds and the program's
/// address. The contract names the outcome `canonical_program_address`, and
/// records what the search guarantees of an address it returns: the seeds closed
/// by the returned bump derive that very address.
#[verifier::external_body]
fn try_find_program_address(seeds: &Vec<Vec<u8>>, program_id: &Address) -> (r: Option<
    (Address, u8),
>)
    ensures
        match r {
            Some((a, bump)) => canonical_program_address(seeds.deep_view(), program_id@) == Some(
                (a@, bump),
            ) && derives(seeds.deep_view(), bump, program_id@, a@),
            None => canonical_program_address(seeds.deep_view(), program_id@) is None,
        },
{
    let parts: Vec<&[u8]> = seeds.iter().map(|s| s.as_slice()).collect();
    match Pubkey::try_find_program_address(&parts, &Pubkey::new_from_array(program_id.bytes)) {
        Some((key, bump)) => Some((Address { bytes: key.to_bytes() }, bump)),
        None => None,
    }
}

/// What a derivation yields for an account that was presented at `key`: whether
/// it derived an address at all, and that address is `key`.
pub fn sits_at(derived: Option<Address>, key: &Address) -> (r: bool)
    ensures
        r == yields(derived, *key),
{
    match derived {
        Some(a) => a.same(key),
        None => false,
    }
}

/// What a search yields for an account about to be created at `key`: the bump
/// to store on it, where the search found an address and that address is `key`.
pub fn bump_at(found: Option<(Address, u8)>, key: &Address) -> (r: Option<u8>)
    ensures
        r == bump_for(found_view(found), key@),
{
    match found {
        Some((a, bump)) => if a.same(key) {
            Some(bump)
        } else {
            None
        },
        None => None,
    }
}

/// The seed tuple of a trader's strategy.
pub fn strategy_seed_tuple(trader: &Address) -> (r: Vec<Vec<u8>>)
    ensures
        r.deep_view() == strategy_seeds(trader@),
{
    let tag: Vec<u8> = vec![115u8, 116u8, 114u8, 97u8, 116u8, 101u8, 103u8, 121u8];
    let who: Vec<u8> = trader.to_vec();
    let mut out: Vec<Vec<u8>> = Vec::new();
    out.push(tag);
    out.push(who);
    assert(out.deep_view() =~~= strategy_seeds(trader@));
    out
}

/// The seed tuple of a subscriber's position under a strategy.
pub fn position_seed_tuple(user: &Address, strategy: &Address) -> (r: Vec<Vec<u8>>)
    ensures
        r.deep_view() == position_seeds(user@, strategy@),
{
    let tag: Vec<u8> = vec![112u8, 111u8, 115u8, 105u8, 116u8, 105u8, 111u8, 110u8];
    let who: Vec<u8> = user.to_vec();
    let under: Vec<u8> = strategy.to_vec();
    let mut out: Vec<Vec<u8>> = Vec::new();
    out.push(tag);
    out.push(who);
    out.push(under);
    assert(out.deep_view() =~~= position_seeds(user@, strategy@));
    out
}

/// Closes a seed tuple with its bump byte.
pub fn close_with_bump(seeds: Vec<Vec<u8>>, bump: u8) -> (r: Vec<Vec<u8>>)
    ensures
        r.deep_view() == with_bump(seeds.deep_view(), bump),
{
    let mut out = seeds;
    let last: Vec<u8> = vec![bump];
    out.push(last);
    assert(out.deep_view() =~~= with_bump(seeds.deep_view(), bump));
    out
}

/// The seeds that sign for a strategy's account: its seed tuple and bump.
pub fn strategy_signer_seeds(trader: &Address, bump: u8) -> (r: Vec<Vec<u8>>)
    ensures
        r.deep_view() == with_bump(strategy_seeds(trader@), bump),
{
    close_with_bump(strategy_seed_tuple(trader), bump)
}

/// The seeds that sign for a position's escrow account: its seed tuple and bump.
pub fn position_signer_seeds(user: &Address, strategy: &Address, bump: u8) -> (r: Vec<Vec<u8>>)
    ensures
        r.deep_view() == with_bump(position_seeds(user@, strategy@), bump),
{
    close_with_bump(position_seed_tuple(user, strategy), bump)
}

/// Finds the address and bump of the strategy that a trader may create.
pub fn find_strategy_address(program_id: &Address, trader: &Address) -> (r: Option<(Address, u8)>)
    ensures
        match r {
            Some((a, bump)) => canonical_program_address(strategy_seeds(trader@), program_id@)
                == Some((a@, bump)) && derives(strategy_seeds(trader@), bump, program_id@, a@),
            None => canonical_program_address(strategy_seeds(trader@), program_id@) is None,
        },
{
    let seeds = strategy_seed_tuple(trader);
    try_find_program_address(&seeds, program_id)
}

/// Finds the address and bump of the position that a subscriber may open under
/// a strategy.
pub fn find_position_address(program_id: &Address, user: &Address, strategy: &Address) -> (r:
    Option<(Address, u8)>)
    ensures
        match r {
            Some((a, bump)) => canonical_program_address(
                position_seeds(user@, strategy@),
                program_id@,
            ) == Some((a@, bump)) && derives(
                position_seeds(user@, strategy@),
                bump,
                program_id@,
                a@,
            ),
            None => canonical_program_address(position_seeds(user@, strategy@), program_id@)
                is None,
        },
{
    let seeds = position_seed_tuple(user, strategy);
    try_find_program_address(&seeds, program_id)
}

/// The address that a trader's seeds and a stored bump derive for a strategy,
/// if they derive one.
pub fn derive_strategy_address(program_id: &Address, trader: &Address, bump: u8) -> (r: Option<
    Address,
>)
    ensures
        match r {
            Some(a) => program_address(with_bump(strategy_seeds(trader@), bump), program_id@)
                == Some(a@),
            None => program_address(with_bump(strategy_seeds(trader@), bump), program_id@)
                is None,
        },
{
    let seeds = strategy_signer_seeds(trader, bump);
    create_program_address(&seeds, program_id)
}

/// The address that a subscriber's and a strategy's seeds and a stored bump
/// derive for a position, if they derive one.
pub fn derive_position_address(
    program_id: &Address,
    user: &Address,
    strategy: &Address,
    bump: u8,
) -> (r: Option<Address>)
    ensures
        match r {
            Some(a) => program_address(
                with_bump(position_seeds(user@, strategy@), bump),
                program_id@,
            ) == Some(a@),
            None => program_address(
                with_bump(position_seeds(user@, strategy@), bump),
                program_id@,
            ) is None,
        },
{
    let seeds = position_signer_seeds(user, strategy, bump);
    create_program_address(&seeds, program_id)
}

} // verus!
