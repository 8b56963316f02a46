use anchor_lang::prelude::Pubkey;
use vault::escrow::{
    bump_at, close_with_bump, derive_position_address, derive_strategy_address,
    find_position_address, find_strategy_address, position_seed_tuple, position_signer_seeds,
    sits_at, strategy_seed_tuple, strategy_signer_seeds,
};
use vault::Address;

fn program() -> Address {
    Address::new([7u8; 32])
}

fn key_of(address: &Address) -> Pubkey {
    Pubkey::new_from_array(address.bytes)
}

#[test]
fn address_keeps_its_bytes() {
    let mut bytes = [0u8; 32];
    for (i, b) in bytes.iter_mut().enumerate() {
        *b = i as u8;
    }
    let a = Address::new(bytes);
    assert_eq!(a.bytes, bytes);
    assert_eq!(a.to_vec(), bytes.to_vec());
}

#[test]
fn same_compares_every_byte() {
    let a = Address::new([3u8; 32]);
    let mut other = [3u8; 32];
    assert!(a.same(&Address::new(other)));
    other[31] = 4;
    assert!(!a.same(&Address::new(other)));
    other[31] = 3;
    other[0] = 0;
    assert!(!a.same(&Address::new(other)));
}

#[test]
fn strategy_seeds_are_tag_and_trader() {
    let trader = Address::new([9u8; 32]);
    let seeds = strategy_seed_tuple(&trader);
    assert_eq!(seeds, vec![b"strategy".to_vec(), vec![9u8; 32]]);
}

#[test]
fn position_seeds_are_tag_user_and_strategy() {
    let user = Address::new([1u8; 32]);
    let strategy = Address::new([2u8; 32]);
    let seeds = position_seed_tuple(&user, &strategy);
    assert_eq!(seeds, vec![b"position".to_vec(), vec![1u8; 32], vec![2u8; 32]]);
}

#[test]
fn signer_seeds_end_with_the_bump() {
    let user = Address::new([1u8; 32]);
    let strategy = Address::new([2u8; 32]);
    assert_eq!(
        position_signer_seeds(&user, &strategy, 254),
        vec![b"position".to_vec(), vec![1u8; 32], vec![2u8; 32], vec![254u8]]
    );
    assert_eq!(
        strategy_signer_seeds(&user, 0),
        vec![b"strategy".to_vec(), vec![1u8; 32], vec![0u8]]
    );
    assert_eq!(close_with_bump(vec![vec![1u8, 2u8]], 5), vec![vec![1u8, 2u8], vec![5u8]]);
    assert_eq!(close_with_bump(Vec::new(), 5), vec![vec![5u8]]);
}

#[test]
fn found_strategy_address_is_the_program_derived_one() {
    let trader = Address::new([11u8; 32]);
    let (address, bump) = find_strategy_address(&program(), &trader).unwrap();
    let (expected, expected_bump) =
        Pubkey::find_program_address(&[b"strategy", &[11u8; 32]], &key_of(&program()));
    assert_eq!(address.bytes, expected.to_bytes());
    assert_eq!(bump, expected_bump);
    assert_ne!(address, trader);
    assert_ne!(address, program());
}

#[test]
fn found_position_address_is_the_program_derived_one() {
    let user = Address::new([21u8; 32]);
    let strategy = Address::new([22u8; 32]);
    let (address, bump) = find_position_address(&program(), &user, &strategy).unwrap();
    let (expected, expected_bump) = Pubkey::find_program_address(
        &[b"position", &[21u8; 32], &[22u8; 32]],
        &key_of(&program()),
    );
    assert_eq!(address.bytes, expected.to_bytes());
    assert_eq!(bump, expected_bump);
    assert_ne!(address, user);
    assert_ne!(address, strategy);
}

#[test]
fn derived_address_agrees_with_found_address() {
    let trader = Address::new([31u8; 32]);
    let (address, bump) = find_strategy_address(&program(), &trader).unwrap();
    assert_eq!(derive_strategy_address(&program(), &trader, bump), Some(address));
    let user = Address::new([32u8; 32]);
    let (position, position_bump) = find_position_address(&program(), &user, &address).unwrap();
    assert_eq!(
        derive_position_address(&program(), &user, &address, position_bump),
        Some(position)
    );
}

#[test]
fn derived_address_is_the_created_program_address() {
    let trader = Address::new([41u8; 32]);
    let mut seen_some = false;
    let mut seen_none = false;
    let mut bump = 255u8;
    loop {
        let expected = Pubkey::create_program_address(
            &[b"strategy", &[41u8; 32], &[bump]],
            &key_of(&program()),
        )
        .ok()
        .map(|k| Address::new(k.to_bytes()));
        assert_eq!(derive_strategy_address(&program(), &trader, bump), expected);
        match expected {
            Some(_) => seen_some = true,
            None => seen_none = true,
        }
        if bump == 200 {
            break;
        }
        bump -= 1;
    }
    assert!(seen_some);
    assert!(seen_none);
}

#[test]
fn different_traders_get_different_strategy_addresses() {
    let (a, _) = find_strategy_address(&program(), &Address::new([1u8; 32])).unwrap();
    let (b, _) = find_strategy_address(&program(), &Address::new([2u8; 32])).unwrap();
    let (again, _) = find_strategy_address(&program(), &Address::new([1u8; 32])).unwrap();
    assert_ne!(a, b);
    assert_eq!(a, again);
}

#[test]
fn different_programs_get_different_addresses() {
    let trader = Address::new([1u8; 32]);
    let (a, _) = find_strategy_address(&program(), &trader).unwrap();
    let (b, _) = find_strategy_address(&Address::new([8u8; 32]), &trader).unwrap();
    assert_ne!(a, b);
}

#[test]
fn sits_at_accepts_only_the_same_address() {
    let key = Address::new([5u8; 32]);
    assert!(sits_at(Some(key), &key));
    assert!(!sits_at(Some(Address::new([6u8; 32])), &key));
    assert!(!sits_at(None, &key));
}

#[test]
fn bump_at_gives_the_bump_only_at_the_found_address() {
    let key = Address::new([5u8; 32]);
    assert_eq!(bump_at(Some((key, 250)), &key), Some(250));
    assert_eq!(bump_at(Some((Address::new([6u8; 32]), 250)), &key), None);
    assert_eq!(bump_at(None, &key), None);
}
