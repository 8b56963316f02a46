use vault::privacy_payments::{
    deposit_confidential, withdraw_confidential, DepositConfidential, PrivacyError,
    TransferChecked, WithdrawConfidential,
};
use vault::state::stored_len;
use vault::trading::magnitude_of;
use vault::{
    execute_trade_given, initialize_strategy_given, performance_fee, settle_fees_given,
    subscribe_to_strategy_given, unsubscribe_given, update_strategy_given, Address, ErrorKind,
    ExecuteTrade, InitializeStrategy, SettleFees, Strategy, SubscribeToStrategy, Unsubscribe,
    UpdateStrategy, UserPosition, VaultError, BASIS_POINTS_DIVISOR, MAX_DESCRIPTION_LENGTH,
    MAX_FEE_BPS, MAX_NAME_LENGTH,
};

fn addr(b: u8) -> Address {
    Address::new([b; 32])
}

fn strategy() -> Strategy {
    Strategy::create(addr(1), "Momentum".to_string(), "Follows trends".to_string(), 1000, 5, 250)
        .unwrap()
}

fn position(s: &mut Strategy) -> UserPosition {
    UserPosition::open(s, addr(2), addr(10), 1_000_000_000, 6, 251).unwrap()
}

#[test]
fn performance_fee_of_a_million_at_a_tenth() {
    assert_eq!(performance_fee(1_000_000, 1000), Some(100_000));
}

#[test]
fn performance_fee_rounds_down() {
    assert_eq!(performance_fee(9_999, 1), Some(0));
    assert_eq!(performance_fee(10_000, 1), Some(1));
    assert_eq!(performance_fee(19_999, 1), Some(1));
    assert_eq!(performance_fee(3, 3333), Some(0));
    assert_eq!(performance_fee(4, 3333), Some(1));
    assert_eq!(performance_fee(0, 5000), Some(0));
    assert_eq!(performance_fee(1, 10_000), Some(1));
}

#[test]
fn performance_fee_uses_a_wide_product() {
    assert_eq!(performance_fee(u64::MAX, 5000), Some(u64::MAX / 2));
    assert_eq!(performance_fee(u64::MAX, 10_000), Some(u64::MAX));
    assert_eq!(performance_fee(u64::MAX, 10_001), None);
    assert_eq!(performance_fee(u64::MAX, u16::MAX), None);
    assert_eq!(performance_fee(1u64 << 63, 20_000), None);
    assert_eq!(performance_fee((1u64 << 63) - 1, 20_000), Some(u64::MAX - 1));
}

#[test]
fn constants_have_their_values() {
    assert_eq!(MAX_NAME_LENGTH, 50);
    assert_eq!(MAX_DESCRIPTION_LENGTH, 500);
    assert_eq!(MAX_FEE_BPS, 5000);
    assert_eq!(BASIS_POINTS_DIVISOR, 10_000);
    assert_eq!(Strategy::LEN, 630);
    assert_eq!(UserPosition::LEN, 114);
}

#[test]
fn magnitude_of_every_sign() {
    assert_eq!(magnitude_of(0), 0);
    assert_eq!(magnitude_of(17), 17);
    assert_eq!(magnitude_of(-17), 17);
    assert_eq!(magnitude_of(-1), 1);
    assert_eq!(magnitude_of(i64::MAX), i64::MAX as u64);
    assert_eq!(magnitude_of(i64::MIN), 1u64 << 63);
    assert_eq!(magnitude_of(i64::MIN + 1), i64::MAX as u64);
}

#[test]
fn stored_len_counts_bytes() {
    assert_eq!(stored_len(&String::new()), 0);
    assert_eq!(stored_len(&"abc".to_string()), 3);
    assert_eq!(stored_len(&"\u{20ac}".to_string()), 3);
    assert_eq!(stored_len(&"\u{1f600}a".to_string()), 5);
}

#[test]
fn error_kinds() {
    assert_eq!(VaultError::NameTooLong.kind(), ErrorKind::Validation);
    assert_eq!(VaultError::DescriptionTooLong.kind(), ErrorKind::Validation);
    assert_eq!(VaultError::FeeTooHigh.kind(), ErrorKind::Validation);
    assert_eq!(VaultError::InsufficientDeposit.kind(), ErrorKind::Validation);
    assert_eq!(VaultError::StrategyInactive.kind(), ErrorKind::State);
    assert_eq!(VaultError::PositionInactive.kind(), ErrorKind::State);
    assert_eq!(VaultError::NoProfitToSettle.kind(), ErrorKind::State);
    assert_eq!(VaultError::FeeAmountTooSmall.kind(), ErrorKind::State);
    assert_eq!(VaultError::InsufficientBalance.kind(), ErrorKind::Arithmetic);
    assert_eq!(VaultError::MathOverflow.kind(), ErrorKind::Arithmetic);
    assert_eq!(VaultError::InvalidDerivedAddress.kind(), ErrorKind::Authorization);
    assert_eq!(VaultError::Unauthorized.kind(), ErrorKind::Authorization);
}

#[test]
fn error_messages() {
    assert_eq!(VaultError::NameTooLong.message(), "Strategy name is too long (max 50 characters)");
    assert_eq!(
        VaultError::DescriptionTooLong.message(),
        "Description is too long (max 500 characters)"
    );
    assert_eq!(VaultError::FeeTooHigh.message(), "Performance fee is too high (max 50%)");
    assert_eq!(VaultError::StrategyInactive.message(), "Strategy is not active");
    assert_eq!(
        VaultError::InsufficientDeposit.message(),
        "Insufficient deposit amount (minimum 1 SOL)"
    );
    assert_eq!(VaultError::PositionInactive.message(), "Position is not active");
    assert_eq!(VaultError::InsufficientBalance.message(), "Insufficient balance for operation");
    assert_eq!(VaultError::NoProfitToSettle.message(), "No profit available to settle fees");
    assert_eq!(VaultError::FeeAmountTooSmall.message(), "Fee amount too small");
    assert_eq!(VaultError::MathOverflow.message(), "Math operation overflow");
    assert_eq!(PrivacyError::InvalidAmount.message(), "Invalid amount");
    assert_eq!(PrivacyError::InsufficientBalance.message(), "Insufficient balance");
    assert_eq!(PrivacyError::InvalidProof.message(), "Invalid encryption proof");
    assert_eq!(PrivacyError::UnauthorizedAuditor.message(), "Unauthorized auditor");
}

#[test]
fn create_checks_name_then_description_then_fee() {
    let r = Strategy::create(addr(1), "n".repeat(51), "d".repeat(501), 5001, 0, 0);
    assert_eq!(r.unwrap_err(), VaultError::NameTooLong);
    let r = Strategy::create(addr(1), "n".repeat(50), "d".repeat(501), 5001, 0, 0);
    assert_eq!(r.unwrap_err(), VaultError::DescriptionTooLong);
    let r = Strategy::create(addr(1), "n".repeat(50), "d".repeat(500), 5001, 0, 0);
    assert_eq!(r.unwrap_err(), VaultError::FeeTooHigh);
    let r = Strategy::create(addr(1), "n".repeat(50), "d".repeat(500), 5000, -3, 9).unwrap();
    assert_eq!(r.created_at, -3);
    assert_eq!(r.bump, 9);
    assert_eq!(r.trader, addr(1));
    assert!(r.is_active);
}

#[test]
fn update_validates_before_it_writes() {
    let mut s = strategy();
    let before = s.clone();
    let r = s.update(Some("fine".to_string()), Some("d".repeat(501)), Some(false));
    assert_eq!(r.unwrap_err(), VaultError::DescriptionTooLong);
    assert_eq!(s, before);
    s.update(Some("fine".to_string()), None, Some(false)).unwrap();
    assert_eq!(s.name, "fine");
    assert_eq!(s.description, "Follows trends");
    assert!(!s.is_active);
}

#[test]
fn core_cycle_of_a_position() {
    let mut s = strategy();
    let mut p = position(&mut s);
    assert_eq!(s.total_subscribers, 1);
    p.record_trade(&mut s, 40, 1_000_000).unwrap();
    assert_eq!(p.current_balance, 1_001_000_000);
    assert_eq!(p.settle(&mut s, 9), Ok(100_000));
    assert_eq!(p.initial_balance, 1_000_900_000);
    assert_eq!(p.settle(&mut s, 10), Err(VaultError::NoProfitToSettle));
    p.record_trade(&mut s, 2, -900_000).unwrap();
    assert_eq!(p.settle(&mut s, 11), Err(VaultError::NoProfitToSettle));
    assert_eq!(p.close(&mut s), Ok(1_000_000_000));
    assert_eq!(p.close(&mut s), Err(VaultError::PositionInactive));
    assert_eq!(s.total_subscribers, 0);
    assert_eq!(s.total_volume_traded, 42);
    assert_eq!(s.total_fees_earned, 100_000);
    assert_eq!(p.total_fees_paid, 100_000);
}

#[test]
fn given_functions_follow_what_was_derived() {
    let ctx = InitializeStrategy { program_id: addr(7), trader: addr(1), strategy_key: addr(10) };
    let r = initialize_strategy_given(&ctx, None, 0, "n".to_string(), "d".to_string(), 10);
    assert_eq!(r.unwrap_err(), VaultError::InvalidDerivedAddress);
    let r = initialize_strategy_given(
        &ctx,
        Some((addr(11), 3)),
        0,
        "n".to_string(),
        "d".to_string(),
        10,
    );
    assert_eq!(r.unwrap_err(), VaultError::InvalidDerivedAddress);
    let (s, ev) = initialize_strategy_given(
        &ctx,
        Some((addr(10), 3)),
        0,
        "n".to_string(),
        "d".to_string(),
        10,
    )
    .unwrap();
    assert_eq!(s.bump, 3);
    assert_eq!(ev.strategy, addr(10));

    let mut update = UpdateStrategy {
        program_id: addr(7),
        trader: addr(1),
        strategy_key: addr(10),
        strategy: s.clone(),
    };
    let r = update_strategy_given(&mut update, Some(addr(12)), 0, None, None, Some(false));
    assert_eq!(r.unwrap_err(), VaultError::InvalidDerivedAddress);
    assert!(update.strategy.is_active);
    update_strategy_given(&mut update, Some(addr(10)), 0, None, None, Some(false)).unwrap();
    assert!(!update.strategy.is_active);

    let mut subscribe = SubscribeToStrategy {
        program_id: addr(7),
        user: addr(2),
        strategy_key: addr(10),
        strategy: s.clone(),
        position_key: addr(20),
    };
    let r = subscribe_to_strategy_given(
        &mut subscribe,
        Some((addr(20), 8)),
        None,
        1,
        2_000_000_000,
    );
    assert_eq!(r.unwrap_err(), VaultError::InvalidDerivedAddress);
    let r = subscribe_to_strategy_given(
        &mut subscribe,
        Some((addr(21), 8)),
        Some(addr(10)),
        1,
        2_000_000_000,
    );
    assert_eq!(r.unwrap_err(), VaultError::InvalidDerivedAddress);
    let (p, deposit, _) = subscribe_to_strategy_given(
        &mut subscribe,
        Some((addr(20), 8)),
        Some(addr(10)),
        1,
        2_000_000_000,
    )
    .unwrap();
    assert_eq!(p.bump, 8);
    assert_eq!(deposit.amount, 2_000_000_000);

    let mut trade = ExecuteTrade {
        program_id: addr(7),
        trader: addr(1),
        strategy_key: addr(10),
        strategy: subscribe.strategy.clone(),
        position_key: addr(20),
        position: p,
    };
    let r = execute_trade_given(&mut trade, Some(addr(10)), None, 2, 5, 1_000_000);
    assert_eq!(r.unwrap_err(), VaultError::InvalidDerivedAddress);
    let ev = execute_trade_given(&mut trade, Some(addr(10)), Some(addr(20)), 2, 5, 1_000_000)
        .unwrap();
    assert_eq!(ev.new_balance, 2_001_000_000);

    let mut settle = SettleFees {
        program_id: addr(7),
        user: addr(2),
        trader: addr(1),
        strategy_key: addr(10),
        strategy: trade.strategy.clone(),
        position_key: addr(20),
        position: trade.position,
    };
    let r = settle_fees_given(&mut settle, None, Some(addr(20)), 3);
    assert_eq!(r.unwrap_err(), VaultError::InvalidDerivedAddress);
    let (payout, _) = settle_fees_given(&mut settle, Some(addr(10)), Some(addr(20)), 3).unwrap();
    assert_eq!(payout.amount, 1_000);

    let mut exit = Unsubscribe {
        program_id: addr(7),
        user: addr(2),
        strategy_key: addr(10),
        strategy: settle.strategy.clone(),
        position_key: addr(20),
        position: settle.position,
    };
    let r = unsubscribe_given(&mut exit, Some(addr(10)), Some(addr(10)), 4);
    assert_eq!(r.unwrap_err(), VaultError::InvalidDerivedAddress);
    let (payout, _) = unsubscribe_given(&mut exit, Some(addr(10)), Some(addr(20)), 4).unwrap();
    assert_eq!(payout.amount, 2_000_999_000);
}

#[test]
fn confidential_deposit_and_withdrawal() {
    let deposit = DepositConfidential {
        authority: addr(1),
        source_account: addr(2),
        confidential_account: addr(3),
        mint: addr(4),
        decimals: 6,
    };
    assert_eq!(deposit_confidential(&deposit, 0), Err(PrivacyError::InvalidAmount));
    assert_eq!(
        deposit_confidential(&deposit, 1),
        Ok(TransferChecked {
            from: addr(2),
            mint: addr(4),
            to: addr(3),
            authority: addr(1),
            amount: 1,
            decimals: 6,
        })
    );
    let withdrawal = WithdrawConfidential {
        authority: addr(1),
        confidential_account: addr(3),
        destination_account: addr(2),
        mint: addr(4),
        decimals: 6,
    };
    assert_eq!(withdraw_confidential(&withdrawal, 0), Err(PrivacyError::InvalidAmount));
    assert_eq!(
        withdraw_confidential(&withdrawal, u64::MAX),
        Ok(TransferChecked {
            from: addr(3),
            mint: addr(4),
            to: addr(2),
            authority: addr(1),
            amount: u64::MAX,
            decimals: 6,
        })
    );
}
