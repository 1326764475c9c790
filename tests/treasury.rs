use soundmint::{Address, CustomError, Treasury};

fn addr(n: u8) -> Address {
    Address::new([n; 32])
}

#[test]
fn initialize_sets_defaults() {
    let t = Treasury::initialize(addr(1), addr(2), 77);
    assert_eq!(t.authority, addr(1));
    assert_eq!(t.treasury_wallet, addr(2));
    assert_eq!(t.streaming_provider, addr(1));
    assert_eq!(t.mint_fee, 10_000_000);
    assert_eq!(t.platform_fee_basis_points, 500);
    assert_eq!(t.total_revenue_collected, 0);
    assert_eq!(t.created_at, 77);
    assert_eq!(t.updated_at, 77);
}

#[test]
fn authority_updates_given_fields_only() {
    let mut t = Treasury::initialize(addr(1), addr(2), 0);
    t.update_treasury_config(addr(1), None, Some(10000), Some(addr(3)), 5).unwrap();
    assert_eq!(t.platform_fee_basis_points, 10000);
    assert_eq!(t.treasury_wallet, addr(3));
    assert_eq!(t.mint_fee, 10_000_000);
    assert_eq!(t.updated_at, 5);
    t.update_treasury_config(addr(1), Some(3), None, None, 6).unwrap();
    assert_eq!(t.mint_fee, 3);
    assert_eq!(t.platform_fee_basis_points, 10000);
}

#[test]
fn stranger_cannot_update() {
    let mut t = Treasury::initialize(addr(1), addr(2), 0);
    assert_eq!(
        t.update_treasury_config(addr(4), Some(1), Some(1), None, 5),
        Err(CustomError::Unauthorized)
    );
    assert_eq!(t.mint_fee, 10_000_000);
    assert_eq!(t.updated_at, 0);
    assert_eq!(t.update_streaming_provider(addr(4), addr(4), 5), Err(CustomError::Unauthorized));
    assert_eq!(t.streaming_provider, addr(1));
}

#[test]
fn fee_above_full_is_rejected_without_change() {
    let mut t = Treasury::initialize(addr(1), addr(2), 0);
    assert_eq!(
        t.update_treasury_config(addr(1), Some(5), Some(10001), Some(addr(3)), 5),
        Err(CustomError::InvalidFeePercentage)
    );
    assert_eq!(t.mint_fee, 10_000_000);
    assert_eq!(t.platform_fee_basis_points, 500);
    assert_eq!(t.treasury_wallet, addr(2));
}

#[test]
fn authority_sets_streaming_provider() {
    let mut t = Treasury::initialize(addr(1), addr(2), 0);
    t.update_streaming_provider(addr(1), addr(6), 3).unwrap();
    assert_eq!(t.streaming_provider, addr(6));
    assert_eq!(t.updated_at, 3);
}

#[test]
fn withdrawal_checks_in_order() {
    let t = Treasury::initialize(addr(1), addr(2), 0);
    assert_eq!(t.withdraw_treasury_funds(addr(4), addr(5), 0, 0).unwrap_err(), CustomError::InvalidAmount);
    assert_eq!(t.withdraw_treasury_funds(addr(4), addr(5), 0, 10).unwrap_err(), CustomError::Unauthorized);
    assert_eq!(
        t.withdraw_treasury_funds(addr(1), addr(5), 0, 10).unwrap_err(),
        CustomError::InvalidTreasuryWallet
    );
    assert_eq!(
        t.withdraw_treasury_funds(addr(1), addr(2), 9, 10).unwrap_err(),
        CustomError::InsufficientFunds
    );
    let w = t.withdraw_treasury_funds(addr(1), addr(2), 10, 10).unwrap();
    assert_eq!(w.to, addr(2));
    assert_eq!(w.amount, 10);
}

#[test]
fn addresses_compare_by_bytes() {
    let mut bytes = [3u8; 32];
    assert_eq!(Address::new(bytes), addr(3));
    bytes[31] = 4;
    assert_ne!(Address::new(bytes), addr(3));
}
