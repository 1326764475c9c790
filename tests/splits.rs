use soundmint::{Address, Collaborator, CustomError, Registry, RoyaltySplit};

fn addr(n: u8) -> Address {
    Address::new([n; 32])
}

fn member(n: u8, share: u16) -> Collaborator {
    Collaborator {
        address: addr(n),
        name: format!("member {}", n),
        share_basis_points: share,
        amount_claimed: 0,
    }
}

#[test]
fn split_with_full_shares_is_created() {
    let split = RoyaltySplit::create(addr(100), vec![member(1, 2500), member(2, 7500)], 42).unwrap();
    let sum: u32 = split.collaborators.iter().map(|c| c.share_basis_points as u32).sum();
    assert_eq!(sum, 10000);
    assert_eq!(split.total_basis_points, 10000);
    assert_eq!(split.total_revenue_collected, 0);
    assert_eq!(split.created_at, 42);
    assert_eq!(split.last_revenue_timestamp, 0);
    assert_eq!(split.master_nft, addr(100));
    assert!(split.grants.is_empty());
}

#[test]
fn split_with_shares_short_of_full_is_rejected() {
    let r = RoyaltySplit::create(addr(100), vec![member(1, 2500), member(2, 7499)], 0);
    assert_eq!(r.unwrap_err(), CustomError::InvalidRoyaltyShares);
}

#[test]
fn split_with_shares_above_full_is_rejected() {
    let r = RoyaltySplit::create(addr(100), vec![member(1, 5000), member(2, 5001)], 0);
    assert_eq!(r.unwrap_err(), CustomError::InvalidRoyaltyShares);
    // shares whose u16 sum would wrap around are rejected too
    let r = RoyaltySplit::create(
        addr(100),
        vec![member(1, 65535), member(2, 10001)],
        0,
    );
    assert_eq!(r.unwrap_err(), CustomError::InvalidRoyaltyShares);
}

#[test]
fn empty_split_is_rejected() {
    assert_eq!(
        RoyaltySplit::create(addr(100), vec![], 0).unwrap_err(),
        CustomError::InvalidRoyaltySplit
    );
}

#[test]
fn split_with_ten_collaborators_is_accepted_and_eleven_rejected() {
    let ten: Vec<Collaborator> = (1..=10).map(|n| member(n, 1000)).collect();
    assert!(RoyaltySplit::create(addr(100), ten, 0).is_ok());
    let mut eleven: Vec<Collaborator> = (1..=10).map(|n| member(n, 909)).collect();
    eleven.push(member(11, 910));
    assert_eq!(
        RoyaltySplit::create(addr(100), eleven, 0).unwrap_err(),
        CustomError::TooManyCollaborators
    );
}

#[test]
fn zero_share_is_rejected() {
    let r = RoyaltySplit::create(addr(100), vec![member(1, 0), member(2, 10000)], 0);
    assert_eq!(r.unwrap_err(), CustomError::InvalidRoyaltyShares);
}

#[test]
fn long_name_is_rejected_and_fifty_bytes_accepted() {
    let mut long = member(1, 10000);
    long.name = "x".repeat(51);
    assert_eq!(
        RoyaltySplit::create(addr(100), vec![long], 0).unwrap_err(),
        CustomError::StringTooLong
    );
    let mut exact = member(1, 10000);
    exact.name = "x".repeat(50);
    assert!(RoyaltySplit::create(addr(100), vec![exact], 0).is_ok());
    // the bound counts bytes: 26 two-byte characters are 52 bytes
    let mut wide = member(1, 10000);
    wide.name = "é".repeat(26);
    assert_eq!(
        RoyaltySplit::create(addr(100), vec![wide], 0).unwrap_err(),
        CustomError::StringTooLong
    );
}

#[test]
fn first_entry_error_wins() {
    let mut long = member(2, 5000);
    long.name = "y".repeat(60);
    let r = RoyaltySplit::create(addr(100), vec![member(1, 0), long], 0);
    assert_eq!(r.unwrap_err(), CustomError::InvalidRoyaltyShares);
}

#[test]
fn second_split_for_a_work_is_rejected() {
    let mut registry = Registry::new();
    registry.create_royalty_split(addr(100), vec![member(1, 10000)], 1).unwrap();
    assert_eq!(
        registry.create_royalty_split(addr(100), vec![member(2, 10000)], 2),
        Err(CustomError::AlreadyExists)
    );
    let split = registry.split(&addr(100)).unwrap();
    assert_eq!(split.collaborators[0].address, addr(1));
    assert_eq!(split.created_at, 1);
    assert!(registry.create_royalty_split(addr(101), vec![member(2, 10000)], 2).is_ok());
    assert_eq!(registry.works.len(), 2);
}

#[test]
fn invalid_split_leaves_registry_unchanged() {
    let mut registry = Registry::new();
    assert_eq!(
        registry.create_royalty_split(addr(100), vec![member(1, 9000)], 1),
        Err(CustomError::InvalidRoyaltyShares)
    );
    assert!(registry.split(&addr(100)).is_none());
    assert!(registry.works.is_empty());
}

#[test]
fn tokens_are_issued_within_the_holders_allocation() {
    let mut registry = Registry::new();
    registry
        .create_royalty_split(addr(100), vec![member(1, 3000), member(2, 5000), member(1, 2000)], 1)
        .unwrap();
    let split = registry.split(&addr(100)).unwrap();
    assert_eq!(split.allocated_share(&addr(1)), 5000);
    assert_eq!(split.allocated_share(&addr(2)), 5000);
    assert_eq!(split.allocated_share(&addr(3)), 0);

    let token = registry.mint_royalty_nft(&addr(100), addr(1), addr(60), 4000, 7).unwrap();
    assert_eq!(token.master_nft, addr(100));
    assert_eq!(token.mint, addr(60));
    assert_eq!(token.share_basis_points, 4000);
    assert_eq!(token.amount_claimed, 0);
    assert_eq!(token.last_claimed_at, 0);
    assert_eq!(token.created_at, 7);

    // 4000 issued of 5000: another 1001 is too much, 1000 fits
    assert_eq!(
        registry.mint_royalty_nft(&addr(100), addr(1), addr(61), 1001, 8).unwrap_err(),
        CustomError::InvalidRoyaltyShares
    );
    assert!(registry.mint_royalty_nft(&addr(100), addr(1), addr(61), 1000, 8).is_ok());
    assert_eq!(registry.split(&addr(100)).unwrap().granted_share(&addr(1)), 5000);
    assert_eq!(registry.split(&addr(100)).unwrap().grants.len(), 2);
}

#[test]
fn token_for_a_stranger_or_unknown_work_is_refused() {
    let mut registry = Registry::new();
    registry.create_royalty_split(addr(100), vec![member(1, 10000)], 1).unwrap();
    assert_eq!(
        registry.mint_royalty_nft(&addr(100), addr(9), addr(60), 1, 2).unwrap_err(),
        CustomError::InvalidRoyaltyShares
    );
    assert_eq!(
        registry.mint_royalty_nft(&addr(101), addr(1), addr(60), 1, 2).unwrap_err(),
        CustomError::RoyaltySplitNotFound
    );
    assert!(registry.split(&addr(100)).unwrap().grants.is_empty());
}
