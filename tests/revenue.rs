use soundmint::revenue_tracker::classify_source;
use soundmint::{Address, Collaborator, CustomError, Registry, RevenueSource, RevenueTracker};

fn addr(n: u8) -> Address {
    Address::new([n; 32])
}

fn registry_with_work(n: u8) -> Registry {
    let mut registry = Registry::new();
    registry
        .create_royalty_split(
            addr(n),
            vec![Collaborator {
                address: addr(1),
                name: "solo".to_string(),
                share_basis_points: 10000,
                amount_claimed: 0,
            }],
            1,
        )
        .unwrap();
    registry
}

fn record(registry: &mut Registry, amount: u64, source: &str, now: i64) -> Result<(), CustomError> {
    registry.track_revenue(&addr(100), amount, source.to_string(), "note".to_string(), now)
}

#[test]
fn streaming_then_sales_equals_sales_then_streaming() {
    let mut a = registry_with_work(100);
    record(&mut a, 30, "streaming", 5).unwrap();
    record(&mut a, 70, "sales", 6).unwrap();
    let mut b = registry_with_work(100);
    record(&mut b, 70, "sales", 5).unwrap();
    record(&mut b, 30, "streaming", 6).unwrap();
    let ta = a.tracker(&addr(100)).unwrap();
    let tb = b.tracker(&addr(100)).unwrap();
    assert_eq!(ta.total_revenue, 100);
    assert_eq!(tb.total_revenue, 100);
    assert_eq!(ta.streaming_revenue, 30);
    assert_eq!(tb.streaming_revenue, 30);
    assert_eq!(ta.sales_revenue, 70);
    assert_eq!(tb.sales_revenue, 70);
    assert_eq!(ta.transactions[0].source, "streaming");
    assert_eq!(tb.transactions[0].source, "sales");
    assert_eq!(a.split(&addr(100)).unwrap().total_revenue_collected, 100);
    assert_eq!(b.split(&addr(100)).unwrap().total_revenue_collected, 100);
}

#[test]
fn first_revenue_creates_the_tracker() {
    let mut registry = registry_with_work(100);
    assert!(registry.tracker(&addr(100)).is_none());
    record(&mut registry, 25, "merch", 9).unwrap();
    let t = registry.tracker(&addr(100)).unwrap();
    assert_eq!(t.master_nft, addr(100));
    assert_eq!(t.total_revenue, 25);
    assert_eq!(t.other_revenue, 25);
    assert_eq!(t.streaming_revenue, 0);
    assert_eq!(t.sales_revenue, 0);
    assert_eq!(t.created_at, 9);
    assert_eq!(t.last_revenue_timestamp, 9);
    assert_eq!(t.transactions.len(), 1);
    assert_eq!(t.transactions[0].amount, 25);
    assert_eq!(t.transactions[0].source, "merch");
    assert_eq!(t.transactions[0].description, "note");
    assert_eq!(t.transactions[0].timestamp, 9);
    let s = registry.split(&addr(100)).unwrap();
    assert_eq!(s.total_revenue_collected, 25);
    assert_eq!(s.last_revenue_timestamp, 9);
}

#[test]
fn zero_amount_is_rejected() {
    let mut registry = registry_with_work(100);
    assert_eq!(record(&mut registry, 0, "sales", 1), Err(CustomError::InvalidAmount));
    assert!(registry.tracker(&addr(100)).is_none());
}

#[test]
fn long_source_or_description_is_rejected() {
    let mut registry = registry_with_work(100);
    assert_eq!(record(&mut registry, 5, &"s".repeat(21), 1), Err(CustomError::StringTooLong));
    assert!(record(&mut registry, 5, &"s".repeat(20), 1).is_ok());
    assert_eq!(
        registry.track_revenue(&addr(100), 5, "sales".to_string(), "d".repeat(101), 2),
        Err(CustomError::StringTooLong)
    );
    assert!(registry.track_revenue(&addr(100), 5, "sales".to_string(), "d".repeat(100), 2).is_ok());
    assert_eq!(registry.tracker(&addr(100)).unwrap().total_revenue, 10);
}

#[test]
fn revenue_for_unknown_work_is_rejected() {
    let mut registry = registry_with_work(100);
    assert_eq!(
        registry.track_revenue(&addr(7), 5, "sales".to_string(), String::new(), 1),
        Err(CustomError::RoyaltySplitNotFound)
    );
}

#[test]
fn overflowing_revenue_leaves_everything_unchanged() {
    let mut registry = registry_with_work(100);
    record(&mut registry, u64::MAX - 10, "sales", 3).unwrap();
    assert_eq!(record(&mut registry, 11, "streaming", 4), Err(CustomError::Overflow));
    let t = registry.tracker(&addr(100)).unwrap();
    assert_eq!(t.total_revenue, u64::MAX - 10);
    assert_eq!(t.streaming_revenue, 0);
    assert_eq!(t.sales_revenue, u64::MAX - 10);
    assert_eq!(t.transactions.len(), 1);
    assert_eq!(t.last_revenue_timestamp, 3);
    let s = registry.split(&addr(100)).unwrap();
    assert_eq!(s.total_revenue_collected, u64::MAX - 10);
    assert_eq!(s.last_revenue_timestamp, 3);
    // exactly up to the limit still fits
    record(&mut registry, 10, "other", 5).unwrap();
    assert_eq!(registry.tracker(&addr(100)).unwrap().total_revenue, u64::MAX);
}

#[test]
fn full_log_evicts_its_oldest_entry() {
    let mut registry = registry_with_work(100);
    for i in 1..=100u64 {
        record(&mut registry, i, "sales", i as i64).unwrap();
    }
    assert_eq!(registry.tracker(&addr(100)).unwrap().transactions.len(), 100);
    record(&mut registry, 101, "sales", 101).unwrap();
    let t = registry.tracker(&addr(100)).unwrap();
    assert_eq!(t.transactions.len(), 100);
    assert_eq!(t.transactions[0].amount, 2);
    assert_eq!(t.transactions[99].amount, 101);
    assert_eq!(t.total_revenue, 101 * 102 / 2);
}

#[test]
fn sources_fall_into_buckets() {
    assert_eq!(classify_source(&"streaming".to_string()), RevenueSource::Streaming);
    assert_eq!(classify_source(&"sales".to_string()), RevenueSource::Sales);
    assert_eq!(classify_source(&"Streaming".to_string()), RevenueSource::Other);
    assert_eq!(classify_source(&String::new()), RevenueSource::Other);
}

#[test]
fn tracker_add_revenue_directly() {
    let mut t = RevenueTracker::new(addr(3), 4);
    t.add_revenue(10, "streaming".to_string(), "a".to_string(), 5).unwrap();
    t.add_revenue(20, "sales".to_string(), "b".to_string(), 6).unwrap();
    t.add_revenue(30, "sync".to_string(), "c".to_string(), 7).unwrap();
    assert_eq!((t.total_revenue, t.streaming_revenue, t.sales_revenue, t.other_revenue), (60, 10, 20, 30));
    assert_eq!(t.last_revenue_timestamp, 7);
    assert_eq!(t.created_at, 4);
    t.other_revenue = u64::MAX;
    assert_eq!(t.add_revenue(1, "sync".to_string(), "d".to_string(), 8), Err(CustomError::Overflow));
    assert_eq!(t.total_revenue, 60);
    assert_eq!(t.transactions.len(), 3);
}
