use trade_fleet::allocation::AllocationPool;

fn pool_of(symbols: &[&str]) -> AllocationPool {
    let mut pool = AllocationPool::new();
    pool.populate(symbols.iter().map(|s| s.to_string()).collect());
    pool
}

#[test]
fn populate_keeps_catalog_order() {
    let pool = pool_of(&["BTCUSDT", "ETHUSDT", "BNBUSDT"]);
    assert_eq!(pool.len(), 3);
    assert_eq!(pool.entry_at(0).symbol, "BTCUSDT");
    assert_eq!(pool.entry_at(1).symbol, "ETHUSDT");
    assert_eq!(pool.entry_at(2).symbol, "BNBUSDT");
    for i in 0..3 {
        assert_eq!(pool.entry_at(i).owner, None);
    }
}

#[test]
fn allocation_is_first_fit_over_insertion_order() {
    let mut pool = pool_of(&["BTCUSDT", "ETHUSDT"]);
    assert_eq!(pool.allocate(11), Some("BTCUSDT".to_string()));
    assert_eq!(pool.entry_at(0).owner, Some(11));
    assert_eq!(pool.allocate(12), Some("ETHUSDT".to_string()));
    assert_eq!(pool.entry_at(1).owner, Some(12));
}

#[test]
fn allocated_symbols_are_distinct() {
    let mut pool = pool_of(&["A", "B", "C"]);
    let mut granted = Vec::new();
    for node in 0..3usize {
        granted.push(pool.allocate(node).unwrap());
    }
    for i in 0..granted.len() {
        for j in 0..granted.len() {
            if i != j {
                assert_ne!(granted[i], granted[j]);
            }
        }
    }
}

#[test]
fn owner_is_never_reassigned() {
    let mut pool = pool_of(&["A", "B"]);
    assert_eq!(pool.allocate(1), Some("A".to_string()));
    // a later requester skips the owned entry instead of taking it over
    assert_eq!(pool.allocate(2), Some("B".to_string()));
    assert_eq!(pool.entry_at(0).owner, Some(1));
    assert_eq!(pool.entry_at(1).owner, Some(2));
}

#[test]
fn pool_of_two_serves_exactly_two_of_three_requesters() {
    let mut pool = pool_of(&["BTCUSDT", "ETHUSDT"]);
    let answers = vec![pool.allocate(1), pool.allocate(2), pool.allocate(3)];
    let granted = answers.iter().filter(|a| a.is_some()).count();
    let refused = answers.iter().filter(|a| a.is_none()).count();
    assert_eq!(granted, 2);
    assert_eq!(refused, 1);
    assert_eq!(answers[2], None);
}

#[test]
fn exhausted_pool_answers_immediately_and_stays_unchanged() {
    let mut pool = pool_of(&["A"]);
    assert_eq!(pool.allocate(1), Some("A".to_string()));
    assert_eq!(pool.allocate(2), None);
    assert_eq!(pool.len(), 1);
    assert_eq!(pool.entry_at(0).owner, Some(1));
}

#[test]
fn empty_pool_grants_nothing() {
    let mut pool = AllocationPool::new();
    assert_eq!(pool.allocate(1), None);
    assert_eq!(pool.len(), 0);
}
