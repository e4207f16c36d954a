use hft_core::record::MarketTick;
use hft_core::spsc::LockFreeSPSC;

#[test]
fn test_queue_basic() {
    let mut queue: LockFreeSPSC<u64, 16> = LockFreeSPSC::new();

    assert!(queue.push(42));
    assert_eq!(queue.pop(), Some(42));
    assert_eq!(queue.pop(), None);
}

#[test]
fn full_after_capacity_minus_one_pushes() {
    let mut queue: LockFreeSPSC<u64, 16> = LockFreeSPSC::new();
    for i in 0..15u64 {
        assert!(queue.push(i));
    }
    assert_eq!(queue.size(), 15);
    assert!(!queue.push(99));
    assert_eq!(queue.size(), 15);
}

#[test]
fn capacity_one_has_no_usable_slot() {
    let mut queue: LockFreeSPSC<u64, 1> = LockFreeSPSC::new();
    assert!(!queue.push(1));
    assert_eq!(queue.pop(), None);
}

#[test]
fn pop_empty_then_single_round_trip() {
    let mut queue: LockFreeSPSC<u64, 8> = LockFreeSPSC::new();
    assert_eq!(queue.pop(), None);
    assert!(queue.push(7));
    assert_eq!(queue.pop(), Some(7));
    assert_eq!(queue.pop(), None);
}

#[test]
fn snapshot_record_round_trip() {
    let mut tick = MarketTick::default();
    tick.timestamp_ns = 1_234_567_890;
    tick.bid_price = 99_990_000;
    tick.ask_price = 100_010_000;
    tick.mid_price = 100_000_000;
    tick.bid_size = 500;
    tick.ask_size = 700;
    tick.trade_volume = 42;
    tick.trade_side = 1;
    tick.asset_id = 31337;
    tick.depth_levels = 3;
    for i in 0..10 {
        tick.bid_prices[i] = 99_990_000 - (i as i64) * 10_000;
        tick.ask_prices[i] = 100_010_000 + (i as i64) * 10_000;
        tick.bid_sizes[i] = 100 + i as u64;
        tick.ask_sizes[i] = 200 + i as u64;
    }

    let mut queue: LockFreeSPSC<MarketTick, 4> = LockFreeSPSC::new();
    assert!(queue.push(tick));
    let out = queue.pop().unwrap();

    assert_eq!(out.timestamp_ns, tick.timestamp_ns);
    assert_eq!(out.bid_price, tick.bid_price);
    assert_eq!(out.ask_price, tick.ask_price);
    assert_eq!(out.mid_price, tick.mid_price);
    assert_eq!(out.bid_size, tick.bid_size);
    assert_eq!(out.ask_size, tick.ask_size);
    assert_eq!(out.trade_volume, tick.trade_volume);
    assert_eq!(out.trade_side, tick.trade_side);
    assert_eq!(out.asset_id, tick.asset_id);
    assert_eq!(out.depth_levels, tick.depth_levels);
    assert_eq!(out.bid_prices, tick.bid_prices);
    assert_eq!(out.ask_prices, tick.ask_prices);
    assert_eq!(out.bid_sizes, tick.bid_sizes);
    assert_eq!(out.ask_sizes, tick.ask_sizes);
}

#[test]
fn fifo_order_over_an_interleaving() {
    let mut queue: LockFreeSPSC<u64, 8> = LockFreeSPSC::new();
    assert!(queue.push(1));
    assert!(queue.push(2));
    assert_eq!(queue.pop(), Some(1));
    assert!(queue.push(3));
    assert!(queue.push(4));
    assert_eq!(queue.pop(), Some(2));
    assert_eq!(queue.pop(), Some(3));
    assert!(queue.push(5));
    assert_eq!(queue.pop(), Some(4));
    assert_eq!(queue.pop(), Some(5));
    assert_eq!(queue.pop(), None);
}

#[test]
fn cursors_cycle_through_the_arena() {
    let mut queue: LockFreeSPSC<u64, 4> = LockFreeSPSC::new();
    for round in 0..25u64 {
        assert!(queue.push(round));
        assert_eq!(queue.pop(), Some(round));
    }
    assert!(queue.is_empty());
}

#[test]
fn observers_are_stable_without_mutation() {
    let mut queue: LockFreeSPSC<u64, 8> = LockFreeSPSC::new();
    assert!(queue.is_empty());
    assert_eq!(queue.size(), 0);
    assert_eq!(queue.size(), 0);
    assert!(queue.push(10));
    assert!(queue.push(11));
    assert_eq!(queue.size(), 2);
    assert_eq!(queue.size(), 2);
    assert!(!queue.is_empty());
    assert!(!queue.is_empty());
}
