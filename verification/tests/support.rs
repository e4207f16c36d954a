use hft_core::record::MarketTick;
use hft_core::timer::HiResTimer;
use hft_core::transport::SharedMemoryQueue;

#[test]
fn default_record_is_zeroed() {
    let tick = MarketTick::default();
    assert_eq!(tick.timestamp_ns, 0);
    assert_eq!(tick.bid_price, 0);
    assert_eq!(tick.ask_price, 0);
    assert_eq!(tick.mid_price, 0);
    assert_eq!(tick.bid_size, 0);
    assert_eq!(tick.ask_size, 0);
    assert_eq!(tick.trade_volume, 0);
    assert_eq!(tick.trade_side, 0);
    assert_eq!(tick.asset_id, 0);
    assert_eq!(tick.depth_levels, 0);
    assert_eq!(tick.bid_prices, [0i64; 10]);
    assert_eq!(tick.ask_prices, [0i64; 10]);
    assert_eq!(tick.bid_sizes, [0u64; 10]);
    assert_eq!(tick.ask_sizes, [0u64; 10]);
}

#[test]
fn timer_elapsed_is_nondecreasing() {
    let timer = HiResTimer::new();
    let first = timer.elapsed_ns();
    let second = timer.elapsed_ns();
    assert!(second >= first);
}

#[test]
fn transport_handle_keeps_its_configuration() {
    let queue = SharedMemoryQueue::new("ticks", 4096);
    assert_eq!(queue.name(), "ticks");
    assert_eq!(queue.capacity(), 4096);
}
