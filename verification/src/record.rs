//! Fixed-layout market snapshot record: the payload carried through the ring
//! buffer and the shared-memory transport.

use vstd::prelude::*;

verus! {

/// One instant of top-of-book and depth state for one tradable instrument.
///
/// Every field is a fixed-width integer or a fixed-size array of them, with
/// no owned heap memory, so the record can be handed across thread and
/// process boundaries by value. Prices are fixed-point integers; the mapping
/// to and from a floating representation is the concern of the unverified
/// boundary that talks to the native engine. `bid_price <= mid_price <=
/// ask_price` is a data-quality expectation, not structurally enforced:
/// consumers that depend on it must validate.
#[derive(Clone, Copy)]
pub struct MarketTick {
    /// Capture time; a monotonic source is preferred.
    pub timestamp_ns: i64,
    /// Fixed-point price.
    pub bid_price: i64,
    /// Fixed-point price.
    pub ask_price: i64,
    /// Fixed-point price.
    pub mid_price: i64,
    pub bid_size: u64,
    pub ask_size: u64,
    pub trade_volume: u64,
    /// 0 = BUY, 1 = SELL.
    pub trade_side: u8,
    /// Instrument identity.
    pub asset_id: u32,
    /// Only the first `depth_levels` entries of the depth arrays are
    /// meaningful.
    pub depth_levels: u8,
    /// Fixed-point prices.
    pub bid_prices: [i64; 10],
    /// Fixed-point prices.
    pub ask_prices: [i64; 10],
    pub bid_sizes: [u64; 10],
    pub ask_sizes: [u64; 10],
}

impl Default for MarketTick {
    /// An all-zero record: the neutral value slots start from.
    fn default() -> (r: Self)
        ensures
            r.timestamp_ns == 0,
            r.bid_price == 0,
            r.ask_price == 0,
            r.mid_price == 0,
            r.bid_size == 0,
            r.ask_size == 0,
            r.trade_volume == 0,
            r.trade_side == 0,
            r.asset_id == 0,
            r.depth_levels == 0,
            forall|i: int| 0 <= i < 10 ==> #[trigger] r.bid_prices@[i] == 0,
            forall|i: int| 0 <= i < 10 ==> #[trigger] r.ask_prices@[i] == 0,
            forall|i: int| 0 <= i < 10 ==> #[trigger] r.bid_sizes@[i] == 0,
            forall|i: int| 0 <= i < 10 ==> #[trigger] r.ask_sizes@[i] == 0,
    {
        MarketTick {
            timestamp_ns: 0,
            bid_price: 0,
            ask_price: 0,
            mid_price: 0,
            bid_size: 0,
            ask_size: 0,
            trade_volume: 0,
            trade_side: 0,
            asset_id: 0,
            depth_levels: 0,
            bid_prices: [0; 10],
            ask_prices: [0; 10],
            bid_sizes: [0; 10],
            ask_sizes: [0; 10],
        }
    }
}

} // verus!
