//! Latency-critical core of a trading engine: a fixed-capacity
//! single-producer/single-consumer ring buffer for market data, a pre-trade
//! risk gate with a global kill switch, and the fixed-layout record types
//! that cross thread and process boundaries.

pub mod record;
pub mod risk;
pub mod spsc;
pub mod timer;
pub mod transport;
