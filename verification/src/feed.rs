//! The two kinds of market event: executed trades and order-book snapshots.
//!
//! Prices and sizes are whole counts of the instrument's smallest unit of
//! price and of quantity. Whoever decodes the feed picks those units.

use vstd::prelude::*;

verus! {

/// The side that initiated a trade.
#[derive(Debug, Clone, Copy, PartialEq, Eq, Structural)]
pub enum Side {
    Ask,
    Bid,
}

/// One executed trade.
#[derive(Debug, Clone, Copy, PartialEq, Eq, Structural)]
pub struct TickData {
    pub price: u32,
    pub volume: u32,
    pub side: Side,
    /// Milliseconds since the Unix epoch.
    pub timestamp: u64,
}

/// One depth level of an order book: the resting interest on both sides.
#[derive(Debug, Clone, Copy, PartialEq, Eq, Structural)]
pub struct OrderBookUnit {
    pub ask_price: u32,
    pub ask_size: u32,
    pub bid_price: u32,
    pub bid_size: u32,
}

/// A full view of the order book at one moment, best price first.
#[derive(Debug, Clone, PartialEq, Eq)]
pub struct OrderBookData {
    /// Milliseconds since the Unix epoch.
    pub timestamp: u64,
    pub order_units: Vec<OrderBookUnit>,
}

} // verus!
