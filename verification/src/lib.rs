//! A verified core for a trading agent that is driven by market ticks.
//!
//! The crate keeps a bounded history of trades and order-book snapshots,
//! derives twelve features from it, moves a position on buy, sell and hold,
//! picks actions by an epsilon-greedy policy and gathers the experience in
//! a bounded memory.
//!
//! All of it computes on whole numbers. Prices and sizes are counts of the
//! instrument's smallest units, timestamps are milliseconds, epsilon is a
//! count of millionths, and whatever is derived by division is kept as an
//! exact [`ratio::Ratio`]. Turning those into the numbers of a model or of a
//! file is left to the caller.

pub mod agent;
pub mod analyzer;
pub mod env;
pub mod feed;
pub mod fifo;
pub mod random;
pub mod ratio;
pub mod replay_log;
pub mod replaybuffer;
pub mod stats;
pub mod trading_loop;
