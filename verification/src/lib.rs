//! The rules of a platform for binary-outcome prediction markets.
//!
//! The heart of it is the settlement engine: wagers are pooled on two sides,
//! fees are taken when a wager is placed and handed out when the market is
//! resolved, and winners share the losing pool in proportion to their stake.
//! A cancelled market refunds every wager. Around the engine stand the
//! platform's configuration, the proposals from which markets come, the
//! bonds of their creators, the votes that find an outcome, and the registry
//! of the platform's programs.
//!
//! Every operation takes the records it works on and the time as plain
//! values, and hands back what is to be published or moved. Reading the
//! clock, moving funds and storing the records is left to the caller.
//!
//! The engine, from the leaves up:
//! - [`calculator`]: the fee split of a wager and the odds of a pair of pools;
//! - [`market`]: a market with its pool ledger, and a position;
//! - [`wager`]: opening a market and taking wagers;
//! - [`settlement`]: resolving and cancelling;
//! - [`payout`]: paying winners and refunding;
//! - [`book`]: a market kept together with its positions, where every
//!   winner is paid in full;
//! - [`laws`]: what holds over whole sequences of wagers and claims.

pub mod bond;
pub mod book;
pub mod calculator;
pub mod errors;
pub mod events;
pub mod keys;
pub mod laws;
pub mod market;
pub mod parameters;
pub mod payout;
pub mod proposal;
pub mod registry;
pub mod resolution;
pub mod settlement;
pub mod sums;
pub mod text;
pub mod wager;
