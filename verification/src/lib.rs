//! A constant-product automated market maker for an actor-model runtime.
//!
//! A Factory deploys and indexes Pair instances; each Pair manages the
//! reserves of two fungible tokens, a liquidity-share ledger, and swap
//! pricing. Every operation that moves tokens runs as a small saga of
//! external transfer calls; the transaction manager makes those sagas safe
//! to retry after a partial failure, and failed legs are compensated before
//! an error is reported.

pub mod actor;
pub mod dispatch;
pub mod factory;
pub mod instruction;
pub mod io;
pub mod ledger;
pub mod math;
pub mod omap;
pub mod pair;
pub mod tx_manager;
pub mod u256;
