//! Client-side protocol engine for a distributed ledger network.
//!
//! The library builds mutating operations as transactions (a builder that
//! freezes to canonical bytes, collects signatures, and executes once),
//! drives cost-metered queries through the network's two-phase payment
//! protocol with bounded busy-retry, and routes each framed request to the
//! named remote operation it belongs to. The blocking transport itself is
//! not part of the library: callers perform each round trip and feed the
//! response back into the engines.

pub mod client;
pub mod crypto;
pub mod duration;
pub mod error;
pub mod id;
pub mod precheck;
pub mod query;
pub mod record;
pub mod text;
pub mod timestamp;
pub mod transaction;
pub mod transaction_id;
pub mod wire;
