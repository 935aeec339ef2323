//! Accounting core of a cross-chain token bridge: a ledger of locks and the
//! unlocks that consume them, and the event lines that announce each change.

pub mod decimal;
pub mod json;
pub mod record;
pub mod model;
pub mod ledger;
pub mod laws;
pub mod events;
pub mod bridge;
