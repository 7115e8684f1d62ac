//! Submission of signed transactions to relay channels, and the decisions
//! that turn channel replies and ledger observations into one outcome.
pub mod codec;
pub mod confirm;
pub mod dispatch;
pub mod error;
pub mod node1;
pub mod tip;
pub mod wire;
