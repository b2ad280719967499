//! Verified core of a toy blockchain network simulator: per-category message
//! fan-out from one ingress queue to every registered node, plus the periodic
//! transaction generator that feeds the transaction category.

pub mod broadcast;
pub mod client;
pub mod message;
pub mod network;
pub mod queue;
