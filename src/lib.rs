//! Lifecycle state machine for a fleet of airplanes, each identified by a
//! public key and moved through its states by validated transactions.

pub mod schema;
pub mod transactions;
pub mod lifecycle;
pub mod service;
