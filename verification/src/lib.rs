//! Verified ledger contracts: an applet registry and an execution log.
//!
//! Each contract owns an ordered sequence of records and a counter that
//! hands out identifiers. Every entry point is specified against a
//! mathematical model of that state, and the laws that relate the entry
//! points to each other are proved over the model.

pub mod ids;
pub mod lifecycle;
pub mod logger;
pub mod registry;
