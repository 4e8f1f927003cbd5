//! The execution log: one record per pipeline execution, kept in the order
//! in which the executions were logged.

pub mod contract;
pub mod laws;
pub mod model;
pub mod record;
pub mod state;

pub use self::contract::{LoggerCall, LoggerContract, LoggerReply};
pub use self::record::Execution;
pub use self::state::ExecutionLoggerState;
