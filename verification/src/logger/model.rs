//! The log as a mathematical value, and what a logging call makes of it.

use crate::ids::{counts_from_one, first_position};
use crate::logger::record::{
    ids, is_by, placeholder_timestamp, placeholder_user, ExecutionView,
};
use vstd::prelude::*;

verus! {

/// The arguments of one logging call, as plain values.
pub struct LogEntry {
    pub applet_ids: Seq<u32>,
    pub total_price: u64,
    pub result_hash: Seq<char>,
}

/// The log as a mathematical value: the records in logging order and the
/// identifier that the next logged execution will receive.
pub struct LoggerView {
    pub executions: Seq<ExecutionView>,
    pub next_id: nat,
}

impl LoggerView {
    /// The log right after construction.
    pub open spec fn fresh() -> LoggerView {
        LoggerView { executions: Seq::empty(), next_id: 1 }
    }

    /// The record at position `i` carries the identifier `i + 1`, and the
    /// next identifier is one more than the last one handed out.
    pub open spec fn wf(self) -> bool {
        &&& self.next_id == self.executions.len() + 1
        &&& counts_from_one(ids(self.executions))
    }

    /// The first record that carries `id`, if there is one.
    pub open spec fn find(self, id: nat) -> Option<ExecutionView> {
        if ids(self.executions).contains(id) {
            Some(self.executions[first_position(ids(self.executions), id)])
        } else {
            None
        }
    }

    /// The records of `user`, in logging order.
    pub open spec fn by_user(self, user: Seq<char>) -> Seq<ExecutionView> {
        self.executions.filter(is_by(user))
    }

    /// The log after one logging call: a new record with the next
    /// identifier, the placeholder user and the placeholder timestamp is
    /// appended.
    pub open spec fn log(self, entry: LogEntry) -> LoggerView {
        LoggerView {
            executions: self.executions.push(
                ExecutionView {
                    id: self.next_id,
                    user: placeholder_user(),
                    applet_ids: entry.applet_ids,
                    total_price: entry.total_price,
                    result_hash: entry.result_hash,
                    timestamp: placeholder_timestamp(),
                },
            ),
            next_id: self.next_id + 1,
        }
    }

    /// The log after the logging calls of `entries`, made in this order.
    pub open spec fn run(self, entries: Seq<LogEntry>) -> LoggerView
        decreases entries.len(),
    {
        if entries.len() == 0 {
            self
        } else {
            self.run(entries.drop_last()).log(entries.last())
        }
    }
}

/// The identifiers that the logging calls of `entries` return, in the order
/// of the calls, when the calls start on a fresh log: each call returns the
/// next identifier of the log that the calls before it have left.
pub open spec fn issued(entries: Seq<LogEntry>) -> Seq<nat> {
    Seq::new(entries.len(), |k: int| LoggerView::fresh().run(entries.take(k)).next_id)
}

} // verus!
