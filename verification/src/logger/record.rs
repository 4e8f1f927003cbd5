//! Execution records and what they say as plain values.

use vstd::prelude::*;

verus! {

/// The user written into every record until the host supplies the caller.
pub open spec fn placeholder_user() -> Seq<char> {
    "caller"@
}

/// The timestamp written into every record until the host supplies the
/// time.
pub open spec fn placeholder_timestamp() -> u64 {
    0
}

/// Execution log entry
pub struct Execution {
    pub id: u32,
    pub user: String,
    pub applet_ids: Vec<u32>,
    pub total_price: u64,
    pub result_hash: String,
    pub timestamp: u64,
}

/// What an execution record says, as plain mathematical values.
pub struct ExecutionView {
    pub id: nat,
    pub user: Seq<char>,
    pub applet_ids: Seq<u32>,
    pub total_price: u64,
    pub result_hash: Seq<char>,
    pub timestamp: u64,
}

impl View for Execution {
    type V = ExecutionView;

    open spec fn view(&self) -> ExecutionView {
        ExecutionView {
            id: self.id as nat,
            user: self.user@,
            applet_ids: self.applet_ids@,
            total_price: self.total_price,
            result_hash: self.result_hash@,
            timestamp: self.timestamp,
        }
    }
}

impl Clone for Execution {
    fn clone(&self) -> (res: Self)
        ensures
            res@ == self@,
    {
        let applet_ids = self.applet_ids.clone();
        assert(applet_ids@ =~= self.applet_ids@);
        Execution {
            id: self.id,
            user: self.user.clone(),
            applet_ids,
            total_price: self.total_price,
            result_hash: self.result_hash.clone(),
            timestamp: self.timestamp,
        }
    }
}

/// The views of a sequence of records, in the same order.
pub open spec fn views(records: Seq<Execution>) -> Seq<ExecutionView> {
    records.map_values(|e: Execution| e@)
}

/// The identifier that a record carries.
pub open spec fn id_of() -> spec_fn(ExecutionView) -> nat {
    |e: ExecutionView| e.id
}

/// The identifiers that the records carry, in the same order.
pub open spec fn ids(records: Seq<ExecutionView>) -> Seq<nat> {
    records.map_values(id_of())
}

/// The predicate that keeps the records of one user.
pub open spec fn is_by(user: Seq<char>) -> spec_fn(ExecutionView) -> bool {
    |e: ExecutionView| e.user == user
}

} // verus!
