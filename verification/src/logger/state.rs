//! The state of the execution log contract and its entry points.

use crate::ids::{is_first, lemma_first_position};
use crate::logger::laws::{lemma_find_in_wf, lemma_log_keeps_wf};
use crate::logger::model::{LogEntry, LoggerView};
use crate::logger::record::{ids, is_by, views, Execution, ExecutionView};
use vstd::prelude::*;

verus! {

/// Contract state
pub struct ExecutionLoggerState {
    executions: Vec<Execution>,
    next_id: u32,
}

impl View for ExecutionLoggerState {
    type V = LoggerView;

    closed spec fn view(&self) -> LoggerView {
        LoggerView { executions: views(self.executions@), next_id: self.next_id as nat }
    }
}

impl ExecutionLoggerState {
    /// The state is one that the entry points can have produced.
    pub open spec fn wf(&self) -> bool {
        self@.wf()
    }

    /// Constructs the empty log. Construction always succeeds.
    pub fn new() -> (r: Result<Self, String>)
        ensures
            r is Ok,
            r->Ok_0@ == LoggerView::fresh(),
            r->Ok_0.wf(),
    {
        let state = ExecutionLoggerState { executions: Vec::new(), next_id: 1 };
        assert(state@.executions =~= Seq::<ExecutionView>::empty());
        Ok(state)
    }

    /// Rebuilds a state from the records and the counter that were stored
    /// for it. The parts are accepted exactly when they are well-formed.
    pub fn from_parts(executions: Vec<Execution>, next_id: u32) -> (r: Option<Self>)
        ensures
            match r {
                Some(state) => state@ == (LoggerView {
                    executions: views(executions@),
                    next_id: next_id as nat,
                }) && state.wf(),
                None => !(LoggerView {
                    executions: views(executions@),
                    next_id: next_id as nat,
                }).wf(),
            },
    {
        let ghost stored = LoggerView { executions: views(executions@), next_id: next_id as nat };
        if next_id == 0 || executions.len() != (next_id - 1) as usize {
            return None;
        }
        let mut i: usize = 0;
        while i < executions.len()
            invariant
                i <= executions.len(),
                executions.len() == next_id - 1,
                stored.executions == views(executions@),
                forall|j: int| 0 <= j < i ==> ids(stored.executions)[j] == j + 1,
            decreases executions.len() - i,
        {
            if executions[i].id as usize != i + 1 {
                assert(ids(stored.executions)[i as int] != i + 1);
                return None;
            }
            i += 1;
        }
        Some(ExecutionLoggerState { executions, next_id })
    }

    /// Takes the state apart into the records and the counter to store.
    pub fn into_parts(self) -> (r: (Vec<Execution>, u32))
        ensures
            views(r.0@) == self@.executions,
            r.1 == self@.next_id,
    {
        (self.executions, self.next_id)
    }

    /// Get all executions by a specific user
    pub fn get_executions_by_user(&self, user: String) -> (r: Vec<Execution>)
        ensures
            views(r@) == self@.by_user(user@),
    {
        let mut out: Vec<Execution> = Vec::new();
        let mut i: usize = 0;
        assert(self.executions@.take(0) =~= Seq::<Execution>::empty());
        assert(views(out@) =~= Seq::<ExecutionView>::empty());
        proof {
            reveal(Seq::filter);
        }
        while i < self.executions.len()
            invariant
                i <= self.executions.len(),
                views(out@) == views(self.executions@.take(i as int)).filter(is_by(user@)),
            decreases self.executions.len() - i,
        {
            let ghost before = views(self.executions@.take(i as int));
            let ghost kept = views(out@);
            proof {
                let e = self.executions@[i as int];
                assert(self.executions@.take(i + 1) =~= self.executions@.take(i as int).push(e));
                assert(views(self.executions@.take(i + 1)) =~= before.push(e@));
                before.lemma_filter_push(e@, is_by(user@));
            }
            if self.executions[i].user == user {
                let found = self.executions[i].clone();
                out.push(found);
                assert(views(out@) =~= kept.push(found@));
            }
            i += 1;
        }
        assert(self.executions@.take(i as int) =~= self.executions@);
        out
    }

    /// Get execution by ID
    pub fn get_execution_by_id(&self, id: u32) -> (r: Option<Execution>)
        ensures
            match r {
                Some(e) => self@.find(id as nat) == Some(e@),
                None => self@.find(id as nat) is None,
            },
            self.wf() ==> (r is Some <==> 1 <= id < self@.next_id),
    {
        proof {
            if self.wf() {
                lemma_find_in_wf(self@, id as nat);
            }
        }
        let mut i: usize = 0;
        while i < self.executions.len()
            invariant
                i <= self.executions.len(),
                forall|j: int| 0 <= j < i ==> ids(self@.executions)[j] != id,
            decreases self.executions.len() - i,
        {
            if self.executions[i].id == id {
                proof {
                    assert(is_first(ids(self@.executions), id as nat, i as int));
                    lemma_first_position(ids(self@.executions), id as nat);
                }
                return Some(self.executions[i].clone());
            }
            i += 1;
        }
        None
    }

    /// Get total execution count
    pub fn get_execution_count(&self) -> (n: u32)
        requires
            self.wf(),
        ensures
            n == self@.executions.len(),
    {
        self.executions.len() as u32
    }

    /// Log a new pipeline execution
    pub fn log_execution(&mut self, applet_ids: Vec<u32>, total_price: u64, result_hash: String) -> (id:
        u32)
        requires
            old(self).wf(),
            old(self)@.next_id < u32::MAX,
        ensures
            id == old(self)@.next_id,
            final(self)@ == old(self)@.log(
                (LogEntry { applet_ids: applet_ids@, total_price, result_hash: result_hash@ }),
            ),
            final(self).wf(),
    {
        broadcast use vstd::string::group_string_axioms;

        let execution = Execution {
            id: self.next_id,
            user: "caller".to_string(),
            applet_ids,
            total_price,
            result_hash,
            timestamp: 0,
        };
        let id = self.next_id;
        self.executions.push(execution);
        self.next_id += 1;
        proof {
            assert(self@.executions =~= old(self)@.executions.push(execution@));
            lemma_log_keeps_wf(
                old(self)@,
                LogEntry { applet_ids: applet_ids@, total_price, result_hash: result_hash@ },
            );
        }
        id
    }
}

} // verus!
