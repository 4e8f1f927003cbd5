//! The execution log contract as a host sees it: one instance, reached
//! through tagged calls.

use crate::lifecycle::{Category, Phase};
use crate::logger::model::{LogEntry, LoggerView};
use crate::logger::record::{views, Execution};
use crate::logger::state::ExecutionLoggerState;
use vstd::pervasive::unreached;
use vstd::prelude::*;

verus! {

/// One call on the execution log contract: the entry point and its
/// arguments.
pub enum LoggerCall {
    New,
    GetExecutionsByUser { user: String },
    GetExecutionById { id: u32 },
    GetExecutionCount,
    LogExecution { applet_ids: Vec<u32>, total_price: u64, result_hash: String },
}

impl LoggerCall {
    /// The kind of the entry point that the call names.
    pub open spec fn spec_category(&self) -> Category {
        match self {
            LoggerCall::New => Category::Constructor,
            LoggerCall::GetExecutionsByUser { .. }
            | LoggerCall::GetExecutionById { .. }
            | LoggerCall::GetExecutionCount => Category::Query,
            LoggerCall::LogExecution { .. } => Category::Mutate,
        }
    }

    /// The kind of the entry point that the call names.
    #[verifier::when_used_as_spec(spec_category)]
    pub fn category(&self) -> (c: Category)
        ensures
            c == self.spec_category(),
    {
        match self {
            LoggerCall::New => Category::Constructor,
            LoggerCall::GetExecutionsByUser { .. } => Category::Query,
            LoggerCall::GetExecutionById { .. } => Category::Query,
            LoggerCall::GetExecutionCount => Category::Query,
            LoggerCall::LogExecution { .. } => Category::Mutate,
        }
    }
}

/// What a call on the execution log contract hands back to the host.
pub enum LoggerReply {
    Constructed,
    ConstructionFailed(String),
    Executions(Vec<Execution>),
    Execution(Option<Execution>),
    Count(u32),
    Logged(u32),
}

/// One instance of the execution log contract.
pub enum LoggerContract {
    Uninitialized,
    Ready(ExecutionLoggerState),
    Failed,
}

impl LoggerContract {
    /// The phase that the instance is in.
    pub open spec fn spec_phase(&self) -> Phase {
        match self {
            LoggerContract::Uninitialized => Phase::Uninitialized,
            LoggerContract::Ready(_) => Phase::Ready,
            LoggerContract::Failed => Phase::Failed,
        }
    }

    /// The state of a ready instance.
    pub open spec fn state(&self) -> LoggerView
        recommends
            self is Ready,
    {
        self->Ready_0@
    }

    /// The state of a ready instance is well-formed.
    pub open spec fn wf(&self) -> bool {
        self is Ready ==> self->Ready_0.wf()
    }

    /// The call may be made on the instance: its phase admits the kind of
    /// the call, and a logging call still finds an identifier to hand out.
    pub open spec fn admits(&self, call: &LoggerCall) -> bool {
        &&& self.spec_phase().admits(call.spec_category())
        &&& call is LogExecution ==> self.state().next_id < u32::MAX
    }

    /// The phase that the instance is in.
    #[verifier::when_used_as_spec(spec_phase)]
    pub fn phase(&self) -> (p: Phase)
        ensures
            p == self.spec_phase(),
    {
        match self {
            LoggerContract::Uninitialized => Phase::Uninitialized,
            LoggerContract::Ready(_) => Phase::Ready,
            LoggerContract::Failed => Phase::Failed,
        }
    }

    /// Decides whether the call may be made on the instance.
    pub fn can_dispatch(&self, call: &LoggerCall) -> (r: bool)
        requires
            self.wf(),
        ensures
            r == self.admits(call),
    {
        match self {
            LoggerContract::Ready(state) => match call {
                LoggerCall::New => false,
                LoggerCall::LogExecution { .. } => state.get_execution_count() < u32::MAX - 1,
                _ => true,
            },
            LoggerContract::Uninitialized => match call {
                LoggerCall::New => true,
                _ => false,
            },
            LoggerContract::Failed => false,
        }
    }

    /// Runs one admitted call. A constructor makes the instance ready with
    /// the fresh log, a query answers from the state and leaves it as it
    /// is, and a mutation answers and leaves the state that the model gives
    /// for it.
    pub fn dispatch(&mut self, call: LoggerCall) -> (reply: LoggerReply)
        requires
            old(self).wf(),
            old(self).admits(&call),
        ensures
            final(self).wf(),
            final(self).spec_phase() == old(self).spec_phase().after(call.spec_category(), true),
            call.spec_category() == Category::Query ==> *final(self) == *old(self),
            match call {
                LoggerCall::New => {
                    &&& reply is Constructed
                    &&& final(self).state() == LoggerView::fresh()
                },
                LoggerCall::GetExecutionsByUser { user } => {
                    &&& reply matches LoggerReply::Executions(executions)
                    &&& views(executions@) == old(self).state().by_user(user@)
                },
                LoggerCall::GetExecutionById { id } => {
                    &&& reply matches LoggerReply::Execution(found)
                    &&& match found {
                        Some(e) => old(self).state().find(id as nat) == Some(e@),
                        None => old(self).state().find(id as nat) is None,
                    }
                },
                LoggerCall::GetExecutionCount => {
                    &&& reply matches LoggerReply::Count(n)
                    &&& n == old(self).state().executions.len()
                },
                LoggerCall::LogExecution { applet_ids, total_price, result_hash } => {
                    &&& reply matches LoggerReply::Logged(id)
                    &&& id == old(self).state().next_id
                    &&& final(self).state() == old(self).state().log(
                        (LogEntry {
                            applet_ids: applet_ids@,
                            total_price,
                            result_hash: result_hash@,
                        }),
                    )
                },
            },
    {
        match self {
            LoggerContract::Ready(state) => match call {
                LoggerCall::New => unreached(),
                LoggerCall::GetExecutionsByUser { user } => LoggerReply::Executions(
                    state.get_executions_by_user(user),
                ),
                LoggerCall::GetExecutionById { id } => LoggerReply::Execution(
                    state.get_execution_by_id(id),
                ),
                LoggerCall::GetExecutionCount => LoggerReply::Count(state.get_execution_count()),
                LoggerCall::LogExecution { applet_ids, total_price, result_hash } => {
                    LoggerReply::Logged(state.log_execution(applet_ids, total_price, result_hash))
                },
            },
            _ => match ExecutionLoggerState::new() {
                Ok(state) => {
                    *self = LoggerContract::Ready(state);
                    LoggerReply::Constructed
                },
                Err(message) => {
                    *self = LoggerContract::Failed;
                    LoggerReply::ConstructionFailed(message)
                },
            },
        }
    }
}

} // verus!
