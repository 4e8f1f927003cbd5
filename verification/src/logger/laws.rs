//! What holds of the log whatever calls are made on it.

use crate::ids::{
    counts_from_one, increasing, lemma_counting_increases, lemma_filter_keeps_order,
    lemma_position_when_counting,
};
use crate::logger::model::{issued, LogEntry, LoggerView};
use crate::logger::record::{id_of, ids, is_by, ExecutionView};
use vstd::prelude::*;

verus! {

/// A logging call keeps a well-formed log well-formed.
pub proof fn lemma_log_keeps_wf(v: LoggerView, entry: LogEntry)
    requires
        v.wf(),
    ensures
        v.log(entry).wf(),
{
    let after = v.log(entry);
    assert forall|i: int| 0 <= i < ids(after.executions).len() implies ids(after.executions)[i]
        == i + 1 by {
        if i < v.executions.len() {
            assert(ids(v.executions)[i] == i + 1);
        }
    }
}

/// A logging call never removes, reorders or changes a record, and never
/// lowers the next identifier.
pub proof fn lemma_step_keeps_records(v: LoggerView, entry: LogEntry)
    ensures
        v.log(entry).next_id > v.next_id,
        v.log(entry).executions.len() == v.executions.len() + 1,
        forall|i: int|
            0 <= i < v.executions.len() ==> #[trigger] v.log(entry).executions[i]
                == v.executions[i],
{
}

/// Whatever calls were made on a fresh log, its state is well-formed and
/// holds one record for each call.
pub proof fn lemma_reachable(entries: Seq<LogEntry>)
    ensures
        LoggerView::fresh().run(entries).wf(),
        LoggerView::fresh().run(entries).executions.len() == entries.len(),
    decreases entries.len(),
{
    if entries.len() > 0 {
        lemma_reachable(entries.drop_last());
        lemma_log_keeps_wf(LoggerView::fresh().run(entries.drop_last()), entries.last());
    }
}

/// Identifiers are handed out as 1, 2, 3, ...: each logging call returns
/// one more than the call before it, the first returns one, and so none is
/// skipped or handed out twice.
pub proof fn lemma_ids_count_from_one(entries: Seq<LogEntry>)
    ensures
        counts_from_one(issued(entries)),
        forall|i: int, j: int|
            0 <= i < j < issued(entries).len() ==> issued(entries)[i] < issued(entries)[j],
{
    assert forall|k: int| 0 <= k < issued(entries).len() implies issued(entries)[k] == k + 1 by {
        lemma_reachable(entries.take(k));
    }
}

/// The number of records equals the number of logging calls made so far.
pub proof fn lemma_count_is_calls(entries: Seq<LogEntry>)
    ensures
        LoggerView::fresh().run(entries).executions.len() == entries.len(),
        LoggerView::fresh().run(entries).executions.len() == issued(entries).len(),
{
    lemma_reachable(entries);
}

/// A lookup finds a record exactly for the identifiers that a logging call
/// has returned.
pub proof fn lemma_found_iff_issued(entries: Seq<LogEntry>, id: nat)
    ensures
        LoggerView::fresh().run(entries).find(id) is Some <==> issued(entries).contains(id),
{
    let v = LoggerView::fresh().run(entries);
    lemma_reachable(entries);
    lemma_ids_count_from_one(entries);
    lemma_position_when_counting(ids(v.executions), id);
    lemma_position_when_counting(issued(entries), id);
}

/// In a well-formed log the identifiers in use are those from one up to
/// the next identifier, and the record with identifier `id` stands at
/// position `id - 1`.
pub proof fn lemma_find_in_wf(v: LoggerView, id: nat)
    requires
        v.wf(),
    ensures
        v.find(id) is Some <==> 1 <= id < v.next_id,
        v.find(id) is Some ==> v.find(id) == Some(v.executions[id - 1]) && v.executions[id
            - 1].id == id,
{
    lemma_position_when_counting(ids(v.executions), id);
    if 1 <= id < v.next_id {
        assert(ids(v.executions)[id - 1] == id);
    }
}

/// The records of a user are exactly the records of the log whose user
/// field is that user.
pub proof fn lemma_by_user_exact(v: LoggerView, user: Seq<char>)
    ensures
        forall|i: int| 0 <= i < v.by_user(user).len() ==> (#[trigger] v.by_user(user)[i]).user == user,
        forall|e: ExecutionView| #[trigger]
            v.by_user(user).contains(e) <==> v.executions.contains(e) && e.user == user,
{
    let mine = v.by_user(user);
    assert forall|i: int| 0 <= i < mine.len() implies (#[trigger] mine[i]).user == user by {
        v.executions.lemma_filter_pred(is_by(user), i);
    }
    assert forall|e: ExecutionView| #[trigger]
        mine.contains(e) <==> v.executions.contains(e) && e.user == user by {
        if mine.contains(e) {
            v.executions.lemma_filter_contains_rev(is_by(user), e);
            let i = choose|i: int| 0 <= i < mine.len() && mine[i] == e;
            assert(mine[i].user == user);
        }
        if v.executions.contains(e) && e.user == user {
            let i = choose|i: int| 0 <= i < v.executions.len() && v.executions[i] == e;
            v.executions.lemma_filter_contains(is_by(user), i);
        }
    }
}

/// The records of a user stand in the order in which they were logged:
/// their identifiers increase.
pub proof fn lemma_by_user_in_order(v: LoggerView, user: Seq<char>)
    requires
        v.wf(),
    ensures
        increasing(ids(v.by_user(user))),
{
    lemma_counting_increases(ids(v.executions));
    lemma_filter_keeps_order(v.executions, is_by(user), id_of());
}

} // verus!
