use applets::logger::{Execution, ExecutionLoggerState};

fn fresh_log() -> ExecutionLoggerState {
    match ExecutionLoggerState::new() {
        Ok(state) => state,
        Err(message) => panic!("construction failed: {}", message),
    }
}

fn execution_ids(executions: &[Execution]) -> Vec<u32> {
    executions.iter().map(|e| e.id).collect()
}

#[test]
fn new_log_is_empty() {
    let state = fresh_log();
    assert_eq!(state.get_execution_count(), 0);
    assert!(state.get_execution_by_id(1).is_none());
    assert!(state.get_executions_by_user("caller".to_string()).is_empty());
}

#[test]
fn logged_ids_count_up_without_gaps() {
    let mut state = fresh_log();
    for expected in 1..=40u32 {
        let id = state.log_execution(vec![expected], 5, "h".to_string());
        assert_eq!(id, expected);
        assert_eq!(state.get_execution_count(), expected);
    }
}

#[test]
fn logged_record_holds_the_given_fields() {
    let mut state = fresh_log();
    let id = state.log_execution(vec![3, 1, 3, 77], 1234, "0xabc".to_string());
    assert_eq!(id, 1);
    let execution = state.get_execution_by_id(1).expect("logged execution");
    assert_eq!(execution.id, 1);
    assert_eq!(execution.user, "caller");
    assert_eq!(execution.applet_ids, vec![3, 1, 3, 77]);
    assert_eq!(execution.total_price, 1234);
    assert_eq!(execution.result_hash, "0xabc");
    assert_eq!(execution.timestamp, 0);
}

#[test]
fn applet_ids_need_not_exist_and_may_be_empty() {
    let mut state = fresh_log();
    let a = state.log_execution(Vec::new(), 0, String::new());
    let b = state.log_execution(vec![u32::MAX, 0], u64::MAX, "z".to_string());
    assert_eq!((a, b), (1, 2));
    assert!(state.get_execution_by_id(a).expect("first").applet_ids.is_empty());
    let second = state.get_execution_by_id(b).expect("second");
    assert_eq!(second.applet_ids, vec![u32::MAX, 0]);
    assert_eq!(second.total_price, u64::MAX);
}

#[test]
fn execution_lookup_finds_exactly_the_issued_ids() {
    let mut state = fresh_log();
    for n in 0..4u64 {
        state.log_execution(vec![1], n, "h".to_string());
    }
    assert!(state.get_execution_by_id(0).is_none());
    for id in 1..=4u32 {
        let execution = state.get_execution_by_id(id).expect("issued id");
        assert_eq!(execution.id, id);
        assert_eq!(execution.total_price, u64::from(id) - 1);
    }
    assert!(state.get_execution_by_id(5).is_none());
}

#[test]
fn executions_by_user_are_all_for_the_placeholder_user() {
    let mut state = fresh_log();
    state.log_execution(vec![1], 10, "a".to_string());
    state.log_execution(vec![2], 20, "b".to_string());
    state.log_execution(vec![3], 30, "c".to_string());
    let mine = state.get_executions_by_user("caller".to_string());
    assert_eq!(execution_ids(&mine), vec![1, 2, 3]);
    let hashes: Vec<&str> = mine.iter().map(|e| e.result_hash.as_str()).collect();
    assert_eq!(hashes, vec!["a", "b", "c"]);
    assert!(mine.iter().all(|e| e.user == "caller"));
}

#[test]
fn executions_by_another_user_are_none() {
    let mut state = fresh_log();
    state.log_execution(vec![1], 10, "a".to_string());
    assert!(state.get_executions_by_user("alice".to_string()).is_empty());
    assert!(state.get_executions_by_user(String::new()).is_empty());
    assert!(state.get_executions_by_user("Caller".to_string()).is_empty());
    assert!(state.get_executions_by_user("caller ".to_string()).is_empty());
}

#[test]
fn queries_leave_the_log_unchanged() {
    let mut state = fresh_log();
    state.log_execution(vec![1, 2], 10, "a".to_string());
    let _ = state.get_executions_by_user("caller".to_string());
    let _ = state.get_execution_by_id(1);
    let _ = state.get_execution_count();
    assert_eq!(state.get_execution_count(), 1);
    assert_eq!(state.log_execution(vec![], 0, "b".to_string()), 2);
}

#[test]
fn execution_lookup_returns_a_copy() {
    let mut state = fresh_log();
    state.log_execution(vec![1, 2], 10, "a".to_string());
    let mut copy = state.get_execution_by_id(1).expect("execution 1");
    copy.applet_ids.push(9);
    copy.user = "mallory".to_string();
    let again = state.get_execution_by_id(1).expect("execution 1");
    assert_eq!(again.applet_ids, vec![1, 2]);
    assert_eq!(again.user, "caller");
}

fn execution(id: u32, user: &str) -> Execution {
    Execution {
        id,
        user: user.to_string(),
        applet_ids: vec![id, id + 1],
        total_price: 5,
        result_hash: "h".to_string(),
        timestamp: 0,
    }
}

#[test]
fn log_parts_round_trip() {
    let mut state = fresh_log();
    state.log_execution(vec![4, 5], 9, "x".to_string());
    state.log_execution(vec![], 1, "y".to_string());
    let (executions, next_id) = state.into_parts();
    assert_eq!(next_id, 3);
    assert_eq!(execution_ids(&executions), vec![1, 2]);
    assert_eq!(executions[0].applet_ids, vec![4, 5]);
    let mut restored = ExecutionLoggerState::from_parts(executions, next_id).expect("stored state");
    assert_eq!(restored.get_execution_count(), 2);
    assert_eq!(restored.log_execution(vec![1], 1, "z".to_string()), 3);
}

#[test]
fn log_parts_that_no_call_sequence_leaves_are_refused() {
    assert!(ExecutionLoggerState::from_parts(Vec::new(), 0).is_none());
    assert!(ExecutionLoggerState::from_parts(Vec::new(), 5).is_none());
    assert!(ExecutionLoggerState::from_parts(vec![execution(2, "caller")], 2).is_none());
    let repeat = vec![execution(1, "caller"), execution(1, "caller")];
    assert!(ExecutionLoggerState::from_parts(repeat, 3).is_none());
    let good = vec![execution(1, "caller"), execution(2, "caller")];
    assert!(ExecutionLoggerState::from_parts(good, 3).is_some());
}

#[test]
fn executions_are_selected_by_their_user_field_in_log_order() {
    let stored = vec![
        execution(1, "alice"),
        execution(2, "bob"),
        execution(3, "alice"),
        execution(4, "caller"),
        execution(5, "alice"),
    ];
    let state = ExecutionLoggerState::from_parts(stored, 6).expect("stored state");
    let alice = state.get_executions_by_user("alice".to_string());
    assert_eq!(execution_ids(&alice), vec![1, 3, 5]);
    assert!(alice.iter().all(|e| e.user == "alice"));
    assert_eq!(execution_ids(&state.get_executions_by_user("bob".to_string())), vec![2]);
    assert_eq!(execution_ids(&state.get_executions_by_user("caller".to_string())), vec![4]);
    assert!(state.get_executions_by_user("carol".to_string()).is_empty());
    assert_eq!(state.get_execution_count(), 5);
}
