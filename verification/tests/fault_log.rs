use fault_core::clear_error_log;
use fault_core::create_error_context;
use fault_core::get_error_count;
use fault_core::get_error_log;
use fault_core::log_error;
use fault_core::retry_operation;
use fault_core::ContractError;
use fault_core::ErrorCategory;
use fault_core::ErrorSeverity;
use fault_core::Store;

#[test]
fn fresh_store_is_empty() {
    let store = Store::new();
    assert_eq!(get_error_count(&store), 0);
    assert!(get_error_log(&store).is_empty());
}

#[test]
fn record_keeps_count_and_order_up_to_capacity() {
    let mut store = Store::new();
    for i in 0..3u64 {
        log_error(&mut store, ContractError::InvalidInput, None, None, None, i);
    }
    assert_eq!(get_error_count(&store), 3);
    let log = get_error_log(&store);
    assert_eq!(log.len(), 3);
    // Oldest first: the timestamps stamped 0, 1, 2 appear in that order.
    for (i, entry) in log.iter().enumerate() {
        assert_eq!(entry.context.timestamp, i as u64);
    }
}

#[test]
fn record_at_capacity_evicts_single_oldest() {
    let mut store = Store::new();
    for i in 0..101u64 {
        log_error(&mut store, ContractError::InvalidInput, None, None, None, i);
    }
    // The lifetime count reflects every call; the log is capped at 100.
    assert_eq!(get_error_count(&store), 101);
    let log = get_error_log(&store);
    assert_eq!(log.len(), 100);
    // The first call's entry (timestamp 0) is absent; the second through
    // the hundred-and-first (timestamps 1..=100) are present in order.
    for (i, entry) in log.iter().enumerate() {
        assert_eq!(entry.context.timestamp, i as u64 + 1);
    }
}

#[test]
fn clear_empties_log_and_count() {
    let mut store = Store::new();
    for i in 0..5u64 {
        log_error(&mut store, ContractError::StorageError, None, None, None, i);
    }
    clear_error_log(&mut store);
    assert!(get_error_log(&store).is_empty());
    assert_eq!(get_error_count(&store), 0);
}

#[test]
fn clear_leaves_retry_counters_alone() {
    let mut store = Store::new();
    let caller = String::from("alice");
    let op = String::from("transfer");
    assert!(retry_operation(&mut store, &caller, &op, 1));
    assert!(!retry_operation(&mut store, &caller, &op, 1));
    clear_error_log(&mut store);
    // The pair's budget is still exhausted after an administrative clear of
    // the fault log.
    assert!(!retry_operation(&mut store, &caller, &op, 1));
}

#[test]
fn recorded_entry_carries_full_context() {
    let mut store = Store::new();
    log_error(
        &mut store,
        ContractError::Unauthorized,
        Some(String::from("mallory")),
        Some(String::from("record-17")),
        Some(String::from("op_stack")),
        42,
    );
    let log = get_error_log(&store);
    assert_eq!(log.len(), 1);
    let entry = &log[0];
    assert_eq!(entry.error_code, 3);
    assert_eq!(entry.context.category, ErrorCategory::Authorization);
    assert_eq!(entry.context.severity, ErrorSeverity::Medium);
    assert_eq!(
        entry.context.message,
        "Caller is not authorized for this operation"
    );
    assert_eq!(entry.context.user.as_deref(), Some("mallory"));
    assert_eq!(entry.context.resource_id.as_deref(), Some("record-17"));
    assert_eq!(entry.context.timestamp, 42);
    assert!(!entry.context.retryable);
    assert_eq!(entry.stack_trace.as_deref(), Some("op_stack"));
}

#[test]
fn helper_context_matches_logged_context() {
    // Round trip: the pure helper and the logged entry classify a code the
    // same way, whatever hints and timestamps each was given.
    let code = ContractError::RateLimitExceeded;
    let ctx = create_error_context(code, Some(String::from("alice")), None, 7);
    let mut store = Store::new();
    log_error(
        &mut store,
        code,
        None,
        Some(String::from("record-9")),
        Some(String::from("trace")),
        99,
    );
    let entry = &get_error_log(&store)[0];
    assert_eq!(ctx.category, entry.context.category);
    assert_eq!(ctx.severity, entry.context.severity);
    assert_eq!(ctx.message, entry.context.message);
    assert_eq!(ctx.retryable, entry.context.retryable);
}

#[test]
fn helper_builds_exact_context() {
    let ctx = create_error_context(
        ContractError::TransientFailure,
        Some(String::from("bob")),
        Some(String::from("resource-1")),
        1234,
    );
    assert_eq!(ctx.category, ErrorCategory::Transient);
    assert_eq!(ctx.severity, ErrorSeverity::High);
    assert_eq!(
        ctx.message,
        "Transient failure, operation may succeed on retry"
    );
    assert_eq!(ctx.user.as_deref(), Some("bob"));
    assert_eq!(ctx.resource_id.as_deref(), Some("resource-1"));
    assert_eq!(ctx.timestamp, 1234);
    assert!(ctx.retryable);
}
