use fault_core::get_error_count;
use fault_core::get_error_log;
use fault_core::log_error;
use fault_core::reset_retry_count;
use fault_core::retry_operation;
use fault_core::ContractError;
use fault_core::Store;

#[test]
fn budget_of_three_permits_exactly_three() {
    let mut store = Store::new();
    let caller = String::from("alice");
    let op = String::from("op");
    assert!(retry_operation(&mut store, &caller, &op, 3));
    assert!(retry_operation(&mut store, &caller, &op, 3));
    assert!(retry_operation(&mut store, &caller, &op, 3));
    assert!(!retry_operation(&mut store, &caller, &op, 3));
    // Exhaustion is terminal until an explicit reset.
    assert!(!retry_operation(&mut store, &caller, &op, 3));
}

#[test]
fn counters_are_independent_per_caller_and_operation() {
    let mut store = Store::new();
    let alice = String::from("alice");
    let bob = String::from("bob");
    let op = String::from("op");
    let other_op = String::from("other");
    for _ in 0..3 {
        assert!(retry_operation(&mut store, &alice, &op, 3));
    }
    assert!(!retry_operation(&mut store, &alice, &op, 3));
    // A different operation of the same caller, and the same operation of a
    // different caller, still have their full budgets.
    assert!(retry_operation(&mut store, &alice, &other_op, 3));
    assert!(retry_operation(&mut store, &bob, &op, 3));
    // And consuming those did not revive the exhausted pair.
    assert!(!retry_operation(&mut store, &alice, &op, 3));
}

#[test]
fn reset_restarts_the_budget() {
    let mut store = Store::new();
    let caller = String::from("alice");
    let op = String::from("op");
    for _ in 0..3 {
        assert!(retry_operation(&mut store, &caller, &op, 3));
    }
    assert!(!retry_operation(&mut store, &caller, &op, 3));
    reset_retry_count(&mut store, &caller, &op);
    assert!(retry_operation(&mut store, &caller, &op, 3));
}

#[test]
fn reset_of_absent_counter_is_harmless() {
    let mut store = Store::new();
    let caller = String::from("alice");
    let op = String::from("op");
    reset_retry_count(&mut store, &caller, &op);
    assert!(retry_operation(&mut store, &caller, &op, 1));
}

#[test]
fn zero_budget_refuses_immediately() {
    let mut store = Store::new();
    let caller = String::from("alice");
    let op = String::from("op");
    assert!(!retry_operation(&mut store, &caller, &op, 0));
    // Refusal mutates nothing: a later positive budget starts from zero.
    assert!(retry_operation(&mut store, &caller, &op, 1));
}

#[test]
fn budget_is_supplied_per_call() {
    let mut store = Store::new();
    let caller = String::from("alice");
    let op = String::from("op");
    assert!(retry_operation(&mut store, &caller, &op, 1));
    // The same pair refused under budget 1 is permitted under budget 2.
    assert!(!retry_operation(&mut store, &caller, &op, 1));
    assert!(retry_operation(&mut store, &caller, &op, 2));
    assert!(!retry_operation(&mut store, &caller, &op, 2));
}

#[test]
fn gate_leaves_fault_log_alone() {
    let mut store = Store::new();
    log_error(&mut store, ContractError::StorageError, None, None, None, 5);
    let caller = String::from("alice");
    let op = String::from("op");
    assert!(retry_operation(&mut store, &caller, &op, 2));
    reset_retry_count(&mut store, &caller, &op);
    assert_eq!(get_error_count(&store), 1);
    assert_eq!(get_error_log(&store).len(), 1);
}
