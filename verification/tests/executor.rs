use dwm1001_async::executor::Executor;

#[test]
fn new_executor_is_idle() {
    let mut executor: Executor<u32> = Executor::new();
    assert!(executor.is_idle());
    assert_eq!(executor.take(), None);
    assert!(executor.is_idle());
}

#[test]
fn spawn_installs_only_into_an_idle_slot() {
    let mut executor = Executor::new();
    assert_eq!(executor.spawn("first"), None);
    assert!(!executor.is_idle());
    assert_eq!(executor.spawn("second"), Some("second"));
    assert_eq!(executor.take(), Some("first"));
    // Still occupied while the operation is being resumed.
    assert_eq!(executor.spawn("third"), Some("third"));
    assert_eq!(executor.take(), None);
}

#[test]
fn pending_operation_is_parked_again() {
    let mut executor = Executor::new();
    assert_eq!(executor.spawn(1u8), None);
    let op = executor.take().unwrap();
    assert_eq!(executor.settle(Some(op + 1)), None);
    assert!(!executor.is_idle());
    assert_eq!(executor.take(), Some(2));
}

#[test]
fn completed_operation_leaves_the_slot_idle() {
    let mut executor = Executor::new();
    assert_eq!(executor.spawn(1u8), None);
    assert_eq!(executor.take(), Some(1));
    assert_eq!(executor.settle(None), None);
    assert!(executor.is_idle());
    assert_eq!(executor.spawn(2), None);
    assert_eq!(executor.take(), Some(2));
}

#[test]
fn settle_outside_a_resumption_changes_nothing() {
    let mut executor = Executor::new();
    assert_eq!(executor.settle(Some(5u8)), Some(5));
    assert!(executor.is_idle());
    assert_eq!(executor.spawn(1), None);
    assert_eq!(executor.settle(Some(6)), Some(6));
    assert_eq!(executor.settle(None), None);
    assert_eq!(executor.take(), Some(1));
}
