use conservatory::coalescing::{Coalescer, Step};

fn batch(step: Step<u32>) -> Vec<u32> {
    match step {
        Step::Perform(b) => b,
        other => panic!("expected a batch, got {other:?}"),
    }
}

#[test]
fn burst_coalesces_into_one_flush() {
    // A 30-tick interval, a 10 000-tick maximum wait.
    let mut q: Coalescer<u32> = Coalescer::new(30, 10_000, 0);
    assert!(matches!(q.add(2, 1), Step::ArmTimer));
    assert!(matches!(q.add(1, 2), Step::ArmTimer));
    assert!(matches!(q.add(2, 3), Step::ArmTimer));
    // The timer fires once: one batch, deduped, insertion order preserved.
    assert_eq!(batch(q.flush(33)), vec![2, 1]);
    assert!(matches!(q.performed(), Step::Idle));
    // Nothing left: a second flush delivers nothing.
    assert!(matches!(q.flush(40), Step::Idle));
}

#[test]
fn perform_may_reenter_add_without_panicking() {
    let mut q: Coalescer<u32> = Coalescer::new(20, 10_000, 0);
    assert!(matches!(q.add(1, 0), Step::ArmTimer));
    assert_eq!(batch(q.flush(20)), vec![1]);
    // The consumer re-enters `add` while its batch runs.
    assert!(matches!(q.add(2, 21), Step::ArmTimer));
    // A re-entrant flush defers: the batch in flight is not interrupted.
    assert!(matches!(q.flush(22), Step::Idle));
    // When the consumer returns, the re-queued call gets a live timer.
    assert!(matches!(q.performed(), Step::ArmTimer));
    assert_eq!(batch(q.flush(45)), vec![2]);
}

#[test]
fn continuous_stream_flushes_at_the_maximum_wait() {
    let mut q: Coalescer<u32> = Coalescer::new(30, 100, 0);
    assert!(matches!(q.add(1, 10), Step::ArmTimer));
    assert!(matches!(q.add(2, 50), Step::ArmTimer));
    // 100 ticks since the last flush: the add flushes immediately.
    assert_eq!(batch(q.add(3, 100)), vec![1, 2, 3]);
}

#[test]
fn unit_calls_collapse_to_one() {
    let mut q: Coalescer<()> = Coalescer::new(5, 1_000, 0);
    assert!(matches!(q.add((), 1), Step::ArmTimer));
    assert!(matches!(q.add((), 2), Step::ArmTimer));
    match q.flush(10) {
        Step::Perform(b) => assert_eq!(b.len(), 1),
        _ => panic!("expected a batch"),
    }
}
