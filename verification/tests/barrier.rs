use cancellable_barrier::Arrival;
use cancellable_barrier::CancellableBarrier;
use cancellable_barrier::CancelledBarrier;
use cancellable_barrier::Wake;

#[test]
fn test_basic_barrier() {
    // Three participants; nobody is released before all three have arrived.
    let mut b = CancellableBarrier::new(3);
    assert_eq!(b.arrive().unwrap(), Arrival::Waiting(0));
    assert_eq!(b.check_wake(0).unwrap(), Wake::KeepWaiting);
    assert_eq!(b.arrive().unwrap(), Arrival::Waiting(0));
    assert_eq!(b.check_wake(0).unwrap(), Wake::KeepWaiting);
    // The last arrival completes the round; both waiters are then released
    // with the same round index.
    assert_eq!(b.arrive().unwrap(), Arrival::Released(0));
    assert_eq!(b.check_wake(0).unwrap(), Wake::Released(0));
    assert_eq!(b.check_wake(0).unwrap(), Wake::Released(0));
    assert_eq!(b.generation(), 1);
}

#[test]
fn test_cancel_barrier() {
    // Two of three participants arrive and block; a cancellation fails them
    // both, and the canceller's own later arrival fails too.
    let mut b = CancellableBarrier::new(3);
    assert_eq!(b.arrive().unwrap(), Arrival::Waiting(0));
    assert_eq!(b.arrive().unwrap(), Arrival::Waiting(0));
    b.cancel();
    assert!(b.check_wake(0).is_err());
    assert!(b.check_wake(0).is_err());
    assert!(b.arrive().is_err());
}

#[test]
fn test_reset_barrier() {
    // Cancelled: waiting fails. After a reset the barrier works again.
    let mut b = CancellableBarrier::new(2);
    b.cancel();
    assert!(b.arrive().is_err());
    b.reset();
    assert_eq!(b.arrive().unwrap(), Arrival::Waiting(1));
    assert_eq!(b.arrive().unwrap(), Arrival::Released(1));
    assert_eq!(b.check_wake(1).unwrap(), Wake::Released(1));
}

#[test]
fn test_liveness_single_participant() {
    // With one participant every arrival completes a round at once.
    let mut b = CancellableBarrier::new(1);
    assert_eq!(b.arrive().unwrap(), Arrival::Released(0));
    assert_eq!(b.arrive().unwrap(), Arrival::Released(1));
    assert_eq!(b.arrive().unwrap(), Arrival::Released(2));
}

#[test]
fn test_liveness_larger_group() {
    // Five participants: the first four wait, the fifth releases the round.
    let mut b = CancellableBarrier::new(5);
    for _ in 0..4 {
        assert_eq!(b.arrive().unwrap(), Arrival::Waiting(0));
        assert_eq!(b.check_wake(0).unwrap(), Wake::KeepWaiting);
    }
    assert_eq!(b.arrive().unwrap(), Arrival::Released(0));
    for _ in 0..4 {
        assert_eq!(b.check_wake(0).unwrap(), Wake::Released(0));
    }
}

#[test]
fn test_generation_monotonic() {
    // Round indices of successive completed rounds strictly increase, and a
    // reset advances the index even when no round completed.
    let mut b = CancellableBarrier::new(2);
    assert_eq!(b.generation(), 0);
    assert_eq!(b.arrive().unwrap(), Arrival::Waiting(0));
    assert_eq!(b.arrive().unwrap(), Arrival::Released(0));
    assert_eq!(b.generation(), 1);
    assert_eq!(b.arrive().unwrap(), Arrival::Waiting(1));
    assert_eq!(b.arrive().unwrap(), Arrival::Released(1));
    assert_eq!(b.generation(), 2);
    b.reset();
    assert_eq!(b.generation(), 3);
    assert_eq!(b.arrive().unwrap(), Arrival::Waiting(3));
    assert_eq!(b.arrive().unwrap(), Arrival::Released(3));
    assert_eq!(b.generation(), 4);
}

#[test]
fn test_cancel_idempotent() {
    // A second cancel changes nothing observable: same flag, same round
    // index, and the same behaviour after a reset.
    let mut once = CancellableBarrier::new(2);
    once.cancel();
    let mut twice = CancellableBarrier::new(2);
    twice.cancel();
    twice.cancel();
    assert_eq!(once.is_cancelled(), twice.is_cancelled());
    assert_eq!(once.generation(), twice.generation());
    assert_eq!(once.arrive(), twice.arrive());
    once.reset();
    twice.reset();
    assert_eq!(once.arrive(), twice.arrive());
    assert_eq!(once.arrive(), twice.arrive());
    assert_eq!(once.generation(), twice.generation());
}

#[test]
fn test_cancel_keeps_bookkeeping() {
    // Cancellation touches only the sticky flag: the round index moves no
    // further than the reset that follows.
    let mut b = CancellableBarrier::new(3);
    assert_eq!(b.arrive().unwrap(), Arrival::Waiting(0));
    b.cancel();
    assert!(b.is_cancelled());
    assert_eq!(b.generation(), 0);
    b.reset();
    assert!(!b.is_cancelled());
    assert_eq!(b.generation(), 1);
}

#[test]
fn test_cancelled_error_value() {
    // Arrival at a cancelled barrier and the wake-check of a cancelled round
    // both fail with the one error value.
    let mut b = CancellableBarrier::new(2);
    assert_eq!(b.arrive().unwrap(), Arrival::Waiting(0));
    b.cancel();
    assert_eq!(b.arrive(), Err(CancelledBarrier {}));
    assert_eq!(b.check_wake(0), Err(CancelledBarrier {}));
}

#[test]
fn test_reentrant_across_rounds() {
    // A participant arriving after its round completed is a fresh arrival in
    // the new round: the barrier is cyclic, not one-shot.
    let mut b = CancellableBarrier::new(2);
    assert_eq!(b.arrive().unwrap(), Arrival::Waiting(0));
    assert_eq!(b.arrive().unwrap(), Arrival::Released(0));
    assert_eq!(b.arrive().unwrap(), Arrival::Waiting(1));
    assert_eq!(b.check_wake(1).unwrap(), Wake::KeepWaiting);
    assert_eq!(b.arrive().unwrap(), Arrival::Released(1));
    assert_eq!(b.check_wake(1).unwrap(), Wake::Released(1));
}

#[test]
fn test_completion_wins_over_late_cancel() {
    // Once a round has completed, its waiters are released with success even
    // if a cancellation lands before they re-check: a completed round is
    // never reported as a mix of success and failure.
    let mut b = CancellableBarrier::new(2);
    assert_eq!(b.arrive().unwrap(), Arrival::Waiting(0));
    assert_eq!(b.arrive().unwrap(), Arrival::Released(0));
    b.cancel();
    assert_eq!(b.check_wake(0).unwrap(), Wake::Released(0));
    // A participant of the next, still-open round does observe the failure.
    assert_eq!(b.check_wake(1), Err(CancelledBarrier {}));
}

#[test]
fn test_spurious_wakeup_keeps_waiting() {
    // As long as the round is open and not cancelled, every re-check tells
    // the waiter to keep waiting, however often it is woken.
    let mut b = CancellableBarrier::new(3);
    assert_eq!(b.arrive().unwrap(), Arrival::Waiting(0));
    for _ in 0..5 {
        assert_eq!(b.check_wake(0).unwrap(), Wake::KeepWaiting);
    }
    assert!(!b.is_cancelled());
}
