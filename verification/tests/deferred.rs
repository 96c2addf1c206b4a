use lorian_bot::deferred::{
    DeferredAction, DeferredQueue, COMMISSION_CLOSE_DELAY, TICKET_CLOSE_DELAY, WARNING_DELAY,
};
use lorian_bot::time::Timestamp;

fn ts(secs: i64) -> Timestamp {
    Timestamp { secs, nanos: 0 }
}

const A: DeferredAction = DeferredAction::DeleteChannel { channel_id: 1 };
const B: DeferredAction = DeferredAction::DeleteMessage { channel_id: 2, message_id: 3 };
const C: DeferredAction = DeferredAction::DeleteChannel { channel_id: 4 };

#[test]
fn a_scheduled_deletion_is_handed_out_once_when_due() {
    let mut q = DeferredQueue::new();
    assert_eq!(q.schedule_at(A, 10, ts(100)), 0);
    assert_eq!(q.schedule_at(B, 3, ts(100)), 1);
    assert_eq!(q.schedule_at(C, 10, ts(101)), 2);
    assert_eq!(q.len(), 3);
    assert!(q.take_due_at(ts(102)).is_empty());
    assert_eq!(q.take_due_at(ts(103)), vec![B]);
    assert!(q.take_due_at(ts(103)).is_empty());
    assert_eq!(q.take_due_at(ts(200)), vec![A, C]);
    assert!(q.take_due_at(ts(1000)).is_empty());
    assert_eq!(q.len(), 0);
}

#[test]
fn a_cancelled_deletion_never_happens() {
    let mut q = DeferredQueue::new();
    let a = q.schedule_at(A, 10, ts(0));
    let b = q.schedule_at(B, 10, ts(0));
    assert!(q.cancel(a));
    assert!(!q.cancel(a));
    assert!(!q.cancel(99));
    assert_eq!(q.take_due_at(ts(5)), vec![]);
    assert_eq!(q.len(), 1);
    assert_eq!(q.take_due_at(ts(10)), vec![B]);
    assert!(!q.cancel(b));
    assert_eq!(q.len(), 0);
}

#[test]
fn due_times_do_not_overflow() {
    let mut q = DeferredQueue::new();
    q.schedule_at(A, u64::MAX, ts(i64::MAX - 1));
    q.schedule_at(B, 0, Timestamp { secs: 5, nanos: 9 });
    assert_eq!(q.take_due_at(Timestamp { secs: 5, nanos: 8 }), vec![]);
    assert_eq!(q.take_due_at(Timestamp { secs: 5, nanos: 9 }), vec![B]);
    assert!(q.take_due_at(ts(i64::MAX - 1)).is_empty());
    assert_eq!(q.take_due_at(Timestamp { secs: i64::MAX, nanos: 0 }), vec![A]);
}

#[test]
fn scheduling_from_now_uses_the_clock() {
    let mut q = DeferredQueue::new();
    q.schedule(A, 0);
    q.schedule(B, 1_000_000);
    assert_eq!(q.take_due(), vec![A]);
    assert!(q.take_due().is_empty());
    assert_eq!(q.len(), 1);
    assert_eq!((COMMISSION_CLOSE_DELAY, TICKET_CLOSE_DELAY, WARNING_DELAY), (10, 3, 10));
}
