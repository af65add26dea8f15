use fofo::channel_cache::{
    pair_outputs, send_outcome, Action, BatchWorker, FlushReason, Intake, InvariantViolation,
    QueueError, TaskSlot,
};

fn flushed<S, T>(a: Action<S, T>) -> (FlushReason, Vec<S>, Vec<T>) {
    match a {
        Action::Flush { reason, values, responders } => (reason, values, responders),
        Action::Wait => panic!("expected a flush, got Wait"),
        Action::Idle => panic!("expected a flush, got Idle"),
    }
}

fn is_wait<S, T>(a: &Action<S, T>) -> bool {
    matches!(a, Action::Wait)
}

fn is_idle<S, T>(a: &Action<S, T>) -> bool {
    matches!(a, Action::Idle)
}

#[test]
fn two_items_flush_after_the_interval() {
    let mut w: BatchWorker<&str, u32> = BatchWorker::new(3, 500);
    assert!(is_wait(&w.step(Intake::Item("a", 1), 0)));
    assert!(is_wait(&w.step(Intake::Item("b", 2), 0)));
    assert!(is_wait(&w.step(Intake::Empty, 250)));
    assert!(is_wait(&w.step(Intake::Empty, 499)));
    let (reason, values, responders) = flushed(w.step(Intake::Empty, 500));
    assert_eq!(reason, FlushReason::Interval);
    assert_eq!(values, vec!["a", "b"]);
    let outputs: Vec<String> = values.iter().map(|v| v.to_uppercase()).collect();
    let pairs = pair_outputs(responders, outputs).unwrap();
    assert_eq!(pairs, vec![(1, "A".to_string()), (2, "B".to_string())]);
    assert_eq!(w.buffered(), 0);
    assert!(is_idle(&w.step(Intake::Empty, 501)));
}

#[test]
fn full_buffer_flushes_at_once() {
    let mut w: BatchWorker<&str, u32> = BatchWorker::new(3, 500);
    assert!(is_wait(&w.step(Intake::Item("a", 10), 0)));
    assert!(is_wait(&w.step(Intake::Item("b", 11), 1)));
    let (reason, values, responders) = flushed(w.step(Intake::Item("c", 12), 2));
    assert_eq!(reason, FlushReason::BufferFull);
    assert_eq!(values, vec!["a", "b", "c"]);
    assert_eq!(responders, vec![10, 11, 12]);
    assert_eq!(w.buffered(), 0);
}

#[test]
fn size_threshold_is_reported_before_time_threshold() {
    let mut w: BatchWorker<u8, u8> = BatchWorker::new(2, 5);
    assert!(is_wait(&w.step(Intake::Item(1, 1), 0)));
    let (reason, values, _) = flushed(w.step(Intake::Item(2, 2), 100));
    assert_eq!(reason, FlushReason::BufferFull);
    assert_eq!(values, vec![1, 2]);
}

#[test]
fn send_after_stop_fails() {
    let mut w: BatchWorker<&str, u32> = BatchWorker::new(3, 500);
    assert!(is_idle(&w.step(Intake::Sentinel, 0)));
    assert!(!w.is_running());
    let r: Result<String, QueueError> = send_outcome(w.is_running(), None);
    assert_eq!(r, Err(QueueError::SendFailed));
}

#[test]
fn stop_drains_the_buffer() {
    let mut w: BatchWorker<&str, u32> = BatchWorker::new(3, 500);
    assert!(is_wait(&w.step(Intake::Item("x", 4), 0)));
    let (reason, values, responders) = flushed(w.step(Intake::Sentinel, 10));
    assert_eq!(reason, FlushReason::Shutdown);
    assert_eq!(values, vec!["x"]);
    assert_eq!(responders, vec![4]);
    assert!(!w.is_running());
    assert_eq!(w.buffered(), 0);
}

#[test]
fn dropped_producers_stop_the_worker() {
    let mut w: BatchWorker<&str, u32> = BatchWorker::new(3, 500);
    assert!(is_wait(&w.step(Intake::Item("x", 4), 0)));
    let (reason, values, _) = flushed(w.step(Intake::Disconnected, 1));
    assert_eq!(reason, FlushReason::Shutdown);
    assert_eq!(values, vec!["x"]);
    assert!(!w.is_running());
}

#[test]
fn zero_interval_flushes_every_item() {
    let mut w: BatchWorker<u8, u8> = BatchWorker::new(10, 0);
    let (reason, values, _) = flushed(w.step(Intake::Item(7, 0), 3));
    assert_eq!(reason, FlushReason::Interval);
    assert_eq!(values, vec![7]);
}

#[test]
fn window_starts_with_the_first_item() {
    let mut w: BatchWorker<u8, u8> = BatchWorker::new(10, 100);
    assert!(is_idle(&w.step(Intake::Empty, 0)));
    assert!(is_wait(&w.step(Intake::Item(1, 1), 1000)));
    assert!(is_wait(&w.step(Intake::Item(2, 2), 1050)));
    assert!(is_wait(&w.step(Intake::Empty, 1099)));
    let (reason, values, _) = flushed(w.step(Intake::Empty, 1100));
    assert_eq!(reason, FlushReason::Interval);
    assert_eq!(values, vec![1, 2]);
}

#[test]
fn stop_slot_hands_out_the_handle_once() {
    let mut slot = TaskSlot::new(42u32);
    assert_eq!(slot.take(), Some(42));
    assert_eq!(slot.take(), None);
}

#[test]
fn outputs_follow_positions() {
    let mut w: BatchWorker<u32, &str> = BatchWorker::new(5, 1000);
    let callers = ["p", "q", "r", "s", "t"];
    let mut last = None;
    for (i, c) in callers.iter().enumerate() {
        last = Some(w.step(Intake::Item(i as u32 * 10, *c), i as u64));
    }
    let (_, values, responders) = flushed(last.unwrap());
    let outputs: Vec<u32> = values.iter().map(|v| v + 1).collect();
    let pairs = pair_outputs(responders, outputs).unwrap();
    assert_eq!(pairs, vec![("p", 1), ("q", 11), ("r", 21), ("s", 31), ("t", 41)]);
}

#[test]
fn abandoned_caller_does_not_affect_others() {
    let responders = vec!["a", "b", "c"];
    let outputs = vec![100, 200, 300];
    let pairs = pair_outputs(responders, outputs).unwrap();
    let abandoned = ["b"];
    let mut received = Vec::new();
    for (caller, value) in pairs {
        if abandoned.contains(&caller) {
            continue;
        }
        received.push((caller, value));
    }
    assert_eq!(received, vec![("a", 100), ("c", 300)]);
}

#[test]
fn output_count_mismatch_is_refused() {
    let r = pair_outputs(vec![1, 2], vec!["only one"]);
    assert_eq!(r, Err(InvariantViolation { responders: 2, outputs: 1 }));
    let r = pair_outputs(Vec::<u8>::new(), vec![1]);
    assert_eq!(r, Err(InvariantViolation { responders: 0, outputs: 1 }));
}

#[test]
fn empty_flush_pairs_nothing() {
    let r = pair_outputs(Vec::<u8>::new(), Vec::<u8>::new());
    assert_eq!(r, Ok(vec![]));
}

#[test]
fn send_outcomes() {
    assert_eq!(send_outcome(true, Some(5)), Ok(5));
    assert_eq!(send_outcome::<u8>(true, None), Err(QueueError::ReceiveFailed));
    assert_eq!(send_outcome(false, Some(5)), Err(QueueError::SendFailed));
}
