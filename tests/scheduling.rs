use frame_relay::fetch::{FetchRun, FetchStep, POSTS_PER_FETCH};
use frame_relay::mailbox::{ActorLoop, LoopPhase, SendOutcome};

#[test]
fn full_mailbox_pushes_back_without_dropping() {
    let mut l = ActorLoop::new(2, 1);
    assert_eq!(l.send(1), SendOutcome::Queued);
    assert_eq!(l.send(2), SendOutcome::Queued);
    assert_eq!(l.send(3), SendOutcome::Full);
    assert_eq!(l.start_next(), Some(1));
    assert_eq!(l.start_next(), None);
    assert_eq!(l.send(3), SendOutcome::Queued);
    assert!(l.complete(1));
    assert_eq!(l.start_next(), Some(2));
    assert!(l.complete(2));
    assert_eq!(l.start_next(), Some(3));
    assert!(l.complete(3));
    assert_eq!(l.in_flight_count(), 0);
}

#[test]
fn same_sender_is_admitted_in_order() {
    let mut l = ActorLoop::new(100, 10);
    assert_eq!(l.send(7), SendOutcome::Queued);
    assert_eq!(l.send(8), SendOutcome::Queued);
    assert_eq!(l.start_next(), Some(7));
    assert_eq!(l.start_next(), Some(8));
    assert_eq!(l.in_flight_count(), 2);
}

#[test]
fn cancel_drains_in_flight_and_rejects_waiting() {
    let mut l = ActorLoop::new(10, 2);
    for id in 1..=5 {
        assert_eq!(l.send(id), SendOutcome::Queued);
    }
    assert_eq!(l.start_next(), Some(1));
    assert_eq!(l.start_next(), Some(2));
    assert_eq!(l.cancel(), vec![3, 4, 5]);
    assert_eq!(l.phase(), LoopPhase::Draining);
    assert_eq!(l.send(6), SendOutcome::Closed);
    assert_eq!(l.start_next(), None);
    assert!(l.complete(2));
    assert_eq!(l.phase(), LoopPhase::Draining);
    assert!(l.complete(1));
    assert_eq!(l.phase(), LoopPhase::Stopped);
    assert_eq!(l.cancel(), Vec::<u64>::new());
}

#[test]
fn cancel_when_idle_stops_at_once() {
    let mut l = ActorLoop::new(1, 1);
    assert!(l.has_room());
    assert_eq!(l.cancel(), Vec::<u64>::new());
    assert_eq!(l.phase(), LoopPhase::Stopped);
    assert!(!l.has_room());
}

#[test]
fn completing_unknown_id_changes_nothing() {
    let mut l = ActorLoop::new(1, 1);
    assert_eq!(l.send(4), SendOutcome::Queued);
    assert!(!l.complete(4));
    assert_eq!(l.start_next(), Some(4));
    assert!(!l.complete(5));
    assert_eq!(l.in_flight_count(), 1);
}

#[test]
fn fetch_forwards_each_item_in_order() {
    let mut run = FetchRun::new(3);
    let mut forwarded = Vec::new();
    loop {
        match run.next_step() {
            FetchStep::Forward(i) => {
                forwarded.push(i);
                assert_eq!(run.next_step(), FetchStep::Wait);
                assert!(!run.acknowledge(i + 1));
                assert!(run.acknowledge(i));
            }
            FetchStep::Wait => panic!("nothing is out"),
            FetchStep::Finished => break,
        }
    }
    assert_eq!(forwarded, vec![0, 1, 2]);
    assert_eq!(run.acknowledged(), 3);
}

#[test]
fn empty_fetch_finishes_at_once() {
    let mut run = FetchRun::new(0);
    assert_eq!(run.next_step(), FetchStep::Finished);
    assert_eq!(POSTS_PER_FETCH, 10);
}

#[test]
fn closed_channel_drains_like_cancel() {
    let mut l = ActorLoop::new(4, 1);
    assert_eq!(l.send(1), SendOutcome::Queued);
    assert_eq!(l.send(2), SendOutcome::Queued);
    assert_eq!(l.start_next(), Some(1));
    assert_eq!(l.close(), vec![2]);
    assert_eq!(l.phase(), LoopPhase::Draining);
    assert!(l.complete(1));
    assert_eq!(l.phase(), LoopPhase::Stopped);
}

#[test]
fn failed_handler_stops_the_loop() {
    let mut l = ActorLoop::new(4, 2);
    for id in 1..=4 {
        assert_eq!(l.send(id), SendOutcome::Queued);
    }
    assert_eq!(l.start_next(), Some(1));
    assert_eq!(l.start_next(), Some(2));
    assert_eq!(l.fail(9), None);
    assert_eq!(l.fail(1), Some(vec![3, 4, 2]));
    assert_eq!(l.phase(), LoopPhase::Stopped);
    assert_eq!(l.in_flight_count(), 0);
    assert_eq!(l.send(5), SendOutcome::Closed);
}
