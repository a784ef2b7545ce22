use frame_relay::dedup::{can_transition, decode_record, record_value, DedupState};
use frame_relay::farcaster::{
    claim_for, disposition, Claim, Disposition, FarcasterActor, PostOutcome, ProcessError,
};
use frame_relay::store::Store;

fn temporary_actor() -> FarcasterActor {
    FarcasterActor::new(Store::temporary().unwrap())
}

#[test]
fn new_post_runs_once_and_ends_done() {
    let mut actor = temporary_actor();
    assert_eq!(actor.record("abc123").unwrap(), DedupState::Unseen);

    let claim = actor.begin_post("abc123").unwrap();
    assert_eq!(claim, Claim::Claimed);
    assert_eq!(actor.record("abc123").unwrap(), DedupState::InProgress);

    actor.finish_post("abc123").unwrap();
    assert_eq!(actor.record("abc123").unwrap(), DedupState::Done);
}

#[test]
fn empty_store_process_is_processed() {
    let mut actor = temporary_actor();
    let outcome = actor.handle_post("abc123").unwrap();
    assert_eq!(outcome, PostOutcome::Processed);
    assert_eq!(actor.record("abc123").unwrap(), DedupState::Done);
}

#[test]
fn done_post_is_skipped() {
    let mut actor = temporary_actor();
    actor.handle_post("abc123").unwrap();
    assert_eq!(actor.record("abc123").unwrap(), DedupState::Done);
    assert_eq!(actor.handle_post("abc123").unwrap(), PostOutcome::AlreadyDone);
    assert_eq!(actor.record("abc123").unwrap(), DedupState::Done);
}

#[test]
fn interrupted_post_is_left_alone() {
    let mut actor = temporary_actor();
    // an attempt that claimed the post and never finished
    assert_eq!(actor.begin_post("abc123").unwrap(), Claim::Claimed);
    assert_eq!(actor.record("abc123").unwrap(), DedupState::InProgress);
    assert_eq!(actor.handle_post("abc123").unwrap(), PostOutcome::Interrupted);
    assert_eq!(actor.record("abc123").unwrap(), DedupState::InProgress);
    assert_eq!(actor.begin_post("abc123").unwrap(), Claim::Skip(PostOutcome::Interrupted));
}

#[test]
fn processing_twice_runs_side_effect_once() {
    let mut actor = temporary_actor();
    let mut runs = 0;
    for _ in 0..2 {
        if actor.handle_post("abc123").unwrap() == PostOutcome::Processed {
            runs += 1;
        }
    }
    assert_eq!(runs, 1);
    assert_eq!(actor.handle_post("abc123").unwrap(), PostOutcome::AlreadyDone);
}

#[test]
fn distinct_posts_are_independent() {
    let mut actor = temporary_actor();
    assert_eq!(actor.handle_post("first_post").unwrap(), PostOutcome::Processed);
    assert_eq!(actor.record("second_post").unwrap(), DedupState::Unseen);
    assert_eq!(actor.handle_post("second_post").unwrap(), PostOutcome::Processed);
    assert_eq!(actor.handle_post("first_post").unwrap(), PostOutcome::AlreadyDone);
}

#[test]
fn raw_store_reads_back_what_was_written() {
    let mut store = Store::temporary().unwrap();
    assert_eq!(store.get(b"k").unwrap(), None);
    store.insert(b"k", b"maybe".to_vec()).unwrap();
    store.insert(b"j", b"true".to_vec()).unwrap();
    assert_eq!(store.get(b"k").unwrap(), Some(b"maybe".to_vec()));
    let mut actor = FarcasterActor::new(store);
    match actor.handle_post("k") {
        Err(ProcessError::Corrupt(bytes)) => assert_eq!(bytes, b"maybe".to_vec()),
        other => panic!("unexpected {:?}", other),
    }
    assert!(matches!(actor.record("k"), Err(ProcessError::Corrupt(_))));
    assert_eq!(actor.handle_post("j").unwrap(), PostOutcome::AlreadyDone);
    assert_eq!(actor.handle_post("other").unwrap(), PostOutcome::Processed);
}

#[test]
fn records_round_trip() {
    assert_eq!(record_value(DedupState::Done), b"true".to_vec());
    assert_eq!(record_value(DedupState::InProgress), b"false".to_vec());
    assert_eq!(decode_record(None), Ok(DedupState::Unseen));
    assert_eq!(decode_record(Some(b"true")), Ok(DedupState::Done));
    assert_eq!(decode_record(Some(b"false")), Ok(DedupState::InProgress));
    assert_eq!(decode_record(Some(b"tru")), Err(b"tru".to_vec()));
    assert_eq!(decode_record(Some(b"")), Err(Vec::new()));
}

#[test]
fn only_forward_transitions_are_legal() {
    assert!(can_transition(DedupState::Unseen, DedupState::InProgress));
    assert!(can_transition(DedupState::InProgress, DedupState::Done));
    assert!(!can_transition(DedupState::Unseen, DedupState::Done));
    assert!(!can_transition(DedupState::Done, DedupState::InProgress));
    assert!(!can_transition(DedupState::InProgress, DedupState::Unseen));
    assert!(!can_transition(DedupState::Done, DedupState::Done));
}

#[test]
fn claims_follow_the_stored_record() {
    assert_eq!(claim_for(None), Ok(Claim::Claimed));
    assert_eq!(claim_for(Some(b"true")), Ok(Claim::Skip(PostOutcome::AlreadyDone)));
    assert_eq!(claim_for(Some(b"false")), Ok(Claim::Skip(PostOutcome::Interrupted)));
    assert_eq!(claim_for(Some(b"yes")), Err(b"yes".to_vec()));
}

#[test]
fn corrupt_record_fails_only_its_request_and_store_errors_stop() {
    assert_eq!(disposition(&Ok(PostOutcome::Processed)), Disposition::Reply);
    assert_eq!(disposition(&Ok(PostOutcome::AlreadyDone)), Disposition::Reply);
    assert_eq!(disposition(&Ok(PostOutcome::Interrupted)), Disposition::Reply);
    assert_eq!(
        disposition(&Err(ProcessError::Corrupt(b"maybe".to_vec()))),
        Disposition::FailRequest
    );
    let store_error = sled::Error::Unsupported("closed".to_string());
    assert_eq!(disposition(&Err(ProcessError::Store(store_error))), Disposition::Stop);
}
