//! The sink stage: processes each post at most once, keyed by its shortcode,
//! with a two-phase record so that an interrupted attempt stays visible.

use crate::dedup::{decode_record, record_value, state_of, marker_of, DedupState};
use crate::store::{lookup, Store};
use vstd::prelude::*;
use vstd::string::StringSliceAdditionalSpecFns;

verus! {

/// The sink actor's private state: the durable store of dedup records, and
/// the history of what the actor did to it.
pub struct FarcasterActor {
    store: Store,
    history: Ghost<Seq<ProcessEvent>>,
}

/// One step in the history of a sink actor.
pub ghost enum ProcessEvent {
    /// A record was written to the store, and the write succeeded.
    Wrote(Seq<u8>, Seq<u8>),
    /// The side effect of the post with this key ran.
    RanSideEffect(Seq<u8>),
}

/// What the actor does with a request once its post has been handled.
#[derive(Clone, Copy, Debug, PartialEq, Eq, Structural)]
pub enum Disposition {
    /// Answer the caller: the post is handled.
    Reply,
    /// Fail this request alone: its record is corrupt.
    FailRequest,
    /// The store failed: stop the actor with the error.
    Stop,
}

/// A processed post gets its reply, a corrupt record fails its own request
/// only, and a store failure stops the actor.
pub fn disposition(r: &Result<PostOutcome, ProcessError>) -> (d: Disposition)
    ensures
        r is Ok <==> d == Disposition::Reply,
        (r matches Err(ProcessError::Corrupt(_))) <==> d == Disposition::FailRequest,
        (r matches Err(ProcessError::Store(_))) <==> d == Disposition::Stop,
{
    match r {
        Ok(_) => Disposition::Reply,
        Err(ProcessError::Corrupt(_)) => Disposition::FailRequest,
        Err(ProcessError::Store(_)) => Disposition::Stop,
    }
}

/// What happened to a post.
#[derive(Clone, Copy, Debug, PartialEq, Eq, Structural)]
pub enum PostOutcome {
    /// The post was new: it was marked in progress, its side effect ran, and
    /// it was marked done.
    Processed,
    /// The post was already done: nothing ran.
    AlreadyDone,
    /// A previous attempt was interrupted after marking the post in progress:
    /// nothing ran, and the record is left as it was.
    Interrupted,
}

/// Why a post could not be processed.
#[derive(Debug)]
pub enum ProcessError {
    /// The store failed to read or write.
    Store(sled::Error),
    /// The record held bytes that are neither marker.
    Corrupt(Vec<u8>),
}

/// Result of the first phase: whether the caller now owns the side effect.
#[derive(Clone, Copy, Debug, PartialEq, Eq, Structural)]
pub enum Claim {
    /// The record moved from `Unseen` to `InProgress`: run the side effect,
    /// then finish.
    Claimed,
    /// Nothing to do; the outcome to report.
    Skip(PostOutcome),
}

/// The outcome of processing `key` against a store holding `contents`, or
/// `None` when its record is corrupt.
pub open spec fn outcome_of(contents: Map<Seq<u8>, Seq<u8>>, key: Seq<u8>) -> Option<PostOutcome> {
    match state_of(lookup(contents, key)) {
        Some(DedupState::Unseen) => Some(PostOutcome::Processed),
        Some(DedupState::Done) => Some(PostOutcome::AlreadyDone),
        Some(DedupState::InProgress) => Some(PostOutcome::Interrupted),
        None => None,
    }
}

/// The store after processing `key`: a new key ends up done, every other
/// record is left alone.
pub open spec fn contents_after(contents: Map<Seq<u8>, Seq<u8>>, key: Seq<u8>) -> Map<Seq<u8>, Seq<u8>> {
    if outcome_of(contents, key) == Some(PostOutcome::Processed) {
        contents.insert(key, marker_of(DedupState::Done))
    } else {
        contents
    }
}

/// What processing a new post does, in order: mark it in progress, run its
/// side effect, mark it done.
pub open spec fn processing_steps(key: Seq<u8>) -> Seq<ProcessEvent> {
    seq![
        ProcessEvent::Wrote(key, marker_of(DedupState::InProgress)),
        ProcessEvent::RanSideEffect(key),
        ProcessEvent::Wrote(key, marker_of(DedupState::Done)),
    ]
}

/// Processing a post twice in a row runs its side effect at most once: the
/// second attempt finds it done and leaves the store as it was.
pub proof fn lemma_process_idempotent(contents: Map<Seq<u8>, Seq<u8>>, key: Seq<u8>)
    requires
        outcome_of(contents, key) is Some,
    ensures
        outcome_of(contents_after(contents, key), key) != Some(PostOutcome::Processed),
        outcome_of(contents, key) == Some(PostOutcome::Processed) ==> outcome_of(
            contents_after(contents, key),
            key,
        ) == Some(PostOutcome::AlreadyDone),
        contents_after(contents_after(contents, key), key) == contents_after(contents, key),
{
    crate::dedup::lemma_marker_round_trip(DedupState::Done);
    crate::dedup::lemma_marker_round_trip(DedupState::InProgress);
}

/// Once a post has a record, done or in progress (as after any successful
/// processing of it), processing it again succeeds without running its side
/// effect and leaves the store as it was.
pub proof fn lemma_recorded_post_is_not_rerun(contents: Map<Seq<u8>, Seq<u8>>, key: Seq<u8>)
    requires
        lookup(contents, key) == Some(marker_of(DedupState::Done)) || lookup(contents, key)
            == Some(marker_of(DedupState::InProgress)),
    ensures
        outcome_of(contents, key) is Some,
        outcome_of(contents, key) != Some(PostOutcome::Processed),
        contents_after(contents, key) == contents,
{
    crate::dedup::lemma_marker_round_trip(DedupState::Done);
    crate::dedup::lemma_marker_round_trip(DedupState::InProgress);
}

/// A post whose record reads `InProgress` is not processed again, and its record
/// stays as evidence of the interruption.
pub proof fn lemma_interrupted_is_left_alone(contents: Map<Seq<u8>, Seq<u8>>, key: Seq<u8>)
    requires
        lookup(contents, key) == Some(marker_of(DedupState::InProgress)),
    ensures
        outcome_of(contents, key) == Some(PostOutcome::Interrupted),
        contents_after(contents, key) == contents,
{
    crate::dedup::lemma_marker_round_trip(DedupState::InProgress);
}

/// The claim for a record as read from the store: an unseen post is claimed,
/// a done or interrupted one is skipped, and unknown bytes come back as the
/// error.
pub fn claim_for(stored: Option<&[u8]>) -> (r: Result<Claim, Vec<u8>>)
    ensures
        ({
            let bytes = match stored {
                Some(b) => Some(b@),
                None => None,
            };
            match r {
                Ok(Claim::Claimed) => state_of(bytes) == Some(DedupState::Unseen),
                Ok(Claim::Skip(PostOutcome::AlreadyDone)) => state_of(bytes) == Some(DedupState::Done),
                Ok(Claim::Skip(PostOutcome::Interrupted)) => state_of(bytes) == Some(
                    DedupState::InProgress,
                ),
                Ok(Claim::Skip(PostOutcome::Processed)) => false,
                Err(b) => state_of(bytes) is None && bytes == Some(b@),
            }
        }),
{
    match decode_record(stored) {
        Err(bytes) => Err(bytes),
        Ok(DedupState::Done) => Ok(Claim::Skip(PostOutcome::AlreadyDone)),
        Ok(DedupState::InProgress) => Ok(Claim::Skip(PostOutcome::Interrupted)),
        Ok(DedupState::Unseen) => Ok(Claim::Claimed),
    }
}

impl FarcasterActor {
    /// An actor over an opened store.
    pub fn new(store: Store) -> (r: Self)
        ensures
            r.contents() == store.contents(),
            r.history() == Seq::<ProcessEvent>::empty(),
    {
        FarcasterActor { store, history: Ghost(Seq::empty()) }
    }

    /// Everything the actor has done to its store, oldest first.
    pub closed spec fn history(&self) -> Seq<ProcessEvent> {
        self.history@
    }

    /// The records that the actor's store holds.
    pub closed spec fn contents(&self) -> Map<Seq<u8>, Seq<u8>> {
        self.store.contents()
    }

    /// The state of the record of `shortcode`; `Err` where the store fails or
    /// the record is corrupt.
    pub fn record(&self, shortcode: &str) -> (r: Result<DedupState, ProcessError>)
        ensures
            ({
                let stored = lookup(self.contents(), shortcode.spec_bytes());
                match r {
                    Ok(s) => state_of(stored) == Some(s),
                    Err(ProcessError::Corrupt(b)) => state_of(stored) is None && stored == Some(b@),
                    Err(ProcessError::Store(_)) => true,
                }
            }),
    {
        let stored = match self.store.get(shortcode.as_bytes()) {
            Ok(v) => v,
            Err(e) => return Err(ProcessError::Store(e)),
        };
        let state = match &stored {
            Some(b) => decode_record(Some(b.as_slice())),
            None => decode_record(None),
        };
        match state {
            Ok(s) => Ok(s),
            Err(bytes) => Err(ProcessError::Corrupt(bytes)),
        }
    }

    /// First phase: reads the record of `shortcode` and, where it is unseen,
    /// marks it in progress.
    pub fn begin_post(&mut self, shortcode: &str) -> (r: Result<Claim, ProcessError>)
        ensures
            ({
                let key = shortcode.spec_bytes();
                let before = old(self).contents();
                let h = old(self).history();
                match r {
                    Ok(Claim::Claimed) => outcome_of(before, key) == Some(PostOutcome::Processed)
                        && final(self).contents() == before.insert(
                        key,
                        marker_of(DedupState::InProgress),
                    ) && final(self).history() == h.push(
                        ProcessEvent::Wrote(key, marker_of(DedupState::InProgress)),
                    ),
                    Ok(Claim::Skip(o)) => outcome_of(before, key) == Some(o) && o
                        != PostOutcome::Processed && final(self).contents() == before
                        && final(self).history() == h,
                    Err(ProcessError::Corrupt(b)) => outcome_of(before, key) is None
                        && lookup(before, key) == Some(b@) && final(self).contents() == before
                        && final(self).history() == h,
                    Err(ProcessError::Store(_)) => final(self).history() == h && (final(self).contents()
                        == before || outcome_of(before, key) == Some(PostOutcome::Processed)),
                }
            }),
    {
        let key = shortcode.as_bytes();
        let stored = match self.store.get(key) {
            Ok(v) => v,
            Err(e) => return Err(ProcessError::Store(e)),
        };
        let claim = match &stored {
            Some(b) => claim_for(Some(b.as_slice())),
            None => claim_for(None),
        };
        match claim {
            Err(bytes) => Err(ProcessError::Corrupt(bytes)),
            Ok(Claim::Skip(o)) => Ok(Claim::Skip(o)),
            Ok(Claim::Claimed) => {
                match self.store.insert(key, record_value(DedupState::InProgress)) {
                    Ok(()) => {
                        proof {
                            self.history@ = self.history@.push(
                                ProcessEvent::Wrote(key@, marker_of(DedupState::InProgress)),
                            );
                        }
                        Ok(Claim::Claimed)
                    },
                    Err(e) => Err(ProcessError::Store(e)),
                }
            },
        }
    }

    /// Second phase: marks `shortcode` done once its side effect has completed.
    pub fn finish_post(&mut self, shortcode: &str) -> (r: Result<(), ProcessError>)
        ensures
            r is Ok ==> final(self).contents() == old(self).contents().insert(
                shortcode.spec_bytes(),
                marker_of(DedupState::Done),
            ) && final(self).history() == old(self).history().push(
                ProcessEvent::Wrote(shortcode.spec_bytes(), marker_of(DedupState::Done)),
            ),
            r matches Err(e) ==> e is Store && final(self).history() == old(self).history(),
    {
        match self.store.insert(shortcode.as_bytes(), record_value(DedupState::Done)) {
            Ok(()) => {
                proof {
                    self.history@ = self.history@.push(
                        ProcessEvent::Wrote(shortcode.spec_bytes(), marker_of(DedupState::Done)),
                    );
                }
                Ok(())
            },
            Err(e) => Err(ProcessError::Store(e)),
        }
    }

    /// Processes one post: a new one is marked in progress, its side effect
    /// runs, and it is marked done; a done or interrupted one is left alone.
    /// Fails on a corrupt record, and where the store fails. The side effect
    /// runs only after the in-progress record is written, and the done record
    /// is written only after it, so an interruption between the two leaves the
    /// in-progress record behind.
    pub fn handle_post(&mut self, shortcode: &str) -> (r: Result<PostOutcome, ProcessError>)
        ensures
            ({
                let key = shortcode.spec_bytes();
                let before = old(self).contents();
                let h = old(self).history();
                match r {
                    Ok(o) => outcome_of(before, key) == Some(o) && final(self).contents()
                        == contents_after(before, key) && final(self).history() == h + (if o
                        == PostOutcome::Processed {
                        processing_steps(key)
                    } else {
                        Seq::empty()
                    }),
                    Err(ProcessError::Corrupt(b)) => outcome_of(before, key) is None
                        && lookup(before, key) == Some(b@) && final(self).contents() == before
                        && final(self).history() == h,
                    Err(ProcessError::Store(_)) => (final(self).contents() == before
                        && final(self).history() == h) || (outcome_of(before, key) == Some(
                        PostOutcome::Processed,
                    ) && (final(self).history() == h || final(self).history() == h
                        + processing_steps(key).take(2))),
                }
            }),
    {
        match self.begin_post(shortcode) {
            Ok(Claim::Claimed) => {
                // The side effect of a newly claimed post runs here, between
                // the two records.
                proof {
                    self.history@ = self.history@.push(
                        ProcessEvent::RanSideEffect(shortcode.spec_bytes()),
                    );
                }
                let done = self.finish_post(shortcode);
                match done {
                    Ok(()) => {
                        proof {
                            let key = shortcode.spec_bytes();
                            assert(self.contents() =~= contents_after(old(self).contents(), key));
                            assert(self.history() =~= old(self).history() + processing_steps(key));
                        }
                        Ok(PostOutcome::Processed)
                    },
                    Err(e) => {
                        proof {
                            let key = shortcode.spec_bytes();
                            assert(self.history() =~= old(self).history() + processing_steps(
                                key,
                            ).take(2));
                        }
                        Err(e)
                    },
                }
            },
            Ok(Claim::Skip(o)) => {
                assert(self.history() =~= old(self).history() + Seq::<ProcessEvent>::empty());
                Ok(o)
            },
            Err(e) => Err(e),
        }
    }
}

} // verus!
