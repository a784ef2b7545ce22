//! The persisted dedup record of a work item and its byte encoding.

use vstd::prelude::*;

verus! {

/// Where a work item stands: never attempted, started but not finished, or
/// finished.
#[derive(Clone, Copy, Debug, PartialEq, Eq, Structural)]
pub enum DedupState {
    Unseen,
    InProgress,
    Done,
}

/// Bytes stored for a finished item: `true`.
pub open spec fn done_marker() -> Seq<u8> {
    seq![116u8, 114u8, 117u8, 101u8]
}

/// Bytes stored for an item whose side effect has not completed: `false`.
pub open spec fn in_progress_marker() -> Seq<u8> {
    seq![102u8, 97u8, 108u8, 115u8, 101u8]
}

/// The bytes that record a stored state. `Unseen` is never stored: it is the
/// absence of a record.
pub open spec fn marker_of(s: DedupState) -> Seq<u8> {
    match s {
        DedupState::Done => done_marker(),
        DedupState::InProgress => in_progress_marker(),
        DedupState::Unseen => Seq::empty(),
    }
}

/// The state that a stored record stands for, or `None` when the stored bytes
/// are neither marker.
pub open spec fn state_of(stored: Option<Seq<u8>>) -> Option<DedupState> {
    match stored {
        None => Some(DedupState::Unseen),
        Some(b) => if b == done_marker() {
            Some(DedupState::Done)
        } else if b == in_progress_marker() {
            Some(DedupState::InProgress)
        } else {
            None
        },
    }
}

/// The only legal moves of a record: `Unseen` to `InProgress` to `Done`.
pub open spec fn legal_transition(from: DedupState, to: DedupState) -> bool {
    (from == DedupState::Unseen && to == DedupState::InProgress) || (from
        == DedupState::InProgress && to == DedupState::Done)
}

/// Decoding the stored bytes of a state gives that state back.
pub proof fn lemma_marker_round_trip(s: DedupState)
    requires
        s != DedupState::Unseen,
    ensures
        state_of(Some(marker_of(s))) == Some(s),
{
    assert(done_marker() != in_progress_marker()) by {
        assert(done_marker().len() != in_progress_marker().len());
    }
}

/// Byte-wise equality of two slices.
fn bytes_equal(a: &[u8], b: &[u8]) -> (r: bool)
    ensures
        r == (a@ == b@),
{
    if a.len() != b.len() {
        return false;
    }
    let mut i: usize = 0;
    while i < a.len()
        invariant
            a@.len() == b@.len(),
            i <= a@.len(),
            forall|j: int| 0 <= j < i ==> a@[j] == b@[j],
        decreases a@.len() - i,
    {
        if a[i] != b[i] {
            return false;
        }
        i = i + 1;
    }
    assert(a@ =~= b@);
    true
}

/// The bytes to store for a state that is recorded.
pub fn record_value(s: DedupState) -> (r: Vec<u8>)
    requires
        s != DedupState::Unseen,
    ensures
        r@ == marker_of(s),
{
    let r = match s {
        DedupState::Done => vec![116u8, 114u8, 117u8, 101u8],
        _ => vec![102u8, 97u8, 108u8, 115u8, 101u8],
    };
    assert(r@ =~= marker_of(s));
    r
}

/// Reads a stored record. `Err` carries the stored bytes when they are neither
/// marker.
pub fn decode_record(stored: Option<&[u8]>) -> (r: Result<DedupState, Vec<u8>>)
    ensures
        match stored {
            None => r == Ok::<DedupState, Vec<u8>>(DedupState::Unseen),
            Some(b) => match state_of(Some(b@)) {
                Some(s) => r == Ok::<DedupState, Vec<u8>>(s),
                None => r is Err && r->Err_0@ == b@,
            },
        },
{
    match stored {
        None => Ok(DedupState::Unseen),
        Some(b) => {
            let done = record_value(DedupState::Done);
            let started = record_value(DedupState::InProgress);
            if bytes_equal(b, done.as_slice()) {
                Ok(DedupState::Done)
            } else if bytes_equal(b, started.as_slice()) {
                Ok(DedupState::InProgress)
            } else {
                Err(vstd::slice::slice_to_vec(b))
            }
        },
    }
}

/// Whether a record may move from one state to another.
pub fn can_transition(from: DedupState, to: DedupState) -> (r: bool)
    ensures
        r == legal_transition(from, to),
{
    match (from, to) {
        (DedupState::Unseen, DedupState::InProgress) => true,
        (DedupState::InProgress, DedupState::Done) => true,
        _ => false,
    }
}

} // verus!
