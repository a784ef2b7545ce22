//! The source stage's forwarding order: each fetched item goes downstream on
//! its own, in fetch order, and the fetch completes only once every item has
//! been acknowledged.

use vstd::prelude::*;

verus! {

/// How many items one fetch asks the source for.
pub const POSTS_PER_FETCH: usize = 10;

/// What the shell does next for a fetched batch.
#[derive(Clone, Copy, Debug, PartialEq, Eq, Structural)]
pub enum FetchStep {
    /// Forward the item at this index downstream and wait for its
    /// acknowledgment.
    Forward(usize),
    /// The item forwarded last is not acknowledged yet.
    Wait,
    /// Every item has been acknowledged: the fetch is answered.
    Finished,
}

/// Progress through one fetched batch.
pub struct FetchRun {
    total: usize,
    acknowledged: usize,
    awaiting: bool,
}

/// The model of a batch in progress: its size, how many items (a prefix, in
/// fetch order) are acknowledged, and whether one is out.
pub ghost struct FetchView {
    pub total: nat,
    pub acknowledged: nat,
    pub awaiting: bool,
}

impl FetchView {
    pub open spec fn wf(self) -> bool {
        &&& self.acknowledged <= self.total
        &&& self.total <= usize::MAX
        &&& self.awaiting ==> self.acknowledged < self.total
    }
}

/// The step taken next, and the batch after it.
pub open spec fn after_step(v: FetchView) -> (FetchView, FetchStep) {
    if v.awaiting {
        (v, FetchStep::Wait)
    } else if v.acknowledged < v.total {
        (FetchView { awaiting: true, ..v }, FetchStep::Forward(v.acknowledged as usize))
    } else {
        (v, FetchStep::Finished)
    }
}

/// The batch after an acknowledgment for `index`, and whether it was the one
/// awaited. Any other acknowledgment changes nothing.
pub open spec fn after_ack(v: FetchView, index: usize) -> (FetchView, bool) {
    if v.awaiting && index == v.acknowledged {
        (FetchView { acknowledged: v.acknowledged + 1, awaiting: false, ..v }, true)
    } else {
        (v, false)
    }
}

/// Items go downstream one at a time and in fetch order: the item forwarded
/// is the first one not yet acknowledged, nothing is forwarded while one is
/// out, the batch finishes only when all of its items are acknowledged, and
/// an acknowledged item is never forwarded again.
pub proof fn lemma_sequential_forwarding(v: FetchView, index: usize)
    requires
        v.wf(),
    ensures
        after_step(v).1 matches FetchStep::Forward(i) ==> i == v.acknowledged && !v.awaiting
            && i < v.total,
        v.awaiting ==> after_step(v).1 == FetchStep::Wait,
        after_step(v).1 == FetchStep::Finished ==> v.acknowledged == v.total,
        after_step(v).0.wf(),
        index != v.acknowledged ==> after_ack(v, index) == (v, false),
        after_ack(v, index).1 ==> after_step(after_ack(v, index).0).1 != FetchStep::Forward(index),
{
}

impl FetchRun {
    pub closed spec fn view(&self) -> FetchView {
        FetchView { total: self.total as nat, acknowledged: self.acknowledged as nat, awaiting: self.awaiting }
    }

    /// A batch of `total` fetched items, none forwarded yet.
    pub fn new(total: usize) -> (r: Self)
        ensures
            r.view() == (FetchView { total: total as nat, acknowledged: 0, awaiting: false }),
            r.view().wf(),
    {
        FetchRun { total, acknowledged: 0, awaiting: false }
    }

    /// Number of items acknowledged so far.
    pub fn acknowledged(&self) -> (r: usize)
        ensures
            r == self.view().acknowledged,
    {
        self.acknowledged
    }

    /// Decides what to do next.
    pub fn next_step(&mut self) -> (r: FetchStep)
        requires
            old(self).view().wf(),
        ensures
            (final(self).view(), r) == after_step(old(self).view()),
            final(self).view().wf(),
    {
        if self.awaiting {
            FetchStep::Wait
        } else if self.acknowledged < self.total {
            self.awaiting = true;
            FetchStep::Forward(self.acknowledged)
        } else {
            FetchStep::Finished
        }
    }

    /// Downstream acknowledged the item at `index`.
    pub fn acknowledge(&mut self, index: usize) -> (r: bool)
        requires
            old(self).view().wf(),
        ensures
            (final(self).view(), r) == after_ack(old(self).view(), index),
            final(self).view().wf(),
    {
        if self.awaiting && index == self.acknowledged {
            self.acknowledged = self.acknowledged + 1;
            self.awaiting = false;
            true
        } else {
            false
        }
    }
}

} // verus!
