//! The scheduling core of an actor: a bounded mailbox of request ids, a bound
//! on the handlers in flight, and the `Running -> Draining -> Stopped` run-loop.
//! The async shell performs each action and reports each event back.

use vstd::prelude::*;

verus! {

/// Where a run-loop stands.
#[derive(Clone, Copy, Debug, PartialEq, Eq, Structural)]
pub enum LoopPhase {
    /// Takes new requests and admits them.
    Running,
    /// Cancelled: takes nothing new, lets admitted handlers finish.
    Draining,
    /// Every admitted handler has finished; the loop has returned.
    Stopped,
}

/// Answer to a request that asks for a mailbox slot.
#[derive(Clone, Copy, Debug, PartialEq, Eq, Structural)]
pub enum SendOutcome {
    /// The request waits in the mailbox, behind those sent before it.
    Queued,
    /// The mailbox is full: the sender waits and asks again.
    Full,
    /// The loop no longer takes requests: the sender's call fails.
    Closed,
}

/// An actor's run-loop state.
pub struct ActorLoop {
    phase: LoopPhase,
    capacity: usize,
    concurrency: usize,
    queue: Vec<u64>,
    in_flight: Vec<u64>,
}

/// The model of a run-loop: its phase, its two bounds, the ids waiting in the
/// mailbox in arrival order, and the ids admitted and not yet finished.
pub ghost struct LoopView {
    pub phase: LoopPhase,
    pub capacity: nat,
    pub concurrency: nat,
    pub queue: Seq<u64>,
    pub in_flight: Seq<u64>,
}

impl LoopView {
    /// The bounds hold, and only a running loop has anything waiting.
    pub open spec fn wf(self) -> bool {
        &&& self.capacity > 0
        &&& self.concurrency > 0
        &&& self.queue.len() <= self.capacity
        &&& self.in_flight.len() <= self.concurrency
        &&& self.phase != LoopPhase::Running ==> self.queue.len() == 0
        &&& self.phase == LoopPhase::Stopped ==> self.in_flight.len() == 0
        &&& self.phase == LoopPhase::Draining ==> self.in_flight.len() > 0
    }
}

/// The loop after a sender asks to enqueue `id`, and the answer.
pub open spec fn after_send(v: LoopView, id: u64) -> (LoopView, SendOutcome) {
    if v.phase != LoopPhase::Running {
        (v, SendOutcome::Closed)
    } else if v.queue.len() >= v.capacity {
        (v, SendOutcome::Full)
    } else {
        (LoopView { queue: v.queue.push(id), ..v }, SendOutcome::Queued)
    }
}

/// The loop after it tries to admit the oldest waiting request, and the id
/// admitted.
pub open spec fn after_admit(v: LoopView) -> (LoopView, Option<u64>) {
    if v.phase == LoopPhase::Running && v.queue.len() > 0 && v.in_flight.len() < v.concurrency {
        (
            LoopView { queue: v.queue.drop_first(), in_flight: v.in_flight.push(v.queue[0]), ..v },
            Some(v.queue[0]),
        )
    } else {
        (v, None)
    }
}

/// The loop after the cancellation signal, and the waiting ids that will
/// never be admitted: each of them is answered with a failure.
pub open spec fn after_cancel(v: LoopView) -> (LoopView, Seq<u64>) {
    if v.phase == LoopPhase::Running {
        (
            LoopView {
                phase: if v.in_flight.len() == 0 {
                    LoopPhase::Stopped
                } else {
                    LoopPhase::Draining
                },
                queue: Seq::empty(),
                ..v
            },
            v.queue,
        )
    } else {
        (v, Seq::empty())
    }
}

/// `i` is the first place of `id` in `s`.
pub open spec fn first_at(s: Seq<u64>, id: u64, i: int) -> bool {
    &&& 0 <= i < s.len()
    &&& s[i] == id
    &&& forall|j: int| 0 <= j < i ==> s[j] != id
}

/// `w` is the loop after the handler of `id` finished in `v`: its first
/// admitted copy leaves, and a draining loop with nothing left stops.
pub open spec fn completes(v: LoopView, id: u64, w: LoopView) -> bool {
    exists|i: int|
        first_at(v.in_flight, id, i) && w == (LoopView {
            in_flight: v.in_flight.remove(i),
            phase: if v.phase == LoopPhase::Draining && v.in_flight.len() == 1 {
                LoopPhase::Stopped
            } else {
                v.phase
            },
            ..v
        })
}

/// `w` is the loop after the handler of `id` failed in `v`, and `dropped` the
/// requests left without an answer: the loop stops at once, and every other
/// request, waiting or admitted, is handed back to be answered with a failure.
pub open spec fn fails(v: LoopView, id: u64, w: LoopView, dropped: Seq<u64>) -> bool {
    exists|i: int|
        first_at(v.in_flight, id, i) && w == (LoopView {
            phase: LoopPhase::Stopped,
            queue: Seq::empty(),
            in_flight: Seq::empty(),
            ..v
        }) && dropped == v.queue + v.in_flight.remove(i)
}

/// A request that waits is never dropped: a later send, even into a full
/// mailbox, leaves it waiting; admitting moves only the oldest waiting id, and
/// into the admitted set; cancelling hands every waiting id back to be
/// answered.
pub proof fn lemma_no_request_lost(v: LoopView, id: u64, other: u64)
    requires
        v.wf(),
        v.queue.contains(id),
    ensures
        after_admit(v).0.queue.contains(id) || after_admit(v).0.in_flight.contains(id),
        after_cancel(v).1.contains(id),
        after_send(v, other).0.queue.contains(id),
{
    let w = after_admit(v).0;
    if after_admit(v).1 is Some {
        let k = choose|k: int| 0 <= k < v.queue.len() && v.queue[k] == id;
        if k == 0 {
            assert(w.in_flight[w.in_flight.len() - 1] == id);
        } else {
            assert(w.queue[k - 1] == id);
        }
    }
    let k = choose|k: int| 0 <= k < v.queue.len() && v.queue[k] == id;
    if after_send(v, other).1 == SendOutcome::Queued {
        assert(after_send(v, other).0.queue[k] == id);
    }
}

/// A waiting request always moves forward while the loop runs: either the
/// oldest waiting request is admitted now, or every handler slot is taken, and
/// then the next handler to finish frees one and the oldest is admitted. Each
/// admission moves every other waiting request one place nearer the front.
pub proof fn lemma_waiting_request_progresses(v: LoopView, id: u64, k: int, done: u64, w: LoopView)
    requires
        v.wf(),
        v.phase == LoopPhase::Running,
        0 <= k < v.queue.len(),
        v.queue[k] == id,
    ensures
        after_admit(v).1 is Some ==> (k == 0 && after_admit(v).1 == Some(id)) || (k > 0
            && after_admit(v).0.queue[k - 1] == id),
        after_admit(v).1 is None ==> v.in_flight.len() == v.concurrency && v.concurrency > 0,
        after_admit(v).1 is None && completes(v, done, w) ==> after_admit(w).1 == Some(
            v.queue[0],
        ),
{
    if after_admit(v).1 is None && completes(v, done, w) {
        let i = choose|i: int|
            first_at(v.in_flight, done, i) && w == (LoopView {
                in_flight: v.in_flight.remove(i),
                phase: if v.phase == LoopPhase::Draining && v.in_flight.len() == 1 {
                    LoopPhase::Stopped
                } else {
                    v.phase
                },
                ..v
            });
        assert(w.in_flight.len() == v.in_flight.len() - 1);
    }
}

/// Two requests from one sender, `a` sent before `b`, keep that order through
/// every later send and admission: `a` is admitted first.
pub proof fn lemma_fifo_admission(v: LoopView, a: u64, b: u64, i: int, j: int, id: u64)
    requires
        v.wf(),
        0 <= i < j < v.queue.len(),
        v.queue[i] == a,
        v.queue[j] == b,
    ensures
        i == 0 && after_admit(v).1 is Some ==> after_admit(v).1 == Some(a),
        after_admit(v).1 == Some(a) || (after_admit(v).0.queue[i - (if after_admit(v).1 is Some {
            1int
        } else {
            0int
        })] == a && after_admit(v).0.queue[j - (if after_admit(v).1 is Some {
            1int
        } else {
            0int
        })] == b),
        after_send(v, id).0.queue[i] == a && after_send(v, id).0.queue[j] == b,
{
}

/// After the cancellation signal nothing more is admitted, and each finished
/// handler brings the loop one step closer to stopping: it stops exactly when
/// the last admitted handler finishes.
pub proof fn lemma_drain(v: LoopView, id: u64, w: LoopView)
    requires
        v.wf(),
        v.phase == LoopPhase::Draining,
        completes(v, id, w),
    ensures
        after_admit(v).1 is None,
        after_send(v, id).1 == SendOutcome::Closed,
        w.wf(),
        w.in_flight.len() == v.in_flight.len() - 1,
        w.phase == LoopPhase::Stopped <==> w.in_flight.len() == 0,
        w.phase != LoopPhase::Running,
{
}

impl ActorLoop {
    pub closed spec fn view(&self) -> LoopView {
        LoopView {
            phase: self.phase,
            capacity: self.capacity as nat,
            concurrency: self.concurrency as nat,
            queue: self.queue@,
            in_flight: self.in_flight@,
        }
    }

    /// A running loop with an empty mailbox of `capacity` slots that admits at
    /// most `concurrency` handlers at once.
    pub fn new(capacity: usize, concurrency: usize) -> (r: Self)
        requires
            capacity > 0,
            concurrency > 0,
        ensures
            r.view() == (LoopView {
                phase: LoopPhase::Running,
                capacity: capacity as nat,
                concurrency: concurrency as nat,
                queue: Seq::empty(),
                in_flight: Seq::empty(),
            }),
            r.view().wf(),
    {
        ActorLoop { phase: LoopPhase::Running, capacity, concurrency, queue: Vec::new(), in_flight: Vec::new() }
    }

    pub fn phase(&self) -> (r: LoopPhase)
        ensures
            r == self.view().phase,
    {
        self.phase
    }

    /// Whether the mailbox has a free slot for one more request.
    pub fn has_room(&self) -> (r: bool)
        ensures
            r == (self.view().phase == LoopPhase::Running && self.view().queue.len()
                < self.view().capacity),
    {
        self.phase == LoopPhase::Running && self.queue.len() < self.capacity
    }

    /// Number of handlers admitted and not yet finished.
    pub fn in_flight_count(&self) -> (r: usize)
        ensures
            r == self.view().in_flight.len(),
    {
        self.in_flight.len()
    }

    /// A sender asks to enqueue `id`.
    pub fn send(&mut self, id: u64) -> (r: SendOutcome)
        requires
            old(self).view().wf(),
        ensures
            (final(self).view(), r) == after_send(old(self).view(), id),
            final(self).view().wf(),
    {
        if self.phase != LoopPhase::Running {
            SendOutcome::Closed
        } else if self.queue.len() >= self.capacity {
            SendOutcome::Full
        } else {
            self.queue.push(id);
            SendOutcome::Queued
        }
    }

    /// Admits the oldest waiting request if the loop runs and a handler slot
    /// is free.
    pub fn start_next(&mut self) -> (r: Option<u64>)
        requires
            old(self).view().wf(),
        ensures
            (final(self).view(), r) == after_admit(old(self).view()),
            final(self).view().wf(),
    {
        if self.phase == LoopPhase::Running && self.queue.len() > 0 && self.in_flight.len()
            < self.concurrency {
            let id = self.queue.remove(0);
            self.in_flight.push(id);
            proof {
                assert(self.view().queue =~= old(self).view().queue.drop_first());
                assert(self.view() == after_admit(old(self).view()).0);
            }
            Some(id)
        } else {
            None
        }
    }

    /// The cancellation signal fired: stop intake, and hand back every waiting
    /// id, oldest first, to be answered with a failure.
    pub fn cancel(&mut self) -> (r: Vec<u64>)
        requires
            old(self).view().wf(),
        ensures
            (final(self).view(), r@) == after_cancel(old(self).view()),
            final(self).view().wf(),
    {
        if self.phase == LoopPhase::Running {
            let mut rejected: Vec<u64> = Vec::new();
            std::mem::swap(&mut rejected, &mut self.queue);
            self.phase = if self.in_flight.len() == 0 {
                LoopPhase::Stopped
            } else {
                LoopPhase::Draining
            };
            proof {
                assert(self.view() == after_cancel(old(self).view()).0);
            }
            rejected
        } else {
            Vec::new()
        }
    }

    /// Every sender is gone and the channel has ended: intake stops as on
    /// cancellation, and what still waits is handed back, oldest first.
    pub fn close(&mut self) -> (r: Vec<u64>)
        requires
            old(self).view().wf(),
        ensures
            (final(self).view(), r@) == after_cancel(old(self).view()),
            final(self).view().wf(),
    {
        self.cancel()
    }

    /// The handler of `id` failed: the loop stops at once and hands back
    /// every other request, waiting ones first. Returns `None`, and changes
    /// nothing, where no admitted handler has that id.
    pub fn fail(&mut self, id: u64) -> (r: Option<Vec<u64>>)
        requires
            old(self).view().wf(),
        ensures
            r is Some == old(self).view().in_flight.contains(id),
            r matches Some(d) ==> fails(old(self).view(), id, final(self).view(), d@),
            r is None ==> final(self).view() == old(self).view(),
            final(self).view().wf(),
    {
        let mut i: usize = 0;
        while i < self.in_flight.len()
            invariant
                i <= self.in_flight@.len(),
                self.view() == old(self).view(),
                old(self).view().wf(),
                forall|j: int| 0 <= j < i ==> self.in_flight@[j] != id,
            decreases self.in_flight@.len() - i,
        {
            if self.in_flight[i] == id {
                let ghost before = self.view();
                let mut dropped: Vec<u64> = Vec::new();
                std::mem::swap(&mut dropped, &mut self.queue);
                let mut running: Vec<u64> = Vec::new();
                std::mem::swap(&mut running, &mut self.in_flight);
                running.remove(i);
                dropped.append(&mut running);
                self.phase = LoopPhase::Stopped;
                proof {
                    assert(first_at(before.in_flight, id, i as int));
                    assert(self.view().queue =~= Seq::<u64>::empty());
                    assert(self.view().in_flight =~= Seq::<u64>::empty());
                    assert(dropped@ =~= before.queue + before.in_flight.remove(i as int));
                }
                return Some(dropped);
            }
            i = i + 1;
        }
        None
    }

    /// The handler of `id` finished. Returns `false`, and changes nothing,
    /// where no admitted handler has that id.
    pub fn complete(&mut self, id: u64) -> (r: bool)
        requires
            old(self).view().wf(),
        ensures
            r == old(self).view().in_flight.contains(id),
            r ==> completes(old(self).view(), id, final(self).view()),
            !r ==> final(self).view() == old(self).view(),
            final(self).view().wf(),
    {
        let mut i: usize = 0;
        while i < self.in_flight.len()
            invariant
                i <= self.in_flight@.len(),
                self.view() == old(self).view(),
                old(self).view().wf(),
                forall|j: int| 0 <= j < i ==> self.in_flight@[j] != id,
            decreases self.in_flight@.len() - i,
        {
            if self.in_flight[i] == id {
                let ghost before = self.view();
                let last = self.in_flight.len() == 1;
                self.in_flight.remove(i);
                if self.phase == LoopPhase::Draining && last {
                    self.phase = LoopPhase::Stopped;
                }
                proof {
                    assert(self.in_flight@.len() == before.in_flight.len() - 1);
                    assert(first_at(before.in_flight, id, i as int));
                    assert(self.view() == (LoopView {
                        in_flight: before.in_flight.remove(i as int),
                        phase: if before.phase == LoopPhase::Draining && before.in_flight.len()
                            == 1 {
                            LoopPhase::Stopped
                        } else {
                            before.phase
                        },
                        ..before
                    }));
                }
                return true;
            }
            i = i + 1;
        }
        false
    }
}

} // verus!
