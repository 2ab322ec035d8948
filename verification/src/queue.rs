//! The playback queue of one session: an ordered sequence of source handles
//! whose first element is the currently playing track, plus a suspension flag
//! for that head.  Completed entries are removed, never flagged.

use vstd::prelude::*;
use vstd::multiset::Multiset;

verus! {

broadcast use vstd::seq_lib::group_to_multiset_ensures;

/// Mathematical view of a [`Queue`]: the entries in playback order (the head,
/// currently playing, at index 0) and whether the head is suspended.
#[verifier::ext_equal]
pub struct QueueModel {
    pub entries: Seq<u64>,
    pub paused: bool,
}

/// One mutation of the entry sequence, used to state the accounting law
/// relating a whole run of operations to the number of enqueued and
/// discarded entries.
#[derive(Clone, Copy, PartialEq, Eq, Structural, Debug)]
pub enum QueueOp {
    Enqueue(u64),
    Skip,
    Stop,
}

/// What one operation does to the entry sequence.
pub open spec fn apply_queue_op(s: Seq<u64>, op: QueueOp) -> Seq<u64> {
    match op {
        QueueOp::Enqueue(x) => s.push(x),
        QueueOp::Skip => if s.len() == 0 {
            s
        } else {
            s.drop_first()
        },
        QueueOp::Stop => Seq::empty(),
    }
}

/// A whole run of operations, applied left to right.
pub open spec fn apply_queue_ops(s: Seq<u64>, ops: Seq<QueueOp>) -> Seq<u64>
    decreases ops.len(),
{
    if ops.len() == 0 {
        s
    } else {
        apply_queue_ops(apply_queue_op(s, ops[0]), ops.drop_first())
    }
}

/// How many entries a run of operations appends.
pub open spec fn enqueued_count(ops: Seq<QueueOp>) -> nat
    decreases ops.len(),
{
    if ops.len() == 0 {
        0
    } else {
        (if ops[0] is Enqueue {
            1nat
        } else {
            0nat
        }) + enqueued_count(ops.drop_first())
    }
}

/// How many entries a run of operations discards (a skip of a non-empty
/// queue discards one, a stop discards everything present).
pub open spec fn discarded_count(s: Seq<u64>, ops: Seq<QueueOp>) -> nat
    decreases ops.len(),
{
    if ops.len() == 0 {
        0
    } else {
        (match ops[0] {
            QueueOp::Enqueue(_) => 0nat,
            QueueOp::Skip => if s.len() == 0 {
                0nat
            } else {
                1nat
            },
            QueueOp::Stop => s.len(),
        }) + discarded_count(apply_queue_op(s, ops[0]), ops.drop_first())
    }
}

/// Law: after any sequence of enqueue/skip/stop operations, the queue length
/// equals the starting length plus the number of enqueues minus the number of
/// discarded entries, and the discards never exceed what was available, so
/// the length is never negative.
pub proof fn lemma_queue_length_accounting(s: Seq<u64>, ops: Seq<QueueOp>)
    ensures
        apply_queue_ops(s, ops).len() + discarded_count(s, ops) == s.len() + enqueued_count(ops),
        discarded_count(s, ops) <= s.len() + enqueued_count(ops),
    decreases ops.len(),
{
    if ops.len() > 0 {
        lemma_queue_length_accounting(apply_queue_op(s, ops[0]), ops.drop_first());
    }
}

/// Ordered playback queue.  All operations are total: skipping or stopping an
/// empty queue is a no-op, not an error.
pub struct Queue {
    entries: Vec<u64>,
    paused: bool,
}

impl View for Queue {
    type V = QueueModel;

    closed spec fn view(&self) -> QueueModel {
        QueueModel { entries: self.entries@, paused: self.paused }
    }
}

impl Queue {
    /// A fresh queue: no entries, not paused.
    pub fn new() -> (q: Queue)
        ensures
            q@.entries == Seq::<u64>::empty(),
            !q@.paused,
    {
        Queue { entries: Vec::new(), paused: false }
    }

    /// Number of entries, the currently playing head included.
    pub fn length(&self) -> (n: usize)
        ensures
            n == self@.entries.len(),
    {
        self.entries.len()
    }

    /// Whether nothing is queued or playing.
    pub fn is_empty(&self) -> (b: bool)
        ensures
            b == (self@.entries.len() == 0),
    {
        self.entries.len() == 0
    }

    /// The currently playing source, if any.
    pub fn current(&self) -> (c: Option<u64>)
        ensures
            c == if self@.entries.len() == 0 {
                None::<u64>
            } else {
                Some(self@.entries[0])
            },
    {
        if self.entries.len() == 0 {
            None
        } else {
            Some(self.entries[0])
        }
    }

    /// The entries in playback order, head first.
    pub fn to_vec(&self) -> (v: Vec<u64>)
        ensures
            v@ == self@.entries,
    {
        let mut v: Vec<u64> = Vec::new();
        let mut i: usize = 0;
        while i < self.entries.len()
            invariant
                i <= self.entries@.len(),
                self@.entries == self.entries@,
                v@ == self.entries@.subrange(0, i as int),
            decreases self.entries@.len() - i,
        {
            v.push(self.entries[i]);
            i += 1;
        }
        proof {
            assert(v@ =~= self@.entries);
        }
        v
    }

    /// Whether the head is suspended.
    pub fn is_paused(&self) -> (b: bool)
        ensures
            b == self@.paused,
    {
        self.paused
    }

    /// Appends one source at the tail.
    pub fn enqueue(&mut self, source: u64)
        ensures
            final(self)@.entries == old(self)@.entries.push(source),
            final(self)@.entries == apply_queue_op(old(self)@.entries, QueueOp::Enqueue(source)),
            final(self)@.paused == old(self)@.paused,
    {
        self.entries.push(source);
    }

    /// Advances past the head, discarding it; a no-op on an empty queue.
    /// Returns the new length.
    pub fn skip(&mut self) -> (n: usize)
        ensures
            final(self)@.entries == apply_queue_op(old(self)@.entries, QueueOp::Skip),
            old(self)@.entries.len() == 0 ==> final(self)@.entries == old(self)@.entries,
            old(self)@.entries.len() > 0 ==> final(self)@.entries == old(self)@.entries.drop_first(),
            final(self)@.paused == old(self)@.paused,
            n == final(self)@.entries.len(),
    {
        if self.entries.len() > 0 {
            self.entries.remove(0);
            proof {
                assert(self.entries@ =~= old(self)@.entries.drop_first());
            }
        }
        self.entries.len()
    }

    /// Clears the head and all pending entries and lifts the suspension:
    /// the queue returns to its empty state.
    pub fn stop(&mut self)
        ensures
            final(self)@.entries == apply_queue_op(old(self)@.entries, QueueOp::Stop),
            final(self)@.entries == Seq::<u64>::empty(),
            !final(self)@.paused,
    {
        self.entries.clear();
        self.paused = false;
        proof {
            assert(self.entries@ =~= Seq::<u64>::empty());
        }
    }

    /// Suspends the head; idempotent.
    pub fn pause(&mut self)
        ensures
            final(self)@.entries == old(self)@.entries,
            final(self)@.paused,
    {
        self.paused = true;
    }

    /// Lifts the suspension of the head; idempotent.
    pub fn resume(&mut self)
        ensures
            final(self)@.entries == old(self)@.entries,
            !final(self)@.paused,
    {
        self.paused = false;
    }

    /// Randomly permutes the pending entries.  The currently playing head
    /// stays in place, the pending tail keeps exactly its multiset of
    /// entries, and the head is suspended during the permutation and running
    /// again afterwards.
    pub fn shuffle(&mut self)
        ensures
            final(self)@.entries.len() == old(self)@.entries.len(),
            old(self)@.entries.len() > 0 ==> final(self)@.entries[0] == old(self)@.entries[0],
            old(self)@.entries.len() > 0 ==> final(self)@.entries.drop_first().to_multiset()
                == old(self)@.entries.drop_first().to_multiset(),
            old(self)@.entries.len() == 0 ==> final(self)@.entries == old(self)@.entries,
            !final(self)@.paused,
    {
        self.paused = true;
        if self.entries.len() > 1 {
            let ghost orig: Seq<u64> = self.entries@;
            let head: u64 = self.entries[0];
            let mut pending: Vec<u64> = Vec::new();
            let mut i: usize = 1;
            while i < self.entries.len()
                invariant
                    1 <= i <= self.entries@.len(),
                    self.entries@ == orig,
                    orig.len() > 1,
                    pending@ == orig.subrange(1, i as int),
                decreases self.entries@.len() - i,
            {
                pending.push(self.entries[i]);
                i += 1;
            }
            proof {
                assert(pending@ =~= orig.drop_first());
            }
            let ghost tail_ms = orig.drop_first().to_multiset();
            let mut out: Vec<u64> = Vec::new();
            proof {
                assert(out@.to_multiset().add(pending@.to_multiset()) =~= tail_ms);
            }
            while pending.len() > 0
                invariant
                    out@.to_multiset().add(pending@.to_multiset()) == tail_ms,
                    out@.len() + pending@.len() == orig.len() - 1,
                decreases pending@.len(),
            {
                let ghost p_old: Seq<u64> = pending@;
                let ghost out_old: Seq<u64> = out@;
                let j: usize = (random_u64() % (pending.len() as u64)) as usize;
                assert(j < pending@.len());
                let x = pending.remove(j);
                out.push(x);
                proof {
                    assert(p_old.to_multiset().count(x) > 0) by {
                        assert(p_old.contains(x));
                    }
                    assert(out@.to_multiset().add(pending@.to_multiset()) =~= out_old.to_multiset().add(p_old.to_multiset()));
                }
            }
            let mut result: Vec<u64> = Vec::new();
            result.push(head);
            let mut k: usize = 0;
            while k < out.len()
                invariant
                    k <= out@.len(),
                    result@ == seq![head].add(out@.subrange(0, k as int)),
                decreases out@.len() - k,
            {
                result.push(out[k]);
                k += 1;
            }
            proof {
                assert(result@ =~= seq![head].add(out@));
                assert(result@.len() == orig.len());
            }
            self.entries = result;
            proof {
                assert(self.entries@.drop_first() =~= out@);
                assert(self.entries@.drop_first().to_multiset().add(Seq::<u64>::empty().to_multiset()) == tail_ms);
                assert(Seq::<u64>::empty().to_multiset() =~= Multiset::<u64>::empty());
                assert(self.entries@.drop_first().to_multiset() =~= tail_ms);
            }
        }
        self.paused = false;
    }
}

/// Relies on `rand::random`: draws one machine random number; nothing is
/// promised of its value.
#[verifier::external_body]
fn random_u64() -> u64 {
    rand::random::<u64>()
}

} // verus!
