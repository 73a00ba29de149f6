//! A fixed-size pool of engine execution contexts.
//!
//! The engine is not safe for concurrent invocation on one context, so each
//! context may serve at most one job at a time. The pool owns one slot per
//! context and two pieces of shared state: a round-robin cursor that selects
//! which slot the next job is pointed at, and a per-slot exclusivity latch
//! that stands for the per-slot lock serializing actual engine invocations.
//!
//! Slots are identified by index; the caller keeps the association between a
//! slot index and the engine context it owns.

use vstd::prelude::*;

verus! {

/// The slot selected after a cursor position: the first selection (cursor
/// unset) is slot 0, every later one advances by one and wraps to 0 after the
/// last slot.
pub open spec fn rr_next(cursor: Option<int>, size: int) -> int {
    match cursor {
        None => 0,
        Some(k) => if k == size - 1 {
            0
        } else {
            k + 1
        },
    }
}

/// The slot returned by selection number `n` (counting from 0) on a fresh
/// pool of the given size, with no interleaved callers.
pub open spec fn rr_nth(n: nat, size: int) -> int
    decreases n,
{
    if n == 0 {
        0
    } else {
        rr_next(Some(rr_nth((n - 1) as nat, size)), size)
    }
}

/// Round-robin fairness: on a pool of size K with no contention, the first K
/// selections return each of the K slots exactly once, in slot order, and
/// selection K (the (K+1)th call) wraps back to slot 0.
pub proof fn lemma_round_robin_fairness(n: nat, size: int)
    requires
        1 <= size,
        n <= size,
    ensures
        n < size ==> rr_nth(n, size) == n,
        n == size ==> rr_nth(n, size) == 0,
    decreases n,
{
    if n > 0 {
        lemma_round_robin_fairness((n - 1) as nat, size);
    }
}

/// A pool of engine execution contexts, handed out round-robin.
pub struct WhisperPool {
    last_state_index: Option<usize>,
    in_use: Vec<bool>,
}

impl WhisperPool {
    /// Number of slots in the pool.
    pub closed spec fn size(&self) -> int {
        self.in_use@.len() as int
    }

    /// The index most recently handed out, unset before the first selection.
    pub closed spec fn cursor(&self) -> Option<int> {
        match self.last_state_index {
            None => None,
            Some(k) => Some(k as int),
        }
    }

    /// Whether a job currently holds the slot exclusively.
    pub closed spec fn slot_held(&self, slot: int) -> bool {
        self.in_use@[slot]
    }

    /// The pool is non-empty and its cursor points at a real slot.
    pub closed spec fn wf(&self) -> bool {
        &&& 1 <= self.size()
        &&& match self.last_state_index {
            None => true,
            Some(k) => k < self.size(),
        }
    }

    /// Builds a pool of `nstates` slots: cursor unset, every slot free.
    pub fn new_pool(nstates: usize) -> (pool: Self)
        requires
            1 <= nstates,
        ensures
            pool.wf(),
            pool.size() == nstates,
            pool.cursor() is None,
            forall|i: int| 0 <= i < nstates ==> !pool.slot_held(i),
    {
        let mut in_use: Vec<bool> = Vec::new();
        let mut k: usize = 0;
        while k < nstates
            invariant
                k <= nstates,
                in_use@.len() == k,
                forall|i: int| 0 <= i < k ==> in_use@[i] == false,
            decreases nstates - k,
        {
            in_use.push(false);
            k = k + 1;
        }
        WhisperPool { last_state_index: None, in_use }
    }

    /// Advances the cursor round-robin and returns the selected slot index:
    /// the very first call returns slot 0, each later call the next slot,
    /// wrapping to 0 after the last. Selection alone grants no exclusivity;
    /// the caller must also take the slot with `try_hold`.
    pub fn get_state(&mut self) -> (slot: usize)
        requires
            old(self).wf(),
        ensures
            final(self).wf(),
            final(self).size() == old(self).size(),
            slot < final(self).size(),
            slot as int == rr_next(old(self).cursor(), old(self).size()),
            final(self).cursor() == Some(slot as int),
            forall|i: int|
                0 <= i < final(self).size() ==> final(self).slot_held(i) == old(self).slot_held(
                    i,
                ),
    {
        match self.last_state_index {
            None => {
                self.last_state_index = Some(0);
                0
            },
            Some(k) => {
                let next: usize = if k == self.in_use.len() - 1 {
                    0
                } else {
                    k + 1
                };
                self.last_state_index = Some(next);
                next
            },
        }
    }

    /// Tries to take exclusive hold of a slot, as the per-slot lock would:
    /// the grant succeeds exactly when no job holds the slot, and afterwards
    /// the slot is held either way.
    pub fn try_hold(&mut self, slot: usize) -> (granted: bool)
        requires
            old(self).wf(),
            slot < old(self).size(),
        ensures
            final(self).wf(),
            final(self).size() == old(self).size(),
            final(self).cursor() == old(self).cursor(),
            granted == !old(self).slot_held(slot as int),
            final(self).slot_held(slot as int),
            forall|i: int|
                0 <= i < final(self).size() && i != slot ==> final(self).slot_held(i) == old(
                    self,
                ).slot_held(i),
    {
        if self.in_use[slot] {
            false
        } else {
            self.in_use.set(slot, true);
            true
        }
    }

    /// Gives a held slot back; only the holder may do so.
    pub fn release(&mut self, slot: usize)
        requires
            old(self).wf(),
            slot < old(self).size(),
            old(self).slot_held(slot as int),
        ensures
            final(self).wf(),
            final(self).size() == old(self).size(),
            final(self).cursor() == old(self).cursor(),
            !final(self).slot_held(slot as int),
            forall|i: int|
                0 <= i < final(self).size() && i != slot ==> final(self).slot_held(i) == old(
                    self,
                ).slot_held(i),
    {
        self.in_use.set(slot, false);
    }
}

/// One scheduling event on the pool's slots: a job taking exclusive hold of a
/// slot, or the holder giving it back.
pub enum SlotEvent {
    Hold { job: nat, slot: nat },
    Free { job: nat, slot: nat },
}

/// The set of jobs holding the given slot after the events in `trace`.
pub open spec fn holders_after(trace: Seq<SlotEvent>, slot: nat) -> Set<nat>
    decreases trace.len(),
{
    if trace.len() == 0 {
        Set::empty()
    } else {
        let prev = holders_after(trace.drop_last(), slot);
        match trace.last() {
            SlotEvent::Hold { job, slot: s } => if s == slot {
                prev.insert(job)
            } else {
                prev
            },
            SlotEvent::Free { job, slot: s } => if s == slot {
                prev.remove(job)
            } else {
                prev
            },
        }
    }
}

/// A trace obeys the locking discipline that `try_hold` and `release`
/// enforce: a slot is taken only while no job holds it, and given back only
/// by a job that holds it.
pub open spec fn valid_trace(trace: Seq<SlotEvent>) -> bool
    decreases trace.len(),
{
    ||| trace.len() == 0
    ||| {
        &&& valid_trace(trace.drop_last())
        &&& match trace.last() {
            SlotEvent::Hold { job, slot } => holders_after(trace.drop_last(), slot).is_empty(),
            SlotEvent::Free { job, slot } => holders_after(trace.drop_last(), slot).contains(job),
        }
    }
}

/// Whether an event takes exclusive hold of the given slot.
pub open spec fn holds_slot(e: SlotEvent, slot: nat) -> bool {
    e matches SlotEvent::Hold { slot: s, .. } && s == slot
}

/// Whether an event gives the given slot back.
pub open spec fn frees_slot(e: SlotEvent, slot: nat) -> bool {
    e matches SlotEvent::Free { slot: s, .. } && s == slot
}

/// Every prefix of a valid trace is valid.
pub proof fn lemma_valid_prefix(trace: Seq<SlotEvent>, m: int)
    requires
        valid_trace(trace),
        0 <= m <= trace.len(),
    ensures
        valid_trace(trace.take(m)),
    decreases trace.len() - m,
{
    if m < trace.len() {
        lemma_valid_prefix(trace, m + 1);
        assert(trace.take(m + 1).drop_last() =~= trace.take(m));
    } else {
        assert(trace.take(m) =~= trace);
    }
}

/// While no event frees the slot, the holder set stays occupied after a hold.
proof fn lemma_held_without_free(trace: Seq<SlotEvent>, slot: nat, p: int, m: int)
    requires
        0 <= p < m <= trace.len(),
        holds_slot(trace[p], slot),
        forall|q: int| p < q < m ==> !frees_slot(trace[q], slot),
    ensures
        !holders_after(trace.take(m), slot).is_empty(),
    decreases m,
{
    if m == p + 1 {
        assert(trace.take(m).drop_last() =~= trace.take(p));
        assert(trace.take(m).last() == trace[p]);
        assert(holders_after(trace.take(m), slot).contains(trace[p]->Hold_job));
    } else {
        lemma_held_without_free(trace, slot, p, m - 1);
        assert(trace.take(m).drop_last() =~= trace.take(m - 1));
        assert(trace.take(m).last() == trace[m - 1]);
        let prev = holders_after(trace.take(m - 1), slot);
        let w = choose|w: nat| prev.contains(w);
        assert(prev.contains(w));
        match trace[m - 1] {
            SlotEvent::Hold { job, slot: s } => {
                if s == slot {
                    assert(holders_after(trace.take(m), slot).contains(job));
                } else {
                    assert(holders_after(trace.take(m), slot).contains(w));
                }
            },
            SlotEvent::Free { job, slot: s } => {
                assert(!frees_slot(trace[m - 1], slot));
                assert(s != slot);
                assert(holders_after(trace.take(m), slot).contains(w));
            },
        }
    }
}

/// Two holds of one slot are separated by a release: in any valid trace,
/// between two events that take the same slot stands an event that frees it,
/// so one job's engine run on a context ends before the next one's begins.
pub proof fn lemma_holds_are_separated(trace: Seq<SlotEvent>, slot: nat, p1: int, p2: int)
    requires
        valid_trace(trace),
        0 <= p1 < p2 < trace.len(),
        holds_slot(trace[p1], slot),
        holds_slot(trace[p2], slot),
    ensures
        exists|q: int| p1 < q < p2 && frees_slot(trace[q], slot),
{
    if !(exists|q: int| p1 < q < p2 && frees_slot(trace[q], slot)) {
        assert(forall|q: int| p1 < q < p2 ==> !frees_slot(trace[q], slot));
        lemma_held_without_free(trace, slot, p1, p2);
        lemma_valid_prefix(trace, p2 + 1);
        assert(trace.take(p2 + 1).drop_last() =~= trace.take(p2));
        assert(trace.take(p2 + 1).last() == trace[p2]);
        assert(holders_after(trace.take(p2), slot).is_empty());
        assert(false);
    }
}

/// The holder set of every slot is finite after any trace.
pub proof fn lemma_holders_finite(trace: Seq<SlotEvent>, slot: nat)
    ensures
        holders_after(trace, slot).finite(),
    decreases trace.len(),
{
    if trace.len() > 0 {
        lemma_holders_finite(trace.drop_last(), slot);
    }
}

/// Mutual exclusion: in any interleaving of holds and releases that obeys
/// the locking discipline, at no point do two jobs hold the same slot — the
/// holder set of every slot has at most one element after every valid trace.
pub proof fn lemma_mutual_exclusion(trace: Seq<SlotEvent>, slot: nat)
    requires
        valid_trace(trace),
    ensures
        holders_after(trace, slot).len() <= 1,
    decreases trace.len(),
{
    if trace.len() > 0 {
        let prev = holders_after(trace.drop_last(), slot);
        lemma_mutual_exclusion(trace.drop_last(), slot);
        lemma_holders_finite(trace.drop_last(), slot);
        match trace.last() {
            SlotEvent::Hold { job, slot: s } => {
                if s == slot {
                    assert(prev =~= Set::empty());
                    assert(prev.insert(job).len() == 1);
                }
            },
            SlotEvent::Free { job, slot: s } => {
                if s == slot {
                    assert(prev.remove(job).len() <= prev.len());
                }
            },
        }
    }
}

} // verus!
