//! Bounded, per-monitor store of recent classified statuses.
//!
//! Each monitor owns one `History`; entries arrive in completion order and
//! the oldest entry is evicted first once the capacity is reached. The
//! store itself is single-writer; the caller guards it with a lock scoped
//! to its one monitor when readers share it.

use vstd::math::{max, min};
use vstd::prelude::*;

use crate::status::{status_seq_equiv, MonitorStatus};

verus! {

/// Default bound on the number of history entries kept per monitor.
pub const DEFAULT_HISTORY_CAPACITY: usize = 50;

/// What one push does to the retained sequence: append the new entry, then
/// drop the oldest entries until at most `cap` remain.
pub open spec fn push_spec(s: Seq<MonitorStatus>, cap: nat, x: MonitorStatus) -> Seq<
    MonitorStatus,
> {
    let all = s.push(x);
    if all.len() <= cap {
        all
    } else {
        all.subrange(all.len() as int - cap as int, all.len() as int)
    }
}

/// The retained sequence after pushing each element of `xs`, in order,
/// into an initially empty history of capacity `cap`.
pub open spec fn pushed_seq(cap: nat, xs: Seq<MonitorStatus>) -> Seq<MonitorStatus>
    decreases xs.len(),
{
    if xs.len() == 0 {
        Seq::empty()
    } else {
        push_spec(pushed_seq(cap, xs.drop_last()), cap, xs.last())
    }
}

/// A bounded FIFO store of the most recent statuses for one monitor.
/// Its view is the retained sequence, oldest entry first.
pub struct History {
    entries: Vec<MonitorStatus>,
    capacity: usize,
}

impl View for History {
    type V = Seq<MonitorStatus>;

    closed spec fn view(&self) -> Seq<MonitorStatus> {
        self.entries@
    }
}

impl History {
    /// The fixed bound on how many entries are retained.
    pub closed spec fn cap(&self) -> nat {
        self.capacity as nat
    }

    /// The bound is positive and never exceeded.
    pub open spec fn wf(&self) -> bool {
        0 < self.cap() && self@.len() <= self.cap()
    }

    /// An empty store with the given bound.
    pub fn new(capacity: usize) -> (h: History)
        requires
            0 < capacity,
        ensures
            h@ == Seq::<MonitorStatus>::empty(),
            h.cap() == capacity,
            h.wf(),
    {
        History { entries: Vec::new(), capacity }
    }

    pub fn capacity(&self) -> (c: usize)
        ensures
            c == self.cap(),
    {
        self.capacity
    }

    pub fn len(&self) -> (n: usize)
        ensures
            n == self@.len(),
    {
        self.entries.len()
    }

    /// Appends `x`; once the store is full, the oldest entry is evicted
    /// first (FIFO), so the retained sequence is always the most recent
    /// entries in completion order.
    pub fn push(&mut self, x: MonitorStatus)
        requires
            old(self).wf(),
        ensures
            final(self)@ == push_spec(old(self)@, old(self).cap(), x),
            final(self).cap() == old(self).cap(),
            final(self).wf(),
    {
        if self.entries.len() == self.capacity {
            let _evicted = self.entries.remove(0);
        }
        self.entries.push(x);
        proof {
            assert(self@ =~= push_spec(old(self)@, old(self).cap(), x));
        }
    }

    /// A stable copy of the retained entries, oldest first.
    pub fn snapshot(&self) -> (r: Vec<MonitorStatus>)
        ensures
            status_seq_equiv(self@, r@),
    {
        let mut r: Vec<MonitorStatus> = Vec::new();
        let mut i: usize = 0;
        while i < self.entries.len()
            invariant
                i <= self.entries.len(),
                r@.len() == i,
                forall|j: int| 0 <= j < i ==> #[trigger] self.entries@[j].equiv(r@[j]),
            decreases self.entries.len() - i,
        {
            r.push(self.entries[i].duplicate());
            i = i + 1;
        }
        r
    }

    /// A full copy of the store: same bound, equivalent entries.
    pub fn duplicate(&self) -> (r: History)
        ensures
            status_seq_equiv(self@, r@),
            r.cap() == self.cap(),
            self.wf() ==> r.wf(),
    {
        History { entries: self.snapshot(), capacity: self.capacity }
    }
}

/// A history never exceeds its capacity: after pushing any sequence of
/// entries into an initially empty store, it holds exactly the most recent
/// `cap` of them (all of them while fewer have been pushed), in completion
/// order.
pub proof fn lemma_history_holds_last_cap(cap: nat, xs: Seq<MonitorStatus>)
    requires
        0 < cap,
    ensures
        pushed_seq(cap, xs).len() == min(xs.len() as int, cap as int),
        pushed_seq(cap, xs) == xs.subrange(max(xs.len() as int - cap as int, 0), xs.len() as int),
    decreases xs.len(),
{
    if xs.len() == 0 {
        assert(pushed_seq(cap, xs) =~= xs.subrange(0, 0));
    } else {
        let ys = xs.drop_last();
        lemma_history_holds_last_cap(cap, ys);
        assert(pushed_seq(cap, xs) =~= xs.subrange(
            max(xs.len() as int - cap as int, 0),
            xs.len() as int,
        ));
    }
}

} // verus!
