use vstd::prelude::*;
use std::collections::VecDeque;

verus! {

/// How many positions a trace keeps unless told otherwise.
pub const DEFAULT_TRACE_CAPACITY: usize = 10;

/// What a trace holds after `x` is recorded on top of `past`: `x` first, then
/// the earlier positions, newest first, cut to `capacity` entries.
pub open spec fn recorded<X>(past: Seq<X>, x: X, capacity: nat) -> Seq<X> {
    let all = seq![x] + past;
    if all.len() <= capacity {
        all
    } else {
        all.subrange(0, capacity as int)
    }
}

/// The recent positions of one body, newest first, at most `capacity` of them.
pub struct Tracer<X> {
    pos: VecDeque<X>,
    capacity: usize,
}

impl<X> Tracer<X> {
    /// The positions held, newest first.
    pub closed spec fn positions(&self) -> Seq<X> {
        self.pos@
    }

    /// The most positions the trace keeps.
    pub closed spec fn limit(&self) -> nat {
        self.capacity as nat
    }

    /// The trace holds no more than its capacity.
    pub open spec fn wf(&self) -> bool {
        self.positions().len() <= self.limit()
    }

    /// An empty trace that keeps up to `capacity` positions.
    pub fn with_capacity(capacity: usize) -> (r: Tracer<X>)
        ensures
            r.wf(),
            r.positions() == Seq::<X>::empty(),
            r.limit() == capacity,
    {
        Tracer { pos: VecDeque::new(), capacity }
    }

    /// The most positions the trace keeps.
    pub fn capacity(&self) -> (r: usize)
        ensures
            r == self.limit(),
    {
        self.capacity
    }

    /// The number of positions held.
    pub fn len(&self) -> (r: usize)
        ensures
            r == self.positions().len(),
    {
        self.pos.len()
    }

    /// The `i`-th newest position.
    pub fn get(&self, i: usize) -> (r: &X)
        requires
            i < self.positions().len(),
        ensures
            *r == self.positions()[i as int],
    {
        &self.pos[i]
    }

    /// Records `x` as the newest position, dropping the oldest one if the
    /// trace would hold more than its capacity.
    pub fn record(&mut self, x: X)
        requires
            old(self).wf(),
        ensures
            final(self).wf(),
            final(self).limit() == old(self).limit(),
            final(self).positions() == recorded(old(self).positions(), x, old(self).limit()),
    {
        self.pos.push_front(x);
        if self.pos.len() > self.capacity {
            let _ = self.pos.pop_back();
        }
    }
}

impl<X> Default for Tracer<X> {
    /// An empty trace that keeps up to ten positions.
    fn default() -> (r: Tracer<X>)
        ensures
            r.wf(),
            r.positions() == Seq::<X>::empty(),
            r.limit() == DEFAULT_TRACE_CAPACITY,
    {
        Tracer::with_capacity(DEFAULT_TRACE_CAPACITY)
    }
}

} // verus!
