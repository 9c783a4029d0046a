use vstd::prelude::*;
use ringbuf::traits::{Consumer, Producer};
use ringbuf::HeapRb;

verus! {

/// A fixed-capacity FIFO queue of samples, backed by ringbuf's lock-free
/// heap ring buffer. Verus sees it through `ring_items` and `ring_capacity`.
#[verifier::external_body]
pub struct SampleRing {
    rb: HeapRb<u32>,
}

/// The samples that the ring holds, oldest first.
pub uninterp spec fn ring_items(r: SampleRing) -> Seq<u32>;

/// The number of slots that the ring was made with.
pub uninterp spec fn ring_capacity(r: SampleRing) -> nat;

/// Relies on `HeapRb::new`: an empty buffer of exactly `capacity` slots;
/// it panics on a capacity of zero.
#[verifier::external_body]
fn ring_new(capacity: usize) -> (r: SampleRing)
    requires
        capacity > 0,
    ensures
        ring_items(r) == Seq::<u32>::empty(),
        ring_capacity(r) == capacity,
{
    SampleRing { rb: HeapRb::<u32>::new(capacity) }
}

/// Relies on `Producer::try_push`: appends the item when the buffer is not
/// full, and otherwise hands it back and leaves the buffer as it was.
#[verifier::external_body]
fn ring_push(r: &mut SampleRing, x: u32) -> (res: Result<(), u32>)
    ensures
        ring_capacity(*final(r)) == ring_capacity(*old(r)),
        ring_items(*old(r)).len() < ring_capacity(*old(r)) ==> res is Ok
            && ring_items(*final(r)) == ring_items(*old(r)).push(x),
        ring_items(*old(r)).len() >= ring_capacity(*old(r)) ==> res is Err && res->Err_0 == x
            && ring_items(*final(r)) == ring_items(*old(r)),
{
    r.rb.try_push(x)
}

/// Relies on `Consumer::try_pop`: removes and returns the oldest item, or
/// returns `None` and leaves an empty buffer as it was.
#[verifier::external_body]
fn ring_pop(r: &mut SampleRing) -> (res: Option<u32>)
    ensures
        ring_capacity(*final(r)) == ring_capacity(*old(r)),
        ring_items(*old(r)).len() > 0 ==> res == Some(ring_items(*old(r))[0])
            && ring_items(*final(r)) == ring_items(*old(r)).drop_first(),
        ring_items(*old(r)).len() == 0 ==> res is None
            && ring_items(*final(r)) == ring_items(*old(r)),
{
    r.rb.try_pop()
}

/// Relies on `Consumer::try_peek`: the oldest item, left in place, or `None`
/// when the buffer is empty.
#[verifier::external_body]
fn ring_peek(r: &SampleRing) -> (res: Option<u32>)
    ensures
        ring_items(*r).len() > 0 ==> res == Some(ring_items(*r)[0]),
        ring_items(*r).len() == 0 ==> res is None,
{
    r.rb.try_peek().copied()
}

/// The contents of a ring of `cap` slots that held `s`, after a push of `x`:
/// `x` is appended when a slot is free, and dropped otherwise.
pub open spec fn pushed(s: Seq<u32>, cap: nat, x: u32) -> Seq<u32> {
    if s.len() < cap {
        s.push(x)
    } else {
        s
    }
}

/// The contents after a push of each of `xs` in turn.
pub open spec fn pushed_all(s: Seq<u32>, cap: nat, xs: Seq<u32>) -> Seq<u32>
    decreases xs.len(),
{
    if xs.len() == 0 {
        s
    } else {
        pushed(pushed_all(s, cap, xs.drop_last()), cap, xs.last())
    }
}

/// The error of a push into a full ring; it carries the rejected sample.
#[derive(Debug, Clone, Copy, PartialEq, Eq, Structural)]
pub struct Full(pub u32);

impl View for SampleRing {
    type V = Seq<u32>;

    open spec fn view(&self) -> Seq<u32> {
        ring_items(*self)
    }
}

impl SampleRing {
    /// The fixed number of slots.
    pub open spec fn capacity(&self) -> nat {
        ring_capacity(*self)
    }

    /// Never more items than slots, and at least one slot.
    pub open spec fn wf(&self) -> bool {
        0 < self.capacity() && self@.len() <= self.capacity()
    }

    /// An empty ring of exactly `capacity` slots.
    pub fn new(capacity: usize) -> (r: Self)
        requires
            capacity > 0,
        ensures
            r.wf(),
            r@ == Seq::<u32>::empty(),
            r.capacity() == capacity,
    {
        ring_new(capacity)
    }

    /// Appends `x` at the tail if a slot is free; otherwise fails with `Full`
    /// and leaves the ring unchanged.
    pub fn try_push(&mut self, x: u32) -> (res: Result<(), Full>)
        requires
            old(self).wf(),
        ensures
            final(self).wf(),
            final(self).capacity() == old(self).capacity(),
            final(self)@ == pushed(old(self)@, old(self).capacity(), x),
            res is Ok == (old(self)@.len() < old(self).capacity()),
            res is Err ==> res->Err_0 == Full(x),
    {
        match ring_push(self, x) {
            Ok(()) => Ok(()),
            Err(y) => Err(Full(y)),
        }
    }

    /// Removes and returns the oldest sample, or `None` when the ring is empty.
    pub fn try_pop(&mut self) -> (res: Option<u32>)
        requires
            old(self).wf(),
        ensures
            final(self).wf(),
            final(self).capacity() == old(self).capacity(),
            old(self)@.len() > 0 ==> res == Some(old(self)@[0]) && final(self)@ == old(self)@.drop_first(),
            old(self)@.len() == 0 ==> res is None && final(self)@ == old(self)@,
    {
        ring_pop(self)
    }

    /// The oldest sample, left in place, or `None` when the ring is empty.
    pub fn peek(&self) -> (res: Option<u32>)
        ensures
            self@.len() > 0 ==> res == Some(self@[0]),
            self@.len() == 0 ==> res is None,
    {
        ring_peek(self)
    }

    /// A latency ring: `2 * latency` slots holding `latency` silent samples,
    /// so that samples pushed now come out `latency` pops later. `None` when
    /// `latency` is zero or the slot count overflows.
    pub fn with_latency(latency: usize) -> (r: Option<Self>)
        ensures
            r is Some <==> 1 <= latency <= usize::MAX / 2,
            r matches Some(ring) ==> ring.wf() && ring.capacity() == 2 * latency
                && ring@ == Seq::new(latency as nat, |i: int| 0u32),
    {
        if latency == 0 || latency > usize::MAX / 2 {
            return None;
        }
        let mut ring = SampleRing::new(2 * latency);
        ring.prefill(latency);
        assert(ring@ =~= Seq::new(latency as nat, |i: int| 0u32));
        Some(ring)
    }

    /// Pushes `count` silent samples, to set a baseline latency before real
    /// samples flow.
    pub fn prefill(&mut self, count: usize)
        requires
            old(self).wf(),
            old(self)@.len() + count <= old(self).capacity(),
        ensures
            final(self).wf(),
            final(self).capacity() == old(self).capacity(),
            final(self)@ == old(self)@ + Seq::new(count as nat, |i: int| 0u32),
    {
        let ghost start = self@;
        let mut k: usize = 0;
        while k < count
            invariant
                self.wf(),
                self.capacity() == old(self).capacity(),
                start == old(self)@,
                start.len() + count <= self.capacity(),
                k <= count,
                self@ == start + Seq::new(k as nat, |i: int| 0u32),
            decreases count - k,
        {
            let r = self.try_push(0);
            assert(r is Ok);
            k += 1;
            assert(self@ =~= start + Seq::new(k as nat, |i: int| 0u32));
        }
    }
}

/// Pushing up to `cap` samples into an empty ring of `cap` slots keeps all of
/// them in the order pushed, so pops return them first in, first out. Once
/// `cap` samples are in, the next push is refused; after one pop it is
/// accepted again.
pub proof fn lemma_fill_then_pop(cap: nat, xs: Seq<u32>)
    requires
        xs.len() <= cap,
    ensures
        pushed_all(Seq::empty(), cap, xs) == xs,
        xs.len() == cap ==> !(pushed_all(Seq::empty(), cap, xs).len() < cap),
        xs.len() == cap && cap > 0 ==> pushed_all(Seq::empty(), cap, xs).drop_first().len() < cap,
    decreases xs.len(),
{
    if xs.len() > 0 {
        lemma_fill_then_pop(cap, xs.drop_last());
        assert(xs.drop_last().push(xs.last()) =~= xs);
    }
}

} // verus!
