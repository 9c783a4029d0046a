use vstd::prelude::*;
use crate::ring::SampleRing;

verus! {

/// `n` silent samples.
pub open spec fn silence(n: nat) -> Seq<u32> {
    Seq::new(n, |i: int| 0u32)
}

/// What a line that holds `s` holds after `fed` has been fed to it, one
/// `advance` per sample.
pub open spec fn line_after(s: Seq<u32>, fed: Seq<u32>) -> Seq<u32>
    decreases fed.len(),
{
    if fed.len() == 0 {
        s
    } else {
        line_after(s, fed.drop_last()).drop_first().push(fed.last())
    }
}

/// The tap that the `k`-th `advance` returns, on a line that held `s`
/// before `fed` was fed to it.
pub open spec fn tap_at(s: Seq<u32>, fed: Seq<u32>, k: int) -> u32 {
    line_after(s, fed.take(k))[0]
}

/// The feedback delay's storage: a ring that always holds exactly `length`
/// samples. Each step takes the oldest sample (the tap) and feeds one back,
/// so neither the pop nor the push can fail. The ring has twice `length`
/// slots of headroom.
pub struct DelayLine {
    ring: SampleRing,
    length: usize,
}

impl View for DelayLine {
    type V = Seq<u32>;

    closed spec fn view(&self) -> Seq<u32> {
        self.ring@
    }
}

impl DelayLine {
    /// The number of samples between a sample fed and the tap that returns it.
    pub closed spec fn len_spec(&self) -> nat {
        self.length as nat
    }

    pub closed spec fn wf(&self) -> bool {
        &&& self.ring.wf()
        &&& 1 <= self.length
        &&& self.ring@.len() == self.length
        &&& self.ring.capacity() == 2 * self.length
    }

    /// A line of `length` samples, filled with silence, in a ring of
    /// `2 * length` slots.
    pub fn new(length: usize) -> (r: Self)
        requires
            1 <= length <= usize::MAX / 2,
        ensures
            r.wf(),
            r.len_spec() == length,
            r@ == silence(length as nat),
    {
        let mut ring = SampleRing::new(2 * length);
        ring.prefill(length);
        assert(ring@ =~= silence(length as nat));
        DelayLine { ring, length }
    }

    /// The delay in samples.
    pub fn length(&self) -> (r: usize)
        ensures
            r == self.len_spec(),
    {
        self.length
    }

    /// The oldest sample: what the next `advance` returns.
    pub fn tap(&self) -> (r: u32)
        requires
            self.wf(),
        ensures
            r == self@[0],
    {
        match self.ring.peek() {
            Some(x) => x,
            None => {
                assert(false);
                0
            },
        }
    }

    /// Takes the oldest sample out and feeds `fed` in at the back.
    pub fn advance(&mut self, fed: u32) -> (r: u32)
        requires
            old(self).wf(),
        ensures
            final(self).wf(),
            final(self).len_spec() == old(self).len_spec(),
            r == old(self)@[0],
            final(self)@ == old(self)@.drop_first().push(fed),
    {
        let t = match self.ring.try_pop() {
            Some(x) => x,
            None => {
                assert(false);
                0
            },
        };
        let pushed = self.ring.try_push(fed);
        assert(pushed is Ok);
        t
    }
}

/// Feeding a line samples one by one shifts them through it: after `fed`,
/// the line holds the last `s.len()` samples of `s` followed by `fed`.
pub proof fn lemma_line_after(s: Seq<u32>, fed: Seq<u32>)
    requires
        s.len() >= 1,
    ensures
        line_after(s, fed) == (s + fed).skip(fed.len() as int),
    decreases fed.len(),
{
    if fed.len() == 0 {
        assert((s + fed).skip(0) =~= s);
    } else {
        let f = fed.drop_last();
        lemma_line_after(s, f);
        assert((s + f).skip(f.len() as int).drop_first().push(fed.last())
            =~= (s + fed).skip(fed.len() as int));
    }
}

/// A delay line of `n` samples returns at each step exactly the sample fed
/// `n` steps earlier, and silence for the first `n` steps: `tap[k]` is
/// `fed[k - n]` for `k >= n`, and nothing else is mixed in.
pub proof fn lemma_delay_is_exact(n: nat, fed: Seq<u32>, k: int)
    requires
        n >= 1,
        0 <= k < fed.len(),
    ensures
        tap_at(silence(n), fed, k) == if k < n {
            0u32
        } else {
            fed[k - n]
        },
{
    let s = silence(n);
    let f = fed.take(k);
    lemma_line_after(s, f);
    assert((s + f).skip(k)[0] == (s + f)[k]);
}

} // verus!
