use vstd::prelude::*;
use crate::ring::SampleRing;

verus! {

/// The smaller of two naturals.
pub open spec fn min_nat(a: nat, b: nat) -> nat {
    if a <= b {
        a
    } else {
        b
    }
}

/// What a ring of `cap` slots that holds `s` holds after a capture tick of
/// `input`: the samples that fit are appended in order, the rest are dropped.
pub open spec fn captured(s: Seq<u32>, cap: nat, input: Seq<u32>) -> Seq<u32> {
    s + input.take(min_nat((cap - s.len()) as nat, input.len()) as int)
}

/// Whether a capture tick of `input` into a ring of `cap` slots that holds
/// `s` drops samples, that is, reports that the output fell behind.
pub open spec fn capture_falls_behind(s: Seq<u32>, cap: nat, input: Seq<u32>) -> bool {
    input.len() > cap - s.len()
}

/// The ring's contents after `k` capture ticks of `block` with no render
/// tick in between.
pub open spec fn captured_times(s: Seq<u32>, cap: nat, block: Seq<u32>, k: nat) -> Seq<u32>
    decreases k,
{
    if k == 0 {
        s
    } else {
        captured(captured_times(s, cap, block, (k - 1) as nat), cap, block)
    }
}

/// Capture tick: pushes each input sample into the latency ring. A sample
/// that finds the ring full is dropped, not written. Returns whether any
/// sample was dropped ("output fell behind").
pub fn capture_tick(ring: &mut SampleRing, input: &[u32]) -> (fell_behind: bool)
    requires
        old(ring).wf(),
    ensures
        final(ring).wf(),
        final(ring).capacity() == old(ring).capacity(),
        final(ring)@ == captured(old(ring)@, old(ring).capacity(), input@),
        fell_behind == capture_falls_behind(old(ring)@, old(ring).capacity(), input@),
{
    let ghost start = ring@;
    let ghost vacant: nat = (ring.capacity() - start.len()) as nat;
    let mut fell_behind = false;
    let mut i: usize = 0;
    while i < input.len()
        invariant
            ring.wf(),
            ring.capacity() == old(ring).capacity(),
            start == old(ring)@,
            vacant == ring.capacity() - start.len(),
            i <= input@.len(),
            ring@ == start + input@.take(min_nat(vacant, i as nat) as int),
            fell_behind == (i > vacant),
        decreases input@.len() - i,
    {
        let pushed = ring.try_push(input[i]);
        if pushed.is_err() {
            fell_behind = true;
        }
        i += 1;
        assert(ring@ =~= start + input@.take(min_nat(vacant, i as nat) as int));
    }
    assert(input@.take(input@.len() as int) =~= input@);
    fell_behind
}

/// Render tick: fills each output slot with the next sample of the latency
/// ring, or with silence once the ring is empty. Returns how many slots got
/// a real sample; fewer than `out.len()` means "input fell behind". Those
/// slots are the leading ones.
pub fn render_tick(ring: &mut SampleRing, out: &mut [u32]) -> (filled: usize)
    requires
        old(ring).wf(),
    ensures
        final(ring).wf(),
        final(ring).capacity() == old(ring).capacity(),
        filled == min_nat(old(ring)@.len(), old(out)@.len()),
        final(ring)@ == old(ring)@.skip(filled as int),
        final(out)@.len() == old(out)@.len(),
        forall|i: int| 0 <= i < filled ==> final(out)@[i] == old(ring)@[i],
        forall|i: int| filled <= i < final(out)@.len() ==> final(out)@[i] == 0,
{
    let ghost start = ring@;
    let mut filled: usize = 0;
    let mut i: usize = 0;
    while i < out.len()
        invariant
            ring.wf(),
            ring.capacity() == old(ring).capacity(),
            start == old(ring)@,
            out@.len() == old(out)@.len(),
            i <= out@.len(),
            filled == min_nat(start.len(), i as nat),
            ring@ == start.skip(filled as int),
            forall|j: int| 0 <= j < filled ==> out@[j] == start[j],
            forall|j: int| filled <= j < i ==> out@[j] == 0,
        decreases out@.len() - i,
    {
        match ring.try_pop() {
            Some(x) => {
                out[i] = x;
                filled += 1;
                assert(ring@ =~= start.skip(filled as int));
            },
            None => {
                out[i] = 0;
            },
        }
        i += 1;
    }
    filled
}

/// Captures alone never overfill the ring and never disturb what it held;
/// its length after `k` ticks of `block` is the smaller of the capacity and
/// what was offered.
pub proof fn lemma_captured_times(s: Seq<u32>, cap: nat, block: Seq<u32>, k: nat)
    requires
        s.len() <= cap,
    ensures
        captured_times(s, cap, block, k).len() == min_nat(cap, s.len() + k * block.len()),
        captured_times(s, cap, block, k).take(s.len() as int) == s,
    decreases k,
{
    if k > 0 {
        let k1 = (k - 1) as nat;
        lemma_captured_times(s, cap, block, k1);
        let t = captured_times(s, cap, block, k1);
        assert(s.len() + k * block.len() == s.len() + k1 * block.len() + block.len()) by (nonlinear_arith)
            requires
                k1 == k - 1,
        ;
        assert(captured(t, cap, block).take(s.len() as int) =~= t.take(s.len() as int));
    }
}

/// Under a render side that has stopped draining, repeated capture ticks of
/// a nonempty block end up reporting that the output fell behind (at the
/// latest after `cap` ticks), while the ring never holds more than `cap`
/// samples and what it held first stays in place.
pub proof fn lemma_slow_output_falls_behind(s: Seq<u32>, cap: nat, block: Seq<u32>)
    requires
        s.len() <= cap,
        block.len() >= 1,
    ensures
        capture_falls_behind(captured_times(s, cap, block, cap), cap, block),
        forall|k: nat| captured_times(s, cap, block, k).len() <= cap,
{
    lemma_captured_times(s, cap, block, cap);
    assert(cap * block.len() >= cap) by (nonlinear_arith)
        requires
            block.len() >= 1,
    ;
    assert forall|k: nat| captured_times(s, cap, block, k).len() <= cap by {
        lemma_captured_times(s, cap, block, k);
    }
}

} // verus!
