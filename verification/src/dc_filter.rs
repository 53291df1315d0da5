//! DC offset removal: subtracts the running average of the last 2048 samples.

use vstd::prelude::*;

verus! {

/// log2 of the history length.
pub const HISTORY_SIZE_BITS: usize = 11;

/// History length (2048 samples, about 20 ms at 44.1 kHz).
pub const HISTORY_SIZE: usize = 2048;

/// Sum of a sequence of samples.
pub open spec fn seq_sum(s: Seq<u16>) -> int
    decreases s.len(),
{
    if s.len() == 0 {
        0
    } else {
        seq_sum(s.drop_last()) + s.last()
    }
}

/// The sum of `n` samples lies between 0 and `n * 65535`.
pub proof fn lemma_seq_sum_bounds(s: Seq<u16>)
    ensures
        0 <= seq_sum(s) <= s.len() * 65535,
    decreases s.len(),
{
    if s.len() > 0 {
        lemma_seq_sum_bounds(s.drop_last());
    }
}

/// Replacing one sample changes the sum by the difference.
pub proof fn lemma_seq_sum_update(s: Seq<u16>, i: int, v: u16)
    requires
        0 <= i < s.len(),
    ensures
        seq_sum(s.update(i, v)) == seq_sum(s) - s[i] + v,
    decreases s.len(),
{
    let u = s.update(i, v);
    if i == s.len() - 1 {
        assert(u.drop_last() =~= s.drop_last());
    } else {
        lemma_seq_sum_update(s.drop_last(), i, v);
        assert(u.drop_last() =~= s.drop_last().update(i, v));
    }
}

/// A sequence of `n` copies of `c` sums to `n * c`.
pub proof fn lemma_seq_sum_constant(s: Seq<u16>, c: u16)
    requires
        forall|i: int| 0 <= i < s.len() ==> s[i] == c,
    ensures
        seq_sum(s) == s.len() * c,
    decreases s.len(),
{
    if s.len() > 0 {
        lemma_seq_sum_constant(s.drop_last(), c);
        assert(seq_sum(s) == (s.len() - 1) * c + c);
        assert((s.len() - 1) * c + c == s.len() * c) by (nonlinear_arith);
    }
}

/// DC offset removal filter: a circular history of the last samples and their running sum.
pub struct DcFilter {
    buffer: Vec<u16>,
    position: usize,
    running_sum: u32,
}

/// The output for `sample` once the history sums to `sum`: the sample minus
/// the history average, truncated to 16 bits.
pub open spec fn dc_output(sample: u16, sum: int) -> i16 {
    (sample - sum / 2048) as i16
}

impl DcFilter {
    /// The history as a sequence of samples, oldest slot first in buffer order.
    pub closed spec fn history(&self) -> Seq<u16> {
        self.buffer@
    }

    /// The slot that the next sample overwrites.
    pub closed spec fn slot(&self) -> int {
        self.position as int
    }

    /// The filter's parts agree: the history has 2048 slots, the position
    /// names one of them and the running sum is the sum of the history.
    pub closed spec fn wf(&self) -> bool {
        &&& self.buffer@.len() == HISTORY_SIZE
        &&& self.position < HISTORY_SIZE
        &&& self.running_sum as int == seq_sum(self.buffer@)
    }

    /// The running sum kept by the filter.
    pub closed spec fn kept_sum(&self) -> int {
        self.running_sum as int
    }

    /// The running sum is the sum of the history (for every well-formed filter).
    pub proof fn lemma_sum_is_history_sum(&self)
        requires
            self.wf(),
        ensures
            self.kept_sum() == seq_sum(self.history()),
            self.history().len() == HISTORY_SIZE,
            0 <= self.slot() < HISTORY_SIZE,
    {
    }

    /// The slot that the next sample overwrites.
    pub fn position(&self) -> (p: usize)
        ensures
            p == self.slot(),
    {
        self.position
    }

    /// The running sum of the history.
    pub fn running_sum(&self) -> (s: u32)
        ensures
            s == self.kept_sum(),
    {
        self.running_sum
    }

    /// A filter with an all-zero history.
    pub fn new() -> (f: Self)
        ensures
            f.wf(),
            f.slot() == 0,
            f.history() == Seq::new(HISTORY_SIZE as nat, |i: int| 0u16),
    {
        let mut buffer: Vec<u16> = Vec::new();
        let mut i: usize = 0;
        while i < HISTORY_SIZE
            invariant
                i <= HISTORY_SIZE,
                buffer@.len() == i,
                forall|j: int| 0 <= j < i ==> buffer@[j] == 0u16,
            decreases HISTORY_SIZE - i,
        {
            buffer.push(0);
            i = i + 1;
        }
        proof {
            lemma_seq_sum_constant(buffer@, 0u16);
            assert(buffer@ =~= Seq::new(HISTORY_SIZE as nat, |i: int| 0u16));
        }
        DcFilter { buffer, position: 0, running_sum: 0 }
    }

    /// Stores `sample` in the history slot at the position, moves the
    /// position on by one (wrapping), and returns the sample minus the
    /// average of the updated history.
    pub fn process(&mut self, sample: u16) -> (r: i16)
        requires
            old(self).wf(),
        ensures
            final(self).wf(),
            final(self).history() == old(self).history().update(old(self).slot(), sample),
            final(self).slot() == (old(self).slot() + 1) % (HISTORY_SIZE as int),
            r == dc_output(sample, seq_sum(final(self).history())),
    {
        let pos = self.position;
        proof {
            lemma_seq_sum_update(self.buffer@, pos as int, sample);
            lemma_seq_sum_bounds(self.buffer@);
            lemma_seq_sum_bounds(self.buffer@.update(pos as int, sample));
            assert(self.buffer@[pos as int] <= seq_sum(self.buffer@)) by {
                lemma_elem_le_sum(self.buffer@, pos as int);
            }
        }
        self.running_sum = self.running_sum - self.buffer[pos] as u32;
        self.running_sum = self.running_sum + sample as u32;
        self.buffer.set(pos, sample);
        let next = pos + 1;
        assert(next <= 2048 ==> next & 2047usize == next % 2048) by (bit_vector);
        self.position = next & (HISTORY_SIZE - 1);
        let total = self.running_sum;
        let dc_offset = total >> HISTORY_SIZE_BITS;
        assert(total >> 11usize == total / 2048) by (bit_vector);
        (sample as i32 - dc_offset as i32) as i16
    }

    /// Clears the history and the running sum and moves the position to slot 0.
    pub fn reset(&mut self)
        requires
            old(self).wf(),
        ensures
            final(self).wf(),
            final(self).slot() == 0,
            final(self).kept_sum() == 0,
            final(self).history() == Seq::new(HISTORY_SIZE as nat, |i: int| 0u16),
    {
        let mut i: usize = 0;
        while i < HISTORY_SIZE
            invariant
                i <= HISTORY_SIZE,
                self.buffer@.len() == HISTORY_SIZE,
                forall|j: int| 0 <= j < i ==> self.buffer@[j] == 0u16,
            decreases HISTORY_SIZE - i,
        {
            self.buffer.set(i, 0);
            i = i + 1;
        }
        proof {
            lemma_seq_sum_constant(self.buffer@, 0u16);
            assert(self.buffer@ =~= Seq::new(HISTORY_SIZE as nat, |i: int| 0u16));
        }
        self.position = 0;
        self.running_sum = 0;
    }
}

/// One sample is at most the sum of its sequence.
pub proof fn lemma_elem_le_sum(s: Seq<u16>, i: int)
    requires
        0 <= i < s.len(),
    ensures
        s[i] <= seq_sum(s),
    decreases s.len(),
{
    lemma_seq_sum_bounds(s.drop_last());
    if i < s.len() - 1 {
        lemma_elem_le_sum(s.drop_last(), i);
    }
}

/// Once the whole history holds the same value `c`, feeding `c` again gives
/// zero: the filter removes a constant offset completely.
pub proof fn lemma_constant_input_removed(f: DcFilter, c: u16)
    requires
        f.wf(),
        forall|i: int| 0 <= i < f.history().len() ==> f.history()[i] == c,
    ensures
        dc_output(c, seq_sum(f.history().update(f.slot(), c))) == 0,
{
    let h = f.history().update(f.slot(), c);
    assert forall|i: int| 0 <= i < h.len() implies h[i] == c by {}
    lemma_seq_sum_constant(h, c);
    assert((2048 * c) / 2048 == c) by (nonlinear_arith);
}

impl Default for DcFilter {
    fn default() -> (f: Self)
        ensures
            f.wf(),
            f.slot() == 0,
            f.history() == Seq::new(HISTORY_SIZE as nat, |i: int| 0u16),
    {
        Self::new()
    }
}

} // verus!
