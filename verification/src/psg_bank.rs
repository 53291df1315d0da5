//! A bank of several PSG chips for expanded polyphony: PSG `i` drives
//! channels `3i`, `3i + 1` and `3i + 2`.

use vstd::prelude::*;
use crate::chip::{apply_register_model, clock_run, fresh_model, reset_model, ChipModel, Ym2149};

verus! {

/// Host sample rate of every chip of a bank.
pub const BANK_SAMPLE_RATE: u32 = 44_100;

/// A bank as values: the chips and their clock frequencies.
pub struct BankModel {
    pub chips: Seq<ChipModel>,
    pub frequencies: Seq<u32>,
}

/// A bank of PSG chips.
pub struct PsgBank {
    chips: Vec<Ym2149>,
    frequencies: Vec<u32>,
}

impl View for PsgBank {
    type V = BankModel;

    closed spec fn view(&self) -> BankModel {
        BankModel { chips: self.chips@.map_values(|c: Ym2149| c@), frequencies: self.frequencies@ }
    }
}

/// Whether a clock frequency drives a chip at the bank's sample rate.
pub open spec fn frequency_supported(frequency: u32) -> bool {
    0 < BANK_SAMPLE_RATE <= frequency / 8
}


/// Sample `j` of `count` clocks of each of the first `k` chips, summed.
pub open spec fn mixed_sum(chips: Seq<ChipModel>, count: nat, j: int, k: nat) -> int
    decreases k,
{
    if k == 0 {
        0
    } else {
        mixed_sum(chips, count, j, (k - 1) as nat) + clock_run(chips[k - 1], count).1[j] as int
    }
}

proof fn lemma_clock_run_len(m: ChipModel, n: nat)
    ensures
        clock_run(m, n).1.len() == n,
    decreases n,
{
    if n > 0 {
        lemma_clock_run_len(m, (n - 1) as nat);
    }
}

proof fn lemma_mixed_sum_bound(chips: Seq<ChipModel>, count: nat, j: int, k: nat)
    ensures
        -32768 * k <= mixed_sum(chips, count, j, k) <= 32767 * k,
    decreases k,
{
    if k > 0 {
        lemma_mixed_sum_bound(chips, count, j, (k - 1) as nat);
    }
}

/// Clocks a chip `count` times and returns its samples.
fn run_chip(chip: &mut Ym2149, count: usize) -> (out: Vec<i16>)
    requires
        old(chip).wf(),
    ensures
        final(chip).wf(),
        final(chip)@ == clock_run(old(chip)@, count as nat).0,
        out@ == clock_run(old(chip)@, count as nat).1,
{
    let ghost m0 = chip@;
    let mut out: Vec<i16> = Vec::new();
    let mut i: usize = 0;
    while i < count
        invariant
            i <= count,
            chip.wf(),
            chip@ == clock_run(m0, i as nat).0,
            out@ == clock_run(m0, i as nat).1,
        decreases count - i,
    {
        chip.clock();
        out.push(chip.get_sample());
        i = i + 1;
    }
    out
}

impl PsgBank {
    /// At least one chip, one frequency per chip, every chip well formed.
    pub closed spec fn wf(&self) -> bool {
        &&& self.chips@.len() > 0
        &&& self.chips@.len() == self.frequencies@.len()
        &&& forall|i: int| 0 <= i < self.chips@.len() ==> #[trigger] self.chips@[i].wf()
    }

    /// A bank of `count` chips clocked at `frequency` (a bank needs at
    /// least one chip).
    pub fn new(count: usize, frequency: u32) -> (b: Self)
        requires
            count > 0,
            frequency_supported(frequency),
        ensures
            b.wf(),
            b@.chips.len() == count,
            forall|i: int| 0 <= i < count ==> #[trigger] b@.chips[i] == reset_model(fresh_model(frequency / 8, BANK_SAMPLE_RATE)),
            b@.frequencies == Seq::new(count as nat, |i: int| frequency),
    {
        let mut frequencies: Vec<u32> = Vec::new();
        let mut i: usize = 0;
        while i < count
            invariant
                i <= count,
                frequencies@ == Seq::new(i as nat, |k: int| frequency),
            decreases count - i,
        {
            frequencies.push(frequency);
            i = i + 1;
            assert(frequencies@ =~= Seq::new(i as nat, |k: int| frequency));
        }
        Self::new_with_frequencies(frequencies)
    }

    /// A bank with one chip per frequency (a bank needs at least one chip).
    pub fn new_with_frequencies(frequencies: Vec<u32>) -> (b: Self)
        requires
            frequencies@.len() > 0,
            forall|i: int| 0 <= i < frequencies@.len() ==> #[trigger] frequency_supported(frequencies@[i]),
        ensures
            b.wf(),
            b@.frequencies == frequencies@,
            b@.chips.len() == frequencies@.len(),
            forall|i: int| 0 <= i < frequencies@.len() ==> #[trigger] b@.chips[i] == reset_model(
                fresh_model(frequencies@[i] / 8, BANK_SAMPLE_RATE),
            ),
    {
        let mut chips: Vec<Ym2149> = Vec::new();
        let mut i: usize = 0;
        while i < frequencies.len()
            invariant
                i <= frequencies@.len(),
                chips@.len() == i,
                forall|k: int| 0 <= k < frequencies@.len() ==> #[trigger] frequency_supported(frequencies@[k]),
                forall|k: int| 0 <= k < i ==> #[trigger] chips@[k].wf(),
                forall|k: int| 0 <= k < i ==> #[trigger] chips@[k]@ == reset_model(
                    fresh_model(frequencies@[k] / 8, BANK_SAMPLE_RATE),
                ),
            decreases frequencies@.len() - i,
        {
            let f = frequencies[i];
            assert(frequency_supported(frequencies@[i as int]));
            chips.push(Ym2149::with_clocks(f, BANK_SAMPLE_RATE));
            i = i + 1;
        }
        PsgBank { chips, frequencies }
    }

    /// Number of chips.
    pub fn psg_count(&self) -> (n: usize)
        ensures
            n == self@.chips.len(),
    {
        self.chips.len()
    }

    /// Number of channels (three per chip).
    pub fn channel_count(&self) -> (n: usize)
        requires
            3 * self@.chips.len() <= usize::MAX,
        ensures
            n == 3 * self@.chips.len(),
    {
        self.chips.len() * 3
    }

    /// Clock frequency of chip `psg_index`.
    pub fn get_frequency(&self, psg_index: usize) -> (f: u32)
        requires
            self.wf(),
            psg_index < self@.chips.len(),
        ensures
            f == self@.frequencies[psg_index as int],
    {
        self.frequencies[psg_index]
    }

    /// Chip `psg_index`.
    pub fn get_chip(&self, psg_index: usize) -> (c: &Ym2149)
        requires
            self.wf(),
            psg_index < self@.chips.len(),
        ensures
            c@ == self@.chips[psg_index as int],
            c.wf(),
    {
        &self.chips[psg_index]
    }

    /// Writes a register of chip `psg_index`.
    pub fn write_register(&mut self, psg_index: usize, register: u8, value: u8)
        requires
            old(self).wf(),
            psg_index < old(self)@.chips.len(),
        ensures
            final(self).wf(),
            final(self)@.frequencies == old(self)@.frequencies,
            final(self)@.chips == old(self)@.chips.update(
                psg_index as int,
                apply_register_model(old(self)@.chips[psg_index as int], register as int, value),
            ),
    {
        let mut chip = self.chips.remove(psg_index);
        chip.write_register(register, value);
        self.chips.insert(psg_index, chip);
        proof {
            assert(self@.chips =~= old(self)@.chips.update(
                psg_index as int,
                apply_register_model(old(self)@.chips[psg_index as int], register as int, value),
            ));
        }
    }

    /// Reads a register of chip `psg_index`.
    pub fn read_register(&self, psg_index: usize, register: u8) -> (r: u8)
        requires
            self.wf(),
            psg_index < self@.chips.len(),
        ensures
            r == if register < 14 { self@.chips[psg_index as int].registers[register as int] } else { 0 },
    {
        self.chips[psg_index].read_register(register)
    }

    /// Resets every chip.
    pub fn reset(&mut self)
        requires
            old(self).wf(),
        ensures
            final(self).wf(),
            final(self)@.frequencies == old(self)@.frequencies,
            final(self)@.chips.len() == old(self)@.chips.len(),
            forall|i: int| 0 <= i < old(self)@.chips.len() ==> #[trigger] final(self)@.chips[i] == reset_model(
                old(self)@.chips[i],
            ),
    {
        let n = self.chips.len();
        let mut i: usize = 0;
        while i < n
            invariant
                i <= n,
                n == old(self)@.chips.len(),
                self.wf(),
                self@.frequencies == old(self)@.frequencies,
                self@.chips.len() == n,
                forall|k: int| 0 <= k < i ==> #[trigger] self@.chips[k] == reset_model(old(self)@.chips[k]),
                forall|k: int| i <= k < n ==> #[trigger] self@.chips[k] == old(self)@.chips[k],
            decreases n - i,
        {
            let ghost prev = self.chips@;
            assert(self@.chips[i as int] == old(self)@.chips[i as int]);
            let mut chip = self.chips.remove(i);
            chip.reset();
            let ghost c2 = chip;
            self.chips.insert(i, chip);
            proof {
                assert(self.chips@ =~= prev.update(i as int, c2));
                assert(self@.chips =~= prev.map_values(|c: Ym2149| c@).update(i as int, c2@));
                assert(self@.chips[i as int] == reset_model(old(self)@.chips[i as int]));
            }
            i = i + 1;
        }
    }

    /// The registers of every chip (registers 14 and 15 zero).
    pub fn dump_all_registers(&self) -> (out: Vec<[u8; 16]>)
        requires
            self.wf(),
        ensures
            out@.len() == self@.chips.len(),
            forall|i: int, r: int| 0 <= i < out@.len() && 0 <= r < 16 ==> #[trigger] out@[i]@[r] == if r < 14 {
                self@.chips[i].registers[r]
            } else {
                0u8
            },
    {
        let mut out: Vec<[u8; 16]> = Vec::new();
        let mut i: usize = 0;
        while i < self.chips.len()
            invariant
                i <= self@.chips.len(),
                self.wf(),
                out@.len() == i,
                forall|k: int, r: int| 0 <= k < i && 0 <= r < 16 ==> #[trigger] out@[k]@[r] == if r < 14 {
                    self@.chips[k].registers[r]
                } else {
                    0u8
                },
            decreases self@.chips.len() - i,
        {
            out.push(self.chips[i].dump_registers());
            i = i + 1;
        }
        out
    }

    /// Clocks every chip `count` times; returns each chip's samples.
    pub fn generate_samples_separate(&mut self, count: usize) -> (out: Vec<Vec<i16>>)
        requires
            old(self).wf(),
        ensures
            final(self).wf(),
            final(self)@.frequencies == old(self)@.frequencies,
            final(self)@.chips.len() == old(self)@.chips.len(),
            out@.len() == old(self)@.chips.len(),
            forall|i: int| 0 <= i < out@.len() ==> #[trigger] out@[i]@ == clock_run(old(self)@.chips[i], count as nat).1,
            forall|i: int| 0 <= i < out@.len() ==> #[trigger] final(self)@.chips[i] == clock_run(old(self)@.chips[i], count as nat).0,
    {
        let n = self.chips.len();
        let mut out: Vec<Vec<i16>> = Vec::new();
        let mut i: usize = 0;
        while i < n
            invariant
                i <= n,
                n == old(self)@.chips.len(),
                self.wf(),
                self@.frequencies == old(self)@.frequencies,
                self@.chips.len() == n,
                out@.len() == i,
                forall|k: int| 0 <= k < i ==> #[trigger] out@[k]@ == clock_run(old(self)@.chips[k], count as nat).1,
                forall|k: int| 0 <= k < i ==> #[trigger] self@.chips[k] == clock_run(old(self)@.chips[k], count as nat).0,
                forall|k: int| i <= k < n ==> #[trigger] self@.chips[k] == old(self)@.chips[k],
            decreases n - i,
        {
            let ghost prev = self.chips@;
            assert(self@.chips[i as int] == old(self)@.chips[i as int]);
            let mut chip = self.chips.remove(i);
            let samples = run_chip(&mut chip, count);
            let ghost c2 = chip;
            self.chips.insert(i, chip);
            proof {
                assert(self.chips@ =~= prev.update(i as int, c2));
                assert(self@.chips =~= prev.map_values(|c: Ym2149| c@).update(i as int, c2@));
            }
            out.push(samples);
            i = i + 1;
        }
        out
    }

    /// Clocks every chip `count` times; returns, for each sample, the sum
    /// of the chips' samples (the caller scales it by the chip count).
    pub fn generate_samples_mixed(&mut self, count: usize) -> (out: Vec<i64>)
        requires
            old(self).wf(),
            old(self)@.chips.len() <= 0x1_0000_0000,
        ensures
            final(self).wf(),
            final(self)@.frequencies == old(self)@.frequencies,
            final(self)@.chips.len() == old(self)@.chips.len(),
            forall|i: int| 0 <= i < old(self)@.chips.len() ==> #[trigger] final(self)@.chips[i] == clock_run(old(self)@.chips[i], count as nat).0,
            out@.len() == count,
            forall|j: int| 0 <= j < count ==> #[trigger] out@[j] == mixed_sum(old(self)@.chips, count as nat, j, old(self)@.chips.len()),
    {
        let n = self.chips.len();
        let mut out: Vec<i64> = Vec::new();
        let mut j: usize = 0;
        while j < count
            invariant
                j <= count,
                out@.len() == j,
                forall|t: int| 0 <= t < j ==> #[trigger] out@[t] == 0,
            decreases count - j,
        {
            out.push(0);
            j = j + 1;
        }
        let mut i: usize = 0;
        while i < n
            invariant
                i <= n,
                n == old(self)@.chips.len(),
                n <= 0x1_0000_0000,
                self.wf(),
                self@.frequencies == old(self)@.frequencies,
                self@.chips.len() == n,
                out@.len() == count,
                forall|t: int| 0 <= t < count ==> #[trigger] out@[t] == mixed_sum(old(self)@.chips, count as nat, t, i as nat),
                forall|k: int| 0 <= k < i ==> #[trigger] self@.chips[k] == clock_run(old(self)@.chips[k], count as nat).0,
                forall|k: int| i <= k < n ==> #[trigger] self@.chips[k] == old(self)@.chips[k],
            decreases n - i,
        {
            let ghost prev = self.chips@;
            assert(self@.chips[i as int] == old(self)@.chips[i as int]);
            let mut chip = self.chips.remove(i);
            let samples = run_chip(&mut chip, count);
            let ghost c2 = chip;
            self.chips.insert(i, chip);
            proof {
                assert(self.chips@ =~= prev.update(i as int, c2));
                assert(self@.chips =~= prev.map_values(|c: Ym2149| c@).update(i as int, c2@));
                lemma_clock_run_len(old(self)@.chips[i as int], count as nat);
            }
            let mut t: usize = 0;
            while t < count
                invariant
                    t <= count,
                    i < n,
                    n <= 0x1_0000_0000,
                    out@.len() == count,
                    samples@ == clock_run(old(self)@.chips[i as int], count as nat).1,
                    samples@.len() == count,
                    forall|u: int| 0 <= u < t ==> #[trigger] out@[u] == mixed_sum(old(self)@.chips, count as nat, u, (i + 1) as nat),
                    forall|u: int| t <= u < count ==> #[trigger] out@[u] == mixed_sum(old(self)@.chips, count as nat, u, i as nat),
                decreases count - t,
            {
                proof {
                    lemma_mixed_sum_bound(old(self)@.chips, count as nat, t as int, i as nat);
                }
                let v = out[t] + samples[t] as i64;
                out.set(t, v);
                t = t + 1;
            }
            i = i + 1;
        }
        out
    }
}

} // verus!
