//! Sound generators of the YM2149: three tone counters, the shared noise
//! LFSR and the envelope generator.

use vstd::prelude::*;
use crate::tables::{env_data, env_data_spec, shape_to_env, shape_to_env_spec, ENV_DATA_LEN};

verus! {

/// Number of tone channels.
pub const NUM_CHANNELS: usize = 3;

/// The state of a tone generator, as the contracts see it.
pub struct ToneView {
    pub counter: u32,
    pub period: u32,
    pub edge_bits: u32,
    pub pending_reset: bool,
}

/// Tone generator of one channel: a 12-bit period counter that toggles the
/// channel's output edge each time it reaches the period.
#[derive(Clone, Copy, Debug)]
pub struct ToneGenerator {
    counter: u32,
    period: u32,
    edge_bits: u32,
    pending_reset: bool,
}

/// The edge pattern after toggling the 5-bit field at `shift`.
pub open spec fn toggle_field(bits: u32, shift: u32) -> u32 {
    bits ^ ((0x1fu32 << shift) as u32)
}

/// The tone state after one internal clock: the counter counts up, and on
/// reaching the period restarts while the channel's edge toggles.
pub open spec fn tone_tick(v: ToneView, shift: u32) -> ToneView {
    if v.counter + 1 >= v.period {
        ToneView { counter: 0, edge_bits: toggle_field(v.edge_bits, shift), ..v }
    } else {
        ToneView { counter: (v.counter + 1) as u32, ..v }
    }
}

impl View for ToneGenerator {
    type V = ToneView;

    closed spec fn view(&self) -> ToneView {
        ToneView {
            counter: self.counter,
            period: self.period,
            edge_bits: self.edge_bits,
            pending_reset: self.pending_reset,
        }
    }
}

impl ToneGenerator {
    #[verifier::type_invariant]
    spec fn inv(self) -> bool {
        self.counter < u32::MAX
    }


    /// A generator at rest: counter, period and edges zero, no reset pending.
    pub fn new() -> (t: Self)
        ensures
            t@ == (ToneView { counter: 0, period: 0, edge_bits: 0, pending_reset: false }),
    {
        ToneGenerator { counter: 0, period: 0, edge_bits: 0, pending_reset: false }
    }

    /// Sets the period (from the channel's two period registers).
    pub fn set_period(&mut self, period: u32)
        ensures
            final(self)@ == (ToneView { period, ..old(self)@ }),
    {
        proof {
            use_type_invariant(&*self);
        }
        *self = ToneGenerator { period, ..*self };
    }

    /// The current period.
    pub fn period(&self) -> (r: u32)
        ensures
            r == self@.period,
    {
        self.period
    }

    /// A channel with period 0 or 1 is played at half amplitude.
    pub fn is_half_amplitude(&self) -> (r: bool)
        ensures
            r == (self@.period <= 1),
    {
        self.period <= 1
    }

    /// Marks the edge for a reset when the timer interrupt ends (sync-buzzer effects).
    pub fn mark_pending_reset(&mut self)
        ensures
            final(self)@ == (ToneView { pending_reset: true, ..old(self)@ }),
    {
        proof {
            use_type_invariant(&*self);
        }
        *self = ToneGenerator { pending_reset: true, ..*self };
    }

    /// Applies a pending edge reset: toggles the channel's edge and restarts the counter.
    pub fn apply_pending_reset(&mut self, channel_shift: u32)
        requires
            channel_shift < 32,
        ensures
            old(self)@.pending_reset ==> final(self)@ == (ToneView {
                counter: 0,
                period: old(self)@.period,
                edge_bits: toggle_field(old(self)@.edge_bits, channel_shift),
                pending_reset: false,
            }),
            !old(self)@.pending_reset ==> final(self)@ == old(self)@,
    {
        proof {
            use_type_invariant(&*self);
        }
        if self.pending_reset {
            *self = ToneGenerator {
                counter: 0,
                period: self.period,
                edge_bits: self.edge_bits ^ (0x1fu32 << channel_shift),
                pending_reset: false,
            };
        }
    }

    /// Advances the counter by one internal clock; when it reaches the period
    /// the channel's edge toggles and the counter restarts. Returns the edges.
    pub fn tick(&mut self, channel_shift: u32) -> (r: u32)
        requires
            channel_shift < 32,
        ensures
            final(self)@ == tone_tick(old(self)@, channel_shift),
            r == final(self)@.edge_bits,
    {
        proof {
            use_type_invariant(&*self);
        }
        let counter = self.counter + 1;
        if counter >= self.period {
            *self = ToneGenerator {
                counter: 0,
                period: self.period,
                edge_bits: self.edge_bits ^ (0x1fu32 << channel_shift),
                pending_reset: self.pending_reset,
            };
        } else {
            *self = ToneGenerator { counter, period: self.period, edge_bits: self.edge_bits, pending_reset: self.pending_reset };
        }
        self.edge_bits
    }

    /// The current edge bits.
    pub fn edge_bits(&self) -> (r: u32)
        ensures
            r == self@.edge_bits,
    {
        self.edge_bits
    }

    /// Sets the edge bits (power-on randomisation).
    pub fn set_edge_bits(&mut self, bits: u32)
        ensures
            final(self)@ == (ToneView { edge_bits: bits, ..old(self)@ }),
    {
        proof {
            use_type_invariant(&*self);
        }
        *self = ToneGenerator { edge_bits: bits, ..*self };
    }

    /// Back to rest; the edge bits are kept.
    pub fn reset(&mut self)
        ensures
            final(self)@ == (ToneView {
                counter: 0,
                period: 0,
                edge_bits: old(self)@.edge_bits,
                pending_reset: false,
            }),
    {
        proof {
            use_type_invariant(&*self);
        }
        *self = ToneGenerator { counter: 0, period: 0, edge_bits: self.edge_bits, pending_reset: false };
    }
}

/// One step of the 17-bit Galois LFSR: shift right, and XOR the taps at bits
/// 13 and 16 in when the bit shifted out was one.
pub open spec fn lfsr_step(lfsr: u32) -> u32 {
    if lfsr & 1 != 0 {
        (lfsr >> 1) ^ 0x12000u32
    } else {
        lfsr >> 1
    }
}

/// The state of the noise generator, as the contracts see it.
pub struct NoiseView {
    pub counter: u32,
    pub period: u32,
    pub lfsr: u32,
    pub output_mask: u32,
    pub half_tick: bool,
}

/// Noise generator: a 17-bit LFSR clocked at half the tone rate.
#[derive(Clone, Copy, Debug)]
pub struct NoiseGenerator {
    counter: u32,
    period: u32,
    lfsr: u32,
    output_mask: u32,
    half_tick: bool,
}

/// The noise state after one internal clock. Every second clock counts;
/// when the count reaches the period (0 counts as 1) the LFSR steps, the
/// output becomes all ones or all zeros after the bit shifted out, and the
/// count restarts.
pub open spec fn noise_tick(o: NoiseView) -> NoiseView {
    let eff: int = if o.period == 0 { 1 } else { o.period as int };
    if o.half_tick {
        NoiseView { half_tick: false, ..o }
    } else if o.counter + 1 >= eff {
        NoiseView {
            counter: 0,
            period: o.period,
            lfsr: lfsr_step(o.lfsr),
            output_mask: if o.lfsr & 1 != 0 { 0xffff_ffffu32 } else { 0u32 },
            half_tick: true,
        }
    } else {
        NoiseView { counter: (o.counter + 1) as u32, half_tick: true, ..o }
    }
}

impl View for NoiseGenerator {
    type V = NoiseView;

    closed spec fn view(&self) -> NoiseView {
        NoiseView {
            counter: self.counter,
            period: self.period,
            lfsr: self.lfsr,
            output_mask: self.output_mask,
            half_tick: self.half_tick,
        }
    }
}

/// The LFSR state is a non-zero 17-bit value.
pub open spec fn lfsr_valid(lfsr: u32) -> bool {
    0 < lfsr < 0x20000
}

/// Each LFSR step keeps the state a non-zero 17-bit value: the noise never dies out.
pub proof fn lemma_lfsr_step_valid(lfsr: u32)
    requires
        lfsr_valid(lfsr),
    ensures
        lfsr_valid(lfsr_step(lfsr)),
{
    assert(0 < lfsr < 0x20000 ==> (lfsr & 1 != 0 ==> 0 < ((lfsr >> 1) ^ 0x12000u32) < 0x20000)
        && (lfsr & 1 == 0 ==> 0 < (lfsr >> 1) < 0x20000)) by (bit_vector);
}

impl NoiseGenerator {
    #[verifier::type_invariant]
    spec fn inv(self) -> bool {
        &&& self.counter < u32::MAX
        &&& lfsr_valid(self.lfsr)
    }


    /// A generator with LFSR 1 and everything else zero.
    pub fn new() -> (n: Self)
        ensures
            n@ == (NoiseView { counter: 0, period: 0, lfsr: 1, output_mask: 0, half_tick: false }),
    {
        NoiseGenerator { counter: 0, period: 0, lfsr: 1, output_mask: 0, half_tick: false }
    }

    /// Sets the period (register R6).
    pub fn set_period(&mut self, period: u32)
        ensures
            final(self)@ == (NoiseView { period, ..old(self)@ }),
    {
        proof {
            use_type_invariant(&*self);
        }
        *self = NoiseGenerator { period, ..*self };
    }

    /// Advances by one internal clock. Every second call counts; when the
    /// count reaches the period (0 counts as 1) the LFSR steps and the output
    /// becomes all ones or all zeros after the bit shifted out. Returns the output.
    pub fn tick(&mut self) -> (r: u32)
        ensures
            final(self)@ == noise_tick(old(self)@),
            r == final(self)@.output_mask,
    {
        proof {
            use_type_invariant(&*self);
        }
        let half_tick = !self.half_tick;
        if half_tick {
            let counter = self.counter + 1;
            let effective_period = if self.period > 1 { self.period } else { 1 };
            if counter >= effective_period {
                let lsb = self.lfsr & 1;
                proof {
                    lemma_lfsr_step_valid(self.lfsr);
                }
                let mut next = self.lfsr >> 1;
                if lsb != 0 {
                    next = next ^ 0x12000;
                }
                *self = NoiseGenerator {
                    counter: 0,
                    period: self.period,
                    lfsr: next,
                    output_mask: if lsb != 0 { 0xffff_ffff } else { 0 },
                    half_tick,
                };
            } else {
                *self = NoiseGenerator { counter, half_tick, ..*self };
            }
        } else {
            *self = NoiseGenerator { half_tick, ..*self };
        }
        self.output_mask
    }

    /// The current output mask.
    pub fn output_mask(&self) -> (r: u32)
        ensures
            r == self@.output_mask,
    {
        self.output_mask
    }

    /// Back to the initial state, that of a new generator: period zero.
    pub fn reset(&mut self)
        ensures
            final(self)@ == (NoiseView {
                counter: 0,
                period: 0,
                lfsr: 1,
                output_mask: 0,
                half_tick: false,
            }),
    {
        proof {
            use_type_invariant(&*self);
        }
        *self = NoiseGenerator { counter: 0, period: 0, lfsr: 1, output_mask: 0, half_tick: false };
    }
}

impl Default for NoiseGenerator {
    fn default() -> (n: Self)
        ensures
            n@ == (NoiseView { counter: 0, period: 0, lfsr: 1, output_mask: 0, half_tick: false }),
    {
        Self::new()
    }
}

/// The state of the envelope generator, as the contracts see it.
pub struct EnvelopeView {
    pub counter: u32,
    pub period: u32,
    pub position: i32,
    pub data_offset: usize,
}

/// Envelope generator: walks one of ten 128-step patterns; the first 64
/// steps play once after a trigger, the last 64 repeat.
#[derive(Clone, Copy, Debug)]
pub struct EnvelopeGenerator {
    counter: u32,
    period: u32,
    position: i32,
    data_offset: usize,
}

impl View for EnvelopeGenerator {
    type V = EnvelopeView;

    closed spec fn view(&self) -> EnvelopeView {
        EnvelopeView {
            counter: self.counter,
            period: self.period,
            position: self.position,
            data_offset: self.data_offset,
        }
    }
}

/// Position after one envelope step: up by one, and from 1 on taken modulo 64.
pub open spec fn env_next_position(p: int) -> int {
    if p + 1 > 0 {
        (p + 1) % 64
    } else {
        p + 1
    }
}

/// The envelope state after one internal clock: the counter counts up, and
/// on reaching the period restarts while the position steps.
pub open spec fn env_tick(v: EnvelopeView) -> EnvelopeView {
    if v.counter + 1 >= v.period {
        EnvelopeView { counter: 0, position: env_next_position(v.position as int) as i32, ..v }
    } else {
        EnvelopeView { counter: (v.counter + 1) as u32, ..v }
    }
}

/// The envelope state is in range: position in -64..63 and the offset of one of the ten patterns.
pub open spec fn envelope_view_valid(v: EnvelopeView) -> bool {
    &&& v.counter < u32::MAX
    &&& -64 <= v.position <= 63
    &&& v.data_offset % 128 == 0
    &&& v.data_offset <= 9 * 128
}

impl EnvelopeGenerator {
    #[verifier::type_invariant]
    spec fn inv(self) -> bool {
        envelope_view_valid(self@)
    }


    /// A generator with everything zero: the first pattern, at position 0.
    pub fn new() -> (e: Self)
        ensures
            e@ == (EnvelopeView { counter: 0, period: 0, position: 0, data_offset: 0 }),
    {
        EnvelopeGenerator { counter: 0, period: 0, position: 0, data_offset: 0 }
    }

    /// Sets the period (registers R11/R12).
    pub fn set_period(&mut self, period: u32)
        ensures
            final(self)@ == (EnvelopeView { period, ..old(self)@ }),
    {
        proof {
            use_type_invariant(&*self);
        }
        *self = EnvelopeGenerator { period, ..*self };
    }

    /// Selects the pattern for shape register value `shape` (low 4 bits) and restarts it.
    pub fn set_shape(&mut self, shape: u8)
        ensures
            final(self)@ == (EnvelopeView {
                counter: 0,
                period: old(self)@.period,
                position: -64i32,
                data_offset: (shape_to_env_spec((shape & 0x0f) as int) * 128) as usize,
            }),
    {
        proof {
            use_type_invariant(&*self);
        }
        let shape_index = shape & 0x0f;
        proof { crate::bits::lemma_low_nibble(shape); }
        let env = shape_to_env(shape_index);
        *self = EnvelopeGenerator { counter: 0, period: self.period, position: -64, data_offset: env as usize * 128 };
    }

    /// Restarts the current pattern from its first step.
    pub fn trigger(&mut self)
        ensures
            final(self)@ == (EnvelopeView { counter: 0, position: -64i32, ..old(self)@ }),
    {
        proof {
            use_type_invariant(&*self);
        }
        *self = EnvelopeGenerator { counter: 0, period: self.period, position: -64, data_offset: self.data_offset };
    }

    /// Advances by one internal clock; when the count reaches the period the position steps.
    pub fn tick(&mut self)
        ensures
            final(self)@ == env_tick(old(self)@),
    {
        proof {
            use_type_invariant(&*self);
        }
        let counter = self.counter + 1;
        if counter >= self.period {
            let mut p = self.position + 1;
            if p > 0 {
                proof { crate::bits::lemma_wrap_64(p); }
                p = p & 63;
            }
            *self = EnvelopeGenerator { counter: 0, period: self.period, position: p, data_offset: self.data_offset };
        } else {
            *self = EnvelopeGenerator { counter, period: self.period, position: self.position, data_offset: self.data_offset };
        }
    }

    /// The position in the pattern (-64 to 63; negative in the first part).
    pub fn position(&self) -> (r: i32)
        ensures
            r == self@.position,
    {
        self.position
    }

    /// The current level (0..31): entry `data_offset + position + 64` of the envelope table.
    pub fn level(&self) -> (r: u32)
        ensures
            r as int == env_data_spec(self@.data_offset + self@.position + 64),
            r < 32,
    {
        proof {
            use_type_invariant(self);
        }
        let index = self.data_offset + (self.position + 64) as usize;
        env_data(index) as u32
    }

    /// Back to the initial state, that of a new generator: the first
    /// pattern at position 0, counter and period zero.
    pub fn reset(&mut self)
        ensures
            final(self)@ == (EnvelopeView {
                counter: 0,
                period: 0,
                position: 0,
                data_offset: 0,
            }),
    {
        proof {
            use_type_invariant(&*self);
        }
        *self = EnvelopeGenerator { counter: 0, period: 0, position: 0, data_offset: 0 };
    }
}

/// The envelope state after `k` internal clocks.
pub open spec fn env_ticks(v: EnvelopeView, k: nat) -> EnvelopeView
    decreases k,
{
    if k == 0 {
        v
    } else {
        env_tick(env_ticks(v, (k - 1) as nat))
    }
}

/// Clocks per envelope step: the period, and one for a period of zero.
pub open spec fn env_step_length(period: u32) -> int {
    if period >= 1 {
        period as int
    } else {
        1
    }
}

/// Position after `n` steps from the start of a pattern: the first 64
/// steps climb from -64 to -1, after which positions 0 to 63 repeat.
pub open spec fn env_position_after(n: int) -> int {
    if n < 64 {
        n - 64
    } else {
        (n - 64) % 64
    }
}

/// One more step from the position after `n` steps gives the position
/// after `n + 1`.
proof fn lemma_env_position_step(n: int)
    requires
        n >= 0,
    ensures
        env_next_position(env_position_after(n)) == env_position_after(n + 1),
{
    if n >= 64 {
        let m = n - 64;
        let b = m % 64;
        vstd::arithmetic::div_mod::lemma_fundamental_div_mod(m, 64);
        if b < 63 {
            vstd::arithmetic::div_mod::lemma_fundamental_div_mod_converse(m + 1, 64, m / 64, b + 1);
        } else {
            vstd::arithmetic::div_mod::lemma_fundamental_div_mod_converse(m + 1, 64, m / 64 + 1, 0);
        }
    }
}

/// From the start of a pattern (as `set_shape` and `trigger` leave it),
/// the envelope takes one step every `max(period, 1)` clocks: after `k`
/// clocks, with `n = k / max(period, 1)` steps taken, the counter is
/// `k % max(period, 1)` and the level read is entry `n` of the pattern
/// while `n < 64`, and entry `64 + (n - 64) % 64` after that, so that the
/// first 64 entries play once and the last 64 repeat forever.
pub proof fn lemma_envelope_closed_form(v: EnvelopeView, k: nat)
    requires
        v.counter == 0,
        v.position == -64,
    ensures
        ({
            let q = env_step_length(v.period);
            let n = k as int / q;
            let r = env_ticks(v, k);
            &&& r.period == v.period
            &&& r.data_offset == v.data_offset
            &&& r.counter == k as int % q
            &&& r.position == env_position_after(n)
            &&& r.data_offset + r.position + 64 == v.data_offset + (if n < 64 {
                n
            } else {
                64 + (n - 64) % 64
            })
        }),
    decreases k,
{
    let q = env_step_length(v.period);
    if k == 0 {
        vstd::arithmetic::div_mod::lemma_fundamental_div_mod_converse(0, q, 0, 0);
    } else {
        let j = (k - 1) as nat;
        lemma_envelope_closed_form(v, j);
        let a = j as int / q;
        let b = j as int % q;
        vstd::arithmetic::div_mod::lemma_fundamental_div_mod(j as int, q);
        vstd::arithmetic::div_mod::lemma_mod_bound(j as int, q);
        lemma_env_position_step(a);
        assert(a * q == q * a && (a + 1) * q == q * a + q) by (nonlinear_arith);
        if b + 1 < q {
            vstd::arithmetic::div_mod::lemma_fundamental_div_mod_converse(k as int, q, a, b + 1);
        } else {
            vstd::arithmetic::div_mod::lemma_fundamental_div_mod_converse(k as int, q, a + 1, 0);
        }
    }
}

impl Default for ToneGenerator {
    fn default() -> (t: Self)
        ensures
            t@ == (ToneView { counter: 0, period: 0, edge_bits: 0, pending_reset: false }),
    {
        Self::new()
    }
}

impl Default for EnvelopeGenerator {
    fn default() -> (e: Self)
        ensures
            e@ == (EnvelopeView { counter: 0, period: 0, position: 0, data_offset: 0 }),
    {
        Self::new()
    }
}

} // verus!
