//! Compact cycle-accurate YM2149: the whole chip in one state machine,
//! clocked at the master clock divided by 8 (250 kHz on the Atari ST) and
//! averaged down to the host rate.

use vstd::prelude::*;
use crate::dc_filter::{dc_output, seq_sum, DcFilter, HISTORY_SIZE};
use crate::generators::{env_next_position, toggle_field};
use crate::mixer::packed_levels;
use crate::tables::{
    env_data, env_data_spec, gate_mask, gate_mask_spec, log_level, log_level_spec, reg_mask,
    reg_mask_spec, shape_to_env, shape_to_env_spec, MAX_LEVEL,
};
use crate::chip::{random_step, random_value};

verus! {

broadcast use vstd::array::group_array_axioms;

/// Default master clock (2 MHz).
pub const DEFAULT_MASTER_CLOCK: u32 = 2_000_000;

/// Default host sample rate (44.1 kHz).
pub const DEFAULT_SAMPLE_RATE: u32 = 44_100;

/// Steps the power-on pseudo-random generator (the C library's `rand`)
/// and returns its next 15-bit value.
pub fn std_lib_rand(seed: &mut u32) -> (r: u16)
    ensures
        *final(seed) == random_step(*old(seed)),
        r == random_value(*final(seed)),
{
    *seed = seed.wrapping_mul(214013).wrapping_add(2531011);
    ((*seed >> 16) & 0x7fff) as u16
}

/// The chip state, as the contracts see it.
pub struct PsgState {
    pub selected_reg: int,
    pub env_offset: int,
    pub clock8: u32,
    pub rate: u32,
    pub tone_counter: Seq<u32>,
    pub tone_period: Seq<u32>,
    pub tone_edges: u32,
    pub env_counter: u32,
    pub env_pos: int,
    pub env_period: u32,
    pub noise_counter: u32,
    pub noise_period: u32,
    pub tone_mask: u32,
    pub noise_mask: u32,
    pub noise_rnd: u32,
    pub noise_out: u32,
    pub regs: Seq<u8>,
    pub inner_cycle: u32,
    pub noise_half: u32,
    pub in_irq: bool,
    pub edge_reset: Seq<bool>,
    pub dc_history: Seq<u16>,
    pub dc_slot: int,
    pub last_sample: i16,
    pub last_levels: Seq<u32>,
    pub mute: Seq<bool>,
}

/// YM2149 emulator: one state machine for tones, noise, envelope and DAC.
pub struct Ym2149 {
    selected_reg: usize,
    current_env_offset: usize,
    ym_clock_one_eighth: u32,
    host_replay_rate: u32,
    tone_counter: [u32; 3],
    tone_period: [u32; 3],
    tone_edges: u32,
    env_counter: u32,
    env_pos: i32,
    env_period: u32,
    noise_counter: u32,
    noise_period: u32,
    tone_mask: u32,
    noise_mask: u32,
    noise_rnd_rack: u32,
    current_noise_mask: u32,
    dc: DcFilter,
    regs: [u8; 14],
    inner_cycle: u32,
    noise_half: u32,
    inside_timer_irq: bool,
    edge_need_reset: [bool; 3],
    last_sample: i16,
    last_levels: [u32; 3],
    user_mute: [bool; 3],
}

impl View for Ym2149 {
    type V = PsgState;

    closed spec fn view(&self) -> PsgState {
        PsgState {
            selected_reg: self.selected_reg as int,
            env_offset: self.current_env_offset as int,
            clock8: self.ym_clock_one_eighth,
            rate: self.host_replay_rate,
            tone_counter: self.tone_counter@,
            tone_period: self.tone_period@,
            tone_edges: self.tone_edges,
            env_counter: self.env_counter,
            env_pos: self.env_pos as int,
            env_period: self.env_period,
            noise_counter: self.noise_counter,
            noise_period: self.noise_period,
            tone_mask: self.tone_mask,
            noise_mask: self.noise_mask,
            noise_rnd: self.noise_rnd_rack,
            noise_out: self.current_noise_mask,
            regs: self.regs@,
            inner_cycle: self.inner_cycle,
            noise_half: self.noise_half,
            in_irq: self.inside_timer_irq,
            edge_reset: self.edge_need_reset@,
            dc_history: self.dc.history(),
            dc_slot: self.dc.slot(),
            last_sample: self.last_sample,
            last_levels: self.last_levels@,
            mute: self.user_mute@,
        }
    }
}

/// The state is in range: registers within their widths and the values
/// derived from them in step, counters below their largest periods, the
/// envelope inside its pattern, the edge and mask words 15 bits wide, the
/// noise register 17 bits wide, and clocks that let every host sample end
/// without overflow.
pub open spec fn psg_valid(m: PsgState) -> bool {
    &&& m.regs.len() == 14
    &&& m.tone_counter.len() == 3
    &&& m.tone_period.len() == 3
    &&& m.edge_reset.len() == 3
    &&& m.last_levels.len() == 3
    &&& m.mute.len() == 3
    &&& forall|r: int| 0 <= r < 14 ==> #[trigger] m.regs[r] & reg_mask_spec(r) == m.regs[r]
    &&& forall|v: int| 0 <= v < 3 ==> #[trigger] m.tone_counter[v] <= 0xFFF
    &&& forall|v: int| 0 <= v < 3 ==> #[trigger] m.tone_period[v] <= 0xFFF
    &&& m.env_counter <= 0xFFFF
    &&& m.env_period <= 0xFFFF
    &&& m.noise_counter <= 31
    &&& m.noise_period <= 31
    &&& -64 <= m.env_pos <= 63
    &&& m.env_offset % 128 == 0
    &&& 0 <= m.env_offset <= 9 * 128
    &&& m.tone_edges < 0x8000
    &&& m.tone_mask < 0x8000
    &&& m.noise_mask < 0x8000
    &&& m.noise_rnd < 0x20000
    &&& m.noise_half <= 1
    &&& 0 <= m.selected_reg < 16
    &&& m.rate > 0
    &&& m.clock8 > 0
    &&& m.inner_cycle < m.clock8
    &&& m.rate <= m.clock8
    &&& m.clock8 + m.rate <= u32::MAX
    &&& forall|v: int| 0 <= v < 3 ==> #[trigger] m.last_levels[v] <= MAX_LEVEL
}

/// The 12-bit tone period of voice `v` from its two registers.
pub open spec fn tone_period_of(regs: Seq<u8>, v: int) -> u32 {
    (regs[2 * v + 1] * 256 + regs[2 * v]) as u32
}

/// The 16-bit envelope period from registers 11 and 12.
pub open spec fn env_period_of(regs: Seq<u8>) -> u32 {
    (regs[12] * 256 + regs[11]) as u32
}

/// A write of `value` to register `reg`: registers 0 to 13 keep the value
/// within their width; tone periods follow registers 0 to 5 (a period of 0
/// or 1 written inside a timer interrupt marks the voice's edge for reset
/// at the interrupt's end), the noise period register 6, the tone and
/// noise gates register 7, the envelope period registers 11 and 12, and a
/// write to register 13 selects the shape and restarts the envelope.
/// Other registers are ignored.
pub open spec fn write_reg_model(m: PsgState, reg: int, value: u8) -> PsgState {
    if !(0 <= reg < 14) {
        m
    } else {
        let regs = m.regs.update(reg, value & reg_mask_spec(reg));
        let m1 = PsgState { regs, ..m };
        if reg < 6 {
            let v = reg / 2;
            let p = tone_period_of(regs, v);
            PsgState {
                tone_period: m.tone_period.update(v, p),
                edge_reset: if p <= 1 && m.in_irq { m.edge_reset.update(v, true) } else { m.edge_reset },
                ..m1
            }
        } else if reg == 6 {
            PsgState { noise_period: regs[6] as u32, ..m1 }
        } else if reg == 7 {
            PsgState {
                tone_mask: gate_mask_spec((value & 7) as int),
                noise_mask: gate_mask_spec(((value >> 3u8) & 7) as int),
                ..m1
            }
        } else if reg == 11 || reg == 12 {
            PsgState { env_period: env_period_of(regs), ..m1 }
        } else if reg == 13 {
            PsgState {
                env_offset: shape_to_env_spec((regs[13] & 15) as int) * 128,
                env_pos: -64,
                env_counter: 0,
                ..m1
            }
        } else {
            m1
        }
    }
}

/// Whether a counter reaching `period` on this clock restarts.
pub open spec fn counter_wraps(counter: u32, period: u32) -> bool {
    counter + 1 >= period
}

/// The counter after one clock.
pub open spec fn counter_next(counter: u32, period: u32) -> u32 {
    if counter_wraps(counter, period) { 0 } else { (counter + 1) as u32 }
}

/// The edge word after one clock: each voice whose counter wraps toggles
/// its 5-bit field.
pub open spec fn edges_next(m: PsgState) -> u32 {
    let e0 = if counter_wraps(m.tone_counter[0], m.tone_period[0]) { toggle_field(m.tone_edges, 0) } else { m.tone_edges };
    let e1 = if counter_wraps(m.tone_counter[1], m.tone_period[1]) { toggle_field(e0, 5) } else { e0 };
    if counter_wraps(m.tone_counter[2], m.tone_period[2]) { toggle_field(e1, 10) } else { e1 }
}

/// The noise output word drawn from the noise register: all ones when bit
/// 0 and bit 2 differ, else zero.
pub open spec fn noise_out_of(rnd: u32) -> u32 {
    if (rnd ^ (rnd >> 2u32)) & 1 != 0 { 0xFFFF_FFFFu32 } else { 0u32 }
}

/// The noise register after one step: shifted right, with the new output
/// bit fed in at bit 16.
pub open spec fn noise_rnd_next(rnd: u32) -> u32 {
    (rnd >> 1u32) | ((noise_out_of(rnd) & 1) << 16u32)
}

/// One internal clock, and the channel gate it outputs (computed from the
/// edges and noise before the clock): the three tone counters, the
/// envelope counter and position, and, on every second clock, the noise
/// counter and register.
pub open spec fn tick_model(m: PsgState) -> (PsgState, u32) {
    let vmask = (m.tone_edges | m.tone_mask) & (m.noise_out | m.noise_mask);
    let env_wraps = counter_wraps(m.env_counter, m.env_period);
    let half = m.noise_half ^ 1u32;
    let noise_steps = half != 0 && m.noise_counter + 1 >= m.noise_period;
    let m2 = PsgState {
        tone_counter: seq![
            counter_next(m.tone_counter[0], m.tone_period[0]),
            counter_next(m.tone_counter[1], m.tone_period[1]),
            counter_next(m.tone_counter[2], m.tone_period[2]),
        ],
        tone_edges: edges_next(m),
        env_counter: counter_next(m.env_counter, m.env_period),
        env_pos: if env_wraps { env_next_position(m.env_pos) } else { m.env_pos },
        noise_half: half,
        noise_counter: if half == 0 {
            m.noise_counter
        } else if noise_steps {
            0
        } else {
            (m.noise_counter + 1) as u32
        },
        noise_out: if noise_steps { noise_out_of(m.noise_rnd) } else { m.noise_out },
        noise_rnd: if noise_steps { noise_rnd_next(m.noise_rnd) } else { m.noise_rnd },
        ..m
    };
    (m2, vmask)
}

/// Bit position of channel `c`'s 5-bit field in a gate word.
pub open spec fn channel_shift(c: int) -> u32 {
    if c == 0 { 0 } else if c == 1 { 5 } else { 10 }
}

/// The 5-bit field of channel `c` (0..2) in a gate word.
pub open spec fn channel_gate(x: u32, c: int) -> u32 {
    (x >> channel_shift(c)) & 0x1f
}

/// A channel's 5-bit gate, from the tone edge, the noise output and the
/// two disable masks.
proof fn lemma_gate_field(te: u32, tm: u32, no: u32, nm: u32, s: u32)
    by (bit_vector)
    requires
        s == 0 || s == 5 || s == 10,
    ensures
        ((tm >> s) & 0x1f) == 0x1f && ((nm >> s) & 0x1f) == 0 ==> (((te | tm) & (no | nm)) >> s) & 0x1f
            == (no >> s) & 0x1f,
        ((tm >> s) & 0x1f) == 0 && ((nm >> s) & 0x1f) == 0x1f ==> (((te | tm) & (no | nm)) >> s) & 0x1f
            == (te >> s) & 0x1f,
        ((tm >> s) & 0x1f) == 0x1f && ((nm >> s) & 0x1f) == 0x1f ==> (((te | tm) & (no | nm)) >> s)
            & 0x1f == 0x1f,
        ((tm >> s) & 0x1f) == 0 && ((nm >> s) & 0x1f) == 0 ==> (((te | tm) & (no | nm)) >> s) & 0x1f
            == ((te >> s) & 0x1f) & ((no >> s) & 0x1f),
{
}

/// Each channel's gate on an internal clock. Tone disabled, noise enabled:
/// the noise generator's bits. Tone enabled, noise disabled: the tone
/// edge's bits. Both disabled: all ones. Both enabled: the tone edge's
/// bits AND the noise generator's bits.
pub proof fn lemma_channel_gate(m: PsgState, c: int)
    requires
        0 <= c < 3,
    ensures
        ({
            let g = tick_model(m).1;
            let tone_off = channel_gate(m.tone_mask, c) == 0x1f;
            let tone_on = channel_gate(m.tone_mask, c) == 0;
            let noise_off = channel_gate(m.noise_mask, c) == 0x1f;
            let noise_on = channel_gate(m.noise_mask, c) == 0;
            &&& tone_off && noise_on ==> channel_gate(g, c) == channel_gate(m.noise_out, c)
            &&& tone_on && noise_off ==> channel_gate(g, c) == channel_gate(m.tone_edges, c)
            &&& tone_off && noise_off ==> channel_gate(g, c) == 0x1f
            &&& tone_on && noise_on ==> channel_gate(g, c) == channel_gate(m.tone_edges, c) & channel_gate(
                m.noise_out,
                c,
            )
        }),
{
    lemma_gate_field(m.tone_edges, m.tone_mask, m.noise_out, m.noise_mask, channel_shift(c));
}

/// Two clocks that differ only in the noise output give different gates
/// on a channel whose tone is disabled and noise enabled, whenever the
/// noise outputs differ there.
pub proof fn lemma_noise_heard(m: PsgState, noise_out: u32, c: int)
    requires
        0 <= c < 3,
        channel_gate(m.tone_mask, c) == 0x1f,
        channel_gate(m.noise_mask, c) == 0,
        channel_gate(noise_out, c) != channel_gate(m.noise_out, c),
    ensures
        channel_gate(tick_model(PsgState { noise_out, ..m }).1, c) != channel_gate(tick_model(m).1, c),
{
    lemma_channel_gate(m, c);
    lemma_channel_gate(PsgState { noise_out, ..m }, c);
}

/// The internal clocks of one host sample: clocks run, the accumulator
/// gaining the host rate after each, until it reaches the internal rate;
/// the gates of all of them are ORed.
pub open spec fn run_ticks(m: PsgState, mask: u16) -> (PsgState, u16)
    decreases m.clock8 - m.inner_cycle,
{
    let (m2, g) = tick_model(m);
    let mask2 = mask | (g as u16);
    let inner2 = m2.inner_cycle + m.rate;
    let m3 = PsgState { inner_cycle: inner2 as u32, ..m2 };
    if inner2 >= m.clock8 || m.rate == 0 || inner2 > u32::MAX {
        (m3, mask2)
    } else {
        run_ticks(m3, mask2)
    }
}

/// The output level of voice `v`: zero when muted, else the DAC level of
/// its 5-bit step, halved when its tone period is 0 or 1.
pub open spec fn voice_level(g: PsgState, levels: u32, v: int) -> u32 {
    let idx = if v == 0 { levels & 31 } else if v == 1 { (levels >> 5u32) & 31 } else { (levels >> 10u32) & 31 };
    if g.mute[v] {
        0
    } else if g.tone_period[v] > 1 {
        log_level_spec(idx as int) as u32
    } else {
        (log_level_spec(idx as int) / 2) as u32
    }
}

/// The packed 5-bit steps of the three voices after the clocks of a host
/// sample: the envelope's level where a volume register asks for it, else
/// twice the fixed volume, all under the ORed gate.
pub open spec fn sample_levels(g: PsgState, mask: u16) -> u32 {
    let env = env_data_spec(g.env_offset + g.env_pos + 64) as u32;
    packed_levels(g.regs[8], g.regs[9], g.regs[10], env, mask as u32)
}

/// The state after one host sample, and the sample: the clocks run, the
/// accumulator loses the internal rate, the voice levels are kept, and their
/// sum goes through the DC filter.
pub open spec fn next_sample_model(m: PsgState) -> (PsgState, i16) {
    let (g, mask) = run_ticks(m, 0u16);
    let levels = sample_levels(g, mask);
    let l0 = voice_level(g, levels, 0);
    let l1 = voice_level(g, levels, 1);
    let l2 = voice_level(g, levels, 2);
    let total = (l0 + l1 + l2) as u16;
    let hist = g.dc_history.update(g.dc_slot, total);
    (
        PsgState {
            inner_cycle: (g.inner_cycle - m.clock8) as u32,
            last_levels: seq![l0, l1, l2],
            dc_history: hist,
            dc_slot: (g.dc_slot + 1) % (HISTORY_SIZE as int),
            ..g
        },
        dc_output(total, seq_sum(hist)),
    )
}

/// The edge word of power-on: fields A and B set, C clear (drawn from the
/// pseudo-random generator seeded with 1).
pub open spec fn power_on_edges() -> u32 {
    ((random_value(random_step(1)) as u32 & 0x421u32) * 0x1fu32) as u32
}

/// Register writes `0..n` of a reset: R7 = 0x3F, all others zero.
pub open spec fn reset_writes(m: PsgState, n: int) -> PsgState
    decreases n,
{
    if n <= 0 {
        m
    } else {
        write_reg_model(reset_writes(m, n - 1), n - 1, if n - 1 == 7 { 0x3fu8 } else { 0u8 })
    }
}

/// The state after a reset of a chip in state `m`: counters and periods of
/// the tones cleared, the power-on edges, timer interrupt off, noise
/// register 1, registers written as on power-on, accumulator, envelope
/// position and DC filter cleared, levels and last sample zero. Clocks,
/// mutes, the noise counter and output, and pending edge resets are kept.
pub open spec fn reset_model(m: PsgState) -> PsgState {
    let m0 = PsgState {
        tone_counter: seq![0u32, 0u32, 0u32],
        tone_period: seq![0u32, 0u32, 0u32],
        tone_edges: power_on_edges(),
        in_irq: false,
        noise_rnd: 1,
        noise_half: 0,
        ..m
    };
    let m1 = reset_writes(m0, 14);
    PsgState {
        selected_reg: 0,
        inner_cycle: 0,
        env_pos: 0,
        dc_history: Seq::new(HISTORY_SIZE as nat, |i: int| 0u16),
        dc_slot: 0,
        last_sample: 0,
        last_levels: seq![0u32, 0u32, 0u32],
        ..m1
    }
}


/// Every gate word is 15 bits wide.
proof fn lemma_gate_mask_bound(bits: int)
    ensures
        gate_mask_spec(bits) < 0x8000,
{
    let a: u32 = if bits % 2 == 1 { 0x1fu32 } else { 0u32 };
    let b: u32 = if (bits / 2) % 2 == 1 { 0x3e0u32 } else { 0u32 };
    let c: u32 = if (bits / 4) % 2 == 1 { 0x7c00u32 } else { 0u32 };
    assert((a == 0 || a == 0x1f) && (b == 0 || b == 0x3e0) && (c == 0 || c == 0x7c00) ==> a | b | c < 0x8000) by (bit_vector);
}

/// A register write keeps the state in range.
proof fn lemma_write_keeps_valid(m: PsgState, reg: int, value: u8)
    requires
        psg_valid(m),
    ensures
        psg_valid(write_reg_model(m, reg, value)),
{
    if 0 <= reg < 14 {
        let mk = reg_mask_spec(reg);
        let regs = m.regs.update(reg, value & mk);
        crate::bits::lemma_mask_twice(value, mk);
        assert forall|r: int| 0 <= r < 14 implies #[trigger] regs[r] & reg_mask_spec(r) == regs[r] by {
            if r != reg {
                assert(m.regs[r] & reg_mask_spec(r) == m.regs[r]);
            }
        }
        if reg < 6 {
            let v = reg / 2;
            let hi = regs[2 * v + 1];
            assert(regs[2 * v + 1] & reg_mask_spec(2 * v + 1) == regs[2 * v + 1]);
            assert(hi & 0x0f == hi ==> hi <= 15) by (bit_vector);
        } else if reg == 6 {
            let r6 = regs[6];
            assert(regs[6] & reg_mask_spec(6) == regs[6]);
            assert(r6 & 0x1f == r6 ==> r6 <= 31) by (bit_vector);
        } else if reg == 7 {
            lemma_gate_mask_bound((value & 7) as int);
            lemma_gate_mask_bound(((value >> 3u8) & 7) as int);
        } else if reg == 13 {
            let r13 = regs[13];
            crate::bits::lemma_low_nibble(r13);
        }
    }
}


/// A chip with the given clocks and everything else zero, noise register 1.
pub open spec fn fresh_state(clock8: u32, rate: u32) -> PsgState {
    PsgState {
        selected_reg: 0,
        env_offset: 0,
        clock8,
        rate,
        tone_counter: seq![0u32, 0u32, 0u32],
        tone_period: seq![0u32, 0u32, 0u32],
        tone_edges: 0,
        env_counter: 0,
        env_pos: 0,
        env_period: 0,
        noise_counter: 0,
        noise_period: 0,
        tone_mask: 0,
        noise_mask: 0,
        noise_rnd: 1,
        noise_out: 0,
        regs: Seq::new(14, |i: int| 0u8),
        inner_cycle: 0,
        noise_half: 0,
        in_irq: false,
        edge_reset: seq![false, false, false],
        dc_history: Seq::new(HISTORY_SIZE as nat, |i: int| 0u16),
        dc_slot: 0,
        last_sample: 0,
        last_levels: seq![0u32, 0u32, 0u32],
        mute: seq![false, false, false],
    }
}

/// Leaving a timer interrupt: every voice with a pending edge reset
/// toggles its edge field and restarts its counter. Entering one only
/// records it.
pub open spec fn timer_irq_model(m: PsgState, inside: bool) -> PsgState {
    if inside {
        PsgState { in_irq: true, ..m }
    } else {
        let e0 = if m.edge_reset[0] { toggle_field(m.tone_edges, 0) } else { m.tone_edges };
        let e1 = if m.edge_reset[1] { toggle_field(e0, 5) } else { e0 };
        let e2 = if m.edge_reset[2] { toggle_field(e1, 10) } else { e1 };
        PsgState {
            tone_edges: e2,
            tone_counter: Seq::new(3, |v: int| if m.edge_reset[v] { 0u32 } else { m.tone_counter[v] }),
            edge_reset: seq![false, false, false],
            in_irq: false,
            ..m
        }
    }
}

/// Toggling a voice's field keeps the edge word 15 bits wide.
proof fn lemma_toggle_bound(e: u32)
    ensures
        e < 0x8000 ==> toggle_field(e, 0) < 0x8000 && toggle_field(e, 5) < 0x8000 && toggle_field(e, 10) < 0x8000,
{
    assert(e < 0x8000 ==> e ^ ((0x1fu32 << 0u32) as u32) < 0x8000 && e ^ ((0x1fu32 << 5u32) as u32) < 0x8000
        && e ^ ((0x1fu32 << 10u32) as u32) < 0x8000) by (bit_vector);
}


/// The chip state after the register writes `w` (register, value), in order.
pub open spec fn apply_writes(m: PsgState, w: Seq<(int, u8)>) -> PsgState
    decreases w.len(),
{
    if w.len() == 0 {
        m
    } else {
        write_reg_model(apply_writes(m, w.drop_last()), w.last().0, w.last().1)
    }
}

/// One more write at the end of a list applies after the others.
pub proof fn lemma_apply_writes_push(m: PsgState, w: Seq<(int, u8)>, x: (int, u8))
    ensures
        apply_writes(m, w.push(x)) == write_reg_model(apply_writes(m, w), x.0, x.1),
{
    assert(w.push(x).drop_last() =~= w);
}

/// Two lists of writes applied one after the other are their concatenation.
pub proof fn lemma_apply_writes_concat(m: PsgState, a: Seq<(int, u8)>, b: Seq<(int, u8)>)
    ensures
        apply_writes(m, a + b) == apply_writes(apply_writes(m, a), b),
    decreases b.len(),
{
    if b.len() == 0 {
        assert(a + b =~= a);
    } else {
        lemma_apply_writes_concat(m, a, b.drop_last());
        assert((a + b).drop_last() =~= a + b.drop_last());
        assert((a + b).last() == b.last());
    }
}

/// Writes of registers `0..n` from a frame, in order.
pub open spec fn load_frame_model(m: PsgState, regs: Seq<u8>, n: int) -> PsgState
    decreases n,
{
    if n <= 0 {
        m
    } else {
        write_reg_model(load_frame_model(m, regs, n - 1), n - 1, regs[n - 1])
    }
}

impl Ym2149 {
    /// The chip is in range and its DC filter well formed.
    pub closed spec fn wf(&self) -> bool {
        &&& psg_valid(self@)
        &&& self.dc.wf()
    }

    /// Writes `value` to register `reg`.
    fn write_reg(&mut self, reg: usize, value: u8)
        requires
            old(self).wf(),
        ensures
            final(self).wf(),
            final(self)@ == write_reg_model(old(self)@, reg as int, value),
    {
        proof {
            lemma_write_keeps_valid(self@, reg as int, value);
        }
        if reg < 14 {
            let masked = value & reg_mask(reg);
            assert(masked & reg_mask_spec(reg as int) == masked) by {
                let mk = reg_mask_spec(reg as int);
                crate::bits::lemma_mask_twice(value, mk);
            }
            self.regs[reg] = masked;
            if reg < 6 {
                let voice = reg / 2;
                let hi = self.regs[voice * 2 + 1];
                let lo = self.regs[voice * 2];
                assert(hi & 0x0f == hi);
                proof {
                    crate::bits::lemma_bytes_u32(hi, lo);
                    crate::bits::lemma_low_nibble(hi);
                }
                let p = ((hi as u32) << 8) | lo as u32;
                self.tone_period[voice] = p;
                if p <= 1 && self.inside_timer_irq {
                    self.edge_need_reset[voice] = true;
                }
            } else if reg == 6 {
                self.noise_period = self.regs[6] as u32;
            } else if reg == 7 {
                let t = value & 0x7;
                let n = (value >> 3) & 0x7;
                assert(value & 7 < 8 && (value >> 3u8) & 7 < 8) by (bit_vector);
                self.tone_mask = gate_mask(t);
                self.noise_mask = gate_mask(n);
            } else if reg == 11 || reg == 12 {
                let hi = self.regs[12];
                let lo = self.regs[11];
                proof { crate::bits::lemma_bytes_u32(hi, lo); }
                self.env_period = ((hi as u32) << 8) | lo as u32;
            } else if reg == 13 {
                let r13 = self.regs[13];
                let shape = r13 & 0x0f;
                proof { crate::bits::lemma_low_nibble(r13); }
                self.current_env_offset = shape_to_env(shape) as usize * 128;
                self.env_pos = -64;
                self.env_counter = 0;
            }
        }
    }

    /// Writes a register (0..13; others are ignored).
    pub fn write_register(&mut self, reg: u8, value: u8)
        requires
            old(self).wf(),
        ensures
            final(self).wf(),
            final(self)@ == write_reg_model(old(self)@, reg as int, value),
    {
        self.write_reg(reg as usize, value);
    }

    /// Reads a register (0..13; others read as zero).
    pub fn read_register(&self, reg: u8) -> (r: u8)
        requires
            self.wf(),
        ensures
            r == if reg < 14 { self@.regs[reg as int] } else { 0 },
    {
        if (reg as usize) < 14 {
            self.regs[reg as usize]
        } else {
            0
        }
    }

    /// Port access: an odd-numbered data port (bit 1 set) writes the
    /// selected register; the select port selects register `value & 15`.
    pub fn write_port(&mut self, port: u8, value: u8)
        requires
            old(self).wf(),
        ensures
            final(self).wf(),
            port & 2 != 0 ==> final(self)@ == write_reg_model(old(self)@, old(self)@.selected_reg, value),
            port & 2 == 0 ==> final(self)@ == (PsgState { selected_reg: (value & 0x0f) as int, ..old(self)@ }),
    {
        if (port & 2) != 0 {
            let r = self.selected_reg;
            self.write_reg(r, value);
        } else {
            proof { crate::bits::lemma_low_nibble(value); }
            self.selected_reg = (value & 0x0f) as usize;
        }
    }

    /// Port read: the select port reads the selected register (which must
    /// be one of the 14 that exist), the data port reads 0xFF.
    pub fn read_port(&self, port: u8) -> (r: u8)
        requires
            self.wf(),
            port & 2 != 0 || self@.selected_reg < 14,
        ensures
            port & 2 == 0 ==> r == self@.regs[self@.selected_reg],
            port & 2 != 0 ==> r == 0xff,
    {
        if (port & 2) == 0 {
            self.regs[self.selected_reg]
        } else {
            0xff
        }
    }

    /// One internal clock; returns the channel gate of that clock.
    fn tick(&mut self) -> (r: u32)
        requires
            old(self).wf(),
        ensures
            final(self).wf(),
            final(self)@ == tick_model(old(self)@).0,
            r == tick_model(old(self)@).1,
            r < 0x8000,
    {
        let ghost m = self@;
        let edges0 = self.tone_edges;
        let tmask = self.tone_mask;
        let nout = self.current_noise_mask;
        let nmask = self.noise_mask;
        let vmask = (edges0 | tmask) & (nout | nmask);
        assert(edges0 < 0x8000 && tmask < 0x8000 ==> (edges0 | tmask) & (nout | nmask) < 0x8000) by (bit_vector);
        proof {
            lemma_toggle_bound(edges0);
        }
        let mut edges = edges0;
        let c0 = self.tone_counter[0] + 1;
        if c0 >= self.tone_period[0] {
            edges = edges ^ (0x1f << 0u32);
            self.tone_counter[0] = 0;
        } else {
            self.tone_counter[0] = c0;
        }
        proof {
            lemma_toggle_bound(edges);
        }
        let c1 = self.tone_counter[1] + 1;
        if c1 >= self.tone_period[1] {
            edges = edges ^ (0x1f << 5u32);
            self.tone_counter[1] = 0;
        } else {
            self.tone_counter[1] = c1;
        }
        proof {
            lemma_toggle_bound(edges);
        }
        let c2 = self.tone_counter[2] + 1;
        if c2 >= self.tone_period[2] {
            edges = edges ^ (0x1f << 10u32);
            self.tone_counter[2] = 0;
        } else {
            self.tone_counter[2] = c2;
        }
        self.tone_edges = edges;
        let ec = self.env_counter + 1;
        if ec >= self.env_period {
            let p = self.env_pos + 1;
            if p > 0 {
                proof { crate::bits::lemma_wrap_64(p); }
                self.env_pos = p & 63;
            } else {
                self.env_pos = p;
            }
            self.env_counter = 0;
        } else {
            self.env_counter = ec;
        }
        let half0 = self.noise_half;
        let half = half0 ^ 1;
        assert(half0 <= 1 ==> half0 ^ 1u32 <= 1) by (bit_vector);
        self.noise_half = half;
        if half != 0 {
            let nc = self.noise_counter + 1;
            if nc >= self.noise_period {
                let rnd = self.noise_rnd_rack;
                let out: u32 = if ((rnd ^ (rnd >> 2)) & 1) != 0 { 0xFFFF_FFFF } else { 0 };
                assert(rnd < 0x20000 && (out == 0 || out == 0xFFFF_FFFFu32) ==> (rnd >> 1u32) | ((out & 1u32) << 16u32) < 0x20000) by (bit_vector);
                self.current_noise_mask = out;
                self.noise_rnd_rack = (rnd >> 1) | ((out & 1) << 16);
                self.noise_counter = 0;
            } else {
                self.noise_counter = nc;
            }
        }
        proof {
            assert(self@.tone_counter =~= tick_model(m).0.tone_counter);
            assert(self@ == tick_model(m).0);
        }
        vmask
    }

    /// Runs the internal clocks of one host sample (as many as the host rate
    /// takes to reach the internal rate) and returns the DC-adjusted sum of
    /// the three voice levels.
    pub fn compute_next_sample(&mut self) -> (r: i16)
        requires
            old(self).wf(),
        ensures
            final(self).wf(),
            final(self)@ == next_sample_model(old(self)@).0,
            r == next_sample_model(old(self)@).1,
    {
        let ghost m = self@;
        let mut high_mask: u16 = 0;
        let mut acc = self.inner_cycle;
        let mut done = false;
        while !done
            invariant
                self.wf(),
                self@.clock8 == m.clock8,
                self@.rate == m.rate,
                self@.inner_cycle == m.inner_cycle,
                self@.regs == m.regs,
                self@.mute == m.mute,
                self@.dc_history == m.dc_history,
                self@.dc_slot == m.dc_slot,
                self@.selected_reg == m.selected_reg,
                self@.in_irq == m.in_irq,
                self@.last_sample == m.last_sample,
                self@.last_levels == m.last_levels,
                !done ==> acc < m.clock8,
                !done ==> run_ticks(m, 0u16) == run_ticks(PsgState { inner_cycle: acc, ..self@ }, high_mask),
                done ==> run_ticks(m, 0u16) == (PsgState { inner_cycle: acc, ..self@ }, high_mask),
                done ==> acc >= m.clock8,
                acc < m.clock8 + m.rate,
            decreases (if done { 0 } else { m.clock8 - acc + 1 }),
        {
            let ghost before = PsgState { inner_cycle: acc, ..self@ };
            let ghost mask_before = high_mask;
            let gate = self.tick();
            high_mask = high_mask | (gate as u16);
            acc = acc + self.host_replay_rate;
            if acc >= self.ym_clock_one_eighth {
                done = true;
            }
            proof {
                assert(tick_model(before).0 == PsgState { inner_cycle: before.inner_cycle, ..self@ });
                assert(run_ticks(before, mask_before) == if acc >= m.clock8 {
                    (PsgState { inner_cycle: acc, ..self@ }, high_mask)
                } else {
                    run_ticks(PsgState { inner_cycle: acc, ..self@ }, high_mask)
                });
            }
        }
        let ghost g = PsgState { inner_cycle: acc, ..self@ };
        self.inner_cycle = acc - self.ym_clock_one_eighth;
        let index = self.current_env_offset + (self.env_pos + 64) as usize;
        let env_level = env_data(index) as u32;
        let r8 = self.regs[8];
        let r9 = self.regs[9];
        let r10 = self.regs[10];
        let l0 = if (r8 & 0x10) != 0 { env_level } else { (r8 as u32) << 1 };
        let l1 = if (r9 & 0x10) != 0 { env_level } else { (r9 as u32) << 1 };
        let l2 = if (r10 & 0x10) != 0 { env_level } else { (r10 as u32) << 1 };
        let levels = (l0 | (l1 << 5) | (l2 << 10)) & (high_mask as u32);
        assert(levels == sample_levels(g, high_mask));
        let i0 = levels & 31;
        let i1 = (levels >> 5) & 31;
        let i2 = (levels >> 10) & 31;
        proof { crate::bits::lemma_level_fields(levels); }
        let base0 = log_level(i0);
        let base1 = log_level(i1);
        let base2 = log_level(i2);
        proof {
            crate::bits::lemma_shift_halves(base0);
            crate::bits::lemma_shift_halves(base1);
            crate::bits::lemma_shift_halves(base2);
        }
        let level_a: u32 = if self.user_mute[0] { 0 } else if self.tone_period[0] > 1 { base0 } else { base0 >> 1 };
        let level_b: u32 = if self.user_mute[1] { 0 } else if self.tone_period[1] > 1 { base1 } else { base1 >> 1 };
        let level_c: u32 = if self.user_mute[2] { 0 } else if self.tone_period[2] > 1 { base2 } else { base2 >> 1 };
        assert(level_a == voice_level(g, levels, 0));
        assert(level_b == voice_level(g, levels, 1));
        assert(level_c == voice_level(g, levels, 2));
        self.last_levels = [level_a, level_b, level_c];
        let total = (level_a + level_b + level_c) as u16;
        let out = self.dc.process(total);
        proof {
            assert(self@.last_levels =~= seq![level_a, level_b, level_c]);
            assert(self@ == next_sample_model(m).0);
        }
        out
    }

    /// A chip with custom clocks, reset: `master_clock / 8` internal clocks
    /// per second, `sample_rate` host samples per second (at least one
    /// internal clock per host sample).
    pub fn with_clocks(master_clock: u32, sample_rate: u32) -> (c: Self)
        requires
            0 < sample_rate <= master_clock / 8,
        ensures
            c.wf(),
            c@ == reset_model(fresh_state(master_clock / 8, sample_rate)),
    {
        let mut chip = Ym2149 {
            selected_reg: 0,
            current_env_offset: 0,
            ym_clock_one_eighth: master_clock / 8,
            host_replay_rate: sample_rate,
            tone_counter: [0; 3],
            tone_period: [0; 3],
            tone_edges: 0,
            env_counter: 0,
            env_pos: 0,
            env_period: 0,
            noise_counter: 0,
            noise_period: 0,
            tone_mask: 0,
            noise_mask: 0,
            noise_rnd_rack: 1,
            current_noise_mask: 0,
            dc: DcFilter::new(),
            regs: [0; 14],
            inner_cycle: 0,
            noise_half: 0,
            inside_timer_irq: false,
            edge_need_reset: [false; 3],
            last_sample: 0,
            last_levels: [0; 3],
            user_mute: [false; 3],
        };
        proof {
            assert(chip@.regs =~= Seq::new(14, |i: int| 0u8));
            assert(chip@.tone_counter =~= seq![0u32, 0u32, 0u32]);
            assert(chip@.tone_period =~= seq![0u32, 0u32, 0u32]);
            assert(chip@.edge_reset =~= seq![false, false, false]);
            assert(chip@.last_levels =~= seq![0u32, 0u32, 0u32]);
            assert(chip@.mute =~= seq![false, false, false]);
            assert(forall|r: int| 0 <= r < 14 ==> #[trigger] chip@.regs[r] & reg_mask_spec(r) == chip@.regs[r]) by {
                assert(forall|mk: u8| 0u8 & mk == 0u8) by (bit_vector);
            }
            assert(chip@ == fresh_state(master_clock / 8, sample_rate));
        }
        chip.reset();
        chip
    }

    /// A chip with the Atari ST clocks (2 MHz master clock, 44.1 kHz host rate).
    pub fn new() -> (c: Self)
        ensures
            c.wf(),
            c@ == reset_model(fresh_state(DEFAULT_MASTER_CLOCK / 8, DEFAULT_SAMPLE_RATE)),
    {
        Self::with_clocks(DEFAULT_MASTER_CLOCK, DEFAULT_SAMPLE_RATE)
    }

    /// Resets the chip to its power-on state (clocks and mutes are kept).
    pub fn reset(&mut self)
        requires
            old(self).wf(),
        ensures
            final(self).wf(),
            final(self)@ == reset_model(old(self)@),
    {
        let ghost m = self@;
        let mut seed: u32 = 1;
        self.tone_counter = [0; 3];
        self.tone_period = [0; 3];
        let rv = std_lib_rand(&mut seed);
        let x = rv as u32;
        assert((x & 0x421u32) * 0x1fu32 < 0x8000) by (bit_vector);
        self.tone_edges = (x & 0x421) * 0x1f;
        self.inside_timer_irq = false;
        self.noise_rnd_rack = 1;
        self.noise_half = 0;
        let ghost m0 = self@;
        proof {
            assert(m0.tone_counter =~= seq![0u32, 0u32, 0u32]);
            assert(m0.tone_period =~= seq![0u32, 0u32, 0u32]);
            assert(m0 == PsgState {
                tone_counter: seq![0u32, 0u32, 0u32],
                tone_period: seq![0u32, 0u32, 0u32],
                tone_edges: power_on_edges(),
                in_irq: false,
                noise_rnd: 1,
                noise_half: 0,
                ..m
            });
        }
        let mut r: usize = 0;
        while r < 14
            invariant
                r <= 14,
                self.wf(),
                self@ == reset_writes(m0, r as int),
            decreases 14 - r,
        {
            let val: u8 = if r == 7 { 0x3f } else { 0 };
            self.write_reg(r, val);
            r = r + 1;
        }
        self.selected_reg = 0;
        self.inner_cycle = 0;
        self.env_pos = 0;
        self.dc.reset();
        self.last_sample = 0;
        self.last_levels = [0; 3];
        proof {
            assert(self@.last_levels =~= seq![0u32, 0u32, 0u32]);
        }
    }

    /// Records entry to or exit from a timer interrupt; on exit, pending
    /// edge resets of square-sync effects are applied.
    pub fn inside_timer_irq(&mut self, inside: bool)
        requires
            old(self).wf(),
        ensures
            final(self).wf(),
            final(self)@ == timer_irq_model(old(self)@, inside),
    {
        let ghost m = self@;
        if !inside {
            proof {
                lemma_toggle_bound(self.tone_edges);
            }
            if self.edge_need_reset[0] {
                self.tone_edges = self.tone_edges ^ (0x1f << 0u32);
                self.tone_counter[0] = 0;
                self.edge_need_reset[0] = false;
            }
            proof {
                lemma_toggle_bound(self.tone_edges);
            }
            if self.edge_need_reset[1] {
                self.tone_edges = self.tone_edges ^ (0x1f << 5u32);
                self.tone_counter[1] = 0;
                self.edge_need_reset[1] = false;
            }
            proof {
                lemma_toggle_bound(self.tone_edges);
            }
            if self.edge_need_reset[2] {
                self.tone_edges = self.tone_edges ^ (0x1f << 10u32);
                self.tone_counter[2] = 0;
                self.edge_need_reset[2] = false;
            }
            proof {
                assert(self@.tone_counter =~= timer_irq_model(m, inside).tone_counter);
                assert(self@.edge_reset =~= seq![false, false, false]);
            }
        }
        self.inside_timer_irq = inside;
    }

    /// Same as [`Ym2149::inside_timer_irq`].
    pub fn set_inside_timer_irq(&mut self, inside: bool)
        requires
            old(self).wf(),
        ensures
            final(self).wf(),
            final(self)@ == timer_irq_model(old(self)@, inside),
    {
        self.inside_timer_irq(inside);
    }

    /// Writes registers 0 to 13 from a 16-register frame, in order.
    pub fn load_registers(&mut self, regs: &[u8; 16])
        requires
            old(self).wf(),
        ensures
            final(self).wf(),
            final(self)@ == load_frame_model(old(self)@, regs@, 14),
    {
        let mut i: usize = 0;
        while i < 14
            invariant
                i <= 14,
                self.wf(),
                self@ == load_frame_model(old(self)@, regs@, i as int),
            decreases 14 - i,
        {
            self.write_reg(i, regs[i]);
            i = i + 1;
        }
    }

    /// Registers 0 to 13, with 14 and 15 zero.
    pub fn dump_registers(&self) -> (out: [u8; 16])
        requires
            self.wf(),
        ensures
            forall|i: int| 0 <= i < 16 ==> #[trigger] out@[i] == if i < 14 { self@.regs[i] } else { 0u8 },
    {
        let mut out = [0u8; 16];
        let mut i: usize = 0;
        while i < 14
            invariant
                i <= 14,
                self.wf(),
                forall|j: int| 0 <= j < 16 ==> #[trigger] out@[j] == if j < i { self@.regs[j] } else { 0u8 },
            decreases 14 - i,
        {
            out[i] = self.regs[i];
            i = i + 1;
        }
        out
    }

    /// Computes the next host sample and keeps it as the last sample.
    pub fn clock(&mut self)
        requires
            old(self).wf(),
        ensures
            final(self).wf(),
            final(self)@ == (PsgState { last_sample: next_sample_model(old(self)@).1, ..next_sample_model(old(self)@).0 }),
    {
        let s = self.compute_next_sample();
        self.last_sample = s;
    }

    /// The last sample computed by [`Ym2149::clock`].
    pub fn get_sample(&self) -> (r: i16)
        ensures
            r == self@.last_sample,
    {
        self.last_sample
    }

    /// The last output levels of the three voices.
    pub fn get_channel_outputs(&self) -> (r: (u32, u32, u32))
        requires
            self.wf(),
        ensures
            r == (self@.last_levels[0], self@.last_levels[1], self@.last_levels[2]),
    {
        (self.last_levels[0], self.last_levels[1], self.last_levels[2])
    }

    /// Mutes or unmutes voice `channel` (0..2; others are ignored).
    pub fn set_channel_mute(&mut self, channel: usize, mute: bool)
        requires
            old(self).wf(),
        ensures
            final(self).wf(),
            channel < 3 ==> final(self)@ == (PsgState { mute: old(self)@.mute.update(channel as int, mute), ..old(self)@ }),
            channel >= 3 ==> final(self)@ == old(self)@,
    {
        if channel < 3 {
            self.user_mute[channel] = mute;
        }
    }

    /// Whether voice `channel` is muted (false for channels past 2).
    pub fn is_channel_muted(&self, channel: usize) -> (r: bool)
        requires
            self.wf(),
        ensures
            r == (channel < 3 && self@.mute[channel as int]),
    {
        if channel < 3 {
            self.user_mute[channel]
        } else {
            false
        }
    }

    /// Restarts the envelope from the start of its pattern.
    pub fn trigger_envelope(&mut self)
        requires
            old(self).wf(),
        ensures
            final(self).wf(),
            final(self)@ == (PsgState { env_pos: -64, env_counter: 0, ..old(self)@ }),
    {
        self.env_pos = -64;
        self.env_counter = 0;
    }
}

impl Default for Ym2149 {
    fn default() -> (c: Self)
        ensures
            c.wf(),
            c@ == reset_model(fresh_state(DEFAULT_MASTER_CLOCK / 8, DEFAULT_SAMPLE_RATE)),
    {
        Self::new()
    }
}


/// Writing a register and reading it back gives the value within the
/// register's width; no other register changes. Registers from 14 on are
/// not there: a write to one changes nothing.
pub proof fn lemma_write_then_read(m: PsgState, reg: int, value: u8)
    requires
        m.regs.len() == 14,
    ensures
        0 <= reg < 14 ==> write_reg_model(m, reg, value).regs[reg] == value & reg_mask_spec(reg),
        forall|r: int| 0 <= r < 14 && r != reg ==> #[trigger] write_reg_model(m, reg, value).regs[r] == m.regs[r],
        !(0 <= reg < 14) ==> write_reg_model(m, reg, value) == m,
{
}

/// Loading a frame and dumping the registers gives back the frame's first
/// 14 values within their registers' widths, and zero for the last two.
pub proof fn lemma_load_then_dump(m: PsgState, frame: Seq<u8>, n: int)
    requires
        m.regs.len() == 14,
        0 <= n <= 14,
        frame.len() == 16,
    ensures
        load_frame_model(m, frame, n).regs.len() == 14,
        forall|i: int| 0 <= i < n ==> #[trigger] load_frame_model(m, frame, n).regs[i] == frame[i] & reg_mask_spec(i),
        forall|i: int| n <= i < 14 ==> #[trigger] load_frame_model(m, frame, n).regs[i] == m.regs[i],
    decreases n,
{
    if n > 0 {
        lemma_load_then_dump(m, frame, n - 1);
    }
}

/// The register writes of a reset, in closed form: registers at their
/// power-on values (R7 = 0x3F, the rest zero), tone, noise and envelope
/// periods zero, all tones and noise gated off, envelope pattern 0
/// restarted.
proof fn lemma_reset_writes(m: PsgState)
    requires
        m.regs.len() == 14,
        m.tone_period.len() == 3,
        m.edge_reset.len() == 3,
        !m.in_irq,
    ensures
        reset_writes(m, 14) == (PsgState {
            regs: Seq::new(14, |i: int| 0u8).update(7, 0x3fu8),
            tone_period: seq![0u32, 0u32, 0u32],
            noise_period: 0,
            tone_mask: 0x7fff,
            noise_mask: 0x7fff,
            env_period: 0,
            env_offset: 0,
            env_pos: -64,
            env_counter: 0,
            ..m
        }),
{
    assert(0u8 & 0x0fu8 == 0 && 0u8 & 0x1fu8 == 0 && 0u8 & 0xffu8 == 0 && 0x3fu8 & 0xffu8 == 0x3f
        && (0x3fu8 & 7u8) == 7 && ((0x3fu8 >> 3u8) & 7u8) == 7 && 0u8 & 15u8 == 0) by (bit_vector);
    let s1 = write_reg_model(m, 0, 0);
    let s2 = write_reg_model(s1, 1, 0);
    let s3 = write_reg_model(s2, 2, 0);
    let s4 = write_reg_model(s3, 3, 0);
    let s5 = write_reg_model(s4, 4, 0);
    let s6 = write_reg_model(s5, 5, 0);
    let s7 = write_reg_model(s6, 6, 0);
    let s8 = write_reg_model(s7, 7, 0x3f);
    let s9 = write_reg_model(s8, 8, 0);
    let s10 = write_reg_model(s9, 9, 0);
    let s11 = write_reg_model(s10, 10, 0);
    let s12 = write_reg_model(s11, 11, 0);
    let s13 = write_reg_model(s12, 12, 0);
    let s14 = write_reg_model(s13, 13, 0);
    assert(reset_writes(m, 14) == s14) by {
        reveal_with_fuel(reset_writes, 15);
    }
    assert(s6.tone_period =~= seq![0u32, 0u32, 0u32]);
    assert(s6.edge_reset =~= m.edge_reset);
    assert(gate_mask_spec(7) == 0x7fff) by {
        assert(0x1fu32 | 0x3e0u32 | 0x7c00u32 == 0x7fffu32) by (bit_vector);
    }
    assert(s14.regs =~= Seq::new(14, |i: int| 0u8).update(7, 0x3fu8));
    assert(s14.tone_period =~= seq![0u32, 0u32, 0u32]);
}

/// A reset of a chip that was just reset changes nothing.
pub proof fn lemma_reset_idempotent(m: PsgState)
    requires
        m.regs.len() == 14,
        m.tone_period.len() == 3,
        m.edge_reset.len() == 3,
    ensures
        reset_model(reset_model(m)) == reset_model(m),
{
    let m0 = PsgState {
        tone_counter: seq![0u32, 0u32, 0u32],
        tone_period: seq![0u32, 0u32, 0u32],
        tone_edges: power_on_edges(),
        in_irq: false,
        noise_rnd: 1,
        noise_half: 0,
        ..m
    };
    lemma_reset_writes(m0);
    let r = reset_model(m);
    let r0 = PsgState {
        tone_counter: seq![0u32, 0u32, 0u32],
        tone_period: seq![0u32, 0u32, 0u32],
        tone_edges: power_on_edges(),
        in_irq: false,
        noise_rnd: 1,
        noise_half: 0,
        ..r
    };
    lemma_reset_writes(r0);
    let rr = reset_model(r);
    assert(rr.regs =~= r.regs);
    assert(rr.tone_period =~= r.tone_period);
    assert(rr.tone_counter =~= r.tone_counter);
    assert(rr.dc_history =~= r.dc_history);
    assert(rr.last_levels =~= r.last_levels);
}

} // verus!
