//! The YM2149 chip: registers, generators, mixer and DC filter, clocked at
//! the internal rate (master clock / 8) and averaged down to the host rate.

use vstd::prelude::*;
use crate::dc_filter::{dc_output, seq_sum, DcFilter, HISTORY_SIZE};
use crate::generators::{
    env_tick, noise_tick, tone_tick, toggle_field, EnvelopeGenerator, EnvelopeView, NoiseGenerator,
    NoiseView, ToneGenerator, ToneView,
};
use crate::mixer::{channel_output, packed_levels, ChannelState, Mixer, MixerConfig};
use crate::tables::{env_data_spec, reg_mask, reg_mask_spec, shape_to_env_spec, MAX_LEVEL, NUM_REGISTERS};

verus! {

broadcast use vstd::array::group_array_axioms;

/// Default Atari ST master clock (2 MHz).
pub const DEFAULT_MASTER_CLOCK: u32 = 2_000_000;

/// Default audio sample rate (44.1 kHz).
pub const DEFAULT_SAMPLE_RATE: u32 = 44_100;

/// The seed after one step of the power-on pseudo-random generator.
pub open spec fn random_step(seed: u32) -> u32 {
    vstd::wrapping::u32_specs::wrapping_add(vstd::wrapping::u32_specs::wrapping_mul(seed, 214013), 2531011)
}

/// The 15-bit value drawn from a seed.
pub open spec fn random_value(seed: u32) -> u16 {
    ((seed >> 16u32) & 0x7fffu32) as u16
}

/// Steps the power-on pseudo-random generator and returns its next 15-bit value.
pub fn random_seed(seed: &mut u32) -> (r: u16)
    ensures
        *final(seed) == random_step(*old(seed)),
        r == random_value(*final(seed)),
{
    *seed = seed.wrapping_mul(214013).wrapping_add(2531011);
    ((*seed >> 16) & 0x7fff) as u16
}

/// The chip state, as the contracts see it.
pub struct ChipModel {
    pub internal_clock: u32,
    pub sample_rate: u32,
    pub cycle_accumulator: u32,
    pub registers: Seq<u8>,
    pub selected_register: usize,
    pub tones: Seq<ToneView>,
    pub noise: NoiseView,
    pub envelope: EnvelopeView,
    pub mixer: Mixer,
    pub dc_history: Seq<u16>,
    pub dc_position: int,
    pub last_sample: i16,
    pub in_timer_irq: bool,
}

/// YM2149 programmable sound generator.
pub struct Ym2149 {
    internal_clock: u32,
    sample_rate: u32,
    cycle_accumulator: u32,
    registers: [u8; 14],
    selected_register: usize,
    tones: [ToneGenerator; 3],
    noise: NoiseGenerator,
    envelope: EnvelopeGenerator,
    mixer: Mixer,
    dc_filter: DcFilter,
    last_sample: i16,
    in_timer_irq: bool,
}

impl View for Ym2149 {
    type V = ChipModel;

    closed spec fn view(&self) -> ChipModel {
        ChipModel {
            internal_clock: self.internal_clock,
            sample_rate: self.sample_rate,
            cycle_accumulator: self.cycle_accumulator,
            registers: self.registers@,
            selected_register: self.selected_register,
            tones: self.tones@.map_values(|t: ToneGenerator| t@),
            noise: self.noise@,
            envelope: self.envelope@,
            mixer: self.mixer,
            dc_history: self.dc_filter.history(),
            dc_position: self.dc_filter.slot(),
            last_sample: self.last_sample,
            in_timer_irq: self.in_timer_irq,
        }
    }
}

/// Tone period of channel `ch` from its low and high period registers.
pub open spec fn tone_period_of(regs: Seq<u8>, ch: int) -> u32 {
    (regs[2 * ch + 1] * 256 + regs[2 * ch]) as u32
}

/// Envelope period from registers R11 (low) and R12 (high).
pub open spec fn envelope_period_of(regs: Seq<u8>) -> u32 {
    (regs[12] * 256 + regs[11]) as u32
}

/// The chip state after writing `value` to register `reg`: the register keeps
/// the bits of its width, and the generator it drives takes the new setting.
/// A tone period of 0 or 1 written inside the timer interrupt marks the
/// channel's edge for a reset. Registers from 14 on are ignored.
pub open spec fn apply_register_model(m: ChipModel, reg: int, value: u8) -> ChipModel {
    if reg < 0 || reg >= 14 {
        m
    } else {
        let v = value & reg_mask_spec(reg);
        let regs = m.registers.update(reg, v);
        if reg < 6 {
            let ch = reg / 2;
            let p = tone_period_of(regs, ch);
            let t = m.tones[ch];
            let t2 = ToneView {
                period: p,
                pending_reset: if p <= 1 && m.in_timer_irq { true } else { t.pending_reset },
                ..t
            };
            ChipModel { registers: regs, tones: m.tones.update(ch, t2), ..m }
        } else if reg == 6 {
            ChipModel { registers: regs, noise: NoiseView { period: v as u32, ..m.noise }, ..m }
        } else if reg == 7 {
            ChipModel {
                registers: regs,
                mixer: Mixer { config: MixerConfig::from_register_spec(v), ..m.mixer },
                ..m
            }
        } else if reg == 11 || reg == 12 {
            ChipModel {
                registers: regs,
                envelope: EnvelopeView { period: envelope_period_of(regs), ..m.envelope },
                ..m
            }
        } else if reg == 13 {
            ChipModel {
                registers: regs,
                envelope: EnvelopeView {
                    counter: 0,
                    period: m.envelope.period,
                    position: -64i32,
                    data_offset: (shape_to_env_spec((v & 0x0f) as int) * 128) as usize,
                },
                ..m
            }
        } else {
            ChipModel { registers: regs, ..m }
        }
    }
}

/// The chip state after writing `regs[0..n]` to registers R0..R(n-1), in order.
pub open spec fn load_registers_model(m: ChipModel, regs: Seq<u8>, n: int) -> ChipModel
    decreases n,
{
    if n <= 0 {
        m
    } else {
        apply_register_model(load_registers_model(m, regs, n - 1), n - 1, regs[n - 1])
    }
}

/// One internal clock: every generator ticks, and the channel gate of the three
/// channels is computed from the new tone edges and noise output.
pub open spec fn tick_model(m: ChipModel) -> (ChipModel, u32) {
    let t0 = tone_tick(m.tones[0], 0);
    let t1 = tone_tick(m.tones[1], 5);
    let t2 = tone_tick(m.tones[2], 10);
    let n = noise_tick(m.noise);
    let e = env_tick(m.envelope);
    let edges = t0.edge_bits | t1.edge_bits | t2.edge_bits;
    let gate = (edges | m.mixer.config.tone_mask_spec()) & (n.output_mask
        | m.mixer.config.noise_mask_spec());
    (ChipModel { tones: seq![t0, t1, t2], noise: n, envelope: e, ..m }, gate)
}

/// Internal clocks until the accumulator, advanced by the sample rate each
/// clock, reaches the internal clock rate; the gates are ORed together.
/// Returns the state, the accumulator and the ORed gate.
pub open spec fn run_ticks(m: ChipModel, acc: int, mask: u16) -> (ChipModel, int, u16)
    decreases m.internal_clock - acc,
{
    let (m2, gate) = tick_model(m);
    let mask2 = mask | (gate as u16);
    let acc2 = acc + m.sample_rate;
    if acc2 >= m.internal_clock || m.sample_rate == 0 {
        (m2, acc2, mask2)
    } else {
        run_ticks(m2, acc2, mask2)
    }
}

/// Output level of channel `ch` for a host sample: its packed level after
/// the ORed gate, through the mixer, halved for a tone period of 0 or 1.
pub open spec fn sample_channel_output(m: ChipModel, g: ChipModel, mask: u16, ch: int) -> u32 {
    let env = env_data_spec(g.envelope.data_offset + g.envelope.position + 64) as u32;
    let lv = packed_levels(m.registers[8], m.registers[9], m.registers[10], env, mask as u32);
    let idx = if ch == 0 { lv & 31 } else if ch == 1 { (lv >> 5u32) & 31 } else { (lv >> 10u32) & 31 };
    channel_output(m.mixer.channels[ch], idx, g.tones[ch].period <= 1)
}

/// Sum of the three channel outputs of a host sample.
pub open spec fn sample_total(m: ChipModel, g: ChipModel, mask: u16) -> int {
    sample_channel_output(m, g, mask, 0) + sample_channel_output(m, g, mask, 1)
        + sample_channel_output(m, g, mask, 2)
}

/// One host sample, from state `m0` to state `m2` (its last sample aside)
/// with sample `r`: the internal clocks run until the accumulator reaches
/// the internal rate, the channels' outputs are recorded, and their sum
/// goes through the DC filter.
pub open spec fn sample_step(m0: ChipModel, m2: ChipModel, r: i16) -> bool {
    let m = m0;
    let (g, acc, mask) = run_ticks(m, m.cycle_accumulator as int, 0u16);
    let total = sample_total(m, g, mask);
    let hist = m.dc_history.update(m.dc_position, total as u16);
    &&& m2.tones == g.tones
    &&& m2.noise == g.noise
    &&& m2.envelope == g.envelope
    &&& m2.cycle_accumulator == acc - m.internal_clock
    &&& m2.internal_clock == m.internal_clock
    &&& m2.sample_rate == m.sample_rate
    &&& m2.registers == m.registers
    &&& m2.selected_register == m.selected_register
    &&& m2.in_timer_irq == m.in_timer_irq
    &&& m2.last_sample == m.last_sample
    &&& m2.mixer.config == m.mixer.config
    &&& forall|ch: int| 0 <= ch < 3 ==> m2.mixer.channels[ch] == (ChannelState {
        last_output: sample_channel_output(m, g, mask, ch),
        ..m.mixer.channels[ch]
    })
    &&& total <= 3 * MAX_LEVEL
    &&& m2.dc_history == hist
    &&& m2.dc_position == (m.dc_position + 1) % (HISTORY_SIZE as int)
    &&& r == dc_output(total as u16, seq_sum(hist))
}

/// One host sample as a function: the state after it (its last sample
/// aside) and the sample; see [`sample_step`].
pub open spec fn next_sample(m: ChipModel) -> (ChipModel, i16) {
    let (g, acc, mask) = run_ticks(m, m.cycle_accumulator as int, 0u16);
    let total = sample_total(m, g, mask);
    let hist = m.dc_history.update(m.dc_position, total as u16);
    (
        ChipModel {
            tones: g.tones,
            noise: g.noise,
            envelope: g.envelope,
            cycle_accumulator: (acc - m.internal_clock) as u32,
            mixer: Mixer {
                config: m.mixer.config,
                channels: [
                    ChannelState { last_output: sample_channel_output(m, g, mask, 0), ..m.mixer.channels[0] },
                    ChannelState { last_output: sample_channel_output(m, g, mask, 1), ..m.mixer.channels[1] },
                    ChannelState { last_output: sample_channel_output(m, g, mask, 2), ..m.mixer.channels[2] },
                ],
            },
            dc_history: hist,
            dc_position: (m.dc_position + 1) % (HISTORY_SIZE as int),
            ..m
        },
        dc_output(total as u16, seq_sum(hist)),
    )
}

/// The state after one clock: the next sample computed and kept as the
/// last sample.
pub open spec fn clock_model(m: ChipModel) -> ChipModel {
    ChipModel { last_sample: next_sample(m).1, ..next_sample(m).0 }
}

/// `n` clocks: the state after them and the samples, in order.
pub open spec fn clock_run(m: ChipModel, n: nat) -> (ChipModel, Seq<i16>)
    decreases n,
{
    if n == 0 {
        (m, Seq::empty())
    } else {
        let (m1, s) = clock_run(m, (n - 1) as nat);
        (clock_model(m1), s.push(clock_model(m1).last_sample))
    }
}

/// A sample step is the sample function.
pub proof fn lemma_sample_step_is_next_sample(m: ChipModel, m2: ChipModel, r: i16)
    requires
        sample_step(m, m2, r),
        m2.mixer.channels@.len() == 3,
    ensures
        m2 == next_sample(m).0,
        r == next_sample(m).1,
{
    let n = next_sample(m).0;
    assert(m2.mixer.channels[0] == n.mixer.channels[0]);
    assert(m2.mixer.channels[1] == n.mixer.channels[1]);
    assert(m2.mixer.channels[2] == n.mixer.channels[2]);
    assert(m2.mixer.channels@ =~= n.mixer.channels@);
    assert(m2.mixer.channels == n.mixer.channels);
    assert(m2.mixer == n.mixer);
}

/// The edge bits each tone generator starts with after a reset: channels A and B set, C clear.
pub open spec fn reset_edges(ch: int) -> u32 {
    if ch == 0 { 0x1f } else if ch == 1 { 0x3e0 } else { 0 }
}

/// A chip state with the given clocks and everything else zero, LFSR 1.
pub open spec fn fresh_model(internal_clock: u32, sample_rate: u32) -> ChipModel {
    ChipModel {
        internal_clock,
        sample_rate,
        cycle_accumulator: 0,
        registers: Seq::new(14, |i: int| 0u8),
        selected_register: 0,
        tones: Seq::new(3, |i: int| ToneView { counter: 0, period: 0, edge_bits: 0, pending_reset: false }),
        noise: NoiseView { counter: 0, period: 0, lfsr: 1, output_mask: 0, half_tick: false },
        envelope: EnvelopeView { counter: 0, period: 0, position: 0, data_offset: 0 },
        mixer: Mixer {
            config: MixerConfig::zero_spec(),
            channels: [
                ChannelState { muted: false, drum_override: None, last_output: 0 },
                ChannelState { muted: false, drum_override: None, last_output: 0 },
                ChannelState { muted: false, drum_override: None, last_output: 0 },
            ],
        },
        dc_history: Seq::new(HISTORY_SIZE as nat, |i: int| 0u16),
        dc_position: 0,
        last_sample: 0,
        in_timer_irq: false,
    }
}

/// A tone state after its pending edge reset (if any) is applied, for channel `ch`.
pub open spec fn applied_reset(t: ToneView, ch: int) -> ToneView {
    if t.pending_reset {
        ToneView { counter: 0, period: t.period, edge_bits: toggle_field(t.edge_bits, (ch * 5) as u32), pending_reset: false }
    } else {
        t
    }
}

/// The chip state after a reset, for a chip that was in state `m`: clocks
/// and mutes are kept; everything else is back to power-on, with register
/// R7 = 0x3F (all outputs disabled).
pub open spec fn reset_model(m: ChipModel) -> ChipModel {
    ChipModel {
        internal_clock: m.internal_clock,
        sample_rate: m.sample_rate,
        cycle_accumulator: 0,
        registers: Seq::new(14, |i: int| 0u8).update(7, 0x3fu8),
        selected_register: 0,
        tones: Seq::new(3, |i: int| ToneView { counter: 0, period: 0, edge_bits: reset_edges(i), pending_reset: false }),
        noise: NoiseView { counter: 0, period: 0, lfsr: 1, output_mask: 0, half_tick: false },
        envelope: EnvelopeView { counter: 0, period: 0, position: 0, data_offset: 0 },
        mixer: Mixer {
            config: MixerConfig::from_register_spec(0x3f),
            channels: [
                ChannelState { muted: m.mixer.channels[0].muted, drum_override: None, last_output: 0 },
                ChannelState { muted: m.mixer.channels[1].muted, drum_override: None, last_output: 0 },
                ChannelState { muted: m.mixer.channels[2].muted, drum_override: None, last_output: 0 },
            ],
        },
        dc_history: Seq::new(HISTORY_SIZE as nat, |i: int| 0u16),
        dc_position: 0,
        last_sample: 0,
        in_timer_irq: false,
    }
}


impl Ym2149 {
    /// The chip's parts agree: the DC filter is well formed, the selected
    /// register is a 4-bit number, and the clocks let every host sample
    /// finish without the accumulator overflowing (a non-zero sample rate no
    /// higher than the internal clock, and the accumulator below the internal clock).
    pub closed spec fn wf(&self) -> bool {
        &&& self.dc_filter.wf()
        &&& self.selected_register < 16
        &&& self.sample_rate > 0
        &&& self.internal_clock > 0
        &&& self.cycle_accumulator < self.internal_clock
        &&& self.sample_rate <= self.internal_clock
        &&& self.internal_clock <= u32::MAX / 2
    }

    /// Writes `value` to register `reg` (0..13; others are ignored).
    pub fn write_register(&mut self, reg: u8, value: u8)
        requires
            old(self).wf(),
        ensures
            final(self).wf(),
            final(self)@ == apply_register_model(old(self)@, reg as int, value),
    {
        self.apply_register(reg as usize, value);
    }

    /// The value of register `reg` (0..13), or 0 for other registers.
    pub fn read_register(&self, reg: u8) -> (r: u8)
        ensures
            (reg as int) < 14 ==> r == self@.registers[reg as int],
            (reg as int) >= 14 ==> r == 0,
    {
        let i = reg as usize;
        if i < NUM_REGISTERS {
            self.registers[i]
        } else {
            0
        }
    }

    /// Bus write: with bit 1 of `port` set the value goes to the selected
    /// register, else it selects register `value & 0x0F`.
    pub fn write_port(&mut self, port: u8, value: u8)
        requires
            old(self).wf(),
        ensures
            final(self).wf(),
            port & 2 != 0 ==> final(self)@ == apply_register_model(
                old(self)@,
                old(self)@.selected_register as int,
                value,
            ),
            port & 2 == 0 ==> final(self)@ == (ChipModel {
                selected_register: (value & 0x0f) as usize,
                ..old(self)@
            }),
    {
        if (port & 2) != 0 {
            let reg = self.selected_register;
            self.apply_register(reg, value);
        } else {
            proof { crate::bits::lemma_low_nibble(value); }
            self.selected_register = (value & 0x0f) as usize;
        }
    }

    /// Bus read: with bit 1 of `port` clear, the selected register (0xFF
    /// when it is 14 or 15); with it set, 0xFF.
    pub fn read_port(&self, port: u8) -> (r: u8)
        ensures
            port & 2 == 0 && self@.selected_register < 14 ==> r == self@.registers[self@.selected_register as int],
            !(port & 2 == 0 && self@.selected_register < 14) ==> r == 0xff,
    {
        if (port & 2) == 0 && self.selected_register < NUM_REGISTERS {
            self.registers[self.selected_register]
        } else {
            0xff
        }
    }

    /// Loads registers R0..R13 from `regs`, in order; R14 and R15 are ignored.
    pub fn load_registers(&mut self, regs: &[u8; 16])
        requires
            old(self).wf(),
        ensures
            final(self).wf(),
            final(self)@ == load_registers_model(old(self)@, regs@, 14),
    {
        let mut i: usize = 0;
        while i < NUM_REGISTERS
            invariant
                i <= NUM_REGISTERS,
                self.wf(),
                self@ == load_registers_model(old(self)@, regs@, i as int),
            decreases NUM_REGISTERS - i,
        {
            self.apply_register(i, regs[i]);
            i = i + 1;
        }
    }

    /// Registers R0..R13, with R14 and R15 reading 0.
    pub fn dump_registers(&self) -> (r: [u8; 16])
        ensures
            forall|i: int| 0 <= i < 14 ==> r@[i] == self@.registers[i],
            r@[14] == 0 && r@[15] == 0,
    {
        let mut out = [0u8; 16];
        let mut i: usize = 0;
        while i < NUM_REGISTERS
            invariant
                i <= NUM_REGISTERS,
                forall|j: int| 0 <= j < i ==> out@[j] == self@.registers[j],
                out@[14] == 0 && out@[15] == 0,
            decreases NUM_REGISTERS - i,
        {
            out[i] = self.registers[i];
            i = i + 1;
        }
        out
    }

    /// The host sample rate.
    pub fn sample_rate(&self) -> (r: u32)
        ensures
            r == self@.sample_rate,
    {
        self.sample_rate
    }

    /// The internal clock rate (master clock / 8).
    pub fn internal_clock(&self) -> (r: u32)
        ensures
            r == self@.internal_clock,
    {
        self.internal_clock
    }

    /// A chip with the default Atari ST clocks (2 MHz master, 44.1 kHz output), after a reset.
    pub fn new() -> (c: Self)
        ensures
            c.wf(),
            c@ == reset_model(fresh_model(DEFAULT_MASTER_CLOCK / 8, DEFAULT_SAMPLE_RATE)),
    {
        Self::with_clocks(DEFAULT_MASTER_CLOCK, DEFAULT_SAMPLE_RATE)
    }

    /// A chip clocked internally at `master_clock / 8` that outputs
    /// `sample_rate` samples per second, after a reset. The rates must let
    /// every host sample finish: a non-zero sample rate no higher than the
    /// internal clock.
    pub fn with_clocks(master_clock: u32, sample_rate: u32) -> (c: Self)
        requires
            0 < sample_rate <= master_clock / 8,
        ensures
            c.wf(),
            c@ == reset_model(fresh_model(master_clock / 8, sample_rate)),
    {
        let unmuted = ChannelState { muted: false, drum_override: None, last_output: 0 };
        let mut chip = Ym2149 {
            internal_clock: master_clock / 8,
            sample_rate,
            cycle_accumulator: 0,
            registers: [0u8; 14],
            selected_register: 0,
            tones: [ToneGenerator::new(), ToneGenerator::new(), ToneGenerator::new()],
            noise: NoiseGenerator::new(),
            envelope: EnvelopeGenerator::new(),
            mixer: Mixer::new(),
            dc_filter: DcFilter::new(),
            last_sample: 0,
            in_timer_irq: false,
        };
        chip.reset();
        proof {
            let r = reset_model(fresh_model(master_clock / 8, sample_rate));
            assert(chip@.mixer.channels[0] == r.mixer.channels[0]);
            assert(chip@.mixer.channels[1] == r.mixer.channels[1]);
            assert(chip@.mixer.channels[2] == r.mixer.channels[2]);
            assert(chip@.mixer.channels =~= r.mixer.channels);
        }
        chip
    }

    /// Back to the power-on state (see [`reset_model`]).
    pub fn reset(&mut self)
        requires
            old(self).wf(),
        ensures
            final(self).wf(),
            final(self)@ == reset_model(old(self)@),
    {
        let ghost m = self@;
        let mut seed: u32 = 1;
        let rnd = random_seed(&mut seed);
        assert(seed == 2745024u32);
        assert(((2745024u32 >> 16u32) & 0x7fffu32) == 41u32) by (bit_vector);
        assert(rnd == 41u16);
        let r32 = rnd as u32;
        let bits = r32 & ((1u32 << 10) | (1u32 << 5) | 1);
        assert(bits == 33u32) by (bit_vector)
            requires
                r32 == 41u32,
                bits == r32 & ((1u32 << 10u32) | (1u32 << 5u32) | 1u32),
        ;
        let random_edges = bits * 0x1f;
        let mut i: usize = 0;
        while i < 3
            invariant
                i <= 3,
                random_edges == 0x3ffu32,
                self.wf(),
                self@ == (ChipModel { tones: self@.tones, ..m }),
                self@.tones.len() == 3,
                forall|j: int| 0 <= j < i ==> self.tones[j]@ == (ToneView {
                    counter: 0,
                    period: 0,
                    edge_bits: reset_edges(j),
                    pending_reset: false,
                }),
            decreases 3 - i,
        {
            let mut t = self.tones[i];
            t.reset();
            assert(i < 3 ==> (0x3ffu32 & (0x1fu32 << ((i as u32) * 5))) == (if i == 0 { 0x1fu32 } else if i == 1 { 0x3e0u32 } else { 0u32 })) by (bit_vector);
            t.set_edge_bits(random_edges & (0x1f << (i as u32 * 5)));
            self.tones[i] = t;
            i = i + 1;
        }
        self.noise.reset();
        self.envelope.reset();
        self.mixer.reset();
        assert(self.mixer.channels[0] == (ChannelState { muted: m.mixer.channels[0].muted, drum_override: None, last_output: 0 }));
        assert(self.mixer.channels[1] == (ChannelState { muted: m.mixer.channels[1].muted, drum_override: None, last_output: 0 }));
        assert(self.mixer.channels[2] == (ChannelState { muted: m.mixer.channels[2].muted, drum_override: None, last_output: 0 }));
        self.dc_filter.reset();
        self.registers = [0u8; 14];
        self.selected_register = 0;
        self.cycle_accumulator = 0;
        self.in_timer_irq = false;
        self.last_sample = 0;
        self.apply_register(7, 0x3f);
        assert(0x3fu8 & 0xffu8 == 0x3fu8) by (bit_vector);
        proof {
            let r = reset_model(m);
            assert(self@.registers =~= r.registers);
            assert(self@.tones =~= r.tones);
            assert(self@.mixer.channels[0] == r.mixer.channels[0]);
            assert(self@.mixer.channels[1] == r.mixer.channels[1]);
            assert(self@.mixer.channels[2] == r.mixer.channels[2]);
            assert(self@.mixer.channels =~= r.mixer.channels);
            assert(self@.dc_history =~= r.dc_history);
        }
    }

    /// Marks entry to or exit from the timer interrupt (sync-buzzer effects):
    /// on exit every pending edge reset is applied.
    pub fn set_timer_irq_state(&mut self, in_irq: bool)
        requires
            old(self).wf(),
        ensures
            final(self).wf(),
            final(self)@ == (ChipModel {
                in_timer_irq: in_irq,
                tones: if in_irq { old(self)@.tones } else { Seq::new(3, |i: int| applied_reset(old(self)@.tones[i], i)) },
                ..old(self)@
            }),
    {
        let ghost m = self@;
        if !in_irq {
            let mut i: usize = 0;
            while i < 3
                invariant
                    i <= 3,
                    self.wf(),
                    self@ == (ChipModel { tones: self@.tones, ..m }),
                    self@.tones.len() == 3,
                    forall|j: int| 0 <= j < i ==> self@.tones[j] == applied_reset(m.tones[j], j),
                    forall|j: int| i <= j < 3 ==> self@.tones[j] == m.tones[j],
                decreases 3 - i,
            {
                let ghost before = self@.tones;
                let mut t = self.tones[i];
                t.apply_pending_reset(i as u32 * 5);
                self.tones[i] = t;
                assert(self@.tones =~= before.update(i as int, t@));
                i = i + 1;
            }
        }
        self.in_timer_irq = in_irq;
        proof {
            if !in_irq {
                assert(self@.tones =~= Seq::new(3, |i: int| applied_reset(m.tones[i], i)));
            }
        }
    }

    /// Same as [`Ym2149::set_timer_irq_state`].
    pub fn inside_timer_irq(&mut self, inside: bool)
        requires
            old(self).wf(),
        ensures
            final(self).wf(),
            final(self)@ == (ChipModel {
                in_timer_irq: inside,
                tones: if inside { old(self)@.tones } else { Seq::new(3, |i: int| applied_reset(old(self)@.tones[i], i)) },
                ..old(self)@
            }),
    {
        self.set_timer_irq_state(inside);
    }

    /// Same as [`Ym2149::set_timer_irq_state`].
    pub fn set_inside_timer_irq(&mut self, inside: bool)
        requires
            old(self).wf(),
        ensures
            final(self).wf(),
            final(self)@ == (ChipModel {
                in_timer_irq: inside,
                tones: if inside { old(self)@.tones } else { Seq::new(3, |i: int| applied_reset(old(self)@.tones[i], i)) },
                ..old(self)@
            }),
    {
        self.set_timer_irq_state(inside);
    }

    /// Mutes or unmutes channel `channel` (0..2; others are ignored).
    pub fn set_channel_mute(&mut self, channel: usize, mute: bool)
        requires
            old(self).wf(),
        ensures
            final(self).wf(),
            final(self)@ == (ChipModel { mixer: final(self)@.mixer, ..old(self)@ }),
            final(self)@.mixer.config == old(self)@.mixer.config,
            channel < 3 ==> final(self)@.mixer.channels@ == old(self)@.mixer.channels@.update(
                channel as int,
                ChannelState { muted: mute, ..old(self)@.mixer.channels[channel as int] },
            ),
            channel >= 3 ==> final(self)@ == old(self)@,
    {
        self.mixer.set_mute(channel, mute);
    }

    /// Whether channel `channel` is muted (false for other channel numbers).
    pub fn is_channel_muted(&self, channel: usize) -> (r: bool)
        ensures
            r == (channel < 3 && self@.mixer.channels[channel as int].muted),
    {
        self.mixer.is_muted(channel)
    }

    /// Sets or clears the DigiDrum output level that replaces channel
    /// `channel`'s own (0..2; others are ignored).
    pub fn set_drum_sample_override(&mut self, channel: usize, level: Option<u32>)
        requires
            old(self).wf(),
        ensures
            final(self).wf(),
            final(self)@ == (ChipModel { mixer: final(self)@.mixer, ..old(self)@ }),
            final(self)@.mixer.config == old(self)@.mixer.config,
            channel < 3 ==> final(self)@.mixer.channels@ == old(self)@.mixer.channels@.update(
                channel as int,
                ChannelState { drum_override: level, ..old(self)@.mixer.channels[channel as int] },
            ),
            channel >= 3 ==> final(self)@ == old(self)@,
    {
        self.mixer.set_drum_override(channel, level);
    }

    /// Restarts the envelope pattern from its first step.
    pub fn trigger_envelope(&mut self)
        requires
            old(self).wf(),
        ensures
            final(self).wf(),
            final(self)@ == (ChipModel {
                envelope: EnvelopeView { counter: 0, position: -64i32, ..old(self)@.envelope },
                ..old(self)@
            }),
    {
        self.envelope.trigger();
    }

    /// The last output levels of the three channels (0..MAX_LEVEL each).
    pub fn get_channel_outputs(&self) -> (r: (u32, u32, u32))
        ensures
            r == (self@.mixer.channels[0].last_output, self@.mixer.channels[1].last_output, self@.mixer.channels[2].last_output),
    {
        self.mixer.channel_outputs()
    }

    /// One internal clock of all generators; returns the channel gate of the three channels.
    fn tick_generators(&mut self) -> (r: u32)
        requires
            old(self).wf(),
        ensures
            final(self).wf(),
            (final(self)@, r) == tick_model(old(self)@),
    {
        let ghost m = self@;
        let mut t0 = self.tones[0];
        let e0 = t0.tick(0);
        self.tones[0] = t0;
        let mut t1 = self.tones[1];
        let e1 = t1.tick(5);
        self.tones[1] = t1;
        let mut t2 = self.tones[2];
        let e2 = t2.tick(10);
        self.tones[2] = t2;
        let tone_edges = e0 | e1 | e2;
        let noise_mask = self.noise.tick();
        self.envelope.tick();
        let gate = self.mixer.config.compute_gate_mask(tone_edges, noise_mask);
        assert(self@.tones =~= tick_model(m).0.tones);
        gate
    }

    /// Runs the internal clocks of one host sample and returns the DC-adjusted
    /// sum of the three channel outputs.
    pub fn compute_next_sample(&mut self) -> (r: i16)
        requires
            old(self).wf(),
        ensures
            final(self).wf(),
            sample_step(old(self)@, final(self)@, r),
    {
        let ghost m = self@;
        let mut accumulated_mask: u16 = 0;
        let mut acc = self.cycle_accumulator;
        let mut done = false;
        while !done
            invariant
                self.wf(),
                self.internal_clock == m.internal_clock,
                self.sample_rate == m.sample_rate,
                self.cycle_accumulator == m.cycle_accumulator,
                self@.registers == m.registers,
                self@.mixer == m.mixer,
                self@.dc_history == m.dc_history,
                self@.dc_position == m.dc_position,
                self@.selected_register == m.selected_register,
                self@.in_timer_irq == m.in_timer_irq,
                self@.last_sample == m.last_sample,
                !done ==> acc < m.internal_clock,
                !done ==> run_ticks(m, m.cycle_accumulator as int, 0u16) == run_ticks(
                    self@,
                    acc as int,
                    accumulated_mask,
                ),
                done ==> run_ticks(m, m.cycle_accumulator as int, 0u16) == (self@, acc as int, accumulated_mask),
                done ==> acc >= m.internal_clock,
                acc < m.internal_clock + m.sample_rate,
            decreases (if done { 0 } else { m.internal_clock - acc + 1 }),
        {
            let ghost before = self@;
            let ghost acc_before = acc;
            let ghost mask_before = accumulated_mask;
            let gate = self.tick_generators();
            accumulated_mask = accumulated_mask | (gate as u16);
            acc = acc + self.sample_rate;
            if acc >= self.internal_clock {
                done = true;
            }
            proof {
                assert(self@.internal_clock == before.internal_clock);
                assert(run_ticks(before, acc_before as int, mask_before) == if acc >= m.internal_clock {
                    (self@, acc as int, accumulated_mask)
                } else {
                    run_ticks(self@, acc as int, accumulated_mask)
                });
            }
        }
        self.cycle_accumulator = acc - self.internal_clock;
        let ghost g = self@;
        let envelope_level = self.envelope.level();
        let volume_regs = [self.registers[8], self.registers[9], self.registers[10]];
        let levels = self.mixer.compute_levels(volume_regs, envelope_level, accumulated_mask as u32);
        proof { crate::bits::lemma_level_fields(levels); }
        let half0 = self.tones[0].is_half_amplitude();
        let o0 = self.mixer.compute_channel_output(0, levels & 0x1f, half0);
        let half1 = self.tones[1].is_half_amplitude();
        let o1 = self.mixer.compute_channel_output(1, (levels >> 5) & 0x1f, half1);
        let half2 = self.tones[2].is_half_amplitude();
        let o2 = self.mixer.compute_channel_output(2, (levels >> 10) & 0x1f, half2);
        let total = o0 + o1 + o2;
        proof {
            assert(o0 == sample_channel_output(m, g, accumulated_mask, 0));
            assert(o1 == sample_channel_output(m, g, accumulated_mask, 1));
            assert(o2 == sample_channel_output(m, g, accumulated_mask, 2));
        }
        self.dc_filter.process(total as u16)
    }

    /// Computes the next host sample and keeps it as the last sample.
    pub fn clock(&mut self)
        requires
            old(self).wf(),
        ensures
            final(self).wf(),
            sample_step(old(self)@, ChipModel { last_sample: old(self)@.last_sample, ..final(self)@ }, final(self)@.last_sample),
            final(self)@ == clock_model(old(self)@),
    {
        let ghost m = self@;
        let s = self.compute_next_sample();
        proof {
            lemma_sample_step_is_next_sample(m, self@, s);
        }
        self.last_sample = s;
    }

    /// The last sample computed by [`Ym2149::clock`].
    pub fn get_sample(&self) -> (r: i16)
        ensures
            r == self@.last_sample,
    {
        self.last_sample
    }

    /// Writes `value` to register `reg` and updates the generator it drives.
    fn apply_register(&mut self, reg: usize, value: u8)
        requires
            old(self).wf(),
        ensures
            final(self).wf(),
            final(self)@ == apply_register_model(old(self)@, reg as int, value),
    {
        if reg >= NUM_REGISTERS {
            return;
        }
        let v = value & reg_mask(reg);
        self.registers[reg] = v;
        let ghost m = old(self)@;
        let ghost regs = m.registers.update(reg as int, v);
        assert(self.registers@ =~= regs);
        if reg < 6 {
            let ch = reg / 2;
            let lo = self.registers[ch * 2];
            let hi = self.registers[ch * 2 + 1];
            proof { crate::bits::lemma_bytes_u32(hi, lo); }
            let period = ((hi as u32) << 8) | (lo as u32);
            let mut t = self.tones[ch];
            t.set_period(period);
            if period <= 1 && self.in_timer_irq {
                t.mark_pending_reset();
            }
            self.tones[ch] = t;
            assert(self@.tones =~= m.tones.update(ch as int, t@));
        } else if reg == 6 {
            self.noise.set_period(v as u32);
        } else if reg == 7 {
            self.mixer.config.set_from_register(v);
        } else if reg == 11 || reg == 12 {
            let lo = self.registers[11];
            let hi = self.registers[12];
            proof { crate::bits::lemma_bytes_u32(hi, lo); }
            let period = ((hi as u32) << 8) | (lo as u32);
            self.envelope.set_period(period);
        } else if reg == 13 {
            self.envelope.set_shape(v);
        }
        assert(self@.tones =~= apply_register_model(m, reg as int, value).tones);
    }
}


/// Writing a register and reading it back gives the value within the
/// register's width; no other register changes. Registers from 14 on are
/// not there: a write to one changes nothing.
pub proof fn lemma_write_then_read(m: ChipModel, reg: int, value: u8)
    requires
        m.registers.len() == 14,
    ensures
        0 <= reg < 14 ==> apply_register_model(m, reg, value).registers[reg] == value & reg_mask_spec(reg),
        forall|r: int| 0 <= r < 14 && r != reg ==> #[trigger] apply_register_model(m, reg, value).registers[r] == m.registers[r],
        !(0 <= reg < 14) ==> apply_register_model(m, reg, value) == m,
{
}

/// Writing the same value to the same register twice leaves the chip as
/// one write does.
pub proof fn lemma_write_idempotent(m: ChipModel, reg: int, value: u8)
    requires
        m.registers.len() == 14,
        m.tones.len() == 3,
    ensures
        apply_register_model(apply_register_model(m, reg, value), reg, value) == apply_register_model(m, reg, value),
{
    let m1 = apply_register_model(m, reg, value);
    if 0 <= reg < 14 {
        let mk = reg_mask_spec(reg);
        crate::bits::lemma_mask_twice(value, mk);
        assert(m1.registers.update(reg, value & mk) =~= m1.registers);
        if reg < 6 {
            let ch = reg / 2;
            assert(m1.tones.update(ch, m1.tones[ch]) =~= m1.tones);
        }
    }
}

/// A reset of a chip that was just reset changes nothing.
pub proof fn lemma_reset_idempotent(m: ChipModel)
    ensures
        reset_model(reset_model(m)) == reset_model(m),
{
    let r = reset_model(m);
    let rr = reset_model(r);
    assert(rr.registers =~= r.registers);
    assert(rr.tones =~= r.tones);
    assert(rr.dc_history =~= r.dc_history);
    assert(rr.mixer.channels =~= r.mixer.channels);
}

} // verus!
