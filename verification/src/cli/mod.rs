//! Logic of the command-line player: chip selection, stream settings, the
//! visual snapshot of the chip registers, the delay that keeps snapshots in
//! step with the audio, keyboard escape sequences and the channel status line.

pub mod args;
pub mod streaming;
pub mod keys;
pub mod viz_helpers;
pub mod ring_buffer;
pub mod playlist;
pub mod tui;

use vstd::prelude::*;

verus! {

/// Default sample rate (44.1 kHz).
pub const DEFAULT_SAMPLE_RATE: u32 = 44100;

/// Maximum number of PSG chips shown by the visualisation.
pub const MAX_PSG_COUNT: usize = 4;

/// Error of the sample ring buffer, by its message.
#[derive(Debug, Clone)]
pub struct RingBufferError(pub String);

/// Configuration of streaming playback.
#[derive(Debug, Clone, Copy)]
pub struct StreamConfig {
    /// Ring buffer size in samples.
    pub ring_buffer_size: usize,
    /// Sample rate in Hz.
    pub sample_rate: u32,
    /// Number of audio channels.
    pub channels: u16,
}

impl StreamConfig {
    /// Low latency: a 4096-sample buffer (about 93 ms at 44.1 kHz), mono.
    pub fn low_latency(sample_rate: u32) -> (c: Self)
        ensures
            c.ring_buffer_size == 4096,
            c.sample_rate == sample_rate,
            c.channels == 1,
    {
        StreamConfig { ring_buffer_size: 4096, sample_rate, channels: 1 }
    }

    /// Stability: a 16384-sample buffer (about 372 ms at 44.1 kHz), mono.
    pub fn stable(sample_rate: u32) -> (c: Self)
        ensures
            c.ring_buffer_size == 16384,
            c.sample_rate == sample_rate,
            c.channels == 1,
    {
        StreamConfig { ring_buffer_size: 16384, sample_rate, channels: 1 }
    }
}

impl Default for StreamConfig {
    fn default() -> (c: Self)
        ensures
            c.ring_buffer_size == 16384,
            c.sample_rate == DEFAULT_SAMPLE_RATE,
            c.channels == 1,
    {
        Self::stable(DEFAULT_SAMPLE_RATE)
    }
}

/// Snapshot of chip state for the visualisation.
#[derive(Clone, Copy)]
pub struct VisualSnapshot {
    /// Registers R0..R15 of each PSG chip.
    pub registers: [[u8; 16]; 4],
    /// Number of active PSG chips.
    pub psg_count: usize,
    /// Sync buzzer active (from song metadata).
    pub sync_buzzer: bool,
    /// SID voice effect active, per channel.
    pub sid_active: [bool; 12],
    /// DigiDrum effect active, per channel.
    pub drum_active: [bool; 12],
}

/// SID heuristic for a channel: envelope mode, a repeating shape (8..15)
/// and a non-zero envelope period below 2000.
pub open spec fn sid_detected(regs: [u8; 16], ch: int) -> bool {
    let env_period = regs[11] + regs[12] * 256;
    &&& regs[8 + ch] & 0x10 != 0
    &&& regs[13] % 16 >= 8
    &&& 0 < env_period < 2000
}

/// DigiDrum heuristic for a channel: fixed volume of 13 or more.
pub open spec fn drum_detected(regs: [u8; 16], ch: int) -> bool {
    regs[8 + ch] & 0x10 == 0 && regs[8 + ch] % 16 >= 13
}

impl VisualSnapshot {
    /// An empty snapshot: no chips, all registers and flags clear.
    pub fn new() -> (s: Self)
        ensures
            s.psg_count == 0,
            !s.sync_buzzer,
            forall|p: int, r: int| 0 <= p < 4 && 0 <= r < 16 ==> s.registers[p][r] == 0,
            forall|c: int| 0 <= c < 12 ==> !s.sid_active[c] && !s.drum_active[c],
    {
        VisualSnapshot {
            registers: [[0u8; 16]; 4],
            psg_count: 0,
            sync_buzzer: false,
            sid_active: [false; 12],
            drum_active: [false; 12],
        }
    }

    /// Marks SID and DigiDrum effects guessed from the registers of each
    /// chip; flags already set (from song metadata) are kept.
    pub fn detect_effects_from_registers(&mut self)
        requires
            old(self).psg_count <= MAX_PSG_COUNT,
        ensures
            final(self).registers == old(self).registers,
            final(self).psg_count == old(self).psg_count,
            final(self).sync_buzzer == old(self).sync_buzzer,
            forall|c: int| 0 <= c < 12 ==> #[trigger] final(self).sid_active[c] == (old(self).sid_active[c]
                || (c < 3 * old(self).psg_count && sid_detected(old(self).registers[c / 3], c % 3))),
            forall|c: int| 0 <= c < 12 ==> #[trigger] final(self).drum_active[c] == (old(self).drum_active[c]
                || (c < 3 * old(self).psg_count && drum_detected(old(self).registers[c / 3], c % 3))),
    {
        let ghost s0 = *self;
        let mut psg_idx: usize = 0;
        while psg_idx < self.psg_count
            invariant
                psg_idx <= self.psg_count,
                self.psg_count == s0.psg_count,
                self.psg_count <= MAX_PSG_COUNT,
                self.registers == s0.registers,
                self.sync_buzzer == s0.sync_buzzer,
                forall|c: int| 0 <= c < 12 ==> #[trigger] self.sid_active[c] == (s0.sid_active[c]
                    || (c < 3 * psg_idx && sid_detected(s0.registers[c / 3], c % 3))),
                forall|c: int| 0 <= c < 12 ==> #[trigger] self.drum_active[c] == (s0.drum_active[c]
                    || (c < 3 * psg_idx && drum_detected(s0.registers[c / 3], c % 3))),
            decreases self.psg_count - psg_idx,
        {
            let regs = self.registers[psg_idx];
            let base_ch = psg_idx * 3;
            let r11 = regs[11];
            let r12 = regs[12];
            let r13 = regs[13];
            let env_period = (r11 as u16) | ((r12 as u16) << 8);
            proof { crate::bits::lemma_bytes_u16(r12, r11); }
            let env_shape = r13 & 0x0F;
            proof { crate::bits::lemma_low_nibble(r13); }
            let is_complex_env = env_shape >= 8;
            let env_active = env_period > 0;
            let mut local_ch: usize = 0;
            while local_ch < 3
                invariant
                    local_ch <= 3,
                    psg_idx < self.psg_count,
                    self.psg_count == s0.psg_count,
                    self.psg_count <= MAX_PSG_COUNT,
                    base_ch == psg_idx * 3,
                    regs == s0.registers[psg_idx as int],
                    env_period == regs[11] + regs[12] * 256,
                    is_complex_env == (regs[13] % 16 >= 8),
                    env_active == (env_period > 0),
                    self.registers == s0.registers,
                    self.sync_buzzer == s0.sync_buzzer,
                    forall|c: int| 0 <= c < 12 ==> #[trigger] self.sid_active[c] == (s0.sid_active[c]
                        || (c < 3 * psg_idx + local_ch && sid_detected(s0.registers[c / 3], c % 3))),
                    forall|c: int| 0 <= c < 12 ==> #[trigger] self.drum_active[c] == (s0.drum_active[c]
                        || (c < 3 * psg_idx + local_ch && drum_detected(s0.registers[c / 3], c % 3))),
                decreases 3 - local_ch,
            {
                let global_ch = base_ch + local_ch;
                let amp_reg = regs[8 + local_ch];
                let env_enabled = (amp_reg & 0x10) != 0;
                let amplitude = amp_reg & 0x0F;
                proof { crate::bits::lemma_low_nibble(amp_reg); }
                if !self.sid_active[global_ch] {
                    self.sid_active[global_ch] = env_enabled && is_complex_env && env_active && env_period < 2000;
                }
                if !self.drum_active[global_ch] {
                    self.drum_active[global_ch] = !env_enabled && amplitude >= 13;
                }
                proof {
                    assert(global_ch as int / 3 == psg_idx as int);
                    assert(global_ch as int % 3 == local_ch as int);
                }
                local_ch = local_ch + 1;
            }
            psg_idx = psg_idx + 1;
        }
    }
}

impl Default for VisualSnapshot {
    fn default() -> (s: Self)
        ensures
            s.psg_count == 0,
            !s.sync_buzzer,
            forall|p: int, r: int| 0 <= p < 4 && 0 <= r < 16 ==> s.registers[p][r] == 0,
            forall|c: int| 0 <= c < 12 ==> !s.sid_active[c] && !s.drum_active[c],
    {
        Self::new()
    }
}

} // verus!
