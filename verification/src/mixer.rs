//! Mixer and output stage: combines tone and noise gates after register R7,
//! applies volume or envelope levels, and handles DigiDrum overrides and mutes.

use vstd::prelude::*;
use crate::generators::NUM_CHANNELS;
use crate::tables::{gate_mask, gate_mask_spec, log_level, log_level_spec, MAX_LEVEL};

verus! {

/// Mixer configuration decoded from register R7 (a set bit disables).
#[derive(Clone, Copy, Debug, Default)]
pub struct MixerConfig {
    tone_mask: u32,
    noise_mask: u32,
}

impl MixerConfig {
    /// Gate bits forced on for channels whose tone is disabled.
    pub closed spec fn tone_mask_spec(&self) -> u32 {
        self.tone_mask
    }

    /// Gate bits forced on for channels whose noise is disabled.
    pub closed spec fn noise_mask_spec(&self) -> u32 {
        self.noise_mask
    }

    /// The configuration that register R7 value `value` selects.
    pub closed spec fn from_register_spec(value: u8) -> MixerConfig {
        MixerConfig {
            tone_mask: gate_mask_spec((value % 8) as int),
            noise_mask: gate_mask_spec(((value / 8) % 8) as int),
        }
    }

    /// What [`MixerConfig::from_register_spec`] selects, mask by mask.
    pub proof fn lemma_from_register(value: u8)
        ensures
            Self::from_register_spec(value).tone_mask_spec() == gate_mask_spec((value % 8) as int),
            Self::from_register_spec(value).noise_mask_spec() == gate_mask_spec(((value / 8) % 8) as int),
    {
    }

    /// The configuration with every gate mask zero.
    pub closed spec fn zero_spec() -> MixerConfig {
        MixerConfig { tone_mask: 0, noise_mask: 0 }
    }

    /// A configuration with tone and noise enabled on every channel.
    pub fn new() -> (c: Self)
        ensures
            c == Self::zero_spec(),
            c.tone_mask_spec() == 0,
            c.noise_mask_spec() == 0,
    {
        MixerConfig { tone_mask: 0, noise_mask: 0 }
    }

    /// Decodes register R7: bits 0..2 disable tone, bits 3..5 disable noise.
    pub fn set_from_register(&mut self, value: u8)
        ensures
            *final(self) == Self::from_register_spec(value),
            final(self).tone_mask_spec() == gate_mask_spec((value % 8) as int),
            final(self).noise_mask_spec() == gate_mask_spec(((value / 8) % 8) as int),
    {
        assert(value & 0x07 == value % 8 && (value >> 3) & 0x07 == (value / 8) % 8) by (bit_vector);
        self.tone_mask = gate_mask(value & 0x07);
        self.noise_mask = gate_mask((value >> 3) & 0x07);
    }

    /// Gate of all three channels: a channel sounds where its tone edge or
    /// tone-disable is set and its noise output or noise-disable is set.
    pub fn compute_gate_mask(&self, tone_edges: u32, noise_mask: u32) -> (r: u32)
        ensures
            r == (tone_edges | self.tone_mask_spec()) & (noise_mask | self.noise_mask_spec()),
    {
        (tone_edges | self.tone_mask) & (noise_mask | self.noise_mask)
    }

    /// The tone gate mask.
    pub fn tone_mask(&self) -> (r: u32)
        ensures
            r == self.tone_mask_spec(),
    {
        self.tone_mask
    }

    /// The noise gate mask.
    pub fn noise_mask(&self) -> (r: u32)
        ensures
            r == self.noise_mask_spec(),
    {
        self.noise_mask
    }
}

/// Per-channel mixing state.
#[derive(Clone, Copy, Debug, Default)]
pub struct ChannelState {
    /// User mute flag.
    pub muted: bool,
    /// DigiDrum override: the output level that replaces the channel's own.
    pub drum_override: Option<u32>,
    /// Last computed output level (0..MAX_LEVEL).
    pub last_output: u32,
}

/// Level of one channel before gating: the envelope level when bit 4 of its
/// volume register is set, else twice the fixed volume.
pub open spec fn channel_level(vol: u8, env: u32) -> u32 {
    if vol & 0x10 != 0 {
        env
    } else {
        ((vol as u32) << 1u32) as u32
    }
}

/// Packed levels of the three channels (5 bits each) after masking by the channel gate.
pub open spec fn packed_levels(v0: u8, v1: u8, v2: u8, env: u32, gate: u32) -> u32 {
    (channel_level(v0, env) | ((channel_level(v1, env) << 5u32) as u32)
        | ((channel_level(v2, env) << 10u32) as u32)) & gate
}

/// Output of one channel: zero when muted, the DigiDrum level (capped) when
/// overridden, else the DAC level of the step, halved at half amplitude.
pub open spec fn channel_output(state: ChannelState, level_index: u32, half: bool) -> u32 {
    if state.muted {
        0
    } else if state.drum_override is Some {
        let d = state.drum_override->0;
        if d < MAX_LEVEL { d } else { MAX_LEVEL }
    } else if half {
        (log_level_spec(level_index as int) / 2) as u32
    } else {
        log_level_spec(level_index as int) as u32
    }
}

/// Audio mixer and output stage.
#[derive(Clone, Copy, Debug, Default)]
pub struct Mixer {
    /// Decoded register R7.
    pub config: MixerConfig,
    /// Per-channel state.
    pub channels: [ChannelState; 3],
}

impl Mixer {
    /// A mixer with everything enabled, unmuted and no overrides.
    pub fn new() -> (m: Self)
        ensures
            m.config == MixerConfig::zero_spec(),
            forall|i: int| 0 <= i < 3 ==> m.channels[i] == (ChannelState {
                muted: false,
                drum_override: None,
                last_output: 0,
            }),
    {
        let c = ChannelState { muted: false, drum_override: None, last_output: 0 };
        Mixer { config: MixerConfig::new(), channels: [c, c, c] }
    }

    /// Levels of the three channels packed 5 bits apart, masked by the channel gate.
    pub fn compute_levels(&self, volume_regs: [u8; 3], envelope_level: u32, gate_mask: u32) -> (r: u32)
        ensures
            r == packed_levels(volume_regs[0], volume_regs[1], volume_regs[2], envelope_level, gate_mask),
    {
        let l0 = if (volume_regs[0] & 0x10) != 0 { envelope_level } else { (volume_regs[0] as u32) << 1 };
        let l1 = if (volume_regs[1] & 0x10) != 0 { envelope_level } else { (volume_regs[1] as u32) << 1 };
        let l2 = if (volume_regs[2] & 0x10) != 0 { envelope_level } else { (volume_regs[2] as u32) << 1 };
        (l0 | (l1 << 5) | (l2 << 10)) & gate_mask
    }

    /// Output level of `channel` for DAC step `level_index`; recorded as the channel's last output.
    pub fn compute_channel_output(&mut self, channel: usize, level_index: u32, half_amplitude: bool) -> (r: u32)
        requires
            channel < NUM_CHANNELS,
            level_index < 32,
        ensures
            r == channel_output(old(self).channels[channel as int], level_index, half_amplitude),
            r <= MAX_LEVEL,
            final(self).config == old(self).config,
            final(self).channels@ == old(self).channels@.update(
                channel as int,
                ChannelState { last_output: r, ..old(self).channels[channel as int] },
            ),
    {
        let state = self.channels[channel];
        let output = if state.muted {
            0
        } else if let Some(drum) = state.drum_override {
            if drum < MAX_LEVEL { drum } else { MAX_LEVEL }
        } else {
            let base = log_level(level_index);
            proof { crate::bits::lemma_shift_halves(base); }
            if half_amplitude { base >> 1 } else { base }
        };
        self.channels[channel] = ChannelState { last_output: output, ..state };
        output
    }

    /// The last output levels of the three channels.
    pub fn channel_outputs(&self) -> (r: (u32, u32, u32))
        ensures
            r == (self.channels[0].last_output, self.channels[1].last_output, self.channels[2].last_output),
    {
        (self.channels[0].last_output, self.channels[1].last_output, self.channels[2].last_output)
    }

    /// Mutes or unmutes `channel`; other channel numbers are ignored.
    pub fn set_mute(&mut self, channel: usize, muted: bool)
        ensures
            final(self).config == old(self).config,
            channel < NUM_CHANNELS ==> final(self).channels@ == old(self).channels@.update(
                channel as int,
                ChannelState { muted, ..old(self).channels[channel as int] },
            ),
            channel >= NUM_CHANNELS ==> final(self).channels == old(self).channels,
    {
        if channel < NUM_CHANNELS {
            let state = self.channels[channel];
            self.channels[channel] = ChannelState { muted, ..state };
        }
    }

    /// Whether `channel` is muted (false for other channel numbers).
    pub fn is_muted(&self, channel: usize) -> (r: bool)
        ensures
            r == (channel < NUM_CHANNELS && self.channels[channel as int].muted),
    {
        if channel < NUM_CHANNELS {
            self.channels[channel].muted
        } else {
            false
        }
    }

    /// Sets or clears the DigiDrum override level of `channel`; other channel numbers are ignored.
    pub fn set_drum_override(&mut self, channel: usize, level: Option<u32>)
        ensures
            final(self).config == old(self).config,
            channel < NUM_CHANNELS ==> final(self).channels@ == old(self).channels@.update(
                channel as int,
                ChannelState { drum_override: level, ..old(self).channels[channel as int] },
            ),
            channel >= NUM_CHANNELS ==> final(self).channels == old(self).channels,
    {
        if channel < NUM_CHANNELS {
            let state = self.channels[channel];
            self.channels[channel] = ChannelState { drum_override: level, ..state };
        }
    }

    /// Clears the configuration, overrides and last outputs; mutes are kept.
    pub fn reset(&mut self)
        ensures
            final(self).config == MixerConfig::zero_spec(),
            forall|i: int| 0 <= i < 3 ==> final(self).channels[i] == (ChannelState {
                muted: old(self).channels[i].muted,
                drum_override: None,
                last_output: 0,
            }),
    {
        self.config = MixerConfig::new();
        let c0 = self.channels[0];
        let c1 = self.channels[1];
        let c2 = self.channels[2];
        self.channels = [
            ChannelState { muted: c0.muted, drum_override: None, last_output: 0 },
            ChannelState { muted: c1.muted, drum_override: None, last_output: 0 },
            ChannelState { muted: c2.muted, drum_override: None, last_output: 0 },
        ];
    }
}

} // verus!
