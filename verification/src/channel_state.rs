//! State of the channels and generators as read from a register dump: the
//! same for every song format, since all of them end in chip registers.
//! Frequencies, note names and normalised levels are floating point and
//! are derived from these values by the caller.

use vstd::prelude::*;
use crate::ym2149::envelope::{envelope_shape_name, shape_sketch};

verus! {

/// Noise generator state.
#[derive(Debug, Clone, Copy, Default, PartialEq, Eq, Structural)]
pub struct NoiseState {
    /// Noise period (5-bit, 0-31).
    pub period: u8,
    /// Whether noise is enabled on any channel.
    pub any_channel_enabled: bool,
}

impl NoiseState {
    /// The noise state of a register dump: the low 5 bits of register 6,
    /// and whether any of the three noise-disable bits (3 to 5) of register
    /// 7 is clear.
    pub fn from_registers(regs: &[u8; 16]) -> (n: Self)
        ensures
            n.period == regs@[6] % 32,
            n.any_channel_enabled == (regs@[7] / 8 % 8 != 7),
    {
        let r6 = regs[6];
        let r7 = regs[7];
        assert(r6 & 0x1f == r6 % 32) by (bit_vector);
        assert((r7 & 0x38 != 0x38) == (r7 / 8 % 8 != 7)) by (bit_vector);
        NoiseState { period: r6 & 0x1F, any_channel_enabled: (r7 & 0x38) != 0x38 }
    }
}

/// Mixer bit that switches channel `c`'s tone off (bits 0 to 2).
pub open spec fn tone_off_bit(c: int) -> u8 {
    if c == 0 {
        1
    } else if c == 1 {
        2
    } else {
        4
    }
}

/// Mixer bit that switches channel `c`'s noise off (bits 3 to 5).
pub open spec fn noise_off_bit(c: int) -> u8 {
    if c == 0 {
        8
    } else if c == 1 {
        16
    } else {
        32
    }
}

/// State of one channel.
#[derive(Debug, Clone, Copy, Default, PartialEq, Eq, Structural)]
pub struct ChannelState {
    /// Tone period (12-bit, 0-4095).
    pub tone_period: u16,
    /// Level (0-15).
    pub amplitude: u8,
    /// Whether the tone is mixed in.
    pub tone_enabled: bool,
    /// Whether the noise is mixed in.
    pub noise_enabled: bool,
    /// Whether the envelope drives the level (bit 4 of the level register).
    pub envelope_enabled: bool,
}

/// State of the envelope generator.
#[derive(Debug, Clone, Copy, Default, PartialEq, Eq)]
pub struct EnvelopeState {
    /// Envelope period (16-bit).
    pub period: u16,
    /// Envelope shape (0-15).
    pub shape: u8,
    /// Waveform sketch of the shape.
    pub shape_name: &'static str,
    /// Whether the shape is one of the continuing ones (8-15).
    pub is_sustaining: bool,
}

/// State of the three channels and the two generators.
#[derive(Debug, Clone, Copy, Default)]
pub struct ChannelStates {
    /// Channels A, B, C.
    pub channels: [ChannelState; 3],
    /// The envelope generator.
    pub envelope: EnvelopeState,
    /// The noise generator.
    pub noise: NoiseState,
    /// The mixer register as it is.
    pub mixer_raw: u8,
}

/// The state of channel `c` in a register dump: its period from registers
/// `2c` and the low nibble of `2c + 1`, its level and envelope flag from
/// register `8 + c`, and its mixer switches (active low) from register 7.
pub open spec fn channel_state_of(regs: Seq<u8>, c: int) -> ChannelState {
    ChannelState {
        tone_period: (regs[2 * c] + (regs[2 * c + 1] % 16) * 256) as u16,
        amplitude: regs[8 + c] % 16,
        tone_enabled: regs[7] & tone_off_bit(c) == 0,
        noise_enabled: regs[7] & noise_off_bit(c) == 0,
        envelope_enabled: regs[8 + c] & 0x10 != 0,
    }
}

/// A channel is heard: its level is above zero and tone, noise or the
/// envelope is on.
pub open spec fn is_active(ch: ChannelState) -> bool {
    ch.amplitude > 0 && (ch.tone_enabled || ch.noise_enabled || ch.envelope_enabled)
}

/// The indices of the heard channels, in order.
pub open spec fn active_indices(chs: [ChannelState; 3]) -> Seq<usize> {
    (if is_active(chs[0]) { seq![0usize] } else { Seq::empty() }) + (if is_active(chs[1]) {
        seq![1usize]
    } else {
        Seq::empty()
    }) + (if is_active(chs[2]) { seq![2usize] } else { Seq::empty() })
}

impl ChannelState {
    /// The state of channel `channel` (0 to 2) in a register dump.
    fn extract(regs: &[u8; 16], channel: usize) -> (ch: Self)
        requires
            channel < 3,
        ensures
            ch == channel_state_of(regs@, channel as int),
    {
        let lo = regs[channel * 2];
        let hi = regs[channel * 2 + 1] & 0x0F;
        proof {
            crate::bits::lemma_low_nibble(regs@[channel * 2 + 1]);
            crate::bits::lemma_bytes_u16(hi, lo);
            crate::bits::lemma_low_nibble(regs@[8 + channel]);
        }
        let tone_period = (lo as u16) | ((hi as u16) << 8);
        let amp_raw = regs[8 + channel];
        let mixer = regs[7];
        let tone_bit: u8 = if channel == 0 {
            1
        } else if channel == 1 {
            2
        } else {
            4
        };
        let noise_bit: u8 = if channel == 0 {
            8
        } else if channel == 1 {
            16
        } else {
            32
        };
        ChannelState {
            tone_period,
            amplitude: amp_raw & 0x0F,
            tone_enabled: mixer & tone_bit == 0,
            noise_enabled: mixer & noise_bit == 0,
            envelope_enabled: amp_raw & 0x10 != 0,
        }
    }
}

impl ChannelStates {
    /// The state of every channel and generator in a register dump; the
    /// envelope period is registers 11 (low) and 12 (high), its shape the
    /// low nibble of register 13.
    pub fn from_registers(regs: &[u8; 16]) -> (s: Self)
        ensures
            s.channels@ == seq![
                channel_state_of(regs@, 0),
                channel_state_of(regs@, 1),
                channel_state_of(regs@, 2),
            ],
            s.envelope.period == regs@[11] + regs@[12] * 256,
            s.envelope.shape == regs@[13] % 16,
            s.envelope.shape_name@ == shape_sketch((regs@[13] % 16) as int),
            s.envelope.is_sustaining == (regs@[13] % 16 >= 8),
            s.noise.period == regs@[6] % 32,
            s.noise.any_channel_enabled == (regs@[7] / 8 % 8 != 7),
            s.mixer_raw == regs@[7],
    {
        let channels = [
            ChannelState::extract(regs, 0),
            ChannelState::extract(regs, 1),
            ChannelState::extract(regs, 2),
        ];
        proof {
            crate::bits::lemma_bytes_u16(regs@[12], regs@[11]);
            crate::bits::lemma_low_nibble(regs@[13]);
        }
        let period = (regs[11] as u16) | ((regs[12] as u16) << 8);
        let shape = regs[13] & 0x0F;
        let envelope = EnvelopeState {
            period,
            shape,
            shape_name: envelope_shape_name(shape),
            is_sustaining: shape >= 8,
        };
        let s = ChannelStates {
            channels,
            envelope,
            noise: NoiseState::from_registers(regs),
            mixer_raw: regs[7],
        };
        assert(s.channels@ =~= seq![
            channel_state_of(regs@, 0),
            channel_state_of(regs@, 1),
            channel_state_of(regs@, 2),
        ]);
        s
    }

    /// Whether any channel's level is driven by the envelope.
    pub fn any_envelope_enabled(&self) -> (b: bool)
        ensures
            b == (self.channels[0].envelope_enabled || self.channels[1].envelope_enabled
                || self.channels[2].envelope_enabled),
    {
        self.channels[0].envelope_enabled || self.channels[1].envelope_enabled
            || self.channels[2].envelope_enabled
    }

    /// The indices of the channels that are heard, in order.
    pub fn active_channels(&self) -> (r: Vec<usize>)
        ensures
            r@ == active_indices(self.channels),
    {
        let mut r: Vec<usize> = Vec::new();
        let mut i: usize = 0;
        while i < 3
            invariant
                i <= 3,
                r@ == active_prefix(self.channels, i as int),
            decreases 3 - i,
        {
            let ch = self.channels[i];
            if ch.amplitude > 0 && (ch.tone_enabled || ch.noise_enabled || ch.envelope_enabled) {
                r.push(i);
            }
            i = i + 1;
        }
        assert(active_prefix(self.channels, 3) =~= active_indices(self.channels)) by {
            reveal_with_fuel(active_prefix, 4);
        }
        r
    }

    /// The highest level of the three channels (0-15).
    pub fn max_amplitude_level(&self) -> (m: u8)
        ensures
            m >= self.channels[0].amplitude,
            m >= self.channels[1].amplitude,
            m >= self.channels[2].amplitude,
            m == self.channels[0].amplitude || m == self.channels[1].amplitude || m
                == self.channels[2].amplitude,
    {
        let a = self.channels[0].amplitude;
        let b = self.channels[1].amplitude;
        let c = self.channels[2].amplitude;
        let ab = if a >= b {
            a
        } else {
            b
        };
        if ab >= c {
            ab
        } else {
            c
        }
    }
}

/// The indices of the heard channels among the first `n`.
pub open spec fn active_prefix(chs: [ChannelState; 3], n: int) -> Seq<usize>
    decreases n,
{
    if n <= 0 {
        Seq::empty()
    } else {
        let before = active_prefix(chs, n - 1);
        if is_active(chs[n - 1]) {
            before.push((n - 1) as usize)
        } else {
            before
        }
    }
}

} // verus!
