//! Envelope shapes of register R13 and their names.

use vstd::prelude::*;

verus! {

/// Envelope shape control, register R13 (low 4 bits).
#[derive(Debug, Clone, Copy, PartialEq, Eq, Structural)]
pub enum EnvelopeShape {
    /// 0000: attack-decay.
    AttackDecay,
    /// 0001: attack-decay (variant 1).
    AttackDecay1,
    /// 0010: attack-decay (variant 2).
    AttackDecay2,
    /// 0011: attack-decay (variant 3).
    AttackDecay3,
    /// 0100: attack-decay-release.
    AttackDecayRelease,
    /// 0101: attack-sustain-release.
    AttackSustainRelease,
    /// 0110: triangle.
    Triangle,
    /// 0111: triangle-sustain.
    TriangleSustain,
    /// 1000: repeating sawtooth down (buzzer).
    SawtoothDown,
    /// 1001: attack then repeating sawtooth down.
    AttackSawtoothDown,
    /// 1010: sustain then repeating sawtooth down.
    SustainSawtoothDown,
    /// 1011: attack-sustain then sawtooth.
    AttackSustainSawtooth,
    /// 1100: repeating sawtooth up (buzzer).
    SawtoothUp,
    /// 1101: attack then hold.
    AttackHold,
    /// 1110: sawtooth down once then silence.
    SawtoothDownOnce,
    /// 1111: attack then hold.
    AttackHoldLong,
}

/// The shape's 4-bit register value.
pub open spec fn shape_value(s: EnvelopeShape) -> int {
    match s {
        EnvelopeShape::AttackDecay => 0,
        EnvelopeShape::AttackDecay1 => 1,
        EnvelopeShape::AttackDecay2 => 2,
        EnvelopeShape::AttackDecay3 => 3,
        EnvelopeShape::AttackDecayRelease => 4,
        EnvelopeShape::AttackSustainRelease => 5,
        EnvelopeShape::Triangle => 6,
        EnvelopeShape::TriangleSustain => 7,
        EnvelopeShape::SawtoothDown => 8,
        EnvelopeShape::AttackSawtoothDown => 9,
        EnvelopeShape::SustainSawtoothDown => 10,
        EnvelopeShape::AttackSustainSawtooth => 11,
        EnvelopeShape::SawtoothUp => 12,
        EnvelopeShape::AttackHold => 13,
        EnvelopeShape::SawtoothDownOnce => 14,
        EnvelopeShape::AttackHoldLong => 15,
    }
}

impl EnvelopeShape {
    /// The shape for a register value (its low 4 bits).
    pub fn from_value(val: u8) -> (s: Self)
        ensures
            shape_value(s) == val % 16,
    {
        let v = val & 0x0F;
        proof { crate::bits::lemma_low_nibble(val); }
        if v == 0x00 {
            EnvelopeShape::AttackDecay
        } else if v == 0x01 {
            EnvelopeShape::AttackDecay1
        } else if v == 0x02 {
            EnvelopeShape::AttackDecay2
        } else if v == 0x03 {
            EnvelopeShape::AttackDecay3
        } else if v == 0x04 {
            EnvelopeShape::AttackDecayRelease
        } else if v == 0x05 {
            EnvelopeShape::AttackSustainRelease
        } else if v == 0x06 {
            EnvelopeShape::Triangle
        } else if v == 0x07 {
            EnvelopeShape::TriangleSustain
        } else if v == 0x08 {
            EnvelopeShape::SawtoothDown
        } else if v == 0x09 {
            EnvelopeShape::AttackSawtoothDown
        } else if v == 0x0A {
            EnvelopeShape::SustainSawtoothDown
        } else if v == 0x0B {
            EnvelopeShape::AttackSustainSawtooth
        } else if v == 0x0C {
            EnvelopeShape::SawtoothUp
        } else if v == 0x0D {
            EnvelopeShape::AttackHold
        } else if v == 0x0E {
            EnvelopeShape::SawtoothDownOnce
        } else {
            EnvelopeShape::AttackHoldLong
        }
    }

    /// The shape's 4-bit register value.
    pub fn value(&self) -> (r: u8)
        ensures
            r == shape_value(*self),
    {
        match self {
            EnvelopeShape::AttackDecay => 0,
            EnvelopeShape::AttackDecay1 => 1,
            EnvelopeShape::AttackDecay2 => 2,
            EnvelopeShape::AttackDecay3 => 3,
            EnvelopeShape::AttackDecayRelease => 4,
            EnvelopeShape::AttackSustainRelease => 5,
            EnvelopeShape::Triangle => 6,
            EnvelopeShape::TriangleSustain => 7,
            EnvelopeShape::SawtoothDown => 8,
            EnvelopeShape::AttackSawtoothDown => 9,
            EnvelopeShape::SustainSawtoothDown => 10,
            EnvelopeShape::AttackSustainSawtooth => 11,
            EnvelopeShape::SawtoothUp => 12,
            EnvelopeShape::AttackHold => 13,
            EnvelopeShape::SawtoothDownOnce => 14,
            EnvelopeShape::AttackHoldLong => 15,
        }
    }

    /// The shape's display name.
    pub fn name(&self) -> (r: &'static str)
        ensures
            r@ == shape_name_spec(*self),
    {
        match self {
            EnvelopeShape::AttackDecay => "Attack-Decay",
            EnvelopeShape::AttackDecay1 => "Attack-Decay (variant 1)",
            EnvelopeShape::AttackDecay2 => "Attack-Decay (variant 2)",
            EnvelopeShape::AttackDecay3 => "Attack-Decay (variant 3)",
            EnvelopeShape::AttackDecayRelease => "Attack-Decay-Release",
            EnvelopeShape::AttackSustainRelease => "Attack-Sustain-Release",
            EnvelopeShape::Triangle => "Triangle",
            EnvelopeShape::TriangleSustain => "Triangle-Sustain",
            EnvelopeShape::SawtoothDown => "Sawtooth-Down (Buzzer)",
            EnvelopeShape::AttackSawtoothDown => "Attack-Sawtooth-Down",
            EnvelopeShape::SustainSawtoothDown => "Sustain-Sawtooth-Down",
            EnvelopeShape::AttackSustainSawtooth => "Attack-Sustain-Sawtooth",
            EnvelopeShape::SawtoothUp => "Sawtooth-Up (Buzzer)",
            EnvelopeShape::AttackHold => "Attack-Hold",
            EnvelopeShape::SawtoothDownOnce => "Sawtooth-Down-Once",
            EnvelopeShape::AttackHoldLong => "Attack-Hold-Long",
        }
    }
}

/// The display name of each shape.
pub open spec fn shape_name_spec(s: EnvelopeShape) -> Seq<char> {
    match s {
        EnvelopeShape::AttackDecay => "Attack-Decay"@,
        EnvelopeShape::AttackDecay1 => "Attack-Decay (variant 1)"@,
        EnvelopeShape::AttackDecay2 => "Attack-Decay (variant 2)"@,
        EnvelopeShape::AttackDecay3 => "Attack-Decay (variant 3)"@,
        EnvelopeShape::AttackDecayRelease => "Attack-Decay-Release"@,
        EnvelopeShape::AttackSustainRelease => "Attack-Sustain-Release"@,
        EnvelopeShape::Triangle => "Triangle"@,
        EnvelopeShape::TriangleSustain => "Triangle-Sustain"@,
        EnvelopeShape::SawtoothDown => "Sawtooth-Down (Buzzer)"@,
        EnvelopeShape::AttackSawtoothDown => "Attack-Sawtooth-Down"@,
        EnvelopeShape::SustainSawtoothDown => "Sustain-Sawtooth-Down"@,
        EnvelopeShape::AttackSustainSawtooth => "Attack-Sustain-Sawtooth"@,
        EnvelopeShape::SawtoothUp => "Sawtooth-Up (Buzzer)"@,
        EnvelopeShape::AttackHold => "Attack-Hold"@,
        EnvelopeShape::SawtoothDownOnce => "Sawtooth-Down-Once"@,
        EnvelopeShape::AttackHoldLong => "Attack-Hold-Long"@,
    }
}

/// Short label of a shape register value (low 4 bits), as the status line shows it.
pub open spec fn short_shape_name(shape: int) -> Seq<char> {
    if shape <= 3 {
        "AD"@
    } else if shape == 4 {
        "ADR"@
    } else if shape == 5 {
        "ASR"@
    } else if shape == 6 {
        "TRI"@
    } else if shape == 7 {
        "TRISUS"@
    } else if shape == 8 {
        "SAWDN"@
    } else if shape == 9 {
        "ASAWDN"@
    } else if shape == 10 {
        "SUSSAWDN"@
    } else if shape == 11 {
        "ASSAWDN"@
    } else if shape == 12 {
        "SAWUP"@
    } else if shape == 14 {
        "SAWDN1x"@
    } else {
        "AH"@
    }
}

/// Short label of the envelope shape in register value `shape_val` (low 4 bits).
pub fn get_envelope_shape_name(shape_val: u8) -> (r: &'static str)
    ensures
        r@ == short_shape_name((shape_val % 16) as int),
{
    let v = shape_val & 0x0F;
    proof { crate::bits::lemma_low_nibble(shape_val); }
    if v <= 3 {
        "AD"
    } else if v == 4 {
        "ADR"
    } else if v == 5 {
        "ASR"
    } else if v == 6 {
        "TRI"
    } else if v == 7 {
        "TRISUS"
    } else if v == 8 {
        "SAWDN"
    } else if v == 9 {
        "ASAWDN"
    } else if v == 10 {
        "SUSSAWDN"
    } else if v == 11 {
        "ASSAWDN"
    } else if v == 12 {
        "SAWUP"
    } else if v == 14 {
        "SAWDN1x"
    } else {
        "AH"
    }
}

/// Waveform sketch of a shape register value (low 4 bits), one glyph per phase.
pub open spec fn shape_sketch(shape: int) -> Seq<char> {
    if shape <= 3 || shape == 9 {
        "\\___"@
    } else if shape <= 7 || shape == 15 {
        "/___"@
    } else if shape == 8 {
        "\\\\\\\\"@
    } else if shape == 10 {
        "\\/\\/"@
    } else if shape == 11 {
        "\\¯¯¯"@
    } else if shape == 12 {
        "////"@
    } else if shape == 13 {
        "/¯¯¯"@
    } else {
        "/\\/\\"@
    }
}

/// Waveform sketch of the envelope shape in register value `shape` (low 4 bits).
pub fn envelope_shape_name(shape: u8) -> (r: &'static str)
    ensures
        r@ == shape_sketch((shape % 16) as int),
{
    let v = shape & 0x0F;
    proof { crate::bits::lemma_low_nibble(shape); }
    if v <= 3 || v == 9 {
        "\\___"
    } else if v <= 7 || v == 15 {
        "/___"
    } else if v == 8 {
        "\\\\\\\\"
    } else if v == 10 {
        "\\/\\/"
    } else if v == 11 {
        "\\¯¯¯"
    } else if v == 12 {
        "////"
    } else if v == 13 {
        "/¯¯¯"
    } else {
        "/\\/\\"
    }
}


/// The pattern (0 to 10) that each shape register value plays in the
/// sample-rate envelope.
pub open spec fn shape_to_pattern(v: int) -> int {
    if v <= 3 { 0 }
    else if v <= 5 { 1 }
    else if v <= 13 { v - 4 }
    else if v == 14 { 10 }
    else { 9 }
}

/// The sample-rate envelope as values.
pub struct EnvelopeGenView {
    pub shape: EnvelopeShape,
    pub freq_period: u16,
    pub position: u32,
    pub step: u32,
    pub phase: u8,
}

/// Envelope generator running at the host sample rate: a 32-bit phase
/// accumulator stepping through the four phases of an envelope pattern.
/// The step (a clock ratio) and the output level are computed in floating
/// point by the caller; this keeps the counting.
#[derive(Debug, Clone, Copy)]
pub struct EnvelopeGen {
    shape: EnvelopeShape,
    freq_period: u16,
    position: u32,
    step: u32,
    phase: u8,
}

impl View for EnvelopeGen {
    type V = EnvelopeGenView;

    closed spec fn view(&self) -> EnvelopeGenView {
        EnvelopeGenView {
            shape: self.shape,
            freq_period: self.freq_period,
            position: self.position,
            step: self.step,
            phase: self.phase,
        }
    }
}

impl EnvelopeGen {
    /// Attack-decay, period 1, at the start, with the fastest step.
    pub fn new() -> (e: Self)
        ensures
            e@ == (EnvelopeGenView {
                shape: EnvelopeShape::AttackDecay,
                freq_period: 1,
                position: 0,
                step: 0xFFFF_FFFF,
                phase: 0,
            }),
    {
        EnvelopeGen { shape: EnvelopeShape::AttackDecay, freq_period: 1, position: 0, step: 0xFFFF_FFFF, phase: 0 }
    }

    /// Selects a shape and restarts the envelope.
    pub fn set_shape(&mut self, shape: EnvelopeShape)
        ensures
            final(self)@ == (EnvelopeGenView { shape, position: 0, phase: 0, ..old(self)@ }),
    {
        self.shape = shape;
        self.trigger();
    }

    /// Sets the 16-bit period from its two registers; a period of zero
    /// counts as one.
    pub fn set_frequency(&mut self, freq_lo: u8, freq_hi: u8)
        ensures
            final(self)@ == (EnvelopeGenView {
                freq_period: if freq_hi * 256 + freq_lo == 0 { 1 } else { (freq_hi * 256 + freq_lo) as u16 },
                ..old(self)@
            }),
    {
        proof { crate::bits::lemma_bytes_u16(freq_hi, freq_lo); }
        let p = ((freq_hi as u16) << 8) | (freq_lo as u16);
        self.freq_period = if p == 0 { 1 } else { p };
    }

    /// The period.
    pub fn freq_period(&self) -> (p: u16)
        ensures
            p == self@.freq_period,
    {
        self.freq_period
    }

    /// Sets the accumulator step per sample.
    pub fn set_step(&mut self, step: u32)
        ensures
            final(self)@ == (EnvelopeGenView { step, ..old(self)@ }),
    {
        self.step = step;
    }

    /// Restarts the envelope: position and phase zero.
    pub fn trigger(&mut self)
        ensures
            final(self)@ == (EnvelopeGenView { position: 0, phase: 0, ..old(self)@ }),
    {
        self.position = 0;
        self.phase = 0;
    }

    /// One sample: the accumulator advances by the step (wrapping), and
    /// its first wrap ends the first phase.
    pub fn clock(&mut self)
        ensures
            final(self)@ == (EnvelopeGenView {
                position: vstd::wrapping::u32_specs::wrapping_add(old(self)@.position, old(self)@.step),
                phase: if old(self)@.position + old(self)@.step > u32::MAX && old(self)@.phase == 0 {
                    1u8
                } else {
                    old(self)@.phase
                },
                ..old(self)@
            }),
    {
        let old_position = self.position;
        self.position = self.position.wrapping_add(self.step);
        if self.position < old_position && self.phase == 0 {
            self.phase = 1;
        }
    }

    /// Where the output level is read: the shape's pattern, the phase, and
    /// the step within the phase (the top 5 bits of the accumulator).
    pub fn lookup_index(&self) -> (r: (usize, usize, usize))
        ensures
            r.0 == shape_to_pattern(shape_value(self@.shape)),
            r.1 == self@.phase,
            r.2 == self@.position / 0x0800_0000,
    {
        let v = self.shape.value();
        let pattern: usize = if v <= 3 {
            0
        } else if v <= 5 {
            1
        } else if v <= 13 {
            (v - 4) as usize
        } else if v == 14 {
            10
        } else {
            9
        };
        let pos = self.position;
        assert(pos >> 27u32 == pos / 0x0800_0000) by (bit_vector);
        (pattern, self.phase as usize, (pos >> 27) as usize)
    }
}

impl Default for EnvelopeGen {
    fn default() -> (e: Self)
        ensures
            e@.shape == EnvelopeShape::AttackDecay,
            e@.freq_period == 1,
            e@.position == 0,
            e@.phase == 0,
    {
        Self::new()
    }
}

} // verus!
