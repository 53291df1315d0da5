//! Hardware lookup tables of the YM2149: register widths, mixer gate masks,
//! envelope shapes and the output level of each 5-bit DAC step.

use vstd::prelude::*;

verus! {

/// Number of writable registers that carry sound state (R0..R13).
pub const NUM_REGISTERS: usize = 14;

/// Width of each register: the bits that the chip keeps on a write.
pub open spec fn reg_mask_spec(reg: int) -> u8 {
    if reg == 1 || reg == 3 || reg == 5 || reg == 13 {
        0x0f
    } else if reg == 6 || reg == 8 || reg == 9 || reg == 10 {
        0x1f
    } else {
        0xff
    }
}

/// The bits that register `reg` keeps on a write.
pub fn reg_mask(reg: usize) -> (r: u8)
    ensures
        r == reg_mask_spec(reg as int),
{
    if reg == 1 || reg == 3 || reg == 5 || reg == 13 {
        0x0f
    } else if reg == 6 || reg == 8 || reg == 9 || reg == 10 {
        0x1f
    } else {
        0xff
    }
}

/// Gate mask for three disable bits (bit i disables channel i): the 5-bit
/// field of every disabled channel is all ones, that of an enabled one zero.
pub open spec fn gate_mask_spec(bits: int) -> u32 {
    ((if bits % 2 == 1 { 0x1fu32 } else { 0u32 }) | (if (bits / 2) % 2 == 1 { 0x3e0u32 } else { 0u32 })
        | (if (bits / 4) % 2 == 1 { 0x7c00u32 } else { 0u32 }))
}

/// Gate mask for a 3-bit channel disable field of register R7.
pub fn gate_mask(bits: u8) -> (r: u32)
    requires
        bits < 8,
    ensures
        r == gate_mask_spec(bits as int),
{
    let a: u32 = if bits % 2 == 1 { 0x1f } else { 0 };
    let b: u32 = if (bits / 2) % 2 == 1 { 0x3e0 } else { 0 };
    let c: u32 = if (bits / 4) % 2 == 1 { 0x7c00 } else { 0 };
    a | b | c
}

/// Which of the ten distinct envelope patterns a shape register value (0..15) plays.
pub open spec fn shape_to_env_spec(shape: int) -> int {
    if shape < 4 {
        0
    } else if shape < 8 {
        1
    } else {
        shape - 6
    }
}

/// Which of the ten distinct envelope patterns a shape register value plays.
pub fn shape_to_env(shape: u8) -> (r: u8)
    requires
        shape < 16,
    ensures
        r == shape_to_env_spec(shape as int),
        r < 10,
{
    if shape < 4 {
        0
    } else if shape < 8 {
        1
    } else {
        shape - 6
    }
}

/// A phase of an envelope pattern: 32 steps falling (0), rising (1), held low (2) or held high (3).
pub open spec fn env_phase_kind(env: int, phase: int) -> int {
    if env == 0 || env == 3 {
        // \___
        if phase == 0 { 0 } else { 2 }
    } else if env == 1 || env == 9 {
        // /___
        if phase == 0 { 1 } else { 2 }
    } else if env == 2 {
        // \\\\
        0
    } else if env == 4 {
        // \/\/
        if phase % 2 == 0 { 0 } else { 1 }
    } else if env == 5 {
        // \¯¯¯
        if phase == 0 { 0 } else { 3 }
    } else if env == 6 {
        // ////
        1
    } else if env == 7 {
        // /¯¯¯
        if phase == 0 { 1 } else { 3 }
    } else {
        // /\/\
        if phase % 2 == 0 { 1 } else { 0 }
    }
}

/// Level (0..31) of step `step` (0..31) of a phase of the given kind.
pub open spec fn env_step_value(kind: int, step: int) -> int {
    if kind == 0 {
        31 - step
    } else if kind == 1 {
        step
    } else if kind == 2 {
        0
    } else {
        31
    }
}

/// Number of entries of the envelope table: 10 patterns of 4 phases of 32 steps.
pub const ENV_DATA_LEN: usize = 1280;

/// Entry `index` of the envelope table: pattern `index / 128`, phase
/// `(index % 128) / 32`, step `index % 32`.
pub open spec fn env_data_spec(index: int) -> int {
    env_step_value(env_phase_kind(index / 128, (index % 128) / 32), index % 32)
}

/// Entry `index` of the envelope table.
pub fn env_data(index: usize) -> (r: u8)
    requires
        index < ENV_DATA_LEN,
    ensures
        r as int == env_data_spec(index as int),
        r < 32,
{
    let env = index / 128;
    let phase = (index % 128) / 32;
    let step = (index % 32) as u8;
    let kind: u8 = if env == 0 || env == 3 {
        if phase == 0 { 0 } else { 2 }
    } else if env == 1 || env == 9 {
        if phase == 0 { 1 } else { 2 }
    } else if env == 2 {
        0
    } else if env == 4 {
        if phase % 2 == 0 { 0 } else { 1 }
    } else if env == 5 {
        if phase == 0 { 0 } else { 3 }
    } else if env == 6 {
        1
    } else if env == 7 {
        if phase == 0 { 1 } else { 3 }
    } else {
        if phase % 2 == 0 { 1 } else { 0 }
    };
    if kind == 0 {
        31 - step
    } else if kind == 1 {
        step
    } else if kind == 2 {
        0
    } else {
        31
    }
}

/// Level (0..31) at step `i` (0..127) of the envelope of shape register
/// value `shape` (0..15), from its four control bits: Continue (bit 3),
/// Attack (bit 2), Alternate (bit 1) and Hold (bit 0). The first 32 steps
/// rise with Attack and fall without it. After them: without Continue the
/// level stays 0; with Hold it stays at the top when Attack and Alternate
/// differ and at the bottom otherwise; else each further 32 steps repeat
/// the first, reversed on every second one when Alternate is set.
pub open spec fn shape_level(shape: int, i: int) -> int {
    let cont = (shape / 8) % 2 == 1;
    let attack = (shape / 4) % 2 == 1;
    let alternate = (shape / 2) % 2 == 1;
    let hold = shape % 2 == 1;
    let p = i / 32;
    let k = i % 32;
    if p == 0 {
        if attack { k } else { 31 - k }
    } else if !cont {
        0
    } else if hold {
        if attack != alternate { 31 } else { 0 }
    } else {
        let rising = if alternate && p % 2 == 1 { !attack } else { attack };
        if rising { k } else { 31 - k }
    }
}

/// Entry `e * 128 + i` of the table splits into pattern `e` and step `i`.
proof fn lemma_env_index(e: int, i: int)
    requires
        0 <= e < 10,
        0 <= i < 128,
    ensures
        (e * 128 + i) / 128 == e,
        (e * 128 + i) % 128 == i,
        i / 32 < 4,
{
    vstd::arithmetic::div_mod::lemma_fundamental_div_mod_converse(e * 128 + i, 128, e, i);
}

/// The envelope table plays the 16 shapes of register 13 as the chip's
/// control bits define them (see [`shape_level`]): for each shape value,
/// the 128 entries of its pattern are that shape's levels.
pub proof fn lemma_envelope_shapes(shape: int, i: int)
    requires
        0 <= shape < 16,
        0 <= i < 128,
    ensures
        env_data_spec(shape_to_env_spec(shape) * 128 + i) == shape_level(shape, i),
{
    let e = shape_to_env_spec(shape);
    lemma_env_index(e, i);
    let p = i / 32;
    let k = i % 32;
    assert(env_data_spec(e * 128 + i) == env_step_value(env_phase_kind(e, p), k));
    assert(0 <= p < 4);
    if shape < 8 {
        assert((shape / 8) % 2 == 0);
    } else {
        assert((shape / 8) % 2 == 1);
    }
}

/// Output level of each of the 16 amplitude register values (STSound scale, 1/3 of full range).
pub const VOLUME_TABLE: [u16; 16] = [
    20, 53, 88, 125, 193, 258, 385, 525, 753, 1029, 1523, 2077, 3110, 4395, 7073, 10922,
];

/// Entry `i` of [`VOLUME_TABLE`].
pub open spec fn volume_table_spec(i: int) -> int {
    if i == 0 { 20 }
    else if i == 1 { 53 }
    else if i == 2 { 88 }
    else if i == 3 { 125 }
    else if i == 4 { 193 }
    else if i == 5 { 258 }
    else if i == 6 { 385 }
    else if i == 7 { 525 }
    else if i == 8 { 753 }
    else if i == 9 { 1029 }
    else if i == 10 { 1523 }
    else if i == 11 { 2077 }
    else if i == 12 { 3110 }
    else if i == 13 { 4395 }
    else if i == 14 { 7073 }
    else { 10922 }
}

/// Highest output level of one channel.
pub const MAX_LEVEL: u32 = 10922;

/// Output level of 5-bit DAC step `index` (0..31): the amplitude of the
/// 4-bit step it refines.
pub open spec fn log_level_spec(index: int) -> int {
    volume_table_spec(index / 2)
}

/// Output level of 5-bit DAC step `index`.
pub fn log_level(index: u32) -> (r: u32)
    requires
        index < 32,
    ensures
        r as int == log_level_spec(index as int),
        r <= MAX_LEVEL,
{
    let i = index / 2;
    if i == 0 { 20 }
    else if i == 1 { 53 }
    else if i == 2 { 88 }
    else if i == 3 { 125 }
    else if i == 4 { 193 }
    else if i == 5 { 258 }
    else if i == 6 { 385 }
    else if i == 7 { 525 }
    else if i == 8 { 753 }
    else if i == 9 { 1029 }
    else if i == 10 { 1523 }
    else if i == 11 { 2077 }
    else if i == 12 { 3110 }
    else if i == 13 { 4395 }
    else if i == 14 { 7073 }
    else { 10922 }
}

/// The volume table grows strictly with the amplitude register value.
pub proof fn lemma_volume_table_increasing(i: int, j: int)
    requires
        0 <= i < j < 16,
    ensures
        volume_table_spec(i) < volume_table_spec(j),
{
}

/// [`VOLUME_TABLE`] holds the values that [`volume_table_spec`] names.
pub proof fn lemma_volume_table_matches(i: int)
    requires
        0 <= i < 16,
    ensures
        VOLUME_TABLE@[i] as int == volume_table_spec(i),
{
    assert(VOLUME_TABLE@ =~= seq![20u16, 53, 88, 125, 193, 258, 385, 525, 753, 1029, 1523, 2077, 3110, 4395, 7073, 10922]);
}

} // verus!
