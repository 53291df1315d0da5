//! Voice state of the GIST driver and the per-tick envelope and LFO rules,
//! with the 68000 arithmetic of the original driver (wrapping 32-bit adds,
//! signed compares, 16-bit multiplies).

use vstd::prelude::*;
use crate::gist::sound::GistSound;

verus! {

/// Wrapping 32-bit addition.
pub open spec fn wadd(a: i32, b: i32) -> i32 {
    vstd::wrapping::i32_specs::wrapping_add(a, b)
}

/// Wrapping 32-bit negation.
pub open spec fn wneg(a: i32) -> i32 {
    vstd::wrapping::i32_specs::wrapping_sub(0, a)
}

/// High word of a 32-bit value, as a signed 16-bit number.
pub open spec fn hi16(x: i32) -> i16 {
    (x >> 16i32) as i16
}

/// One voice of the driver (the 140-byte voice record of the original).
#[derive(Clone, Copy, Debug, Default)]
pub struct Voice {
    pub inuse: i16,
    pub freq: i16,
    pub noise_freq: i16,
    pub volume: i16,
    pub vol_phase: i16,
    pub vol_attack: i32,
    pub vol_decay: i32,
    pub vol_sustain: i32,
    pub vol_release: i32,
    pub vol_lfo_limit: i32,
    pub vol_lfo_step: i32,
    pub vol_lfo_delay: i16,
    pub freq_phase: i16,
    pub freq_attack: i32,
    pub freq_attack_target: i32,
    pub freq_decay: i32,
    pub freq_decay_target: i32,
    pub freq_release: i32,
    pub freq_lfo_limit: i32,
    pub freq_lfo_step: i32,
    pub freq_lfo_reset_pos: i32,
    pub freq_lfo_limit_neg: i32,
    pub freq_lfo_reset_neg: i32,
    pub freq_lfo_delay: i16,
    pub noise_phase: i16,
    pub noise_attack: i32,
    pub noise_attack_target: i32,
    pub noise_decay: i32,
    pub noise_decay_target: i32,
    pub noise_release: i32,
    pub noise_lfo_limit: i32,
    pub noise_lfo_step: i32,
    pub noise_lfo_delay: i16,
    pub pitch: i16,
    pub priority: i16,
    pub vol_env_acc: i32,
    pub vol_lfo_acc: i32,
    pub freq_env_acc: i32,
    pub freq_lfo_acc: i32,
    pub noise_env_acc: i32,
    pub noise_lfo_acc: i32,
}

/// A voice loaded with sound `tpl`: every sound parameter copied, the volume
/// taken from `volume` when given, pitch and priority set, accumulators cleared.
pub open spec fn voice_from_sound(v: Voice, tpl: GistSound, pitch: i16, priority: i16, volume: Option<i16>) -> Voice {
    Voice {
        inuse: v.inuse,
        freq: tpl.initial_freq,
        noise_freq: tpl.initial_noise_freq,
        volume: if volume is Some { volume->0 } else { tpl.initial_volume },
        vol_phase: tpl.vol_phase,
        vol_attack: tpl.vol_attack,
        vol_decay: tpl.vol_decay,
        vol_sustain: tpl.vol_sustain,
        vol_release: tpl.vol_release,
        vol_lfo_limit: tpl.vol_lfo_limit,
        vol_lfo_step: tpl.vol_lfo_step,
        vol_lfo_delay: tpl.vol_lfo_delay,
        freq_phase: tpl.freq_env_phase,
        freq_attack: tpl.freq_attack,
        freq_attack_target: tpl.freq_attack_target,
        freq_decay: tpl.freq_decay,
        freq_decay_target: tpl.freq_decay_target,
        freq_release: tpl.freq_release,
        freq_lfo_limit: tpl.freq_lfo_limit,
        freq_lfo_step: tpl.freq_lfo_step,
        freq_lfo_reset_pos: tpl.freq_lfo_reset_positive,
        freq_lfo_limit_neg: tpl.freq_lfo_negative_limit,
        freq_lfo_reset_neg: tpl.freq_lfo_reset_negative,
        freq_lfo_delay: tpl.freq_lfo_delay,
        noise_phase: tpl.noise_env_phase,
        noise_attack: tpl.noise_attack,
        noise_attack_target: tpl.noise_attack_target,
        noise_decay: tpl.noise_decay,
        noise_decay_target: tpl.noise_decay_target,
        noise_release: tpl.noise_release,
        noise_lfo_limit: tpl.noise_lfo_limit,
        noise_lfo_step: tpl.noise_lfo_step,
        noise_lfo_delay: tpl.noise_lfo_delay,
        pitch,
        priority,
        vol_env_acc: 0,
        vol_lfo_acc: 0,
        freq_env_acc: 0,
        freq_lfo_acc: 0,
        noise_env_acc: 0,
        noise_lfo_acc: 0,
    }
}

impl Voice {
    /// Loads sound `tpl` into the voice (see [`voice_from_sound`]).
    pub fn from_sound(&mut self, tpl: &GistSound, pitch: i16, priority: i16, volume: Option<i16>)
        ensures
            *final(self) == voice_from_sound(*old(self), *tpl, pitch, priority, volume),
    {
        let vol = match volume {
            Some(v) => v,
            None => tpl.initial_volume,
        };
        *self = Voice {
            inuse: self.inuse,
            freq: tpl.initial_freq,
            noise_freq: tpl.initial_noise_freq,
            volume: vol,
            vol_phase: tpl.vol_phase,
            vol_attack: tpl.vol_attack,
            vol_decay: tpl.vol_decay,
            vol_sustain: tpl.vol_sustain,
            vol_release: tpl.vol_release,
            vol_lfo_limit: tpl.vol_lfo_limit,
            vol_lfo_step: tpl.vol_lfo_step,
            vol_lfo_delay: tpl.vol_lfo_delay,
            freq_phase: tpl.freq_env_phase,
            freq_attack: tpl.freq_attack,
            freq_attack_target: tpl.freq_attack_target,
            freq_decay: tpl.freq_decay,
            freq_decay_target: tpl.freq_decay_target,
            freq_release: tpl.freq_release,
            freq_lfo_limit: tpl.freq_lfo_limit,
            freq_lfo_step: tpl.freq_lfo_step,
            freq_lfo_reset_pos: tpl.freq_lfo_reset_positive,
            freq_lfo_limit_neg: tpl.freq_lfo_negative_limit,
            freq_lfo_reset_neg: tpl.freq_lfo_reset_negative,
            freq_lfo_delay: tpl.freq_lfo_delay,
            noise_phase: tpl.noise_env_phase,
            noise_attack: tpl.noise_attack,
            noise_attack_target: tpl.noise_attack_target,
            noise_decay: tpl.noise_decay,
            noise_decay_target: tpl.noise_decay_target,
            noise_release: tpl.noise_release,
            noise_lfo_limit: tpl.noise_lfo_limit,
            noise_lfo_step: tpl.noise_lfo_step,
            noise_lfo_delay: tpl.noise_lfo_delay,
            pitch,
            priority,
            vol_env_acc: 0,
            vol_lfo_acc: 0,
            freq_env_acc: 0,
            freq_lfo_acc: 0,
            noise_env_acc: 0,
            noise_lfo_acc: 0,
        };
    }
}

/// Attack/decay step of a frequency or noise envelope: add the step; when
/// the target is reached or passed (in the step's direction, judged by the
/// sign of its high word) clamp to the target and report the phase done.
pub open spec fn target_step(acc: i32, step: i32, target: i32) -> (i32, bool) {
    let d = wadd(acc, step);
    if hi16(step) >= 0 {
        if d >= target { (target, true) } else { (d, false) }
    } else {
        if d <= target { (target, true) } else { (d, false) }
    }
}

/// Attack/decay step of a frequency or noise envelope.
pub fn env_target_step(acc: i32, step: i32, target: i32) -> (r: (i32, bool))
    ensures
        r == target_step(acc, step, target),
{
    let d = acc.wrapping_add(step);
    let step_hi = (step >> 16) as i16;
    if step_hi >= 0 {
        if d >= target { (target, true) } else { (d, false) }
    } else {
        if d <= target { (target, true) } else { (d, false) }
    }
}

/// Release step of a frequency or noise envelope: add the step and stop at
/// zero (from above for a non-negative step, from below for a negative one).
pub open spec fn release_step(acc: i32, step: i32) -> i32 {
    let d = wadd(acc, step);
    if hi16(step) >= 0 {
        if d >= 0 { 0 } else { d }
    } else {
        if d <= 0 { 0 } else { d }
    }
}

/// Release step of a frequency or noise envelope.
pub fn env_release_step(acc: i32, step: i32) -> (r: i32)
    ensures
        r == release_step(acc, step),
{
    let d = acc.wrapping_add(step);
    let step_hi = (step >> 16) as i16;
    if step_hi >= 0 {
        if d >= 0 { 0 } else { d }
    } else {
        if d <= 0 { 0 } else { d }
    }
}

/// Step of a symmetric LFO (volume and noise): add the step; at +limit or
/// beyond clamp and reverse, at -limit or beyond clamp and reverse.
/// Returns the new accumulator and step.
pub open spec fn sym_lfo_step(acc: i32, step: i32, limit: i32) -> (i32, i32) {
    let l = wadd(acc, step);
    if l >= limit {
        (limit, wneg(step))
    } else if l <= wneg(limit) {
        (wneg(limit), wneg(step))
    } else {
        (l, step)
    }
}

/// Step of a symmetric LFO.
pub fn lfo_sym_step(acc: i32, step: i32, limit: i32) -> (r: (i32, i32))
    ensures
        r == sym_lfo_step(acc, step, limit),
{
    let lfo = acc.wrapping_add(step);
    if lfo >= limit {
        (limit, 0i32.wrapping_sub(step))
    } else {
        let neg_limit = 0i32.wrapping_sub(limit);
        if lfo <= neg_limit {
            (neg_limit, 0i32.wrapping_sub(step))
        } else {
            (lfo, step)
        }
    }
}

/// The volume envelope after one tick: attack rises to 0x000F0000, decay
/// falls to the sustain level, release falls to zero (which ends the
/// envelope and leaves one tick of life); phases 0 and 3 hold.
pub open spec fn vol_env_tick(v: Voice) -> Voice {
    if v.vol_phase == 1 {
        let d = wadd(v.vol_env_acc, v.vol_attack);
        if d >= 0x000F_0000 {
            Voice { vol_env_acc: 0x000F_0000, vol_phase: 2, ..v }
        } else {
            Voice { vol_env_acc: d, ..v }
        }
    } else if v.vol_phase == 2 {
        let d = wadd(v.vol_env_acc, v.vol_decay);
        if d <= v.vol_sustain {
            Voice { vol_env_acc: v.vol_sustain, vol_phase: 3, ..v }
        } else {
            Voice { vol_env_acc: d, ..v }
        }
    } else if v.vol_phase == 4 {
        let d = wadd(v.vol_env_acc, v.vol_release);
        if d <= 0 {
            Voice { vol_env_acc: 0, vol_phase: 0, inuse: 1, ..v }
        } else {
            Voice { vol_env_acc: d, ..v }
        }
    } else {
        v
    }
}

/// The volume envelope's phases, tick by tick: an attack never passes
/// 0x000F0000 and ends exactly there, going into decay; a decay never
/// falls below the sustain level and ends exactly on it, going into
/// sustain; a release ends at zero with one tick of life left; sustain and
/// no envelope hold the level. Only the accumulator, the phase and (at the
/// end of a release) the count change.
pub proof fn lemma_vol_env_phases(v: Voice)
    ensures
        ({
            let w = vol_env_tick(v);
            &&& w == (Voice { vol_env_acc: w.vol_env_acc, vol_phase: w.vol_phase, inuse: w.inuse, ..v })
            &&& v.vol_phase != 4 ==> w.inuse == v.inuse
            &&& v.vol_phase == 1 ==> (w.vol_phase == 1 || w.vol_phase == 2)
            &&& v.vol_phase == 1 && w.vol_phase == 2 ==> w.vol_env_acc == 0x000F_0000
            &&& v.vol_phase == 1 && w.vol_phase == 1 ==> w.vol_env_acc < 0x000F_0000
            &&& v.vol_phase == 2 ==> (w.vol_phase == 2 || w.vol_phase == 3)
            &&& v.vol_phase == 2 && w.vol_phase == 3 ==> w.vol_env_acc == v.vol_sustain
            &&& v.vol_phase == 2 && w.vol_phase == 2 ==> w.vol_env_acc > v.vol_sustain
            &&& v.vol_phase == 4 && w.vol_phase == 0 ==> w.vol_env_acc == 0 && w.inuse == 1
            &&& v.vol_phase == 4 && w.vol_phase == 4 ==> w.vol_env_acc > 0
            &&& v.vol_phase == 4 ==> (w.vol_phase == 4 || w.vol_phase == 0)
            &&& !(v.vol_phase == 1 || v.vol_phase == 2 || v.vol_phase == 4) ==> w == v
        }),
{
}

/// The volume LFO after one tick: idle when its limit is zero, counting down
/// its delay first, else one symmetric LFO step.
pub open spec fn vol_lfo_tick(v: Voice) -> Voice {
    if v.vol_lfo_limit == 0 {
        v
    } else if v.vol_lfo_delay > 0 {
        Voice { vol_lfo_delay: (v.vol_lfo_delay - 1) as i16, ..v }
    } else {
        let (acc, step) = sym_lfo_step(v.vol_lfo_acc, v.vol_lfo_step, v.vol_lfo_limit);
        Voice { vol_lfo_acc: acc, vol_lfo_step: step, ..v }
    }
}

/// 15ths scaled to 256: the volume multipliers of the original driver.
pub open spec fn div15(i: int) -> int {
    if i == 0 { 0 } else if i == 15 { 256 } else { 1 + 17 * i }
}

/// The volume register value written for a voice: the clamped volume's
/// multiplier times bits 8..23 of envelope + LFO (16-bit multiply, high
/// word), limited to 0..15; zero when envelope + LFO is negative.
pub open spec fn vol_level(v: Voice) -> u8 {
    let vi: int = if v.volume < 0 { 0 } else if v.volume > 15 { 15 } else { v.volume as int };
    let d1 = wadd(v.vol_env_acc, v.vol_lfo_acc);
    if d1 < 0 {
        0
    } else {
        let prod = ((div15(vi) as i16 as i32) * ((d1 >> 8i32) as i16 as i32)) as i32;
        let hi = (prod >> 16i32) & 0xffffi32;
        let d0 = if hi > 0x7fff { hi as i16 as i32 } else { hi };
        if d0 > 15 { 15 } else if d0 < 0 { 0 } else { d0 as u8 }
    }
}

/// The frequency envelope after one tick (attack and decay towards their
/// targets, release towards zero; other phases hold).
pub open spec fn freq_env_tick(v: Voice) -> Voice {
    if v.freq_phase == 1 {
        let (d, done) = target_step(v.freq_env_acc, v.freq_attack, v.freq_attack_target);
        Voice { freq_env_acc: d, freq_phase: if done { 2 } else { 1 }, ..v }
    } else if v.freq_phase == 2 {
        let (d, done) = target_step(v.freq_env_acc, v.freq_decay, v.freq_decay_target);
        Voice { freq_env_acc: d, freq_phase: if done { 3 } else { 2 }, ..v }
    } else if v.freq_phase == 4 {
        Voice { freq_env_acc: release_step(v.freq_env_acc, v.freq_release), ..v }
    } else {
        v
    }
}

/// The frequency LFO after one tick: idle when its limit is zero, counting
/// down its delay first; else the step is added as an unsigned 32-bit sum.
/// In the positive direction a carry swaps in the positive reset step, and
/// reaching the limit clamps and reverses; in the negative direction no
/// carry swaps in the negative reset step, and reaching the negative limit
/// clamps and reverses.
pub open spec fn freq_lfo_tick(v: Voice) -> Voice {
    if v.freq_lfo_limit == 0 {
        v
    } else if v.freq_lfo_delay > 0 {
        Voice { freq_lfo_delay: (v.freq_lfo_delay - 1) as i16, ..v }
    } else {
        let sum: int = (v.freq_lfo_step as u32) + (v.freq_lfo_acc as u32);
        let carry = sum > u32::MAX;
        let l = (sum % 0x1_0000_0000) as u32 as i32;
        if v.freq_lfo_step >= 0 {
            let step = if carry { v.freq_lfo_reset_pos } else { v.freq_lfo_step };
            if l >= v.freq_lfo_limit {
                Voice { freq_lfo_acc: v.freq_lfo_limit, freq_lfo_step: wneg(step), ..v }
            } else {
                Voice { freq_lfo_acc: l, freq_lfo_step: step, ..v }
            }
        } else {
            let step = if !carry { v.freq_lfo_reset_neg } else { v.freq_lfo_step };
            if l <= v.freq_lfo_limit_neg {
                Voice { freq_lfo_acc: v.freq_lfo_limit_neg, freq_lfo_step: wneg(step), ..v }
            } else {
                Voice { freq_lfo_acc: l, freq_lfo_step: step, ..v }
            }
        }
    }
}

/// The tone period written for a voice: its base period scaled by the high
/// word of envelope + LFO (period * offset * 16 / 65536, rounded towards
/// zero), added to the base period and limited to 0..0x0FFF.
pub open spec fn freq_value(v: Voice) -> int {
    let combined = wadd(v.freq_lfo_acc, v.freq_env_acc);
    let hi = ((combined as u32) >> 16u32) as i16;
    let p = vstd::wrapping::i32_specs::wrapping_shl(((hi as i32) * (v.freq as i32)) as i32, 4);
    let q = ((p as u32) >> 16u32) as i16 as i32;
    let q2 = if q < 0 { (q + 1) as i32 } else { q };
    let d = vstd::wrapping::i16_specs::wrapping_add(q2 as i16, v.freq) as i32;
    if d < 0 { 0 } else if d > 0x0fff { 0x0fff } else { d as int }
}

/// The noise envelope after one tick.
pub open spec fn noise_env_tick(v: Voice) -> Voice {
    if v.noise_phase == 1 {
        let (d, done) = target_step(v.noise_env_acc, v.noise_attack, v.noise_attack_target);
        Voice { noise_env_acc: d, noise_phase: if done { 2 } else { 1 }, ..v }
    } else if v.noise_phase == 2 {
        let (d, done) = target_step(v.noise_env_acc, v.noise_decay, v.noise_decay_target);
        Voice { noise_env_acc: d, noise_phase: if done { 3 } else { 2 }, ..v }
    } else if v.noise_phase == 4 {
        Voice { noise_env_acc: release_step(v.noise_env_acc, v.noise_release), ..v }
    } else {
        v
    }
}

/// The noise LFO after one tick (as the volume LFO).
pub open spec fn noise_lfo_tick(v: Voice) -> Voice {
    if v.noise_lfo_limit == 0 {
        v
    } else if v.noise_lfo_delay > 0 {
        Voice { noise_lfo_delay: (v.noise_lfo_delay - 1) as i16, ..v }
    } else {
        let (acc, step) = sym_lfo_step(v.noise_lfo_acc, v.noise_lfo_step, v.noise_lfo_limit);
        Voice { noise_lfo_acc: acc, noise_lfo_step: step, ..v }
    }
}

/// The noise period written for a voice: base period plus the high word of
/// envelope + LFO, limited to 0..31.
pub open spec fn noise_value(v: Voice) -> int {
    let combined = wadd(v.noise_lfo_acc, v.noise_env_acc);
    let hi = ((combined as u32) >> 16u32) as i16;
    let d = hi + v.noise_freq;
    if d < 0 { 0 } else if d > 31 { 31 } else { d }
}

/// Reverses a release step unless it already points against the accumulator.
pub open spec fn release_towards_zero(release: i32, acc: i32) -> i32 {
    if (hi16(release) ^ hi16(acc)) >= 0 { wneg(release) } else { release }
}

/// The voice after the duration count of one tick. A voice with a pitch
/// (pitch >= 0) is held. Otherwise the count drops by one; on reaching zero
/// the priority clears, and a voice with a volume envelope goes into release
/// (count -1, every envelope to phase 4 with its release pointed at zero),
/// while one without is silenced.
pub open spec fn duration_tick(v: Voice) -> Voice {
    if v.pitch >= 0 {
        v
    } else {
        let n = vstd::wrapping::i16_specs::wrapping_sub(v.inuse, 1);
        if n != 0 {
            Voice { inuse: n, ..v }
        } else if v.vol_phase == 0 {
            Voice { inuse: 0, priority: 0, ..v }
        } else {
            let f = if v.freq_phase != 0 { 4i16 } else { 0i16 };
            let fr = if v.freq_phase != 0 { release_towards_zero(v.freq_release, v.freq_env_acc) } else { v.freq_release };
            let np = if v.noise_phase != 0 { 4i16 } else { 0i16 };
            let nr = if v.noise_phase != 0 { release_towards_zero(v.noise_release, v.noise_env_acc) } else { v.noise_release };
            Voice {
                inuse: -1i16,
                priority: 0,
                vol_phase: 4,
                freq_phase: f,
                freq_release: fr,
                noise_phase: np,
                noise_release: nr,
                ..v
            }
        }
    }
}


/// Volume multipliers (15ths scaled to 256), indexed by volume 0..15.
pub const DIV_15: [i16; 16] = [0, 18, 35, 52, 69, 86, 103, 120, 137, 154, 171, 188, 205, 222, 239, 256];

impl Voice {
    /// One tick of the volume envelope (see [`vol_env_tick`]).
    pub(crate) fn tick_vol_env(&mut self)
        ensures
            *final(self) == vol_env_tick(*old(self)),
    {
        if self.vol_phase == 1 {
            let d = self.vol_env_acc.wrapping_add(self.vol_attack);
            if d >= 0x000F_0000 {
                self.vol_env_acc = 0x000F_0000;
                self.vol_phase = 2;
            } else {
                self.vol_env_acc = d;
            }
        } else if self.vol_phase == 2 {
            let d = self.vol_env_acc.wrapping_add(self.vol_decay);
            if d <= self.vol_sustain {
                self.vol_env_acc = self.vol_sustain;
                self.vol_phase = 3;
            } else {
                self.vol_env_acc = d;
            }
        } else if self.vol_phase == 4 {
            let d = self.vol_env_acc.wrapping_add(self.vol_release);
            if d <= 0 {
                self.vol_env_acc = 0;
                self.vol_phase = 0;
                self.inuse = 1;
            } else {
                self.vol_env_acc = d;
            }
        }
    }

    /// One tick of the volume LFO (see [`vol_lfo_tick`]).
    pub(crate) fn tick_vol_lfo(&mut self)
        ensures
            *final(self) == vol_lfo_tick(*old(self)),
    {
        if self.vol_lfo_limit != 0 {
            if self.vol_lfo_delay > 0 {
                self.vol_lfo_delay = self.vol_lfo_delay - 1;
            } else {
                let (acc, step) = lfo_sym_step(self.vol_lfo_acc, self.vol_lfo_step, self.vol_lfo_limit);
                self.vol_lfo_acc = acc;
                self.vol_lfo_step = step;
            }
        }
    }

    /// The volume register value for this voice (see [`vol_level`]).
    pub(crate) fn volume_level(&self) -> (r: u8)
        ensures
            r == vol_level(*self),
    {
        let vol_idx: usize = if self.volume < 0 { 0 } else if self.volume > 15 { 15 } else { self.volume as usize };
        assert(DIV_15@ =~= seq![0i16, 18, 35, 52, 69, 86, 103, 120, 137, 154, 171, 188, 205, 222, 239, 256]);
        let mut d0: i32 = DIV_15[vol_idx] as i32;
        assert(d0 == div15(vol_idx as int));
        let d1 = self.vol_env_acc.wrapping_add(self.vol_lfo_acc);
        if d1 < 0 {
            0
        } else {
            let shifted = d1 >> 8;
            let d1_lo = shifted as i16;
            let d0_lo = d0 as i16;
            let a = d0_lo as i32;
            let b = d1_lo as i32;
            assert(-0x4000_0000 <= a * b <= 0x4000_0000) by (nonlinear_arith)
                requires
                    -32768 <= a <= 32767,
                    -32768 <= b <= 32767,
            ;
            d0 = a * b;
            d0 = (d0 >> 16) & 0xffff;
            if d0 > 0x7fff {
                d0 = (d0 as i16) as i32;
            }
            if d0 > 15 {
                15
            } else if d0 < 0 {
                0
            } else {
                d0 as u8
            }
        }
    }

    /// One tick of the frequency envelope (see [`freq_env_tick`]).
    pub(crate) fn tick_freq_env(&mut self)
        ensures
            *final(self) == freq_env_tick(*old(self)),
    {
        if self.freq_phase == 1 {
            let (d, done) = env_target_step(self.freq_env_acc, self.freq_attack, self.freq_attack_target);
            self.freq_env_acc = d;
            if done {
                self.freq_phase = 2;
            }
        } else if self.freq_phase == 2 {
            let (d, done) = env_target_step(self.freq_env_acc, self.freq_decay, self.freq_decay_target);
            self.freq_env_acc = d;
            if done {
                self.freq_phase = 3;
            }
        } else if self.freq_phase == 4 {
            self.freq_env_acc = env_release_step(self.freq_env_acc, self.freq_release);
        }
    }

    /// One tick of the frequency LFO (see [`freq_lfo_tick`]).
    pub(crate) fn tick_freq_lfo(&mut self)
        ensures
            *final(self) == freq_lfo_tick(*old(self)),
    {
        if self.freq_lfo_limit != 0 {
            if self.freq_lfo_delay > 0 {
                self.freq_lfo_delay = self.freq_lfo_delay - 1;
            } else {
                let step = self.freq_lfo_step;
                let sum: u64 = (step as u32) as u64 + (self.freq_lfo_acc as u32) as u64;
                let carry = sum > 0xffff_ffff;
                let lfo = (sum % 0x1_0000_0000) as u32 as i32;
                if step >= 0 {
                    if carry {
                        self.freq_lfo_step = self.freq_lfo_reset_pos;
                    }
                    let limit = self.freq_lfo_limit;
                    if lfo >= limit {
                        self.freq_lfo_acc = limit;
                        self.freq_lfo_step = 0i32.wrapping_sub(self.freq_lfo_step);
                    } else {
                        self.freq_lfo_acc = lfo;
                    }
                } else {
                    let neg_limit = self.freq_lfo_limit_neg;
                    if !carry {
                        self.freq_lfo_step = self.freq_lfo_reset_neg;
                    }
                    if lfo <= neg_limit {
                        self.freq_lfo_acc = neg_limit;
                        self.freq_lfo_step = 0i32.wrapping_sub(self.freq_lfo_step);
                    } else {
                        self.freq_lfo_acc = lfo;
                    }
                }
            }
        }
    }

    /// The tone period for this voice (see [`freq_value`]).
    pub(crate) fn frequency_value(&self) -> (r: u16)
        ensures
            r as int == freq_value(*self),
            r <= 0x0fff,
    {
        let combined = self.freq_lfo_acc.wrapping_add(self.freq_env_acc);
        let hi = ((combined as u32) >> 16) as i16;
        let a = hi as i32;
        let b = self.freq as i32;
        assert(-0x4000_0000 <= a * b <= 0x4000_0000) by (nonlinear_arith)
            requires
                -32768 <= a <= 32767,
                -32768 <= b <= 32767,
        ;
        let mut d0: i32 = (a * b).wrapping_shl(4);
        d0 = ((d0 as u32) >> 16) as i16 as i32;
        if d0 < 0 {
            d0 = d0 + 1;
        }
        d0 = ((d0 as i16).wrapping_add(self.freq)) as i32;
        if d0 < 0 {
            d0 = 0;
        }
        if d0 > 0x0fff {
            d0 = 0x0fff;
        }
        d0 as u16
    }

    /// One tick of the noise envelope (see [`noise_env_tick`]).
    pub(crate) fn tick_noise_env(&mut self)
        ensures
            *final(self) == noise_env_tick(*old(self)),
    {
        if self.noise_phase == 1 {
            let (d, done) = env_target_step(self.noise_env_acc, self.noise_attack, self.noise_attack_target);
            self.noise_env_acc = d;
            if done {
                self.noise_phase = 2;
            }
        } else if self.noise_phase == 2 {
            let (d, done) = env_target_step(self.noise_env_acc, self.noise_decay, self.noise_decay_target);
            self.noise_env_acc = d;
            if done {
                self.noise_phase = 3;
            }
        } else if self.noise_phase == 4 {
            self.noise_env_acc = env_release_step(self.noise_env_acc, self.noise_release);
        }
    }

    /// One tick of the noise LFO (see [`noise_lfo_tick`]).
    pub(crate) fn tick_noise_lfo(&mut self)
        ensures
            *final(self) == noise_lfo_tick(*old(self)),
    {
        if self.noise_lfo_limit != 0 {
            if self.noise_lfo_delay > 0 {
                self.noise_lfo_delay = self.noise_lfo_delay - 1;
            } else {
                let (acc, step) = lfo_sym_step(self.noise_lfo_acc, self.noise_lfo_step, self.noise_lfo_limit);
                self.noise_lfo_acc = acc;
                self.noise_lfo_step = step;
            }
        }
    }

    /// The noise period for this voice (see [`noise_value`]).
    pub(crate) fn noise_period_value(&self) -> (r: u8)
        ensures
            r as int == noise_value(*self),
            r <= 31,
    {
        let combined = self.noise_lfo_acc.wrapping_add(self.noise_env_acc);
        let hi = ((combined as u32) >> 16) as i16;
        let mut d0 = (hi as i32) + (self.noise_freq as i32);
        if d0 < 0 {
            d0 = 0;
        }
        if d0 > 31 {
            d0 = 31;
        }
        d0 as u8
    }

    /// Reverses a release step unless it already points against the accumulator.
    fn towards_zero(release: i32, acc: i32) -> (r: i32)
        ensures
            r == release_towards_zero(release, acc),
    {
        let release_hi = (release >> 16) as i16;
        let acc_hi = (acc >> 16) as i16;
        if (release_hi ^ acc_hi) >= 0 {
            0i32.wrapping_sub(release)
        } else {
            release
        }
    }

    /// The duration count of one tick (see [`duration_tick`]); returns whether
    /// the voice was silenced (its volume register must be cleared).
    pub(crate) fn tick_duration(&mut self) -> (silenced: bool)
        ensures
            *final(self) == duration_tick(*old(self)),
            silenced == (old(self).pitch < 0 && vstd::wrapping::i16_specs::wrapping_sub(old(self).inuse, 1) == 0
                && old(self).vol_phase == 0),
    {
        if self.pitch >= 0 {
            return false;
        }
        self.inuse = self.inuse.wrapping_sub(1);
        if self.inuse != 0 {
            return false;
        }
        self.priority = 0;
        if self.vol_phase == 0 {
            return true;
        }
        self.inuse = -1;
        self.vol_phase = 4;
        if self.freq_phase != 0 {
            self.freq_phase = 4;
            self.freq_release = Self::towards_zero(self.freq_release, self.freq_env_acc);
        }
        if self.noise_phase != 0 {
            self.noise_phase = 4;
            self.noise_release = Self::towards_zero(self.noise_release, self.noise_env_acc);
        }
        false
    }
}

} // verus!
