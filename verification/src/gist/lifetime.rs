//! What the driver's ticks do to a sound over time: which registers a tick
//! may write, when a sound of a given duration ends, and that a sound
//! played at a pitch lasts until it is released. The laws are stated over
//! the driver's view; every `GistDriver`'s view has the three voices they
//! ask for (`GistDriver::lemma_three_voices`).

use vstd::prelude::*;
use crate::ym2149::chip::{apply_writes, lemma_apply_writes_concat, lemma_apply_writes_push, write_reg_model, PsgState};
use crate::gist::sound::GistSound;
use crate::gist::voice::Voice;
use crate::gist::driver::{driver_tick, snd_on_model, voice_tick, DriverModel};

verus! {

/// The driver state after `k` ticks.
pub open spec fn driver_ticks(d: DriverModel, k: nat) -> DriverModel
    decreases k,
{
    if k == 0 {
        d
    } else {
        driver_tick(driver_ticks(d, (k - 1) as nat)).0
    }
}

/// Voice `idx` after `k` of its ticks.
pub open spec fn voice_ticks(v: Voice, idx: int, k: nat) -> Voice
    decreases k,
{
    if k == 0 {
        v
    } else {
        voice_tick(voice_ticks(v, idx, (k - 1) as nat), idx).0
    }
}

/// A register write that voice `idx` may make: its volume (0..15), the low
/// byte or high nibble (0..15) of its tone period, or the noise period
/// (0..31).
pub open spec fn voice_write_ok(idx: int, w: (int, u8)) -> bool {
    ||| w.0 == 8 + idx && w.1 <= 15
    ||| w.0 == 2 * idx
    ||| w.0 == 2 * idx + 1 && w.1 <= 15
    ||| w.0 == 6 && w.1 <= 31
}

/// A tick of one voice writes only that voice's registers, within range,
/// and nothing at all for a free voice.
proof fn lemma_voice_tick_writes(v: Voice, idx: int)
    requires
        0 <= idx < 3,
    ensures
        v.inuse == 0 ==> voice_tick(v, idx).1.len() == 0,
        forall|k: int|
            0 <= k < voice_tick(v, idx).1.len() ==> voice_write_ok(idx, #[trigger] voice_tick(v, idx).1[k]),
{
    reveal(voice_tick);
    if v.inuse != 0 {
        let v1 = crate::gist::voice::vol_lfo_tick(crate::gist::voice::vol_env_tick(v));
        let v2 = crate::gist::voice::freq_lfo_tick(crate::gist::voice::freq_env_tick(v1));
        let f = crate::gist::voice::freq_value(v2) as u16;
        assert((f >> 8u16) & 0x0f <= 15) by (bit_vector);
        let w = voice_tick(v, idx).1;
        assert forall|k: int| 0 <= k < w.len() implies voice_write_ok(idx, #[trigger] w[k]) by {
        }
    }
}

/// Every write of a tick belongs to a voice that is in use and is one that
/// voice may make (see [`voice_write_ok`]); with no voice in use a tick
/// writes nothing.
pub proof fn lemma_tick_writes_only_busy_voices(d: DriverModel)
    requires
        d.voices.len() == 3,
    ensures
        ({
            let w = driver_tick(d).1;
            &&& forall|k: int|
                0 <= k < w.len() ==> {
                    ||| d.voices[0].inuse != 0 && voice_write_ok(0, #[trigger] w[k])
                    ||| d.voices[1].inuse != 0 && voice_write_ok(1, w[k])
                    ||| d.voices[2].inuse != 0 && voice_write_ok(2, w[k])
                }
            &&& (d.voices[0].inuse == 0 && d.voices[1].inuse == 0 && d.voices[2].inuse == 0)
                ==> w.len() == 0
        }),
{
    lemma_voice_tick_writes(d.voices[0], 0);
    lemma_voice_tick_writes(d.voices[1], 1);
    lemma_voice_tick_writes(d.voices[2], 2);
    let w2 = voice_tick(d.voices[2], 2).1;
    let w1 = voice_tick(d.voices[1], 1).1;
    let w0 = voice_tick(d.voices[0], 0).1;
    let w = driver_tick(d).1;
    assert(w == w2 + w1 + w0);
    assert forall|k: int| 0 <= k < w.len() implies {
        ||| d.voices[0].inuse != 0 && voice_write_ok(0, #[trigger] w[k])
        ||| d.voices[1].inuse != 0 && voice_write_ok(1, w[k])
        ||| d.voices[2].inuse != 0 && voice_write_ok(2, w[k])
    } by {
        if k < w2.len() {
            assert(w[k] == w2[k]);
        } else if k < w2.len() + w1.len() {
            assert(w[k] == w1[k - w2.len()]);
        } else {
            assert(w[k] == w0[k - w2.len() - w1.len()]);
        }
    }
}

/// The voices after `k` driver ticks are each voice after `k` of its own
/// ticks.
proof fn lemma_driver_ticks_voices(d: DriverModel, k: nat)
    requires
        d.voices.len() == 3,
    ensures
        driver_ticks(d, k).voices.len() == 3,
        forall|i: int| 0 <= i < 3 ==> #[trigger] driver_ticks(d, k).voices[i] == voice_ticks(d.voices[i], i, k),
    decreases k,
{
    if k > 0 {
        lemma_driver_ticks_voices(d, (k - 1) as nat);
    }
}

/// One tick of a voice without a pitch and without a volume envelope that
/// still has `inuse > 0` ticks to live: one tick less, nothing else that
/// matters changed; on its last tick it is freed, its priority cleared, and
/// its last write clears its volume.
proof fn lemma_countdown_step(v: Voice, idx: int)
    requires
        0 <= idx < 3,
        v.inuse > 0,
        v.pitch < 0,
        v.vol_phase == 0,
    ensures
        ({
            let (v1, w) = voice_tick(v, idx);
            &&& v1.pitch == v.pitch
            &&& v1.vol_phase == 0
            &&& v1.inuse == v.inuse - 1
            &&& v.inuse == 1 ==> v1.priority == 0 && w.len() > 0 && w.last() == (8 + idx, 0u8)
        }),
{
    reveal(voice_tick);
}

/// A voice without a pitch and without a volume envelope, `n` ticks from
/// its end, has `n - k` left after `k <= n` ticks.
proof fn lemma_countdown(v: Voice, idx: int, k: nat)
    requires
        0 <= idx < 3,
        v.inuse > 0,
        v.pitch < 0,
        v.vol_phase == 0,
        k <= v.inuse,
    ensures
        voice_ticks(v, idx, k).inuse == v.inuse - k,
        voice_ticks(v, idx, k).pitch == v.pitch,
        voice_ticks(v, idx, k).vol_phase == 0,
    decreases k,
{
    if k > 0 {
        lemma_countdown(v, idx, (k - 1) as nat);
        lemma_countdown_step(voice_ticks(v, idx, (k - 1) as nat), idx);
    }
}

/// Writes to other registers leave register `r` as it is.
proof fn lemma_writes_keep_register(m: PsgState, w: Seq<(int, u8)>, r: int)
    requires
        m.regs.len() == 14,
        0 <= r < 14,
        forall|k: int| 0 <= k < w.len() ==> (#[trigger] w[k]).0 != r,
    ensures
        apply_writes(m, w).regs.len() == m.regs.len(),
        apply_writes(m, w).regs[r] == m.regs[r],
    decreases w.len(),
{
    if w.len() > 0 {
        let p = w.drop_last();
        assert forall|k: int| 0 <= k < p.len() implies (#[trigger] p[k]).0 != r by {
            assert(p[k] == w[k]);
        }
        lemma_writes_keep_register(m, p, r);
        assert(w.last() == w[w.len() - 1]);
        let mm = apply_writes(m, p);
        assert(apply_writes(m, w) == write_reg_model(mm, w.last().0, w.last().1));
    }
}

/// A sound started without a pitch, without a volume envelope and with a
/// duration of `D > 0` ticks stays in use for `D - 1` ticks, and the
/// `D`-th tick ends it: its voice is free with priority zero, and once the
/// tick's writes reach the chip, that voice's volume register reads 0.
pub proof fn lemma_sound_ends_after_duration(
    d: DriverModel,
    sound: GistSound,
    requested: Option<usize>,
    volume: Option<i16>,
    priority: i16,
    m: PsgState,
)
    requires
        d.voices.len() == 3,
        sound.duration > 0,
        sound.vol_phase == 0,
        m.regs.len() == 14,
    ensures
        ({
            let (s, _, r) = snd_on_model(d, sound, requested, volume, -1i16, priority);
            let n = sound.duration as nat;
            r matches Some(v) ==> {
                &&& forall|k: nat| k < n ==> #[trigger] driver_ticks(s, k).voices[v as int].inuse == n - k
                &&& driver_ticks(s, n).voices[v as int].inuse == 0
                &&& driver_ticks(s, n).voices[v as int].priority == 0
                &&& apply_writes(m, driver_tick(driver_ticks(s, (n - 1) as nat)).1).regs[8 + v] == 0
            }
        }),
{
    let (s, _, r) = snd_on_model(d, sound, requested, volume, -1i16, priority);
    let n = sound.duration as nat;
    if r is Some {
        let v = r->0 as int;
        lemma_snd_on_voice(d, sound, requested, volume, -1i16, priority);
        let sv = s.voices[v];
        assert forall|k: nat| k < n implies #[trigger] driver_ticks(s, k).voices[v].inuse == n - k by {
            lemma_driver_ticks_voices(s, k);
            lemma_countdown(sv, v, k);
        }
        let j = (n - 1) as nat;
        lemma_driver_ticks_voices(s, j);
        lemma_driver_ticks_voices(s, n);
        lemma_countdown(sv, v, j);
        let last = driver_ticks(s, j);
        let lv = last.voices[v];
        lemma_countdown_step(lv, v);
        assert(driver_ticks(s, n) == driver_tick(last).0);
        // The tick's writes: voices 2, 1, 0 in turn; the voices after `v`
        // write none of `v`'s registers.
        lemma_voice_tick_writes(last.voices[0], 0);
        lemma_voice_tick_writes(last.voices[1], 1);
        lemma_voice_tick_writes(last.voices[2], 2);
        let w2 = voice_tick(last.voices[2], 2).1;
        let w1 = voice_tick(last.voices[1], 1).1;
        let w0 = voice_tick(last.voices[0], 0).1;
        let reg = 8 + v;
        let (before, after) = if v == 2 {
            (w2, w1 + w0)
        } else if v == 1 {
            (w2 + w1, w0)
        } else {
            (w2 + w1 + w0, Seq::<(int, u8)>::empty())
        };
        assert(driver_tick(last).1 =~= before + after);
        assert(before.len() > 0 && before.last() == (reg, 0u8));
        assert forall|k: int| 0 <= k < after.len() implies (#[trigger] after[k]).0 != reg by {
            if v == 2 {
                if k < w1.len() {
                    assert(after[k] == w1[k]);
                } else {
                    assert(after[k] == w0[k - w1.len()]);
                }
            } else {
                assert(after[k] == w0[k]);
            }
        }
        lemma_apply_writes_concat(m, before, after);
        lemma_apply_writes_push(m, before.drop_last(), before.last());
        assert(before.drop_last().push(before.last()) =~= before);
        let mid = apply_writes(m, before);
        assert(forall|x: u8| #[trigger] (0u8 & x) == 0u8) by (bit_vector);
        lemma_apply_writes_len(m, before.drop_last());
        assert(mid.regs[reg] == 0u8);
        lemma_writes_keep_register(mid, after, reg);
    }
}

/// Writes keep the number of registers.
proof fn lemma_apply_writes_len(m: PsgState, w: Seq<(int, u8)>)
    requires
        m.regs.len() == 14,
    ensures
        apply_writes(m, w).regs.len() == m.regs.len(),
    decreases w.len(),
{
    if w.len() > 0 {
        lemma_apply_writes_len(m, w.drop_last());
        let mm = apply_writes(m, w.drop_last());
        assert(apply_writes(m, w) == write_reg_model(mm, w.last().0, w.last().1));
    }
}

/// Starting a sound on a voice leaves the driver with three voices and
/// that voice holding the sound's duration, the given pitch and the
/// sound's volume phase.
proof fn lemma_snd_on_voice(
    d: DriverModel,
    sound: GistSound,
    requested: Option<usize>,
    volume: Option<i16>,
    pitch: i16,
    priority: i16,
)
    requires
        d.voices.len() == 3,
    ensures
        ({
            let (s, _, r) = snd_on_model(d, sound, requested, volume, pitch, priority);
            &&& s.voices.len() == 3
            &&& r matches Some(v) ==> {
                &&& v < 3
                &&& sound.duration != 0
                &&& s.voices[v as int].inuse == sound.duration
                &&& s.voices[v as int].pitch == pitch
                &&& s.voices[v as int].vol_phase == sound.vol_phase
            }
        }),
{
    reveal(snd_on_model);
}

/// A pitched voice never ends by itself: while it is in use, each tick
/// keeps it in use and keeps its pitch.
proof fn lemma_pitched_voice_lasts(v: Voice, idx: int, k: nat)
    requires
        0 <= idx < 3,
        v.inuse != 0,
        v.pitch >= 0,
    ensures
        voice_ticks(v, idx, k).inuse != 0,
        voice_ticks(v, idx, k).pitch == v.pitch,
    decreases k,
{
    if k > 0 {
        lemma_pitched_voice_lasts(v, idx, (k - 1) as nat);
        lemma_pitched_step(voice_ticks(v, idx, (k - 1) as nat), idx);
    }
}

/// One tick keeps a pitched voice in use, at its pitch.
proof fn lemma_pitched_step(v: Voice, idx: int)
    requires
        v.inuse != 0,
        v.pitch >= 0,
    ensures
        voice_tick(v, idx).0.inuse != 0,
        voice_tick(v, idx).0.pitch == v.pitch,
{
    reveal(voice_tick);
    let v0 = crate::gist::voice::vol_env_tick(v);
    assert(v0.inuse != 0 && v0.pitch == v.pitch);
    let v1 = crate::gist::voice::vol_lfo_tick(v0);
    assert(v1.inuse == v0.inuse && v1.pitch == v.pitch);
    let v2 = crate::gist::voice::freq_lfo_tick(crate::gist::voice::freq_env_tick(v1));
    assert(v2.inuse == v1.inuse && v2.pitch == v.pitch);
    let v3 = crate::gist::voice::noise_lfo_tick(crate::gist::voice::noise_env_tick(v2));
    assert(v3.inuse == v2.inuse && v3.pitch == v.pitch);
    assert(crate::gist::voice::duration_tick(v3) == v3);
}

/// A sound started at a pitch (`pitch >= 0`) with a non-zero duration is
/// never ended by the driver's ticks: after any number of them, with no
/// release and no other sound taking its voice, the voice is still in use.
pub proof fn lemma_pitched_sound_never_ends(
    d: DriverModel,
    sound: GistSound,
    requested: Option<usize>,
    volume: Option<i16>,
    pitch: i16,
    priority: i16,
    k: nat,
)
    requires
        d.voices.len() == 3,
        pitch >= 0,
    ensures
        ({
            let (s, _, r) = snd_on_model(d, sound, requested, volume, pitch, priority);
            r matches Some(v) ==> driver_ticks(s, k).voices[v as int].inuse != 0
        }),
{
    let (s, _, r) = snd_on_model(d, sound, requested, volume, pitch, priority);
    if r is Some {
        let v = r->0 as int;
        lemma_snd_on_voice(d, sound, requested, volume, pitch, priority);
        reveal(snd_on_model);
        lemma_driver_ticks_voices(s, k);
        lemma_pitched_voice_lasts(s.voices[v], v, k);
    }
}

} // verus!
