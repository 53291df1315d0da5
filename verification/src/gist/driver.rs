//! The GIST driver: voice allocation by priority, sound start and release,
//! and the 200 Hz tick that runs every voice's envelopes and LFOs and writes
//! the results to the chip.

use vstd::prelude::*;
use crate::ym2149::chip::{apply_writes, lemma_apply_writes_concat, lemma_apply_writes_push, Ym2149};
use crate::gist::sound::GistSound;
use crate::gist::voice::{
    duration_tick, freq_env_tick, freq_lfo_tick, freq_value, hi16, noise_env_tick, noise_lfo_tick,
    noise_value, vol_env_tick, vol_level, vol_lfo_tick, voice_from_sound, Voice,
};

verus! {

broadcast use vstd::array::group_array_axioms;

/// Number of voices (one per chip channel).
pub const NUM_VOICES: usize = 3;

/// Driver tick rate in Hz (Timer C of the Atari ST).
pub const TICK_RATE: u32 = 200;

/// Tone periods of MIDI notes 24..108 at a 2 MHz master clock.
pub const YM_FREQS: [u16; 85] = [
    3822, 3608, 3405, 3214, 3034, 2863, 2703, 2551, 2408, 2273, 2145, 2025, 1911, 1804, 1703, 1607,
    1517, 1432, 1351, 1276, 1204, 1136, 1073, 1012, 956, 902, 851, 804, 758, 716, 676, 638, 602,
    568, 536, 506, 478, 451, 426, 402, 379, 358, 338, 319, 301, 284, 268, 253, 239, 225, 213, 201,
    190, 179, 169, 159, 150, 142, 134, 127, 119, 113, 106, 100, 95, 89, 84, 80, 75, 71, 67, 63, 60,
    56, 53, 50, 47, 45, 42, 40, 38, 36, 34, 32, 30,
];

/// Mixer bits each voice keeps of register R7 (all but its own tone and noise bits).
pub const MIXER_MASK: [u8; 3] = [0xf6, 0xed, 0xdb];

/// The driver state, as the contracts see it.
pub struct DriverModel {
    pub voices: Seq<Voice>,
    pub mixer: u8,
    pub tick_count: u32,
    pub debug: bool,
}

/// The GIST sound driver.
pub struct GistDriver {
    voices: [Voice; 3],
    mixer: u8,
    tick_count: u32,
    debug: bool,
}

impl View for GistDriver {
    type V = DriverModel;

    closed spec fn view(&self) -> DriverModel {
        DriverModel { voices: self.voices@, mixer: self.mixer, tick_count: self.tick_count, debug: self.debug }
    }
}

/// Register writes a voice makes in one tick, and the voice afterwards:
/// nothing for a free voice; otherwise the volume envelope and LFO step and
/// the volume is written (when either is active), then the frequency and
/// noise envelopes and LFOs step and their periods are written (when active
/// and the voice has tone / noise), then the duration counts down, clearing
/// the volume of a voice that ends without a release.
#[verifier::opaque]
pub open spec fn voice_tick(v: Voice, idx: int) -> (Voice, Seq<(int, u8)>) {
    if v.inuse == 0 {
        (v, Seq::empty())
    } else {
        let v1 = vol_lfo_tick(vol_env_tick(v));
        let w1 = if v1.vol_phase != 0 || hi16(v1.vol_lfo_limit) != 0 {
            seq![(8 + idx, vol_level(v1))]
        } else {
            Seq::empty()
        };
        let v2 = freq_lfo_tick(freq_env_tick(v1));
        let f = freq_value(v2) as u16;
        let w2 = if (v2.freq_phase != 0 || hi16(v2.freq_lfo_limit) != 0) && v2.freq >= 0 {
            seq![(2 * idx, (f & 0xff) as u8), (2 * idx + 1, ((f >> 8u16) & 0x0f) as u8)]
        } else {
            Seq::empty()
        };
        let v3 = noise_lfo_tick(noise_env_tick(v2));
        let w3 = if (v3.noise_phase != 0 || hi16(v3.noise_lfo_limit) != 0) && v3.noise_freq >= 0 {
            seq![(6int, noise_value(v3) as u8)]
        } else {
            Seq::empty()
        };
        let v4 = duration_tick(v3);
        let w4 = if v3.pitch < 0 && vstd::wrapping::i16_specs::wrapping_sub(v3.inuse, 1) == 0 && v3.vol_phase == 0 {
            seq![(8 + idx, 0u8)]
        } else {
            Seq::empty()
        };
        (v4, w1 + w2 + w3 + w4)
    }
}

/// One driver tick: voices 2, 1, 0 in that order (they share the noise register).
pub open spec fn driver_tick(d: DriverModel) -> (DriverModel, Seq<(int, u8)>) {
    let (v2, w2) = voice_tick(d.voices[2], 2);
    let (v1, w1) = voice_tick(d.voices[1], 1);
    let (v0, w0) = voice_tick(d.voices[0], 0);
    (
        DriverModel { voices: seq![v0, v1, v2], tick_count: (d.tick_count + 1) as u32, ..d },
        w2 + w1 + w0,
    )
}

/// The voice a new sound of priority `priority` goes to: the requested voice
/// if its priority is not higher (none if the request is out of range), else
/// the first free voice, else the lowest-priority voice unless its priority
/// is higher.
pub open spec fn pick_voice_spec(voices: Seq<Voice>, requested: Option<usize>, priority: i16) -> Option<usize> {
    if requested is Some && requested->0 < 3 && voices[requested->0 as int].priority <= priority {
        requested
    } else if requested is Some && requested->0 >= 3 {
        None
    } else if voices[0].inuse == 0 {
        Some(0usize)
    } else if voices[1].inuse == 0 {
        Some(1usize)
    } else if voices[2].inuse == 0 {
        Some(2usize)
    } else {
        let b1: int = if voices[0].priority < voices[1].priority { 0 } else { 1 };
        let best: int = if voices[2].priority <= voices[b1].priority { 2 } else { b1 };
        if voices[best].priority > priority { None } else { Some(best as usize) }
    }
}

/// Voice picking by priority. A requested voice in range is taken when
/// its priority is not above the new sound's, and a request out of range
/// gets nothing. Without a request: the first free voice is taken; when all
/// three are busy, a voice is stolen exactly when the lowest priority among
/// them is not above the new sound's, and the stolen voice has that lowest
/// priority.
pub proof fn lemma_pick_voice(voices: Seq<Voice>, requested: Option<usize>, priority: i16)
    requires
        voices.len() == 3,
    ensures
        ({
            let r = pick_voice_spec(voices, requested, priority);
            &&& r matches Some(i) ==> i < 3
            &&& (requested matches Some(q) && q < 3 && voices[q as int].priority <= priority) ==> r
                == requested
            &&& (requested matches Some(q) && q >= 3) ==> r is None
            &&& requested is None && voices[0].inuse == 0 ==> r == Some(0usize)
            &&& requested is None && voices[0].inuse != 0 && voices[1].inuse == 0 ==> r == Some(1usize)
            &&& requested is None && voices[0].inuse != 0 && voices[1].inuse != 0 && voices[2].inuse
                == 0 ==> r == Some(2usize)
            &&& requested is None && voices[0].inuse != 0 && voices[1].inuse != 0 && voices[2].inuse
                != 0 ==> {
                &&& r matches Some(i) ==> forall|j: int|
                    0 <= j < 3 ==> voices[i as int].priority <= #[trigger] voices[j].priority
                &&& (r is Some <==> exists|j: int| 0 <= j < 3 && #[trigger] voices[j].priority <= priority)
            }
        }),
{
}

/// A MIDI pitch moved by octaves into 24..108.
pub open spec fn wrap_pitch(p: int) -> int
    decreases (if p > 108 { p - 108 } else if p < 24 { 24 - p } else { 0 }),
{
    if p > 108 {
        wrap_pitch(p - 12)
    } else if p < 24 {
        wrap_pitch(p + 12)
    } else {
        p
    }
}

/// Mixer bits a voice keeps of register R7.
pub open spec fn mixer_keep(idx: int) -> u8 {
    if idx == 0 { 0xf6 } else if idx == 1 { 0xed } else { 0xdb }
}

/// What starting a sound does: the driver state after, the register writes,
/// and the voice used. A sound of duration 0 plays nowhere and no voice is
/// reported. Otherwise the picked voice is stopped and its
/// volume cleared, the sound is loaded; with tone its period (from the pitch
/// when one is given) is written, else tone is disabled in the mixer and its
/// frequency envelope and LFO are cleared; noise likewise; the mixer is
/// written; without a volume envelope the volume is written at once; and the
/// voice's count is set to the duration.
#[verifier::opaque]
pub open spec fn snd_on_model(
    d: DriverModel,
    sound: GistSound,
    requested: Option<usize>,
    volume: Option<i16>,
    pitch: i16,
    priority: i16,
) -> (DriverModel, Seq<(int, u8)>, Option<usize>) {
    if sound.duration == 0 {
        (d, Seq::empty(), None)
    } else if pick_voice_spec(d.voices, requested, priority) is None {
        (d, Seq::empty(), None)
    } else {
        let idx = pick_voice_spec(d.voices, requested, priority)->0 as int;
        let v0 = Voice { inuse: 0, priority: 0, ..d.voices[idx] };
        let v1 = voice_from_sound(v0, sound, pitch, priority, volume);
        let f: i16 = if pitch >= 0 { YM_FREQS@[wrap_pitch(pitch as int) - 24] as i16 } else { v1.freq };
        let v2 = if v1.freq >= 0 { Voice { freq: f, ..v1 } } else { Voice { freq_phase: 0, freq_lfo_limit: 0, ..v1 } };
        let w1 = if v1.freq >= 0 {
            seq![(2 * idx, (f & 0xff) as u8), (2 * idx + 1, ((f >> 8i16) & 0x0f) as u8)]
        } else {
            Seq::empty()
        };
        let tonemask: u8 = if v1.freq >= 0 { 0 } else if idx == 0 { 1 } else if idx == 1 { 2 } else { 4 };
        let v3 = if v2.noise_freq >= 0 { v2 } else { Voice { noise_phase: 0, noise_lfo_limit: 0, ..v2 } };
        let w2 = if v2.noise_freq >= 0 { seq![(6int, (v2.noise_freq & 0x1f) as u8)] } else { Seq::empty() };
        let noisemask: u8 = if v2.noise_freq >= 0 { 0 } else if idx == 0 { 8 } else if idx == 1 { 16 } else { 32 };
        let mixer: u8 = (d.mixer & mixer_keep(idx)) | tonemask | noisemask;
        let v4 = if v3.vol_phase == 0 { Voice { vol_env_acc: 0x000F_0000, ..v3 } } else { v3 };
        let w4 = if v3.vol_phase == 0 { seq![(8 + idx, (v3.volume & 0x0f) as u8)] } else { Seq::empty() };
        let v5 = Voice { inuse: sound.duration, ..v4 };
        (
            DriverModel { voices: d.voices.update(idx, v5), mixer, ..d },
            seq![(8 + idx, 0u8)] + w1 + w2 + seq![(7int, mixer)] + w4,
            Some(idx as usize),
        )
    }
}

/// Every tone period in the note table fits 12 bits.
proof fn lemma_ym_freqs_bounded(i: int)
    requires
        0 <= i < 85,
    ensures
        YM_FREQS@[i] <= 3822,
{
    assert(YM_FREQS@ =~= seq![
        3822u16, 3608, 3405, 3214, 3034, 2863, 2703, 2551, 2408, 2273, 2145, 2025, 1911, 1804, 1703, 1607,
        1517, 1432, 1351, 1276, 1204, 1136, 1073, 1012, 956, 902, 851, 804, 758, 716, 676, 638, 602,
        568, 536, 506, 478, 451, 426, 402, 379, 358, 338, 319, 301, 284, 268, 253, 239, 225, 213, 201,
        190, 179, 169, 159, 150, 142, 134, 127, 119, 113, 106, 100, 95, 89, 84, 80, 75, 71, 67, 63, 60,
        56, 53, 50, 47, 45, 42, 40, 38, 36, 34, 32, 30,
    ]);
}

/// A wrapped pitch lies in 24..108.
proof fn lemma_wrap_pitch_range(p: int)
    ensures
        24 <= wrap_pitch(p) <= 108,
    decreases (if p > 108 { p - 108 } else if p < 24 { 24 - p } else { 0 }),
{
    if p > 108 {
        lemma_wrap_pitch_range(p - 12);
    } else if p < 24 {
        lemma_wrap_pitch_range(p + 12);
    }
}

impl GistDriver {
    /// Every driver has three voices, one per chip channel.
    pub proof fn lemma_three_voices(&self)
        ensures
            self@.voices.len() == 3,
    {
    }

    /// A driver with all voices free and the mixer disabling every channel (0x3F).
    pub fn new() -> (d: Self)
        ensures
            d@.voices == Seq::new(3, |i: int| Voice::default_spec()),
            d@.mixer == 0x3f,
            d@.tick_count == 0,
            !d@.debug,
    {
        let v = Voice::new_default();
        let d = GistDriver { voices: [v, v, v], mixer: 0x3f, tick_count: 0, debug: false };
        assert(d@.voices =~= Seq::new(3, |i: int| Voice::default_spec()));
        d
    }

    /// Turns diagnostic output on or off.
    pub fn set_debug(&mut self, enabled: bool)
        ensures
            final(self)@ == (DriverModel { debug: enabled, ..old(self)@ }),
    {
        self.debug = enabled;
    }

    /// Whether any voice is playing (its count is non-zero).
    pub fn is_playing(&self) -> (r: bool)
        ensures
            r == (self@.voices[0].inuse != 0 || self@.voices[1].inuse != 0 || self@.voices[2].inuse != 0),
    {
        self.voices[0].inuse != 0 || self.voices[1].inuse != 0 || self.voices[2].inuse != 0
    }

    /// Stops every voice at once: counts and priorities cleared, all volumes
    /// written 0 and the mixer set to disable every channel.
    pub fn stop_all(&mut self, chip: &mut Ym2149)
        requires
            old(chip).wf(),
        ensures
            final(chip).wf(),
            final(chip)@ == apply_writes(old(chip)@, seq![(8int, 0u8), (9int, 0u8), (10int, 0u8), (7int, 0x3fu8)]),
            final(self)@.mixer == 0x3f,
            final(self)@.tick_count == old(self)@.tick_count,
            final(self)@.debug == old(self)@.debug,
            final(self)@.voices == Seq::new(3, |i: int| Voice { inuse: 0, priority: 0, ..old(self)@.voices[i] }),
    {
        let ghost m0 = chip@;
        let ghost v0 = self@.voices;
        let mut i: usize = 0;
        let ghost mut w: Seq<(int, u8)> = Seq::empty();
        while i < NUM_VOICES
            invariant
                i <= NUM_VOICES,
                chip.wf(),
                chip@ == apply_writes(m0, w),
                w == Seq::new(i as nat, |j: int| (8 + j, 0u8)),
                self.mixer == old(self).mixer,
                self.tick_count == old(self).tick_count,
                self.debug == old(self).debug,
                forall|j: int| 0 <= j < i ==> self.voices@[j] == (Voice { inuse: 0, priority: 0, ..v0[j] }),
                forall|j: int| i <= j < 3 ==> self.voices@[j] == v0[j],
            decreases NUM_VOICES - i,
        {
            let mut v = self.voices[i];
            v.inuse = 0;
            v.priority = 0;
            self.voices[i] = v;
            chip.write_register(8 + i as u8, 0);
            proof {
                lemma_apply_writes_push(m0, w, (8 + i as int, 0u8));
                assert(w.push((8 + i as int, 0u8)) =~= Seq::new((i + 1) as nat, |j: int| (8 + j, 0u8)));
                w = w.push((8 + i as int, 0u8));
            }
            i = i + 1;
        }
        self.mixer = 0x3f;
        chip.write_register(7, self.mixer);
        proof {
            lemma_apply_writes_push(m0, w, (7int, 0x3fu8));
            assert(w.push((7int, 0x3fu8)) =~= seq![(8int, 0u8), (9int, 0u8), (10int, 0u8), (7int, 0x3fu8)]);
            assert(self@.voices =~= Seq::new(3, |i: int| Voice { inuse: 0, priority: 0, ..v0[i] }));
        }
    }

    /// Releases voice `voice_idx`: a playing voice gets count 1, loses its
    /// pitch and its priority drops to zero, so it ends (or goes into
    /// release) on the next tick and other sounds may take it. Free voices
    /// and other numbers are left alone.
    pub fn snd_off(&mut self, voice_idx: usize)
        ensures
            voice_idx < 3 && old(self)@.voices[voice_idx as int].inuse != 0 ==> final(self)@ == (DriverModel {
                voices: old(self)@.voices.update(
                    voice_idx as int,
                    Voice { inuse: 1, pitch: -1i16, priority: 0i16, ..old(self)@.voices[voice_idx as int] },
                ),
                ..old(self)@
            }),
            !(voice_idx < 3 && old(self)@.voices[voice_idx as int].inuse != 0) ==> final(self)@ == old(self)@,
    {
        if voice_idx < NUM_VOICES && self.voices[voice_idx].inuse != 0 {
            let mut v = self.voices[voice_idx];
            v.inuse = 1;
            v.pitch = -1;
            v.priority = 0;
            self.voices[voice_idx] = v;
        }
    }

    /// One tick of voice `idx` (see [`voice_tick`]).
    #[verifier::spinoff_prover]
    #[verifier::rlimit(40)]
    fn tick_voice(&mut self, chip: &mut Ym2149, idx: usize)
        requires
            old(chip).wf(),
            idx < 3,
        ensures
            final(chip).wf(),
            final(self)@ == (DriverModel {
                voices: old(self)@.voices.update(idx as int, voice_tick(old(self)@.voices[idx as int], idx as int).0),
                ..old(self)@
            }),
            final(chip)@ == apply_writes(old(chip)@, voice_tick(old(self)@.voices[idx as int], idx as int).1),
    {
        let ghost m0 = chip@;
        let ghost vin = self.voices[idx as int];
        let mut v = self.voices[idx];
        if v.inuse == 0 {
            assert(self@.voices.update(idx as int, vin) =~= self@.voices);
            assert(voice_tick(vin, idx as int) == (vin, Seq::<(int, u8)>::empty())) by {
                reveal(voice_tick);
            }
            return;
        }
        let ghost mut w: Seq<(int, u8)> = Seq::empty();
        v.tick_vol_env();
        v.tick_vol_lfo();
        let ghost v1 = v;
        if v.vol_phase != 0 || ((v.vol_lfo_limit >> 16) as i16) != 0 {
            let level = v.volume_level();
            chip.write_register(8 + idx as u8, level);
            proof {
                lemma_apply_writes_push(m0, w, (8 + idx as int, level));
                w = w.push((8 + idx as int, level));
            }
        }
        let ghost w1 = w;
        v.tick_freq_env();
        v.tick_freq_lfo();
        let ghost v2 = v;
        if v.freq_phase != 0 || ((v.freq_lfo_limit >> 16) as i16) != 0 {
            if v.freq >= 0 {
                let d0 = v.frequency_value();
                chip.write_register((idx * 2) as u8, (d0 & 0xff) as u8);
                proof {
                    lemma_apply_writes_push(m0, w, (2 * idx as int, (d0 & 0xff) as u8));
                    w = w.push((2 * idx as int, (d0 & 0xff) as u8));
                }
                chip.write_register((idx * 2 + 1) as u8, ((d0 >> 8) & 0x0f) as u8);
                proof {
                    lemma_apply_writes_push(m0, w, (2 * idx as int + 1, ((d0 >> 8u16) & 0x0f) as u8));
                    w = w.push((2 * idx as int + 1, ((d0 >> 8u16) & 0x0f) as u8));
                }
            }
        }
        let ghost w2 = w;
        v.tick_noise_env();
        v.tick_noise_lfo();
        let ghost v3 = v;
        if v.noise_phase != 0 || ((v.noise_lfo_limit >> 16) as i16) != 0 {
            if v.noise_freq >= 0 {
                let n = v.noise_period_value();
                chip.write_register(6, n);
                proof {
                    lemma_apply_writes_push(m0, w, (6int, n));
                    w = w.push((6int, n));
                }
            }
        }
        let ghost w3 = w;
        let silenced = v.tick_duration();
        if silenced {
            chip.write_register(8 + idx as u8, 0);
            proof {
                lemma_apply_writes_push(m0, w, (8 + idx as int, 0u8));
                w = w.push((8 + idx as int, 0u8));
            }
        }
        self.voices[idx] = v;
        proof {
            reveal(voice_tick);
            let (vt, wt) = voice_tick(vin, idx as int);
            assert(w =~= wt);
            assert(v == vt);
            assert(self@.voices =~= old(self)@.voices.update(idx as int, vt));
        }
    }

    /// One driver tick (200 Hz): voices 2, 1 and 0 in turn (see [`driver_tick`]).
    pub fn tick(&mut self, chip: &mut Ym2149)
        requires
            old(chip).wf(),
            old(self)@.tick_count < u32::MAX,
        ensures
            final(chip).wf(),
            final(self)@ == driver_tick(old(self)@).0,
            final(chip)@ == apply_writes(old(chip)@, driver_tick(old(self)@).1),
    {
        let ghost d0 = self@;
        let ghost m0 = chip@;
        self.tick_count = self.tick_count + 1;
        self.tick_voice(chip, 2);
        let ghost m1 = chip@;
        self.tick_voice(chip, 1);
        let ghost m2 = chip@;
        self.tick_voice(chip, 0);
        proof {
            let (v2, w2) = voice_tick(d0.voices[2], 2);
            let (v1, w1) = voice_tick(d0.voices[1], 1);
            let (v0, w0) = voice_tick(d0.voices[0], 0);
            lemma_apply_writes_concat(m0, w2, w1);
            lemma_apply_writes_concat(m0, w2 + w1, w0);
            assert(self@.voices =~= seq![v0, v1, v2]);
        }
    }

    /// Starts `sound` on a voice (see [`snd_on_model`]); returns the voice
    /// used, or `None` when every voice is busy with a higher priority.
    #[verifier::rlimit(50)]
    pub fn snd_on(
        &mut self,
        chip: &mut Ym2149,
        sound: &GistSound,
        requested_voice: Option<usize>,
        volume: Option<i16>,
        pitch: i16,
        priority: i16,
    ) -> (r: Option<usize>)
        requires
            old(chip).wf(),
        ensures
            final(chip).wf(),
            final(self)@ == snd_on_model(old(self)@, *sound, requested_voice, volume, pitch, priority).0,
            final(chip)@ == apply_writes(
                old(chip)@,
                snd_on_model(old(self)@, *sound, requested_voice, volume, pitch, priority).1,
            ),
            r == snd_on_model(old(self)@, *sound, requested_voice, volume, pitch, priority).2,
            r matches Some(i) ==> i < 3 && sound.duration != 0 && final(self)@.voices[i as int].inuse
                == sound.duration,
            r is None ==> final(self)@ == old(self)@ && final(chip)@ == old(chip)@,
    {
        let ghost d0 = self@;
        let ghost m0 = chip@;
        let duration = sound.duration;
        if duration == 0 {
            proof {
                reveal(snd_on_model);
            }
            return None;
        }
        let voice_idx = match self.pick_voice(requested_voice, priority) {
            Some(i) => i,
            None => {
                proof {
                    reveal(snd_on_model);
                }
                return None;
            },
        };
        let ghost mut w: Seq<(int, u8)> = Seq::empty();
        let mut v = self.voices[voice_idx];
        v.inuse = 0;
        v.priority = 0;
        chip.write_register(8 + voice_idx as u8, 0);
        proof {
            lemma_apply_writes_push(m0, w, (8 + voice_idx as int, 0u8));
            w = w.push((8 + voice_idx as int, 0u8));
        }
        let ghost w0 = w;
        v.from_sound(sound, pitch, priority, volume);
        let ghost v1 = v;
        let tonemask: u8;
        if v.freq >= 0 {
            tonemask = 0;
            if pitch >= 0 {
                let mut p = pitch;
                while p > 108
                    invariant
                        0 <= p,
                        wrap_pitch(p as int) == wrap_pitch(pitch as int),
                    decreases p,
                {
                    p = p - 12;
                }
                while p < 24
                    invariant
                        0 <= p <= 108,
                        wrap_pitch(p as int) == wrap_pitch(pitch as int),
                    decreases 108 - p,
                {
                    p = p + 12;
                }
                proof {
                    lemma_ym_freqs_bounded((p - 24) as int);
                }
                let freq = YM_FREQS[(p - 24) as usize];
                v.freq = freq as i16;
            }
            chip.write_register((voice_idx * 2) as u8, (v.freq & 0xff) as u8);
            proof {
                lemma_apply_writes_push(m0, w, (2 * voice_idx as int, (v.freq & 0xff) as u8));
                w = w.push((2 * voice_idx as int, (v.freq & 0xff) as u8));
            }
            chip.write_register((voice_idx * 2 + 1) as u8, ((v.freq >> 8) & 0x0f) as u8);
            proof {
                lemma_apply_writes_push(m0, w, (2 * voice_idx as int + 1, ((v.freq >> 8i16) & 0x0f) as u8));
                w = w.push((2 * voice_idx as int + 1, ((v.freq >> 8i16) & 0x0f) as u8));
            }
        } else {
            tonemask = if voice_idx == 0 { 1 } else if voice_idx == 1 { 2 } else { 4 };
            v.freq_phase = 0;
            v.freq_lfo_limit = 0;
        }
        let ghost w1 = w;
        let ghost v2 = v;
        let noisemask: u8;
        if v.noise_freq >= 0 {
            noisemask = 0;
            chip.write_register(6, (v.noise_freq & 0x1f) as u8);
            proof {
                lemma_apply_writes_push(m0, w, (6int, (v.noise_freq & 0x1f) as u8));
                w = w.push((6int, (v.noise_freq & 0x1f) as u8));
            }
        } else {
            noisemask = if voice_idx == 0 { 8 } else if voice_idx == 1 { 16 } else { 32 };
            v.noise_phase = 0;
            v.noise_lfo_limit = 0;
        }
        assert(MIXER_MASK@ =~= seq![0xf6u8, 0xed, 0xdb]);
        self.mixer = (self.mixer & MIXER_MASK[voice_idx]) | tonemask | noisemask;
        chip.write_register(7, self.mixer);
        proof {
            lemma_apply_writes_push(m0, w, (7int, self.mixer));
            w = w.push((7int, self.mixer));
        }
        if v.vol_phase == 0 {
            v.vol_env_acc = 0x000F_0000;
            chip.write_register(8 + voice_idx as u8, (v.volume & 0x0f) as u8);
            proof {
                lemma_apply_writes_push(m0, w, (8 + voice_idx as int, (v.volume & 0x0f) as u8));
                w = w.push((8 + voice_idx as int, (v.volume & 0x0f) as u8));
            }
        }
        v.inuse = duration;
        self.voices[voice_idx] = v;
        proof {
            reveal(snd_on_model);
            let (dm, wm, rm) = snd_on_model(d0, *sound, requested_voice, volume, pitch, priority);
            assert(w =~= wm);
            assert(self@.voices =~= dm.voices);
        }
        Some(voice_idx)
    }

    /// Picks the voice for a new sound (see [`pick_voice_spec`]).
    fn pick_voice(&self, requested: Option<usize>, priority: i16) -> (r: Option<usize>)
        ensures
            r == pick_voice_spec(self@.voices, requested, priority),
            r matches Some(i) ==> i < 3,
    {
        if let Some(idx) = requested {
            if idx < NUM_VOICES && self.voices[idx].priority <= priority {
                return Some(idx);
            }
            if idx >= NUM_VOICES {
                return None;
            }
        }
        if self.voices[0].inuse == 0 {
            return Some(0);
        }
        if self.voices[1].inuse == 0 {
            return Some(1);
        }
        if self.voices[2].inuse == 0 {
            return Some(2);
        }
        let mut best: usize = if self.voices[0].priority < self.voices[1].priority { 0 } else { 1 };
        if self.voices[2].priority <= self.voices[best].priority {
            best = 2;
        }
        if self.voices[best].priority > priority {
            None
        } else {
            Some(best)
        }
    }
}

impl Voice {
    /// A voice with every field zero.
    pub open spec fn default_spec() -> Voice {
        Voice {
            inuse: 0, freq: 0, noise_freq: 0, volume: 0, vol_phase: 0, vol_attack: 0, vol_decay: 0,
            vol_sustain: 0, vol_release: 0, vol_lfo_limit: 0, vol_lfo_step: 0, vol_lfo_delay: 0,
            freq_phase: 0, freq_attack: 0, freq_attack_target: 0, freq_decay: 0, freq_decay_target: 0,
            freq_release: 0, freq_lfo_limit: 0, freq_lfo_step: 0, freq_lfo_reset_pos: 0,
            freq_lfo_limit_neg: 0, freq_lfo_reset_neg: 0, freq_lfo_delay: 0, noise_phase: 0,
            noise_attack: 0, noise_attack_target: 0, noise_decay: 0, noise_decay_target: 0,
            noise_release: 0, noise_lfo_limit: 0, noise_lfo_step: 0, noise_lfo_delay: 0, pitch: 0,
            priority: 0, vol_env_acc: 0, vol_lfo_acc: 0, freq_env_acc: 0, freq_lfo_acc: 0,
            noise_env_acc: 0, noise_lfo_acc: 0,
        }
    }

    /// A voice with every field zero.
    pub fn new_default() -> (v: Voice)
        ensures
            v == Voice::default_spec(),
    {
        Voice {
            inuse: 0, freq: 0, noise_freq: 0, volume: 0, vol_phase: 0, vol_attack: 0, vol_decay: 0,
            vol_sustain: 0, vol_release: 0, vol_lfo_limit: 0, vol_lfo_step: 0, vol_lfo_delay: 0,
            freq_phase: 0, freq_attack: 0, freq_attack_target: 0, freq_decay: 0, freq_decay_target: 0,
            freq_release: 0, freq_lfo_limit: 0, freq_lfo_step: 0, freq_lfo_reset_pos: 0,
            freq_lfo_limit_neg: 0, freq_lfo_reset_neg: 0, freq_lfo_delay: 0, noise_phase: 0,
            noise_attack: 0, noise_attack_target: 0, noise_decay: 0, noise_decay_target: 0,
            noise_release: 0, noise_lfo_limit: 0, noise_lfo_step: 0, noise_lfo_delay: 0, pitch: 0,
            priority: 0, vol_env_acc: 0, vol_lfo_acc: 0, freq_env_acc: 0, freq_lfo_acc: 0,
            noise_env_acc: 0, noise_lfo_acc: 0,
        }
    }
}

impl Default for GistDriver {
    fn default() -> (d: Self)
        ensures
            d@.voices == Seq::new(3, |i: int| Voice::default_spec()),
            d@.mixer == 0x3f,
            d@.tick_count == 0,
            !d@.debug,
    {
        Self::new()
    }
}

} // verus!
