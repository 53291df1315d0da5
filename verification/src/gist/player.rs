//! Player of GIST sound effects: the driver ticks at 200 Hz between the
//! chip's host samples.

use vstd::prelude::*;
use crate::gist::driver::{driver_tick, snd_on_model, DriverModel, GistDriver, TICK_RATE};
use crate::gist::sound::GistSound;
use crate::gist::voice::Voice;
use crate::ym2149::chip::{apply_writes, next_sample_model, reset_model, fresh_state, PsgState, Ym2149,
    DEFAULT_MASTER_CLOCK};

verus! {

/// Default host sample rate.
pub const DEFAULT_SAMPLE_RATE: u32 = 44100;

/// Priority of a sound started without one: the maximum.
pub const DEFAULT_PRIORITY: i16 = 32767;

/// A player as values.
pub struct GistPlayerModel {
    pub chip: PsgState,
    pub driver: DriverModel,
    pub sample_rate: u32,
    pub tick_accumulator: u32,
}

/// One host sample: the accumulator gains the tick rate, and once it
/// reaches the sample rate it loses it and the driver ticks (its register
/// writes going to the chip); then the chip computes the sample.
pub open spec fn player_step(m: GistPlayerModel) -> (GistPlayerModel, i16) {
    let acc = m.tick_accumulator + TICK_RATE;
    let (acc2, driver, chip) = if acc >= m.sample_rate {
        let (d2, w) = driver_tick(m.driver);
        ((acc - m.sample_rate) as u32, d2, apply_writes(m.chip, w))
    } else {
        (acc as u32, m.driver, m.chip)
    };
    let (c2, s) = next_sample_model(chip);
    (
        GistPlayerModel { chip: PsgState { last_sample: s, ..c2 }, driver, tick_accumulator: acc2, ..m },
        s,
    )
}

/// `n` host samples: the state after them and the samples.
pub open spec fn player_run(m: GistPlayerModel, n: nat) -> (GistPlayerModel, Seq<i16>)
    decreases n,
{
    if n == 0 {
        (m, Seq::empty())
    } else {
        let (m1, s) = player_run(m, (n - 1) as nat);
        let (m2, x) = player_step(m1);
        (m2, s.push(x))
    }
}

/// A player of GIST sounds on one chip.
pub struct GistPlayer {
    chip: Ym2149,
    driver: GistDriver,
    sample_rate: u32,
    tick_accumulator: u32,
}

impl View for GistPlayer {
    type V = GistPlayerModel;

    closed spec fn view(&self) -> GistPlayerModel {
        GistPlayerModel {
            chip: self.chip@,
            driver: self.driver@,
            sample_rate: self.sample_rate,
            tick_accumulator: self.tick_accumulator,
        }
    }
}

impl GistPlayer {
    /// The chip is well formed, the sample rate positive and the
    /// accumulator below it.
    pub closed spec fn wf(&self) -> bool {
        &&& self.chip.wf()
        &&& TICK_RATE <= self.sample_rate <= u32::MAX - TICK_RATE
        &&& self.tick_accumulator < self.sample_rate
    }

    /// A player at the default sample rate.
    pub fn new() -> (p: Self)
        ensures
            p.wf(),
            p@.sample_rate == DEFAULT_SAMPLE_RATE,
            p@.tick_accumulator == 0,
            p@.chip == reset_model(fresh_state((DEFAULT_MASTER_CLOCK / 8) as u32, DEFAULT_SAMPLE_RATE)),
            p@.driver.tick_count == 0,
            p@.driver.voices == Seq::new(3, |i: int| crate::gist::voice::Voice::default_spec()),
    {
        Self::with_sample_rate(DEFAULT_SAMPLE_RATE)
    }

    /// A player whose driver ticks at 200 Hz of a host rate of
    /// `sample_rate` samples per second (at least one sample per tick).
    pub fn with_sample_rate(sample_rate: u32) -> (p: Self)
        requires
            TICK_RATE <= sample_rate <= u32::MAX - TICK_RATE,
        ensures
            p.wf(),
            p@.sample_rate == sample_rate,
            p@.tick_accumulator == 0,
            p@.chip == reset_model(fresh_state((DEFAULT_MASTER_CLOCK / 8) as u32, DEFAULT_SAMPLE_RATE)),
            p@.driver.tick_count == 0,
            p@.driver.voices == Seq::new(3, |i: int| crate::gist::voice::Voice::default_spec()),
    {
        GistPlayer { chip: Ym2149::new(), driver: GistDriver::new(), sample_rate, tick_accumulator: 0 }
    }

    /// The host sample rate.
    pub fn sample_rate(&self) -> (r: u32)
        ensures
            r == self@.sample_rate,
    {
        self.sample_rate
    }

    /// Whether any voice is in use.
    pub fn is_playing(&self) -> (r: bool)
        ensures
            r == (self@.driver.voices[0].inuse != 0 || self@.driver.voices[1].inuse != 0
                || self@.driver.voices[2].inuse != 0),
    {
        self.driver.is_playing()
    }

    /// Starts a sound on a free voice (priority: the given one, or the
    /// highest); returns the voice.
    pub fn play_sound(&mut self, sound: &GistSound, volume: Option<i16>, priority: Option<i16>) -> (r: Option<usize>)
        requires
            old(self).wf(),
        ensures
            final(self).wf(),
            ({
                let p = match priority { Some(p) => p, None => DEFAULT_PRIORITY };
                let t = snd_on_model(old(self)@.driver, *sound, None, volume, -1i16, p);
                &&& final(self)@.driver == t.0
                &&& final(self)@.chip == apply_writes(old(self)@.chip, t.1)
                &&& r == t.2
            }),
            final(self)@.sample_rate == old(self)@.sample_rate,
            final(self)@.tick_accumulator == old(self)@.tick_accumulator,
    {
        let p = match priority {
            Some(p) => p,
            None => DEFAULT_PRIORITY,
        };
        self.driver.snd_on(&mut self.chip, sound, None, volume, -1, p)
    }

    /// Starts a sound on voice `voice`.
    pub fn play_sound_on_voice(
        &mut self,
        sound: &GistSound,
        voice: usize,
        volume: Option<i16>,
        priority: Option<i16>,
    ) -> (r: Option<usize>)
        requires
            old(self).wf(),
        ensures
            final(self).wf(),
            ({
                let p = match priority { Some(p) => p, None => DEFAULT_PRIORITY };
                let t = snd_on_model(old(self)@.driver, *sound, Some(voice), volume, -1i16, p);
                &&& final(self)@.driver == t.0
                &&& final(self)@.chip == apply_writes(old(self)@.chip, t.1)
                &&& r == t.2
            }),
            final(self)@.sample_rate == old(self)@.sample_rate,
            final(self)@.tick_accumulator == old(self)@.tick_accumulator,
    {
        let p = match priority {
            Some(p) => p,
            None => DEFAULT_PRIORITY,
        };
        self.driver.snd_on(&mut self.chip, sound, Some(voice), volume, -1, p)
    }

    /// Starts a sound at a pitch (a semitone number, or -1 for the sound's
    /// own frequency).
    pub fn play_sound_pitched(
        &mut self,
        sound: &GistSound,
        pitch: i16,
        voice: Option<usize>,
        volume: Option<i16>,
        priority: Option<i16>,
    ) -> (r: Option<usize>)
        requires
            old(self).wf(),
        ensures
            final(self).wf(),
            ({
                let p = match priority { Some(p) => p, None => DEFAULT_PRIORITY };
                let t = snd_on_model(old(self)@.driver, *sound, voice, volume, pitch, p);
                &&& final(self)@.driver == t.0
                &&& final(self)@.chip == apply_writes(old(self)@.chip, t.1)
                &&& r == t.2
            }),
            final(self)@.sample_rate == old(self)@.sample_rate,
            final(self)@.tick_accumulator == old(self)@.tick_accumulator,
    {
        let p = match priority {
            Some(p) => p,
            None => DEFAULT_PRIORITY,
        };
        self.driver.snd_on(&mut self.chip, sound, voice, volume, pitch, p)
    }

    /// Releases voice `voice` (it fades out).
    pub fn stop_voice(&mut self, voice: usize)
        requires
            old(self).wf(),
        ensures
            final(self).wf(),
            final(self)@.chip == old(self)@.chip,
            final(self)@.sample_rate == old(self)@.sample_rate,
            final(self)@.tick_accumulator == old(self)@.tick_accumulator,
            voice < 3 && old(self)@.driver.voices[voice as int].inuse != 0 ==> final(self)@.driver == (DriverModel {
                voices: old(self)@.driver.voices.update(
                    voice as int,
                    Voice { inuse: 1, pitch: -1i16, priority: 0i16, ..old(self)@.driver.voices[voice as int] },
                ),
                ..old(self)@.driver
            }),
            !(voice < 3 && old(self)@.driver.voices[voice as int].inuse != 0) ==> final(self)@.driver
                == old(self)@.driver,
    {
        self.driver.snd_off(voice);
    }

    /// Silences every voice at once.
    pub fn stop_all(&mut self)
        requires
            old(self).wf(),
        ensures
            final(self).wf(),
            final(self)@.chip == apply_writes(old(self)@.chip, seq![(8int, 0u8), (9int, 0u8), (10int, 0u8), (7int, 0x3fu8)]),
            final(self)@.sample_rate == old(self)@.sample_rate,
            final(self)@.tick_accumulator == old(self)@.tick_accumulator,
    {
        self.driver.stop_all(&mut self.chip);
    }

    /// Generates `count` host samples.
    pub fn generate_samples(&mut self, count: usize) -> (out: Vec<i16>)
        requires
            old(self).wf(),
            old(self)@.driver.tick_count + count <= u32::MAX,
        ensures
            final(self).wf(),
            final(self)@ == player_run(old(self)@, count as nat).0,
            out@ == player_run(old(self)@, count as nat).1,
    {
        let ghost m0 = self@;
        let mut out: Vec<i16> = Vec::new();
        let mut i: usize = 0;
        while i < count
            invariant
                i <= count,
                self.wf(),
                self@.sample_rate == m0.sample_rate,
                self@.driver.tick_count <= m0.driver.tick_count + i,
                m0.driver.tick_count + count <= u32::MAX,
                self@ == player_run(m0, i as nat).0,
                out@ == player_run(m0, i as nat).1,
            decreases count - i,
        {
            let acc = self.tick_accumulator + TICK_RATE;
            if acc >= self.sample_rate {
                self.tick_accumulator = acc - self.sample_rate;
                self.driver.tick(&mut self.chip);
            } else {
                self.tick_accumulator = acc;
            }
            self.chip.clock();
            let s = self.chip.get_sample();
            out.push(s);
            i = i + 1;
        }
        out
    }

    /// The chip.
    pub fn chip(&self) -> (c: &Ym2149)
        ensures
            c@ == self@.chip,
    {
        &self.chip
    }

    /// The driver.
    pub fn driver(&self) -> (d: &GistDriver)
        ensures
            d@ == self@.driver,
    {
        &self.driver
    }

    /// Turns the driver's debug output on or off.
    pub fn set_debug(&mut self, enabled: bool)
        ensures
            final(self)@.driver == (DriverModel { debug: enabled, ..old(self)@.driver }),
            final(self)@.chip == old(self)@.chip,
            final(self)@.sample_rate == old(self)@.sample_rate,
            final(self)@.tick_accumulator == old(self)@.tick_accumulator,
            final(self).wf() == old(self).wf(),
    {
        self.driver.set_debug(enabled);
    }

    /// Silences every voice, starts a fresh chip and restarts tick timing.
    pub fn reset(&mut self)
        requires
            old(self).wf(),
        ensures
            final(self).wf(),
            final(self)@.chip == reset_model(fresh_state((DEFAULT_MASTER_CLOCK / 8) as u32, DEFAULT_SAMPLE_RATE)),
            final(self)@.tick_accumulator == 0,
            final(self)@.sample_rate == old(self)@.sample_rate,
    {
        self.stop_all();
        self.chip = Ym2149::new();
        self.tick_accumulator = 0;
    }
}

impl Default for GistPlayer {
    fn default() -> (p: Self)
        ensures
            p.wf(),
            p@.sample_rate == DEFAULT_SAMPLE_RATE,
    {
        Self::new()
    }
}

} // verus!
