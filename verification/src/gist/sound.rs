//! GIST sound definitions: 112-byte (56 big-endian words) synthesizer patches
//! with volume, frequency and noise envelopes and LFOs (16.16 fixed point).

use vstd::prelude::*;

verus! {

/// Size of a sound definition in bytes.
pub const SOUND_BYTES: usize = 112;

/// Number of 16-bit words in a sound definition.
pub const SOUND_WORDS: usize = 56;

/// Why a sound definition could not be read.
#[derive(Debug, Clone, Copy, PartialEq, Eq)]
pub enum GistError {
    /// Fewer than 112 bytes were given; holds how many.
    TooShort(usize),
}

/// A GIST sound definition.
#[derive(Clone, Copy, Debug, Default)]
pub struct GistSound {
    /// Duration in 200 Hz ticks; also the voice's in-use counter while playing.
    pub duration: i16,
    /// Initial tone period (-1 disables tone).
    pub initial_freq: i16,
    /// Initial noise period (-1 disables noise).
    pub initial_noise_freq: i16,
    /// Initial volume (0..15).
    pub initial_volume: i16,
    /// Volume envelope starting phase (0 none, 1 attack, 2 decay, 3 sustain, 4 release).
    pub vol_phase: i16,
    /// Volume attack step.
    pub vol_attack: i32,
    /// Volume decay step.
    pub vol_decay: i32,
    /// Volume sustain level.
    pub vol_sustain: i32,
    /// Volume release step.
    pub vol_release: i32,
    /// Volume LFO limit (0 disables).
    pub vol_lfo_limit: i32,
    /// Volume LFO step.
    pub vol_lfo_step: i32,
    /// Volume LFO delay in ticks.
    pub vol_lfo_delay: i16,
    /// Frequency envelope starting phase.
    pub freq_env_phase: i16,
    /// Frequency attack step.
    pub freq_attack: i32,
    /// Frequency attack target.
    pub freq_attack_target: i32,
    /// Frequency decay step.
    pub freq_decay: i32,
    /// Frequency decay target.
    pub freq_decay_target: i32,
    /// Frequency release step.
    pub freq_release: i32,
    /// Frequency LFO positive limit (0 disables).
    pub freq_lfo_limit: i32,
    /// Frequency LFO step.
    pub freq_lfo_step: i32,
    /// Frequency LFO step after a carry in the positive direction.
    pub freq_lfo_reset_positive: i32,
    /// Frequency LFO negative limit.
    pub freq_lfo_negative_limit: i32,
    /// Frequency LFO step after no carry in the negative direction.
    pub freq_lfo_reset_negative: i32,
    /// Frequency LFO delay in ticks.
    pub freq_lfo_delay: i16,
    /// Noise envelope starting phase.
    pub noise_env_phase: i16,
    /// Noise attack step.
    pub noise_attack: i32,
    /// Noise attack target.
    pub noise_attack_target: i32,
    /// Noise decay step.
    pub noise_decay: i32,
    /// Noise decay target.
    pub noise_decay_target: i32,
    /// Noise release step.
    pub noise_release: i32,
    /// Noise LFO limit (0 disables).
    pub noise_lfo_limit: i32,
    /// Noise LFO step.
    pub noise_lfo_step: i32,
    /// Noise LFO delay in ticks.
    pub noise_lfo_delay: i16,
}

/// The 32-bit value of the big-endian word pair starting at word `i`.
pub open spec fn long_at(words: Seq<i16>, i: int) -> i32 {
    (words[i] * 65536 + (words[i + 1] as u16)) as i32
}

/// The sound that 56 words describe, field by field in file order.
pub open spec fn sound_from_words(w: Seq<i16>) -> GistSound {
    GistSound {
        duration: w[0],
        initial_freq: w[1],
        initial_noise_freq: w[2],
        initial_volume: w[3],
        vol_phase: w[4],
        vol_attack: long_at(w, 5),
        vol_decay: long_at(w, 7),
        vol_sustain: long_at(w, 9),
        vol_release: long_at(w, 11),
        vol_lfo_limit: long_at(w, 13),
        vol_lfo_step: long_at(w, 15),
        vol_lfo_delay: w[17],
        freq_env_phase: w[18],
        freq_attack: long_at(w, 19),
        freq_attack_target: long_at(w, 21),
        freq_decay: long_at(w, 23),
        freq_decay_target: long_at(w, 25),
        freq_release: long_at(w, 27),
        freq_lfo_limit: long_at(w, 29),
        freq_lfo_step: long_at(w, 31),
        freq_lfo_reset_positive: long_at(w, 33),
        freq_lfo_negative_limit: long_at(w, 35),
        freq_lfo_reset_negative: long_at(w, 37),
        freq_lfo_delay: w[39],
        noise_env_phase: w[40],
        noise_attack: long_at(w, 41),
        noise_attack_target: long_at(w, 43),
        noise_decay: long_at(w, 45),
        noise_decay_target: long_at(w, 47),
        noise_release: long_at(w, 49),
        noise_lfo_limit: long_at(w, 51),
        noise_lfo_step: long_at(w, 53),
        noise_lfo_delay: w[55],
    }
}

/// The big-endian 16-bit word at byte offset `2 * i`.
pub open spec fn word_at(bytes: Seq<u8>, i: int) -> i16 {
    (bytes[2 * i] * 256 + bytes[2 * i + 1]) as u16 as i16
}

/// The 56 words of the first 112 bytes.
pub open spec fn words_of(bytes: Seq<u8>) -> Seq<i16> {
    Seq::new(56, |i: int| word_at(bytes, i))
}

/// Joins a high and a low word into a 32-bit value.
fn long(hi: i16, lo: i16) -> (r: i32)
    ensures
        r == (hi * 65536 + (lo as u16)) as i32,
{
    let h = hi as i32;
    let l = lo as u16 as i32;
    assert((h << 16i32) | l == (h * 65536 + l) as i32) by (bit_vector)
        requires
            -32768 <= h < 32768,
            0 <= l < 65536,
    ;
    (h << 16) | l
}

/// The high word of a 32-bit value.
pub open spec fn high_word(v: i32) -> i16 {
    (v >> 16i32) as i16
}

/// The low word of a 32-bit value.
pub open spec fn low_word(v: i32) -> i16 {
    v as i16
}

/// The 56 words of a sound, field by field in file order, each 32-bit
/// field as its high word then its low word.
pub open spec fn sound_words(s: GistSound) -> Seq<i16> {
    seq![
        s.duration,
        s.initial_freq,
        s.initial_noise_freq,
        s.initial_volume,
        s.vol_phase,
        high_word(s.vol_attack),
        low_word(s.vol_attack),
        high_word(s.vol_decay),
        low_word(s.vol_decay),
        high_word(s.vol_sustain),
        low_word(s.vol_sustain),
        high_word(s.vol_release),
        low_word(s.vol_release),
        high_word(s.vol_lfo_limit),
        low_word(s.vol_lfo_limit),
        high_word(s.vol_lfo_step),
        low_word(s.vol_lfo_step),
        s.vol_lfo_delay,
        s.freq_env_phase,
        high_word(s.freq_attack),
        low_word(s.freq_attack),
        high_word(s.freq_attack_target),
        low_word(s.freq_attack_target),
        high_word(s.freq_decay),
        low_word(s.freq_decay),
        high_word(s.freq_decay_target),
        low_word(s.freq_decay_target),
        high_word(s.freq_release),
        low_word(s.freq_release),
        high_word(s.freq_lfo_limit),
        low_word(s.freq_lfo_limit),
        high_word(s.freq_lfo_step),
        low_word(s.freq_lfo_step),
        high_word(s.freq_lfo_reset_positive),
        low_word(s.freq_lfo_reset_positive),
        high_word(s.freq_lfo_negative_limit),
        low_word(s.freq_lfo_negative_limit),
        high_word(s.freq_lfo_reset_negative),
        low_word(s.freq_lfo_reset_negative),
        s.freq_lfo_delay,
        s.noise_env_phase,
        high_word(s.noise_attack),
        low_word(s.noise_attack),
        high_word(s.noise_attack_target),
        low_word(s.noise_attack_target),
        high_word(s.noise_decay),
        low_word(s.noise_decay),
        high_word(s.noise_decay_target),
        low_word(s.noise_decay_target),
        high_word(s.noise_release),
        low_word(s.noise_release),
        high_word(s.noise_lfo_limit),
        low_word(s.noise_lfo_limit),
        high_word(s.noise_lfo_step),
        low_word(s.noise_lfo_step),
        s.noise_lfo_delay,
    ]
}

/// The high byte of a word.
pub open spec fn high_byte(w: i16) -> u8 {
    ((w as u16) >> 8u16) as u8
}

/// The low byte of a word.
pub open spec fn low_byte(w: i16) -> u8 {
    (w as u16) as u8
}

/// Words written big-endian, two bytes each.
pub open spec fn words_bytes(w: Seq<i16>) -> Seq<u8> {
    Seq::new(
        2 * w.len(),
        |k: int|
            if k % 2 == 0 {
                high_byte(w[k / 2])
            } else {
                low_byte(w[k / 2])
            },
    )
}

/// The 112 bytes that describe a sound.
pub open spec fn sound_bytes(s: GistSound) -> Seq<u8> {
    words_bytes(sound_words(s))
}

proof fn lemma_long_split(v: i32)
    by (bit_vector)
    ensures
        (((v >> 16i32) as i16) as i64 * 65536i64 + (((v as i16) as u16) as i64)) == v as i64,
{
}

proof fn lemma_long_join(h: i16, l: i16)
    by (bit_vector)
    ensures
        (((h as i64 * 65536i64 + ((l as u16) as i64)) as i32) >> 16i32) as i16 == h,
        ((h as i64 * 65536i64 + ((l as u16) as i64)) as i32) as i16 == l,
{
}

proof fn lemma_word_split(w: i16)
    by (bit_vector)
    ensures
        ((((w as u16) >> 8u16) as u8) as u32 * 256u32 + (((w as u16) as u8) as u32)) as u16 as i16
            == w,
{
}

proof fn lemma_word_join(x: u8, y: u8)
    by (bit_vector)
    ensures
        ((((x as u32 * 256u32 + y as u32) as u16 as i16) as u16) >> 8u16) as u8 == x,
        (((x as u32 * 256u32 + y as u32) as u16 as i16) as u16) as u8 == y,
{
}

/// Reading the bytes that describe a sound gives back that sound.
pub proof fn lemma_read_after_write(s: GistSound)
    ensures
        sound_bytes(s).len() == SOUND_BYTES,
        words_of(sound_bytes(s)) == sound_words(s),
        sound_from_words(words_of(sound_bytes(s))) == s,
{
    let w = sound_words(s);
    let b = sound_bytes(s);
    assert forall|i: int| 0 <= i < 56 implies #[trigger] word_at(b, i) == w[i] by {
        lemma_word_split(w[i]);
        assert(b[2 * i] == high_byte(w[i]));
        assert(b[2 * i + 1] == low_byte(w[i]));
    }
    assert(words_of(b) =~= w);
    lemma_long_split(s.vol_attack);
    lemma_long_split(s.vol_decay);
    lemma_long_split(s.vol_sustain);
    lemma_long_split(s.vol_release);
    lemma_long_split(s.vol_lfo_limit);
    lemma_long_split(s.vol_lfo_step);
    lemma_long_split(s.freq_attack);
    lemma_long_split(s.freq_attack_target);
    lemma_long_split(s.freq_decay);
    lemma_long_split(s.freq_decay_target);
    lemma_long_split(s.freq_release);
    lemma_long_split(s.freq_lfo_limit);
    lemma_long_split(s.freq_lfo_step);
    lemma_long_split(s.freq_lfo_reset_positive);
    lemma_long_split(s.freq_lfo_negative_limit);
    lemma_long_split(s.freq_lfo_reset_negative);
    lemma_long_split(s.noise_attack);
    lemma_long_split(s.noise_attack_target);
    lemma_long_split(s.noise_decay);
    lemma_long_split(s.noise_decay_target);
    lemma_long_split(s.noise_release);
    lemma_long_split(s.noise_lfo_limit);
    lemma_long_split(s.noise_lfo_step);
}

proof fn lemma_words_round_trip(w: Seq<i16>)
    requires
        w.len() == SOUND_WORDS,
    ensures
        sound_words(sound_from_words(w)) == w,
{
    assert forall|i: int| 0 <= i < 55 implies #[trigger] high_word(long_at(w, i)) == w[i]
        && low_word(long_at(w, i)) == w[i + 1] by {
        lemma_long_join(w[i], w[i + 1]);
    }
    let t = sound_words(sound_from_words(w));
    assert forall|k: int| 0 <= k < 56 implies #[trigger] t[k] == w[k] by {
        if k % 2 == 1 && (5 <= k <= 15 || 19 <= k <= 37 || 41 <= k <= 53) {
            assert(high_word(long_at(w, k)) == w[k]);
        } else if k % 2 == 0 && (6 <= k <= 16 || 20 <= k <= 38 || 42 <= k <= 54) {
            assert(low_word(long_at(w, k - 1)) == w[k]);
        }
    }
    assert(t =~= w);
}

proof fn lemma_bytes_round_trip(bytes: Seq<u8>)
    requires
        bytes.len() >= SOUND_BYTES,
    ensures
        words_bytes(words_of(bytes)) == bytes.subrange(0, SOUND_BYTES as int),
{
    let w = words_of(bytes);
    assert forall|k: int| 0 <= k < 112 implies #[trigger] words_bytes(w)[k] == bytes[k] by {
        let i = k / 2;
        lemma_word_join(bytes[2 * i], bytes[2 * i + 1]);
    }
    assert(words_bytes(w) =~= bytes.subrange(0, SOUND_BYTES as int));
}

/// Writing a sound read from at least 112 bytes gives back those 112 bytes.
pub proof fn lemma_write_after_read(bytes: Seq<u8>)
    requires
        bytes.len() >= SOUND_BYTES,
    ensures
        sound_bytes(sound_from_words(words_of(bytes))) == bytes.subrange(0, SOUND_BYTES as int),
{
    lemma_words_round_trip(words_of(bytes));
    lemma_bytes_round_trip(bytes);
}

impl GistSound {
    /// The sound that 56 words describe (the original driver's layout).
    pub fn from_words(words: &[i16; 56]) -> (s: Self)
        ensures
            s == sound_from_words(words@),
    {
        GistSound {
            duration: words[0],
            initial_freq: words[1],
            initial_noise_freq: words[2],
            initial_volume: words[3],
            vol_phase: words[4],
            vol_attack: long(words[5], words[6]),
            vol_decay: long(words[7], words[8]),
            vol_sustain: long(words[9], words[10]),
            vol_release: long(words[11], words[12]),
            vol_lfo_limit: long(words[13], words[14]),
            vol_lfo_step: long(words[15], words[16]),
            vol_lfo_delay: words[17],
            freq_env_phase: words[18],
            freq_attack: long(words[19], words[20]),
            freq_attack_target: long(words[21], words[22]),
            freq_decay: long(words[23], words[24]),
            freq_decay_target: long(words[25], words[26]),
            freq_release: long(words[27], words[28]),
            freq_lfo_limit: long(words[29], words[30]),
            freq_lfo_step: long(words[31], words[32]),
            freq_lfo_reset_positive: long(words[33], words[34]),
            freq_lfo_negative_limit: long(words[35], words[36]),
            freq_lfo_reset_negative: long(words[37], words[38]),
            freq_lfo_delay: words[39],
            noise_env_phase: words[40],
            noise_attack: long(words[41], words[42]),
            noise_attack_target: long(words[43], words[44]),
            noise_decay: long(words[45], words[46]),
            noise_decay_target: long(words[47], words[48]),
            noise_release: long(words[49], words[50]),
            noise_lfo_limit: long(words[51], words[52]),
            noise_lfo_step: long(words[53], words[54]),
            noise_lfo_delay: words[55],
        }
    }

    /// Reads a sound from the first 112 bytes of `data` (56 big-endian
    /// words); fails when fewer than 112 bytes are given.
    pub fn read(data: &[u8]) -> (r: Result<Self, GistError>)
        ensures
            data@.len() < SOUND_BYTES ==> r == Err::<GistSound, GistError>(GistError::TooShort(data@.len() as usize)),
            data@.len() >= SOUND_BYTES ==> r == Ok::<GistSound, GistError>(sound_from_words(words_of(data@))),
    {
        if data.len() < SOUND_BYTES {
            return Err(GistError::TooShort(data.len()));
        }
        let mut words = [0i16; 56];
        let mut i: usize = 0;
        while i < SOUND_WORDS
            invariant
                i <= SOUND_WORDS,
                data@.len() >= SOUND_BYTES,
                forall|j: int| 0 <= j < i ==> words@[j] == word_at(data@, j),
            decreases SOUND_WORDS - i,
        {
            let hi = data[i * 2];
            let lo = data[i * 2 + 1];
            proof { crate::bits::lemma_bytes_u16(hi, lo); }
            words[i] = (((hi as u16) << 8) | (lo as u16)) as i16;
            i = i + 1;
        }
        assert(words@ =~= words_of(data@));
        Ok(Self::from_words(&words))
    }
    /// The 56 words that describe this sound.
    fn to_words(&self) -> (w: [i16; 56])
        ensures
            w@ == sound_words(*self),
    {
        let w = [
            self.duration,
            self.initial_freq,
            self.initial_noise_freq,
            self.initial_volume,
            self.vol_phase,
            (self.vol_attack >> 16i32) as i16,
            self.vol_attack as i16,
            (self.vol_decay >> 16i32) as i16,
            self.vol_decay as i16,
            (self.vol_sustain >> 16i32) as i16,
            self.vol_sustain as i16,
            (self.vol_release >> 16i32) as i16,
            self.vol_release as i16,
            (self.vol_lfo_limit >> 16i32) as i16,
            self.vol_lfo_limit as i16,
            (self.vol_lfo_step >> 16i32) as i16,
            self.vol_lfo_step as i16,
            self.vol_lfo_delay,
            self.freq_env_phase,
            (self.freq_attack >> 16i32) as i16,
            self.freq_attack as i16,
            (self.freq_attack_target >> 16i32) as i16,
            self.freq_attack_target as i16,
            (self.freq_decay >> 16i32) as i16,
            self.freq_decay as i16,
            (self.freq_decay_target >> 16i32) as i16,
            self.freq_decay_target as i16,
            (self.freq_release >> 16i32) as i16,
            self.freq_release as i16,
            (self.freq_lfo_limit >> 16i32) as i16,
            self.freq_lfo_limit as i16,
            (self.freq_lfo_step >> 16i32) as i16,
            self.freq_lfo_step as i16,
            (self.freq_lfo_reset_positive >> 16i32) as i16,
            self.freq_lfo_reset_positive as i16,
            (self.freq_lfo_negative_limit >> 16i32) as i16,
            self.freq_lfo_negative_limit as i16,
            (self.freq_lfo_reset_negative >> 16i32) as i16,
            self.freq_lfo_reset_negative as i16,
            self.freq_lfo_delay,
            self.noise_env_phase,
            (self.noise_attack >> 16i32) as i16,
            self.noise_attack as i16,
            (self.noise_attack_target >> 16i32) as i16,
            self.noise_attack_target as i16,
            (self.noise_decay >> 16i32) as i16,
            self.noise_decay as i16,
            (self.noise_decay_target >> 16i32) as i16,
            self.noise_decay_target as i16,
            (self.noise_release >> 16i32) as i16,
            self.noise_release as i16,
            (self.noise_lfo_limit >> 16i32) as i16,
            self.noise_lfo_limit as i16,
            (self.noise_lfo_step >> 16i32) as i16,
            self.noise_lfo_step as i16,
            self.noise_lfo_delay,
        ];
        assert(w@ =~= sound_words(*self));
        w
    }

    /// Appends the 112 bytes (56 big-endian words) that describe this sound.
    pub fn write(&self, out: &mut Vec<u8>)
        ensures
            final(out)@ == old(out)@ + sound_bytes(*self),
    {
        let w = self.to_words();
        let mut i: usize = 0;
        while i < SOUND_WORDS
            invariant
                i <= SOUND_WORDS,
                w@ == sound_words(*self),
                out@ == old(out)@ + words_bytes(w@.subrange(0, i as int)),
            decreases SOUND_WORDS - i,
        {
            let x = w[i];
            let ghost before = out@;
            out.push(((x as u16) >> 8) as u8);
            out.push((x as u16) as u8);
            proof {
                assert(words_bytes(w@.subrange(0, i + 1)) =~= words_bytes(w@.subrange(0, i as int)).push(
                    high_byte(x),
                ).push(low_byte(x)));
            }
            i = i + 1;
        }
        assert(w@.subrange(0, 56) =~= w@);
    }
}

} // verus!
