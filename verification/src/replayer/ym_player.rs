//! Loading of YM song files: format detection, big-endian readers, the YM
//! tracker formats, the YM2 register stream, loop points and frame timing.

use vstd::prelude::*;
use crate::error::Ym2149Error;
use crate::cli::viz_helpers::{append_decimal_u64, decimal};
use crate::replayer::{PlaybackController, PlaybackState};
use crate::ym2149::chip::{load_frame_model, next_sample_model, write_reg_model, PsgState, Ym2149};
use crate::replayer::tracker::{
    deinterleave_spec, deinterleave_tracker_bytes, SampleModel, TrackerFormat, TrackerLine,
    TrackerSample,
};

verus! {

/// Attribute bit: the pattern stream is stored interleaved.
pub const ATTR_STREAM_INTERLEAVED: u32 = 1;

/// Attribute bit: the song loops.
pub const ATTR_LOOP_MODE: u32 = 16;

/// Output sample rate that frame timing is computed for.
pub const SAMPLE_RATE: u32 = 44100;

/// Master clock written into the metadata of formats that do not carry one.
pub const DEFAULT_MASTER_CLOCK: u32 = 2_000_000;

/// Supported YM file formats handled by the loader.
#[derive(Debug, Clone, Copy, PartialEq, Eq, Structural)]
pub enum YmFileFormat {
    /// YM2 format (Mad Max).
    Ym2,
    /// Legacy YM3 format without embedded metadata.
    Ym3,
    /// YM3 variant with loop information footer.
    Ym3b,
    /// YM4 format (metadata, optional digidrums, 14 registers).
    Ym4,
    /// YM5 format (metadata, digidrums, effect attributes).
    Ym5,
    /// YM6 format (metadata, extended effects).
    Ym6,
    /// YM Tracker format version 1.
    Ymt1,
    /// YM Tracker format version 2.
    Ymt2,
}

impl YmFileFormat {
    /// The format's name as shown to users.
    pub fn name(&self) -> (s: &'static str)
        ensures
            s@ == format_name(*self),
    {
        proof {
            reveal_strlit("YM2");
            reveal_strlit("YM3");
            reveal_strlit("YM3b");
            reveal_strlit("YM4");
            reveal_strlit("YM5");
            reveal_strlit("YM6");
            reveal_strlit("YMT1");
            reveal_strlit("YMT2");
        }
        match self {
            YmFileFormat::Ym2 => "YM2",
            YmFileFormat::Ym3 => "YM3",
            YmFileFormat::Ym3b => "YM3b",
            YmFileFormat::Ym4 => "YM4",
            YmFileFormat::Ym5 => "YM5",
            YmFileFormat::Ym6 => "YM6",
            YmFileFormat::Ymt1 => "YMT1",
            YmFileFormat::Ymt2 => "YMT2",
        }
    }
}

/// The name of each format.
pub open spec fn format_name(f: YmFileFormat) -> Seq<char> {
    match f {
        YmFileFormat::Ym2 => seq!['Y', 'M', '2'],
        YmFileFormat::Ym3 => seq!['Y', 'M', '3'],
        YmFileFormat::Ym3b => seq!['Y', 'M', '3', 'b'],
        YmFileFormat::Ym4 => seq!['Y', 'M', '4'],
        YmFileFormat::Ym5 => seq!['Y', 'M', '5'],
        YmFileFormat::Ym6 => seq!['Y', 'M', '6'],
        YmFileFormat::Ymt1 => seq!['Y', 'M', 'T', '1'],
        YmFileFormat::Ymt2 => seq!['Y', 'M', 'T', '2'],
    }
}

/// The four-byte tag that starts a file of each format.
pub open spec fn format_tag(f: YmFileFormat) -> Seq<u8> {
    match f {
        YmFileFormat::Ym2 => seq![0x59u8, 0x4D, 0x32, 0x21],
        YmFileFormat::Ym3 => seq![0x59u8, 0x4D, 0x33, 0x21],
        YmFileFormat::Ym3b => seq![0x59u8, 0x4D, 0x33, 0x62],
        YmFileFormat::Ym4 => seq![0x59u8, 0x4D, 0x34, 0x21],
        YmFileFormat::Ym5 => seq![0x59u8, 0x4D, 0x35, 0x21],
        YmFileFormat::Ym6 => seq![0x59u8, 0x4D, 0x36, 0x21],
        YmFileFormat::Ymt1 => seq![0x59u8, 0x4D, 0x54, 0x31],
        YmFileFormat::Ymt2 => seq![0x59u8, 0x4D, 0x54, 0x32],
    }
}

/// Errors of the loader.
#[derive(Debug, Clone, Copy, PartialEq, Eq, Structural)]
pub enum YmLoadError {
    /// A 16-bit value runs past the end of the data.
    UnexpectedEndU16,
    /// A 32-bit value runs past the end of the data.
    UnexpectedEndU32,
    /// A string starts at or past the end of the data.
    UnexpectedEndString,
    /// A string has no terminating zero byte.
    UnterminatedString,
    /// Tracker data shorter than its 12-byte header.
    TrackerTooSmall,
    /// Tracker data without the `LeOnArD!` signature.
    InvalidTrackerSignature,
    /// Tracker voice count outside 1..=8.
    UnsupportedVoiceCount(usize),
    /// A tracker digidrum runs past the end of the data.
    DigidrumTruncated,
    /// A tracker song with no frames.
    ZeroFrames,
    /// Voices times frames does not fit in memory sizes.
    FrameCountOverflow,
    /// The pattern data size does not fit in memory sizes.
    DataSizeOverflow,
    /// The pattern data runs past the end of the data.
    PatternTruncated,
    /// YM2 data shorter than its 4-byte tag.
    Ym2TooSmall,
    /// YM2 payload empty or not a multiple of 14 bytes (its size).
    Ym2PayloadSize(usize),
    /// Data shorter than a format tag.
    DataTooShort,
    /// An unknown format tag.
    UnsupportedFormat,
    /// Samples per frame set to zero.
    SamplesPerFrameZero,
    /// Samples per frame above 10000 (the value).
    SamplesPerFrameTooLarge(u32),
    /// Sync buzzer timer frequency of zero.
    SyncBuzzerZeroFrequency,
}

/// The message of each loader error.
pub open spec fn load_error_text(e: YmLoadError) -> Seq<char> {
    match e {
        YmLoadError::UnexpectedEndU16 => "Unexpected end of data while reading u16"@,
        YmLoadError::UnexpectedEndU32 => "Unexpected end of data while reading u32"@,
        YmLoadError::UnexpectedEndString => "Unexpected end of data while reading string"@,
        YmLoadError::UnterminatedString => "Unterminated string in YM tracker data"@,
        YmLoadError::TrackerTooSmall => "Tracker file too small"@,
        YmLoadError::InvalidTrackerSignature => "Invalid tracker signature"@,
        YmLoadError::UnsupportedVoiceCount(n) => "Unsupported tracker voice count: "@ + decimal(n as nat),
        YmLoadError::DigidrumTruncated => "Tracker digidrum data truncated"@,
        YmLoadError::ZeroFrames => "Tracker song has zero frames"@,
        YmLoadError::FrameCountOverflow => "Tracker frame count overflow"@,
        YmLoadError::DataSizeOverflow => "Tracker data size overflow"@,
        YmLoadError::PatternTruncated => "Tracker pattern data truncated"@,
        YmLoadError::Ym2TooSmall => "YM2 file too small"@,
        YmLoadError::Ym2PayloadSize(n) => "YM2 payload size "@ + decimal(n as nat)
            + " is not a multiple of 14"@,
        YmLoadError::DataTooShort => "YM data too short"@,
        YmLoadError::UnsupportedFormat => "Unsupported YM format"@,
        YmLoadError::SamplesPerFrameZero => "samples_per_frame cannot be zero"@,
        YmLoadError::SamplesPerFrameTooLarge(n) => "samples_per_frame "@ + decimal(n as nat)
            + " exceeds reasonable limit of 10000 (implies < 4.41Hz frame rate)"@,
        YmLoadError::SyncBuzzerZeroFrequency => "Sync Buzzer timer frequency must be > 0"@,
    }
}

impl YmLoadError {
    /// The error's message (see [`load_error_text`]).
    pub fn message(&self) -> (s: String)
        ensures
            s@ == load_error_text(*self),
    {
        match *self {
            YmLoadError::UnexpectedEndU16 => String::from_str("Unexpected end of data while reading u16"),
            YmLoadError::UnexpectedEndU32 => String::from_str("Unexpected end of data while reading u32"),
            YmLoadError::UnexpectedEndString => String::from_str("Unexpected end of data while reading string"),
            YmLoadError::UnterminatedString => String::from_str("Unterminated string in YM tracker data"),
            YmLoadError::TrackerTooSmall => String::from_str("Tracker file too small"),
            YmLoadError::InvalidTrackerSignature => String::from_str("Invalid tracker signature"),
            YmLoadError::UnsupportedVoiceCount(n) => {
                let mut out = String::from_str("Unsupported tracker voice count: ");
                append_decimal_u64(&mut out, n as u64);
                out
            },
            YmLoadError::DigidrumTruncated => String::from_str("Tracker digidrum data truncated"),
            YmLoadError::ZeroFrames => String::from_str("Tracker song has zero frames"),
            YmLoadError::FrameCountOverflow => String::from_str("Tracker frame count overflow"),
            YmLoadError::DataSizeOverflow => String::from_str("Tracker data size overflow"),
            YmLoadError::PatternTruncated => String::from_str("Tracker pattern data truncated"),
            YmLoadError::Ym2TooSmall => String::from_str("YM2 file too small"),
            YmLoadError::Ym2PayloadSize(n) => {
                let mut out = String::from_str("YM2 payload size ");
                append_decimal_u64(&mut out, n as u64);
                out.append(" is not a multiple of 14");
                out
            },
            YmLoadError::DataTooShort => String::from_str("YM data too short"),
            YmLoadError::UnsupportedFormat => String::from_str("Unsupported YM format"),
            YmLoadError::SamplesPerFrameZero => String::from_str("samples_per_frame cannot be zero"),
            YmLoadError::SamplesPerFrameTooLarge(n) => {
                let mut out = String::from_str("samples_per_frame ");
                append_decimal_u64(&mut out, n as u64);
                out.append(" exceeds reasonable limit of 10000 (implies < 4.41Hz frame rate)");
                out
            },
            YmLoadError::SyncBuzzerZeroFrequency => String::from_str("Sync Buzzer timer frequency must be > 0"),
        }
    }
}

/// Summary information returned after loading file data.
#[derive(Debug, Clone, Copy, PartialEq, Eq, Structural)]
pub struct LoadSummary {
    /// Detected YM file format.
    pub format: YmFileFormat,
    /// Number of register frames in the song.
    pub frame_count: usize,
    /// Samples generated per frame (derived from frame rate).
    pub samples_per_frame: u32,
}

impl LoadSummary {
    /// Total number of audio samples in the song, saturating at the
    /// largest `usize`.
    pub fn total_samples(&self) -> (n: usize)
        ensures
            n == if self.frame_count * self.samples_per_frame <= usize::MAX {
                self.frame_count * self.samples_per_frame
            } else {
                usize::MAX as int
            },
    {
        match self.frame_count.checked_mul(self.samples_per_frame as usize) {
            Some(n) => n,
            None => usize::MAX,
        }
    }
}

/// Song metadata.
#[derive(Debug, Clone)]
pub struct Ym6Info {
    /// Song name.
    pub song_name: String,
    /// Author name.
    pub author: String,
    /// Song comment.
    pub comment: String,
    /// Number of frames.
    pub frame_count: u32,
    /// Frame rate (typically 50 Hz).
    pub frame_rate: u16,
    /// Loop frame number.
    pub loop_frame: u32,
    /// Master clock frequency.
    pub master_clock: u32,
}

/// The big-endian 16-bit value at `o`.
pub open spec fn be_u16_at(d: Seq<u8>, o: int) -> int {
    d[o] * 256 + d[o + 1]
}

/// The big-endian 32-bit value at `o`.
pub open spec fn be_u32_at(d: Seq<u8>, o: int) -> int {
    d[o] * 16777216 + d[o + 1] * 65536 + d[o + 2] * 256 + d[o + 3]
}

/// Reads a big-endian `u16` at `*offset` and moves past it.
pub fn read_be_u16(data: &[u8], offset: &mut usize) -> (r: Result<u16, YmLoadError>)
    ensures
        match r {
            Ok(v) => {
                &&& *old(offset) + 2 <= data@.len()
                &&& v == be_u16_at(data@, *old(offset) as int)
                &&& *final(offset) == *old(offset) + 2
            },
            Err(e) => {
                &&& *old(offset) + 2 > data@.len()
                &&& e == YmLoadError::UnexpectedEndU16
                &&& *final(offset) == *old(offset)
            },
        },
{
    let o = *offset;
    if o > data.len() || data.len() - o < 2 {
        return Err(YmLoadError::UnexpectedEndU16);
    }
    let value = (data[o] as u16) * 256 + data[o + 1] as u16;
    *offset = o + 2;
    Ok(value)
}

/// Reads a big-endian `u32` at `*offset` and moves past it.
pub fn read_be_u32(data: &[u8], offset: &mut usize) -> (r: Result<u32, YmLoadError>)
    ensures
        match r {
            Ok(v) => {
                &&& *old(offset) + 4 <= data@.len()
                &&& v == be_u32_at(data@, *old(offset) as int)
                &&& *final(offset) == *old(offset) + 4
            },
            Err(e) => {
                &&& *old(offset) + 4 > data@.len()
                &&& e == YmLoadError::UnexpectedEndU32
                &&& *final(offset) == *old(offset)
            },
        },
{
    let o = *offset;
    if o > data.len() || data.len() - o < 4 {
        return Err(YmLoadError::UnexpectedEndU32);
    }
    let value = (data[o] as u32) * 16777216 + (data[o + 1] as u32) * 65536 + (data[o + 2] as u32)
        * 256 + data[o + 3] as u32;
    *offset = o + 4;
    Ok(value)
}

/// The index of the first zero byte at or after `o`, if any.
pub open spec fn first_zero_from(d: Seq<u8>, o: int) -> Option<int>
    decreases d.len() - o,
{
    if o < 0 || o >= d.len() {
        None
    } else if d[o] == 0 {
        Some(o)
    } else {
        first_zero_from(d, o + 1)
    }
}

/// What `String::from_utf8_lossy` makes of a byte sequence.
pub uninterp spec fn utf8_lossy(bytes: Seq<u8>) -> Seq<char>;

/// `String::from_utf8_lossy`, taken into an owned string: the result is
/// the named decoding of exactly the given bytes. How invalid sequences are
/// replaced is left to the name.
#[verifier::external_body]
fn lossy_string(bytes: &[u8]) -> (s: String)
    ensures
        s@ == utf8_lossy(bytes@),
{
    String::from_utf8_lossy(bytes).to_string()
}

/// A zero-terminated string at `o`: its decoded text and the offset after
/// its terminator.
pub open spec fn c_string_spec(d: Seq<u8>, o: int) -> Result<(Seq<char>, int), YmLoadError> {
    if o >= d.len() {
        Err(YmLoadError::UnexpectedEndString)
    } else {
        match first_zero_from(d, o) {
            Some(e) => Ok((utf8_lossy(d.subrange(o, e)), e + 1)),
            None => Err(YmLoadError::UnterminatedString),
        }
    }
}

proof fn lemma_first_zero_bounds(d: Seq<u8>, o: int)
    ensures
        first_zero_from(d, o) matches Some(e) ==> (o <= e < d.len() && d[e] == 0 && forall|j: int|
            o <= j < e ==> d[j] != 0),
        first_zero_from(d, o) is None && 0 <= o ==> forall|j: int| o <= j < d.len() ==> d[j] != 0,
    decreases d.len() - o,
{
    if o < 0 || o >= d.len() {
    } else if d[o] == 0 {
    } else {
        lemma_first_zero_bounds(d, o + 1);
    }
}

/// Reads a zero-terminated string at `*offset` and moves past its
/// terminator. When no terminator follows, the offset is left at the end.
pub fn read_c_string(data: &[u8], offset: &mut usize) -> (r: Result<String, YmLoadError>)
    ensures
        match r {
            Ok(s) => c_string_spec(data@, *old(offset) as int) == Ok::<(Seq<char>, int), YmLoadError>(
                (s@, *final(offset) as int),
            ),
            Err(e) => {
                &&& c_string_spec(data@, *old(offset) as int) == Err::<(Seq<char>, int), YmLoadError>(e)
                &&& e == YmLoadError::UnexpectedEndString ==> *final(offset) == *old(offset)
                &&& e == YmLoadError::UnterminatedString ==> *final(offset) == data@.len()
            },
        },
{
    let start = *offset;
    if start >= data.len() {
        return Err(YmLoadError::UnexpectedEndString);
    }
    let mut end = start;
    while end < data.len() && data[end] != 0
        invariant
            start <= end <= data@.len(),
            start < data@.len(),
            first_zero_from(data@, start as int) == first_zero_from(data@, end as int),
        decreases data@.len() - end,
    {
        end = end + 1;
    }
    if end >= data.len() {
        *offset = end;
        return Err(YmLoadError::UnterminatedString);
    }
    let text = lossy_string(&data[start..end]);
    *offset = end + 1;
    Ok(text)
}


/// The tracker signature `LeOnArD!`.
pub open spec fn leonard_signature() -> Seq<u8> {
    seq![0x4Cu8, 0x65, 0x4F, 0x6E, 0x41, 0x72, 0x44, 0x21]
}

/// A repeat length kept between 1 and the sample's size.
pub open spec fn clamp_repeat(rep: int, size: int) -> nat {
    let m = if rep < size { rep } else { size };
    if m >= 1 { m as nat } else { 1 }
}

/// The bytes of a sample of `size` bytes at `o` and its repeat length.
pub open spec fn sample_body_spec(d: Seq<u8>, o: int, size: int, rep: int) -> Result<(SampleModel, int), YmLoadError> {
    if o + size > d.len() {
        Err(YmLoadError::DigidrumTruncated)
    } else {
        Ok((SampleModel { data: d.subrange(o, o + size), repeat_len: clamp_repeat(rep, size) }, o + size))
    }
}

/// One tracker sample at `o`: a 16-bit size, for YMT2 a 16-bit repeat
/// length and 16-bit flags, then the bytes.
pub open spec fn sample_at(d: Seq<u8>, o: int, format: TrackerFormat) -> Result<(SampleModel, int), YmLoadError> {
    if o + 2 > d.len() {
        Err(YmLoadError::UnexpectedEndU16)
    } else {
        let size = be_u16_at(d, o);
        match format {
            TrackerFormat::Ymt1 => sample_body_spec(d, o + 2, size, size),
            TrackerFormat::Ymt2 => if o + 4 > d.len() || o + 6 > d.len() {
                Err(YmLoadError::UnexpectedEndU16)
            } else {
                sample_body_spec(d, o + 6, size, be_u16_at(d, o + 2))
            },
        }
    }
}

/// `n` tracker samples one after another from `o`.
pub open spec fn samples_spec(d: Seq<u8>, o: int, n: nat, format: TrackerFormat) -> Result<(Seq<SampleModel>, int), YmLoadError>
    decreases n,
{
    if n == 0 {
        Ok((Seq::empty(), o))
    } else {
        match sample_at(d, o, format) {
            Err(e) => Err(e),
            Ok((s, o1)) => match samples_spec(d, o1, (n - 1) as nat, format) {
                Err(e) => Err(e),
                Ok((ss, o2)) => Ok((seq![s] + ss, o2)),
            },
        }
    }
}

/// A tracker song as values.
pub struct TrackerSongModel {
    pub nb_voice: nat,
    pub player_rate: nat,
    pub total_frames: nat,
    pub loop_frame_raw: nat,
    pub loop_frame: nat,
    pub loop_enabled: bool,
    pub freq_shift: nat,
    pub attributes: u32,
    pub samples: Seq<SampleModel>,
    pub lines: Seq<TrackerLine>,
    pub samples_per_frame: nat,
    pub song_name: Seq<char>,
    pub author: Seq<char>,
    pub comment: Seq<char>,
}

/// The pattern lines of a byte stream, four bytes each.
pub open spec fn lines_of(bytes: Seq<u8>, count: nat) -> Seq<TrackerLine> {
    Seq::new(
        count,
        |i: int|
            TrackerLine {
                note_on: bytes[4 * i],
                volume: bytes[4 * i + 1],
                freq_high: bytes[4 * i + 2],
                freq_low: bytes[4 * i + 3],
            },
    )
}

/// Samples per frame of a tracker song played at `rate` Hz: the output
/// rate divided by it, at least one; zero for a rate of zero.
pub open spec fn tracker_samples_per_frame(rate: nat) -> nat {
    if rate > 0 {
        if 44100nat / rate >= 1 { 44100nat / rate } else { 1 }
    } else {
        0
    }
}

/// The attributes with the interleave bit cleared when it was set.
pub open spec fn attrs_after_interleave(a: u32) -> u32 {
    if a & 1 != 0 { a & !1u32 } else { a }
}

/// The attributes with a YMT2 frequency shift taken out of the top bits.
pub open spec fn attrs_after_shift(a: u32, format: TrackerFormat) -> u32 {
    match format {
        TrackerFormat::Ymt2 => a & 0x0FFF_FFFFu32,
        TrackerFormat::Ymt1 => a,
    }
}

/// The YMT2 frequency shift: the top four bits of the attributes.
pub open spec fn freq_shift_of(a: u32, format: TrackerFormat) -> nat {
    match format {
        TrackerFormat::Ymt2 => ((a >> 28u32) & 0x0Fu32) as nat,
        TrackerFormat::Ymt1 => 0,
    }
}

/// The pattern part of a tracker song, after its header, strings and
/// samples (which end at `o`).
pub open spec fn tracker_body_spec(
    d: Seq<u8>,
    format: TrackerFormat,
    song_name: Seq<char>,
    author: Seq<char>,
    comment: Seq<char>,
    samples: Seq<SampleModel>,
    o: int,
) -> Result<TrackerSongModel, YmLoadError> {
    let nb_voice = be_u16_at(d, 12) as nat;
    let total_frames = be_u32_at(d, 16) as nat;
    let loop_raw = be_u32_at(d, 20) as nat;
    let attrs0 = be_u32_at(d, 26) as u32;
    if total_frames == 0 {
        Err(YmLoadError::ZeroFrames)
    } else if nb_voice * total_frames > usize::MAX {
        Err(YmLoadError::FrameCountOverflow)
    } else if nb_voice * total_frames * 4 > usize::MAX {
        Err(YmLoadError::DataSizeOverflow)
    } else if o + nb_voice * total_frames * 4 > d.len() {
        Err(YmLoadError::PatternTruncated)
    } else {
        let line_count = nb_voice * total_frames;
        let raw = d.subrange(o, o + line_count * 4);
        let bytes = if attrs0 & 1 != 0 { deinterleave_spec(raw, nb_voice, total_frames) } else { raw };
        let attrs1 = attrs_after_interleave(attrs0);
        let attrs2 = attrs_after_shift(attrs1, format);
        Ok(TrackerSongModel {
            nb_voice,
            player_rate: be_u16_at(d, 14) as nat,
            total_frames,
            loop_frame_raw: loop_raw,
            loop_frame: if loop_raw < total_frames { loop_raw } else { 0 },
            loop_enabled: attrs2 & 16 != 0,
            freq_shift: freq_shift_of(attrs1, format),
            attributes: attrs2,
            samples,
            lines: lines_of(bytes, line_count),
            samples_per_frame: tracker_samples_per_frame(be_u16_at(d, 14) as nat),
            song_name,
            author,
            comment,
        })
    }
}

/// A YM tracker file, read from its header to its pattern data.
///
/// Header: tag (4 bytes), `LeOnArD!`, voice count (16-bit, 1 to 8),
/// player rate (16-bit), frame count (32-bit), loop frame (32-bit),
/// digidrum count (16-bit), attributes (32-bit); then song name, author
/// and comment as zero-terminated strings; then the digidrums; then four
/// bytes per voice and frame.
pub open spec fn tracker_spec(d: Seq<u8>, format: TrackerFormat) -> Result<TrackerSongModel, YmLoadError> {
    if d.len() < 12 {
        Err(YmLoadError::TrackerTooSmall)
    } else if d.subrange(4, 12) != leonard_signature() {
        Err(YmLoadError::InvalidTrackerSignature)
    } else if d.len() < 14 {
        Err(YmLoadError::UnexpectedEndU16)
    } else if be_u16_at(d, 12) == 0 || be_u16_at(d, 12) > 8 {
        Err(YmLoadError::UnsupportedVoiceCount(be_u16_at(d, 12) as usize))
    } else if d.len() < 16 {
        Err(YmLoadError::UnexpectedEndU16)
    } else if d.len() < 24 {
        Err(YmLoadError::UnexpectedEndU32)
    } else if d.len() < 26 {
        Err(YmLoadError::UnexpectedEndU16)
    } else if d.len() < 30 {
        Err(YmLoadError::UnexpectedEndU32)
    } else {
        match c_string_spec(d, 30) {
            Err(e) => Err(e),
            Ok((song_name, o1)) => match c_string_spec(d, o1) {
                Err(e) => Err(e),
                Ok((author, o2)) => match c_string_spec(d, o2) {
                    Err(e) => Err(e),
                    Ok((comment, o3)) => match samples_spec(d, o3, be_u16_at(d, 24) as nat, format) {
                        Err(e) => Err(e),
                        Ok((samples, o4)) => tracker_body_spec(d, format, song_name, author, comment, samples, o4),
                    },
                },
            },
        }
    }
}

/// A loaded tracker song.
pub struct TrackerSong {
    /// YMT1 or YMT2.
    pub format: TrackerFormat,
    /// Number of voices (1 to 8).
    pub nb_voice: usize,
    /// Player rate in Hz.
    pub player_rate: u16,
    /// Number of frames.
    pub total_frames: usize,
    /// Loop frame (0 when the stored one is past the end).
    pub loop_frame: usize,
    /// Whether the song loops.
    pub loop_enabled: bool,
    /// YMT2 frequency shift.
    pub freq_shift: u8,
    /// Remaining attribute bits.
    pub attributes: u32,
    /// Digidrum samples.
    pub samples: Vec<TrackerSample>,
    /// Pattern lines, frame by frame, voice by voice.
    pub lines: Vec<TrackerLine>,
    /// Output samples per frame.
    pub samples_per_frame: u32,
    /// Metadata.
    pub info: Ym6Info,
}

impl TrackerSong {
    /// Whether this song is the given model, with the metadata the loader
    /// writes.
    pub open spec fn is_model(&self, m: TrackerSongModel) -> bool {
        &&& self.nb_voice == m.nb_voice
        &&& self.player_rate == m.player_rate
        &&& self.total_frames == m.total_frames
        &&& self.loop_frame == m.loop_frame
        &&& self.loop_enabled == m.loop_enabled
        &&& self.freq_shift == m.freq_shift
        &&& self.attributes == m.attributes
        &&& self.samples@.len() == m.samples.len()
        &&& forall|i: int| 0 <= i < m.samples.len() ==> #[trigger] self.samples@[i].model() == m.samples[i]
        &&& self.lines@ == m.lines
        &&& self.samples_per_frame == m.samples_per_frame
        &&& self.info.song_name@ == m.song_name
        &&& self.info.author@ == m.author
        &&& self.info.comment@ == m.comment
        &&& self.info.frame_count == m.total_frames
        &&& self.info.frame_rate == m.player_rate
        &&& self.info.loop_frame == m.loop_frame_raw
        &&& self.info.master_clock == DEFAULT_MASTER_CLOCK
    }
}


/// The models of a run of samples.
pub open spec fn models_of(v: Seq<TrackerSample>) -> Seq<SampleModel> {
    v.map_values(|s: TrackerSample| s.model())
}

/// A parse result with `pre` put before the samples it read.
pub open spec fn extend_samples(
    pre: Seq<SampleModel>,
    r: Result<(Seq<SampleModel>, int), YmLoadError>,
) -> Result<(Seq<SampleModel>, int), YmLoadError> {
    match r {
        Ok((ss, o)) => Ok((pre + ss, o)),
        Err(e) => Err(e),
    }
}

/// Reads one tracker sample at `*offset`.
fn read_tracker_sample(data: &[u8], offset: &mut usize, format: TrackerFormat) -> (r: Result<TrackerSample, YmLoadError>)
    ensures
        match r {
            Ok(s) => sample_at(data@, *old(offset) as int, format) == Ok::<(SampleModel, int), YmLoadError>(
                (s.model(), *final(offset) as int),
            ),
            Err(e) => sample_at(data@, *old(offset) as int, format) == Err::<(SampleModel, int), YmLoadError>(e),
        },
{
    let start = *offset;
    let size_read = read_be_u16(data, offset);
    let size: usize = match size_read {
        Ok(v) => v as usize,
        Err(e) => return Err(e),
    };
    let repeat: usize = match format {
        TrackerFormat::Ymt1 => size,
        TrackerFormat::Ymt2 => {
            let rep = match read_be_u16(data, offset) {
                Ok(v) => v as usize,
                Err(e) => return Err(e),
            };
            match read_be_u16(data, offset) {
                Ok(_) => {},
                Err(e) => return Err(e),
            }
            rep
        },
    };
    let o = *offset;
    if data.len() - o < size {
        return Err(YmLoadError::DigidrumTruncated);
    }
    let bytes = vstd::slice::slice_to_vec(&data[o..o + size]);
    *offset = o + size;
    let m = if repeat < size { repeat } else { size };
    let repeat_len = if m >= 1 { m } else { 1 };
    let sample = TrackerSample { data: bytes, repeat_len };
    proof {
        assert(sample.model().data =~= data@.subrange(o as int, o + size));
    }
    Ok(sample)
}

/// Reads `count` tracker samples one after another from `*offset`.
fn read_tracker_samples(data: &[u8], offset: &mut usize, count: usize, format: TrackerFormat) -> (r: Result<Vec<TrackerSample>, YmLoadError>)
    ensures
        match r {
            Ok(v) => samples_spec(data@, *old(offset) as int, count as nat, format) == Ok::<(Seq<SampleModel>, int), YmLoadError>(
                (models_of(v@), *final(offset) as int),
            ),
            Err(e) => samples_spec(data@, *old(offset) as int, count as nat, format) == Err::<(Seq<SampleModel>, int), YmLoadError>(e),
        },
{
    let ghost start = *offset as int;
    let mut samples: Vec<TrackerSample> = Vec::new();
    let mut i: usize = 0;
    proof {
        assert(models_of(samples@) + Seq::<SampleModel>::empty() =~= Seq::<SampleModel>::empty());
        match samples_spec(data@, start, count as nat, format) {
            Ok((ss, o)) => { assert(models_of(samples@) + ss =~= ss); },
            Err(_) => {},
        }
    }
    while i < count
        invariant
            i <= count,
            start == *old(offset) as int,
            samples@.len() == i,
            samples_spec(data@, start, count as nat, format) == extend_samples(
                models_of(samples@),
                samples_spec(data@, *offset as int, (count - i) as nat, format),
            ),
        decreases count - i,
    {
        let ghost before = *offset as int;
        let ghost pre = models_of(samples@);
        let one = read_tracker_sample(data, offset, format);
        match one {
            Ok(sample) => {
                proof {
                    let k = (count - i) as nat;
                    let rest = samples_spec(data@, *offset as int, (k - 1) as nat, format);
                    assert(samples_spec(data@, before, k, format) == match rest {
                        Err(e) => Err(e),
                        Ok((ss, o2)) => Ok((seq![sample.model()] + ss, o2)),
                    });
                    assert(models_of(samples@.push(sample)) =~= pre.push(sample.model()));
                    match rest {
                        Ok((ss, o2)) => {
                            assert(pre + (seq![sample.model()] + ss) =~= pre.push(sample.model()) + ss);
                        },
                        Err(e) => {},
                    }
                }
                samples.push(sample);
            },
            Err(e) => {
                proof {
                    assert(samples_spec(data@, before, (count - i) as nat, format) == Err::<(Seq<SampleModel>, int), YmLoadError>(e));
                    assert(samples_spec(data@, start, count as nat, format) == Err::<(Seq<SampleModel>, int), YmLoadError>(e));
                }
                return Err(e);
            },
        }
        i = i + 1;
    }
    proof {
        assert(models_of(samples@) + Seq::<SampleModel>::empty() =~= models_of(samples@));
    }
    Ok(samples)
}

/// Splits a pattern byte stream into lines of four bytes.
fn build_lines(bytes: &Vec<u8>, count: usize) -> (lines: Vec<TrackerLine>)
    requires
        bytes@.len() == 4 * count,
        4 * count <= usize::MAX,
    ensures
        lines@ == lines_of(bytes@, count as nat),
{
    let mut lines: Vec<TrackerLine> = Vec::new();
    let mut i: usize = 0;
    while i < count
        invariant
            i <= count,
            bytes@.len() == 4 * count,
            4 * count <= usize::MAX,
            lines@ =~= lines_of(bytes@, i as nat),
        decreases count - i,
    {
        let b = 4 * i;
        lines.push(TrackerLine {
            note_on: bytes[b],
            volume: bytes[b + 1],
            freq_high: bytes[b + 2],
            freq_low: bytes[b + 3],
        });
        i = i + 1;
    }
    lines
}

/// Loads a YM tracker song (YMT1 or YMT2) from its file data.
pub fn parse_ym_tracker(data: &[u8], format: TrackerFormat) -> (r: Result<TrackerSong, YmLoadError>)
    ensures
        match (r, tracker_spec(data@, format)) {
            (Ok(song), Ok(m)) => song.is_model(m) && song.format == format,
            (Err(e), Err(e2)) => e == e2,
            _ => false,
        },
{
    if data.len() < 12 {
        return Err(YmLoadError::TrackerTooSmall);
    }
    let signature: [u8; 8] = [0x4C, 0x65, 0x4F, 0x6E, 0x41, 0x72, 0x44, 0x21];
    let mut k: usize = 0;
    while k < 8
        invariant
            k <= 8,
            data@.len() >= 12,
            signature@ == leonard_signature(),
            forall|j: int| 0 <= j < k ==> data@[4 + j] == leonard_signature()[j],
        decreases 8 - k,
    {
        if data[4 + k] != signature[k] {
            proof {
                assert(data@.subrange(4, 12)[k as int] != leonard_signature()[k as int]);
            }
            return Err(YmLoadError::InvalidTrackerSignature);
        }
        k = k + 1;
    }
    assert(data@.subrange(4, 12) =~= leonard_signature());
    let mut offset: usize = 12;
    let nb_voice: usize = match read_be_u16(data, &mut offset) {
        Ok(v) => v as usize,
        Err(e) => return Err(e),
    };
    if nb_voice == 0 || nb_voice > 8 {
        return Err(YmLoadError::UnsupportedVoiceCount(nb_voice));
    }
    let player_rate: u16 = match read_be_u16(data, &mut offset) {
        Ok(v) => v,
        Err(e) => return Err(e),
    };
    let total_frames: usize = match read_be_u32(data, &mut offset) {
        Ok(v) => v as usize,
        Err(e) => return Err(e),
    };
    let loop_frame_raw: u32 = match read_be_u32(data, &mut offset) {
        Ok(v) => v,
        Err(e) => return Err(e),
    };
    let digidrum_count: usize = match read_be_u16(data, &mut offset) {
        Ok(v) => v as usize,
        Err(e) => return Err(e),
    };
    let attributes0: u32 = match read_be_u32(data, &mut offset) {
        Ok(v) => v,
        Err(e) => return Err(e),
    };
    assert(offset == 30);
    let song_name = match read_c_string(data, &mut offset) {
        Ok(s) => s,
        Err(e) => return Err(e),
    };
    let author = match read_c_string(data, &mut offset) {
        Ok(s) => s,
        Err(e) => return Err(e),
    };
    let comment = match read_c_string(data, &mut offset) {
        Ok(s) => s,
        Err(e) => return Err(e),
    };
    let samples = match read_tracker_samples(data, &mut offset, digidrum_count, format) {
        Ok(v) => v,
        Err(e) => return Err(e),
    };
    if total_frames == 0 {
        return Err(YmLoadError::ZeroFrames);
    }
    let line_count: usize = match nb_voice.checked_mul(total_frames) {
        Some(n) => n,
        None => return Err(YmLoadError::FrameCountOverflow),
    };
    let frame_bytes: usize = match line_count.checked_mul(4) {
        Some(n) => n,
        None => return Err(YmLoadError::DataSizeOverflow),
    };
    if offset > data.len() || data.len() - offset < frame_bytes {
        return Err(YmLoadError::PatternTruncated);
    }
    let raw = &data[offset..offset + frame_bytes];
    let mut attributes = attributes0;
    let tracker_bytes: Vec<u8> = if (attributes & ATTR_STREAM_INTERLEAVED) != 0 {
        proof {
            assert(4 * nb_voice * total_frames == nb_voice * total_frames * 4) by (nonlinear_arith);
        }
        let out = deinterleave_tracker_bytes(raw, nb_voice, total_frames);
        attributes = attributes & !ATTR_STREAM_INTERLEAVED;
        out
    } else {
        vstd::slice::slice_to_vec(raw)
    };
    let freq_shift: u8 = match format {
        TrackerFormat::Ymt2 => {
            let a = attributes;
            assert((a >> 28u32) & 0x0Fu32 < 16) by (bit_vector);
            let shift = ((a >> 28) & 0x0F) as u8;
            attributes = a & 0x0FFF_FFFF;
            shift
        },
        TrackerFormat::Ymt1 => 0,
    };
    let loop_enabled = (attributes & ATTR_LOOP_MODE) != 0;
    let lines = build_lines(&tracker_bytes, line_count);
    let loop_frame: usize = if (loop_frame_raw as usize) < total_frames { loop_frame_raw as usize } else { 0 };
    let samples_per_frame: u32 = if player_rate > 0 {
        let q = SAMPLE_RATE / (player_rate as u32);
        if q >= 1 { q } else { 1 }
    } else {
        0
    };
    let info = Ym6Info {
        song_name,
        author,
        comment,
        frame_count: total_frames as u32,
        frame_rate: player_rate,
        loop_frame: loop_frame_raw,
        master_clock: DEFAULT_MASTER_CLOCK,
    };
    let song = TrackerSong {
        format,
        nb_voice,
        player_rate,
        total_frames,
        loop_frame,
        loop_enabled,
        freq_shift,
        attributes,
        samples,
        lines,
        samples_per_frame,
        info,
    };
    Ok(song)
}


/// The loop point a loader keeps: none for an empty song; a stored zero
/// loops to the start only when `zero_loops`; other frames are kept when
/// inside the song.
pub open spec fn normalize_loop_point_spec(loop_frame: nat, frame_len: nat, zero_loops: bool) -> Option<nat> {
    if frame_len == 0 {
        None
    } else if loop_frame == 0 {
        if zero_loops { Some(0) } else { None }
    } else if loop_frame < frame_len {
        Some(loop_frame)
    } else {
        None
    }
}

/// Turns a stored loop frame into a loop point of a song of `frame_len`
/// frames.
pub fn normalize_loop_point(loop_frame: u32, frame_len: usize, treat_zero_as_loop: bool) -> (r: Option<usize>)
    ensures
        match (r, normalize_loop_point_spec(loop_frame as nat, frame_len as nat, treat_zero_as_loop)) {
            (Some(a), Some(b)) => a == b,
            (None, None) => true,
            _ => false,
        },
{
    if frame_len == 0 {
        return None;
    }
    if loop_frame == 0 {
        if treat_zero_as_loop { Some(0) } else { None }
    } else {
        let idx = loop_frame as usize;
        if idx < frame_len { Some(idx) } else { None }
    }
}

/// The loop point of a YM3b file: its last four bytes, big-endian, taken
/// as a loop frame, provided the file holds its tag, whole 14-byte frames
/// and that footer.
pub open spec fn ym3b_loop_point_spec(d: Seq<u8>, frame_count: nat, zero_loops: bool) -> Option<nat> {
    if d.len() < 8 || frame_count == 0 {
        None
    } else if (d.len() - 8) % 14 != 0 {
        None
    } else {
        normalize_loop_point_spec(be_u32_at(d, d.len() - 4) as nat, frame_count, zero_loops)
    }
}

/// Reads the loop point from the footer of a YM3b file.
pub fn extract_ym3b_loop_point(data: &[u8], frame_count: usize, treat_zero_as_loop: bool) -> (r: Option<usize>)
    ensures
        match (r, ym3b_loop_point_spec(data@, frame_count as nat, treat_zero_as_loop)) {
            (Some(a), Some(b)) => a == b,
            (None, None) => true,
            _ => false,
        },
{
    if data.len() < 8 || frame_count == 0 {
        return None;
    }
    let payload_len = data.len() - 4;
    let n = data.len();
    let loop_raw: u32 = (data[n - 4] as u32) * 16777216 + (data[n - 3] as u32) * 65536
        + (data[n - 2] as u32) * 256 + data[n - 1] as u32;
    let frame_bytes = payload_len - 4;
    if frame_bytes % 14 != 0 {
        return None;
    }
    normalize_loop_point(loop_raw, frame_count, treat_zero_as_loop)
}

/// Samples per frame at the output rate for a frame rate in Hz; a rate of
/// zero counts as 50 Hz.
pub open spec fn samples_per_frame_spec(frame_rate: nat) -> nat {
    if frame_rate > 0 { 44100nat / frame_rate } else { 44100nat / 50 }
}

/// Samples per frame for a frame rate (44100 divided by the rate, whole
/// samples).
pub fn calculate_samples_per_frame(frame_rate: u16) -> (n: u32)
    ensures
        n == samples_per_frame_spec(frame_rate as nat),
{
    let rate: u32 = if frame_rate > 0 { frame_rate as u32 } else { 50 };
    SAMPLE_RATE / rate
}

/// The format whose tag starts the data, if any.
pub open spec fn format_of_tag(tag: Seq<u8>) -> Option<YmFileFormat> {
    if tag == format_tag(YmFileFormat::Ym2) { Some(YmFileFormat::Ym2) }
    else if tag == format_tag(YmFileFormat::Ym3) { Some(YmFileFormat::Ym3) }
    else if tag == format_tag(YmFileFormat::Ym3b) { Some(YmFileFormat::Ym3b) }
    else if tag == format_tag(YmFileFormat::Ym4) { Some(YmFileFormat::Ym4) }
    else if tag == format_tag(YmFileFormat::Ym5) { Some(YmFileFormat::Ym5) }
    else if tag == format_tag(YmFileFormat::Ym6) { Some(YmFileFormat::Ym6) }
    else if tag == format_tag(YmFileFormat::Ymt1) { Some(YmFileFormat::Ymt1) }
    else if tag == format_tag(YmFileFormat::Ymt2) { Some(YmFileFormat::Ymt2) }
    else { None }
}

/// Tells the format of (decompressed) YM data by its four-byte tag.
pub fn detect_format(data: &[u8]) -> (r: Result<YmFileFormat, YmLoadError>)
    ensures
        data@.len() < 4 ==> r == Err::<YmFileFormat, YmLoadError>(YmLoadError::DataTooShort),
        data@.len() >= 4 ==> match format_of_tag(data@.subrange(0, 4)) {
            Some(f) => r == Ok::<YmFileFormat, YmLoadError>(f),
            None => r == Err::<YmFileFormat, YmLoadError>(YmLoadError::UnsupportedFormat),
        },
{
    if data.len() < 4 {
        return Err(YmLoadError::DataTooShort);
    }
    let a = data[0];
    let b = data[1];
    let c = data[2];
    let d = data[3];
    let ghost tag = data@.subrange(0, 4);
    assert(tag =~= seq![a, b, c, d]);
    if a != 0x59 || b != 0x4D {
        assert(format_of_tag(tag) is None);
        return Err(YmLoadError::UnsupportedFormat);
    }
    let f = if c == 0x32 && d == 0x21 {
        YmFileFormat::Ym2
    } else if c == 0x33 && d == 0x21 {
        YmFileFormat::Ym3
    } else if c == 0x33 && d == 0x62 {
        YmFileFormat::Ym3b
    } else if c == 0x34 && d == 0x21 {
        YmFileFormat::Ym4
    } else if c == 0x35 && d == 0x21 {
        YmFileFormat::Ym5
    } else if c == 0x36 && d == 0x21 {
        YmFileFormat::Ym6
    } else if c == 0x54 && d == 0x31 {
        YmFileFormat::Ymt1
    } else if c == 0x54 && d == 0x32 {
        YmFileFormat::Ymt2
    } else {
        assert(format_of_tag(tag) is None);
        return Err(YmLoadError::UnsupportedFormat);
    };
    assert(format_tag(f) =~= tag);
    Ok(f)
}

/// Splits a YM2 file into register frames. Errors: shorter than the tag,
/// or a payload that is empty or not a multiple of 14 bytes.
pub fn ym2_frames(data: &[u8]) -> (r: Result<Vec<[u8; 16]>, YmLoadError>)
    ensures
        data@.len() < 4 ==> r == Err::<Vec<[u8; 16]>, YmLoadError>(YmLoadError::Ym2TooSmall),
        data@.len() >= 4 && (data@.len() == 4 || (data@.len() - 4) % 14 != 0) ==> r == Err::<Vec<[u8; 16]>, YmLoadError>(
            YmLoadError::Ym2PayloadSize((data@.len() - 4) as usize),
        ),
        data@.len() > 4 && (data@.len() - 4) % 14 == 0 ==> (r matches Ok(frames) && frames@.len() == (data@.len() - 4) / 14
            && forall|j: int, k: int| 0 <= j < frames@.len() && 0 <= k < 16 ==> #[trigger] frames@[j]@[k] == (if k < 14 {
                data@[4 + j + frames@.len() * k]
            } else {
                0u8
            })),
{
    if data.len() < 4 {
        return Err(YmLoadError::Ym2TooSmall);
    }
    let payload_len = data.len() - 4;
    if payload_len == 0 || payload_len % 14 != 0 {
        return Err(YmLoadError::Ym2PayloadSize(payload_len));
    }
    let frame_count = payload_len / 14;
    assert(frame_count * 14 == payload_len);
    let mut frames: Vec<[u8; 16]> = Vec::new();
    let mut j: usize = 0;
    while j < frame_count
        invariant
            j <= frame_count,
            frame_count * 14 == payload_len,
            payload_len == data@.len() - 4,
            data@.len() <= usize::MAX,
            frames@.len() == j,
            forall|jj: int, k: int| 0 <= jj < j && 0 <= k < 16 ==> #[trigger] frames@[jj]@[k] == (if k < 14 {
                data@[4 + jj + frame_count * k]
            } else {
                0u8
            }),
        decreases frame_count - j,
    {
        let mut frame = [0u8; 16];
        let mut k: usize = 0;
        while k < 14
            invariant
                j < frame_count,
                k <= 14,
                frame_count * 14 == payload_len,
                payload_len == data@.len() - 4,
                data@.len() <= usize::MAX,
                forall|kk: int| 0 <= kk < 16 ==> #[trigger] frame@[kk] == (if kk < k {
                    data@[4 + j + frame_count * kk]
                } else {
                    0u8
                }),
            decreases 14 - k,
        {
            proof {
                assert(j + frame_count * k < frame_count * 14) by (nonlinear_arith)
                    requires
                        j < frame_count,
                        k < 14,
                ;
            }
            let idx = 4 + j + frame_count * k;
            frame[k] = data[idx];
            k = k + 1;
        }
        frames.push(frame);
        j = j + 1;
    }
    Ok(frames)
}

/// Checks a samples-per-frame setting: not zero and at most 10000 (below
/// that a frame rate would fall under 4.41 Hz).
pub fn check_samples_per_frame(samples: u32) -> (r: Result<u32, YmLoadError>)
    ensures
        samples == 0 ==> r == Err::<u32, YmLoadError>(YmLoadError::SamplesPerFrameZero),
        samples > 10000 ==> r == Err::<u32, YmLoadError>(YmLoadError::SamplesPerFrameTooLarge(samples)),
        0 < samples <= 10000 ==> r == Ok::<u32, YmLoadError>(samples),
{
    if samples == 0 {
        return Err(YmLoadError::SamplesPerFrameZero);
    }
    if samples > 10000 {
        return Err(YmLoadError::SamplesPerFrameTooLarge(samples));
    }
    Ok(samples)
}

/// Checks a sync buzzer timer frequency: it must not be zero.
pub fn check_sync_buzzer_frequency(timer_freq: u32) -> (r: Result<u32, YmLoadError>)
    ensures
        timer_freq == 0 ==> r == Err::<u32, YmLoadError>(YmLoadError::SyncBuzzerZeroFrequency),
        timer_freq > 0 ==> r == Ok::<u32, YmLoadError>(timer_freq),
{
    if timer_freq == 0 {
        return Err(YmLoadError::SyncBuzzerZeroFrequency);
    }
    Ok(timer_freq)
}

/// A new loop frame for a song of register frames: inside the song it is
/// kept, together with the metadata's loop frame; outside, looping is off
/// and the metadata's loop frame is zero.
pub fn frame_loop_setting(frame: usize, frame_len: usize) -> (r: (Option<usize>, u32))
    ensures
        frame < frame_len ==> r.0 == Some(frame) && r.1 == frame as u32,
        frame >= frame_len ==> r.0 is None && r.1 == 0,
{
    if frame < frame_len {
        (Some(frame), frame as u32)
    } else {
        (None, 0)
    }
}

/// A new loop frame for a tracker song of `total_frames` frames: whether
/// it loops, its loop frame and the metadata's loop frame.
pub fn tracker_loop_setting(frame: usize, total_frames: usize) -> (r: (bool, usize, u32))
    ensures
        total_frames > 0 && frame < total_frames ==> r == (true, frame, frame as u32),
        total_frames == 0 || frame >= total_frames ==> r == (false, 0usize, 0u32),
{
    if total_frames == 0 {
        return (false, 0, 0);
    }
    if frame < total_frames {
        (true, frame, frame as u32)
    } else {
        (false, 0, 0)
    }
}


/// A player as values: the chip, the playback state, the frames, the
/// position (frame and sample within it), the frame length in samples,
/// the loop point, whether frames follow the YM2 (Mad Max) rules, and a
/// loaded tracker song: its frame count and, when it loops, its loop frame.
pub struct PlayerModel {
    pub chip: PsgState,
    pub state: PlaybackState,
    pub frames: Seq<[u8; 16]>,
    pub current_frame: nat,
    pub samples_in_frame: nat,
    pub samples_per_frame: nat,
    pub loop_point: Option<nat>,
    pub ym2_mode: bool,
    pub tracker: Option<(nat, Option<nat>)>,
}

/// The register writes of one frame: registers 0 to 12 in order, then the
/// envelope shape (register 13) unless the frame holds 0xFF there, which
/// leaves the running envelope alone. Registers 14 and 15 are not chip
/// registers.
pub open spec fn frame_writes(chip: PsgState, regs: Seq<u8>) -> PsgState {
    let c = load_frame_model(chip, regs, 13);
    if regs[13] != 0xFF { write_reg_model(c, 13, regs[13]) } else { c }
}

/// Writing registers `0..n` of a frame leaves each of them holding the
/// frame's byte under the register's width mask, and the others as they
/// were.
proof fn lemma_load_frame_regs(chip: PsgState, regs: Seq<u8>, n: int)
    requires
        chip.regs.len() == 14,
        0 <= n <= 14,
        regs.len() >= n,
    ensures
        load_frame_model(chip, regs, n).regs.len() == 14,
        forall|r: int|
            0 <= r < 14 ==> #[trigger] load_frame_model(chip, regs, n).regs[r] == if r < n {
                regs[r] & crate::tables::reg_mask_spec(r)
            } else {
                chip.regs[r]
            },
    decreases n,
{
    if n > 0 {
        lemma_load_frame_regs(chip, regs, n - 1);
        let c = load_frame_model(chip, regs, n - 1);
        assert(load_frame_model(chip, regs, n) == write_reg_model(c, n - 1, regs[n - 1]));
    }
}

/// What a frame leaves in the chip: every register 0 to 12 holds the
/// frame's byte under the register's width mask, and register 13 too
/// unless the frame holds 0xFF there, in which case it keeps its value.
pub proof fn lemma_frame_sets_registers(chip: PsgState, regs: Seq<u8>)
    requires
        chip.regs.len() == 14,
        regs.len() >= 14,
    ensures
        frame_writes(chip, regs).regs.len() == 14,
        forall|r: int|
            0 <= r < 13 ==> #[trigger] frame_writes(chip, regs).regs[r] == regs[r]
                & crate::tables::reg_mask_spec(r),
        regs[13] != 0xFF ==> frame_writes(chip, regs).regs[13] == regs[13] & crate::tables::reg_mask_spec(
            13,
        ),
        regs[13] == 0xFF ==> frame_writes(chip, regs).regs[13] == chip.regs[13],
{
    lemma_load_frame_regs(chip, regs, 13);
}

/// What a YM2 frame leaves in the chip: registers 0 to 10 (but the mixer)
/// hold the frame's bytes under their width masks; unless the frame holds
/// 0xFF in register 13, register 11 holds the frame's byte, register 12
/// zero and register 13 shape 10, else the three keep their values; the
/// mixer holds the frame's byte, with channel C's tone and noise switched
/// off when bit 7 of register 10 is set.
pub proof fn lemma_ym2_frame_sets_registers(chip: PsgState, regs: Seq<u8>)
    requires
        chip.regs.len() == 14,
        regs.len() >= 14,
    ensures
        ({
            let out = ym2_frame_writes(chip, regs).regs;
            &&& out.len() == 14
            &&& forall|r: int|
                0 <= r < 11 && r != 7 ==> #[trigger] out[r] == regs[r] & crate::tables::reg_mask_spec(r)
            &&& regs[10] & 0x80 == 0 ==> out[7] == regs[7]
            &&& regs[10] & 0x80 != 0 ==> out[7] == regs[7] | 0x24
            &&& regs[13] != 0xFF ==> out[11] == regs[11] && out[12] == 0 && out[13] == 0x0Au8
                & crate::tables::reg_mask_spec(13)
            &&& regs[13] == 0xFF ==> out[11] == chip.regs[11] && out[12] == chip.regs[12] && out[13]
                == chip.regs[13]
        }),
{
    lemma_load_frame_regs(chip, regs, 11);
    let c = load_frame_model(chip, regs, 11);
    assert(forall|x: u8| #[trigger] (x & 0xffu8) == x) by (bit_vector);
    assert(0u8 & 0xffu8 == 0u8) by (bit_vector);
    let c2 = if regs[13] != 0xFF {
        write_reg_model(write_reg_model(write_reg_model(c, 11, regs[11]), 12, 0), 13, 0x0A)
    } else {
        c
    };
    assert(c2.regs.len() == 14);
    assert(c2.regs[7] == regs[7]);
}

/// The register writes of one YM2 (Mad Max) frame: registers 0 to 10;
/// unless the frame holds 0xFF in register 13, register 11 from the frame,
/// register 12 zero and envelope shape 10; and when bit 7 of register 10 is
/// set (a drum on channel C), channel C's tone and noise are switched off
/// in the mixer.
pub open spec fn ym2_frame_writes(chip: PsgState, regs: Seq<u8>) -> PsgState {
    let c = load_frame_model(chip, regs, 11);
    let c2 = if regs[13] != 0xFF {
        write_reg_model(write_reg_model(write_reg_model(c, 11, regs[11]), 12, 0), 13, 0x0A)
    } else {
        c
    };
    if regs[10] & 0x80 != 0 {
        write_reg_model(c2, 7, c2.regs[7] | 0x24)
    } else {
        c2
    }
}

/// The writes of the frame at the current position, by the player's rules.
pub open spec fn current_frame_writes(m: PlayerModel) -> PsgState {
    let regs = m.frames[m.current_frame as int]@;
    if m.ym2_mode {
        ym2_frame_writes(m.chip, regs)
    } else {
        frame_writes(m.chip, regs)
    }
}

/// The position after one sample: the sample count within the frame goes
/// up, and when it reaches the frame length the next frame starts; after
/// the last frame playback goes to the loop point, or stops.
pub open spec fn advance_model(m: PlayerModel) -> PlayerModel {
    let s = m.samples_in_frame + 1;
    if s >= m.samples_per_frame {
        if m.current_frame + 1 >= m.frames.len() {
            match m.loop_point {
                Some(l) => PlayerModel { samples_in_frame: 0, current_frame: l, ..m },
                None => PlayerModel { samples_in_frame: 0, state: PlaybackState::Stopped, ..m },
            }
        } else {
            PlayerModel { samples_in_frame: 0, current_frame: m.current_frame + 1, ..m }
        }
    } else {
        PlayerModel { samples_in_frame: s, ..m }
    }
}

/// One output sample: silence unless playing a song with frames; at the
/// start of a frame its registers are written; then the chip computes a
/// sample, which it keeps as its last one, and the position advances.
pub open spec fn generate_sample_model(m: PlayerModel) -> (PlayerModel, i16) {
    if m.state != PlaybackState::Playing || m.frames.len() == 0 {
        (m, 0)
    } else {
        let c1 = if m.samples_in_frame == 0 { current_frame_writes(m) } else { m.chip };
        let (c2, sample) = next_sample_model(c1);
        let m2 = PlayerModel { chip: PsgState { last_sample: sample, ..c2 }, ..m };
        (advance_model(m2), sample)
    }
}

/// `n` samples in a row: the state after them.
pub open spec fn run_samples(m: PlayerModel, n: nat) -> PlayerModel
    decreases n,
{
    if n == 0 { m } else { run_samples(generate_sample_model(m).0, (n - 1) as nat) }
}

/// One more sample after `n` is one step of the state after `n`.
pub proof fn lemma_run_samples_step(m: PlayerModel, n: nat)
    ensures
        run_samples(m, n + 1) == generate_sample_model(run_samples(m, n)).0,
    decreases n,
{
    let m1 = generate_sample_model(m).0;
    assert(run_samples(m, n + 1) == run_samples(m1, n));
    if n > 0 {
        lemma_run_samples_step(m1, (n - 1) as nat);
        assert(run_samples(m, n) == run_samples(m1, (n - 1) as nat));
    } else {
        assert(run_samples(m1, 0) == m1);
    }
}

/// Number of frames: of the tracker song when one is loaded, else of the
/// register frames.
pub open spec fn frame_count_of(m: PlayerModel) -> nat {
    match m.tracker {
        Some(t) => t.0,
        None => m.frames.len(),
    }
}

/// The position inside the song, in samples from its start.
pub open spec fn sample_position(m: PlayerModel) -> nat {
    m.current_frame * m.samples_per_frame + m.samples_in_frame
}

/// The position is inside the song: a frame of it (frame 0 of an empty
/// song), a sample count below the frame length, a loop point inside it.
pub open spec fn position_valid(m: PlayerModel) -> bool {
    &&& (m.frames.len() > 0 ==> m.current_frame < m.frames.len())
    &&& (m.frames.len() == 0 ==> m.current_frame == 0)
    &&& (m.samples_per_frame > 0 ==> m.samples_in_frame < m.samples_per_frame)
    &&& (m.samples_per_frame == 0 ==> m.samples_in_frame == 0)
    &&& (m.loop_point matches Some(l) ==> l < m.frames.len())
}

/// Player of register-frame songs: writes each frame's registers to the
/// chip and renders its samples, looping or stopping at the end.
pub struct Ym6Player {
    chip: Ym2149,
    state: PlaybackState,
    frames: Vec<[u8; 16]>,
    current_frame: usize,
    samples_in_frame: u32,
    samples_per_frame: u32,
    loop_point: Option<usize>,
    info: Option<Ym6Info>,
    is_ym2_mode: bool,
    tracker: Option<TrackerSong>,
    sync_buzzer: Option<u32>,
}

impl View for Ym6Player {
    type V = PlayerModel;

    closed spec fn view(&self) -> PlayerModel {
        PlayerModel {
            chip: self.chip@,
            state: self.state,
            frames: self.frames@,
            current_frame: self.current_frame as nat,
            samples_in_frame: self.samples_in_frame as nat,
            samples_per_frame: self.samples_per_frame as nat,
            loop_point: match self.loop_point {
                Some(l) => Some(l as nat),
                None => None,
            },
            ym2_mode: self.is_ym2_mode,
            tracker: match self.tracker {
                Some(t) => Some(
                    (
                        t.total_frames as nat,
                        if t.loop_enabled {
                            Some(t.loop_frame as nat)
                        } else {
                            None
                        },
                    ),
                ),
                None => None,
            },
        }
    }
}

impl Ym6Player {
    /// The chip is well formed and the position inside the song.
    pub closed spec fn wf(&self) -> bool {
        &&& self.chip.wf()
        &&& position_valid(self@)
    }

    /// An empty, stopped player: no frames, 882 samples per frame (50 Hz at
    /// 44.1 kHz), no loop, no metadata, a fresh chip.
    pub fn new() -> (p: Self)
        ensures
            p.wf(),
            p@.state == PlaybackState::Stopped,
            p@.frames.len() == 0,
            p@.current_frame == 0,
            p@.samples_in_frame == 0,
            p@.samples_per_frame == 882,
            p@.loop_point is None,
            !p@.ym2_mode,
            p@.tracker is None,
            p.info_spec() is None,
            p.sync_buzzer_spec() is None,
    {
        Ym6Player {
            chip: Ym2149::new(),
            state: PlaybackState::Stopped,
            frames: Vec::new(),
            current_frame: 0,
            samples_in_frame: 0,
            samples_per_frame: 882,
            loop_point: None,
            info: None,
            is_ym2_mode: false,
            tracker: None,
            sync_buzzer: None,
        }
    }

    /// The metadata, as a spec value.
    pub closed spec fn info_spec(&self) -> Option<Ym6Info> {
        self.info
    }

    /// The tracker song held, when one is loaded.
    pub closed spec fn tracker_song_spec(&self) -> Option<TrackerSong> {
        self.tracker
    }

    /// The sync buzzer's timer frequency while it is enabled.
    pub closed spec fn sync_buzzer_spec(&self) -> Option<u32> {
        self.sync_buzzer
    }

    /// Loads register frames: playback starts over at frame 0, without a
    /// loop; the frame length and metadata are kept.
    pub fn load_frames(&mut self, frames: Vec<[u8; 16]>)
        requires
            old(self).wf(),
        ensures
            final(self).wf(),
            final(self)@ == (PlayerModel {
                frames: frames@,
                current_frame: 0,
                samples_in_frame: 0,
                loop_point: None,
                ym2_mode: false,
                tracker: None,
                ..old(self)@
            }),
            final(self).info_spec() == old(self).info_spec(),
            final(self).sync_buzzer_spec() is None,
    {
        self.sync_buzzer = None;
        self.frames = frames;
        self.current_frame = 0;
        self.samples_in_frame = 0;
        self.loop_point = None;
        self.is_ym2_mode = false;
        self.tracker = None;
    }

    /// Loads a YM2 (Mad Max) song: its frames, played by the YM2 rules at
    /// 50 Hz from the first frame, without a loop, with metadata that names
    /// the format. On an error the player is left as it was.
    pub fn load_ym2(&mut self, data: &[u8]) -> (r: Result<(), YmLoadError>)
        requires
            old(self).wf(),
        ensures
            final(self).wf(),
            data@.len() < 4 ==> r == Err::<(), YmLoadError>(YmLoadError::Ym2TooSmall) && final(self)@
                == old(self)@ && final(self).info_spec() == old(self).info_spec(),
            data@.len() >= 4 && (data@.len() == 4 || (data@.len() - 4) % 14 != 0) ==> r == Err::<
                (),
                YmLoadError,
            >(YmLoadError::Ym2PayloadSize((data@.len() - 4) as usize)) && final(self)@ == old(self)@
                && final(self).info_spec() == old(self).info_spec(),
            data@.len() > 4 && (data@.len() - 4) % 14 == 0 ==> {
                let n = (data@.len() - 4) / 14;
                &&& r is Ok
                &&& final(self)@ == (PlayerModel {
                    frames: final(self)@.frames,
                    current_frame: 0,
                    samples_in_frame: 0,
                    samples_per_frame: 882,
                    loop_point: None,
                    ym2_mode: true,
                    tracker: None,
                    ..old(self)@
                })
                &&& final(self)@.frames.len() == n
                &&& forall|j: int, k: int|
                    0 <= j < n && 0 <= k < 16 ==> #[trigger] final(self)@.frames[j]@[k] == (if k
                        < 14 {
                        data@[4 + j + n * k]
                    } else {
                        0u8
                    })
                &&& final(self).info_spec() matches Some(info) && info.song_name@.len() == 0
                    && info.author@.len() == 0 && info.comment@ == "YM2 (Mad Max) format"@
                    && info.frame_count == n as u32 && info.frame_rate == 50 && info.loop_frame == 0
                    && info.master_clock == 2_000_000
                &&& final(self).sync_buzzer_spec() is None
            },
    {
        proof {
            reveal_strlit("YM2 (Mad Max) format");
        }
        let frames = match ym2_frames(data) {
            Ok(f) => f,
            Err(e) => {
                return Err(e);
            },
        };
        let count = frames.len();
        self.frames = frames;
        self.current_frame = 0;
        self.samples_in_frame = 0;
        self.samples_per_frame = calculate_samples_per_frame(50);
        self.loop_point = None;
        self.is_ym2_mode = true;
        self.tracker = None;
        self.sync_buzzer = None;
        self.info = Some(
            Ym6Info {
                song_name: String::new(),
                author: String::new(),
                comment: String::from_str("YM2 (Mad Max) format"),
                frame_count: count as u32,
                frame_rate: 50,
                loop_frame: 0,
                master_clock: 2_000_000,
            },
        );
        Ok(())
    }

    /// Loads a tracker song (YMT1 or YMT2): playback starts over with no
    /// register frames, no frame loop and frame rules other than YM2, at the
    /// song's frame length; the song's frame count and loop take over, and
    /// its metadata replaces the player's, and the song is held. The song's
    /// lines are not rendered into samples (see `generate_sample`). On an
    /// error the player is left as it was.
    pub fn load_ym_tracker(&mut self, data: &[u8], format: TrackerFormat) -> (r: Result<(), YmLoadError>)
        requires
            old(self).wf(),
        ensures
            final(self).wf(),
            match (r, tracker_spec(data@, format)) {
                (Err(e), Err(e2)) => {
                    &&& e == e2
                    &&& final(self)@ == old(self)@
                    &&& final(self).info_spec() == old(self).info_spec()
                    &&& final(self).sync_buzzer_spec() == old(self).sync_buzzer_spec()
                    &&& final(self).tracker_song_spec() == old(self).tracker_song_spec()
                },
                (Ok(_), Ok(m)) => {
                    &&& final(self)@ == (PlayerModel {
                        frames: Seq::empty(),
                        current_frame: 0,
                        samples_in_frame: 0,
                        samples_per_frame: m.samples_per_frame,
                        loop_point: None,
                        ym2_mode: false,
                        tracker: Some(
                            (
                                m.total_frames,
                                if m.loop_enabled {
                                    Some(m.loop_frame)
                                } else {
                                    None
                                },
                            ),
                        ),
                        ..old(self)@
                    })
                    &&& final(self).info_spec() matches Some(info) && info.song_name@ == m.song_name
                        && info.author@ == m.author && info.comment@ == m.comment && info.frame_count
                        == m.total_frames && info.frame_rate == m.player_rate && info.loop_frame
                        == m.loop_frame_raw && info.master_clock == DEFAULT_MASTER_CLOCK
                    &&& final(self).sync_buzzer_spec() is None
                    &&& final(self).tracker_song_spec() matches Some(song) && song.is_model(m)
                        && song.format == format
                },
                _ => false,
            },
    {
        let song = match parse_ym_tracker(data, format) {
            Ok(song) => song,
            Err(e) => {
                return Err(e);
            },
        };
        let info = Ym6Info {
            song_name: song.info.song_name.clone(),
            author: song.info.author.clone(),
            comment: song.info.comment.clone(),
            frame_count: song.info.frame_count,
            frame_rate: song.info.frame_rate,
            loop_frame: song.info.loop_frame,
            master_clock: song.info.master_clock,
        };
        self.frames = Vec::new();
        self.current_frame = 0;
        self.samples_in_frame = 0;
        self.loop_point = None;
        self.samples_per_frame = song.samples_per_frame;
        self.is_ym2_mode = false;
        self.tracker = Some(song);
        self.info = Some(info);
        self.sync_buzzer = None;
        Ok(())
    }

    /// Sets the loop frame: a frame inside the song becomes the loop point
    /// (and the metadata's loop frame); another turns looping off (the
    /// metadata's loop frame becomes zero).
    pub fn set_loop_frame(&mut self, frame: usize)
        requires
            old(self).wf(),
        ensures
            final(self).wf(),
            old(self)@.tracker is None ==> final(self)@ == (PlayerModel {
                loop_point: if frame < old(self)@.frames.len() { Some(frame as nat) } else { None },
                ..old(self)@
            }),
            old(self)@.tracker matches Some(t) ==> final(self)@ == (PlayerModel {
                tracker: Some((t.0, if frame < t.0 { Some(frame as nat) } else { None })),
                ..old(self)@
            }),
            match (old(self).info_spec(), final(self).info_spec()) {
                (Some(a), Some(b)) => b.loop_frame == (if frame < frame_count_of(old(self)@) { frame as u32 } else { 0 })
                    && b.frame_count == a.frame_count && b.frame_rate == a.frame_rate,
                (None, None) => true,
                _ => false,
            },
    {
        let info_frame = match self.tracker.take() {
            Some(mut t) => {
                let (enabled, loop_frame, info_frame) = tracker_loop_setting(frame, t.total_frames);
                t.loop_enabled = enabled;
                t.loop_frame = loop_frame;
                self.tracker = Some(t);
                info_frame
            },
            None => {
                let (point, info_frame) = frame_loop_setting(frame, self.frames.len());
                self.loop_point = point;
                info_frame
            },
        };
        if let Some(info) = self.info.as_mut() {
            info.loop_frame = info_frame;
        }
    }

    /// Number of frames of the song (of the tracker song, when one is loaded).
    pub fn frame_count(&self) -> (n: usize)
        ensures
            n == frame_count_of(self@),
    {
        match &self.tracker {
            Some(t) => t.total_frames,
            None => self.frames.len(),
        }
    }

    /// Samples per frame.
    pub fn samples_per_frame_value(&self) -> (n: u32)
        ensures
            n == self@.samples_per_frame,
    {
        self.samples_per_frame
    }

    /// The loop point, if any (of the tracker song, when one is loaded).
    pub fn loop_point_value(&self) -> (r: Option<usize>)
        ensures
            match (
                r,
                match self@.tracker {
                    Some(t) => t.1,
                    None => self@.loop_point,
                },
            ) {
                (Some(a), Some(b)) => a == b,
                (None, None) => true,
                _ => false,
            },
    {
        match &self.tracker {
            Some(t) => if t.loop_enabled {
                Some(t.loop_frame)
            } else {
                None
            },
            None => self.loop_point,
        }
    }

    /// A copy of the frames; none for a tracker song.
    pub fn frames_clone(&self) -> (r: Option<Vec<[u8; 16]>>)
        ensures
            self@.tracker is Some ==> r is None,
            self@.tracker is None ==> (r matches Some(v) && v@ == self@.frames),
    {
        if self.tracker.is_some() {
            return None;
        }
        let mut out: Vec<[u8; 16]> = Vec::new();
        let mut i: usize = 0;
        while i < self.frames.len()
            invariant
                i <= self.frames@.len(),
                out@ == self.frames@.subrange(0, i as int),
            decreases self.frames@.len() - i,
        {
            out.push(self.frames[i]);
            i = i + 1;
            assert(out@ =~= self.frames@.subrange(0, i as int));
        }
        assert(out@ =~= self.frames@);
        Some(out)
    }

    /// Whether a tracker song is loaded.
    pub fn is_tracker_mode(&self) -> (r: bool)
        ensures
            r == self@.tracker is Some,
    {
        self.tracker.is_some()
    }

    /// Sets the frame length in samples, after checking it (not zero, at
    /// most 10000).
    pub fn set_samples_per_frame(&mut self, samples: u32) -> (r: Result<(), YmLoadError>)
        requires
            old(self).wf(),
        ensures
            final(self).wf(),
            samples == 0 ==> r == Err::<(), YmLoadError>(YmLoadError::SamplesPerFrameZero) && final(self)@ == old(self)@,
            samples > 10000 ==> r == Err::<(), YmLoadError>(YmLoadError::SamplesPerFrameTooLarge(samples)) && final(self)@ == old(self)@,
            0 < samples <= 10000 ==> r is Ok && final(self)@ == (PlayerModel {
                samples_per_frame: samples as nat,
                samples_in_frame: if old(self)@.samples_in_frame < samples { old(self)@.samples_in_frame } else { 0 },
                ..old(self)@
            }),
    {
        match check_samples_per_frame(samples) {
            Ok(v) => {
                self.samples_per_frame = v;
                if self.samples_in_frame >= v {
                    self.samples_in_frame = 0;
                }
                Ok(())
            },
            Err(e) => Err(e),
        }
    }

    /// Writes the registers of the current frame to the chip.
    fn load_frame_registers(&mut self)
        requires
            old(self).wf(),
            old(self)@.frames.len() > 0,
        ensures
            final(self).wf(),
            final(self)@ == (PlayerModel { chip: current_frame_writes(old(self)@), ..old(self)@ }),
    {
        let regs = self.frames[self.current_frame];
        let ghost c0 = self.chip@;
        let last: usize = if self.is_ym2_mode {
            11
        } else {
            13
        };
        let mut r: usize = 0;
        while r < last
            invariant
                r <= last,
                last == (if old(self).is_ym2_mode { 11usize } else { 13usize }),
                regs == old(self).frames@[old(self).current_frame as int],
                c0 == old(self).chip@,
                self.chip.wf(),
                position_valid(self@),
                self.chip@ == load_frame_model(c0, regs@, r as int),
                self.state == old(self).state,
                self.frames == old(self).frames,
                self.current_frame == old(self).current_frame,
                self.samples_in_frame == old(self).samples_in_frame,
                self.samples_per_frame == old(self).samples_per_frame,
                self.loop_point == old(self).loop_point,
                self.is_ym2_mode == old(self).is_ym2_mode,
                self.tracker == old(self).tracker,
            decreases last - r,
        {
            self.chip.write_register(r as u8, regs[r]);
            r = r + 1;
        }
        if self.is_ym2_mode {
            if regs[13] != 0xFF {
                self.chip.write_register(11, regs[11]);
                self.chip.write_register(12, 0);
                self.chip.write_register(13, 0x0A);
            }
            if regs[10] & 0x80 != 0 {
                let mixer = self.chip.read_register(7) | 0x24;
                self.chip.write_register(7, mixer);
            }
        } else if regs[13] != 0xFF {
            self.chip.write_register(13, regs[13]);
        }
    }

    /// Advances the position by one sample.
    fn advance_frame(&mut self)
        requires
            old(self).wf(),
            old(self)@.frames.len() > 0,
        ensures
            final(self).wf(),
            final(self)@ == advance_model(old(self)@),
    {
        let s = self.samples_in_frame + 1;
        if s >= self.samples_per_frame {
            self.samples_in_frame = 0;
            let n = self.frames.len();
            if self.current_frame + 1 >= n {
                match self.loop_point {
                    Some(l) => {
                        self.current_frame = l;
                    },
                    None => {
                        self.state = PlaybackState::Stopped;
                    },
                }
            } else {
                self.current_frame = self.current_frame + 1;
            }
        } else {
            self.samples_in_frame = s;
        }
    }

    /// Generates the next sample: silence unless playing register frames.
    /// A loaded tracker song has no register frames and is not rendered, so
    /// it gives silence and its playback does not advance.
    pub fn generate_sample(&mut self) -> (r: i16)
        requires
            old(self).wf(),
        ensures
            final(self).wf(),
            (final(self)@, r) == generate_sample_model(old(self)@),
    {
        if self.state != PlaybackState::Playing {
            return 0;
        }
        if self.frames.len() == 0 {
            return 0;
        }
        if self.samples_in_frame == 0 {
            self.load_frame_registers();
        }
        self.chip.clock();
        let sample = self.chip.get_sample();
        self.advance_frame();
        sample
    }

    /// Generates `count` samples: sample `j` is the one the player gives
    /// after the `j` before it.
    pub fn generate_samples(&mut self, count: usize) -> (out: Vec<i16>)
        requires
            old(self).wf(),
        ensures
            final(self).wf(),
            out@.len() == count,
            final(self)@ == run_samples(old(self)@, count as nat),
            forall|j: int|
                0 <= j < count ==> #[trigger] out@[j] == generate_sample_model(
                    run_samples(old(self)@, j as nat),
                ).1,
    {
        let mut out: Vec<i16> = Vec::new();
        let mut i: usize = 0;
        let ghost m0 = self@;
        while i < count
            invariant
                i <= count,
                self.wf(),
                out@.len() == i,
                self@ == run_samples(m0, i as nat),
                forall|j: int|
                    0 <= j < i ==> #[trigger] out@[j] == generate_sample_model(run_samples(m0, j as nat)).1,
            decreases count - i,
        {
            proof {
                lemma_run_samples_step(m0, i as nat);
            }
            let s = self.generate_sample();
            out.push(s);
            i = i + 1;
        }
        out
    }

    /// The chip.
    pub fn get_chip(&self) -> (c: &Ym2149)
        ensures
            c@ == self@.chip,
    {
        &self.chip
    }

    /// Mutes or unmutes voice `channel` of the chip.
    pub fn set_channel_mute(&mut self, channel: usize, mute: bool)
        requires
            old(self).wf(),
        ensures
            final(self).wf(),
            channel < 3 ==> final(self)@ == (PlayerModel {
                chip: PsgState { mute: old(self)@.chip.mute.update(channel as int, mute), ..old(self)@.chip },
                ..old(self)@
            }),
            channel >= 3 ==> final(self)@ == old(self)@,
    {
        self.chip.set_channel_mute(channel, mute);
    }

    /// Whether voice `channel` of the chip is muted.
    pub fn is_channel_muted(&self, channel: usize) -> (r: bool)
        requires
            self.wf(),
        ensures
            r == (channel < 3 && self@.chip.mute[channel as int]),
    {
        self.chip.is_channel_muted(channel)
    }

    /// The current frame number.
    pub fn get_current_frame(&self) -> (n: usize)
        ensures
            n == self@.current_frame,
    {
        self.current_frame
    }

    /// The song metadata, if any.
    pub fn info(&self) -> (r: Option<&Ym6Info>)
        ensures
            match (r, self.info_spec()) {
                (Some(a), Some(b)) => *a == b,
                (None, None) => true,
                _ => false,
            },
    {
        match &self.info {
            Some(i) => Some(i),
            None => None,
        }
    }

    /// Sets the song metadata.
    pub fn set_info(&mut self, info: Ym6Info)
        ensures
            final(self).info_spec() == Some(info),
            final(self)@ == old(self)@,
            final(self).wf() == old(self).wf(),
    {
        self.info = Some(info);
    }

    /// Records the sync buzzer as enabled at `timer_freq` Hz, which must not
    /// be zero; a zero frequency is refused and changes nothing. The setting
    /// has no effect on the samples: this player produces no sync-buzzer
    /// retriggering, and the playback state (the view) stays as it was.
    pub fn enable_sync_buzzer(&mut self, timer_freq: u32) -> (r: Result<(), YmLoadError>)
        ensures
            timer_freq == 0 ==> r == Err::<(), YmLoadError>(YmLoadError::SyncBuzzerZeroFrequency)
                && final(self).sync_buzzer_spec() == old(self).sync_buzzer_spec(),
            timer_freq > 0 ==> r is Ok && final(self).sync_buzzer_spec() == Some(timer_freq),
            final(self)@ == old(self)@,
            final(self).wf() == old(self).wf(),
            final(self).info_spec() == old(self).info_spec(),
    {
        match check_sync_buzzer_frequency(timer_freq) {
            Ok(f) => {
                self.sync_buzzer = Some(f);
                Ok(())
            },
            Err(e) => Err(e),
        }
    }

    /// Disables the sync buzzer.
    pub fn disable_sync_buzzer(&mut self)
        ensures
            final(self).sync_buzzer_spec() is None,
            final(self)@ == old(self)@,
            final(self).wf() == old(self).wf(),
            final(self).info_spec() == old(self).info_spec(),
    {
        self.sync_buzzer = None;
    }

    /// Whether the sync buzzer is enabled.
    pub fn sync_buzzer_is_enabled(&self) -> (b: bool)
        ensures
            b == self.sync_buzzer_spec() is Some,
    {
        self.sync_buzzer.is_some()
    }

    /// The sync buzzer's timer frequency while it is enabled.
    pub fn sync_buzzer_frequency(&self) -> (r: Option<u32>)
        ensures
            r == self.sync_buzzer_spec(),
    {
        self.sync_buzzer
    }
}

impl Default for Ym6Player {
    fn default() -> (p: Self)
        ensures
            p.wf(),
            p@.state == PlaybackState::Stopped,
            p@.frames.len() == 0,
            p@.samples_per_frame == 882,
    {
        Self::new()
    }
}

impl PlaybackController for Ym6Player {
    /// Starts playback when there are frames or a tracker song to play.
    fn play(&mut self) -> (r: Result<(), Ym2149Error>)
        ensures
            r is Ok,
            final(self)@ == if old(self)@.frames.len() > 0 || old(self)@.tracker is Some {
                PlayerModel { state: PlaybackState::Playing, ..old(self)@ }
            } else {
                old(self)@
            },
            final(self).wf() == old(self).wf(),
    {
        if self.frames.len() > 0 || self.tracker.is_some() {
            self.state = PlaybackState::Playing;
        }
        Ok(())
    }

    /// Pauses playback.
    fn pause(&mut self) -> (r: Result<(), Ym2149Error>)
        ensures
            r is Ok,
            final(self)@ == (PlayerModel { state: PlaybackState::Paused, ..old(self)@ }),
            final(self).wf() == old(self).wf(),
    {
        self.state = PlaybackState::Paused;
        Ok(())
    }

    /// Stops playback and goes back to the start of the song.
    fn stop(&mut self) -> (r: Result<(), Ym2149Error>)
        ensures
            r is Ok,
            final(self)@ == (PlayerModel {
                state: PlaybackState::Stopped,
                current_frame: 0,
                samples_in_frame: 0,
                ..old(self)@
            }),
            old(self).wf() ==> final(self).wf(),
    {
        self.state = PlaybackState::Stopped;
        self.current_frame = 0;
        self.samples_in_frame = 0;
        Ok(())
    }

    /// The playback state.
    fn state(&self) -> (s: PlaybackState)
        ensures
            s == self@.state,
    {
        self.state
    }
}


/// Every sample keeps the position inside the song.
pub proof fn lemma_sample_keeps_position(m: PlayerModel)
    requires
        position_valid(m),
    ensures
        position_valid(generate_sample_model(m).0),
        generate_sample_model(m).0.frames == m.frames,
        generate_sample_model(m).0.loop_point == m.loop_point,
        generate_sample_model(m).0.samples_per_frame == m.samples_per_frame,
{
}

/// A song with a loop point never stops by itself: whatever number of
/// samples is generated while playing, it is still playing afterwards.
pub proof fn lemma_looping_never_stops(m: PlayerModel, n: nat)
    requires
        position_valid(m),
        m.state == PlaybackState::Playing,
        m.loop_point is Some,
    ensures
        run_samples(m, n).state == PlaybackState::Playing,
    decreases n,
{
    if n > 0 {
        lemma_sample_keeps_position(m);
        lemma_looping_never_stops(generate_sample_model(m).0, (n - 1) as nat);
    }
}

/// One sample of a song without a loop moves the position on by one; the
/// sample that reaches the end of the song stops playback.
proof fn lemma_sample_steps_position(m: PlayerModel)
    requires
        position_valid(m),
        m.state == PlaybackState::Playing,
        m.loop_point is None,
        m.frames.len() > 0,
        m.samples_per_frame > 0,
    ensures
        sample_position(m) + 1 < m.frames.len() * m.samples_per_frame ==> generate_sample_model(m).0.state
            == PlaybackState::Playing && sample_position(generate_sample_model(m).0) == sample_position(m) + 1,
        sample_position(m) + 1 >= m.frames.len() * m.samples_per_frame ==> generate_sample_model(m).0.state
            == PlaybackState::Stopped,
{
    let f = m.current_frame;
    let s = m.samples_in_frame;
    let p = m.samples_per_frame;
    let len = m.frames.len();
    if s + 1 >= p {
        assert((f + 1) * p == f * p + p) by (nonlinear_arith);
        if f + 1 >= len {
            assert(f * p + s + 1 >= len * p) by (nonlinear_arith)
                requires
                    f + 1 >= len,
                    s + 1 >= p,
            ;
        } else {
            assert(f * p + s + 1 < len * p) by (nonlinear_arith)
                requires
                    f + 1 < len,
                    s + 1 == p,
            ;
        }
    } else {
        assert(f * p + s + 1 < len * p) by (nonlinear_arith)
            requires
                f < len,
                s + 1 < p,
        ;
    }
}

/// Playing a song without a loop from its start: after each of the first
/// `frames × samples per frame - 1` samples it is still playing, at that
/// position; the sample that completes the song stops it.
pub proof fn lemma_song_plays_to_end(m: PlayerModel, k: nat)
    requires
        position_valid(m),
        m.state == PlaybackState::Playing,
        m.loop_point is None,
        m.frames.len() > 0,
        m.samples_per_frame > 0,
        m.current_frame == 0,
        m.samples_in_frame == 0,
        k <= m.frames.len() * m.samples_per_frame,
    ensures
        k < m.frames.len() * m.samples_per_frame ==> run_samples(m, k).state == PlaybackState::Playing
            && sample_position(run_samples(m, k)) == k && position_valid(run_samples(m, k))
            && run_samples(m, k).frames == m.frames && run_samples(m, k).loop_point == m.loop_point
            && run_samples(m, k).samples_per_frame == m.samples_per_frame,
        k == m.frames.len() * m.samples_per_frame ==> run_samples(m, k).state == PlaybackState::Stopped,
    decreases k,
{
    lemma_run_samples_last(m, k);
    if k > 0 {
        lemma_song_plays_to_end(m, (k - 1) as nat);
        let prev = run_samples(m, (k - 1) as nat);
        lemma_sample_steps_position(prev);
        lemma_sample_keeps_position(prev);
    } else {
        assert(sample_position(m) == 0) by (nonlinear_arith)
            requires
                m.current_frame == 0,
                m.samples_in_frame == 0,
        ;
        assert(m.frames.len() * m.samples_per_frame > 0) by (nonlinear_arith)
            requires
                m.frames.len() > 0,
                m.samples_per_frame > 0,
        ;
    }
}

/// `k` samples are `k - 1` samples and one more.
proof fn lemma_run_samples_last(m: PlayerModel, k: nat)
    ensures
        k > 0 ==> run_samples(m, k) == generate_sample_model(run_samples(m, (k - 1) as nat)).0,
    decreases k,
{
    if k == 1 {
        assert(run_samples(m, 1) == generate_sample_model(run_samples(m, 0)).0) by {
            reveal_with_fuel(run_samples, 2);
        }
    } else if k > 1 {
        let g = generate_sample_model(m).0;
        lemma_run_samples_last(g, (k - 1) as nat);
        assert(run_samples(m, k) == run_samples(g, (k - 1) as nat));
        assert(run_samples(m, (k - 1) as nat) == run_samples(g, (k - 2) as nat));
    }
}

} // verus!
