//! Data of the YM tracker formats (YMT1, YMT2): pattern lines, digidrum
//! samples and the undoing of the interleaved pattern stream.

use vstd::prelude::*;

verus! {

/// The two YM tracker format versions.
#[derive(Debug, Clone, Copy, PartialEq, Eq, Structural)]
pub enum TrackerFormat {
    /// YMT1: a sample's repeat length is its size.
    Ymt1,
    /// YMT2: samples carry a repeat length and flags, and the attributes
    /// carry a frequency shift in their top four bits.
    Ymt2,
}

/// One line of a voice in one frame.
#[derive(Debug, Clone, Copy, PartialEq, Eq, Structural)]
pub struct TrackerLine {
    /// Note-on byte (sample number, or none).
    pub note_on: u8,
    /// Volume.
    pub volume: u8,
    /// High byte of the replay frequency.
    pub freq_high: u8,
    /// Low byte of the replay frequency.
    pub freq_low: u8,
}

/// A digidrum sample of a tracker song.
#[derive(Debug, Clone)]
pub struct TrackerSample {
    /// The sample's bytes.
    pub data: Vec<u8>,
    /// Length of the repeated tail, between 1 and the size (1 for an empty
    /// sample).
    pub repeat_len: usize,
}

/// A sample as values: its bytes and its repeat length.
pub struct SampleModel {
    pub data: Seq<u8>,
    pub repeat_len: nat,
}

impl TrackerSample {
    /// The sample as values.
    pub open spec fn model(&self) -> SampleModel {
        SampleModel { data: self.data@, repeat_len: self.repeat_len as nat }
    }
}

/// The pattern stream put back in line order: in the stored stream each
/// byte column (4 bytes per voice) is stored for all frames in turn; the
/// result holds, for each frame, its columns in order.
pub open spec fn deinterleave_spec(data: Seq<u8>, nb_voice: nat, total_frames: nat) -> Seq<u8> {
    let step = 4 * nb_voice;
    Seq::new(
        step * total_frames,
        |k: int| data[(k % step as int) * total_frames + k / step as int],
    )
}

proof fn lemma_column_index(f: int, c: int, step: int, frames: int)
    requires
        0 <= f < frames,
        0 <= c < step,
    ensures
        0 <= c * frames + f < step * frames,
        (f * step + c) % step == c,
        (f * step + c) / step == f,
        f * step + c < step * frames,
{
    vstd::arithmetic::div_mod::lemma_fundamental_div_mod_converse(f * step + c, step, f, c);
    assert(c * frames + f < step * frames) by (nonlinear_arith)
        requires
            0 <= f < frames,
            0 <= c < step,
    ;
    assert(0 <= c * frames) by (nonlinear_arith)
        requires
            0 <= c,
            0 <= frames,
    ;
    assert(f * step + c < step * frames) by (nonlinear_arith)
        requires
            0 <= f < frames,
            0 <= c < step,
    ;
}

/// Undoes the interleaving of a tracker pattern stream.
pub fn deinterleave_tracker_bytes(data: &[u8], nb_voice: usize, total_frames: usize) -> (out: Vec<u8>)
    requires
        data@.len() == 4 * nb_voice * total_frames,
        4 * nb_voice <= usize::MAX,
        4 * nb_voice * total_frames <= usize::MAX,
    ensures
        out@ == deinterleave_spec(data@, nb_voice as nat, total_frames as nat),
{
    let step: usize = 4 * nb_voice;
    let ghost len = step * total_frames;
    assert(4 * nb_voice * total_frames == step * total_frames) by (nonlinear_arith)
        requires
            step == 4 * nb_voice,
    ;
    let mut out: Vec<u8> = Vec::new();
    let mut f: usize = 0;
    while f < total_frames
        invariant
            f <= total_frames,
            step == 4 * nb_voice,
            data@.len() == step * total_frames,
            step * total_frames <= usize::MAX,
            out@.len() == f * step,
            forall|k: int|
                0 <= k < out@.len() ==> #[trigger] out@[k] == data@[(k % step as int) * total_frames
                    + k / step as int],
        decreases total_frames - f,
    {
        let mut c: usize = 0;
        while c < step
            invariant
                f < total_frames,
                c <= step,
                step == 4 * nb_voice,
                data@.len() == step * total_frames,
                step * total_frames <= usize::MAX,
                out@.len() == f * step + c,
                forall|k: int|
                    0 <= k < out@.len() ==> #[trigger] out@[k] == data@[(k % step as int)
                        * total_frames + k / step as int],
            decreases step - c,
        {
            proof {
                lemma_column_index(f as int, c as int, step as int, total_frames as int);
            }
            let idx = c * total_frames + f;
            out.push(data[idx]);
            c = c + 1;
        }
        proof {
            assert((f + 1) * step == f * step + step) by (nonlinear_arith);
        }
        f = f + 1;
    }
    proof {
        assert(total_frames * step == step * total_frames) by (nonlinear_arith);
        assert(out@ =~= deinterleave_spec(data@, nb_voice as nat, total_frames as nat));
    }
    out
}

} // verus!
