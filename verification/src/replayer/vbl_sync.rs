//! Vertical blank (VBL) synchronisation: the 50 Hz display interrupt of the
//! Atari ST that paces music playback, counted in host samples.

use vstd::prelude::*;

verus! {

/// The synchroniser as values.
pub struct VblView {
    pub samples_per_vbl: u32,
    pub sample_count: u32,
    pub vbl_count: u64,
    pub samples_until_vbl: u32,
}

/// One sample: the sample count goes up, the samples until the next VBL go
/// down (not below zero), and on reaching zero a VBL is counted and the
/// countdown restarts. Returns whether a VBL occurred.
pub open spec fn vbl_clock(v: VblView) -> (VblView, bool) {
    let until = if v.samples_until_vbl > 0 { (v.samples_until_vbl - 1) as u32 } else { 0u32 };
    if until == 0 {
        (
            VblView {
                sample_count: (v.sample_count + 1) as u32,
                vbl_count: (v.vbl_count + 1) as u64,
                samples_until_vbl: v.samples_per_vbl,
                ..v
            },
            true,
        )
    } else {
        (VblView { sample_count: (v.sample_count + 1) as u32, samples_until_vbl: until, ..v }, false)
    }
}

/// The counters agree with the samples counted since the start: as many
/// VBLs as whole periods, and the rest of the current period to go.
pub open spec fn vbl_in_step(v: VblView) -> bool {
    &&& v.samples_per_vbl > 0
    &&& v.vbl_count == (v.sample_count as int) / (v.samples_per_vbl as int)
    &&& v.samples_until_vbl == v.samples_per_vbl - (v.sample_count as int) % (v.samples_per_vbl as int)
}

/// VBL synchroniser.
#[derive(Debug, Clone, Copy)]
pub struct VblSync {
    samples_per_vbl: u32,
    sample_count: u32,
    vbl_count: u64,
    samples_until_vbl: u32,
}

impl View for VblSync {
    type V = VblView;

    closed spec fn view(&self) -> VblView {
        VblView {
            samples_per_vbl: self.samples_per_vbl,
            sample_count: self.sample_count,
            vbl_count: self.vbl_count,
            samples_until_vbl: self.samples_until_vbl,
        }
    }
}

impl VblSync {
    /// A synchroniser with a VBL every `samples_per_vbl` samples, nothing
    /// counted yet.
    pub fn new(samples_per_vbl: u32) -> (s: Self)
        ensures
            s@ == (VblView { samples_per_vbl, sample_count: 0, vbl_count: 0, samples_until_vbl: samples_per_vbl }),
    {
        VblSync { samples_per_vbl, sample_count: 0, vbl_count: 0, samples_until_vbl: samples_per_vbl }
    }

    /// Counts one sample; returns whether a VBL occurred.
    pub fn clock(&mut self) -> (r: bool)
        requires
            old(self)@.sample_count < u32::MAX,
            old(self)@.vbl_count < u64::MAX,
        ensures
            (final(self)@, r) == vbl_clock(old(self)@),
    {
        self.sample_count = self.sample_count + 1;
        self.samples_until_vbl = if self.samples_until_vbl > 0 { self.samples_until_vbl - 1 } else { 0 };
        if self.samples_until_vbl == 0 {
            self.vbl_count = self.vbl_count + 1;
            self.samples_until_vbl = self.samples_per_vbl;
            true
        } else {
            false
        }
    }

    /// Samples counted.
    pub fn get_sample_count(&self) -> (n: u32)
        ensures
            n == self@.sample_count,
    {
        self.sample_count
    }

    /// VBLs counted.
    pub fn get_vbl_count(&self) -> (n: u64)
        ensures
            n == self@.vbl_count,
    {
        self.vbl_count
    }

    /// Samples until the next VBL.
    pub fn get_samples_until_vbl(&self) -> (n: u32)
        ensures
            n == self@.samples_until_vbl,
    {
        self.samples_until_vbl
    }

    /// Samples per VBL.
    pub fn samples_per_vbl(&self) -> (n: u32)
        ensures
            n == self@.samples_per_vbl,
    {
        self.samples_per_vbl
    }

    /// Counts start over.
    pub fn reset(&mut self)
        ensures
            final(self)@ == (VblView {
                sample_count: 0,
                vbl_count: 0,
                samples_until_vbl: old(self)@.samples_per_vbl,
                ..old(self)@
            }),
    {
        self.sample_count = 0;
        self.vbl_count = 0;
        self.samples_until_vbl = self.samples_per_vbl;
    }

    /// Sets the VBL period; the countdown restarts, the counts are kept.
    pub fn set_samples_per_vbl(&mut self, samples_per_vbl: u32)
        ensures
            final(self)@ == (VblView { samples_per_vbl, samples_until_vbl: samples_per_vbl, ..old(self)@ }),
    {
        self.samples_per_vbl = samples_per_vbl;
        self.samples_until_vbl = samples_per_vbl;
    }

    /// Playback position in VBL frames: the VBLs counted (in 32 bits) plus
    /// the whole periods of the samples counted.
    pub fn get_playback_frame(&self) -> (n: u32)
        requires
            self@.samples_per_vbl > 0,
            (self@.vbl_count as u32) + (self@.sample_count as int) / (self@.samples_per_vbl as int) <= u32::MAX,
        ensures
            n == (self@.vbl_count as u32) + (self@.sample_count as int) / (self@.samples_per_vbl as int),
    {
        (self.vbl_count as u32) + self.sample_count / self.samples_per_vbl
    }
}

impl Default for VblSync {
    /// A 50 Hz VBL at 44.1 kHz: 882 samples per VBL.
    fn default() -> (s: Self)
        ensures
            s@ == (VblView { samples_per_vbl: 882, sample_count: 0, vbl_count: 0, samples_until_vbl: 882 }),
    {
        Self::new(882)
    }
}

/// Counting from the start, a VBL occurs on exactly every sample that
/// completes a whole number of periods, and the counters stay in step.
pub proof fn lemma_vbl_every_period(v: VblView)
    requires
        vbl_in_step(v),
        v.sample_count < u32::MAX,
        v.vbl_count < u64::MAX,
    ensures
        vbl_in_step(vbl_clock(v).0),
        vbl_clock(v).1 == ((v.sample_count as int + 1) % (v.samples_per_vbl as int) == 0),
{
    let p = v.samples_per_vbl as int;
    let c = v.sample_count as int;
    let q = c / p;
    let r = c % p;
    vstd::arithmetic::div_mod::lemma_fundamental_div_mod(c, p);
    assert(0 <= r < p) by {
        vstd::arithmetic::div_mod::lemma_mod_bound(c, p);
    }
    if r + 1 == p {
        assert(c + 1 == (q + 1) * p + 0) by (nonlinear_arith)
            requires
                c == p * q + r,
                r + 1 == p,
        ;
        vstd::arithmetic::div_mod::lemma_fundamental_div_mod_converse(c + 1, p, q + 1, 0);
    } else {
        assert(c + 1 == q * p + (r + 1)) by (nonlinear_arith)
            requires
                c == p * q + r,
        ;
        vstd::arithmetic::div_mod::lemma_fundamental_div_mod_converse(c + 1, p, q, r + 1);
    }
}

/// A fresh synchroniser is in step.
pub proof fn lemma_vbl_start_in_step(samples_per_vbl: u32)
    requires
        samples_per_vbl > 0,
    ensures
        vbl_in_step(VblView { samples_per_vbl, sample_count: 0, vbl_count: 0, samples_until_vbl: samples_per_vbl }),
{
    vstd::arithmetic::div_mod::lemma_fundamental_div_mod_converse(0, samples_per_vbl as int, 0, 0);
}

} // verus!
