//! Parametric tone generator.
//!
//! The tone is a periodic waveform over a fixed-point phase: a phase is a
//! `u64` counted in units of [`PERIOD`] per cycle, and the angular rate of a
//! tone is measured in phase units per second, so that a frequency of `f` Hz
//! corresponds to the rate `f * PERIOD`.  All phase bookkeeping is exact
//! integer arithmetic, which is what makes block-boundary continuity a
//! provable property rather than a numerical accident.

use core::sync::atomic::{AtomicU64, Ordering};
use std::sync::Arc;
use vstd::arithmetic::div_mod::{
    lemma_add_mod_noop, lemma_div_multiples_vanish, lemma_mod_bound, lemma_mod_twice,
    lemma_small_mod,
};
use vstd::prelude::*;

use crate::{Frame, Gen, GenState, Streamable, PERIOD};

verus! {

/// Phase units in half a cycle.
pub const HALF: u64 = 0x8000_0000;

/// Fixed-point divisor applied to the raw waveform parabola; it puts the
/// peak amplitude at `2^30`.
pub const SCALE: u64 = 0x4000_0000;

/// The waveform over one cycle: a parabolic arch approximating a sine,
/// positive on the first half cycle and mirrored negative on the second.
pub open spec fn spec_wave(p: int) -> int
    recommends
        0 <= p < PERIOD,
{
    if p < HALF {
        (p * (HALF - p)) / (SCALE as int)
    } else {
        -(((p - HALF) * (PERIOD - p)) / (SCALE as int))
    }
}

/// Phase advance per sample for angular rate `omega` (phase units per
/// second) at the given sample rate.
pub open spec fn spec_step(omega: u64, sample_rate: u32) -> int
    recommends
        sample_rate >= 1,
{
    omega as int / sample_rate as int
}

/// The phase reached `i` samples after starting at `phase0`, advancing by
/// `step` phase units per sample and wrapping each cycle.
pub open spec fn tone_phase(phase0: int, step: int, i: int) -> int {
    (phase0 + i * step) % (PERIOD as int)
}

/// The waveform sample at a given phase.
pub fn wave_at(p: u64) -> (s: i64)
    requires
        p < PERIOD,
    ensures
        s == spec_wave(p as int),
{
    if p < HALF {
        let d: u64 = HALF - p;
        proof {
            assert(p * d <= 0x8000_0000u64 * 0x8000_0000u64) by (nonlinear_arith)
                requires
                    p <= 0x8000_0000u64,
                    d <= 0x8000_0000u64,
            ;
        }
        let x: u64 = p * d;
        (x / SCALE) as i64
    } else {
        let q: u64 = p - HALF;
        let d: u64 = PERIOD - p;
        proof {
            assert(q * d <= 0x8000_0000u64 * 0x8000_0000u64) by (nonlinear_arith)
                requires
                    q <= 0x8000_0000u64,
                    d <= 0x8000_0000u64,
            ;
        }
        let x: u64 = q * d;
        let v: i64 = (x / SCALE) as i64;
        -v
    }
}

/// One block of tone samples: starting from `phase0` with angular rate
/// `omega`, every sample of the block is the waveform at the phase reached at
/// its own index, and the returned phase is the one reached just after the
/// block, ready for the next block to continue without discontinuity.
pub fn tone_block(phase0: u64, omega: u64, sample_rate: u32, len: usize) -> (r: (Vec<i64>, u64))
    requires
        phase0 < PERIOD,
        sample_rate >= 1,
    ensures
        r.0.len() == len,
        forall|i: int|
            0 <= i < len ==> r.0[i] == spec_wave(
                tone_phase(phase0 as int, spec_step(omega, sample_rate), i),
            ),
        r.1 == tone_phase(phase0 as int, spec_step(omega, sample_rate), len as int),
        r.1 < PERIOD,
{
    let step_full: u64 = omega / (sample_rate as u64);
    let step: u64 = step_full % PERIOD;
    let ghost gstep: int = spec_step(omega, sample_rate);
    let mut out: Vec<i64> = Vec::new();
    let mut cur: u64 = phase0;
    let mut i: usize = 0;
    proof {
        lemma_small_mod(phase0 as nat, PERIOD as nat);
    }
    while i < len
        invariant
            i <= len,
            out.len() == i,
            phase0 < PERIOD,
            sample_rate >= 1,
            cur < PERIOD,
            gstep == spec_step(omega, sample_rate),
            step == gstep % (PERIOD as int),
            cur == tone_phase(phase0 as int, gstep, i as int),
            forall|j: int|
                0 <= j < i ==> out[j] == spec_wave(tone_phase(phase0 as int, gstep, j)),
        decreases len - i,
    {
        let v = wave_at(cur);
        out.push(v);
        proof {
            assert((i + 1) * gstep == i * gstep + gstep) by (nonlinear_arith);
            lemma_add_mod_noop(phase0 + (i as int) * gstep, gstep, PERIOD as int);
            lemma_small_mod(cur as nat, PERIOD as nat);
            lemma_mod_bound(phase0 + (i as int) * gstep + gstep, PERIOD as int);
        }
        cur = (cur + step) % PERIOD;
        i = i + 1;
    }
    (out, cur)
}

/// Phase continuity: advancing `a` samples and then `b` more from the phase
/// reached lands exactly where advancing `a + b` samples in one run does.
/// With [`tone_block`]'s contract this means that, at an unchanged rate,
/// sample `i` of a block rendered after `a` earlier samples equals sample
/// `a + i` of one uninterrupted rendering, for any block length: the
/// concatenation of consecutive blocks is a single waveform with no
/// discontinuity at block boundaries.
pub proof fn lemma_phase_continuity(phase0: int, step: int, a: int, b: int)
    requires
        0 <= phase0 < PERIOD,
        0 <= step,
        0 <= a,
        0 <= b,
    ensures
        tone_phase(tone_phase(phase0, step, a), step, b) == tone_phase(phase0, step, a + b),
{
    let p = PERIOD as int;
    let x = phase0 + a * step;
    let y = b * step;
    assert((a + b) * step == a * step + b * step) by (nonlinear_arith);
    lemma_add_mod_noop(x % p, y, p);
    lemma_mod_twice(x, p);
    lemma_add_mod_noop(x, y, p);
}

/// The Hz round trip: converting a frequency to phase units per second and
/// back returns it exactly, which is what lets a control handle read back
/// the frequency it last stored (absent a concurrent writer).
pub proof fn lemma_frequency_round_trip(hz: u32)
    ensures
        ((hz as int) * (PERIOD as int)) / (PERIOD as int) == hz as int,
{
    lemma_div_multiples_vanish(hz as int, PERIOD as int);
}

/// Description of a tone before instantiation: frequency in Hz, and an
/// initial phase in `PERIOD` units (wrapped into one cycle when the
/// generator is built).
pub struct SineWave {
    pub frequency_hz: u32,
    pub phase: u64,
}

/// Render-domain tone generator: a private phase plus the angular-rate cell
/// it shares with its control handle.  The cell is read once at the start of
/// each block, so a control-domain update applies at the next block boundary
/// at the latest and never mid-block.
pub struct SineWaveStream {
    frequency: Arc<AtomicU64>,
    phase: u64,
}

/// Control-domain handle for a running tone generator: shares the
/// angular-rate cell with its generator and mutates it by single atomic
/// stores, so it never blocks the render thread.
pub struct SineWaveControl {
    frequency: Arc<AtomicU64>,
}

impl SineWaveStream {
    /// The render-domain phase, in `PERIOD` units.
    pub closed spec fn phase_spec(&self) -> u64 {
        self.phase
    }

    /// Whether this generator reads the same parameter cell that `control`
    /// writes.
    pub closed spec fn paired_with(&self, control: &SineWaveControl) -> bool {
        self.frequency == control.frequency
    }

    /// Whether two generator states hold one and the same parameter cell.
    pub closed spec fn same_cell(&self, other: &SineWaveStream) -> bool {
        self.frequency == other.frequency
    }
}

impl SineWaveControl {
    /// The most recently stored frequency, in Hz.  The cell may be written
    /// concurrently by other control-domain callers at any time, so no
    /// particular value is promised; the read itself is a single atomic
    /// load and never faults, even after the paired generator is gone.
    pub fn frequency(&self) -> u32 {
        let omega = self.frequency.load(Ordering::Relaxed);
        (omega / PERIOD) as u32
    }

    /// Store a new frequency, converted to phase units per second.  A single
    /// atomic store: the running generator reads the cell once at the start
    /// of each block, so the update is visible no later than the next block
    /// boundary, and a stale handle's store simply has no observable effect.
    pub fn set_frequency(&self, frequency_hz: u32) {
        self.frequency.store((frequency_hz as u64) * PERIOD, Ordering::Relaxed);
    }
}

/// One rendered block under a known angular rate: every frame of `out`
/// carries the waveform sample for its own index, duplicated across both
/// channels (single-channel fan-out).
pub open spec fn tone_block_out(phase0: u64, omega: u64, sample_rate: u32, out: Seq<Frame>) -> bool {
    forall|i: int|
        0 <= i < out.len() ==> {
            &&& (#[trigger] out[i]).left == spec_wave(
                tone_phase(phase0 as int, spec_step(omega, sample_rate), i),
            )
            &&& out[i].right == out[i].left
        }
}

impl Gen for SineWaveStream {
    closed spec fn wf(&self) -> bool {
        self.phase < PERIOD
    }

    closed spec fn channels(&self) -> nat {
        1
    }

    open spec fn render_rel(
        pre: Self,
        post: Self,
        sample_rate: u32,
        out_pre: Seq<Frame>,
        out_post: Seq<Frame>,
        s: GenState,
    ) -> bool {
        exists|omega: u64|
            {
                &&& #[trigger] tone_block_out(pre.phase_spec(), omega, sample_rate, out_post)
                &&& post.phase_spec() == tone_phase(
                    pre.phase_spec() as int,
                    spec_step(omega, sample_rate),
                    out_pre.len() as int,
                )
                &&& pre.same_cell(&post)
                &&& s == GenState::Continue
            }
    }

    fn num_inputs(&self) -> (n: usize) {
        0
    }

    fn num_outputs(&self) -> (n: usize) {
        1
    }

    /// Read the angular rate once, render one block from the current phase,
    /// and carry the phase past the block.  A periodic tone never terminates
    /// on its own, so the result is always `Continue`.
    fn process(&mut self, sample_rate: u32, out: &mut Vec<Frame>) -> (s: GenState) {
        let omega = self.frequency.load(Ordering::Relaxed);
        let len = out.len();
        let r = tone_block(self.phase, omega, sample_rate, len);
        let samples = r.0;
        self.phase = r.1;
        let mut i: usize = 0;
        while i < len
            invariant
                i <= len,
                out.len() == len,
                samples.len() == len,
                forall|j: int|
                    0 <= j < i ==> (#[trigger] out[j]).left == samples[j] && out[j].right
                        == samples[j],
            decreases len - i,
        {
            let v = samples[i];
            out.set(i, Frame { left: v, right: v });
            i = i + 1;
        }
        proof {
            assert(tone_block_out(old(self).phase_spec(), omega, sample_rate, out@));
        }
        GenState::Continue
    }
}

impl Streamable for SineWave {
    type Stream = SineWaveStream;

    type Control = SineWaveControl;

    open spec fn stream_matches(&self, stream: &SineWaveStream, control: &SineWaveControl) -> bool {
        &&& stream.wf()
        &&& stream.phase_spec() == self.phase % PERIOD
        &&& stream.paired_with(control)
    }

    /// Allocate the shared angular-rate cell, seed it from the described
    /// frequency, and hand out a generator and a control handle that share
    /// it.  The description's phase is wrapped into one cycle.
    fn to_stream(&self) -> (r: (SineWaveStream, SineWaveControl)) {
        let cell: Arc<AtomicU64> = Arc::new(AtomicU64::new((self.frequency_hz as u64) * PERIOD));
        let control = SineWaveControl { frequency: cell.clone() };
        let stream = SineWaveStream { frequency: cell, phase: self.phase % PERIOD };
        (stream, control)
    }
}

} // verus!
