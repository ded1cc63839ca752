//! Pre-decoded sample playback generator.
//!
//! A playback source owns a shared, immutable, reference-counted buffer of
//! stereo frames.  Its generator walks the buffer with a private cursor,
//! substitutes silence past the end, and reports termination once the cursor
//! has consumed the whole buffer.

use std::sync::Arc;
use vstd::arithmetic::div_mod::{lemma_fundamental_div_mod, lemma_mod_bound};
use vstd::prelude::*;

use crate::{Frame, Gen, GenState, Streamable};

verus! {

/// Description of a pre-recorded sound: a shared immutable frame buffer,
/// reusable across instantiations.
pub struct AudioSource {
    pub frames: Arc<Vec<Frame>>,
}

/// Render-domain playback generator: the shared frame buffer and a private
/// cursor that advances monotonically and never exceeds the buffer length.
pub struct AudioSourceStream {
    frames: Arc<Vec<Frame>>,
    cursor: usize,
}

/// Control-domain handle for a playback generator.  Playback has no mutable
/// parameters, so the handle is the empty type: holding or dropping it does
/// nothing, by construction rather than by error.
pub struct AudioSourceControl;

impl AudioSourceStream {
    /// The frames this generator plays.
    pub closed spec fn frames_spec(&self) -> Seq<Frame> {
        self.frames@
    }

    /// The render-domain cursor: index of the next frame to play.
    pub closed spec fn cursor_spec(&self) -> nat {
        self.cursor as nat
    }
}

/// The frame a playback generator emits for buffer position `pos`: the
/// buffered frame while one remains, and silence from the end of the buffer
/// on.  Exhaustion is the designed behaviour, not a fault.
pub open spec fn playback_frame(frames: Seq<Frame>, pos: int) -> Frame {
    if 0 <= pos < frames.len() {
        frames[pos]
    } else {
        Frame { left: 0, right: 0 }
    }
}

impl Gen for AudioSourceStream {
    closed spec fn wf(&self) -> bool {
        self.cursor <= self.frames@.len()
    }

    closed spec fn channels(&self) -> nat {
        2
    }

    open spec fn render_rel(
        pre: Self,
        post: Self,
        sample_rate: u32,
        out_pre: Seq<Frame>,
        out_post: Seq<Frame>,
        s: GenState,
    ) -> bool {
        let len = out_pre.len() as int;
        let total = pre.frames_spec().len() as int;
        &&& post.frames_spec() == pre.frames_spec()
        &&& forall|i: int|
            0 <= i < len ==> out_post[i] == playback_frame(
                pre.frames_spec(),
                pre.cursor_spec() + i,
            )
        &&& post.cursor_spec() == if pre.cursor_spec() + len <= total {
            pre.cursor_spec() + len
        } else {
            total
        }
        &&& (s == GenState::Finished <==> pre.cursor_spec() + len >= total)
        &&& (s == GenState::Continue <==> pre.cursor_spec() + len < total)
    }

    fn num_inputs(&self) -> (n: usize) {
        0
    }

    fn num_outputs(&self) -> (n: usize) {
        2
    }

    /// Copy one block of frames from the cursor on, substituting silence
    /// once the buffer is exhausted; report `Finished` exactly when the
    /// cursor has reached the end of the buffer after this block.
    fn process(&mut self, sample_rate: u32, out: &mut Vec<Frame>) -> (s: GenState) {
        let len = out.len();
        let total = self.frames.len();
        let mut i: usize = 0;
        while i < len
            invariant
                i <= len,
                out.len() == len,
                total == self.frames@.len(),
                self.frames@ == old(self).frames_spec(),
                self.cursor <= total,
                old(self).cursor_spec() + i <= total ==> self.cursor == old(self).cursor_spec()
                    + i,
                old(self).cursor_spec() + i > total ==> self.cursor == total,
                forall|j: int|
                    0 <= j < i ==> #[trigger] out[j] == playback_frame(
                        old(self).frames_spec(),
                        old(self).cursor_spec() + j,
                    ),
            decreases len - i,
        {
            if self.cursor < total {
                let f = self.frames[self.cursor];
                out.set(i, f);
                self.cursor = self.cursor + 1;
            } else {
                out.set(i, Frame::silence());
            }
            i = i + 1;
        }
        if self.cursor < total {
            GenState::Continue
        } else {
            GenState::Finished
        }
    }
}

/// Exhaustion schedule: for a buffer of `l` frames (`l >= 1`) played in
/// blocks of `b` frames, the block whose cursor starts at `j * b` is past
/// the end of the buffer when it finishes exactly when `j >= (l - 1) / b`.
/// With the playback stream's [`Gen::render_rel`], the generator therefore
/// reports `Continue` for the first `(l - 1) / b` full blocks and `Finished`
/// on the block during which the cursor first reaches the buffer end — and
/// every frame the contract puts at a position `>= l` is exactly silence in
/// both channels.
pub proof fn lemma_exhaustion(l: int, b: int, j: int)
    requires
        1 <= l,
        1 <= b,
        0 <= j,
    ensures
        (j * b + b >= l) <==> (j >= (l - 1) / b),
{
    let q = (l - 1) / b;
    let r = (l - 1) % b;
    lemma_fundamental_div_mod(l - 1, b);
    lemma_mod_bound(l - 1, b);
    assert((j * b + b >= l) <==> (j >= q)) by (nonlinear_arith)
        requires
            l - 1 == b * q + r,
            0 <= r < b,
            1 <= b,
            1 <= l,
            0 <= j,
    ;
}

impl AudioSource {
    /// Decode a single-channel input by duplicating each sample into both
    /// channels of its frame.
    pub fn from_mono(samples: &Vec<i64>) -> (src: AudioSource)
        ensures
            src.frames@.len() == samples@.len(),
            forall|i: int|
                0 <= i < samples@.len() ==> src.frames@[i] == (Frame {
                    left: samples@[i],
                    right: samples@[i],
                }),
    {
        let mut frames: Vec<Frame> = Vec::new();
        let mut i: usize = 0;
        let len = samples.len();
        while i < len
            invariant
                i <= len,
                len == samples@.len(),
                frames@.len() == i,
                forall|j: int|
                    0 <= j < i ==> frames@[j] == (Frame {
                        left: samples@[j],
                        right: samples@[j],
                    }),
            decreases len - i,
        {
            let s = samples[i];
            frames.push(Frame { left: s, right: s });
            i = i + 1;
        }
        AudioSource { frames: Arc::new(frames) }
    }

    /// Decode a two-channel input by zipping the per-channel sequences into
    /// interleaved frames, with no resampling or reordering.
    pub fn from_stereo(left: &Vec<i64>, right: &Vec<i64>) -> (src: AudioSource)
        requires
            left@.len() == right@.len(),
        ensures
            src.frames@.len() == left@.len(),
            forall|i: int|
                0 <= i < left@.len() ==> src.frames@[i] == (Frame {
                    left: left@[i],
                    right: right@[i],
                }),
    {
        let mut frames: Vec<Frame> = Vec::new();
        let mut i: usize = 0;
        let len = left.len();
        while i < len
            invariant
                i <= len,
                len == left@.len(),
                left@.len() == right@.len(),
                frames@.len() == i,
                forall|j: int|
                    0 <= j < i ==> frames@[j] == (Frame { left: left@[j], right: right@[j] }),
            decreases len - i,
        {
            let l = left[i];
            let r = right[i];
            frames.push(Frame { left: l, right: r });
            i = i + 1;
        }
        AudioSource { frames: Arc::new(frames) }
    }
}

impl Streamable for AudioSource {
    type Stream = AudioSourceStream;

    type Control = AudioSourceControl;

    open spec fn stream_matches(
        &self,
        stream: &AudioSourceStream,
        control: &AudioSourceControl,
    ) -> bool {
        &&& stream.wf()
        &&& stream.frames_spec() == self.frames@
        &&& stream.cursor_spec() == 0
    }

    /// Share the frame buffer with a fresh generator whose cursor starts at
    /// the first frame; the description keeps its reference for reuse.
    fn to_stream(&self) -> (r: (AudioSourceStream, AudioSourceControl)) {
        (AudioSourceStream { frames: self.frames.clone(), cursor: 0 }, AudioSourceControl)
    }
}

} // verus!


