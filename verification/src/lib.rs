//! Block-based audio generators with live, lock-free parameter control.
//!
//! The crate models a small audio engine: sound descriptions are turned into
//! render-domain generators plus control-domain handles by the [`Streamable`]
//! factory, generators produce one block of samples per call, and a binding
//! pass attaches pending sound requests to a running graph exactly once.
//!
//! Samples and phases are fixed-point integers: a sample is an `i64`, and a
//! waveform phase is a `u64` measured in units of `PERIOD` per cycle, so that
//! phase bookkeeping is exact and block boundaries introduce no discontinuity.

use vstd::prelude::*;

pub mod sine;
pub mod source;

verus! {

/// Phase units in one full waveform cycle (the fixed-point analogue of 2*pi).
pub const PERIOD: u64 = 0x1_0000_0000;

/// One audio frame: one sample per output channel at a single time instant.
#[derive(Clone, Copy, PartialEq, Eq, Structural, Debug)]
pub struct Frame {
    pub left: i64,
    pub right: i64,
}

impl Frame {
    /// The silent frame: both channels zero.
    pub fn silence() -> (f: Frame)
        ensures
            f.left == 0,
            f.right == 0,
    {
        Frame { left: 0, right: 0 }
    }
}

/// What a generator reports after filling a block: keep running, or signal
/// the graph that it has terminated on its own and should be removed.
#[derive(Clone, Copy, PartialEq, Eq, Structural, Debug)]
pub enum GenState {
    Continue,
    Finished,
}

/// Render-domain generator contract: produce exactly one block of output
/// frames per call, using only generator-private state and the shared
/// parameter cell(s), with no allocation or blocking obligations modelled
/// beyond the contract itself.
pub trait Gen: Sized {
    /// Well-formedness of the generator's render-domain state.
    spec fn wf(&self) -> bool;

    /// Output channels this generator fills (tone: 1, playback: 2).
    spec fn channels(&self) -> nat;

    /// The promised relation between the generator state and the output
    /// block across one render call.
    spec fn render_rel(
        pre: Self,
        post: Self,
        sample_rate: u32,
        out_pre: Seq<Frame>,
        out_post: Seq<Frame>,
        s: GenState,
    ) -> bool;

    /// Number of upstream audio inputs: always zero for these sources.
    fn num_inputs(&self) -> (n: usize)
        ensures
            n == 0,
    ;

    /// Number of output channels, fixed per variant; queried at wiring time.
    fn num_outputs(&self) -> (n: usize)
        ensures
            n as nat == self.channels(),
    ;

    /// Fill one block of output frames and report whether the generator
    /// keeps running.  A generator that writes fewer channels than a frame
    /// carries duplicates its signal across the frame (single-channel
    /// fan-out).
    fn process(&mut self, sample_rate: u32, out: &mut Vec<Frame>) -> (s: GenState)
        requires
            old(self).wf(),
            sample_rate >= 1,
        ensures
            final(self).wf(),
            final(out).len() == old(out).len(),
            Self::render_rel(
                *old(self),
                *final(self),
                sample_rate,
                old(out)@,
                final(out)@,
                s,
            ),
    ;
}

/// The factory seam: a sound description that can be instantiated, exactly
/// once and outside the render domain, into a render-domain generator plus a
/// control-domain handle.  Construction is infallible by design.
pub trait Streamable: Sized {
    type Stream: Gen;

    type Control;

    /// What it means for a (generator, control) pair to be a correct
    /// instantiation of this description.
    spec fn stream_matches(&self, stream: &Self::Stream, control: &Self::Control) -> bool;

    /// Instantiate this description into a generator and its control handle.
    fn to_stream(&self) -> (r: (Self::Stream, Self::Control))
        ensures
            self.stream_matches(&r.0, &r.1),
    ;
}

/// Marker for the embedding's startup hook.  Registering the binding pass
/// and the graph resource with the host scheduler is wiring around this
/// library; the pass itself is [`play_audio`].
pub struct AudioPlugin;

/// A sound request: a description waiting for the binding pass to
/// instantiate it and attach the generator to the running graph.
pub struct Audio<T> {
    stream: T,
}

impl<T: Streamable> Audio<T> {
    /// The wrapped description.
    pub closed spec fn stream_spec(&self) -> T {
        self.stream
    }

    /// Wrap a description as a pending sound request.
    pub fn new(stream: T) -> (a: Audio<T>)
        ensures
            a.stream_spec() == stream,
    {
        Audio { stream }
    }
}

/// Opaque identity of a generator attached to the running graph; used only
/// to correlate a request with its running instance, never dereferenced.
#[derive(Clone, Copy, PartialEq, Eq, Structural, Debug)]
pub struct AudioId(pub u64);

/// Node lifecycle manager: turns a constructed generator into an attached
/// node and hands back a fresh identity for it.  The audio wiring and the
/// hardware connection are owned by the embedding; this model accounts for
/// the identities the graph has issued, which is what the binding layer's
/// attach-once guarantee rests on.
pub struct AudioGraph {
    next_id: u64,
}

impl AudioGraph {
    /// The identity the next attached generator will receive.
    pub closed spec fn next_id_spec(&self) -> u64 {
        self.next_id
    }
}

impl Default for AudioGraph {
    /// A fresh graph with no identities issued.  Establishing the hardware
    /// connection itself is the embedding's startup concern and is fatal on
    /// failure there, before any generator exists.
    fn default() -> (g: AudioGraph)
        ensures
            g.next_id_spec() == 0,
    {
        AudioGraph { next_id: 0 }
    }
}

impl AudioGraph {
    /// Attach a generator to the running graph: ownership of the generator
    /// moves to the render domain, and the caller receives a fresh identity,
    /// distinct from every identity issued before.  Safe to call repeatedly
    /// for independent generators.
    pub fn play_stream<S: Gen>(&mut self, stream: S) -> (id: AudioId)
        requires
            old(self).next_id_spec() < u64::MAX,
        ensures
            id.0 == old(self).next_id_spec(),
            final(self).next_id_spec() == old(self).next_id_spec() + 1,
    {
        let id = AudioId(self.next_id);
        self.next_id = self.next_id + 1;
        let _ = stream;
        id
    }
}

/// Number of requests still awaiting a node identity.
pub open spec fn count_pending(ids: Seq<Option<AudioId>>) -> nat
    decreases ids.len(),
{
    if ids.len() == 0 {
        0
    } else {
        (if ids[0] is None {
            1nat
        } else {
            0nat
        }) + count_pending(ids.drop_first())
    }
}

proof fn lemma_count_pending_take_step(ids: Seq<Option<AudioId>>, i: int)
    requires
        0 <= i < ids.len(),
    ensures
        count_pending(ids.take(i + 1)) == count_pending(ids.take(i)) + (if ids[i] is None {
            1nat
        } else {
            0nat
        }),
    decreases i,
{
    if i == 0 {
        assert(ids.take(1).drop_first() =~= Seq::<Option<AudioId>>::empty());
        assert(ids.take(0) =~= Seq::<Option<AudioId>>::empty());
        assert(ids.take(1)[0] == ids[0]);
    } else {
        let t = ids.drop_first();
        assert(ids.take(i + 1).drop_first() =~= t.take(i));
        assert(ids.take(i).drop_first() =~= t.take(i - 1));
        assert(ids.take(i + 1)[0] == ids[0]);
        assert(ids.take(i)[0] == ids[0]);
        lemma_count_pending_take_step(t, i - 1);
        assert(t[i - 1] == ids[i]);
    }
}

proof fn lemma_count_pending_take_le(ids: Seq<Option<AudioId>>, i: int)
    requires
        0 <= i <= ids.len(),
    ensures
        count_pending(ids.take(i)) <= count_pending(ids),
    decreases ids.len() - i,
{
    if i == ids.len() {
        assert(ids.take(i) =~= ids);
    } else {
        lemma_count_pending_take_step(ids, i);
        lemma_count_pending_take_le(ids, i + 1);
    }
}

proof fn lemma_count_pending_take_mono(ids: Seq<Option<AudioId>>, a: int, b: int)
    requires
        0 <= a <= b <= ids.len(),
    ensures
        count_pending(ids.take(a)) <= count_pending(ids.take(b)),
    decreases b - a,
{
    if a < b {
        lemma_count_pending_take_step(ids, a);
        lemma_count_pending_take_mono(ids, a + 1, b);
    }
}

/// No shared identity: of two requests that are both still pending, the
/// earlier one counts strictly fewer pending predecessors, so the
/// identities [`play_audio`] assigns them in one pass are distinct.
pub proof fn lemma_attach_ids_distinct(ids: Seq<Option<AudioId>>, i: int, j: int)
    requires
        0 <= i < j <= ids.len(),
        ids[i] is None,
    ensures
        count_pending(ids.take(i)) < count_pending(ids.take(j)),
{
    lemma_count_pending_take_step(ids, i);
    lemma_count_pending_take_mono(ids, i + 1, j);
}

/// Attach-once, seen from the second pass: requests that all already carry
/// a node identity have nothing pending, so by [`play_audio`]'s contract a
/// repeated binding pass attaches nothing, issues no identity, and leaves
/// every request untouched.
pub proof fn lemma_attach_idempotent(ids: Seq<Option<AudioId>>)
    requires
        forall|i: int| 0 <= i < ids.len() ==> ids[i] is Some,
    ensures
        count_pending(ids) == 0,
    decreases ids.len(),
{
    if ids.len() > 0 {
        let t = ids.drop_first();
        assert forall|i: int| 0 <= i < t.len() implies t[i] is Some by {
            assert(t[i] == ids[i + 1]);
        }
        lemma_attach_idempotent(t);
    }
}

/// One binding pass over the requests, presented as parallel columns: the
/// descriptions, each request's optional node identity, and its optional
/// control handle.  Every request without an identity is instantiated via
/// the [`Streamable`] contract, its generator attached to the graph, and
/// the fresh identity and the control handle recorded at its position;
/// requests that already have an identity are left exactly as they are, so
/// each request is attached exactly once however often the pass runs.
pub fn play_audio<T: Streamable>(
    audios: &Vec<Audio<T>>,
    ids: &mut Vec<Option<AudioId>>,
    controls: &mut Vec<Option<T::Control>>,
    graph: &mut AudioGraph,
)
    requires
        old(ids).len() == audios.len(),
        old(controls).len() == audios.len(),
        old(graph).next_id_spec() + count_pending(old(ids)@) <= u64::MAX,
    ensures
        final(ids).len() == audios.len(),
        final(controls).len() == audios.len(),
        final(graph).next_id_spec() == old(graph).next_id_spec() + count_pending(old(ids)@),
        forall|i: int|
            0 <= i < audios.len() && old(ids)@[i] is Some ==> final(ids)@[i] == old(ids)@[i]
                && final(controls)@[i] == old(controls)@[i],
        forall|i: int|
            0 <= i < audios.len() && old(ids)@[i] is None ==> final(ids)@[i] == Some(
                AudioId(
                    (old(graph).next_id_spec() + count_pending(old(ids)@.take(i))) as u64,
                ),
            ),
        forall|i: int|
            0 <= i < audios.len() && old(ids)@[i] is None ==> exists|s: T::Stream, c: T::Control|
                final(controls)@[i] == Some(c) && #[trigger] audios@[i].stream_spec().stream_matches(
                    &s,
                    &c,
                ),
{
    let len = audios.len();
    let mut i: usize = 0;
    while i < len
        invariant
            len == audios.len(),
            old(ids)@.len() == len,
            old(controls)@.len() == len,
            ids.len() == len,
            controls.len() == len,
            i <= len,
            old(graph).next_id_spec() + count_pending(old(ids)@) <= u64::MAX,
            graph.next_id_spec() == old(graph).next_id_spec() + count_pending(
                old(ids)@.take(i as int),
            ),
            forall|j: int| i <= j < len ==> ids@[j] == old(ids)@[j],
            forall|j: int| i <= j < len ==> controls@[j] == old(controls)@[j],
            forall|j: int|
                0 <= j < i && old(ids)@[j] is Some ==> ids@[j] == old(ids)@[j] && controls@[j]
                    == old(controls)@[j],
            forall|j: int|
                0 <= j < i && old(ids)@[j] is None ==> ids@[j] == Some(
                    AudioId(
                        (old(graph).next_id_spec() + count_pending(old(ids)@.take(j))) as u64,
                    ),
                ),
            forall|j: int|
                0 <= j < i && old(ids)@[j] is None ==> exists|s: T::Stream, c: T::Control|
                    controls@[j] == Some(c)
                        && #[trigger] audios@[j].stream_spec().stream_matches(&s, &c),
        decreases len - i,
    {
        let pending = ids[i].is_none();
        proof {
            lemma_count_pending_take_step(old(ids)@, i as int);
            lemma_count_pending_take_le(old(ids)@, i as int + 1);
        }
        if pending {
            let audio = &audios[i];
            let r = audio.stream.to_stream();
            let ghost gs = r.0;
            let ghost gc = r.1;
            let id = graph.play_stream(r.0);
            ids.set(i, Some(id));
            controls.set(i, Some(r.1));
            proof {
                assert(controls@[i as int] == Some(gc));
                assert(audios@[i as int].stream_spec().stream_matches(&gs, &gc));
            }
        }
        i = i + 1;
    }
    proof {
        assert(old(ids)@.take(len as int) =~= old(ids)@);
    }
}

} // verus!
