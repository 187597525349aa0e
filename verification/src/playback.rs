//! What a sound comes to when the host answers every step.
//!
//! The renderer never runs an effect itself, so what it plays depends on the
//! replies it is given. Here the host is a function from the step that is due
//! and the mono frame in hand to a reply. Against such a host a pull of the
//! playback stream is a pull of the renderer, repeated with each step
//! answered until a sample or the end comes out. The laws below say what that
//! stream holds and how much of the recording it has used at each point.

use vstd::prelude::*;
use crate::effects::{
    is_block, BinauralParams, ChainView, DirectEffectParams, EffectConfig, Reply, Request, Stage,
};
use crate::frame::planes;
use crate::source::{DecoderView, Phase, Pull};

verus! {

/// Whether `reply` is of the kind that `request` asks for, with frames of
/// `frame_size` samples.
pub open spec fn answers(request: Request, reply: Reply, frame_size: nat) -> bool {
    match request {
        Request::SpatialState => reply is SpatialState,
        Request::DistanceAttenuation { .. } => reply is Gain,
        Request::AirAbsorption { .. } => reply is Bands,
        Request::Directivity { .. } => reply is Gain,
        Request::Direct { .. } => reply matches Reply::Frame(data) && is_block(
            planes(data),
            1,
            frame_size,
        ),
        Request::Binaural { .. } => reply matches Reply::Frame(data) && is_block(
            planes(data),
            2,
            frame_size,
        ),
    }
}

/// A host that answers every step in kind, whatever the frame.
pub open spec fn obliging(host: spec_fn(Request, Seq<u32>) -> Reply, frame_size: nat) -> bool {
    forall|request: Request, frame: Seq<u32>|
        frame.len() == frame_size ==> answers(request, #[trigger] host(request, frame), frame_size)
}

/// The host's reply to the binaural step for the mono frame `input`, when
/// the five steps are taken in order: the spatial state is read, the three
/// models are evaluated on it, the direct effect runs on `input` with their
/// results, and the binaural effect runs on what the direct effect wrote.
pub open spec fn render(
    config: EffectConfig,
    host: spec_fn(Request, Seq<u32>) -> Reply,
    input: Seq<u32>,
) -> Reply {
    let spatial = host(Request::SpatialState, input)->SpatialState_0;
    let attenuation = host(
        Request::DistanceAttenuation {
            attenuation: config.attenuation,
            source: spatial.source_position(),
            listener: spatial.listener_position(),
        },
        input,
    )->Gain_0;
    let absorption = host(
        Request::AirAbsorption {
            absorption: config.absorption,
            source: spatial.source_position(),
            listener: spatial.listener_position(),
        },
        input,
    )->Bands_0;
    let directivity = host(
        Request::Directivity {
            directivity: config.directivity,
            orientation: config.source,
            listener: spatial.listener_position(),
        },
        input,
    )->Gain_0;
    let direct = DirectEffectParams {
        distance_attenuation: attenuation,
        air_absorption: absorption,
        directivity,
        ..config.direct
    };
    let mono = planes(host(Request::Direct { direct }, input)->Frame_0)[0];
    host(
        Request::Binaural {
            binaural: BinauralParams { direction: spatial.direction(), ..config.binaural },
        },
        mono,
    )
}

impl ChainView {
    /// The chain after the host answered the step that is due.
    pub open spec fn answered(self, host: spec_fn(Request, Seq<u32>) -> Reply) -> ChainView {
        self.advanced(host(self.request()->0, self.frame))
    }
}

/// An obliging host takes an idle chain through all five steps: after the
/// frame is taken in hand and five steps are answered, the binaural step is
/// due, and the host's reply to it is the rendering of the frame.
pub proof fn lemma_chain_order(
    chain: ChainView,
    host: spec_fn(Request, Seq<u32>) -> Reply,
    input: Seq<u32>,
)
    requires
        chain.wf(),
        chain.stage is Idle,
        input.len() == chain.frame_size,
        obliging(host, chain.frame_size as nat),
    ensures
        ({
            let c1 = chain.begun(input);
            let c2 = c1.answered(host);
            let c3 = c2.answered(host);
            let c4 = c3.answered(host);
            let c5 = c4.answered(host);
            let c6 = c5.answered(host);
            &&& c1.stage is Spatial && c1.wf()
            &&& c2.stage is Attenuation && c2.wf()
            &&& c3.stage is Absorption && c3.wf()
            &&& c4.stage is Directivity && c4.wf()
            &&& c5.stage is Direct && c5.wf()
            &&& c6.stage is Binaural && c6.wf()
            &&& host(c6.request()->0, c6.frame) == render(chain.config, host, input)
            &&& c6.renders(render(chain.config, host, input))
            &&& c6.answered(host).stage is Idle
            &&& c6.answered(host).wf()
            &&& c6.answered(host).config == chain.config
            &&& c6.answered(host).frame_size == chain.frame_size
            &&& c6.answered(host).sample_rate == chain.sample_rate
        }),
{
    let c1 = chain.begun(input);
    let c2 = c1.answered(host);
    let c3 = c2.answered(host);
    let c4 = c3.answered(host);
    let c5 = c4.answered(host);
    let c6 = c5.answered(host);
    assert(answers(c1.request()->0, host(c1.request()->0, c1.frame), chain.frame_size as nat));
    assert(c2.stage is Attenuation);
    assert(answers(c2.request()->0, host(c2.request()->0, c2.frame), chain.frame_size as nat));
    assert(c3.stage is Absorption);
    assert(answers(c3.request()->0, host(c3.request()->0, c3.frame), chain.frame_size as nat));
    assert(c4.stage is Directivity);
    assert(answers(c4.request()->0, host(c4.request()->0, c4.frame), chain.frame_size as nat));
    assert(c5.stage is Direct);
    assert(answers(c5.request()->0, host(c5.request()->0, c5.frame), chain.frame_size as nat));
    assert(c6.stage is Binaural);
    assert(c6.frame.len() == chain.frame_size);
    assert(answers(c6.request()->0, host(c6.request()->0, c6.frame), chain.frame_size as nat));
}

impl DecoderView {
    /// How many rounds with the host a pull of the playback stream can still
    /// take: none when a sample is ready or the sound is over, one for each
    /// step left while a frame is being rendered, seven when a frame has to
    /// be cut first.
    pub open spec fn rounds_left(self) -> nat {
        if self.phase.is_terminal() {
            0
        } else if self.chain.stage.in_flight() {
            self.chain.stage.steps_left()
        } else if self.has_sample() {
            0
        } else {
            7
        }
    }

    /// The renderer after the host answered the step that is due.
    pub open spec fn answered(self, host: spec_fn(Request, Seq<u32>) -> Reply) -> DecoderView {
        self.resume(host(self.chain.request()->0, self.chain.frame))
    }

    /// One pull of the playback stream: the renderer is pulled, and as long
    /// as it names a step the host's reply is handed over and it is pulled
    /// again. Gives the renderer afterwards, and the sample if one came.
    pub open spec fn pull(self, host: spec_fn(Request, Seq<u32>) -> Reply) -> (
        DecoderView,
        Option<u32>,
    )
        decreases self.rounds_left(),
    {
        let (after, pull) = self.next();
        match pull {
            Pull::Sample(sample) => (after, Some(sample)),
            Pull::End => (after, None),
            Pull::Pending(_) => if after.answered(host).rounds_left() < self.rounds_left() {
                after.answered(host).pull(host)
            } else {
                (after, None)
            },
        }
    }

    /// The renderer after `count` pulls of the playback stream.
    pub open spec fn after_pulls(
        self,
        host: spec_fn(Request, Seq<u32>) -> Reply,
        count: nat,
    ) -> DecoderView
        decreases count,
    {
        if count == 0 {
            self
        } else {
            self.after_pulls(host, (count - 1) as nat).pull(host).0
        }
    }

    /// What the pull after `count` earlier ones brings.
    pub open spec fn pulled(self, host: spec_fn(Request, Seq<u32>) -> Reply, count: nat) -> Option<
        u32,
    > {
        self.after_pulls(host, count).pull(host).1
    }

    /// A renderer between frames: playing, with no frame being rendered.
    pub open spec fn at_rest(self) -> bool {
        self.wf() && !self.phase.is_terminal() && self.chain.stage is Idle
    }
}

/// While a frame is being rendered, a pull of the playback stream is the
/// pull of the renderer that the host's reply leaves.
proof fn lemma_pull_pending(s: DecoderView, host: spec_fn(Request, Seq<u32>) -> Reply)
    requires
        s.wf(),
        !s.phase.is_terminal(),
        s.chain.stage.in_flight(),
        obliging(host, s.frame_size as nat),
    ensures
        s.pull(host) == s.answered(host).pull(host),
        s.answered(host).wf(),
        s.answered(host).chain == s.chain.answered(host),
        !(s.chain.stage is Binaural) ==> s.answered(host) == (DecoderView {
            chain: s.chain.answered(host),
            ..s
        }),
        s.chain.stage is Binaural ==> s.answered(host) == (DecoderView {
            chain: s.chain.answered(host),
            left: planes(host(s.chain.request()->0, s.chain.frame)->Frame_0)[0],
            right: planes(host(s.chain.request()->0, s.chain.frame)->Frame_0)[1],
            offset: 0,
            left_next: true,
            frames: (s.frames + 1) as usize,
            phase: Phase::Streaming,
            ..s
        }) && s.frames + 1 <= usize::MAX,
{
    let reply = host(s.chain.request()->0, s.chain.frame);
    assert(answers(s.chain.request()->0, reply, s.frame_size as nat));
    assert(s.chain.fits(reply));
    if s.chain.stage is Binaural {
        assert(s.frames + 1 <= s.consumed) by (nonlinear_arith)
            requires
                s.consumed == s.frame_size * (s.frames + 1),
                s.frame_size >= 1,
        ;
        assert(planes(reply->Frame_0)[0].len() == s.frame_size);
        assert(planes(reply->Frame_0)[1].len() == s.frame_size);
    }
}

/// With a frame's worth of recording left and the frame in hand used up, a
/// pull of the playback stream cuts the next frame, has it rendered, and
/// brings its first left sample.
proof fn lemma_pull_refill(s: DecoderView, host: spec_fn(Request, Seq<u32>) -> Reply)
    requires
        s.at_rest(),
        !s.has_sample(),
        s.upstream.len() >= s.frame_size,
        obliging(host, s.frame_size as nat),
    ensures
        ({
            let block = planes(
                render(s.chain.config, host, s.upstream.take(s.frame_size as int))->Frame_0,
            );
            let after = s.pull(host).0;
            &&& s.pull(host).1 == Some(block[0][0])
            &&& after.at_rest()
            &&& after.phase is Streaming
            &&& after.left == block[0]
            &&& after.right == block[1]
            &&& after.offset == 0
            &&& !after.left_next
            &&& after.frames == s.frames + 1
            &&& after.consumed == s.consumed + s.frame_size
            &&& after.upstream == s.upstream.skip(s.frame_size as int)
            &&& after.frame_size == s.frame_size
            &&& after.sample_rate == s.sample_rate
            &&& after.chain.config == s.chain.config
        }),
{
    let input = s.upstream.take(s.frame_size as int);
    lemma_chain_order(s.chain, host, input);
    let s0 = s.next().0;
    assert(s0.consumed == s.frame_size * (s.frames + 1)) by (nonlinear_arith)
        requires
            s0.consumed == s.consumed + s.frame_size,
            s.consumed == s.frame_size * (s.frames + 0),
    ;
    assert(s0.wf());
    lemma_pull_pending(s0, host);
    let s1 = s0.answered(host);
    assert(s.pull(host) == s1.pull(host));
    lemma_pull_pending(s1, host);
    let s2 = s1.answered(host);
    lemma_pull_pending(s2, host);
    let s3 = s2.answered(host);
    lemma_pull_pending(s3, host);
    let s4 = s3.answered(host);
    lemma_pull_pending(s4, host);
    let s5 = s4.answered(host);
    lemma_pull_pending(s5, host);
    let s6 = s5.answered(host);
    assert(s6.has_sample());
    assert(s6.pull(host).0 == s6.next().0);
}

/// With samples of the frame in hand left, a pull of the playback stream
/// serves the next one: left before right, pair by pair.
proof fn lemma_pull_serve(s: DecoderView, host: spec_fn(Request, Seq<u32>) -> Reply)
    requires
        s.at_rest(),
        s.has_sample(),
    ensures
        s.pull(host).0 == s.next().0,
        s.pull(host).0.at_rest(),
        s.left_next ==> s.pull(host) == (
            DecoderView { left_next: false, ..s },
            Some(s.left[s.offset as int]),
        ),
        !s.left_next ==> s.pull(host) == (
            DecoderView { left_next: true, offset: (s.offset + 1) as usize, ..s },
            Some(s.right[s.offset as int]),
        ),
{
}

/// With less than a frame of recording left and the frame in hand used up, a
/// pull of the playback stream ends the sound.
proof fn lemma_pull_dry(s: DecoderView, host: spec_fn(Request, Seq<u32>) -> Reply)
    requires
        s.at_rest(),
        !s.has_sample(),
        s.upstream.len() < s.frame_size,
    ensures
        s.pull(host).1 is None,
        s.pull(host).0.wf(),
        s.pull(host).0.phase is Exhausted,
        s.pull(host).0.frames == s.frames,
        s.pull(host).0.upstream.len() == 0,
{
}

/// Once the sound is over, a pull of the playback stream changes nothing.
proof fn lemma_pull_over(s: DecoderView, host: spec_fn(Request, Seq<u32>) -> Reply)
    requires
        s.phase.is_terminal(),
    ensures
        s.pull(host) == (s, None::<u32>),
{
}

/// Frame number `index` of a recording cut into frames of `frame_size`.
pub open spec fn frame_of(recording: Seq<u32>, frame_size: nat, index: nat) -> Seq<u32> {
    recording.subrange((index * frame_size) as int, ((index + 1) * frame_size) as int)
}

impl DecoderView {
    /// A renderer that has not been pulled yet.
    pub open spec fn fresh(self) -> bool {
        self.at_rest() && self.phase is Priming && self.consumed == 0
    }
}

/// The playback stream, sample by sample.
///
/// Take a fresh renderer, an obliging host, and a whole frame number `frame`
/// of the recording. Of that frame's `2 * frame_size` output samples, the one
/// numbered `served` (from one) is pull number
/// `2 * frame_size * frame + served` of the stream. It is a sample of the
/// rendering of that frame: left channel for odd `served`, right for even,
/// pair by pair. After it, exactly `frame + 1` frames of the recording have
/// been taken and rendered, no more and no less, and the rest is untouched.
pub proof fn lemma_stream(
    start: DecoderView,
    host: spec_fn(Request, Seq<u32>) -> Reply,
    frame: nat,
    served: nat,
)
    requires
        start.fresh(),
        obliging(host, start.frame_size as nat),
        1 <= served <= 2 * start.frame_size,
        (frame + 1) * start.frame_size <= start.upstream.len(),
    ensures
        ({
            let size = start.frame_size as nat;
            let count = (2 * size * frame + served) as nat;
            let now = start.after_pulls(host, count);
            let block = planes(
                render(start.chain.config, host, frame_of(start.upstream, size, frame))->Frame_0,
            );
            &&& start.pulled(host, (count - 1) as nat) == Some(
                block[(served - 1) % 2][(served - 1) / 2],
            )
            &&& is_block(block, 2, size)
            &&& now.at_rest()
            &&& now.phase is Streaming
            &&& now.frames == frame + 1
            &&& now.consumed == (frame + 1) * size
            &&& now.upstream == start.upstream.skip(((frame + 1) * size) as int)
            &&& now.left == block[0]
            &&& now.right == block[1]
            &&& now.offset == served / 2
            &&& now.left_next == (served % 2 == 0)
            &&& now.frame_size == start.frame_size
            &&& now.sample_rate == start.sample_rate
            &&& now.chain.config == start.chain.config
        }),
    decreases frame, served,
{
    let size = start.frame_size as nat;
    let count = (2 * size * frame + served) as nat;
    let before = start.after_pulls(host, (count - 1) as nat);
    let recording = start.upstream;
    assert((frame + 1) * size == frame * size + size) by (nonlinear_arith);
    if served == 1 {
        if frame == 0 {
            assert(2 * size * frame == 0) by (nonlinear_arith)
                requires
                    frame == 0,
            ;
            assert(before == start);
            assert(frame * size == 0 && (frame + 1) * size == size) by (nonlinear_arith)
                requires
                    frame == 0,
            ;
            assert(recording.take(size as int) =~= frame_of(recording, size, frame));
            lemma_pull_refill(start, host);
            assert(recording.skip(size as int) =~= recording.skip(((frame + 1) * size) as int));
        } else {
            let earlier = (frame - 1) as nat;
            lemma_stream(start, host, earlier, 2 * size);
            assert(2 * size * earlier + 2 * size == 2 * size * frame) by (nonlinear_arith)
                requires
                    earlier + 1 == frame,
            ;
            assert((earlier + 1) * size == frame * size);
            assert(before.upstream == recording.skip((frame * size) as int));
            assert(before.upstream.take(size as int) =~= frame_of(recording, size, frame));
            lemma_pull_refill(before, host);
            assert(before.upstream.skip(size as int) =~= recording.skip(((frame + 1) * size) as int));
        }
    } else {
        lemma_stream(start, host, frame, (served - 1) as nat);
        lemma_pull_serve(before, host);
    }
}

/// Where the recording ends.
///
/// Take a fresh renderer and an obliging host, and let the recording hold
/// `frames` whole frames and less than one more. Then the stream has
/// `2 * frame_size * frames` samples, and every pull after them brings
/// nothing: the renderer is exhausted, what was left of the recording is
/// dropped, and `frames` frames have been rendered.
pub proof fn lemma_exhaustion(
    start: DecoderView,
    host: spec_fn(Request, Seq<u32>) -> Reply,
    frames: nat,
    later: nat,
)
    requires
        start.fresh(),
        obliging(host, start.frame_size as nat),
        frames * start.frame_size <= start.upstream.len() < (frames + 1) * start.frame_size,
    ensures
        ({
            let count = (2 * start.frame_size * frames + later) as nat;
            let now = start.after_pulls(host, count + 1);
            &&& start.pulled(host, count) is None
            &&& now.wf()
            &&& now.phase is Exhausted
            &&& now.frames == frames
            &&& now.upstream.len() == 0
        }),
    decreases later,
{
    let size = start.frame_size as nat;
    let count = (2 * size * frames + later) as nat;
    let before = start.after_pulls(host, count);
    if later == 0 {
        if frames == 0 {
            assert(2 * size * frames == 0) by (nonlinear_arith)
                requires
                    frames == 0,
            ;
            assert(before == start);
            assert((frames + 1) * size == size) by (nonlinear_arith)
                requires
                    frames == 0,
            ;
            lemma_pull_dry(start, host);
        } else {
            let earlier = (frames - 1) as nat;
            assert((earlier + 1) * size == frames * size);
            lemma_stream(start, host, earlier, 2 * size);
            assert(2 * size * earlier + 2 * size == 2 * size * frames) by (nonlinear_arith)
                requires
                    earlier + 1 == frames,
            ;
            assert((frames + 1) * size == frames * size + size) by (nonlinear_arith);
            lemma_pull_dry(before, host);
        }
    } else {
        lemma_exhaustion(start, host, frames, (later - 1) as nat);
        lemma_pull_over(before, host);
    }
}

/// Refill timing. The first `2 * frame_size` pulls of a fresh renderer all
/// bring samples and take exactly one frame from the recording; the next
/// frame is cut by the pull after them, and not before.
pub proof fn lemma_refill_timing(start: DecoderView, host: spec_fn(Request, Seq<u32>) -> Reply)
    requires
        start.fresh(),
        obliging(host, start.frame_size as nat),
        start.upstream.len() >= 2 * start.frame_size,
    ensures
        forall|count: nat|
            count < 2 * start.frame_size + 1 ==> (#[trigger] start.pulled(host, count)) is Some,
        start.after_pulls(host, (2 * start.frame_size) as nat).consumed == start.frame_size,
        start.after_pulls(host, (2 * start.frame_size) as nat).frames == 1,
        start.after_pulls(host, (2 * start.frame_size + 1) as nat).consumed == 2
            * start.frame_size,
        start.after_pulls(host, (2 * start.frame_size + 1) as nat).frames == 2,
{
    let size = start.frame_size as nat;
    assert(2 * size * 0 == 0 && 2 * size * 1 == 2 * size && (0 + 1) * size == size && (1 + 1)
        * size == 2 * size) by (nonlinear_arith);
    assert forall|count: nat| count < 2 * size + 1 implies (#[trigger] start.pulled(
        host,
        count,
    )) is Some by {
        if count < 2 * size {
            lemma_stream(start, host, 0, count + 1);
        } else {
            lemma_stream(start, host, 1, 1);
        }
    }
    lemma_stream(start, host, 0, 2 * size);
    lemma_stream(start, host, 1, 1);
}

/// A recording of exactly one frame. The renderer plays that frame's
/// `2 * frame_size` samples, then finds the recording empty: the next pull
/// brings nothing and leaves it exhausted, with one frame rendered.
pub proof fn lemma_single_frame(start: DecoderView, host: spec_fn(Request, Seq<u32>) -> Reply)
    requires
        start.fresh(),
        obliging(host, start.frame_size as nat),
        start.upstream.len() == start.frame_size,
    ensures
        forall|count: nat|
            count < 2 * start.frame_size ==> (#[trigger] start.pulled(host, count)) is Some,
        start.after_pulls(host, (2 * start.frame_size) as nat).phase is Streaming,
        start.after_pulls(host, (2 * start.frame_size) as nat).frames == 1,
        start.pulled(host, (2 * start.frame_size) as nat) is None,
        start.after_pulls(host, (2 * start.frame_size + 1) as nat).phase is Exhausted,
        start.after_pulls(host, (2 * start.frame_size + 1) as nat).frames == 1,
{
    let size = start.frame_size as nat;
    assert(2 * size * 0 == 0 && 2 * size * 1 == 2 * size && (0 + 1) * size == size && (1 + 1)
        * size == 2 * size && 1 * size == size) by (nonlinear_arith);
    assert forall|count: nat| count < 2 * size implies (#[trigger] start.pulled(
        host,
        count,
    )) is Some by {
        lemma_stream(start, host, 0, count + 1);
    }
    lemma_stream(start, host, 0, 2 * size);
    lemma_exhaustion(start, host, 1, 0);
}

} // verus!
