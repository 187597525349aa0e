//! The streaming renderer.
//!
//! A [`SteamDecoder`] turns one mono recording into an interleaved stereo
//! stream, one sample per pull. It works a frame at a time: when the stereo
//! frame in hand is used up it cuts the next mono frame from the recording
//! and sends it through the effect chain. The effects themselves run outside
//! this library, so a pull may answer with the step that is due instead of a
//! sample; the host performs the step, hands the result to
//! [`SteamDecoder::resume`], and pulls again.

use vstd::prelude::*;
use crate::effects::{ChainView, EffectChain, EffectConfig, Reply, Request, Stage};
use crate::frame::{planes, slot, FrameBuffer, SampleSource};
use crate::settings::AudioSettings;
use std::time::Duration;

verus! {

/// The renderer's place in the life of a sound.
#[derive(Clone, Copy, PartialEq, Eq, Structural, Debug)]
pub enum Phase {
    /// No frame has been rendered yet.
    Priming,
    /// A rendered frame is in hand.
    Streaming,
    /// The recording ran out. Nothing more will be played.
    Exhausted,
    /// An effect failed. Nothing more will be played.
    Failed,
}

impl Phase {
    /// Whether the sound is over.
    pub open spec fn is_terminal(self) -> bool {
        self is Exhausted || self is Failed
    }
}

/// What one pull brings.
#[derive(Clone, Copy, PartialEq, Eq, Structural, Debug)]
pub enum Pull {
    /// The next sample of the interleaved stereo stream.
    Sample(u32),
    /// A frame is being rendered and this step of it is due.
    Pending(Request),
    /// The stream is over.
    End,
}

/// The renderer as the contracts see it.
pub struct DecoderView {
    pub frame_size: usize,
    pub sample_rate: u32,
    pub phase: Phase,
    /// The raw samples not yet cut into frames.
    pub upstream: Seq<u32>,
    /// How many raw samples have been taken from the recording.
    pub consumed: usize,
    /// The left channel of the frame in hand.
    pub left: Seq<u32>,
    /// The right channel of the frame in hand.
    pub right: Seq<u32>,
    /// The pair of the frame in hand that is being served.
    pub offset: usize,
    /// Whether the left sample of that pair comes next.
    pub left_next: bool,
    /// How many frames have been rendered.
    pub frames: usize,
    pub chain: ChainView,
}

impl DecoderView {
    /// What holds of every renderer: the two channels in hand are one frame
    /// long once a frame has been rendered, the pair being served lies within
    /// them, a frame is cut only when the one in hand is used up, and until
    /// the recording runs out exactly one frame's worth of it has been taken
    /// for each frame rendered or in the making.
    pub open spec fn wf(self) -> bool {
        &&& self.frame_size >= 1
        &&& self.consumed + self.upstream.len() <= usize::MAX
        &&& self.chain.wf()
        &&& self.chain.frame_size == self.frame_size
        &&& self.chain.sample_rate == self.sample_rate
        &&& self.left.len() == self.right.len()
        &&& self.offset <= self.left.len()
        &&& !self.left_next ==> self.offset < self.left.len()
        &&& self.frames == 0 ==> self.left.len() == 0
        &&& self.frames >= 1 ==> self.left.len() == self.frame_size
        &&& self.phase is Priming <==> self.frames == 0 && !self.phase.is_terminal()
        &&& self.phase is Failed <==> self.chain.stage is Failed
        &&& self.phase is Exhausted ==> self.chain.stage is Idle
        &&& self.chain.stage.in_flight() ==> self.offset == self.left.len()
        &&& !(self.phase is Exhausted) ==> self.consumed == self.frame_size * (self.frames + (
        if self.chain.stage is Idle {
            0int
        } else {
            1int
        }))
    }

    /// A renderer that has not been pulled yet, set up to play `samples`.
    pub open spec fn fresh_over(
        self,
        samples: Seq<u32>,
        settings: AudioSettings,
        config: EffectConfig,
    ) -> bool {
        &&& self.wf()
        &&& self.phase is Priming
        &&& self.frame_size == settings.frame_size()
        &&& self.sample_rate == settings.sampling_rate()
        &&& self.upstream == samples
        &&& self.consumed == 0
        &&& self.frames == 0
        &&& self.offset == 0
        &&& self.left_next
        &&& self.left.len() == 0
        &&& self.right.len() == 0
        &&& self.chain.stage is Idle
        &&& self.chain.config == config
    }

    /// Whether the frame in hand still has a sample to serve.
    pub open spec fn has_sample(self) -> bool {
        self.offset < self.left.len()
    }

    /// One pull: the renderer afterwards, and what the pull brings.
    ///
    /// A finished renderer stays as it is and signals the end. While a frame
    /// is being rendered the pull names the step that is due. Otherwise the
    /// frame in hand is served pair by pair, left before right. Once it is
    /// used up the next frame is cut from the recording and its first step
    /// is due; if the recording has less than a frame left, what is left is
    /// dropped and the renderer is exhausted.
    pub open spec fn next(self) -> (DecoderView, Pull) {
        if self.phase.is_terminal() {
            (self, Pull::End)
        } else if self.chain.stage.in_flight() {
            (self, Pull::Pending(self.chain.request()->0))
        } else if self.has_sample() {
            if self.left_next {
                (
                    DecoderView { left_next: false, ..self },
                    Pull::Sample(self.left[self.offset as int]),
                )
            } else {
                (
                    DecoderView { left_next: true, offset: (self.offset + 1) as usize, ..self },
                    Pull::Sample(self.right[self.offset as int]),
                )
            }
        } else if self.upstream.len() >= self.frame_size {
            (
                DecoderView {
                    upstream: self.upstream.skip(self.frame_size as int),
                    consumed: (self.consumed + self.frame_size) as usize,
                    chain: self.chain.begun(self.upstream.take(self.frame_size as int)),
                    ..self
                },
                Pull::Pending(Request::SpatialState),
            )
        } else {
            (
                DecoderView {
                    upstream: Seq::empty(),
                    consumed: (self.consumed + self.upstream.len()) as usize,
                    phase: Phase::Exhausted,
                    ..self
                },
                Pull::End,
            )
        }
    }

    /// The renderer after the host answered the step that was due. With no
    /// frame being rendered the reply is dropped. The reply that completes
    /// the frame puts the new stereo frame in hand, to be served from its
    /// start, and counts it. A reply that fails the chain fails the renderer.
    pub open spec fn resume(self, reply: Reply) -> DecoderView {
        if self.phase.is_terminal() || !self.chain.stage.in_flight() {
            self
        } else if self.chain.renders(reply) {
            DecoderView {
                chain: self.chain.advanced(reply),
                left: planes(reply->Frame_0)[0],
                right: planes(reply->Frame_0)[1],
                offset: 0,
                left_next: true,
                frames: (self.frames + 1) as usize,
                phase: Phase::Streaming,
                ..self
            }
        } else if self.chain.fits(reply) {
            DecoderView { chain: self.chain.advanced(reply), ..self }
        } else {
            DecoderView { chain: self.chain.advanced(reply), phase: Phase::Failed, ..self }
        }
    }
}

/// Plays one recording in space: the state of the pull-based stereo stream.
pub struct SteamDecoder {
    decoder: SampleSource,
    sample_rate: u32,
    frame_size: usize,
    current_channel: bool,
    current_block_offset: usize,
    current_block1: Vec<u32>,
    current_block2: Vec<u32>,
    chain: EffectChain,
    blocks_played: usize,
    phase: Phase,
}

impl View for SteamDecoder {
    type V = DecoderView;

    closed spec fn view(&self) -> DecoderView {
        DecoderView {
            frame_size: self.frame_size,
            sample_rate: self.sample_rate,
            phase: self.phase,
            upstream: self.decoder@,
            consumed: self.decoder.consumed(),
            left: self.current_block1@,
            right: self.current_block2@,
            offset: self.current_block_offset,
            left_next: self.current_channel,
            frames: self.blocks_played,
            chain: self.chain@,
        }
    }
}

impl SteamDecoder {
    /// A renderer at the start of `samples`, with nothing rendered yet.
    pub fn new(samples: Vec<u32>, settings: AudioSettings, config: EffectConfig) -> (decoder:
        SteamDecoder)
        ensures
            decoder@.fresh_over(samples@, settings, config),
    {
        let frame_size = settings.frame_size() as usize;
        let sample_rate = settings.sampling_rate();
        SteamDecoder {
            decoder: SampleSource::new(samples),
            sample_rate,
            frame_size,
            current_channel: true,
            current_block_offset: 0,
            current_block1: Vec::new(),
            current_block2: Vec::new(),
            chain: EffectChain::new(config, frame_size, sample_rate),
            blocks_played: 0,
            phase: Phase::Priming,
        }
    }

    /// Pulls once: the next sample, the step that is due, or the end.
    pub fn next(&mut self) -> (pull: Pull)
        requires
            old(self)@.wf(),
        ensures
            final(self)@.wf(),
            final(self)@ == old(self)@.next().0,
            pull == old(self)@.next().1,
    {
        match self.phase {
            Phase::Exhausted => {
                return Pull::End;
            },
            Phase::Failed => {
                return Pull::End;
            },
            _ => {},
        }
        match self.chain.request() {
            Some(request) => {
                return Pull::Pending(request);
            },
            None => {},
        }
        if self.current_block_offset < self.current_block1.len() {
            if self.current_channel {
                let sample = self.current_block1[self.current_block_offset];
                self.current_channel = false;
                return Pull::Sample(sample);
            } else {
                let sample = self.current_block2[self.current_block_offset];
                self.current_block_offset = self.current_block_offset + 1;
                self.current_channel = true;
                return Pull::Sample(sample);
            }
        }
        let ghost upstream = self.decoder@;
        let mut input = FrameBuffer::new(self.frame_size, 1, self.sample_rate);
        let ghost silent = input@;
        if input.fill_from(&mut self.decoder) {
            proof {
                assert(self.frame_size * 1 == self.frame_size) by (nonlinear_arith);
                assert forall|i: int| 0 <= i < self.frame_size implies slot(i, 0, 1) == i by {
                    assert(i * 1 + 0 == i) by (nonlinear_arith);
                }
                assert(input@[0] =~= upstream.take(self.frame_size as int));
                assert(self.decoder.consumed() == self.frame_size * (self.blocks_played + 1))
                    by (nonlinear_arith)
                    requires
                        self.decoder.consumed() == self.frame_size * self.blocks_played
                            + self.frame_size,
                ;
            }
            let taken = self.chain.begin(input);
            assert(taken);
            Pull::Pending(Request::SpatialState)
        } else {
            proof {
                assert(self.frame_size * 1 == self.frame_size) by (nonlinear_arith);
                assert(self.decoder@ =~= Seq::<u32>::empty());
            }
            self.phase = Phase::Exhausted;
            Pull::End
        }
    }

    /// Hands over the result of the step that the last pull named.
    pub fn resume(&mut self, reply: Reply)
        requires
            old(self)@.wf(),
        ensures
            final(self)@.wf(),
            final(self)@ == old(self)@.resume(reply),
    {
        match self.phase {
            Phase::Exhausted => {
                return ;
            },
            Phase::Failed => {
                return ;
            },
            _ => {},
        }
        match self.chain.advance(reply) {
            Some(block) => {
                let mut channels = block.into_channels();
                let ghost held = planes(channels);
                let right = channels.pop();
                let left = channels.pop();
                match (left, right) {
                    (Some(left), Some(right)) => {
                        proof {
                            assert(left@ == held[0]);
                            assert(right@ == held[1]);
                            assert(self.blocks_played + 1 <= self.decoder.consumed())
                                by (nonlinear_arith)
                                requires
                                    self.decoder.consumed() == self.frame_size * (
                                    self.blocks_played + 1),
                                    self.frame_size >= 1,
                            ;
                        }
                        self.current_block1 = left;
                        self.current_block2 = right;
                        self.current_block_offset = 0;
                        self.current_channel = true;
                        self.blocks_played = self.blocks_played + 1;
                        self.phase = Phase::Streaming;
                    },
                    _ => {},
                }
            },
            None => {
                match self.chain.stage() {
                    Stage::Failed => {
                        self.phase = Phase::Failed;
                    },
                    _ => {},
                }
            },
        }
    }
}

impl SteamDecoder {
    /// The stream is open-ended: it does not come in blocks of a known
    /// length.
    pub fn current_frame_len(&self) -> (len: Option<usize>)
        ensures
            len is None,
    {
        None
    }

    /// Always stereo.
    pub fn channels(&self) -> (channels: u16)
        ensures
            channels == 2,
    {
        2
    }

    /// The recording's own rate: nothing is resampled.
    pub fn sample_rate(&self) -> (rate: u32)
        ensures
            rate == self@.sample_rate,
    {
        self.sample_rate
    }

    /// Not known ahead of playing.
    pub fn total_duration(&self) -> (duration: Option<Duration>)
        ensures
            duration is None,
    {
        None
    }

    /// How many frames have been rendered so far.
    pub fn blocks_played(&self) -> (frames: usize)
        ensures
            frames == self@.frames,
    {
        self.blocks_played
    }

    /// How many raw samples have been taken from the recording so far.
    pub fn consumed(&self) -> (count: usize)
        ensures
            count == self@.consumed,
    {
        self.decoder.consumed()
    }

    /// Where the renderer is in the life of the sound.
    pub fn phase(&self) -> (phase: Phase)
        ensures
            phase == self@.phase,
    {
        self.phase
    }

    /// The mono frame that the pending step applies to.
    pub fn frame(&self) -> (frame: &Vec<u32>)
        ensures
            frame@ == self@.chain.frame,
    {
        self.chain.frame()
    }
}

/// A recording that can be played in space, any number of times at once.
pub struct SteamAudio {
    /// Where the recording came from.
    pub path: String,
    /// The recording, decoded to mono samples.
    pub samples: Vec<u32>,
    pub settings: AudioSettings,
    pub config: EffectConfig,
}

impl SteamAudio {
    /// A renderer of its own for one playing of the recording, at its start.
    pub fn decoder(&self) -> (decoder: SteamDecoder)
        ensures
            decoder@.fresh_over(self.samples@, self.settings, self.config),
    {
        SteamDecoder::new(self.samples.clone(), self.settings, self.config)
    }
}

} // verus!
