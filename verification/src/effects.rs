//! The propagation effect chain.
//!
//! One mono frame goes through five steps in a fixed order: distance
//! attenuation, air absorption and directivity are evaluated, the three are
//! applied to the frame by the direct effect, and the binaural effect turns
//! the result into a stereo frame. The numeric work is not done here. The
//! chain says which step is due as a [`Request`], the host performs it and
//! hands back a [`Reply`], and the chain checks the reply against the step
//! before moving on. A reply that does not fit ends the chain for good.

use vstd::prelude::*;
use crate::frame::{is_frame, planes, FrameBuffer};
use crate::sample::{ONE, ZERO};
use crate::spatial::{Orientation, SpatialState, Vec3};

verus! {

/// How the binaural effect reads between the measured directions.
#[derive(Clone, Copy, PartialEq, Eq, Structural, Debug)]
pub enum HRTFInterpolation {
    NearestNeighbor,
    Bilinear,
}

/// How loudness falls with distance.
#[derive(Clone, Copy, PartialEq, Eq, Structural, Debug)]
pub enum DistanceAttenuationModel {
    Default,
    InverseDistance { min_distance: u32 },
}

/// Gains for the low, middle and high band.
#[derive(Clone, Copy, PartialEq, Eq, Structural, Debug)]
pub struct Bands {
    pub low: u32,
    pub mid: u32,
    pub high: u32,
}

/// How air damps each band with distance.
#[derive(Clone, Copy, PartialEq, Eq, Structural, Debug)]
pub enum AirAbsorptionModel {
    Default,
    Exponential { coefficients: Bands },
}

/// A dipole pattern: `dipole_weight` blends from omnidirectional (zero) to a
/// full dipole (one), `dipole_power` sharpens the lobes.
#[derive(Clone, Copy, PartialEq, Eq, Structural, Debug)]
pub struct Directivity {
    pub dipole_weight: u32,
    pub dipole_power: u32,
}

/// Which parts of the direct path the direct effect applies.
#[derive(Clone, Copy, PartialEq, Eq, Structural, Debug)]
pub struct DirectEffectFlags {
    pub distance_attenuation: bool,
    pub air_absorption: bool,
    pub directivity: bool,
    pub occlusion: bool,
    pub transmission: bool,
}

#[derive(Clone, Copy, PartialEq, Eq, Structural, Debug)]
pub enum TransmissionType {
    FrequencyIndependent,
    FrequencyDependent,
}

/// What the direct effect is run with.
#[derive(Clone, Copy, PartialEq, Eq, Structural, Debug)]
pub struct DirectEffectParams {
    pub flags: DirectEffectFlags,
    pub transmission_type: TransmissionType,
    pub distance_attenuation: u32,
    pub directivity: u32,
    pub occlusion: u32,
    pub air_absorption: Bands,
    pub transmission: Bands,
}

/// What the binaural effect is run with.
#[derive(Clone, Copy, PartialEq, Eq, Structural, Debug)]
pub struct BinauralParams {
    pub direction: Vec3,
    pub interpolation: HRTFInterpolation,
    pub spatial_blend: u32,
}

impl Bands {
    /// All three bands at a gain of one.
    pub open spec fn unity() -> Bands {
        Bands { low: ONE, mid: ONE, high: ONE }
    }
}

impl DirectEffectParams {
    /// Distance attenuation alone, every gain at one.
    pub open spec fn initial() -> DirectEffectParams {
        DirectEffectParams {
            flags: DirectEffectFlags {
                distance_attenuation: true,
                air_absorption: false,
                directivity: false,
                occlusion: false,
                transmission: false,
            },
            transmission_type: TransmissionType::FrequencyIndependent,
            distance_attenuation: ONE,
            directivity: ONE,
            occlusion: ONE,
            air_absorption: Bands::unity(),
            transmission: Bands::unity(),
        }
    }
}

impl Default for DirectEffectParams {
    fn default() -> (params: DirectEffectParams)
        ensures
            params == DirectEffectParams::initial(),
    {
        DirectEffectParams {
            flags: DirectEffectFlags {
                distance_attenuation: true,
                air_absorption: false,
                directivity: false,
                occlusion: false,
                transmission: false,
            },
            transmission_type: TransmissionType::FrequencyIndependent,
            distance_attenuation: ONE,
            directivity: ONE,
            occlusion: ONE,
            air_absorption: Bands { low: ONE, mid: ONE, high: ONE },
            transmission: Bands { low: ONE, mid: ONE, high: ONE },
        }
    }
}

impl BinauralParams {
    /// No direction, nearest measured filter, fully spatial.
    pub open spec fn initial() -> BinauralParams {
        BinauralParams {
            direction: Vec3::zero(),
            interpolation: HRTFInterpolation::NearestNeighbor,
            spatial_blend: ONE,
        }
    }
}

impl Default for BinauralParams {
    fn default() -> (params: BinauralParams)
        ensures
            params == BinauralParams::initial(),
    {
        BinauralParams {
            direction: Vec3::origin(),
            interpolation: HRTFInterpolation::NearestNeighbor,
            spatial_blend: ONE,
        }
    }
}

/// What stays the same from frame to frame: the models, the source's frame of
/// reference, and the parts of the effect parameters that no step recomputes.
#[derive(Clone, Copy, PartialEq, Eq, Structural, Debug)]
pub struct EffectConfig {
    pub attenuation: DistanceAttenuationModel,
    pub absorption: AirAbsorptionModel,
    pub directivity: Directivity,
    pub source: Orientation,
    pub direct: DirectEffectParams,
    pub binaural: BinauralParams,
}

impl EffectConfig {
    /// Default models, an omnidirectional source at the origin looking down
    /// the negative third axis, the direct effect applying attenuation,
    /// absorption and directivity, bilinear interpolation.
    pub open spec fn standard() -> EffectConfig {
        EffectConfig {
            attenuation: DistanceAttenuationModel::Default,
            absorption: AirAbsorptionModel::Default,
            directivity: Directivity { dipole_weight: ZERO, dipole_power: ONE },
            source: Orientation::identity(),
            direct: DirectEffectParams {
                flags: DirectEffectFlags {
                    distance_attenuation: true,
                    air_absorption: true,
                    directivity: true,
                    occlusion: false,
                    transmission: false,
                },
                ..DirectEffectParams::initial()
            },
            binaural: BinauralParams {
                interpolation: HRTFInterpolation::Bilinear,
                ..BinauralParams::initial()
            },
        }
    }
}

impl Default for EffectConfig {
    fn default() -> (config: EffectConfig)
        ensures
            config == EffectConfig::standard(),
    {
        let mut direct = DirectEffectParams::default();
        direct.flags.air_absorption = true;
        direct.flags.directivity = true;
        let mut binaural = BinauralParams::default();
        binaural.interpolation = HRTFInterpolation::Bilinear;
        EffectConfig {
            attenuation: DistanceAttenuationModel::Default,
            absorption: AirAbsorptionModel::Default,
            directivity: Directivity { dipole_weight: ZERO, dipole_power: ONE },
            source: Orientation::standard(),
            direct,
            binaural,
        }
    }
}

/// A step that the chain asks the host to perform.
#[derive(Clone, Copy, PartialEq, Eq, Structural, Debug)]
pub enum Request {
    /// Read the shared spatial state, once for this frame.
    SpatialState,
    /// Evaluate the distance attenuation between the two positions.
    DistanceAttenuation { attenuation: DistanceAttenuationModel, source: Vec3, listener: Vec3 },
    /// Evaluate the air absorption between the two positions.
    AirAbsorption { absorption: AirAbsorptionModel, source: Vec3, listener: Vec3 },
    /// Evaluate the source's directivity towards the listener.
    Directivity { directivity: Directivity, orientation: Orientation, listener: Vec3 },
    /// Run the direct effect on the chain's frame.
    Direct { direct: DirectEffectParams },
    /// Run the binaural effect on the chain's frame.
    Binaural { binaural: BinauralParams },
}

/// What the host hands back for a request.
#[derive(PartialEq, Eq, Debug)]
pub enum Reply {
    /// The spatial state as read.
    SpatialState(SpatialState),
    /// One gain.
    Gain(u32),
    /// One gain per band.
    Bands(Bands),
    /// The channels that an effect wrote.
    Frame(Vec<Vec<u32>>),
    /// The step could not be performed.
    Failed,
}

/// Where the chain stands.
#[derive(Clone, Copy, PartialEq, Eq, Structural, Debug)]
pub enum Stage {
    /// No frame in hand.
    Idle,
    /// Waiting for the spatial state.
    Spatial,
    /// Waiting for the distance attenuation.
    Attenuation,
    /// Waiting for the air absorption.
    Absorption,
    /// Waiting for the directivity.
    Directivity,
    /// Waiting for the direct effect's frame.
    Direct,
    /// Waiting for the binaural effect's frame.
    Binaural,
    /// A reply did not fit; the chain takes no further frame.
    Failed,
}

impl Stage {
    /// Whether a frame is being processed.
    pub open spec fn in_flight(self) -> bool {
        !(self is Idle) && !(self is Failed)
    }

    /// How many replies are still due before the frame is rendered.
    pub open spec fn steps_left(self) -> nat {
        match self {
            Stage::Idle => 0,
            Stage::Spatial => 6,
            Stage::Attenuation => 5,
            Stage::Absorption => 4,
            Stage::Directivity => 3,
            Stage::Direct => 2,
            Stage::Binaural => 1,
            Stage::Failed => 0,
        }
    }
}

/// The chain as the contracts see it.
pub struct ChainView {
    pub config: EffectConfig,
    pub frame_size: usize,
    pub sample_rate: u32,
    pub stage: Stage,
    pub spatial: SpatialState,
    pub direct: DirectEffectParams,
    pub frame: Seq<u32>,
}

/// Whether `data` is `channels` channels of `frame_size` samples each.
pub open spec fn is_block(data: Seq<Seq<u32>>, channels: nat, frame_size: nat) -> bool {
    data.len() == channels && is_frame(data, frame_size)
}

impl ChainView {
    /// The frame in hand, while there is one, has the chain's frame size.
    pub open spec fn wf(self) -> bool {
        &&& self.frame_size >= 1
        &&& self.stage.in_flight() ==> self.frame.len() == self.frame_size
    }

    /// The step that is due.
    pub open spec fn request(self) -> Option<Request> {
        match self.stage {
            Stage::Idle => None,
            Stage::Spatial => Some(Request::SpatialState),
            Stage::Attenuation => Some(
                Request::DistanceAttenuation {
                    attenuation: self.config.attenuation,
                    source: self.spatial.source_position(),
                    listener: self.spatial.listener_position(),
                },
            ),
            Stage::Absorption => Some(
                Request::AirAbsorption {
                    absorption: self.config.absorption,
                    source: self.spatial.source_position(),
                    listener: self.spatial.listener_position(),
                },
            ),
            Stage::Directivity => Some(
                Request::Directivity {
                    directivity: self.config.directivity,
                    orientation: self.config.source,
                    listener: self.spatial.listener_position(),
                },
            ),
            Stage::Direct => Some(Request::Direct { direct: self.direct }),
            Stage::Binaural => Some(
                Request::Binaural {
                    binaural: BinauralParams {
                        direction: self.spatial.direction(),
                        ..self.config.binaural
                    },
                },
            ),
            Stage::Failed => None,
        }
    }

    /// The chain after it took `input` in hand. An idle chain takes a frame
    /// of its own size and starts over from the configured parameters; any
    /// other chain, and any other frame, leaves it as it is.
    pub open spec fn begun(self, input: Seq<u32>) -> ChainView {
        if self.accepts(input) {
            ChainView { stage: Stage::Spatial, direct: self.config.direct, frame: input, ..self }
        } else {
            self
        }
    }

    /// Whether the chain would take `input` in hand.
    pub open spec fn accepts(self, input: Seq<u32>) -> bool {
        self.stage is Idle && input.len() == self.frame_size
    }

    /// Whether `reply` is the stereo frame that completes the frame in hand.
    pub open spec fn renders(self, reply: Reply) -> bool {
        &&& self.stage is Binaural
        &&& reply matches Reply::Frame(data)
        &&& is_block(planes(data), 2, self.frame_size as nat)
    }

    /// Whether `reply` answers the step that is due.
    pub open spec fn fits(self, reply: Reply) -> bool {
        match self.stage {
            Stage::Idle => false,
            Stage::Spatial => reply is SpatialState,
            Stage::Attenuation => reply is Gain,
            Stage::Absorption => reply is Bands,
            Stage::Directivity => reply is Gain,
            Stage::Direct => reply matches Reply::Frame(data) && is_block(
                planes(data),
                1,
                self.frame_size as nat,
            ),
            Stage::Binaural => self.renders(reply),
            Stage::Failed => false,
        }
    }

    /// The chain after `reply`. With nothing in flight the reply is dropped.
    /// A reply that fits the step moves the chain to the next one, storing
    /// what it brought; after the binaural step the chain is idle again. Any
    /// other reply fails the chain.
    pub open spec fn advanced(self, reply: Reply) -> ChainView {
        if !self.stage.in_flight() {
            self
        } else if !self.fits(reply) {
            ChainView { stage: Stage::Failed, frame: Seq::empty(), ..self }
        } else {
            match self.stage {
                Stage::Spatial => ChainView {
                    stage: Stage::Attenuation,
                    spatial: reply->SpatialState_0,
                    ..self
                },
                Stage::Attenuation => ChainView {
                    stage: Stage::Absorption,
                    direct: DirectEffectParams {
                        distance_attenuation: reply->Gain_0,
                        ..self.direct
                    },
                    ..self
                },
                Stage::Absorption => ChainView {
                    stage: Stage::Directivity,
                    direct: DirectEffectParams { air_absorption: reply->Bands_0, ..self.direct },
                    ..self
                },
                Stage::Directivity => ChainView {
                    stage: Stage::Direct,
                    direct: DirectEffectParams { directivity: reply->Gain_0, ..self.direct },
                    ..self
                },
                Stage::Direct => ChainView {
                    stage: Stage::Binaural,
                    frame: planes(reply->Frame_0)[0],
                    ..self
                },
                _ => ChainView { stage: Stage::Idle, frame: Seq::empty(), ..self },
            }
        }
    }
}

/// One frame's way through the effects.
pub struct EffectChain {
    config: EffectConfig,
    frame_size: usize,
    sample_rate: u32,
    stage: Stage,
    spatial: SpatialState,
    direct: DirectEffectParams,
    frame: Vec<u32>,
}

impl View for EffectChain {
    type V = ChainView;

    closed spec fn view(&self) -> ChainView {
        ChainView {
            config: self.config,
            frame_size: self.frame_size,
            sample_rate: self.sample_rate,
            stage: self.stage,
            spatial: self.spatial,
            direct: self.direct,
            frame: self.frame@,
        }
    }
}

impl EffectChain {
    /// An idle chain for frames of `frame_size` samples.
    pub fn new(config: EffectConfig, frame_size: usize, sample_rate: u32) -> (chain: EffectChain)
        requires
            frame_size >= 1,
        ensures
            chain@.wf(),
            chain@.config == config,
            chain@.frame_size == frame_size,
            chain@.sample_rate == sample_rate,
            chain@.stage is Idle,
            chain@.direct == config.direct,
            chain@.frame.len() == 0,
    {
        EffectChain {
            config,
            frame_size,
            sample_rate,
            stage: Stage::Idle,
            spatial: SpatialState::new(),
            direct: config.direct,
            frame: Vec::new(),
        }
    }

    /// Where the chain stands.
    pub fn stage(&self) -> (stage: Stage)
        ensures
            stage == self@.stage,
    {
        self.stage
    }

    /// The step that is due, if a frame is in flight.
    pub fn request(&self) -> (request: Option<Request>)
        ensures
            request == self@.request(),
    {
        match self.stage {
            Stage::Idle => None,
            Stage::Spatial => Some(Request::SpatialState),
            Stage::Attenuation => Some(
                Request::DistanceAttenuation {
                    attenuation: self.config.attenuation,
                    source: self.spatial.source_position(),
                    listener: self.spatial.listener_position(),
                },
            ),
            Stage::Absorption => Some(
                Request::AirAbsorption {
                    absorption: self.config.absorption,
                    source: self.spatial.source_position(),
                    listener: self.spatial.listener_position(),
                },
            ),
            Stage::Directivity => Some(
                Request::Directivity {
                    directivity: self.config.directivity,
                    orientation: self.config.source,
                    listener: self.spatial.listener_position(),
                },
            ),
            Stage::Direct => Some(Request::Direct { direct: self.direct }),
            Stage::Binaural => Some(
                Request::Binaural {
                    binaural: BinauralParams {
                        direction: self.spatial.direction(),
                        interpolation: self.config.binaural.interpolation,
                        spatial_blend: self.config.binaural.spatial_blend,
                    },
                },
            ),
            Stage::Failed => None,
        }
    }

    /// The mono frame in hand: the raw input up to the direct effect, its
    /// result afterwards.
    pub fn frame(&self) -> (frame: &Vec<u32>)
        ensures
            frame@ == self@.frame,
    {
        &self.frame
    }

    /// Takes a filled mono frame in hand. Returns whether the chain took it.
    pub fn begin(&mut self, input: FrameBuffer) -> (taken: bool)
        requires
            old(self)@.wf(),
            input.wf(),
        ensures
            final(self)@.wf(),
            taken <==> input.spec_channels() == 1 && old(self)@.accepts(input@[0]),
            taken ==> final(self)@ == old(self)@.begun(input@[0]),
            !taken ==> final(self)@ == old(self)@,
    {
        if input.channels() != 1 || input.frame_size() != self.frame_size {
            return false;
        }
        match self.stage {
            Stage::Idle => {},
            _ => {
                return false;
            },
        }
        let mut data = input.into_channels();
        let ghost held = planes(data);
        match data.pop() {
            Some(mono) => {
                assert(mono@ == held[0]);
                self.frame = mono;
                self.direct = self.config.direct;
                self.stage = Stage::Spatial;
                true
            },
            None => false,
        }
    }

    /// Ends the chain: the reply in hand did not fit the step.
    fn fail(&mut self)
        ensures
            final(self)@ == (ChainView { stage: Stage::Failed, frame: Seq::empty(), ..old(self)@ }),
    {
        self.stage = Stage::Failed;
        self.frame = Vec::new();
    }

    /// Takes the channels that an effect wrote, if they are `channels`
    /// channels of the chain's frame size.
    fn take_block(&self, data: Vec<Vec<u32>>, channels: usize) -> (block: Option<FrameBuffer>)
        ensures
            block is Some <==> is_block(planes(data), channels as nat, self@.frame_size as nat),
            block matches Some(frame) ==> frame.wf() && frame@ == planes(data)
                && frame.frame_size() == self@.frame_size && frame.sample_rate()
                == self@.sample_rate,
    {
        match FrameBuffer::from_channels(data, self.sample_rate) {
            Some(frame) => {
                if frame.channels() == channels && frame.frame_size() == self.frame_size {
                    Some(frame)
                } else {
                    None
                }
            },
            None => None,
        }
    }

    /// Hands the chain the reply to the step that was due. Returns the
    /// stereo frame once the binaural step is answered.
    pub fn advance(&mut self, reply: Reply) -> (output: Option<FrameBuffer>)
        requires
            old(self)@.wf(),
        ensures
            final(self)@.wf(),
            final(self)@ == old(self)@.advanced(reply),
            output is Some <==> old(self)@.renders(reply),
            output matches Some(frame) ==> frame.wf() && frame@ == planes(reply->Frame_0)
                && frame.frame_size() == old(self)@.frame_size && frame.sample_rate() == old(
                self,
            )@.sample_rate,
    {
        match self.stage {
            Stage::Idle => None,
            Stage::Failed => None,
            Stage::Spatial => {
                match reply {
                    Reply::SpatialState(spatial) => {
                        self.spatial = spatial;
                        self.stage = Stage::Attenuation;
                    },
                    _ => {
                        self.fail();
                    },
                }
                None
            },
            Stage::Attenuation => {
                match reply {
                    Reply::Gain(gain) => {
                        self.direct.distance_attenuation = gain;
                        self.stage = Stage::Absorption;
                    },
                    _ => {
                        self.fail();
                    },
                }
                None
            },
            Stage::Absorption => {
                match reply {
                    Reply::Bands(bands) => {
                        self.direct.air_absorption = bands;
                        self.stage = Stage::Directivity;
                    },
                    _ => {
                        self.fail();
                    },
                }
                None
            },
            Stage::Directivity => {
                match reply {
                    Reply::Gain(gain) => {
                        self.direct.directivity = gain;
                        self.stage = Stage::Direct;
                    },
                    _ => {
                        self.fail();
                    },
                }
                None
            },
            Stage::Direct => {
                match reply {
                    Reply::Frame(data) => {
                        match self.take_block(data, 1) {
                            Some(block) => {
                                let mut channels = block.into_channels();
                                let ghost held = planes(channels);
                                match channels.pop() {
                                    Some(mono) => {
                                        assert(mono@ == held[0]);
                                        self.frame = mono;
                                        self.stage = Stage::Binaural;
                                    },
                                    None => {
                                        self.fail();
                                    },
                                }
                            },
                            None => {
                                self.fail();
                            },
                        }
                    },
                    _ => {
                        self.fail();
                    },
                }
                None
            },
            Stage::Binaural => {
                match reply {
                    Reply::Frame(data) => {
                        match self.take_block(data, 2) {
                            Some(block) => {
                                self.frame = Vec::new();
                                self.stage = Stage::Idle;
                                Some(block)
                            },
                            None => {
                                self.fail();
                                None
                            },
                        }
                    },
                    _ => {
                        self.fail();
                        None
                    },
                }
            },
        }
    }
}

} // verus!
