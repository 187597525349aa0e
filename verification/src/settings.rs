//! Configuration shared by every sound.

use vstd::prelude::*;
use crate::sample::ONE;
use crate::spatial::SimulationFlags;

verus! {

/// The sampling rate that recordings most often have.
pub const DEFAULT_SAMPLING_RATE: u32 = 44_100;

/// The frame size that the effects are set up for by default.
pub const DEFAULT_FRAME_SIZE: u32 = 1024;

/// How audio is cut into frames: samples per second, and samples per frame.
#[derive(Clone, Copy, PartialEq, Eq, Structural, Debug)]
pub struct AudioSettings {
    sampling_rate: u32,
    frame_size: u32,
}

impl AudioSettings {
    /// A frame is never empty.
    #[verifier::type_invariant]
    pub open spec fn wf(self) -> bool {
        self.frame_size() >= 1
    }

    pub closed spec fn spec_sampling_rate(&self) -> u32 {
        self.sampling_rate
    }

    pub closed spec fn spec_frame_size(&self) -> u32 {
        self.frame_size
    }

    /// Settings with a frame size of at least one sample; none for an empty
    /// frame.
    pub fn new(sampling_rate: u32, frame_size: u32) -> (settings: Option<AudioSettings>)
        ensures
            settings is Some <==> frame_size >= 1,
            settings matches Some(s) ==> s.sampling_rate() == sampling_rate && s.frame_size()
                == frame_size && s.wf(),
    {
        if frame_size == 0 {
            None
        } else {
            Some(AudioSettings { sampling_rate, frame_size })
        }
    }

    /// Samples per second.
    #[verifier::when_used_as_spec(spec_sampling_rate)]
    pub fn sampling_rate(&self) -> (rate: u32)
        ensures
            rate == self.sampling_rate(),
    {
        self.sampling_rate
    }

    /// Samples per frame and channel.
    #[verifier::when_used_as_spec(spec_frame_size)]
    pub fn frame_size(&self) -> (size: u32)
        ensures
            size == self.frame_size(),
            size >= 1,
    {
        proof {
            use_type_invariant(self);
        }
        self.frame_size
    }
}

impl Default for AudioSettings {
    fn default() -> (settings: AudioSettings)
        ensures
            settings.sampling_rate() == DEFAULT_SAMPLING_RATE,
            settings.frame_size() == DEFAULT_FRAME_SIZE,
            settings.wf(),
    {
        AudioSettings { sampling_rate: DEFAULT_SAMPLING_RATE, frame_size: DEFAULT_FRAME_SIZE }
    }
}

/// Where the head-related filters come from, and how loud they are.
#[derive(PartialEq, Eq, Debug)]
pub enum HRTFSettings {
    /// The built-in set.
    Default { volume: u32 },
    /// A set read from a file.
    SOFA { path: String, volume: u32 },
}

impl Default for HRTFSettings {
    fn default() -> (settings: HRTFSettings)
        ensures
            settings == (HRTFSettings::Default { volume: ONE }),
    {
        HRTFSettings::Default { volume: ONE }
    }
}

/// Which ray tracer the simulation runs on.
#[derive(Clone, Copy, PartialEq, Eq, Structural, Debug)]
pub enum SceneType {
    Default,
    Embree,
    RadeonRays,
    Custom,
}

/// How reflections are turned into sound.
#[derive(Clone, Copy, PartialEq, Eq, Structural, Debug)]
pub enum ReflectionEffectType {
    Convolution,
    Parametric,
    Hybrid,
    Tan,
}

/// The limits that a simulator is built with.
#[derive(Clone, Copy, PartialEq, Eq, Structural, Debug)]
pub struct SimulationSettings {
    pub flags: SimulationFlags,
    pub scene_type: SceneType,
    pub reflection_type: ReflectionEffectType,
    pub max_num_occlusion_samples: u32,
    pub max_num_rays: u32,
    pub num_diffuse_samples: u32,
    pub max_duration: u32,
    pub max_order: u8,
    pub max_num_sources: u32,
    pub num_threads: u32,
    pub ray_batch_size: u32,
    pub num_vis_samples: u32,
    pub sampling_rate: u32,
    pub frame_size: u32,
}

impl SimulationSettings {
    /// The default limits for audio cut as `audio` says: direct simulation
    /// only, on the default ray tracer.
    pub open spec fn for_audio(audio: AudioSettings) -> SimulationSettings {
        SimulationSettings {
            flags: SimulationFlags { direct: true, reflections: false, pathing: false },
            scene_type: SceneType::Default,
            reflection_type: ReflectionEffectType::Convolution,
            max_num_occlusion_samples: 0,
            max_num_rays: 4096,
            num_diffuse_samples: 32,
            max_duration: ONE,
            max_order: 1,
            max_num_sources: 256,
            num_threads: 2,
            ray_batch_size: 0,
            num_vis_samples: 0,
            sampling_rate: audio.sampling_rate(),
            frame_size: audio.frame_size(),
        }
    }

    pub fn from_audio_settings(audio_settings: &AudioSettings) -> (settings: SimulationSettings)
        ensures
            settings == SimulationSettings::for_audio(*audio_settings),
    {
        SimulationSettings {
            flags: SimulationFlags { direct: true, reflections: false, pathing: false },
            scene_type: SceneType::Default,
            reflection_type: ReflectionEffectType::Convolution,
            max_num_occlusion_samples: 0,
            max_num_rays: 4096,
            num_diffuse_samples: 32,
            max_duration: ONE,
            max_order: 1,
            max_num_sources: 256,
            num_threads: 2,
            ray_batch_size: 0,
            num_vis_samples: 0,
            sampling_rate: audio_settings.sampling_rate(),
            frame_size: audio_settings.frame_size(),
        }
    }
}

/// Everything that the acoustic context, the filters and the simulator are
/// built from.
#[derive(PartialEq, Eq, Debug)]
pub struct SpatialAudioSettings {
    pub audio_settings: AudioSettings,
    pub hrtf_settings: HRTFSettings,
    pub simulation_settings: SimulationSettings,
}

/// Sets spatial audio up in a host application.
#[derive(Clone, Copy, PartialEq, Eq, Structural, Debug)]
pub struct SpatialAudioPlugin;

impl SpatialAudioPlugin {
    /// The settings that the plugin starts the acoustic side with: default
    /// audio and filter settings, and simulation limits to match the audio.
    pub fn build(&self) -> (settings: SpatialAudioSettings)
        ensures
            settings.audio_settings.sampling_rate() == DEFAULT_SAMPLING_RATE,
            settings.audio_settings.frame_size() == DEFAULT_FRAME_SIZE,
            settings.hrtf_settings == (HRTFSettings::Default { volume: ONE }),
            settings.simulation_settings == SimulationSettings::for_audio(settings.audio_settings),
    {
        let audio_settings = AudioSettings::default();
        let hrtf_settings = HRTFSettings::default();
        let simulation_settings = SimulationSettings::from_audio_settings(&audio_settings);
        SpatialAudioSettings { audio_settings, hrtf_settings, simulation_settings }
    }
}

} // verus!
