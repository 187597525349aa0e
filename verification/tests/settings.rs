use bevy_steam_audio::settings::{
    AudioSettings, HRTFSettings, ReflectionEffectType, SceneType, SimulationSettings,
    SpatialAudioPlugin, DEFAULT_FRAME_SIZE, DEFAULT_SAMPLING_RATE,
};
use bevy_steam_audio::spatial::SimulationFlags;

#[test]
fn default_audio_settings() {
    let settings = AudioSettings::default();
    assert_eq!(settings.sampling_rate(), 44_100);
    assert_eq!(settings.frame_size(), 1024);
    assert_eq!(DEFAULT_SAMPLING_RATE, 44_100);
    assert_eq!(DEFAULT_FRAME_SIZE, 1024);
}

#[test]
fn empty_frames_are_refused() {
    assert!(AudioSettings::new(44_100, 0).is_none());
    let settings = AudioSettings::new(8_000, 1).unwrap();
    assert_eq!(settings.sampling_rate(), 8_000);
    assert_eq!(settings.frame_size(), 1);
}

#[test]
fn default_hrtf_settings() {
    assert_eq!(HRTFSettings::default(), HRTFSettings::Default { volume: 1.0f32.to_bits() });
}

#[test]
fn simulation_settings_follow_the_audio() {
    let audio = AudioSettings::new(48_000, 512).unwrap();
    let settings = SimulationSettings::from_audio_settings(&audio);
    assert_eq!(
        settings,
        SimulationSettings {
            flags: SimulationFlags { direct: true, reflections: false, pathing: false },
            scene_type: SceneType::Default,
            reflection_type: ReflectionEffectType::Convolution,
            max_num_occlusion_samples: 0,
            max_num_rays: 4096,
            num_diffuse_samples: 32,
            max_duration: 1.0f32.to_bits(),
            max_order: 1,
            max_num_sources: 256,
            num_threads: 2,
            ray_batch_size: 0,
            num_vis_samples: 0,
            sampling_rate: 48_000,
            frame_size: 512,
        }
    );
}

#[test]
fn plugin_builds_the_default_settings() {
    let settings = SpatialAudioPlugin.build();
    assert_eq!(settings.audio_settings, AudioSettings::default());
    assert_eq!(settings.hrtf_settings, HRTFSettings::default());
    assert_eq!(
        settings.simulation_settings,
        SimulationSettings::from_audio_settings(&AudioSettings::default())
    );
    assert_eq!(settings.simulation_settings.sampling_rate, 44_100);
    assert_eq!(settings.simulation_settings.frame_size, 1024);
}
