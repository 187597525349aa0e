use bevy_steam_audio::effects::{Bands, EffectConfig, Reply, Request};
use bevy_steam_audio::settings::AudioSettings;
use bevy_steam_audio::source::{Phase, Pull, SteamAudio, SteamDecoder};
use bevy_steam_audio::spatial::{SpatialState, Vec3};

fn host(request: Request, frame: &Vec<u32>) -> Reply {
    match request {
        Request::SpatialState => Reply::SpatialState(SpatialState::new()),
        Request::DistanceAttenuation { .. } => Reply::Gain(3),
        Request::AirAbsorption { .. } => Reply::Bands(Bands { low: 1, mid: 2, high: 3 }),
        Request::Directivity { .. } => Reply::Gain(5),
        Request::Direct { direct } => {
            Reply::Frame(vec![frame.iter().map(|s| s + direct.distance_attenuation).collect()])
        }
        Request::Binaural { .. } => Reply::Frame(vec![
            frame.iter().map(|s| s * 10).collect(),
            frame.iter().map(|s| s * 10 + 1).collect(),
        ]),
    }
}

fn pull(decoder: &mut SteamDecoder) -> Option<u32> {
    loop {
        match decoder.next() {
            Pull::Sample(sample) => return Some(sample),
            Pull::End => return None,
            Pull::Pending(request) => {
                let reply = host(request, decoder.frame());
                decoder.resume(reply);
            }
        }
    }
}

fn decoder(samples: Vec<u32>, frame_size: u32) -> SteamDecoder {
    let settings = AudioSettings::new(48_000, frame_size).unwrap();
    SteamDecoder::new(samples, settings, EffectConfig::default())
}

#[test]
fn stream_is_interleaved_left_right() {
    let mut d = decoder(vec![1, 2, 3, 4, 5], 2);
    let mut out = Vec::new();
    while let Some(sample) = pull(&mut d) {
        out.push(sample);
    }
    // frames [1, 2] and [3, 4]; the direct step adds 3, the binaural step
    // gives 10 s on the left and 10 s + 1 on the right
    assert_eq!(out, vec![40, 41, 50, 51, 60, 61, 70, 71]);
    assert_eq!(d.phase(), Phase::Exhausted);
    assert_eq!(d.blocks_played(), 2);
    assert_eq!(d.consumed(), 5);
}

#[test]
fn one_frame_lasts_two_frame_sizes_of_pulls() {
    let frame_size = 4;
    let mut d = decoder((0..20).collect(), frame_size);
    assert_eq!(d.consumed(), 0);
    for _ in 0..2 * frame_size {
        assert!(pull(&mut d).is_some());
    }
    assert_eq!(d.consumed(), 4);
    assert_eq!(d.blocks_played(), 1);
    assert!(pull(&mut d).is_some());
    assert_eq!(d.consumed(), 8);
    assert_eq!(d.blocks_played(), 2);
    for _ in 0..2 * frame_size - 1 {
        assert!(pull(&mut d).is_some());
    }
    assert_eq!(d.consumed(), 8);
    assert_eq!(d.blocks_played(), 2);
}

#[test]
fn recording_of_one_frame_plays_one_frame() {
    let mut d = decoder(vec![7, 8, 9], 3);
    assert_eq!(d.phase(), Phase::Priming);
    let mut out = Vec::new();
    for _ in 0..6 {
        out.push(pull(&mut d).unwrap());
    }
    assert_eq!(out, vec![100, 101, 110, 111, 120, 121]);
    assert_eq!(d.phase(), Phase::Streaming);
    assert_eq!(d.blocks_played(), 1);
    assert_eq!(pull(&mut d), None);
    assert_eq!(d.phase(), Phase::Exhausted);
    assert_eq!(d.blocks_played(), 1);
}

#[test]
fn exhausted_is_terminal() {
    let mut d = decoder(vec![1], 2);
    assert_eq!(d.next(), Pull::End);
    assert_eq!(d.phase(), Phase::Exhausted);
    assert_eq!(d.consumed(), 1);
    for _ in 0..5 {
        assert_eq!(d.next(), Pull::End);
    }
    d.resume(Reply::Gain(1));
    assert_eq!(d.next(), Pull::End);
    assert_eq!(d.phase(), Phase::Exhausted);
}

#[test]
fn empty_recording_ends_at_once() {
    let mut d = decoder(Vec::new(), 1);
    assert_eq!(pull(&mut d), None);
    assert_eq!(d.blocks_played(), 0);
}

#[test]
fn short_tail_is_not_padded() {
    let mut d = decoder(vec![1, 2, 3], 2);
    assert_eq!(pull(&mut d), Some(40));
    assert_eq!(pull(&mut d), Some(41));
    assert_eq!(pull(&mut d), Some(50));
    assert_eq!(pull(&mut d), Some(51));
    assert_eq!(pull(&mut d), None);
}

#[test]
fn steps_come_in_order() {
    let mut d = decoder(vec![1, 2], 2);
    let mut kinds = Vec::new();
    loop {
        match d.next() {
            Pull::Pending(request) => {
                kinds.push(match request {
                    Request::SpatialState => "spatial",
                    Request::DistanceAttenuation { .. } => "attenuation",
                    Request::AirAbsorption { .. } => "absorption",
                    Request::Directivity { .. } => "directivity",
                    Request::Direct { .. } => "direct",
                    Request::Binaural { .. } => "binaural",
                });
                let reply = host(request, d.frame());
                d.resume(reply);
            }
            _ => break,
        }
    }
    assert_eq!(
        kinds,
        vec!["spatial", "attenuation", "absorption", "directivity", "direct", "binaural"]
    );
}

#[test]
fn pending_step_is_repeated_until_answered() {
    let mut d = decoder(vec![1, 2], 2);
    assert_eq!(d.next(), Pull::Pending(Request::SpatialState));
    assert_eq!(d.next(), Pull::Pending(Request::SpatialState));
    assert_eq!(d.consumed(), 2);
    assert_eq!(d.frame(), &vec![1, 2]);
}

#[test]
fn replies_reach_the_effect_parameters() {
    let mut d = decoder(vec![1, 2], 2);
    let mut state = SpatialState::new();
    let direction = Vec3::new(0, 0, 0xbf80_0000);
    let source = Vec3::new(0, 0, 0);
    let listener = Vec3::new(0, 0, 0x40a0_0000);
    state.write(direction, source, listener);
    assert_eq!(d.next(), Pull::Pending(Request::SpatialState));
    d.resume(Reply::SpatialState(state));
    let config = EffectConfig::default();
    assert_eq!(
        d.next(),
        Pull::Pending(Request::DistanceAttenuation {
            attenuation: config.attenuation,
            source,
            listener
        })
    );
    d.resume(Reply::Gain(11));
    assert_eq!(
        d.next(),
        Pull::Pending(Request::AirAbsorption { absorption: config.absorption, source, listener })
    );
    d.resume(Reply::Bands(Bands { low: 21, mid: 22, high: 23 }));
    assert_eq!(
        d.next(),
        Pull::Pending(Request::Directivity {
            directivity: config.directivity,
            orientation: config.source,
            listener
        })
    );
    d.resume(Reply::Gain(31));
    match d.next() {
        Pull::Pending(Request::Direct { direct }) => {
            assert_eq!(direct.distance_attenuation, 11);
            assert_eq!(direct.air_absorption, Bands { low: 21, mid: 22, high: 23 });
            assert_eq!(direct.directivity, 31);
            assert_eq!(direct.flags, config.direct.flags);
            assert_eq!(direct.occlusion, config.direct.occlusion);
        }
        other => panic!("unexpected pull {:?}", other),
    }
    d.resume(Reply::Frame(vec![vec![8, 9]]));
    assert_eq!(d.frame(), &vec![8, 9]);
    match d.next() {
        Pull::Pending(Request::Binaural { binaural }) => {
            assert_eq!(binaural.direction, direction);
            assert_eq!(binaural.interpolation, config.binaural.interpolation);
            assert_eq!(binaural.spatial_blend, config.binaural.spatial_blend);
        }
        other => panic!("unexpected pull {:?}", other),
    }
    d.resume(Reply::Frame(vec![vec![100, 101], vec![200, 201]]));
    assert_eq!(d.next(), Pull::Sample(100));
    assert_eq!(d.next(), Pull::Sample(200));
    assert_eq!(d.next(), Pull::Sample(101));
    assert_eq!(d.next(), Pull::Sample(201));
}

#[test]
fn failed_effect_stops_the_sound() {
    let mut d = decoder(vec![1, 2, 3, 4], 2);
    assert_eq!(pull(&mut d), Some(40));
    assert_eq!(pull(&mut d), Some(41));
    assert_eq!(pull(&mut d), Some(50));
    assert_eq!(pull(&mut d), Some(51));
    assert_eq!(d.next(), Pull::Pending(Request::SpatialState));
    d.resume(Reply::Failed);
    assert_eq!(d.phase(), Phase::Failed);
    assert_eq!(d.next(), Pull::End);
    assert_eq!(d.next(), Pull::End);
    assert_eq!(d.blocks_played(), 1);
}

#[test]
fn malformed_frame_stops_the_sound() {
    let mut d = decoder(vec![1, 2], 2);
    for _ in 0..4 {
        match d.next() {
            Pull::Pending(request) => {
                let reply = host(request, d.frame());
                d.resume(reply);
            }
            other => panic!("unexpected pull {:?}", other),
        }
    }
    assert!(matches!(d.next(), Pull::Pending(Request::Direct { .. })));
    d.resume(Reply::Frame(vec![vec![1, 2, 3]]));
    assert_eq!(d.phase(), Phase::Failed);
    assert_eq!(d.next(), Pull::End);
}

#[test]
fn mono_reply_to_binaural_stops_the_sound() {
    let mut d = decoder(vec![1, 2], 2);
    for _ in 0..5 {
        match d.next() {
            Pull::Pending(request) => {
                let reply = host(request, d.frame());
                d.resume(reply);
            }
            other => panic!("unexpected pull {:?}", other),
        }
    }
    assert!(matches!(d.next(), Pull::Pending(Request::Binaural { .. })));
    d.resume(Reply::Frame(vec![vec![1, 2]]));
    assert_eq!(d.phase(), Phase::Failed);
}

#[test]
fn reply_of_the_wrong_kind_stops_the_sound() {
    let mut d = decoder(vec![1, 2], 2);
    assert_eq!(d.next(), Pull::Pending(Request::SpatialState));
    d.resume(Reply::Gain(1));
    assert_eq!(d.phase(), Phase::Failed);
    assert_eq!(d.next(), Pull::End);
}

#[test]
fn stray_reply_is_dropped() {
    let mut d = decoder(vec![1, 2], 2);
    d.resume(Reply::Gain(1));
    assert_eq!(d.phase(), Phase::Priming);
    assert_eq!(pull(&mut d), Some(40));
    d.resume(Reply::Failed);
    assert_eq!(d.phase(), Phase::Streaming);
    assert_eq!(pull(&mut d), Some(41));
}

#[test]
fn two_sounds_do_not_disturb_each_other() {
    // a unit impulse at a different place in each recording
    let mut a = decoder(vec![1, 0, 0, 0], 2);
    let mut b = decoder(vec![0, 0, 0, 1], 2);
    let mut out_a = Vec::new();
    let mut out_b = Vec::new();
    loop {
        let sample_a = pull(&mut a);
        let sample_b = pull(&mut b);
        if sample_a.is_none() && sample_b.is_none() {
            break;
        }
        out_a.extend(sample_a);
        out_b.extend(sample_b);
    }
    assert_eq!(out_a, vec![40, 41, 30, 31, 30, 31, 30, 31]);
    assert_eq!(out_b, vec![30, 31, 30, 31, 30, 31, 40, 41]);

    let mut alone = decoder(vec![1, 0, 0, 0], 2);
    let mut out_alone = Vec::new();
    while let Some(sample) = pull(&mut alone) {
        out_alone.push(sample);
    }
    assert_eq!(out_a, out_alone);
}

#[test]
fn stream_metadata() {
    let d = decoder(vec![1, 2], 2);
    assert_eq!(d.channels(), 2);
    assert_eq!(d.sample_rate(), 48_000);
    assert_eq!(d.current_frame_len(), None);
    assert_eq!(d.total_duration(), None);
}

#[test]
fn each_decoder_of_a_sound_starts_over() {
    let audio = SteamAudio {
        path: String::from("assets/impulse.ogg"),
        samples: vec![1, 2],
        settings: AudioSettings::new(44_100, 1).unwrap(),
        config: EffectConfig::default(),
    };
    let mut first = audio.decoder();
    assert_eq!(pull(&mut first), Some(40));
    assert_eq!(pull(&mut first), Some(41));
    let mut second = audio.decoder();
    assert_eq!(second.phase(), Phase::Priming);
    assert_eq!(second.sample_rate(), 44_100);
    assert_eq!(pull(&mut second), Some(40));
    assert_eq!(pull(&mut first), Some(50));
}
