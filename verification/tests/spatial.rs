use bevy_steam_audio::effects::{Bands, EffectConfig, Reply, Request};
use bevy_steam_audio::sample::{check_nan, check_same_number, check_zero, NEG_ONE, ONE, ZERO};
use bevy_steam_audio::settings::AudioSettings;
use bevy_steam_audio::source::{Pull, SteamDecoder};
use bevy_steam_audio::spatial::{
    listener_update, source_update, ListenerTransform, Orientation, SimulationFlags,
    SimulationSharedInputs, SpatialState, Vec3, TWO,
};

fn bits(x: f32, y: f32, z: f32) -> Vec3 {
    Vec3::new(x.to_bits(), y.to_bits(), z.to_bits())
}

fn floats(v: Vec3) -> [f32; 3] {
    [f32::from_bits(v.x), f32::from_bits(v.y), f32::from_bits(v.z)]
}

fn transform(entity: u64, x: f32) -> ListenerTransform {
    ListenerTransform {
        entity,
        translation: bits(x, 0.0, 0.0),
        right: bits(1.0, 0.0, 0.0),
        up: bits(0.0, 1.0, 0.0),
        forward: bits(0.0, 0.0, -1.0),
    }
}

#[test]
fn constants_are_the_bits_they_name() {
    assert_eq!(ZERO, 0.0f32.to_bits());
    assert_eq!(ONE, 1.0f32.to_bits());
    assert_eq!(NEG_ONE, (-1.0f32).to_bits());
    assert_eq!(TWO, 2.0f32.to_bits());
}

#[test]
fn special_values_are_told_apart() {
    assert!(check_nan(f32::NAN.to_bits()));
    assert!(check_nan((-f32::NAN).to_bits()));
    assert!(check_nan(0x7f80_0001));
    assert!(!check_nan(f32::INFINITY.to_bits()));
    assert!(!check_nan(f32::NEG_INFINITY.to_bits()));
    assert!(!check_nan(1.5f32.to_bits()));
    assert!(!check_nan(0));
    assert!(check_zero(0.0f32.to_bits()));
    assert!(check_zero((-0.0f32).to_bits()));
    assert!(!check_zero(f32::MIN_POSITIVE.to_bits()));
    assert!(check_same_number(0.0f32.to_bits(), (-0.0f32).to_bits()));
    assert!(check_same_number(2.5f32.to_bits(), 2.5f32.to_bits()));
    assert!(!check_same_number(2.5f32.to_bits(), (-2.5f32).to_bits()));
    assert!(!check_same_number(f32::NAN.to_bits(), f32::NAN.to_bits()));
}

#[test]
fn new_state_is_all_zero() {
    let state = SpatialState::new();
    assert_eq!(state.direction(), Vec3::origin());
    assert_eq!(state.source_position(), Vec3::origin());
    assert_eq!(state.listener_position(), Vec3::origin());
}

#[test]
fn write_keeps_a_proper_direction() {
    let mut state = SpatialState::new();
    state.write(bits(0.6, 0.0, 0.8), bits(3.0, 0.0, 4.0), bits(0.0, 0.0, 0.0));
    assert_eq!(state.direction(), bits(0.6, 0.0, 0.8));
    assert_eq!(state.source_position(), bits(3.0, 0.0, 4.0));
    assert_eq!(state.listener_position(), bits(0.0, 0.0, 0.0));
}

#[test]
fn direction_with_nan_becomes_zero() {
    for direction in [
        bits(f32::NAN, 0.0, 0.0),
        bits(0.0, f32::NAN, 0.0),
        bits(0.0, 0.0, f32::NAN),
    ] {
        let mut state = SpatialState::new();
        state.write(direction, bits(1.0, 2.0, 3.0), bits(0.0, 0.0, 0.0));
        assert_eq!(state.direction(), Vec3::origin());
        assert_eq!(state.source_position(), bits(1.0, 2.0, 3.0));
    }
}

#[test]
fn coincident_positions_give_no_direction() {
    let mut state = SpatialState::new();
    state.write(bits(1.0, 0.0, 0.0), bits(1.0, 2.0, 3.0), bits(1.0, 2.0, 3.0));
    assert_eq!(state.direction(), Vec3::origin());
    state.write(bits(1.0, 0.0, 0.0), bits(0.0, 2.0, 3.0), bits(-0.0, 2.0, 3.0));
    assert_eq!(state.direction(), Vec3::origin());
    // a NaN position is nowhere, so it coincides with nothing
    state.write(bits(1.0, 0.0, 0.0), bits(f32::NAN, 2.0, 3.0), bits(f32::NAN, 2.0, 3.0));
    assert_eq!(state.direction(), bits(1.0, 0.0, 0.0));
}

#[test]
fn stored_direction_has_length_zero_or_one() {
    let sources = [[0.0f32, 0.0, 0.0], [3.0, 4.0, 0.0], [0.0, 0.0, 5.0], [1e-30, 0.0, 0.0]];
    let listener = [0.0f32, 0.0, 5.0];
    for source in sources {
        let offset =
            [source[0] - listener[0], source[1] - listener[1], source[2] - listener[2]];
        let length =
            (offset[0] * offset[0] + offset[1] * offset[1] + offset[2] * offset[2]).sqrt();
        // a caller that divides without looking hands over NaNs at length zero
        let direction = bits(offset[0] / length, offset[1] / length, offset[2] / length);
        let mut state = SpatialState::new();
        source_update(
            &mut state,
            direction,
            bits(source[0], source[1], source[2]),
            bits(listener[0], listener[1], listener[2]),
        );
        let stored = floats(state.direction());
        let stored_length =
            (stored[0] * stored[0] + stored[1] * stored[1] + stored[2] * stored[2]).sqrt();
        assert!(!stored_length.is_nan());
        assert!(stored_length == 0.0 || (stored_length - 1.0).abs() < 1e-5);
        if source == listener {
            assert_eq!(state.direction(), Vec3::origin());
        }
    }
}

#[test]
fn source_in_front_of_listener() {
    // source at the origin, listener at (0, 0, 5) looking down -Z
    let source = [0.0f32, 0.0, 0.0];
    let listener = [0.0f32, 0.0, 5.0];
    let offset = [source[0] - listener[0], source[1] - listener[1], source[2] - listener[2]];
    let length = (offset[0] * offset[0] + offset[1] * offset[1] + offset[2] * offset[2]).sqrt();
    let mut state = SpatialState::new();
    source_update(
        &mut state,
        bits(offset[0] / length, offset[1] / length, offset[2] / length),
        bits(source[0], source[1], source[2]),
        bits(listener[0], listener[1], listener[2]),
    );
    let direction = floats(state.direction());
    assert!((direction[0] - 0.0).abs() < 1e-5);
    assert!((direction[1] - 0.0).abs() < 1e-5);
    assert!((direction[2] - -1.0).abs() < 1e-5);

    // the positions that reach the attenuation and absorption steps are 5 apart
    let settings = AudioSettings::new(44_100, 1).unwrap();
    let mut decoder = SteamDecoder::new(vec![0], settings, EffectConfig::default());
    assert_eq!(decoder.next(), Pull::Pending(Request::SpatialState));
    decoder.resume(Reply::SpatialState(state));
    for _ in 0..2 {
        let (from, to) = match decoder.next() {
            Pull::Pending(Request::DistanceAttenuation { source, listener, .. }) => {
                decoder.resume(Reply::Gain(ONE));
                (floats(source), floats(listener))
            }
            Pull::Pending(Request::AirAbsorption { source, listener, .. }) => {
                decoder.resume(Reply::Bands(Bands { low: ONE, mid: ONE, high: ONE }));
                (floats(source), floats(listener))
            }
            other => panic!("unexpected pull {:?}", other),
        };
        let distance = ((from[0] - to[0]).powi(2)
            + (from[1] - to[1]).powi(2)
            + (from[2] - to[2]).powi(2))
        .sqrt();
        assert_eq!(distance, 5.0);
    }
    assert!(matches!(decoder.next(), Pull::Pending(Request::Directivity { .. })));
}

#[test]
fn no_listener_leaves_the_inputs() {
    let mut shared = SimulationSharedInputs::default();
    shared.num_rays = 7;
    let before = shared;
    assert_eq!(listener_update(&mut shared, &Vec::new()), None);
    assert_eq!(shared, before);
}

#[test]
fn listener_becomes_the_simulators_listener() {
    let mut shared = SimulationSharedInputs::default();
    shared.num_rays = 7;
    let flags = listener_update(&mut shared, &vec![transform(9, 2.0)]);
    assert_eq!(flags, Some(SimulationFlags { direct: true, reflections: true, pathing: true }));
    assert_eq!(
        shared,
        SimulationSharedInputs {
            listener: Orientation {
                right: bits(1.0, 0.0, 0.0),
                up: bits(0.0, 1.0, 0.0),
                ahead: bits(0.0, 0.0, -1.0),
                origin: bits(2.0, 0.0, 0.0),
            },
            num_rays: 4096,
            num_bounces: 16,
            duration: 2.0f32.to_bits(),
            order: 1,
            irradiance_min_distance: 1.0f32.to_bits(),
        }
    );
}

#[test]
fn smallest_entity_is_the_listener() {
    let mut shared = SimulationSharedInputs::default();
    let listeners =
        vec![transform(5, 50.0), transform(3, 30.0), transform(8, 80.0), transform(3, 31.0)];
    listener_update(&mut shared, &listeners);
    assert_eq!(shared.listener.origin, bits(30.0, 0.0, 0.0));
    let mut reversed = listeners.clone();
    reversed.reverse();
    listener_update(&mut shared, &reversed);
    assert_eq!(shared.listener.origin, bits(31.0, 0.0, 0.0));
}

#[test]
fn update_twice_is_update_once() {
    let listeners = vec![transform(2, 1.0), transform(1, 4.0)];
    let mut once = SimulationSharedInputs::default();
    listener_update(&mut once, &listeners);
    let mut twice = SimulationSharedInputs::default();
    listener_update(&mut twice, &listeners);
    listener_update(&mut twice, &listeners);
    assert_eq!(once, twice);

    let direction = bits(0.0, 0.0, -1.0);
    let source = bits(0.0, 0.0, 0.0);
    let listener = bits(0.0, 0.0, 5.0);
    let mut once = SpatialState::new();
    source_update(&mut once, direction, source, listener);
    let mut twice = SpatialState::new();
    source_update(&mut twice, direction, source, listener);
    source_update(&mut twice, direction, source, listener);
    assert_eq!(once, twice);
}

#[test]
fn default_inputs_listen_from_the_origin() {
    let shared = SimulationSharedInputs::default();
    assert_eq!(shared.listener, Orientation::standard());
    assert_eq!(shared.listener.ahead, bits(0.0, 0.0, -1.0));
    assert_eq!(shared.num_rays, 4096);
    assert_eq!(shared.num_bounces, 16);
    assert_eq!(shared.order, 1);
}
