//! Tests for the spatial scene and for streaming playback.

use ringbuf::RingBuffer;

use kira::fixed::Fixed;
use kira::frame::Frame;
use kira::manager::backend::{Backend, MockBackend};
use kira::manager::{AudioManager, AudioManagerSettings};
use kira::math::{Quaternion, Vec3};
use kira::sound::static_sound::PlaybackState;
use kira::sound::streaming::{
    streaming_command_channel, StreamingSound, StreamingSoundHandle, StreamingSoundSettings,
};
use kira::spatial::{EmitterDistances, EmitterSettings, ListenerSettings, SpatialSceneSettings};
use kira::track::TrackId;
use kira::tween::{Easing, Tween};
use kira::volume::Volume;

fn fx(n: i32) -> Fixed {
    Fixed::from_int(n)
}

fn fxr(n: i64, d: i64) -> Fixed {
    Fixed::from_ratio(n, d)
}

/// An emitter with neither attenuation nor spatialization passes its input
/// through to the listener's track unchanged.
#[test]
fn listener_passes_plain_emitter_through() {
    let mut manager: AudioManager<MockBackend> =
        AudioManager::new(1, AudioManagerSettings::default());
    let scene = manager
        .add_spatial_scene(SpatialSceneSettings::default())
        .unwrap();
    let renderer = manager.backend.renderer_mut();
    let scene_state = renderer.resources.spatial_scenes.get_mut(scene.id().0);
    let emitter = scene_state
        .add_emitter(EmitterSettings {
            position: Vec3::new(fx(3), fx(0), fx(0)),
            distances: EmitterDistances { min_distance: fx(1), max_distance: fx(10) },
            attenuation_function: None,
            enable_spatialization: false,
        })
        .unwrap();
    scene_state
        .add_listener(ListenerSettings {
            position: Vec3::zero(),
            orientation: Quaternion::identity(),
            track: TrackId::Main,
        })
        .unwrap();
    let input = Frame::from_mono(fxr(1, 2));
    scene_state.emitters.get_mut(emitter.key).add_input(input);
    let out = renderer.process();
    assert_eq!(out, input);
}

/// An emitter at the far edge of its attenuation band is heard at the
/// minimum level: silence.
#[test]
fn listener_attenuates_distant_emitter_to_silence() {
    let mut manager: AudioManager<MockBackend> =
        AudioManager::new(1, AudioManagerSettings::default());
    let scene = manager
        .add_spatial_scene(SpatialSceneSettings::default())
        .unwrap();
    let renderer = manager.backend.renderer_mut();
    let scene_state = renderer.resources.spatial_scenes.get_mut(scene.id().0);
    let emitter = scene_state
        .add_emitter(EmitterSettings {
            position: Vec3::new(fx(100), fx(0), fx(0)),
            distances: EmitterDistances { min_distance: fx(1), max_distance: fx(10) },
            attenuation_function: Some(Easing::Linear),
            enable_spatialization: false,
        })
        .unwrap();
    scene_state
        .add_listener(ListenerSettings {
            position: Vec3::zero(),
            orientation: Quaternion::identity(),
            track: TrackId::Main,
        })
        .unwrap();
    scene_state.emitters.get_mut(emitter.key).add_input(Frame::from_mono(fx(1)));
    let out = renderer.process();
    assert_eq!(out, Frame::zero());
}

/// An emitter at the near edge of its attenuation band is heard at full
/// volume.
#[test]
fn listener_keeps_near_emitter_at_full_volume() {
    let mut manager: AudioManager<MockBackend> =
        AudioManager::new(1, AudioManagerSettings::default());
    let scene = manager
        .add_spatial_scene(SpatialSceneSettings::default())
        .unwrap();
    let renderer = manager.backend.renderer_mut();
    let scene_state = renderer.resources.spatial_scenes.get_mut(scene.id().0);
    let emitter = scene_state
        .add_emitter(EmitterSettings {
            position: Vec3::new(fx(1), fx(0), fx(0)),
            distances: EmitterDistances { min_distance: fx(1), max_distance: fx(10) },
            attenuation_function: Some(Easing::Linear),
            enable_spatialization: false,
        })
        .unwrap();
    scene_state
        .add_listener(ListenerSettings {
            position: Vec3::zero(),
            orientation: Quaternion::identity(),
            track: TrackId::Main,
        })
        .unwrap();
    let input = Frame::from_mono(fxr(1, 2));
    scene_state.emitters.get_mut(emitter.key).add_input(input);
    let out = renderer.process();
    assert_eq!(out, input);
}

fn streaming_fixture(frames: Vec<Frame>) -> (StreamingSound, StreamingSoundHandle) {
    let (mut frame_producer, frame_consumer) = RingBuffer::new(64).split();
    for f in frames {
        frame_producer.push(f).unwrap();
    }
    let (command_producer, command_consumer) = streaming_command_channel();
    let sound = StreamingSound::new(
        1,
        StreamingSoundSettings::default(),
        frame_consumer,
        command_consumer,
    );
    (sound, StreamingSoundHandle { command_producer })
}

/// A streaming sound plays the decoded frames in order, at the usual
/// two-frame window delay, and plays silence once the ring runs dry.
#[test]
fn streaming_plays_buffered_frames_in_order() {
    let (mut sound, _) = streaming_fixture(
        (1..=3).map(|i| Frame::from_mono(fx(i))).collect(),
    );
    // the window needs a few pulls before the first frame reaches the
    // interpolation center
    assert_eq!(sound.process(fx(1)), Frame::zero());
    assert_eq!(sound.process(fx(1)), Frame::zero());
    assert_eq!(sound.process(fx(1)), Frame::zero());
    for i in 1..=3 {
        assert_eq!(
            sound.process(fx(1)),
            Frame::from_mono(fx(i)).panned(fxr(1, 2))
        );
    }
    for _ in 0..5 {
        assert_eq!(sound.process(fx(1)), Frame::zero());
    }
    assert!(!sound.finished());
}

/// A streaming sound pauses and stops through its handle; stopping is
/// final.
#[test]
fn streaming_pauses_and_stops() {
    let (mut sound, mut handle) = streaming_fixture(vec![Frame::from_mono(fx(1)); 50]);
    handle.pause(Tween::default()).unwrap();
    sound.on_start_processing();
    sound.process(fx(1));
    assert_eq!(sound.state, PlaybackState::Paused);
    handle.resume(Tween::default()).unwrap();
    sound.on_start_processing();
    sound.process(fx(1));
    assert_eq!(sound.state, PlaybackState::Playing);
    handle.stop(Tween::default()).unwrap();
    sound.on_start_processing();
    sound.process(fx(1));
    assert_eq!(sound.state, PlaybackState::Stopped);
    handle.resume(Tween::default()).unwrap();
    sound.on_start_processing();
    sound.process(fx(1));
    assert_eq!(sound.state, PlaybackState::Stopped);
}

/// A streaming sound's volume scales the decoded frames.
#[test]
fn streaming_applies_volume() {
    let (mut frame_producer, frame_consumer) = RingBuffer::new(64).split();
    for _ in 0..10 {
        frame_producer.push(Frame::from_mono(fx(1))).unwrap();
    }
    let (_, command_consumer) = streaming_command_channel();
    let mut sound = StreamingSound::new(
        1,
        StreamingSoundSettings {
            volume: Volume::Amplitude(fxr(1, 2)),
            ..Default::default()
        },
        frame_consumer,
        command_consumer,
    );
    sound.process(fx(1));
    sound.process(fx(1));
    sound.process(fx(1));
    assert_eq!(
        sound.process(fx(1)),
        Frame::from_mono(fxr(1, 2)).panned(fxr(1, 2))
    );
}

/// Finished sounds come back to the control side for disposal.
#[test]
fn finished_sounds_are_reclaimed() {
    let mut manager: AudioManager<MockBackend> =
        AudioManager::new(1, AudioManagerSettings::default());
    let data = kira::sound::data::StaticSoundData {
        sample_rate: 1,
        frames: std::sync::Arc::new(vec![Frame::from_mono(fx(1)); 2]),
        settings: kira::sound::data::StaticSoundSettings::new(),
    };
    manager.play(data).unwrap();
    for _ in 0..10 {
        manager.backend.on_start_processing();
        manager.backend.process();
    }
    assert_eq!(manager.reclaim_unused(), 1);
    assert_eq!(manager.reclaim_unused(), 0);
}
