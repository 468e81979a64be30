//! Engine-level tests: clocks, the mixer, sample promotion, volume
//! conversions, the arena, the manager surface and error cases.

use std::sync::Arc;

use kira::arena::Arena;
use kira::clock::ClockSpeed;
use kira::error::{CommandQueueFull, ResourceLimitReached};
use kira::fixed::{Fixed, FIXED_SCALE};
use kira::frame::Frame;
use kira::manager::backend::{Backend, MockBackend};
use kira::manager::{AudioManager, AudioManagerSettings};
use kira::sound::data::{StaticSoundData, StaticSoundSettings};
use kira::sound::samples::{Samples, StereoI16};
use kira::track::{TrackBuilder, TrackRoutes};
use kira::tween::{ClockId, Easing, StartTime, Tween};
use kira::volume::Volume;

fn fx(n: i32) -> Fixed {
    Fixed::from_int(n)
}

fn fxr(n: i64, d: i64) -> Fixed {
    Fixed::from_ratio(n, d)
}

/// A clock at one tick per second, driven at a quarter-second per frame,
/// produces exactly one tick, on the fourth frame.
#[test]
fn clock_ticks_once_after_four_quarter_frames() {
    let mut manager: AudioManager<MockBackend> =
        AudioManager::new(4, AudioManagerSettings::default());
    let mut clock_handle = manager
        .add_clock(ClockSpeed::TicksPerSecond(fx(1)))
        .unwrap();
    clock_handle.start().unwrap();
    manager.backend.on_start_processing();
    for i in 1..=4 {
        manager.backend.process();
        let renderer = manager.backend.renderer();
        let clock = renderer.resources.clocks.get(clock_handle.id().key);
        if i < 4 {
            assert_eq!(clock.ticks, 0);
        } else {
            assert_eq!(clock.ticks, 1);
        }
    }
}

/// A clock with a seconds-per-tick speed ticks at the reciprocal rate.
#[test]
fn clock_seconds_per_tick() {
    let speed = ClockSpeed::SecondsPerTick(fx(2));
    assert_eq!(speed.as_ticks_per_second(), fxr(1, 2));
}

/// A clock that was never started produces no ticks.
#[test]
fn clock_does_not_tick_until_started() {
    let mut manager: AudioManager<MockBackend> =
        AudioManager::new(1, AudioManagerSettings::default());
    let clock_handle = manager
        .add_clock(ClockSpeed::TicksPerSecond(fx(1)))
        .unwrap();
    manager.backend.on_start_processing();
    for _ in 0..5 {
        manager.backend.process();
    }
    let renderer = manager.backend.renderer();
    let clock = renderer.resources.clocks.get(clock_handle.id.key);
    assert_eq!(clock.ticks, 0);
}

/// Two sub-tracks route to the main track with volumes 1/2 and 1/4; each
/// receives a full-scale frame. The main track's output is 3/4 of full
/// scale at the main volume.
#[test]
fn mixer_routes_scale_and_sum() {
    let mut manager: AudioManager<MockBackend> =
        AudioManager::new(1, AudioManagerSettings::default());
    let a = manager
        .add_sub_track(
            TrackBuilder::new().routes(
                TrackRoutes::empty().with_route(
                    kira::track::TrackId::Main,
                    Volume::Amplitude(fxr(1, 2)),
                ),
            ),
        )
        .unwrap();
    let b = manager
        .add_sub_track(
            TrackBuilder::new().routes(
                TrackRoutes::empty().with_route(
                    kira::track::TrackId::Main,
                    Volume::Amplitude(fxr(1, 4)),
                ),
            ),
        )
        .unwrap();
    let renderer = manager.backend.renderer_mut();
    renderer.resources.mixer.add_input(a.id(), Frame::from_mono(fx(1)));
    renderer.resources.mixer.add_input(b.id(), Frame::from_mono(fx(1)));
    let out = renderer.process();
    assert_eq!(out, Frame::from_mono(fxr(3, 4)));
}

/// A track's own volume scales its output.
#[test]
fn mixer_track_volume_applies() {
    let mut manager: AudioManager<MockBackend> =
        AudioManager::new(1, AudioManagerSettings::default());
    let a = manager
        .add_sub_track(TrackBuilder::new().volume(Volume::Amplitude(fxr(1, 2))))
        .unwrap();
    let renderer = manager.backend.renderer_mut();
    renderer.resources.mixer.add_input(a.id(), Frame::from_mono(fx(1)));
    let out = renderer.process();
    assert_eq!(out, Frame::from_mono(fxr(1, 2)));
}

/// Promoting sample storage to fixed point and then to stereo keeps the
/// number of sample positions, whatever the starting shape.
#[test]
fn sample_promotion_round_trip_keeps_length() {
    let mono16 = Samples::I16Mono(vec![0, 100, -100, i16::MAX, i16::MIN]);
    assert_eq!(mono16.len(), 5);
    let promoted = mono16.ensure_32_bit().ensure_stereo();
    assert_eq!(promoted.len(), 5);

    let stereo16 = Samples::I16Stereo(vec![StereoI16 { left: 1, right: 2 }; 7]);
    assert_eq!(stereo16.ensure_32_bit().ensure_stereo().len(), 7);

    let monofx = Samples::FixedMono(vec![fx(1), fx(2), fx(3)]);
    assert_eq!(monofx.ensure_32_bit().ensure_stereo().len(), 3);

    let stereofx = Samples::FixedStereo(vec![Frame::from_mono(fx(1)); 4]);
    assert_eq!(stereofx.ensure_32_bit().ensure_stereo().len(), 4);
}

/// A full-scale 16-bit sample promotes to exactly 1; mono samples play the
/// same on both channels.
#[test]
fn sample_promotion_values() {
    let samples = Samples::I16Mono(vec![i16::MAX, 0]);
    match samples.ensure_32_bit() {
        Samples::FixedMono(v) => {
            assert_eq!(v[0], fx(1));
            assert_eq!(v[1], fx(0));
        }
        _ => panic!("expected fixed-point mono samples"),
    }
    let samples = Samples::I16Mono(vec![i16::MAX]);
    match samples.ensure_stereo() {
        Samples::I16Stereo(v) => {
            assert_eq!(v[0].left, v[0].right);
        }
        _ => panic!("expected stereo samples"),
    }
}

/// 0 dB is exactly full volume, the minimum level is exact silence, and
/// levels in between fall strictly monotonically.
#[test]
fn volume_conversions() {
    assert_eq!(Volume::Decibels(fx(0)).as_amplitude(), fx(1));
    assert_eq!(Volume::Decibels(fx(-60)).as_amplitude(), fx(0));
    assert_eq!(Volume::Decibels(fx(-100)).as_amplitude(), fx(0));
    let a15 = Volume::Decibels(fx(-15)).as_amplitude();
    let a30 = Volume::Decibels(fx(-30)).as_amplitude();
    let a45 = Volume::Decibels(fx(-45)).as_amplitude();
    assert!(fx(0).raw < a45.raw && a45.raw < a30.raw && a30.raw < a15.raw && a15.raw < fx(1).raw);
    // -6.02 dB is close to an amplitude of 1/2
    let half = Volume::Decibels(Fixed { raw: -25859696640 }).as_amplitude();
    let err = (half.raw - fxr(1, 2).raw).abs();
    assert!(err < FIXED_SCALE / 1000);
    // amplitude 1 is 0 dB
    let db = Volume::Amplitude(fx(1)).as_decibels();
    assert!(db.raw.abs() < FIXED_SCALE / 1000);
    // amplitude 1/2 is close to -6.02 dB
    let db = Volume::Amplitude(fxr(1, 2)).as_decibels();
    assert!((db.raw - (-25859696640)).abs() < FIXED_SCALE / 100);
}

/// Hard panning: at 0 the right channel is silent, at 1 the left channel
/// is silent, and the center leaves both channels equal.
#[test]
fn panning_extremes() {
    let f = Frame::from_mono(fx(1));
    assert_eq!(f.panned(fx(0)).right, fx(0));
    assert_eq!(f.panned(fx(1)).left, fx(0));
    let centered = f.panned(fxr(1, 2));
    assert_eq!(centered.left, centered.right);
    assert!(centered.left.raw > 0);
}

/// Easing curves pass through the endpoints and bend in the advertised
/// direction.
#[test]
fn easing_endpoints() {
    for e in [Easing::Linear, Easing::InPowi(2), Easing::OutPowi(2), Easing::InOutPowi(2)] {
        assert_eq!(kira::tween::ease(e, fx(0)), fx(0));
        assert_eq!(kira::tween::ease(e, fx(1)), fx(1));
    }
    assert!(kira::tween::ease(Easing::InPowi(2), fxr(1, 2)).raw < fxr(1, 2).raw);
    assert!(kira::tween::ease(Easing::OutPowi(2), fxr(1, 2)).raw > fxr(1, 2).raw);
    assert_eq!(kira::tween::ease(Easing::InOutPowi(2), fxr(1, 2)), fxr(1, 2));
}

/// The arena issues keys, stores values under them, and refuses stale keys
/// after removal.
#[test]
fn arena_generational_keys() {
    let mut arena: Arena<u64> = Arena::new(2);
    let k1 = arena.try_reserve().unwrap();
    let k2 = arena.try_reserve().unwrap();
    assert!(arena.try_reserve().is_none());
    assert!(arena.insert(k1, 10));
    assert!(arena.insert(k2, 20));
    assert_eq!(*arena.get(k1), 10);
    assert_eq!(*arena.get(k2), 20);
    assert_eq!(arena.remove(k1), Some(10));
    // the key is now stale
    assert!(!arena.contains(k1));
    assert_eq!(arena.remove(k1), None);
    // the slot can be reserved again under a fresh generation
    let k3 = arena.try_reserve().unwrap();
    assert_eq!(k3.index, k1.index);
    assert_ne!(k3.generation, k1.generation);
}

/// Adding more clocks than the clock arena holds fails with
/// `ResourceLimitReached`.
#[test]
fn clock_capacity_limit() {
    let mut manager: AudioManager<MockBackend> =
        AudioManager::new(1, AudioManagerSettings::default());
    for _ in 0..8 {
        manager.add_clock(ClockSpeed::TicksPerSecond(fx(1))).unwrap();
    }
    match manager.add_clock(ClockSpeed::TicksPerSecond(fx(1))) {
        Err(e) => assert_eq!(e, ResourceLimitReached),
        Ok(_) => panic!("expected the clock arena to be full"),
    }
}

/// Pushing more commands than a sound's queue holds fails with
/// `CommandQueueFull`, and the sound still applies the queued ones.
#[test]
fn command_queue_full() {
    let data = StaticSoundData {
        sample_rate: 1,
        frames: Arc::new(vec![Frame::from_mono(fx(1)); 10]),
        settings: StaticSoundSettings::new(),
    };
    let (mut sound, mut handle) = data.split();
    for _ in 0..8 {
        handle.pause(Tween::default()).unwrap();
    }
    assert_eq!(handle.pause(Tween::default()).unwrap_err(), CommandQueueFull);
    sound.on_start_processing();
    // the queued pauses were applied: the zero-duration fade pauses the
    // sound on the next frame
    sound.process(fx(1));
    assert_eq!(sound.state, kira::sound::static_sound::PlaybackState::Paused);
}

/// Commands are applied in the order they were pushed: the later seek wins.
#[test]
fn commands_apply_in_order() {
    let frames: Vec<Frame> = (0..100).map(|i| Frame::from_mono(fx(i))).collect();
    let data = StaticSoundData {
        sample_rate: 1,
        frames: Arc::new(frames),
        settings: StaticSoundSettings::new(),
    };
    let (mut sound, mut handle) = data.split();
    handle.seek_to(fx(50)).unwrap();
    handle.seek_to(fx(30)).unwrap();
    sound.on_start_processing();
    // pushes continue from index 30, reaching it after the window drains
    let mut seen_30 = false;
    for _ in 0..10 {
        if sound.process(fx(1)) == Frame::from_mono(fx(30)).panned(fxr(1, 2)) {
            seen_30 = true;
            break;
        }
    }
    assert!(seen_30);
}

/// Playing a sound through the whole engine mixes it into the main track's
/// output.
#[test]
fn manager_plays_sound_to_main() {
    let mut manager: AudioManager<MockBackend> =
        AudioManager::new(1, AudioManagerSettings::default());
    let data = StaticSoundData {
        sample_rate: 1,
        frames: Arc::new(vec![Frame::from_mono(fx(1)); 4]),
        settings: StaticSoundSettings::new(),
    };
    manager.play(data).unwrap();
    manager.backend.on_start_processing();
    let out = manager.backend.process();
    assert_eq!(out, Frame::from_mono(fx(1)).panned(fxr(1, 2)));
}

/// A sound scheduled on a clock starts when the engine's clock reaches the
/// tick, driven end to end through the renderer.
#[test]
fn manager_clock_gates_sound() {
    let mut manager: AudioManager<MockBackend> =
        AudioManager::new(1, AudioManagerSettings::default());
    let mut clock_handle = manager
        .add_clock(ClockSpeed::TicksPerSecond(fx(1)))
        .unwrap();
    clock_handle.start().unwrap();
    let clock_id: ClockId = clock_handle.id();
    let data = StaticSoundData {
        sample_rate: 1,
        frames: Arc::new(vec![Frame::from_mono(fx(1)); 10]),
        settings: StaticSoundSettings::new().start_time(StartTime::ClockTime(
            kira::tween::ClockTime { clock: clock_id, ticks: 1 },
        )),
    };
    manager.play(data).unwrap();
    manager.backend.on_start_processing();
    // the first frame ticks the clock to 1, which releases the sound in the
    // same frame; its first audible frame arrives with the usual window
    // timing
    let mut heard = false;
    for _ in 0..5 {
        let out = manager.backend.process();
        if out == Frame::from_mono(fx(1)).panned(fxr(1, 2)) {
            heard = true;
            break;
        }
    }
    assert!(heard);
}
