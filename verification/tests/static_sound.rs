//! Playback tests for static sounds: sample order, state reporting, fades,
//! clock gating, looping, seeking and parameter changes.

use std::sync::Arc;

use kira::arena::ArenaKey;
use kira::fixed::{Fixed, FIXED_SCALE};
use kira::frame::Frame;
use kira::sound::data::{LoopBehavior, StaticSoundData, StaticSoundSettings};
use kira::sound::static_sound::{PlaybackState, StaticSound};
use kira::tween::{ClockId, ClockTime, StartTime, Tween};
use kira::volume::Volume;

fn fx(n: i32) -> Fixed {
    Fixed::from_int(n)
}

fn fxr(n: i64, d: i64) -> Fixed {
    Fixed::from_ratio(n, d)
}

fn mono(n: i32) -> Frame {
    Frame::from_mono(fx(n))
}

fn center() -> Fixed {
    fxr(1, 2)
}

fn clock_id(index: usize) -> ClockId {
    ClockId { key: ArenaKey { index, generation: 1 } }
}

fn expect_frame_soon(expected_frame: Frame, sound: &mut StaticSound) {
    const NUM_SAMPLES_TO_WAIT: usize = 10;
    for _ in 0..NUM_SAMPLES_TO_WAIT {
        let frame = sound.process(fx(1));
        if frame == expected_frame {
            return;
        }
    }
    panic!(
        "Sound did not output frame with value {:?} within {} samples",
        expected_frame, NUM_SAMPLES_TO_WAIT
    );
}

/// Tests that a `StaticSound` will play all of its samples before finishing.
#[test]
fn plays_all_samples() {
    let data = StaticSoundData {
        sample_rate: 1,
        frames: Arc::new(vec![mono(1), mono(2), mono(3)]),
        settings: StaticSoundSettings::new(),
    };
    let (mut sound, _) = data.split();

    assert!(!sound.finished());

    for i in 1..=3 {
        assert_eq!(sound.process(fx(1)), mono(i).panned(center()));
        assert!(!sound.finished());
    }

    // give some time for the resample buffer to empty. in the meantime we
    // should get silent output.
    for _ in 0..10 {
        assert_eq!(sound.process(fx(1)), mono(0).panned(center()));
    }

    // the sound should be finished and stopped by now
    assert!(sound.finished());
    assert_eq!(sound.state, PlaybackState::Stopped);
}

/// Tests that a `StaticSound` correctly reports its playback state.
#[test]
fn reports_playback_state() {
    let data = StaticSoundData {
        sample_rate: 1,
        frames: Arc::new(vec![mono(0); 10]),
        settings: StaticSoundSettings::new(),
    };
    let (mut sound, _) = data.split();

    for i in 0..20 {
        if i < 11 {
            assert_eq!(sound.state, PlaybackState::Playing);
        } else {
            assert_eq!(sound.state, PlaybackState::Stopped);
        }
        sound.process(fx(1));
    }
}

/// Tests that a `StaticSound` correctly reports its playback position.
#[test]
fn reports_playback_position() {
    let data = StaticSoundData {
        sample_rate: 1,
        frames: Arc::new(vec![mono(0); 10]),
        settings: StaticSoundSettings::new(),
    };
    let (mut sound, _) = data.split();

    for i in 0i32..20 {
        assert_eq!(sound.position(), fx(i.clamp(0, 9)));
        sound.process(fx(1));
        sound.on_start_processing();
    }
}

/// Tests that a `StaticSound` fades out fully before pausing and fades back
/// in when resuming.
#[test]
fn pauses_and_resumes_with_fades() {
    let data = StaticSoundData {
        sample_rate: 1,
        frames: Arc::new(vec![mono(1); 100]),
        settings: StaticSoundSettings::new(),
    };
    let (mut sound, mut handle) = data.split();

    sound.process(fx(1));
    assert_eq!(sound.state, PlaybackState::Playing);

    handle
        .pause(Tween { duration: fx(4), ..Default::default() })
        .unwrap();
    sound.on_start_processing();
    assert_eq!(sound.state, PlaybackState::Pausing);

    // allow for a few samples of delay because of the resampling, but the
    // sound should fade out soon.
    expect_frame_soon(
        Frame::from_mono(Volume::Decibels(fx(-15)).as_amplitude()).panned(center()),
        &mut sound,
    );
    assert_eq!(
        sound.process(fx(1)),
        Frame::from_mono(Volume::Decibels(fx(-30)).as_amplitude()).panned(center())
    );
    assert_eq!(
        sound.process(fx(1)),
        Frame::from_mono(Volume::Decibels(fx(-45)).as_amplitude()).panned(center())
    );

    sound.on_start_processing();
    let position = sound.position();
    for _ in 0..10 {
        assert_eq!(sound.process(fx(1)), mono(0).panned(center()));
        sound.on_start_processing();
        assert_eq!(sound.position(), position);
        assert_eq!(sound.state, PlaybackState::Paused);
    }

    handle
        .resume(Tween { duration: fx(4), ..Default::default() })
        .unwrap();
    sound.on_start_processing();

    // allow for a few samples of delay because of the resampling, but the
    // sound should fade back in soon.
    expect_frame_soon(
        Frame::from_mono(Volume::Decibels(fx(-45)).as_amplitude()).panned(center()),
        &mut sound,
    );
    assert_eq!(sound.state, PlaybackState::Playing);
    assert_eq!(
        sound.process(fx(1)),
        Frame::from_mono(Volume::Decibels(fx(-30)).as_amplitude()).panned(center())
    );
    assert_eq!(sound.state, PlaybackState::Playing);
    assert_eq!(
        sound.process(fx(1)),
        Frame::from_mono(Volume::Decibels(fx(-15)).as_amplitude()).panned(center())
    );
    assert_eq!(sound.state, PlaybackState::Playing);

    for _ in 0..3 {
        assert_eq!(sound.process(fx(1)), mono(1).panned(center()));
        assert_eq!(sound.state, PlaybackState::Playing);
    }
}

/// Tests that a `StaticSound` stops and finishes after a fade-out.
#[test]
fn stops_with_fade_out() {
    let data = StaticSoundData {
        sample_rate: 1,
        frames: Arc::new(vec![mono(1); 100]),
        settings: StaticSoundSettings::new(),
    };
    let (mut sound, mut handle) = data.split();

    sound.process(fx(1));
    assert_eq!(sound.state, PlaybackState::Playing);

    handle
        .stop(Tween { duration: fx(4), ..Default::default() })
        .unwrap();
    sound.on_start_processing();
    assert_eq!(sound.state, PlaybackState::Stopping);

    // allow for a few samples of delay because of the resampling, but the
    // sound should fade out soon.
    expect_frame_soon(
        Frame::from_mono(Volume::Decibels(fx(-15)).as_amplitude()).panned(center()),
        &mut sound,
    );
    assert_eq!(
        sound.process(fx(1)),
        Frame::from_mono(Volume::Decibels(fx(-30)).as_amplitude()).panned(center())
    );
    assert_eq!(
        sound.process(fx(1)),
        Frame::from_mono(Volume::Decibels(fx(-45)).as_amplitude()).panned(center())
    );

    sound.on_start_processing();
    let position = sound.position();
    for _ in 0..3 {
        assert_eq!(sound.process(fx(1)), mono(0).panned(center()));
        sound.on_start_processing();
        assert_eq!(sound.position(), position);
        assert_eq!(sound.state, PlaybackState::Stopped);
        assert!(sound.finished());
    }
}

/// Tests that a `StaticSound` can be paused, resumed and stopped on a clock
/// tick.
#[test]
fn pauses_resumes_and_stops_on_clock_tick() {
    let clock = clock_id(0);
    let data = StaticSoundData {
        sample_rate: 1,
        frames: Arc::new(vec![mono(1); 100]),
        settings: StaticSoundSettings::new(),
    };
    let (mut sound, mut handle) = data.split();

    // pause on clock tick
    handle
        .pause(Tween {
            duration: fx(0),
            start_time: StartTime::ClockTime(ClockTime { clock, ticks: 1 }),
            ..Default::default()
        })
        .unwrap();
    sound.on_start_processing();
    for _ in 0..10 {
        assert_eq!(sound.process(fx(1)), mono(1).panned(center()));
    }
    sound.on_clock_tick(ClockTime { clock, ticks: 1 });
    expect_frame_soon(Frame::zero(), &mut sound);
    sound.on_start_processing();
    assert_eq!(sound.state, PlaybackState::Paused);

    // resume on clock tick
    handle
        .resume(Tween {
            duration: fx(0),
            start_time: StartTime::ClockTime(ClockTime { clock, ticks: 2 }),
            ..Default::default()
        })
        .unwrap();
    sound.on_start_processing();
    for _ in 0..10 {
        assert_eq!(sound.process(fx(1)), Frame::zero());
    }
    sound.on_clock_tick(ClockTime { clock, ticks: 2 });
    expect_frame_soon(mono(1).panned(center()), &mut sound);
    sound.on_start_processing();
    assert_eq!(sound.state, PlaybackState::Playing);

    // stop on clock tick
    handle
        .stop(Tween {
            duration: fx(0),
            start_time: StartTime::ClockTime(ClockTime { clock, ticks: 3 }),
            ..Default::default()
        })
        .unwrap();
    sound.on_start_processing();
    for _ in 0..10 {
        assert_eq!(sound.process(fx(1)), mono(1).panned(center()));
    }
    sound.on_clock_tick(ClockTime { clock, ticks: 3 });
    expect_frame_soon(Frame::zero(), &mut sound);
    sound.on_start_processing();
    assert_eq!(sound.state, PlaybackState::Stopped);
}

/// Tests that a `StaticSound` will wait for its start clock time when
/// appropriate.
#[test]
fn waits_for_start_time() {
    let clock_id_1 = clock_id(0);
    let clock_id_2 = clock_id(1);

    let frames: Vec<Frame> = (1..100).map(mono).collect();
    let data = StaticSoundData {
        sample_rate: 1,
        frames: Arc::new(frames),
        settings: StaticSoundSettings::new().start_time(StartTime::ClockTime(ClockTime {
            clock: clock_id_1,
            ticks: 2,
        })),
    };
    let (mut sound, _) = data.split();

    // the sound should not be playing yet
    for _ in 0..3 {
        assert_eq!(sound.process(fx(1)), mono(0));
    }

    // the sound is set to start at tick 2, so it should not play yet
    sound.on_clock_tick(ClockTime { clock: clock_id_1, ticks: 1 });

    for _ in 0..3 {
        assert_eq!(sound.process(fx(1)), mono(0));
    }

    // this is a tick event for a different clock, so the sound should not
    // play yet
    sound.on_clock_tick(ClockTime { clock: clock_id_2, ticks: 2 });

    for _ in 0..3 {
        assert_eq!(sound.process(fx(1)), mono(0));
    }

    // the sound should start playing now
    sound.on_clock_tick(ClockTime { clock: clock_id_1, ticks: 2 });

    for i in 1..10 {
        assert_eq!(sound.process(fx(1)), mono(i).panned(center()));
    }
}

/// Tests that a `StaticSound` can be paused and resumed immediately even if
/// playback is waiting for a clock time to start.
#[test]
fn immediate_pause_and_resume_with_clock_start_time() {
    let clock_id_1 = clock_id(0);

    let frames: Vec<Frame> = (1..100).map(mono).collect();
    let data = StaticSoundData {
        sample_rate: 1,
        frames: Arc::new(frames),
        settings: StaticSoundSettings::new().start_time(StartTime::ClockTime(ClockTime {
            clock: clock_id_1,
            ticks: 2,
        })),
    };
    let (mut sound, _) = data.split();

    sound.pause(Tween { duration: fx(0), ..Default::default() });
    sound.process(fx(1));
    assert!(sound.state == PlaybackState::Paused);
    sound.resume(Tween { duration: fx(0), ..Default::default() });
    sound.process(fx(1));
    assert!(sound.state == PlaybackState::Playing);
}

/// Tests that a `StaticSound` can be stopped immediately even if playback is
/// waiting for a clock time to start.
#[test]
fn immediate_stop_with_clock_start_time() {
    let clock_id_1 = clock_id(0);

    let frames: Vec<Frame> = (1..100).map(mono).collect();
    let data = StaticSoundData {
        sample_rate: 1,
        frames: Arc::new(frames),
        settings: StaticSoundSettings::new().start_time(StartTime::ClockTime(ClockTime {
            clock: clock_id_1,
            ticks: 2,
        })),
    };
    let (mut sound, _) = data.split();

    sound.stop(Tween { duration: fx(0), ..Default::default() });
    sound.process(fx(1));
    assert!(sound.state == PlaybackState::Stopped);
}

/// Tests that a `StaticSound` can be started partway through the sound.
#[test]
fn start_position() {
    let frames: Vec<Frame> = (0..10).map(mono).collect();
    let data = StaticSoundData {
        sample_rate: 1,
        frames: Arc::new(frames),
        settings: StaticSoundSettings::new().start_position(fx(3)),
    };
    let (mut sound, _) = data.split();

    assert_eq!(sound.position(), fx(3));
    assert_eq!(sound.process(fx(1)), mono(3).panned(center()));
}

/// Tests that a `StaticSound` can be played backwards.
#[test]
fn reverse() {
    let frames: Vec<Frame> = (0..10).map(mono).collect();
    let data = StaticSoundData {
        sample_rate: 1,
        frames: Arc::new(frames),
        settings: StaticSoundSettings::new().reverse(true).start_position(fx(2)),
    };
    let (mut sound, _) = data.split();

    // start position should be from the end and decrease over time
    for i in (0..=7).rev() {
        assert_eq!(sound.process(fx(1)), mono(i).panned(center()));
    }
}

/// Tests that a `StaticSound` properly obeys looping behavior when playing
/// forward.
#[test]
fn loops_forward() {
    let frames: Vec<Frame> = (0..10).map(mono).collect();
    let data = StaticSoundData {
        sample_rate: 1,
        frames: Arc::new(frames),
        settings: StaticSoundSettings::new().loop_behavior(LoopBehavior {
            start_position: fx(3),
        }),
    };
    let (mut sound, _) = data.split();

    for i in 0..10 {
        assert_eq!(sound.process(fx(1)), mono(i).panned(center()));
    }

    assert_eq!(sound.process(fx(3)), mono(3).panned(center()));
    assert_eq!(sound.process(fx(3)), mono(6).panned(center()));
    assert_eq!(sound.process(fx(3)), mono(9).panned(center()));
    assert_eq!(sound.process(fx(3)), mono(5).panned(center()));
}

/// Tests that a `StaticSound` properly obeys looping behavior when playing
/// backward.
#[test]
fn loops_backward() {
    let frames: Vec<Frame> = (0..10).map(mono).collect();
    let data = StaticSoundData {
        sample_rate: 1,
        frames: Arc::new(frames),
        settings: StaticSoundSettings::new()
            .loop_behavior(LoopBehavior { start_position: fx(3) })
            .reverse(true),
    };
    let (mut sound, _) = data.split();

    for i in (3..10).rev() {
        assert_eq!(sound.process(fx(1)), mono(i).panned(center()));
    }

    assert_eq!(sound.process(fx(4)), mono(9).panned(center()));
    assert_eq!(sound.process(fx(4)), mono(5).panned(center()));
    assert_eq!(sound.process(fx(4)), mono(8).panned(center()));
}

/// Tests that the volume of a `StaticSound` can be adjusted.
#[test]
fn volume() {
    let data = StaticSoundData {
        sample_rate: 1,
        frames: Arc::new(vec![mono(1); 10]),
        settings: StaticSoundSettings::new().volume(Volume::Amplitude(fxr(1, 2))),
    };
    let (mut sound, _) = data.split();

    assert_eq!(sound.process(fx(1)), Frame::from_mono(fxr(1, 2)).panned(center()));
}

/// Tests that the volume of a `StaticSound` can be changed after the sound
/// is started.
#[test]
fn set_volume() {
    let data = StaticSoundData {
        sample_rate: 1,
        frames: Arc::new(vec![mono(1); 10]),
        settings: StaticSoundSettings::new(),
    };
    let (mut sound, mut handle) = data.split();

    assert_eq!(sound.process(fx(1)), mono(1).panned(center()));
    handle
        .set_volume(
            Volume::Amplitude(fxr(1, 2)),
            Tween { duration: fx(0), ..Default::default() },
        )
        .unwrap();
    sound.on_start_processing();
    expect_frame_soon(Frame::from_mono(fxr(1, 2)).panned(center()), &mut sound);
}

/// Tests that the volume of a `StaticSound` can be changed on a clock tick.
#[test]
fn set_volume_on_clock_tick() {
    let clock = clock_id(0);
    let data = StaticSoundData {
        sample_rate: 1,
        frames: Arc::new(vec![mono(1); 100]),
        settings: StaticSoundSettings::new(),
    };
    let (mut sound, mut handle) = data.split();

    handle
        .set_volume(
            Volume::Amplitude(fxr(1, 2)),
            Tween {
                duration: fx(0),
                start_time: StartTime::ClockTime(ClockTime { clock, ticks: 1 }),
                ..Default::default()
            },
        )
        .unwrap();
    sound.on_start_processing();
    for _ in 0..10 {
        assert_eq!(sound.process(fx(1)), mono(1).panned(center()));
    }
    sound.on_clock_tick(ClockTime { clock, ticks: 1 });
    expect_frame_soon(Frame::from_mono(fxr(1, 2)).panned(center()), &mut sound);
}

/// Tests that the panning of a `StaticSound` can be adjusted.
#[test]
fn panning() {
    let data = StaticSoundData {
        sample_rate: 1,
        frames: Arc::new(vec![mono(1); 10]),
        settings: StaticSoundSettings::new().panning(fx(0)),
    };
    let (mut sound, _) = data.split();

    assert_eq!(sound.process(fx(1)), mono(1).panned(fx(0)));
}

/// Tests that the panning of a `StaticSound` can be changed after the sound
/// is started.
#[test]
fn set_panning() {
    let data = StaticSoundData {
        sample_rate: 1,
        frames: Arc::new(vec![mono(1); 10]),
        settings: StaticSoundSettings::new(),
    };
    let (mut sound, mut handle) = data.split();

    assert_eq!(sound.process(fx(1)), mono(1).panned(center()));
    handle
        .set_panning(fx(0), Tween { duration: fx(0), ..Default::default() })
        .unwrap();
    sound.on_start_processing();
    expect_frame_soon(mono(1).panned(fx(0)), &mut sound);
}

/// Tests that the panning of a `StaticSound` can be changed on a clock tick.
#[test]
fn set_panning_on_clock_tick() {
    let clock = clock_id(0);
    let data = StaticSoundData {
        sample_rate: 1,
        frames: Arc::new(vec![mono(1); 100]),
        settings: StaticSoundSettings::new(),
    };
    let (mut sound, mut handle) = data.split();

    handle
        .set_panning(
            fx(0),
            Tween {
                duration: fx(0),
                start_time: StartTime::ClockTime(ClockTime { clock, ticks: 1 }),
                ..Default::default()
            },
        )
        .unwrap();
    sound.on_start_processing();
    for _ in 0..10 {
        assert_eq!(sound.process(fx(1)), mono(1).panned(center()));
    }
    sound.on_clock_tick(ClockTime { clock, ticks: 1 });
    expect_frame_soon(mono(1).panned(fx(0)), &mut sound);
}

/// Tests that the playback rate of a `StaticSound` can be adjusted.
#[test]
fn playback_rate() {
    let frames: Vec<Frame> = (0..10).map(mono).collect();
    let data = StaticSoundData {
        sample_rate: 1,
        frames: Arc::new(frames),
        settings: StaticSoundSettings::new().playback_rate(fx(2)),
    };
    let (mut sound, _) = data.split();

    assert_eq!(sound.process(fx(1)), mono(0).panned(center()));
    assert_eq!(sound.process(fx(1)), mono(2).panned(center()));
}

/// Tests that the playback rate of a `StaticSound` can be adjusted after
/// it's started.
#[test]
fn set_playback_rate() {
    let frames: Vec<Frame> = (0..100).map(mono).collect();
    let data = StaticSoundData {
        sample_rate: 1,
        frames: Arc::new(frames),
        settings: StaticSoundSettings::new(),
    };
    let (mut sound, mut handle) = data.split();

    assert_eq!(sound.process(fx(1)), mono(0).panned(center()));
    assert_eq!(sound.process(fx(1)), mono(1).panned(center()));

    handle
        .set_playback_rate(fx(2), Tween { duration: fx(0), ..Default::default() })
        .unwrap();
    sound.on_start_processing();

    assert_eq!(sound.process(fx(1)), mono(2).panned(center()));
    assert_eq!(sound.process(fx(1)), mono(4).panned(center()));
}

/// Tests that the playback rate of a `StaticSound` can be adjusted on a
/// clock tick.
#[test]
fn set_playback_rate_on_clock_tick() {
    let clock = clock_id(0);
    let frames: Vec<Frame> = (0..100).map(mono).collect();
    let data = StaticSoundData {
        sample_rate: 1,
        frames: Arc::new(frames),
        settings: StaticSoundSettings::new(),
    };
    let (mut sound, mut handle) = data.split();

    handle
        .set_playback_rate(
            fx(2),
            Tween {
                duration: fx(0),
                start_time: StartTime::ClockTime(ClockTime { clock, ticks: 1 }),
                ..Default::default()
            },
        )
        .unwrap();
    sound.on_start_processing();

    assert_eq!(sound.process(fx(1)), mono(0).panned(center()));
    assert_eq!(sound.process(fx(1)), mono(1).panned(center()));
    sound.on_clock_tick(ClockTime { clock, ticks: 1 });
    assert_eq!(sound.process(fx(1)), mono(2).panned(center()));
    assert_eq!(sound.process(fx(1)), mono(4).panned(center()));
}

/// Tests that a `StaticSound` outputs interpolated samples when its playback
/// position is between samples.
#[test]
fn interpolates_samples() {
    let data = StaticSoundData {
        sample_rate: 1,
        frames: Arc::new(vec![
            mono(0),
            mono(1),
            mono(1),
            mono(1),
            mono(1),
            mono(1),
            mono(-10),
        ]),
        settings: Default::default(),
    };
    let (mut sound, _) = data.split();

    assert_eq!(sound.process(fxr(1, 2)), mono(0).panned(center()));
    // at sample 0.5, the output should be somewhere between 0 and 1 (panned
    // center). the exact value is up to the interpolation algorithm.
    let frame = sound.process(fx(5));
    assert!(frame.left.raw > 0 && frame.left.raw < mono(1).panned(center()).left.raw);
    // at sample 5.5, the output should be between -10 and 1 (panned center).
    let frame = sound.process(fx(1));
    assert!(frame.left.raw < 0 && frame.left.raw > mono(-10).panned(center()).left.raw);
}

/// Tests that a `StaticSound` outputs interpolated samples correctly when
/// looping.
#[test]
fn interpolates_samples_when_looping() {
    let data = StaticSoundData {
        sample_rate: 1,
        frames: Arc::new(vec![mono(10), mono(9)]),
        settings: StaticSoundSettings::new().loop_behavior(LoopBehavior {
            start_position: fx(0),
        }),
    };
    let (mut sound, _) = data.split();
    sound.process(fxr(3, 2));
    // because we're looping back to the first sample, which is 10.0, the
    // interpolated sample should be between 9.0 and 10.0 (panned center)
    let frame = sound.process(fx(1));
    assert!(frame.left.raw > mono(9).panned(center()).left.raw);
    assert!(frame.left.raw < mono(10).panned(center()).left.raw);
}

/// Tests that a `StaticSound` can seek to a position.
#[test]
fn seek_to() {
    let frames: Vec<Frame> = (0..100).map(mono).collect();
    let data = StaticSoundData {
        sample_rate: 1,
        frames: Arc::new(frames),
        settings: StaticSoundSettings::new(),
    };
    let (mut sound, mut handle) = data.split();
    handle.seek_to(fx(15)).unwrap();
    sound.on_start_processing();
    // the logical position moves with the seek as soon as it is drained
    assert_eq!(sound.position(), fx(15));
    expect_frame_soon(mono(15).panned(center()), &mut sound);
}

/// Tests that a `StaticSound` can seek to a position past the end of the
/// sound when it's looping. The resulting position should be what it would
/// be (seek_point - duration) samples after playback reached the end of the
/// sound if it was playing normally.
#[test]
fn seek_to_while_looping() {
    let frames: Vec<Frame> = (0..100).map(mono).collect();
    let data = StaticSoundData {
        sample_rate: 1,
        frames: Arc::new(frames),
        settings: StaticSoundSettings::new().loop_behavior(LoopBehavior {
            start_position: fx(5),
        }),
    };
    let (mut sound, mut handle) = data.split();
    handle.seek_to(fx(120)).unwrap();
    sound.on_start_processing();
    assert_eq!(sound.position(), fx(25));
    expect_frame_soon(mono(25).panned(center()), &mut sound);
}

/// Tests that a `StaticSound` can seek by an amount of time.
#[test]
fn seek_by() {
    let frames: Vec<Frame> = (0..100).map(mono).collect();
    let data = StaticSoundData {
        sample_rate: 1,
        frames: Arc::new(frames),
        settings: StaticSoundSettings::new().start_position(fx(10)),
    };
    let (mut sound, mut handle) = data.split();
    handle.seek_by(fx(5)).unwrap();
    sound.on_start_processing();
    // we wouldn't actually expect the position to be 15.0 seconds right at
    // this moment - the sound ran ahead a few samples to fill the resample
    // buffer. so let's just say it should reach 20.0 soon.
    expect_frame_soon(mono(20).panned(center()), &mut sound);
}

/// Tests that a stopped sound stays stopped: once `finished` is true, no
/// command or further processing clears it.
#[test]
fn finished_is_sticky() {
    let data = StaticSoundData {
        sample_rate: 1,
        frames: Arc::new(vec![mono(1); 10]),
        settings: StaticSoundSettings::new(),
    };
    let (mut sound, mut handle) = data.split();
    sound.stop(Tween { duration: fx(0), ..Default::default() });
    sound.process(fx(1));
    assert!(sound.finished());
    handle.resume(Tween::default()).unwrap();
    sound.on_start_processing();
    sound.on_clock_tick(ClockTime { clock: clock_id(0), ticks: 5 });
    for _ in 0..5 {
        sound.process(fx(1));
        assert!(sound.finished());
        assert_eq!(sound.state, PlaybackState::Stopped);
    }
}

/// Tests that seeking to exactly the duration of a looping sound wraps to
/// the loop's start position.
#[test]
fn seek_to_exact_duration_wraps_to_loop_start() {
    let frames: Vec<Frame> = (0..10).map(mono).collect();
    let data = StaticSoundData {
        sample_rate: 1,
        frames: Arc::new(frames),
        settings: StaticSoundSettings::new().loop_behavior(LoopBehavior {
            start_position: fx(3),
        }),
    };
    let (mut sound, mut handle) = data.split();
    handle.seek_to(fx(10)).unwrap();
    sound.on_start_processing();
    // seeking to exactly the duration wraps position and playback to the
    // loop start
    assert_eq!(sound.position(), fx(3));
    expect_frame_soon(mono(3).panned(center()), &mut sound);
}

/// Tests that a start position past the duration is clamped for a
/// non-looping sound: the sound ends without playing anything.
#[test]
fn start_position_past_end_clamps() {
    let frames: Vec<Frame> = (0..10).map(mono).collect();
    let data = StaticSoundData {
        sample_rate: 1,
        frames: Arc::new(frames),
        settings: StaticSoundSettings::new().start_position(fx(25)),
    };
    let (mut sound, _) = data.split();
    // the sound is born at its clamped position: the duration
    assert_eq!(sound.position(), fx(10));
    for _ in 0..5 {
        assert_eq!(sound.process(fx(1)), Frame::zero());
    }
    assert!(sound.finished());
}

/// Tests that a start position past the duration wraps into the loop region
/// for a looping sound.
#[test]
fn start_position_past_end_wraps_when_looping() {
    let frames: Vec<Frame> = (0..10).map(mono).collect();
    let data = StaticSoundData {
        sample_rate: 1,
        frames: Arc::new(frames),
        settings: StaticSoundSettings::new()
            .start_position(fx(12))
            .loop_behavior(LoopBehavior { start_position: fx(5) }),
    };
    let (mut sound, _) = data.split();
    // 12 is 2 past the duration; 2 past the loop start of 5 is 7
    assert_eq!(sound.position(), fx(7));
    assert_eq!(sound.process(fx(1)), mono(7).panned(center()));
    assert_eq!(sound.process(fx(1)), mono(8).panned(center()));
}
