//! A piece of audio loaded into memory, with its playback settings.

use vstd::prelude::*;

use std::sync::Arc;

use crate::fixed::{
    div_trunc,
    fint_part,
    fmul_raw,
    lemma_fmul_raw_nonneg,
    sat64,
    sat_to_i64,
    Fixed,
    FIXED_SCALE,
};
use crate::frame::{interpolate_frame, interpolate_frame_spec, Frame};
use crate::sound::samples::Samples;
use crate::track::TrackId;
use crate::tween::StartTime;
use crate::volume::Volume;

verus! {

/// Looping behavior of a sound: when playback runs past the end, it wraps to
/// `start_position` seconds.
#[derive(Clone, Copy, Debug, PartialEq, Eq, Structural)]
pub struct LoopBehavior {
    /// Where playback continues after wrapping, in seconds.
    pub start_position: Fixed,
}

/// Playback settings of a static sound.
#[derive(Clone, Copy, Debug)]
pub struct StaticSoundSettings {
    /// When the sound starts playing.
    pub start_time: StartTime,
    /// Where playback begins, in seconds.
    pub start_position: Fixed,
    /// Whether the sound plays backwards.
    pub reverse: bool,
    /// The sound's volume.
    pub volume: Volume,
    /// The playback rate as a factor of normal speed.
    pub playback_rate: Fixed,
    /// The stereo panning, 0 (hard left) to 1 (hard right).
    pub panning: Fixed,
    /// Looping behavior, if any.
    pub loop_behavior: Option<LoopBehavior>,
    /// The mixer track the sound plays on.
    pub track: TrackId,
}

impl StaticSoundSettings {
    /// The default settings: start immediately at the beginning, forward, at
    /// full volume and center panning, without looping, on the main track.
    pub fn new() -> (r: StaticSoundSettings)
        ensures
            r.start_time is Immediate,
            r.start_position.raw == 0,
            !r.reverse,
            r.volume == Volume::Amplitude(Fixed { raw: FIXED_SCALE }),
            r.playback_rate.raw == FIXED_SCALE,
            r.panning.raw == FIXED_SCALE / 2,
            r.loop_behavior is None,
            r.track is Main,
    {
        StaticSoundSettings {
            start_time: StartTime::Immediate,
            start_position: Fixed { raw: 0 },
            reverse: false,
            volume: Volume::Amplitude(Fixed { raw: FIXED_SCALE }),
            playback_rate: Fixed { raw: FIXED_SCALE },
            panning: Fixed { raw: FIXED_SCALE / 2 },
            loop_behavior: None,
            track: TrackId::Main,
        }
    }

    /// The same settings with a different start time.
    pub fn start_time(self, start_time: StartTime) -> (r: StaticSoundSettings)
        ensures
            r == (StaticSoundSettings { start_time, ..self }),
    {
        StaticSoundSettings { start_time, ..self }
    }

    /// The same settings with a different start position.
    pub fn start_position(self, start_position: Fixed) -> (r: StaticSoundSettings)
        ensures
            r == (StaticSoundSettings { start_position, ..self }),
    {
        StaticSoundSettings { start_position, ..self }
    }

    /// The same settings with reverse playback switched on or off.
    pub fn reverse(self, reverse: bool) -> (r: StaticSoundSettings)
        ensures
            r == (StaticSoundSettings { reverse, ..self }),
    {
        StaticSoundSettings { reverse, ..self }
    }

    /// The same settings with a different volume.
    pub fn volume(self, volume: Volume) -> (r: StaticSoundSettings)
        ensures
            r == (StaticSoundSettings { volume, ..self }),
    {
        StaticSoundSettings { volume, ..self }
    }

    /// The same settings with a different playback rate.
    pub fn playback_rate(self, playback_rate: Fixed) -> (r: StaticSoundSettings)
        ensures
            r == (StaticSoundSettings { playback_rate, ..self }),
    {
        StaticSoundSettings { playback_rate, ..self }
    }

    /// The same settings with a different panning.
    pub fn panning(self, panning: Fixed) -> (r: StaticSoundSettings)
        ensures
            r == (StaticSoundSettings { panning, ..self }),
    {
        StaticSoundSettings { panning, ..self }
    }

    /// The same settings with a different looping behavior.
    pub fn loop_behavior(self, lb: LoopBehavior) -> (r: StaticSoundSettings)
        ensures
            r == (StaticSoundSettings { loop_behavior: Some(lb), ..self }),
    {
        StaticSoundSettings { loop_behavior: Some(lb), ..self }
    }

    /// The same settings with a different target track.
    pub fn track(self, track: TrackId) -> (r: StaticSoundSettings)
        ensures
            r == (StaticSoundSettings { track, ..self }),
    {
        StaticSoundSettings { track, ..self }
    }
}

impl Default for StaticSoundSettings {
    /// The same settings as [`StaticSoundSettings::new`].
    fn default() -> (r: StaticSoundSettings)
        ensures
            r.start_time is Immediate,
            r.start_position.raw == 0,
            !r.reverse,
            r.volume == Volume::Amplitude(Fixed { raw: FIXED_SCALE }),
            r.playback_rate.raw == FIXED_SCALE,
            r.panning.raw == FIXED_SCALE / 2,
            r.loop_behavior is None,
            r.track is Main,
    {
        StaticSoundSettings::new()
    }
}

/// A piece of audio loaded into memory all at once. Clones share the
/// underlying frames.
#[derive(Clone)]
pub struct StaticSoundData {
    /// The sample rate of the audio in Hz; positive.
    pub sample_rate: u32,
    /// The stereo frames that make up the audio, shared immutably.
    pub frames: Arc<Vec<Frame>>,
    /// Settings for the sound.
    pub settings: StaticSoundSettings,
}

/// The frame a sound data holds at a sample index; silence outside the
/// sample range.
pub open spec fn data_frame_at(d: &StaticSoundData, i: int) -> Frame {
    if 0 <= i < d.frames@.len() {
        d.frames@[i]
    } else {
        Frame { left: Fixed { raw: 0 }, right: Fixed { raw: 0 } }
    }
}

impl StaticSoundData {
    /// Audio data from raw sample storage in any shape.
    pub fn from_samples(sample_rate: u32, samples: Samples, settings: StaticSoundSettings) -> (r:
        StaticSoundData)
        requires
            sample_rate >= 1,
        ensures
            r.sample_rate == sample_rate,
            r.settings == settings,
            r.frames@.len() == crate::sound::samples::samples_len(&samples),
            forall|i: int|
                0 <= i < r.frames@.len() ==> #[trigger] r.frames@[i]
                    == crate::sound::samples::sample_frame_at(&samples, i),
    {
        StaticSoundData { sample_rate, frames: Arc::new(samples.into_frames()), settings }
    }

    /// The duration of the audio in seconds: the frame count over the sample
    /// rate.
    pub fn duration(&self) -> (r: Fixed)
        requires
            self.sample_rate >= 1,
            self.frames@.len() <= i64::MAX,
        ensures
            r.raw == sat64(
                div_trunc(self.frames@.len() * (FIXED_SCALE as int), self.sample_rate as int),
            ),
    {
        Fixed::from_ratio(self.frames.len() as i64, self.sample_rate as i64)
    }

    /// The frame at a sample index; silence outside the sample range.
    pub fn frame_at_index(&self, index: i64) -> (r: Frame)
        ensures
            r == data_frame_at(self, index as int),
    {
        if 0 <= index && (index as u64) < (self.frames.len() as u64) {
            self.frames[index as usize]
        } else {
            Frame::zero()
        }
    }

    /// The interpolated frame at an arbitrary non-negative time in seconds:
    /// the cubic reconstruction around the sample the time falls on.
    pub fn frame_at_position(&self, position: Fixed) -> (r: Frame)
        requires
            position.raw >= 0,
            self.sample_rate >= 1,
            self.frames@.len() < i64::MAX - 2,
        ensures
            ({
                let sp = fmul_raw(position.raw as int, sat64(self.sample_rate as int * FIXED_SCALE));
                let idx = fint_part(sp);
                let frac = sp - idx * FIXED_SCALE;
                r == interpolate_frame_spec(
                    data_frame_at(self, idx - 1),
                    data_frame_at(self, idx),
                    data_frame_at(self, idx + 1),
                    data_frame_at(self, idx + 2),
                    frac,
                )
            }),
    {
        let rate_fx = Fixed { raw: sat_to_i64((self.sample_rate as i128) * (FIXED_SCALE as i128)) };
        proof {
            lemma_fmul_raw_nonneg(position.raw as int, rate_fx.raw as int);
        }
        let sp = position.fmul(rate_fx);
        let idx: i64 = sp.int_part();
        let frac = Fixed { raw: sp.raw - idx * FIXED_SCALE };
        let a = self.frame_at_index(if idx > 0 {
            idx - 1
        } else {
            -1
        });
        let b = self.frame_at_index(idx);
        let c = self.frame_at_index(if idx < i64::MAX - 1 {
            idx + 1
        } else {
            idx
        });
        let d = self.frame_at_index(if idx < i64::MAX - 2 {
            idx + 2
        } else {
            idx
        });
        interpolate_frame(a, b, c, d, frac)
    }
}

} // verus!
