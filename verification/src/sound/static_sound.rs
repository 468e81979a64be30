//! The static sound playback state machine.
//!
//! A [`StaticSound`] plays a [`StaticSoundData`] frame by frame: it feeds
//! source frames - scaled by the fade, volume and panning parameters - into
//! a 4-frame resampling window, advances a fractional cursor at the playback
//! rate, and interpolates the window for each output frame. Pause, resume
//! and stop drive a decibel fade; when the fade completes the sound settles
//! in the paused or stopped state. A sound scheduled for a clock time plays
//! silence, with its window primed, until the tick arrives.

use vstd::prelude::*;

use ringbuf::{Consumer, Producer};

use crate::channel::{command_channel, pop_command, producer_capacity, push_command};
use crate::command::Command;
use crate::error::CommandQueueFull;
use crate::fixed::{div_trunc, fint_part, fmul_raw, sat64, sat_to_i64, Fixed, FIXED_SCALE};
use crate::frame::{frame_panned_spec, frame_scaled_spec, Frame};
use crate::sound::data::{data_frame_at, StaticSoundData};
use crate::sound::resampler::{resampler_out, resampler_pushed, RecentFrame, Resampler};
use crate::tween::{ClockTime, StartTime, Tween};
use crate::tweener::{
    tick_releases,
    tweener_after_set,
    tweener_after_tick,
    tweener_after_update,
    tweener_update_finishes,
    tweener_wf,
    Tweener,
};
use crate::volume::{db_to_amp_raw, volume_amp_raw, Volume, MIN_DECIBELS_RAW};

verus! {

/// Largest frame count a sound accepts; keeps every cursor computation far
/// from the integer limits.
pub const MAX_SOUND_FRAMES: u64 = 0x1000_0000_0000_0000;

/// Where a sound is in its lifecycle.
#[derive(Clone, Copy, Debug, PartialEq, Eq, Structural)]
pub enum PlaybackState {
    /// The sound is playing.
    Playing,
    /// The sound is fading out toward a pause.
    Pausing,
    /// The sound is paused; its position holds still.
    Paused,
    /// The sound is fading out toward a stop.
    Stopping,
    /// The sound has stopped for good.
    Stopped,
}

/// Keeps a sound silent until its scheduled start.
#[derive(Clone, Copy, Debug, PartialEq, Eq, Structural)]
pub enum StartGate {
    /// The sound plays.
    Ready,
    /// The sound waits out a countdown of seconds.
    Delayed(Fixed),
    /// The sound waits for a clock tick.
    Clock(ClockTime),
}

/// A static sound being played on the audio side.
pub struct StaticSound {
    /// The audio data and the settings it was started with.
    pub data: StaticSoundData,
    /// Where the sound is in its lifecycle.
    pub state: PlaybackState,
    /// The start gate; while not ready, the sound outputs silence.
    pub gate: StartGate,
    /// Whether playback runs backwards through the frames.
    pub reverse: bool,
    /// Whether playback wraps at the end.
    pub loop_enabled: bool,
    /// The frame index playback wraps to; meaningful while looping.
    pub loop_start_index: i64,
    /// The next source frame index to feed into the window.
    pub cursor: i64,
    /// The fractional position within the current frame, in [0, 1).
    pub frac: Fixed,
    /// How many frames in a row the window was fed silence because the
    /// cursor ran out of range; at four, the window has fully cycled past
    /// the data and the sound stops.
    pub drained: u8,
    /// The resampling window.
    pub window: Resampler,
    /// The animated volume parameter.
    pub volume: Tweener<Volume>,
    /// The animated playback rate parameter.
    pub playback_rate: Tweener<Fixed>,
    /// The animated panning parameter.
    pub panning: Tweener<Fixed>,
    /// The pause/resume/stop fade, in decibels.
    pub volume_fade: Tweener<Fixed>,
    /// The logical playback position in seconds: what handles observe. It
    /// follows the frame at the window's interpolation center while playback
    /// advances; seeks and clamped start positions set it directly.
    pub position: Fixed,
    /// The logical position last published to the control side, in seconds.
    pub published_position: Fixed,
    /// The queue of commands from the sound's handle.
    pub commands: Consumer<Command>,
}

/// The control side of a static sound: pushes commands to the playing sound.
pub struct StaticSoundHandle {
    /// The producing end of the sound's command queue.
    pub command_producer: Producer<Command>,
}

/// The frame count of a sound's data.
pub open spec fn sound_len(s: &StaticSound) -> int {
    s.data.frames@.len() as int
}

/// Basic well-formedness of a sound: a positive sample rate, a bounded frame
/// count, a cursor near the frame range, a fractional position in [0, 1),
/// well-formed tweeners, and a loop start strictly inside the frame range
/// whenever looping is on.
pub open spec fn sound_wf(s: &StaticSound) -> bool {
    &&& s.data.sample_rate >= 1
    &&& s.data.frames@.len() < MAX_SOUND_FRAMES
    &&& -1 <= s.cursor <= sound_len(s)
    &&& 0 <= s.frac.raw < FIXED_SCALE
    &&& 0 <= s.position.raw <= sound_duration_raw(s)
    &&& tweener_wf(s.volume)
    &&& tweener_wf(s.playback_rate)
    &&& tweener_wf(s.panning)
    &&& tweener_wf(s.volume_fade)
    &&& s.loop_enabled ==> 0 <= s.loop_start_index < sound_len(s)
}

/// Whether the playback cursor advances in this state: it does while the
/// sound plays or fades toward a pause or stop.
pub open spec fn state_advances(st: PlaybackState) -> bool {
    st is Playing || st is Pausing || st is Stopping
}

/// The frame a sound feeds into its window at a sample index: the source
/// frame scaled by the fade amplitude and the volume amplitude, then panned.
pub open spec fn pushed_frame(s: &StaticSound, idx: int) -> Frame {
    frame_panned_spec(
        frame_scaled_spec(
            frame_scaled_spec(data_frame_at(&s.data, idx), db_to_amp_raw(s.volume_fade.value.raw as int)),
            volume_amp_raw(s.volume.value),
        ),
        s.panning.value.raw as int,
    )
}

/// The cursor after one step: one frame forward or backward, wrapping over
/// the loop region when looping is on.
pub open spec fn next_cursor(s: &StaticSound) -> int {
    if s.reverse {
        let nc = s.cursor - 1;
        if s.loop_enabled && nc < s.loop_start_index {
            nc + (sound_len(s) - s.loop_start_index)
        } else {
            nc
        }
    } else {
        let nc = s.cursor + 1;
        if s.loop_enabled && nc >= sound_len(s) {
            nc - (sound_len(s) - s.loop_start_index)
        } else {
            nc
        }
    }
}

/// The sound after feeding one frame into its window. While the state
/// advances and the cursor is in range, the scaled source frame goes in and
/// the cursor steps; otherwise silence goes in under the newest index, and a
/// sound that ran off its data stops once the window has fully cycled past
/// it.
pub open spec fn sound_pushed_once(s: StaticSound) -> StaticSound {
    if state_advances(s.state) && 0 <= s.cursor < sound_len(&s) {
        StaticSound {
            window: resampler_pushed(
                s.window,
                RecentFrame { frame: pushed_frame(&s, s.cursor as int), index: s.cursor },
            ),
            cursor: next_cursor(&s) as i64,
            position: advanced_position(&s),
            drained: 0,
            ..s
        }
    } else {
        let window2 = resampler_pushed(
            s.window,
            RecentFrame {
                frame: Frame { left: Fixed { raw: 0 }, right: Fixed { raw: 0 } },
                index: s.window.f3.index,
            },
        );
        let drained2 = if s.drained < 4 {
            (s.drained + 1) as u8
        } else {
            s.drained
        };
        StaticSound {
            state: if state_advances(s.state) && drained2 >= 4 {
                PlaybackState::Stopped
            } else {
                s.state
            },
            window: window2,
            position: if state_advances(s.state) {
                advanced_position(&s)
            } else {
                s.position
            },
            drained: if state_advances(s.state) {
                drained2
            } else {
                s.drained
            },
            ..s
        }
    }
}

/// The sound after draining its fractional position: one push per whole
/// frame of accumulated position.
pub open spec fn sound_drained(s: StaticSound) -> StaticSound
    decreases s.frac.raw,
        when s.frac.raw >= 0
{
    if s.frac.raw >= FIXED_SCALE {
        sound_drained(sound_pushed_once(StaticSound { frac: Fixed { raw: (s.frac.raw - FIXED_SCALE) as i64 }, ..s }))
    } else {
        s
    }
}

/// How far the fractional position advances in one frame of `dt` seconds:
/// `|playback rate| * sample rate * dt`.
pub open spec fn rate_step_raw(s: &StaticSound, dt: int) -> int {
    let pr = sat64(
        if s.playback_rate.value.raw < 0 {
            -(s.playback_rate.value.raw as int)
        } else {
            s.playback_rate.value.raw as int
        },
    );
    fmul_raw(fmul_raw(pr, sat64(s.data.sample_rate * (FIXED_SCALE as int))), dt)
}

/// The sound after its per-frame parameter updates: the fade advances (and a
/// completed fade settles a pausing sound into paused, a stopping one into
/// stopped), and the volume, playback rate and panning tweens advance.
pub open spec fn sound_after_tweens(s: StaticSound, dt: int) -> StaticSound {
    let fade_done = tweener_update_finishes(s.volume_fade, dt);
    let state2 = if fade_done {
        match s.state {
            PlaybackState::Pausing => PlaybackState::Paused,
            PlaybackState::Stopping => PlaybackState::Stopped,
            other => other,
        }
    } else {
        s.state
    };
    StaticSound {
        volume_fade: tweener_after_update(s.volume_fade, dt),
        state: state2,
        volume: tweener_after_update(s.volume, dt),
        playback_rate: tweener_after_update(s.playback_rate, dt),
        panning: tweener_after_update(s.panning, dt),
        ..s
    }
}

/// The sound after one audio frame of `dt` seconds: parameters update;
/// then, unless the start is still pending, the fractional position
/// advances by the rate step and whole frames drain into the window. A
/// stopped sound never becomes ready to start.
pub open spec fn sound_after_process(s: StaticSound, dt: int) -> StaticSound {
    let s1 = sound_after_tweens(s, dt);
    match s1.gate {
        StartGate::Clock(_) => s1,
        StartGate::Delayed(d) => {
            if s1.state is Stopped {
                s1
            } else if d.raw - dt <= 0 {
                StaticSound { gate: StartGate::Ready, ..s1 }
            } else {
                StaticSound { gate: StartGate::Delayed(Fixed { raw: (d.raw - dt) as i64 }), ..s1 }
            }
        },
        StartGate::Ready => {
            let sum = sat64(s1.frac.raw + rate_step_raw(&s1, dt));
            sound_drained(StaticSound { frac: Fixed { raw: sum as i64 }, ..s1 })
        },
    }
}

/// The frame a sound outputs for one audio frame of `dt` seconds: silence
/// while the start is still pending, the interpolated window otherwise.
pub open spec fn sound_process_out(s: StaticSound, dt: int) -> Frame {
    let s1 = sound_after_tweens(s, dt);
    match s1.gate {
        StartGate::Ready => resampler_out(s1.window, s1.frac.raw as int),
        _ => Frame { left: Fixed { raw: 0 }, right: Fixed { raw: 0 } },
    }
}

/// The sound after a clock tick is observed: the tick reaches all four
/// parameter tweens, and releases a clock gate whose target it reaches -
/// unless the sound has already stopped for good.
pub open spec fn sound_after_tick(s: StaticSound, time: ClockTime) -> StaticSound {
    let gate2 = match s.gate {
        StartGate::Clock(target) => {
            if tick_releases(target, time) && !(s.state is Stopped) {
                StartGate::Ready
            } else {
                s.gate
            }
        },
        _ => s.gate,
    };
    StaticSound {
        gate: gate2,
        volume: tweener_after_tick(s.volume, time),
        playback_rate: tweener_after_tick(s.playback_rate, time),
        panning: tweener_after_tick(s.panning, time),
        volume_fade: tweener_after_tick(s.volume_fade, time),
        ..s
    }
}

/// The sound after a whole sequence of clock ticks is observed, oldest
/// first.
pub open spec fn sound_after_ticks(s: StaticSound, ts: Seq<ClockTime>) -> StaticSound
    decreases ts.len(),
{
    if ts.len() == 0 {
        s
    } else {
        sound_after_ticks(sound_after_tick(s, ts[0]), ts.drop_first())
    }
}

/// Appending one tick to a delivery applies it after the rest.
pub proof fn lemma_sound_after_ticks_snoc(s: StaticSound, ts: Seq<ClockTime>, t: ClockTime)
    ensures
        sound_after_ticks(s, ts.push(t)) == sound_after_tick(sound_after_ticks(s, ts), t),
    decreases ts.len(),
{
    let v = s;
    let pushed = ts.push(t);
    if ts.len() == 0 {
        assert(pushed[0] == t);
        assert(pushed.drop_first() =~= Seq::<ClockTime>::empty());
        assert(sound_after_ticks(v, pushed) == sound_after_ticks(
            sound_after_tick(v, t),
            pushed.drop_first(),
        ));
        assert(sound_after_ticks(sound_after_tick(v, t), pushed.drop_first()) == sound_after_tick(
            v,
            t,
        ));
        assert(sound_after_ticks(v, ts) == v);
    } else {
        assert(pushed[0] == ts[0]);
        assert(pushed.drop_first() =~= ts.drop_first().push(t));
        lemma_sound_after_ticks_snoc(sound_after_tick(v, ts[0]), ts.drop_first(), t);
        assert(sound_after_ticks(v, pushed) == sound_after_ticks(
            sound_after_tick(v, ts[0]),
            ts.drop_first().push(t),
        ));
        assert(sound_after_ticks(v, ts) == sound_after_ticks(
            sound_after_tick(v, ts[0]),
            ts.drop_first(),
        ));
    }
}

/// Whether `post` is `pre` with some received command sequence applied and
/// the logical position published.
pub open spec fn sound_drained_to(pre: StaticSound, post: StaticSound) -> bool {
    exists|cs: Seq<Command>| #[trigger] sound_drain_outcome(pre, cs, post)
}

/// Whether a sound is finished: it has stopped for good. A sound that runs
/// off the end of its data stops only after its window drains to silence,
/// so a finished sound has nothing left to play. Once true this never
/// becomes false again.
pub open spec fn sound_finished(s: &StaticSound) -> bool {
    s.state is Stopped
}

/// The seconds a frame index publishes: the index clamped into the frame
/// range, over the sample rate.
pub open spec fn index_position_raw(s: &StaticSound, idx: int) -> int {
    let len = sound_len(s);
    let c = if idx < 0 {
        0
    } else if idx >= len {
        if len > 0 {
            len - 1
        } else {
            0
        }
    } else {
        idx
    };
    sat64(div_trunc(c * (FIXED_SCALE as int), s.data.sample_rate as int))
}

/// The logical position after one advancing push: the sample index that
/// becomes the window's current frame, published in seconds.
pub open spec fn advanced_position(s: &StaticSound) -> Fixed {
    Fixed { raw: index_position_raw(s, s.window.f2.index as int) as i64 }
}

/// Whether the logical position currently publishes the window's current
/// frame, as it does whenever playback has been advancing.
pub open spec fn position_in_flow(s: &StaticSound) -> bool {
    s.position.raw == index_position_raw(s, s.window.f1.index as int)
}

/// The frame index a time in seconds names, for seeking and start
/// positions: the time scaled by the sample rate, floored, never negative.
pub open spec fn index_of_position(s: &StaticSoundData, pos: int) -> int {
    let idx = fint_part(fmul_raw(pos, sat64(s.sample_rate * (FIXED_SCALE as int))));
    if idx < 0 {
        0
    } else {
        idx
    }
}

/// Where a seek to frame index `idx` actually lands: past the end it wraps
/// over the loop region when looping - landing exactly on the loop start
/// when the overshoot is a whole number of loops - and clamps to the end
/// otherwise.
pub open spec fn seek_target(s: &StaticSound, idx: int) -> int {
    let len = sound_len(s);
    if s.loop_enabled && idx >= len {
        s.loop_start_index + (idx - len) % (len - s.loop_start_index)
    } else if idx > len {
        len
    } else {
        idx
    }
}

/// The logical position a seek lands on, in seconds: the landed frame index
/// over the sample rate; a seek clamped to the end lands on the duration.
pub open spec fn seek_position(s: &StaticSound, idx: int) -> Fixed {
    Fixed {
        raw: sat64(
            div_trunc(seek_target(s, idx) * (FIXED_SCALE as int), s.data.sample_rate as int),
        ) as i64,
    }
}

/// The sound after one control command is applied. Pause, resume and stop
/// move the lifecycle state and schedule the decibel fade; a sound that has
/// stopped for good ignores them. Parameter commands schedule their tweens;
/// seeks move the cursor and the logical position together.
pub open spec fn apply_command(s: StaticSound, c: Command) -> StaticSound {
    match c {
        Command::SetVolume(v, t) => StaticSound { volume: tweener_after_set(s.volume, v, t), ..s },
        Command::SetPanning(p, t) => StaticSound {
            panning: tweener_after_set(s.panning, p, t),
            ..s
        },
        Command::SetPlaybackRate(r, t) => StaticSound {
            playback_rate: tweener_after_set(s.playback_rate, r, t),
            ..s
        },
        Command::Pause(t) => {
            if s.state is Stopped {
                s
            } else {
                StaticSound {
                    state: PlaybackState::Pausing,
                    volume_fade: tweener_after_set(
                        s.volume_fade,
                        Fixed { raw: MIN_DECIBELS_RAW },
                        t,
                    ),
                    ..s
                }
            }
        },
        Command::Resume(t) => {
            if s.state is Stopped {
                s
            } else {
                StaticSound {
                    state: PlaybackState::Playing,
                    volume_fade: tweener_after_set(s.volume_fade, Fixed { raw: 0 }, t),
                    ..s
                }
            }
        },
        Command::Stop(t) => {
            if s.state is Stopped {
                s
            } else {
                StaticSound {
                    state: PlaybackState::Stopping,
                    volume_fade: tweener_after_set(
                        s.volume_fade,
                        Fixed { raw: MIN_DECIBELS_RAW },
                        t,
                    ),
                    ..s
                }
            }
        },
        Command::SeekTo(p) => {
            let idx = index_of_position(&s.data, p.raw as int);
            StaticSound {
                cursor: seek_target(&s, idx) as i64,
                position: seek_position(&s, idx),
                ..s
            }
        },
        Command::SeekBy(a) => {
            let idx = index_of_position(&s.data, sat64(s.position.raw + a.raw));
            StaticSound {
                cursor: seek_target(&s, idx) as i64,
                position: seek_position(&s, idx),
                ..s
            }
        },
        _ => s,
    }
}

/// The sound after a whole queue of commands is applied, oldest first.
pub open spec fn apply_commands(s: StaticSound, cmds: Seq<Command>) -> StaticSound
    decreases cmds.len(),
{
    if cmds.len() == 0 {
        s
    } else {
        apply_commands(apply_command(s, cmds[0]), cmds.drop_first())
    }
}

/// Whether two sounds agree on everything but their command queue ends.
pub open spec fn same_core(a: &StaticSound, b: &StaticSound) -> bool {
    &&& a.data == b.data
    &&& a.state == b.state
    &&& a.gate == b.gate
    &&& a.reverse == b.reverse
    &&& a.loop_enabled == b.loop_enabled
    &&& a.loop_start_index == b.loop_start_index
    &&& a.cursor == b.cursor
    &&& a.frac == b.frac
    &&& a.drained == b.drained
    &&& a.window == b.window
    &&& a.volume == b.volume
    &&& a.playback_rate == b.playback_rate
    &&& a.panning == b.panning
    &&& a.volume_fade == b.volume_fade
    &&& a.position == b.position
    &&& a.published_position == b.published_position
}

/// Applying one command preserves agreement on everything but the queues.
proof fn lemma_apply_command_core(a: StaticSound, b: StaticSound, c: Command)
    requires
        same_core(&a, &b),
    ensures
        same_core(&apply_command(a, c), &apply_command(b, c)),
{
}

/// Applying a queue of commands preserves agreement on everything but the
/// queues.
proof fn lemma_apply_commands_core(a: StaticSound, b: StaticSound, cmds: Seq<Command>)
    requires
        same_core(&a, &b),
    ensures
        same_core(&apply_commands(a, cmds), &apply_commands(b, cmds)),
    decreases cmds.len(),
{
    if cmds.len() > 0 {
        lemma_apply_command_core(a, b, cmds[0]);
        lemma_apply_commands_core(apply_command(a, cmds[0]), apply_command(b, cmds[0]), cmds.drop_first());
    }
}

/// Appending one command to a drain applies it after the rest.
proof fn lemma_apply_commands_snoc(s: StaticSound, cs: Seq<Command>, c: Command)
    ensures
        apply_commands(s, cs.push(c)) == apply_command(apply_commands(s, cs), c),
    decreases cs.len(),
{
    let v = s;
    let pushed = cs.push(c);
    if cs.len() == 0 {
        assert(pushed[0] == c);
        assert(pushed.drop_first() =~= Seq::<Command>::empty());
        assert(apply_commands(v, pushed) == apply_commands(apply_command(v, c), pushed.drop_first()));
        assert(apply_commands(apply_command(v, c), pushed.drop_first()) == apply_command(v, c));
        assert(apply_commands(v, cs) == v);
    } else {
        assert(pushed[0] == cs[0]);
        assert(pushed.drop_first() =~= cs.drop_first().push(c));
        lemma_apply_commands_snoc(apply_command(v, cs[0]), cs.drop_first(), c);
        assert(apply_commands(v, pushed) == apply_commands(apply_command(v, cs[0]), cs.drop_first().push(c)));
        assert(apply_commands(v, cs) == apply_commands(apply_command(v, cs[0]), cs.drop_first()));
    }
}

/// Whether `post` is `pre` with a sequence of received commands applied,
/// oldest first, and the logical position then published. The sound's drain
/// guarantees this for some received sequence: what the shared ring handed
/// over cannot be pinned to either end's value.
pub open spec fn sound_drain_outcome(pre: StaticSound, cs: Seq<Command>, post: StaticSound) -> bool {
    let applied = apply_commands(pre, cs);
    same_core(&post, &(StaticSound { published_position: applied.position, ..applied }))
}

impl StaticSound {
    /// Feeds one frame into the window, stepping the cursor or draining
    /// silence as [`sound_pushed_once`] describes.
    fn push_next(&mut self)
        requires
            sound_wf_except_frac(old(self)),
        ensures
            *final (self) == sound_pushed_once(*old(self)),
            sound_wf_except_frac(final (self)),
            final (self).frac == old(self).frac,
    {
        let len_usize = self.data.frames.len();
        let len = len_usize as i64;
        let advancing = matches!(
            self.state,
            PlaybackState::Playing | PlaybackState::Pausing | PlaybackState::Stopping
        );
        if advancing && 0 <= self.cursor && self.cursor < len {
            let fade_amp = crate::volume::db_to_amplitude(self.volume_fade.get());
            let vol_amp = self.volume.get().as_amplitude();
            let pan = self.panning.get();
            let src = self.data.frame_at_index(self.cursor);
            let frame = src.scaled(fade_amp).scaled(vol_amp).panned(pan);
            let pos = self.index_position(self.window.f2.index);
            self.position = pos;
            self.drained = 0;
            self.window.push(RecentFrame { frame, index: self.cursor });
            if self.reverse {
                let nc = self.cursor - 1;
                if self.loop_enabled && nc < self.loop_start_index {
                    self.cursor = nc + (len - self.loop_start_index);
                } else {
                    self.cursor = nc;
                }
            } else {
                let nc = self.cursor + 1;
                if self.loop_enabled && nc >= len {
                    self.cursor = nc - (len - self.loop_start_index);
                } else {
                    self.cursor = nc;
                }
            }
        } else {
            if advancing {
                let pos = self.index_position(self.window.f2.index);
                self.position = pos;
                if self.drained < 4 {
                    self.drained = self.drained + 1;
                }
            }
            let idx = self.window.f3.index;
            self.window.push(RecentFrame { frame: Frame::zero(), index: idx });
            if advancing && self.drained >= 4 {
                self.state = PlaybackState::Stopped;
            }
        }
    }

    /// The seconds a frame index publishes, clamped into the frame range.
    fn index_position(&self, idx: i64) -> (r: Fixed)
        requires
            self.data.sample_rate >= 1,
            self.data.frames@.len() < MAX_SOUND_FRAMES,
        ensures
            r.raw == index_position_raw(self, idx as int),
            0 <= r.raw <= sound_duration_raw(self),
    {
        let len = self.data.frames.len() as i64;
        let c: i64 = if idx < 0 {
            0
        } else if idx >= len {
            if len > 0 {
                len - 1
            } else {
                0
            }
        } else {
            idx
        };
        proof {
            lemma_seconds_of_index_bounded(
                c as int,
                sound_len(self),
                self.data.sample_rate as int,
            );
        }
        Fixed::from_ratio(c, self.data.sample_rate as i64)
    }

    /// Renders one output frame and advances the sound by `dt` seconds of
    /// audio time, exactly as [`sound_after_process`] describes; the frame
    /// is [`sound_process_out`].
    #[verifier::rlimit(100)]
    pub fn process(&mut self, dt: Fixed) -> (out: Frame)
        requires
            dt.raw >= 0,
            sound_wf(old(self)),
        ensures
            *final (self) == sound_after_process(*old(self), dt.raw as int),
            out == sound_process_out(*old(self), dt.raw as int),
            sound_wf(final (self)),
    {
        let fade_done = self.volume_fade.update(dt);
        if fade_done {
            match self.state {
                PlaybackState::Pausing => {
                    self.state = PlaybackState::Paused;
                },
                PlaybackState::Stopping => {
                    self.state = PlaybackState::Stopped;
                },
                _ => {},
            }
        }
        self.volume.update(dt);
        self.playback_rate.update(dt);
        self.panning.update(dt);
        match self.gate {
            StartGate::Clock(_) => {
                return Frame::zero();
            },
            StartGate::Delayed(d) => {
                if !matches!(self.state, PlaybackState::Stopped) {
                    if d.raw <= dt.raw {
                        self.gate = StartGate::Ready;
                    } else {
                        self.gate = StartGate::Delayed(Fixed { raw: d.raw - dt.raw });
                    }
                }
                return Frame::zero();
            },
            StartGate::Ready => {},
        }
        let out = self.window.get(self.frac);
        let rate_fx = Fixed { raw: sat_to_i64((self.data.sample_rate as i128) * (
        FIXED_SCALE as i128)) };
        let step = self.playback_rate.get().fabs().fmul(rate_fx).fmul(dt);
        self.frac = self.frac.fadd(step);
        let ghost entry = *self;
        while self.frac.raw >= FIXED_SCALE
            invariant
                sound_wf_except_frac(self),
                self.frac.raw >= 0,
                sound_drained(*self) == sound_drained(entry),
            decreases self.frac.raw,
        {
            self.frac = Fixed { raw: self.frac.raw - FIXED_SCALE };
            self.push_next();
        }
        out
    }
}

/// Well-formedness of everything but the fractional position's upper bound;
/// holds mid-drain, when the accumulated position may still exceed one.
pub open spec fn sound_wf_except_frac(s: &StaticSound) -> bool {
    &&& s.data.sample_rate >= 1
    &&& s.data.frames@.len() < MAX_SOUND_FRAMES
    &&& -1 <= s.cursor <= sound_len(s)
    &&& 0 <= s.frac.raw
    &&& 0 <= s.position.raw <= sound_duration_raw(s)
    &&& tweener_wf(s.volume)
    &&& tweener_wf(s.playback_rate)
    &&& tweener_wf(s.panning)
    &&& tweener_wf(s.volume_fade)
    &&& s.loop_enabled ==> 0 <= s.loop_start_index < sound_len(s)
}

/// How many commands a sound's handle-side queue can hold.
pub const SOUND_COMMAND_CAPACITY: usize = 8;

/// How a start time is tracked during playback.
pub open spec fn gate_of_start_time(st: StartTime) -> StartGate {
    match st {
        StartTime::Immediate => StartGate::Ready,
        StartTime::Delayed(d) => StartGate::Delayed(d),
        StartTime::ClockTime(ct) => StartGate::Clock(ct),
    }
}

/// The loop start index a sound's settings name: the frame index of the loop
/// start position, clamped strictly into the frame range.
pub open spec fn loop_start_index_of(data: &StaticSoundData, lb_pos: int) -> int {
    let len = data.frames@.len() as int;
    let idx = index_of_position(data, lb_pos);
    if len == 0 {
        0
    } else if idx >= len {
        len - 1
    } else {
        idx
    }
}

/// The cursor a sound starts at. Forward playback starts at the frame the
/// start position names, wrapped over the loop region or clamped to the end
/// when it lies past the data. Reverse playback starts that many frames
/// before the end.
pub open spec fn start_cursor(
    data: &StaticSoundData,
    reverse: bool,
    loop_enabled: bool,
    lsi: int,
) -> int {
    let len = data.frames@.len() as int;
    let idx = index_of_position(data, data.settings.start_position.raw as int);
    if reverse {
        if len == 0 {
            0
        } else if idx >= len {
            0
        } else {
            len - 1 - idx
        }
    } else {
        if loop_enabled && idx >= len {
            lsi + (idx - len) % (len - lsi)
        } else if idx > len {
            len
        } else {
            idx
        }
    }
}

/// The sound a data value starts as, before priming: playing (behind its
/// gate), at its start cursor, with its parameter tweens resting on the
/// settings' values and the fade resting at full volume.
pub open spec fn sound_base(data: StaticSoundData, commands: Consumer<Command>) -> StaticSound {
    let loop_enabled = data.settings.loop_behavior is Some && data.frames@.len() > 0;
    let lsi = match data.settings.loop_behavior {
        Some(lb) => loop_start_index_of(&data, lb.start_position.raw as int),
        None => 0,
    };
    let start = start_cursor(&data, data.settings.reverse, loop_enabled, lsi);
    StaticSound {
        state: PlaybackState::Playing,
        gate: gate_of_start_time(data.settings.start_time),
        reverse: data.settings.reverse,
        loop_enabled,
        loop_start_index: lsi as i64,
        cursor: start as i64,
        frac: Fixed { raw: 0 },
        drained: 0,
        window: Resampler {
            f0: RecentFrame {
                frame: Frame { left: Fixed { raw: 0 }, right: Fixed { raw: 0 } },
                index: start as i64,
            },
            f1: RecentFrame {
                frame: Frame { left: Fixed { raw: 0 }, right: Fixed { raw: 0 } },
                index: start as i64,
            },
            f2: RecentFrame {
                frame: Frame { left: Fixed { raw: 0 }, right: Fixed { raw: 0 } },
                index: start as i64,
            },
            f3: RecentFrame {
                frame: Frame { left: Fixed { raw: 0 }, right: Fixed { raw: 0 } },
                index: start as i64,
            },
        },
        volume: Tweener { value: data.settings.volume, state: crate::tweener::TweenerState::Idle },
        playback_rate: Tweener {
            value: data.settings.playback_rate,
            state: crate::tweener::TweenerState::Idle,
        },
        panning: Tweener {
            value: data.settings.panning,
            state: crate::tweener::TweenerState::Idle,
        },
        volume_fade: Tweener {
            value: Fixed { raw: 0 },
            state: crate::tweener::TweenerState::Idle,
        },
        position: Fixed { raw: 0 },
        published_position: Fixed { raw: 0 },
        data,
        commands,
    }
}

/// The sound a data value starts as: the base sound with three frames
/// primed into its window, and the clamped or wrapped start position set
/// and published - the duration itself, for a start past the end of a
/// non-looping sound.
pub open spec fn sound_initial(data: StaticSoundData, commands: Consumer<Command>) -> StaticSound {
    let base = sound_base(data, commands);
    let primed = sound_pushed_once(sound_pushed_once(sound_pushed_once(base)));
    let p = Fixed {
        raw: sat64(div_trunc(base.cursor * (FIXED_SCALE as int), data.sample_rate as int)) as i64,
    };
    StaticSound { position: p, published_position: p, ..primed }
}

impl StaticSound {
    /// Starts playing a data value, taking commands from `commands`: the
    /// start settings are compiled and the window is primed with the first
    /// three frames.
    #[verifier::rlimit(60)]
    pub fn new(data: StaticSoundData, commands: Consumer<Command>) -> (r: StaticSound)
        requires
            data.sample_rate >= 1,
            data.frames@.len() < MAX_SOUND_FRAMES,
        ensures
            r == sound_initial(data, commands),
            sound_wf(&r),
    {
        let len_usize = data.frames.len();
        let len = len_usize as i64;
        let rate = data.sample_rate;
        let loop_enabled = data.settings.loop_behavior.is_some() && len > 0;
        let lsi: i64 = match data.settings.loop_behavior {
            Some(lb) => {
                let idx = position_index(&data, lb.start_position);
                if len == 0 {
                    0
                } else if idx >= len {
                    len - 1
                } else {
                    idx
                }
            },
            None => 0,
        };
        let start_idx = position_index(&data, data.settings.start_position);
        let cursor: i64 = if data.settings.reverse {
            if len == 0 {
                0
            } else if start_idx >= len {
                0
            } else {
                len - 1 - start_idx
            }
        } else {
            if loop_enabled && start_idx >= len {
                lsi + (start_idx - len) % (len - lsi)
            } else if start_idx > len {
                len
            } else {
                start_idx
            }
        };
        let gate = match data.settings.start_time {
            StartTime::Immediate => StartGate::Ready,
            StartTime::Delayed(d) => StartGate::Delayed(d),
            StartTime::ClockTime(ct) => StartGate::Clock(ct),
        };
        let mut sound = StaticSound {
            state: PlaybackState::Playing,
            gate,
            reverse: data.settings.reverse,
            loop_enabled,
            loop_start_index: lsi,
            cursor,
            frac: Fixed { raw: 0 },
            drained: 0,
            window: Resampler::seeded(cursor),
            volume: Tweener::new(data.settings.volume),
            playback_rate: Tweener::new(data.settings.playback_rate),
            panning: Tweener::new(data.settings.panning),
            volume_fade: Tweener::new(Fixed { raw: 0 }),
            position: Fixed { raw: 0 },
            published_position: Fixed { raw: 0 },
            data,
            commands,
        };
        proof {
            assert(sound == sound_base(data, commands));
        }
        let ghost base = sound;
        sound.push_next();
        proof {
            assert(sound == sound_pushed_once(base));
        }
        sound.push_next();
        sound.push_next();
        proof {
            assert(sound == sound_pushed_once(sound_pushed_once(sound_pushed_once(base))));
            lemma_seconds_of_index_bounded(cursor as int, len as int, rate as int);
        }
        let start_pos = Fixed::from_ratio(cursor, rate as i64);
        sound.position = start_pos;
        sound.published_position = start_pos;
        sound
    }

    /// The logical playback position last published, in seconds. Seeks and
    /// clamped starts move it directly - a sound born past the end of
    /// non-looping data publishes the duration - and during playback it is
    /// republished from the frame at the window's interpolation center.
    pub fn position(&self) -> (r: Fixed)
        ensures
            r == self.published_position,
    {
        self.published_position
    }

    /// Whether the sound is finished for good.
    pub fn finished(&self) -> (r: bool)
        ensures
            r == sound_finished(self),
    {
        matches!(self.state, PlaybackState::Stopped)
    }

    /// Begins fading the sound out toward a pause; a stopped sound stays
    /// stopped.
    pub fn pause(&mut self, tween: Tween)
        requires
            sound_wf(old(self)),
        ensures
            *final (self) == apply_command(*old(self), Command::Pause(tween)),
            sound_wf(final (self)),
    {
        if !matches!(self.state, PlaybackState::Stopped) {
            self.state = PlaybackState::Pausing;
            self.volume_fade.set(Fixed { raw: MIN_DECIBELS_RAW }, tween);
        }
    }

    /// Resumes the sound with a fade back to full volume; a stopped sound
    /// stays stopped.
    pub fn resume(&mut self, tween: Tween)
        requires
            sound_wf(old(self)),
        ensures
            *final (self) == apply_command(*old(self), Command::Resume(tween)),
            sound_wf(final (self)),
    {
        if !matches!(self.state, PlaybackState::Stopped) {
            self.state = PlaybackState::Playing;
            self.volume_fade.set(Fixed { raw: 0 }, tween);
        }
    }

    /// Begins fading the sound out toward a final stop; an already stopped
    /// sound stays stopped.
    pub fn stop(&mut self, tween: Tween)
        requires
            sound_wf(old(self)),
        ensures
            *final (self) == apply_command(*old(self), Command::Stop(tween)),
            sound_wf(final (self)),
    {
        if !matches!(self.state, PlaybackState::Stopped) {
            self.state = PlaybackState::Stopping;
            self.volume_fade.set(Fixed { raw: MIN_DECIBELS_RAW }, tween);
        }
    }

    /// Schedules a volume transition.
    pub fn set_volume(&mut self, volume: Volume, tween: Tween)
        requires
            sound_wf(old(self)),
        ensures
            *final (self) == apply_command(*old(self), Command::SetVolume(volume, tween)),
            sound_wf(final (self)),
    {
        self.volume.set(volume, tween);
    }

    /// Schedules a panning transition.
    pub fn set_panning(&mut self, panning: Fixed, tween: Tween)
        requires
            sound_wf(old(self)),
        ensures
            *final (self) == apply_command(*old(self), Command::SetPanning(panning, tween)),
            sound_wf(final (self)),
    {
        self.panning.set(panning, tween);
    }

    /// Schedules a playback rate transition.
    pub fn set_playback_rate(&mut self, rate: Fixed, tween: Tween)
        requires
            sound_wf(old(self)),
        ensures
            *final (self) == apply_command(*old(self), Command::SetPlaybackRate(rate, tween)),
            sound_wf(final (self)),
    {
        self.playback_rate.set(rate, tween);
    }

    /// Moves playback to a time in seconds. Past the end, the target wraps
    /// over the loop region when looping - seeking to exactly the duration
    /// lands on the loop start - and clamps to the end otherwise.
    pub fn seek_to(&mut self, position: Fixed)
        requires
            sound_wf(old(self)),
        ensures
            *final (self) == apply_command(*old(self), Command::SeekTo(position)),
            sound_wf(final (self)),
    {
        let idx = position_index(&self.data, position);
        let landed = self.seek_cursor(idx);
        self.cursor = landed;
        proof {
            lemma_seconds_of_index_bounded(
                landed as int,
                sound_len(self),
                self.data.sample_rate as int,
            );
        }
        self.position = Fixed::from_ratio(landed, self.data.sample_rate as i64);
    }

    /// Moves playback by an amount of seconds relative to the logical
    /// position, with the same wrapping as [`StaticSound::seek_to`].
    pub fn seek_by(&mut self, amount: Fixed)
        requires
            sound_wf(old(self)),
        ensures
            *final (self) == apply_command(*old(self), Command::SeekBy(amount)),
            sound_wf(final (self)),
    {
        let target = self.position.fadd(amount);
        let idx = position_index(&self.data, target);
        let landed = self.seek_cursor(idx);
        self.cursor = landed;
        proof {
            lemma_seconds_of_index_bounded(
                landed as int,
                sound_len(self),
                self.data.sample_rate as int,
            );
        }
        self.position = Fixed::from_ratio(landed, self.data.sample_rate as i64);
    }

    /// Where a seek to frame index `idx` lands.
    fn seek_cursor(&self, idx: i64) -> (r: i64)
        requires
            sound_wf(self),
            idx >= 0,
        ensures
            r == seek_target(self, idx as int),
            0 <= r <= sound_len(self),
    {
        let len = self.data.frames.len() as i64;
        if self.loop_enabled && idx >= len {
            proof {
                vstd::arithmetic::div_mod::lemma_mod_division_less_than_divisor(
                    idx - len,
                    len - self.loop_start_index,
                );
            }
            self.loop_start_index + (idx - len) % (len - self.loop_start_index)
        } else if idx > len {
            len
        } else {
            idx
        }
    }

    /// Drains and applies queued commands, oldest first - at most the
    /// queue's capacity per block, keeping the block's work bounded - then
    /// publishes the logical position. Which commands the shared ring hands
    /// over is a property of the running system, not of either end's value,
    /// so the contract holds for some received sequence.
    pub fn on_start_processing(&mut self)
        requires
            sound_wf(old(self)),
        ensures
            sound_drained_to(*old(self), *final (self)),
            sound_wf(final (self)),
    {
        let ghost mut cs: Seq<Command> = Seq::empty();
        let mut budget: usize = 0;
        loop
            invariant
                sound_wf(self),
                budget <= SOUND_COMMAND_CAPACITY,
                same_core(self, &apply_commands(*old(self), cs)),
            ensures
                sound_wf(self),
                same_core(self, &apply_commands(*old(self), cs)),
            decreases SOUND_COMMAND_CAPACITY - budget,
        {
            if budget >= SOUND_COMMAND_CAPACITY {
                break ;
            }
            let popped = pop_command(&mut self.commands);
            match popped {
                None => {
                    break ;
                },
                Some(cmd) => {
                    let ghost s_mid = *self;
                    match cmd {
                        Command::SetVolume(v, t) => self.set_volume(v, t),
                        Command::SetPanning(p, t) => self.set_panning(p, t),
                        Command::SetPlaybackRate(r, t) => self.set_playback_rate(r, t),
                        Command::Pause(t) => self.pause(t),
                        Command::Resume(t) => self.resume(t),
                        Command::Stop(t) => self.stop(t),
                        Command::SeekTo(p) => self.seek_to(p),
                        Command::SeekBy(a) => self.seek_by(a),
                        _ => {},
                    }
                    proof {
                        lemma_apply_command_core(s_mid, apply_commands(*old(self), cs), cmd);
                        lemma_apply_commands_snoc(*old(self), cs, cmd);
                        cs = cs.push(cmd);
                    }
                },
            }
            budget = budget + 1;
        }
        self.published_position = self.position;
        proof {
            assert(sound_drain_outcome(*old(self), cs, *self));
        }
    }

    /// Reacts to an observed clock tick: the tick reaches the parameter
    /// tweens and may release the start gate.
    pub fn on_clock_tick(&mut self, time: ClockTime)
        requires
            sound_wf(old(self)),
        ensures
            *final (self) == sound_after_tick(*old(self), time),
            sound_wf(final (self)),
    {
        match self.gate {
            StartGate::Clock(target) => {
                if time.clock == target.clock && time.ticks >= target.ticks && !matches!(
                    self.state,
                    PlaybackState::Stopped,
                ) {
                    self.gate = StartGate::Ready;
                }
            },
            _ => {},
        }
        self.volume.on_clock_tick(time);
        self.playback_rate.on_clock_tick(time);
        self.panning.on_clock_tick(time);
        self.volume_fade.on_clock_tick(time);
    }
}

/// The frame index a non-negative time in seconds names.
fn position_index(data: &StaticSoundData, pos: Fixed) -> (r: i64)
    requires
        data.sample_rate >= 1,
    ensures
        r == index_of_position(data, pos.raw as int),
        r >= 0,
{
    let rate_fx = Fixed { raw: sat_to_i64((data.sample_rate as i128) * (FIXED_SCALE as i128)) };
    let sp = pos.fmul(rate_fx);
    if sp.raw < 0 {
        proof {
            vstd::arithmetic::div_mod::lemma_div_pos_is_pos(
                -(sp.raw as int),
                FIXED_SCALE as int,
            );
        }
        0
    } else {
        sp.int_part()
    }
}

impl StaticSoundData {
    /// Starts this sound: the playing, audio-side sound and the control-side
    /// handle that commands it.
    pub fn split(self) -> (r: (StaticSound, StaticSoundHandle))
        requires
            self.sample_rate >= 1,
            self.frames@.len() < MAX_SOUND_FRAMES,
        ensures
            r.0 == sound_initial(self, r.0.commands),
            sound_wf(&r.0),
            producer_capacity(r.1.command_producer) == SOUND_COMMAND_CAPACITY,
    {
        let (producer, consumer) = command_channel(SOUND_COMMAND_CAPACITY);
        let sound = StaticSound::new(self, consumer);
        (sound, StaticSoundHandle { command_producer: producer })
    }
}

impl StaticSoundHandle {
    /// Sends a command: it joins the queue when the ring has room, and the
    /// error reports a full ring. Whether there was room is a property of
    /// the shared ring at the moment of the call, not of this end's value,
    /// so neither outcome is promised; the sound applies received commands
    /// on its next processing block.
    fn send(&mut self, cmd: Command) -> (r: Result<(), CommandQueueFull>)
        ensures
            producer_capacity(final (self).command_producer) == producer_capacity(
                old(self).command_producer,
            ),
    {
        match push_command(&mut self.command_producer, cmd) {
            Ok(_) => Ok(()),
            Err(_) => Err(CommandQueueFull),
        }
    }

    /// Asks the sound to fade out and pause.
    pub fn pause(&mut self, tween: Tween) -> (r: Result<(), CommandQueueFull>)
        ensures
            producer_capacity(final (self).command_producer) == producer_capacity(
                old(self).command_producer,
            ),
    {
        self.send(Command::Pause(tween))
    }

    /// Asks the sound to resume with a fade back in.
    pub fn resume(&mut self, tween: Tween) -> (r: Result<(), CommandQueueFull>)
        ensures
            producer_capacity(final (self).command_producer) == producer_capacity(
                old(self).command_producer,
            ),
    {
        self.send(Command::Resume(tween))
    }

    /// Asks the sound to fade out and stop for good.
    pub fn stop(&mut self, tween: Tween) -> (r: Result<(), CommandQueueFull>)
        ensures
            producer_capacity(final (self).command_producer) == producer_capacity(
                old(self).command_producer,
            ),
    {
        self.send(Command::Stop(tween))
    }

    /// Asks the sound to change volume.
    pub fn set_volume(&mut self, volume: Volume, tween: Tween) -> (r: Result<(), CommandQueueFull>)
        ensures
            producer_capacity(final (self).command_producer) == producer_capacity(
                old(self).command_producer,
            ),
    {
        self.send(Command::SetVolume(volume, tween))
    }

    /// Asks the sound to change panning.
    pub fn set_panning(&mut self, panning: Fixed, tween: Tween) -> (r: Result<(), CommandQueueFull>)
        ensures
            producer_capacity(final (self).command_producer) == producer_capacity(
                old(self).command_producer,
            ),
    {
        self.send(Command::SetPanning(panning, tween))
    }

    /// Asks the sound to change playback rate.
    pub fn set_playback_rate(&mut self, rate: Fixed, tween: Tween) -> (r: Result<(),
        CommandQueueFull>)
        ensures
            producer_capacity(final (self).command_producer) == producer_capacity(
                old(self).command_producer,
            ),
    {
        self.send(Command::SetPlaybackRate(rate, tween))
    }

    /// Asks the sound to move to a position in seconds.
    pub fn seek_to(&mut self, position: Fixed) -> (r: Result<(), CommandQueueFull>)
        ensures
            producer_capacity(final (self).command_producer) == producer_capacity(
                old(self).command_producer,
            ),
    {
        self.send(Command::SeekTo(position))
    }

    /// Asks the sound to move by an amount of seconds.
    pub fn seek_by(&mut self, amount: Fixed) -> (r: Result<(), CommandQueueFull>)
        ensures
            producer_capacity(final (self).command_producer) == producer_capacity(
                old(self).command_producer,
            ),
    {
        self.send(Command::SeekBy(amount))
    }
}

/// Ordering of a forward, non-looping sound's window: sample indices never
/// decrease through the window, and the cursor sits at or past the newest.
/// This holds from construction on and is preserved by processing.
pub open spec fn forward_ordered(s: &StaticSound) -> bool {
    &&& !s.reverse
    &&& !s.loop_enabled
    &&& s.window.f1.index <= s.window.f2.index
    &&& s.window.f2.index <= s.window.f3.index
    &&& s.window.f3.index <= s.cursor
    &&& 0 <= s.cursor
}

/// The duration of a sound's data in raw fixed-point seconds.
pub open spec fn sound_duration_raw(s: &StaticSound) -> int {
    sat64(div_trunc(sound_len(s) * (FIXED_SCALE as int), s.data.sample_rate as int))
}

/// Draining preserves a stopped sound: it stays stopped, and its gate and
/// data stay put.
proof fn lemma_drain_keeps_stopped(s: StaticSound)
    requires
        s.frac.raw >= 0,
        s.state is Stopped,
    ensures
        sound_drained(s).state is Stopped,
        sound_drained(s).gate == s.gate,
    decreases s.frac.raw,
{
    if s.frac.raw >= FIXED_SCALE {
        let stepped = sound_pushed_once(
            StaticSound { frac: Fixed { raw: (s.frac.raw - FIXED_SCALE) as i64 }, ..s },
        );
        lemma_drain_keeps_stopped(stepped);
    }
}

/// A sound's finished flag, once true, remains true: no audio frame brings
/// a finished sound back.
#[verifier::rlimit(100)]
pub proof fn law_finished_is_sticky(s: StaticSound, dt: int)
    requires
        sound_wf(&s),
        sound_finished(&s),
        dt >= 0,
    ensures
        sound_finished(&sound_after_process(s, dt)),
{
    let s1 = sound_after_tweens(s, dt);
    assert(s1.state is Stopped);
    assert(s1.window == s.window);
    match s1.gate {
        StartGate::Ready => {
            lemma_rate_step_nonneg(&s1, dt);
            let sum = sat64(s1.frac.raw + rate_step_raw(&s1, dt));
            lemma_drain_keeps_stopped(StaticSound { frac: Fixed { raw: sum as i64 }, ..s1 });
        },
        _ => {},
    }
}

/// The rate step over a non-negative time step is non-negative.
proof fn lemma_rate_step_nonneg(s: &StaticSound, dt: int)
    requires
        dt >= 0,
    ensures
        rate_step_raw(s, dt) >= 0,
{
    let pr = sat64(
        if s.playback_rate.value.raw < 0 {
            -(s.playback_rate.value.raw as int)
        } else {
            s.playback_rate.value.raw as int
        },
    );
    crate::fixed::lemma_fmul_raw_nonneg(pr, sat64(s.data.sample_rate * (FIXED_SCALE as int)));
    crate::fixed::lemma_fmul_raw_nonneg(
        fmul_raw(pr, sat64(s.data.sample_rate * (FIXED_SCALE as int))),
        dt,
    );
}

/// A sound's finished flag, once true, remains true: no clock tick brings a
/// finished sound back, since a stopped sound's gate never opens.
pub proof fn law_finished_is_sticky_under_ticks(s: StaticSound, time: ClockTime)
    requires
        sound_wf(&s),
        sound_finished(&s),
    ensures
        sound_finished(&sound_after_tick(s, time)),
{
}

/// A sound's finished flag, once true, remains true: no control command
/// brings a finished sound back, since pause, resume and stop leave a
/// stopped sound alone.
#[verifier::rlimit(50)]
pub proof fn law_finished_is_sticky_under_commands(s: StaticSound, c: Command)
    requires
        sound_wf(&s),
        sound_finished(&s),
    ensures
        sound_finished(&apply_command(s, c)),
{
}

/// The seconds of a frame index at or below the frame count never exceed
/// the duration, and never fall below zero.
proof fn lemma_seconds_of_index_bounded(idx: int, len: int, rate: int)
    requires
        0 <= idx <= len,
        rate >= 1,
    ensures
        0 <= sat64(div_trunc(idx * (FIXED_SCALE as int), rate)),
        sat64(div_trunc(idx * (FIXED_SCALE as int), rate)) <= sat64(
            div_trunc(len * (FIXED_SCALE as int), rate),
        ),
{
    let scale = FIXED_SCALE as int;
    vstd::arithmetic::mul::lemma_mul_inequality(idx, len, scale);
    vstd::arithmetic::div_mod::lemma_div_is_ordered(idx * scale, len * scale, rate);
    vstd::arithmetic::div_mod::lemma_div_pos_is_pos(idx * scale, rate);
}

/// A later frame index never publishes earlier seconds, and no index
/// publishes seconds past the duration.
proof fn lemma_index_position_monotone(s: &StaticSound, i1: int, i2: int)
    requires
        s.data.sample_rate >= 1,
        i1 <= i2,
    ensures
        index_position_raw(s, i1) <= index_position_raw(s, i2),
        0 <= index_position_raw(s, i1) <= sound_duration_raw(s),
        0 <= index_position_raw(s, i2) <= sound_duration_raw(s),
{
    let len = sound_len(s);
    let rate = s.data.sample_rate as int;
    let scale = FIXED_SCALE as int;
    let clamp = |ix: int|
        if ix < 0 {
            0
        } else if ix >= len {
            if len > 0 {
                len - 1
            } else {
                0
            }
        } else {
            ix
        };
    let c1 = clamp(i1);
    let c2 = clamp(i2);
    assert(0 <= c1 <= c2 <= len);
    vstd::arithmetic::mul::lemma_mul_inequality(c1, c2, scale);
    vstd::arithmetic::div_mod::lemma_div_is_ordered(c1 * scale, c2 * scale, rate);
    lemma_seconds_of_index_bounded(c1, len, rate);
    lemma_seconds_of_index_bounded(c2, len, rate);
}

/// One push keeps a forward, non-looping window ordered, never moves the
/// logical position backwards, and republishes the window's current frame
/// while the state still advances.
proof fn lemma_push_keeps_forward_ordered(s: StaticSound)
    requires
        sound_wf_except_frac(&s),
        forward_ordered(&s),
        state_advances(s.state) ==> position_in_flow(&s),
    ensures
        forward_ordered(&sound_pushed_once(s)),
        sound_wf_except_frac(&sound_pushed_once(s)),
        sound_pushed_once(s).position.raw >= s.position.raw,
        sound_pushed_once(s).data == s.data,
        sound_pushed_once(s).frac == s.frac,
        state_advances(sound_pushed_once(s).state) ==> position_in_flow(&sound_pushed_once(s)),
{
    if state_advances(s.state) {
        lemma_index_position_monotone(&s, s.window.f1.index as int, s.window.f2.index as int);
    }
}

/// Draining keeps a forward, non-looping window ordered and never moves the
/// logical position backwards.
proof fn lemma_drain_keeps_forward_ordered(s: StaticSound)
    requires
        sound_wf_except_frac(&s),
        forward_ordered(&s),
        state_advances(s.state) ==> position_in_flow(&s),
    ensures
        forward_ordered(&sound_drained(s)),
        sound_wf_except_frac(&sound_drained(s)),
        sound_drained(s).position.raw >= s.position.raw,
        sound_drained(s).data == s.data,
        state_advances(sound_drained(s).state) ==> position_in_flow(&sound_drained(s)),
    decreases s.frac.raw,
{
    if s.frac.raw >= FIXED_SCALE {
        let reduced = StaticSound { frac: Fixed { raw: (s.frac.raw - FIXED_SCALE) as i64 }, ..s };
        lemma_push_keeps_forward_ordered(reduced);
        lemma_drain_keeps_forward_ordered(sound_pushed_once(reduced));
    }
}

/// Position monotonicity: for a forward, non-looping sound whose logical
/// position publishes the window's current frame (as it does from
/// construction on), one audio frame never moves the logical position
/// backwards, and the position never passes the duration. The window
/// ordering and the publishing relation are preserved, so this holds
/// across any number of frames.
pub proof fn law_position_monotone(s: StaticSound, dt: int)
    requires
        sound_wf(&s),
        forward_ordered(&s),
        state_advances(s.state) ==> position_in_flow(&s),
        dt >= 0,
    ensures
        sound_after_process(s, dt).position.raw >= s.position.raw,
        0 <= s.position.raw <= sound_duration_raw(&s),
        0 <= sound_after_process(s, dt).position.raw <= sound_duration_raw(&s),
        forward_ordered(&sound_after_process(s, dt)),
        state_advances(sound_after_process(s, dt).state) ==> position_in_flow(
            &sound_after_process(s, dt),
        ),
        sound_after_process(s, dt).data == s.data,
{
    let s1 = sound_after_tweens(s, dt);
    assert(forward_ordered(&s1));
    assert(state_advances(s1.state) ==> state_advances(s.state));
    assert(position_in_flow(&s) ==> position_in_flow(&s1));
    match s1.gate {
        StartGate::Ready => {
            lemma_rate_step_nonneg(&s1, dt);
            let sum = sat64(s1.frac.raw + rate_step_raw(&s1, dt));
            let pre = StaticSound { frac: Fixed { raw: sum as i64 }, ..s1 };
            lemma_drain_keeps_forward_ordered(pre);
        },
        _ => {},
    }
}

/// Seeking to exactly the duration while looping wraps to the loop start:
/// a seek whose target index is exactly the frame count lands the cursor on
/// the loop start index.
pub proof fn law_seek_to_duration_wraps(s: StaticSound, p: Fixed)
    requires
        sound_wf(&s),
        s.loop_enabled,
        index_of_position(&s.data, p.raw as int) == sound_len(&s),
    ensures
        apply_command(s, Command::SeekTo(p)).cursor == s.loop_start_index,
        apply_command(s, Command::SeekTo(p)).position.raw == sat64(
            div_trunc(s.loop_start_index * (FIXED_SCALE as int), s.data.sample_rate as int),
        ),
{
    let len = sound_len(&s);
    let region = len - s.loop_start_index;
    vstd::arithmetic::div_mod::lemma_small_mod(0, region as nat);
}

/// A start position past the duration is clamped to the end when not
/// looping - the sound is born at its duration - and wrapped into the loop
/// region when looping: the sound then starts between the loop start and
/// the end.
pub proof fn law_start_position_past_end(data: StaticSoundData, c: Consumer<Command>)
    requires
        data.sample_rate >= 1,
        data.frames@.len() < MAX_SOUND_FRAMES,
        !data.settings.reverse,
        index_of_position(&data, data.settings.start_position.raw as int) >= data.frames@.len(),
    ensures
        data.settings.loop_behavior is None ==> sound_base(data, c).cursor == data.frames@.len(),
        data.settings.loop_behavior is None ==> sound_initial(data, c).position.raw == sat64(
            div_trunc(data.frames@.len() * (FIXED_SCALE as int), data.sample_rate as int),
        ),
        (data.settings.loop_behavior is Some && data.frames@.len() > 0) ==> {
            let b = sound_base(data, c);
            b.loop_start_index <= b.cursor < data.frames@.len()
        },
{
    let b = sound_base(data, c);
    if data.settings.loop_behavior is Some && data.frames@.len() > 0 {
        let len = data.frames@.len() as int;
        let idx = index_of_position(&data, data.settings.start_position.raw as int);
        let region = len - b.loop_start_index;
        vstd::arithmetic::div_mod::lemma_mod_division_less_than_divisor(idx - len, region);
    }
}

} // verus!
