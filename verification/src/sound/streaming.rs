//! Streaming sound playback: the audio-side half of a decoder-fed sound.
//!
//! A worker outside the audio thread decodes audio and pushes frames into a
//! bounded ring at the source sample rate; the audio side pulls them through
//! the same 4-frame resampling window static sounds use. When the ring runs
//! dry the sound plays silence without disturbing anything else. Backward
//! playback is not supported. The worker also takes a small command queue of
//! its own for seeks and shutdown; deciding what to send on it is the
//! control side's business, so it does not appear here.

use vstd::prelude::*;

use ringbuf::{Consumer, Producer};

use crate::channel::{command_channel, pop_command, pop_frame, producer_capacity, push_command};
use crate::command::Command;
use crate::error::CommandQueueFull;
use crate::fixed::{sat64, sat_to_i64, Fixed, FIXED_SCALE};
use crate::frame::Frame;
use crate::sound::resampler::{resampler_out, resampler_silent, RecentFrame, Resampler};
use crate::sound::static_sound::PlaybackState;
use crate::tween::{ClockTime, Tween};
use crate::tweener::{
    tweener_after_set,
    tweener_after_tick,
    tweener_after_update,
    tweener_update_finishes,
    tweener_wf,
    Tweener,
};
use crate::volume::{db_to_amp_raw, volume_amp_raw, Volume, MIN_DECIBELS_RAW};

verus! {

/// How many commands a streaming sound's handle-side queue can hold.
pub const STREAMING_COMMAND_CAPACITY: usize = 8;

/// Settings of a streaming sound.
#[derive(Clone, Copy, Debug)]
pub struct StreamingSoundSettings {
    /// The sound's volume.
    pub volume: Volume,
    /// The playback rate as a factor of normal speed.
    pub playback_rate: Fixed,
    /// The stereo panning, 0 (hard left) to 1 (hard right).
    pub panning: Fixed,
}

impl Default for StreamingSoundSettings {
    /// Full volume, normal speed, center panning.
    fn default() -> (r: StreamingSoundSettings)
        ensures
            r.volume == Volume::Amplitude(Fixed { raw: FIXED_SCALE }),
            r.playback_rate.raw == FIXED_SCALE,
            r.panning.raw == FIXED_SCALE / 2,
    {
        StreamingSoundSettings {
            volume: Volume::Amplitude(Fixed { raw: FIXED_SCALE }),
            playback_rate: Fixed { raw: FIXED_SCALE },
            panning: Fixed { raw: FIXED_SCALE / 2 },
        }
    }
}

/// The audio-side half of a streaming sound.
pub struct StreamingSound {
    /// The source sample rate of the decoded frames; positive.
    pub sample_rate: u32,
    /// Where the sound is in its lifecycle.
    pub state: PlaybackState,
    /// The fractional position within the current frame, in [0, 1).
    pub frac: Fixed,
    /// The resampling window.
    pub window: Resampler,
    /// How many frames have been pulled from the ring.
    pub pulled: u64,
    /// The animated volume parameter.
    pub volume: Tweener<Volume>,
    /// The animated playback rate parameter.
    pub playback_rate: Tweener<Fixed>,
    /// The animated panning parameter.
    pub panning: Tweener<Fixed>,
    /// The pause/resume/stop fade, in decibels.
    pub volume_fade: Tweener<Fixed>,
    /// The decoded frames arriving from the worker.
    pub frames: Consumer<Frame>,
    /// The queue of commands from the sound's handle.
    pub commands: Consumer<Command>,
}

/// The control side of a streaming sound.
pub struct StreamingSoundHandle {
    /// The producing end of the sound's command queue.
    pub command_producer: Producer<Command>,
}

/// Well-formedness of a streaming sound.
pub open spec fn streaming_wf(s: &StreamingSound) -> bool {
    &&& s.sample_rate >= 1
    &&& 0 <= s.frac.raw < FIXED_SCALE
    &&& tweener_wf(s.volume)
    &&& tweener_wf(s.playback_rate)
    &&& tweener_wf(s.panning)
    &&& tweener_wf(s.volume_fade)
}

/// The frame a streaming sound feeds into its window, given the frame
/// pulled from the ring: scaled by the fade amplitude and the volume
/// amplitude, then panned.
pub open spec fn streaming_pushed_frame(s: &StreamingSound, src: Frame) -> Frame {
    crate::frame::frame_panned_spec(
        crate::frame::frame_scaled_spec(
            crate::frame::frame_scaled_spec(src, db_to_amp_raw(s.volume_fade.value.raw as int)),
            volume_amp_raw(s.volume.value),
        ),
        s.panning.value.raw as int,
    )
}

/// Where the lifecycle state settles after a frame's fade update: a
/// completed fade lands a pausing sound in paused and a stopping one in
/// stopped; nothing else moves the state during processing.
pub open spec fn streaming_settled_state(st: PlaybackState, fade_done: bool) -> PlaybackState {
    if fade_done {
        match st {
            PlaybackState::Pausing => PlaybackState::Paused,
            PlaybackState::Stopping => PlaybackState::Stopped,
            other => other,
        }
    } else {
        st
    }
}

/// The streaming sound after one control command: pause, resume and stop
/// move the lifecycle state and schedule the decibel fade (a stopped sound
/// ignores them), and parameter commands schedule their tweens.
pub open spec fn streaming_apply_command(s: StreamingSound, c: Command) -> StreamingSound {
    match c {
        Command::SetVolume(v, t) => StreamingSound {
            volume: tweener_after_set(s.volume, v, t),
            ..s
        },
        Command::SetPanning(p, t) => StreamingSound {
            panning: tweener_after_set(s.panning, p, t),
            ..s
        },
        Command::SetPlaybackRate(r, t) => StreamingSound {
            playback_rate: tweener_after_set(s.playback_rate, r, t),
            ..s
        },
        Command::Pause(t) => {
            if s.state is Stopped {
                s
            } else {
                StreamingSound {
                    state: PlaybackState::Pausing,
                    volume_fade: tweener_after_set(
                        s.volume_fade,
                        Fixed { raw: MIN_DECIBELS_RAW },
                        t,
                    ),
                    ..s
                }
            }
        },
        Command::Resume(t) => {
            if s.state is Stopped {
                s
            } else {
                StreamingSound {
                    state: PlaybackState::Playing,
                    volume_fade: tweener_after_set(s.volume_fade, Fixed { raw: 0 }, t),
                    ..s
                }
            }
        },
        Command::Stop(t) => {
            if s.state is Stopped {
                s
            } else {
                StreamingSound {
                    state: PlaybackState::Stopping,
                    volume_fade: tweener_after_set(
                        s.volume_fade,
                        Fixed { raw: MIN_DECIBELS_RAW },
                        t,
                    ),
                    ..s
                }
            }
        },
        _ => s,
    }
}

/// The streaming sound after a whole queue of commands, oldest first.
pub open spec fn streaming_apply_commands(s: StreamingSound, cs: Seq<Command>) -> StreamingSound
    decreases cs.len(),
{
    if cs.len() == 0 {
        s
    } else {
        streaming_apply_commands(streaming_apply_command(s, cs[0]), cs.drop_first())
    }
}

/// Whether two streaming sounds agree on everything but their ring ends.
pub open spec fn streaming_same_core(a: &StreamingSound, b: &StreamingSound) -> bool {
    &&& a.sample_rate == b.sample_rate
    &&& a.state == b.state
    &&& a.frac == b.frac
    &&& a.window == b.window
    &&& a.pulled == b.pulled
    &&& a.volume == b.volume
    &&& a.playback_rate == b.playback_rate
    &&& a.panning == b.panning
    &&& a.volume_fade == b.volume_fade
}

/// Applying one command preserves agreement on everything but the rings.
proof fn lemma_streaming_apply_command_core(a: StreamingSound, b: StreamingSound, c: Command)
    requires
        streaming_same_core(&a, &b),
    ensures
        streaming_same_core(&streaming_apply_command(a, c), &streaming_apply_command(b, c)),
{
}

/// Appending one command to a drain applies it after the rest.
proof fn lemma_streaming_apply_commands_snoc(s: StreamingSound, cs: Seq<Command>, c: Command)
    ensures
        streaming_apply_commands(s, cs.push(c)) == streaming_apply_command(
            streaming_apply_commands(s, cs),
            c,
        ),
    decreases cs.len(),
{
    let v = s;
    let pushed = cs.push(c);
    if cs.len() == 0 {
        assert(pushed[0] == c);
        assert(pushed.drop_first() =~= Seq::<Command>::empty());
        assert(streaming_apply_commands(v, pushed) == streaming_apply_commands(streaming_apply_command(v, c), pushed.drop_first()));
        assert(streaming_apply_commands(streaming_apply_command(v, c), pushed.drop_first()) == streaming_apply_command(v, c));
        assert(streaming_apply_commands(v, cs) == v);
    } else {
        assert(pushed[0] == cs[0]);
        assert(pushed.drop_first() =~= cs.drop_first().push(c));
        lemma_streaming_apply_commands_snoc(streaming_apply_command(v, cs[0]), cs.drop_first(), c);
        assert(streaming_apply_commands(v, pushed) == streaming_apply_commands(streaming_apply_command(v, cs[0]), cs.drop_first().push(c)));
        assert(streaming_apply_commands(v, cs) == streaming_apply_commands(streaming_apply_command(v, cs[0]), cs.drop_first()));
    }
}

impl StreamingSound {
    /// The audio-side half of a streaming sound, fed by `frames` at the
    /// given source sample rate.
    pub fn new(
        sample_rate: u32,
        settings: StreamingSoundSettings,
        frames: Consumer<Frame>,
        commands: Consumer<Command>,
    ) -> (r: StreamingSound)
        requires
            sample_rate >= 1,
        ensures
            streaming_wf(&r),
            r.sample_rate == sample_rate,
            r.state is Playing,
            r.pulled == 0,
            r.frames == frames,
            r.commands == commands,
            r.volume.value == settings.volume,
            r.playback_rate.value == settings.playback_rate,
            r.panning.value == settings.panning,
            r.volume_fade.value.raw == 0,
    {
        StreamingSound {
            sample_rate,
            state: PlaybackState::Playing,
            frac: Fixed { raw: 0 },
            window: Resampler::new(),
            pulled: 0,
            volume: Tweener::new(settings.volume),
            playback_rate: Tweener::new(settings.playback_rate),
            panning: Tweener::new(settings.panning),
            volume_fade: Tweener::new(Fixed { raw: 0 }),
            frames,
            commands,
        }
    }

    /// Whether the sound is finished for good: stopped and drained to
    /// silence.
    pub fn finished(&self) -> (r: bool)
        ensures
            r == (self.state is Stopped && resampler_silent(self.window)),
    {
        matches!(self.state, PlaybackState::Stopped) && self.window.outputting_silence()
    }

    /// The playback position in seconds: frames pulled over the source
    /// rate.
    pub fn position(&self) -> (r: Fixed)
        requires
            streaming_wf(self),
            self.pulled <= i64::MAX,
        ensures
            r.raw == sat64(
                crate::fixed::div_trunc(
                    self.pulled * (FIXED_SCALE as int),
                    self.sample_rate as int,
                ),
            ),
    {
        Fixed::from_ratio(self.pulled as i64, self.sample_rate as i64)
    }

    /// Begins fading the sound out toward a pause; a stopped sound stays
    /// stopped.
    pub fn pause(&mut self, tween: Tween)
        requires
            streaming_wf(old(self)),
        ensures
            *final (self) == streaming_apply_command(*old(self), Command::Pause(tween)),
            streaming_wf(final (self)),
    {
        if !matches!(self.state, PlaybackState::Stopped) {
            self.state = PlaybackState::Pausing;
            self.volume_fade.set(Fixed { raw: MIN_DECIBELS_RAW }, tween);
        }
    }

    /// Resumes the sound with a fade back to full volume; a stopped sound
    /// stays stopped.
    pub fn resume(&mut self, tween: Tween)
        requires
            streaming_wf(old(self)),
        ensures
            *final (self) == streaming_apply_command(*old(self), Command::Resume(tween)),
            streaming_wf(final (self)),
    {
        if !matches!(self.state, PlaybackState::Stopped) {
            self.state = PlaybackState::Playing;
            self.volume_fade.set(Fixed { raw: 0 }, tween);
        }
    }

    /// Begins fading the sound out toward a final stop; an already stopped
    /// sound stays stopped.
    pub fn stop(&mut self, tween: Tween)
        requires
            streaming_wf(old(self)),
        ensures
            *final (self) == streaming_apply_command(*old(self), Command::Stop(tween)),
            streaming_wf(final (self)),
    {
        if !matches!(self.state, PlaybackState::Stopped) {
            self.state = PlaybackState::Stopping;
            self.volume_fade.set(Fixed { raw: MIN_DECIBELS_RAW }, tween);
        }
    }

    /// Drains and applies queued commands, oldest first - at most the
    /// queue's capacity per block. Which commands the shared ring hands
    /// over cannot be pinned to either end's value, so the contract holds
    /// for some received sequence.
    pub fn on_start_processing(&mut self)
        requires
            streaming_wf(old(self)),
        ensures
            exists|cs: Seq<Command>|
                #[trigger] streaming_same_core(
                    final (self),
                    &streaming_apply_commands(*old(self), cs),
                ),
            streaming_wf(final (self)),
    {
        let ghost mut cs: Seq<Command> = Seq::empty();
        let mut budget: usize = 0;
        loop
            invariant
                streaming_wf(self),
                budget <= STREAMING_COMMAND_CAPACITY,
                streaming_same_core(self, &streaming_apply_commands(*old(self), cs)),
            ensures
                streaming_wf(self),
                streaming_same_core(self, &streaming_apply_commands(*old(self), cs)),
            decreases STREAMING_COMMAND_CAPACITY - budget,
        {
            if budget >= STREAMING_COMMAND_CAPACITY {
                break ;
            }
            let popped = pop_command(&mut self.commands);
            match popped {
                None => {
                    break ;
                },
                Some(cmd) => {
                    let ghost pre = *self;
                    match cmd {
                        Command::SetVolume(v, t) => self.volume.set(v, t),
                        Command::SetPanning(p, t) => self.panning.set(p, t),
                        Command::SetPlaybackRate(r, t) => self.playback_rate.set(r, t),
                        Command::Pause(t) => self.pause(t),
                        Command::Resume(t) => self.resume(t),
                        Command::Stop(t) => self.stop(t),
                        _ => {},
                    }
                    proof {
                        lemma_streaming_apply_command_core(
                            pre,
                            streaming_apply_commands(*old(self), cs),
                            cmd,
                        );
                        lemma_streaming_apply_commands_snoc(*old(self), cs, cmd);
                        cs = cs.push(cmd);
                    }
                },
            }
            budget = budget + 1;
        }
        proof {
            assert(streaming_same_core(self, &streaming_apply_commands(*old(self), cs)));
        }
    }

    /// Reacts to an observed clock tick on every parameter tween.
    pub fn on_clock_tick(&mut self, time: ClockTime)
        requires
            streaming_wf(old(self)),
        ensures
            streaming_wf(final (self)),
            final (self).volume == tweener_after_tick(old(self).volume, time),
            final (self).playback_rate == tweener_after_tick(old(self).playback_rate, time),
            final (self).panning == tweener_after_tick(old(self).panning, time),
            final (self).volume_fade == tweener_after_tick(old(self).volume_fade, time),
            final (self).state == old(self).state,
            final (self).window == old(self).window,
    {
        self.volume.on_clock_tick(time);
        self.playback_rate.on_clock_tick(time);
        self.panning.on_clock_tick(time);
        self.volume_fade.on_clock_tick(time);
    }

    /// Renders one output frame and advances by `dt` seconds. The output is
    /// the interpolated window before this frame's pulls; whole frames of
    /// accumulated position pull decoded frames from the ring - silence on
    /// an underrun - and a completed fade settles the lifecycle state. A
    /// stopped sound's finished flag, once its window has drained, never
    /// clears.
    pub fn process(&mut self, dt: Fixed) -> (out: Frame)
        requires
            dt.raw >= 0,
            streaming_wf(old(self)),
        ensures
            streaming_wf(final (self)),
            out == resampler_out(old(self).window, old(self).frac.raw as int),
            final (self).volume_fade == tweener_after_update(
                old(self).volume_fade,
                dt.raw as int,
            ),
            final (self).volume == tweener_after_update(old(self).volume, dt.raw as int),
            final (self).playback_rate == tweener_after_update(
                old(self).playback_rate,
                dt.raw as int,
            ),
            final (self).panning == tweener_after_update(old(self).panning, dt.raw as int),
            final (self).state == streaming_settled_state(
                old(self).state,
                tweener_update_finishes(old(self).volume_fade, dt.raw as int),
            ),
            final (self).pulled >= old(self).pulled,
            final (self).sample_rate == old(self).sample_rate,
            old(self).state is Stopped ==> final (self).state is Stopped,
            old(self).state is Stopped && resampler_silent(old(self).window) ==> resampler_silent(
                final (self).window,
            ),
    {
        let fade_done = self.volume_fade.update(dt);
        if fade_done {
            match self.state {
                PlaybackState::Pausing => {
                    self.state = PlaybackState::Paused;
                },
                PlaybackState::Stopping => {
                    self.state = PlaybackState::Stopped;
                },
                _ => {},
            }
        }
        self.volume.update(dt);
        self.playback_rate.update(dt);
        self.panning.update(dt);
        let out = self.window.get(self.frac);
        let rate_fx = Fixed { raw: sat_to_i64((self.sample_rate as i128) * (FIXED_SCALE as i128)) };
        let step = self.playback_rate.get().fabs().fmul(rate_fx).fmul(dt);
        self.frac = self.frac.fadd(step);
        let ghost mid = *self;
        while self.frac.raw >= FIXED_SCALE
            invariant
                streaming_wf_except_frac(self),
                self.state == mid.state,
                self.volume == mid.volume,
                self.playback_rate == mid.playback_rate,
                self.panning == mid.panning,
                self.volume_fade == mid.volume_fade,
                self.sample_rate == mid.sample_rate,
                self.pulled >= mid.pulled,
                old(self).state is Stopped ==> self.state is Stopped,
                old(self).state is Stopped && resampler_silent(old(self).window)
                    ==> resampler_silent(self.window),
            decreases self.frac.raw,
        {
            self.frac = Fixed { raw: self.frac.raw - FIXED_SCALE };
            self.pull_next();
        }
        out
    }

    /// Pulls one frame into the window: while the sound advances, either
    /// some decoded frame - scaled by the fade, volume and panning - or
    /// silence on an underrun; silence otherwise. Which of the two, and
    /// which frame, depend on the ring the decoder fills, so the contract
    /// holds for every outcome.
    fn pull_next(&mut self)
        requires
            streaming_wf_except_frac(old(self)),
        ensures
            streaming_wf_except_frac(final (self)),
            final (self).frac == old(self).frac,
            final (self).state == old(self).state,
            final (self).sample_rate == old(self).sample_rate,
            final (self).volume == old(self).volume,
            final (self).playback_rate == old(self).playback_rate,
            final (self).panning == old(self).panning,
            final (self).volume_fade == old(self).volume_fade,
            final (self).pulled >= old(self).pulled,
            final (self).window.f0 == old(self).window.f1,
            final (self).window.f1 == old(self).window.f2,
            final (self).window.f2 == old(self).window.f3,
            final (self).window.f3.frame == (Frame {
                left: Fixed { raw: 0 },
                right: Fixed { raw: 0 },
            }) || (exists|f: Frame|
                #[trigger] streaming_pushed_frame(old(self), f) == final (self).window.f3.frame),
            !(old(self).state is Playing || old(self).state is Pausing || old(
                self,
            ).state is Stopping) ==> final (self).window.f3.frame == (Frame {
                left: Fixed { raw: 0 },
                right: Fixed { raw: 0 },
            }) && final (self).pulled == old(self).pulled,
            old(self).state is Stopped && resampler_silent(old(self).window) ==> resampler_silent(
                final (self).window,
            ),
    {
        let advancing = matches!(
            self.state,
            PlaybackState::Playing | PlaybackState::Pausing | PlaybackState::Stopping
        );
        if advancing {
            let pulled = pop_frame(&mut self.frames);
            match pulled {
                Some(src) => {
                    let fade_amp = crate::volume::db_to_amplitude(self.volume_fade.get());
                    let vol_amp = self.volume.get().as_amplitude();
                    let pan = self.panning.get();
                    let frame = src.scaled(fade_amp).scaled(vol_amp).panned(pan);
                    let idx = if self.pulled <= i64::MAX as u64 {
                        self.pulled as i64
                    } else {
                        i64::MAX
                    };
                    self.window.push(RecentFrame { frame, index: idx });
                    self.pulled = if self.pulled < u64::MAX {
                        self.pulled + 1
                    } else {
                        self.pulled
                    };
                    proof {
                        assert(streaming_pushed_frame(old(self), src) == self.window.f3.frame);
                    }
                },
                None => {
                    let idx = self.window.f3.index;
                    self.window.push(RecentFrame { frame: Frame::zero(), index: idx });
                },
            }
        } else {
            let idx = self.window.f3.index;
            self.window.push(RecentFrame { frame: Frame::zero(), index: idx });
        }
    }
}

/// Well-formedness of everything but the fractional position's upper bound.
pub open spec fn streaming_wf_except_frac(s: &StreamingSound) -> bool {
    &&& s.sample_rate >= 1
    &&& 0 <= s.frac.raw
    &&& tweener_wf(s.volume)
    &&& tweener_wf(s.playback_rate)
    &&& tweener_wf(s.panning)
    &&& tweener_wf(s.volume_fade)
}

impl StreamingSoundHandle {
    /// Sends a command, failing when the queue is full.
    fn send(&mut self, cmd: Command) -> (r: Result<(), CommandQueueFull>)
        ensures
            producer_capacity(final (self).command_producer) == producer_capacity(
                old(self).command_producer,
            ),
    {
        match push_command(&mut self.command_producer, cmd) {
            Ok(_) => Ok(()),
            Err(_) => Err(CommandQueueFull),
        }
    }

    /// Asks the sound to fade out and pause.
    pub fn pause(&mut self, tween: Tween) -> (r: Result<(), CommandQueueFull>)
        ensures
            producer_capacity(final (self).command_producer) == producer_capacity(
                old(self).command_producer,
            ),
    {
        self.send(Command::Pause(tween))
    }

    /// Asks the sound to resume with a fade back in.
    pub fn resume(&mut self, tween: Tween) -> (r: Result<(), CommandQueueFull>)
        ensures
            producer_capacity(final (self).command_producer) == producer_capacity(
                old(self).command_producer,
            ),
    {
        self.send(Command::Resume(tween))
    }

    /// Asks the sound to fade out and stop for good.
    pub fn stop(&mut self, tween: Tween) -> (r: Result<(), CommandQueueFull>)
        ensures
            producer_capacity(final (self).command_producer) == producer_capacity(
                old(self).command_producer,
            ),
    {
        self.send(Command::Stop(tween))
    }
}

/// Builds the streaming sound's command channel, handing the producing end
/// to the handle.
pub fn streaming_command_channel() -> (r: (Producer<Command>, Consumer<Command>))
    ensures
        producer_capacity(r.0) == STREAMING_COMMAND_CAPACITY,
{
    command_channel(STREAMING_COMMAND_CAPACITY)
}

} // verus!
