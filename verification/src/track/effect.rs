//! Per-sample transforms that a track folds its signal through.
//!
//! Each effect is one of a small set of built-ins: a volume control, a
//! panning control, or a distortion. An effect owns a command queue; its
//! control-side handle holds the matching producer. Effects advance their
//! parameter tweens each frame and react to clock ticks like every other
//! clock-aware consumer.

use vstd::prelude::*;

use ringbuf::{Consumer, Producer};

use crate::channel::{command_channel, pop_command, producer_capacity, push_command};
use crate::command::Command;
use crate::error::CommandQueueFull;
use crate::fixed::{fdiv_raw, sat64, Fixed, FIXED_SCALE};
use crate::frame::{clamp_unit_raw, frame_panned_spec, frame_plus_spec, frame_scaled_spec, Frame};
use crate::tween::{ClockTime, Tween};
use crate::tweener::{
    tweener_after_set,
    tweener_after_tick,
    tweener_after_update,
    tweener_wf,
    Tweener,
};
use crate::volume::{volume_amp_raw, Volume};

verus! {

/// How many commands an effect's queue can hold.
pub const EFFECT_COMMAND_CAPACITY: usize = 8;

/// The flavor of a distortion effect.
#[derive(Clone, Copy, Debug, PartialEq, Eq, Structural)]
pub enum DistortionKind {
    /// The signal is clamped hard into [-1, 1].
    HardClip,
    /// The signal is bent smoothly toward [-1, 1] as `x / (1 + |x|)`.
    SoftClip,
}

/// An effect's animated state: one of the built-in transforms.
pub enum EffectState {
    /// Scales the signal by an animated volume.
    VolumeControl { volume: Tweener<Volume> },
    /// Pans the signal by an animated panning value.
    PanningControl { panning: Tweener<Fixed> },
    /// Overdrives the signal and blends it with the dry input.
    Distortion { kind: DistortionKind, drive: Tweener<Volume>, mix: Tweener<Fixed> },
}

/// One effect in a track's chain: its state and its command queue.
pub struct TrackEffect {
    /// The transform and its animated parameters.
    pub state: EffectState,
    /// The queue of commands from the effect's handle.
    pub commands: Consumer<Command>,
}

/// Well-formedness of an effect's tweens.
pub open spec fn effect_wf(e: &EffectState) -> bool {
    match e {
        EffectState::VolumeControl { volume } => tweener_wf(*volume),
        EffectState::PanningControl { panning } => tweener_wf(*panning),
        EffectState::Distortion { drive, mix, .. } => tweener_wf(*drive) && tweener_wf(*mix),
    }
}

/// One channel clipped by a distortion flavor, in raw fixed point.
pub open spec fn clip_raw(kind: DistortionKind, x: int) -> int {
    match kind {
        DistortionKind::HardClip => {
            if x < -FIXED_SCALE {
                -FIXED_SCALE as int
            } else if x > FIXED_SCALE {
                FIXED_SCALE as int
            } else {
                x
            }
        },
        DistortionKind::SoftClip => {
            let m = if x < 0 {
                -x
            } else {
                x
            };
            fdiv_raw(x, sat64((FIXED_SCALE as int) + sat64(m)))
        },
    }
}

/// A whole frame clipped by a distortion flavor.
pub open spec fn clip_frame_spec(kind: DistortionKind, f: Frame) -> Frame {
    Frame {
        left: Fixed { raw: clip_raw(kind, f.left.raw as int) as i64 },
        right: Fixed { raw: clip_raw(kind, f.right.raw as int) as i64 },
    }
}

/// An effect's state after its per-frame parameter updates.
pub open spec fn effect_after_update(e: EffectState, dt: int) -> EffectState {
    match e {
        EffectState::VolumeControl { volume } => EffectState::VolumeControl {
            volume: tweener_after_update(volume, dt),
        },
        EffectState::PanningControl { panning } => EffectState::PanningControl {
            panning: tweener_after_update(panning, dt),
        },
        EffectState::Distortion { kind, drive, mix } => EffectState::Distortion {
            kind,
            drive: tweener_after_update(drive, dt),
            mix: tweener_after_update(mix, dt),
        },
    }
}

/// The frame an effect outputs, given its already-updated state. A volume
/// control scales, a panning control pans, and a distortion drives the
/// signal, clips it, and blends wet with dry by its mix (clamped into
/// [0, 1]).
pub open spec fn effect_output(e: EffectState, input: Frame) -> Frame {
    match e {
        EffectState::VolumeControl { volume } => frame_scaled_spec(
            input,
            volume_amp_raw(volume.value),
        ),
        EffectState::PanningControl { panning } => frame_panned_spec(
            input,
            panning.value.raw as int,
        ),
        EffectState::Distortion { kind, drive, mix } => {
            let driven = frame_scaled_spec(input, volume_amp_raw(drive.value));
            let wet = clip_frame_spec(kind, driven);
            let m = clamp_unit_raw(mix.value.raw as int);
            frame_plus_spec(
                frame_scaled_spec(wet, m),
                frame_scaled_spec(input, (FIXED_SCALE as int) - m),
            )
        },
    }
}

/// An effect's state after one control command.
pub open spec fn effect_apply_command(e: EffectState, c: Command) -> EffectState {
    match (e, c) {
        (EffectState::VolumeControl { volume }, Command::SetVolume(v, t)) => {
            EffectState::VolumeControl { volume: tweener_after_set(volume, v, t) }
        },
        (EffectState::PanningControl { panning }, Command::SetPanning(p, t)) => {
            EffectState::PanningControl { panning: tweener_after_set(panning, p, t) }
        },
        (EffectState::Distortion { kind: _, drive, mix }, Command::SetDistortionKind(k)) => {
            EffectState::Distortion { kind: k, drive, mix }
        },
        (EffectState::Distortion { kind, drive, mix }, Command::SetDrive(v, t)) => {
            EffectState::Distortion { kind, drive: tweener_after_set(drive, v, t), mix }
        },
        (EffectState::Distortion { kind, drive, mix }, Command::SetMix(m, t)) => {
            EffectState::Distortion { kind, drive, mix: tweener_after_set(mix, m, t) }
        },
        (other, _) => other,
    }
}

/// An effect's state after a whole queue of commands, oldest first.
pub open spec fn effect_apply_commands(e: EffectState, cmds: Seq<Command>) -> EffectState
    decreases cmds.len(),
{
    if cmds.len() == 0 {
        e
    } else {
        effect_apply_commands(effect_apply_command(e, cmds[0]), cmds.drop_first())
    }
}

/// Appending one command to a drain applies it after the rest.
proof fn lemma_effect_apply_commands_snoc(e: EffectState, cs: Seq<Command>, c: Command)
    ensures
        effect_apply_commands(e, cs.push(c)) == effect_apply_command(
            effect_apply_commands(e, cs),
            c,
        ),
    decreases cs.len(),
{
    let v = e;
    let pushed = cs.push(c);
    if cs.len() == 0 {
        assert(pushed[0] == c);
        assert(pushed.drop_first() =~= Seq::<Command>::empty());
        assert(effect_apply_commands(v, pushed) == effect_apply_commands(effect_apply_command(v, c), pushed.drop_first()));
        assert(effect_apply_commands(effect_apply_command(v, c), pushed.drop_first()) == effect_apply_command(v, c));
        assert(effect_apply_commands(v, cs) == v);
    } else {
        assert(pushed[0] == cs[0]);
        assert(pushed.drop_first() =~= cs.drop_first().push(c));
        lemma_effect_apply_commands_snoc(effect_apply_command(v, cs[0]), cs.drop_first(), c);
        assert(effect_apply_commands(v, pushed) == effect_apply_commands(effect_apply_command(v, cs[0]), cs.drop_first().push(c)));
        assert(effect_apply_commands(v, cs) == effect_apply_commands(effect_apply_command(v, cs[0]), cs.drop_first()));
    }
}

/// Whether `post` is `pre` with some sequence of received commands
/// applied, oldest first.
pub open spec fn effect_drained_from(pre: EffectState, post: EffectState) -> bool {
    exists|cs: Seq<Command>| #[trigger] effect_apply_commands(pre, cs) == post
}

/// An effect's state after a clock tick reaches its tweens.
pub open spec fn effect_after_tick(e: EffectState, time: ClockTime) -> EffectState {
    match e {
        EffectState::VolumeControl { volume } => EffectState::VolumeControl {
            volume: tweener_after_tick(volume, time),
        },
        EffectState::PanningControl { panning } => EffectState::PanningControl {
            panning: tweener_after_tick(panning, time),
        },
        EffectState::Distortion { kind, drive, mix } => EffectState::Distortion {
            kind,
            drive: tweener_after_tick(drive, time),
            mix: tweener_after_tick(mix, time),
        },
    }
}

/// One channel clipped by a distortion flavor.
fn clip_channel(kind: DistortionKind, x: Fixed) -> (r: Fixed)
    ensures
        r.raw == clip_raw(kind, x.raw as int),
{
    match kind {
        DistortionKind::HardClip => {
            if x.raw < -FIXED_SCALE {
                Fixed { raw: -FIXED_SCALE }
            } else if x.raw > FIXED_SCALE {
                Fixed { raw: FIXED_SCALE }
            } else {
                x
            }
        },
        DistortionKind::SoftClip => {
            let m = x.fabs();
            x.fdiv(Fixed { raw: FIXED_SCALE }.fadd(m))
        },
    }
}

impl TrackEffect {
    /// Applies the per-frame parameter updates and transforms one frame.
    pub fn process(&mut self, input: Frame, dt: Fixed) -> (out: Frame)
        requires
            dt.raw >= 0,
            effect_wf(&old(self).state),
        ensures
            final (self).state == effect_after_update(old(self).state, dt.raw as int),
            final (self).commands == old(self).commands,
            out == effect_output(final (self).state, input),
            effect_wf(&final (self).state),
    {
        let state = &mut self.state;
        match state {
            EffectState::VolumeControl { volume } => {
                volume.update(dt);
                input.scaled(volume.get().as_amplitude())
            },
            EffectState::PanningControl { panning } => {
                panning.update(dt);
                input.panned(panning.get())
            },
            EffectState::Distortion { kind, drive, mix } => {
                drive.update(dt);
                mix.update(dt);
                let driven = input.scaled(drive.get().as_amplitude());
                let wet = Frame {
                    left: clip_channel(*kind, driven.left),
                    right: clip_channel(*kind, driven.right),
                };
                let m = crate::frame::clamp_unit(mix.get());
                wet.scaled(m).plus(input.scaled(Fixed { raw: FIXED_SCALE - m.raw }))
            },
        }
    }

    /// Drains and applies queued commands, oldest first - at most the
    /// queue's capacity per block. Which commands the shared ring hands
    /// over cannot be pinned to either end's value, so the contract holds
    /// for some received sequence.
    pub fn on_start_processing(&mut self)
        requires
            effect_wf(&old(self).state),
        ensures
            effect_drained_from(old(self).state, final (self).state),
            effect_wf(&final (self).state),
    {
        let ghost mut cs: Seq<Command> = Seq::empty();
        let mut budget: usize = 0;
        loop
            invariant
                effect_wf(&self.state),
                budget <= EFFECT_COMMAND_CAPACITY,
                self.state == effect_apply_commands(old(self).state, cs),
            ensures
                effect_wf(&self.state),
                self.state == effect_apply_commands(old(self).state, cs),
            decreases EFFECT_COMMAND_CAPACITY - budget,
        {
            if budget >= EFFECT_COMMAND_CAPACITY {
                break ;
            }
            let popped = pop_command(&mut self.commands);
            match popped {
                None => {
                    break ;
                },
                Some(cmd) => {
                    let ghost pre = self.state;
                    let state = &mut self.state;
                    match (state, cmd) {
                        (EffectState::VolumeControl { volume }, Command::SetVolume(v, t)) => {
                            volume.set(v, t);
                        },
                        (EffectState::PanningControl { panning }, Command::SetPanning(p, t)) => {
                            panning.set(p, t);
                        },
                        (
                            EffectState::Distortion { kind, .. },
                            Command::SetDistortionKind(k),
                        ) => {
                            *kind = k;
                        },
                        (EffectState::Distortion { drive, .. }, Command::SetDrive(v, t)) => {
                            drive.set(v, t);
                        },
                        (EffectState::Distortion { mix, .. }, Command::SetMix(m, t)) => {
                            mix.set(m, t);
                        },
                        _ => {},
                    }
                    proof {
                        assert(self.state == effect_apply_command(pre, cmd));
                        lemma_effect_apply_commands_snoc(old(self).state, cs, cmd);
                        cs = cs.push(cmd);
                    }
                },
            }
            budget = budget + 1;
        }
        proof {
            assert(effect_apply_commands(old(self).state, cs) == self.state);
        }
    }

    /// Reacts to an observed clock tick.
    pub fn on_clock_tick(&mut self, time: ClockTime)
        requires
            effect_wf(&old(self).state),
        ensures
            final (self).state == effect_after_tick(old(self).state, time),
            final (self).commands == old(self).commands,
            effect_wf(&final (self).state),
    {
        let state = &mut self.state;
        match state {
            EffectState::VolumeControl { volume } => {
                volume.on_clock_tick(time);
            },
            EffectState::PanningControl { panning } => {
                panning.on_clock_tick(time);
            },
            EffectState::Distortion { drive, mix, .. } => {
                drive.on_clock_tick(time);
                mix.on_clock_tick(time);
            },
        }
    }
}

/// Configures a volume control effect.
#[derive(Clone, Copy, Debug)]
pub struct VolumeControlBuilder(pub Volume);

/// Controls a volume control effect.
pub struct VolumeControlHandle {
    /// The producing end of the effect's command queue.
    pub command_producer: Producer<Command>,
}

impl VolumeControlBuilder {
    /// Creates a new [`VolumeControlBuilder`].
    pub fn new(volume: Volume) -> (r: VolumeControlBuilder)
        ensures
            r.0 == volume,
    {
        VolumeControlBuilder(volume)
    }

    /// Builds the effect and the handle that controls it.
    pub fn build(self) -> (r: (TrackEffect, VolumeControlHandle))
        ensures
            r.0.state == (EffectState::VolumeControl {
                volume: Tweener { value: self.0, state: crate::tweener::TweenerState::Idle },
            }),
            effect_wf(&r.0.state),
            producer_capacity(r.1.command_producer) == EFFECT_COMMAND_CAPACITY,
    {
        let (producer, consumer) = command_channel(EFFECT_COMMAND_CAPACITY);
        (
            TrackEffect {
                state: EffectState::VolumeControl { volume: Tweener::new(self.0) },
                commands: consumer,
            },
            VolumeControlHandle { command_producer: producer },
        )
    }
}

impl Default for VolumeControlBuilder {
    /// A volume control resting at full volume.
    fn default() -> (r: VolumeControlBuilder)
        ensures
            r.0 == Volume::Amplitude(Fixed { raw: FIXED_SCALE }),
    {
        VolumeControlBuilder(Volume::Amplitude(Fixed { raw: FIXED_SCALE }))
    }
}

impl VolumeControlHandle {
    /// Asks the effect to change volume.
    pub fn set_volume(&mut self, volume: Volume, tween: Tween) -> (r: Result<(), CommandQueueFull>)
        ensures
            producer_capacity(final (self).command_producer) == producer_capacity(
                old(self).command_producer,
            ),
    {
        match push_command(&mut self.command_producer, Command::SetVolume(volume, tween)) {
            Ok(_) => Ok(()),
            Err(_) => Err(CommandQueueFull),
        }
    }
}

/// Configures a panning control effect.
#[derive(Clone, Copy, Debug)]
pub struct PanningControlBuilder(pub Fixed);

/// Controls a panning control effect.
pub struct PanningControlHandle {
    /// The producing end of the effect's command queue.
    pub command_producer: Producer<Command>,
}

impl PanningControlBuilder {
    /// Creates a new [`PanningControlBuilder`].
    pub fn new(panning: Fixed) -> (r: PanningControlBuilder)
        ensures
            r.0 == panning,
    {
        PanningControlBuilder(panning)
    }

    /// Builds the effect and the handle that controls it.
    pub fn build(self) -> (r: (TrackEffect, PanningControlHandle))
        ensures
            r.0.state == (EffectState::PanningControl {
                panning: Tweener { value: self.0, state: crate::tweener::TweenerState::Idle },
            }),
            effect_wf(&r.0.state),
            producer_capacity(r.1.command_producer) == EFFECT_COMMAND_CAPACITY,
    {
        let (producer, consumer) = command_channel(EFFECT_COMMAND_CAPACITY);
        (
            TrackEffect {
                state: EffectState::PanningControl { panning: Tweener::new(self.0) },
                commands: consumer,
            },
            PanningControlHandle { command_producer: producer },
        )
    }
}

impl Default for PanningControlBuilder {
    /// A panning control resting at the center.
    fn default() -> (r: PanningControlBuilder)
        ensures
            r.0.raw == FIXED_SCALE / 2,
    {
        PanningControlBuilder(Fixed { raw: FIXED_SCALE / 2 })
    }
}

impl PanningControlHandle {
    /// Asks the effect to change panning.
    pub fn set_panning(&mut self, panning: Fixed, tween: Tween) -> (r: Result<(),
        CommandQueueFull>)
        ensures
            producer_capacity(final (self).command_producer) == producer_capacity(
                old(self).command_producer,
            ),
    {
        match push_command(&mut self.command_producer, Command::SetPanning(panning, tween)) {
            Ok(_) => Ok(()),
            Err(_) => Err(CommandQueueFull),
        }
    }
}

/// Configures a distortion effect.
#[derive(Clone, Copy, Debug)]
pub struct DistortionBuilder {
    /// The flavor of clipping.
    pub kind: DistortionKind,
    /// How hard the signal is driven before clipping.
    pub drive: Volume,
    /// How much of the wet signal is heard, 0 (dry only) to 1 (wet only).
    pub mix: Fixed,
}

/// Controls a distortion effect.
pub struct DistortionHandle {
    /// The producing end of the effect's command queue.
    pub command_producer: Producer<Command>,
}

impl DistortionBuilder {
    /// Creates a new [`DistortionBuilder`] with hard clipping, unit drive
    /// and a fully wet mix.
    pub fn new() -> (r: DistortionBuilder)
        ensures
            r.kind is HardClip,
            r.drive == Volume::Amplitude(Fixed { raw: FIXED_SCALE }),
            r.mix.raw == FIXED_SCALE,
    {
        DistortionBuilder {
            kind: DistortionKind::HardClip,
            drive: Volume::Amplitude(Fixed { raw: FIXED_SCALE }),
            mix: Fixed { raw: FIXED_SCALE },
        }
    }

    /// Builds the effect and the handle that controls it.
    pub fn build(self) -> (r: (TrackEffect, DistortionHandle))
        ensures
            r.0.state == (EffectState::Distortion {
                kind: self.kind,
                drive: Tweener { value: self.drive, state: crate::tweener::TweenerState::Idle },
                mix: Tweener { value: self.mix, state: crate::tweener::TweenerState::Idle },
            }),
            effect_wf(&r.0.state),
            producer_capacity(r.1.command_producer) == EFFECT_COMMAND_CAPACITY,
    {
        let (producer, consumer) = command_channel(EFFECT_COMMAND_CAPACITY);
        (
            TrackEffect {
                state: EffectState::Distortion {
                    kind: self.kind,
                    drive: Tweener::new(self.drive),
                    mix: Tweener::new(self.mix),
                },
                commands: consumer,
            },
            DistortionHandle { command_producer: producer },
        )
    }
}

impl DistortionHandle {
    /// Sets the kind of distortion to use.
    pub fn set_kind(&mut self, kind: DistortionKind) -> (r: Result<(), CommandQueueFull>)
        ensures
            producer_capacity(final (self).command_producer) == producer_capacity(
                old(self).command_producer,
            ),
    {
        match push_command(&mut self.command_producer, Command::SetDistortionKind(kind)) {
            Ok(_) => Ok(()),
            Err(_) => Err(CommandQueueFull),
        }
    }

    /// Sets how much distortion should be applied.
    pub fn set_drive(&mut self, drive: Volume, tween: Tween) -> (r: Result<(), CommandQueueFull>)
        ensures
            producer_capacity(final (self).command_producer) == producer_capacity(
                old(self).command_producer,
            ),
    {
        match push_command(&mut self.command_producer, Command::SetDrive(drive, tween)) {
            Ok(_) => Ok(()),
            Err(_) => Err(CommandQueueFull),
        }
    }

    /// Sets how much dry (unprocessed) signal should be blended with the wet
    /// (processed) signal. 0 means only the dry signal will be heard, 1
    /// means only the wet signal will be heard.
    pub fn set_mix(&mut self, mix: Fixed, tween: Tween) -> (r: Result<(), CommandQueueFull>)
        ensures
            producer_capacity(final (self).command_producer) == producer_capacity(
                old(self).command_producer,
            ),
    {
        match push_command(&mut self.command_producer, Command::SetMix(mix, tween)) {
            Ok(_) => Ok(()),
            Err(_) => Err(CommandQueueFull),
        }
    }
}

} // verus!
