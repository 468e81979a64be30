//! One mixer track: an input accumulator, an effect chain, an animated
//! volume, and routes that send its output onward.

use vstd::prelude::*;

use ringbuf::{Consumer, Producer};

use crate::channel::{command_channel, pop_command, producer_capacity, push_command};
use crate::command::Command;
use crate::error::CommandQueueFull;
use crate::fixed::Fixed;
use crate::frame::{frame_scaled_spec, Frame};
use crate::track::effect::{
    effect_after_tick,
    effect_after_update,
    effect_drained_from,
    effect_output,
    effect_wf,
    TrackEffect,
};
use crate::track::ids::{TrackId, TrackShared};
use crate::tween::{ClockTime, Tween};
use crate::tweener::{
    tweener_after_set,
    tweener_after_tick,
    tweener_after_update,
    tweener_wf,
    Tweener,
};
use crate::volume::{volume_amp_raw, Volume};

verus! {

/// How many commands a track's queue can hold.
pub const TRACK_COMMAND_CAPACITY: usize = 8;

/// One send from a track to another track.
pub struct TrackRoute {
    /// The destination track.
    pub to: TrackId,
    /// The animated volume the send is scaled by.
    pub volume: Tweener<Volume>,
}

/// Configures the routes of a track being built: destination tracks and the
/// volumes their sends start at.
pub struct TrackRoutes {
    /// The destinations and starting volumes, in send order.
    pub routes: Vec<(TrackId, Volume)>,
}

impl TrackRoutes {
    /// The default routing: everything to the main track at full volume.
    pub fn new() -> (r: TrackRoutes)
        ensures
            r.routes@.len() == 1,
            r.routes@[0].0 is Main,
            r.routes@[0].1 == Volume::Amplitude(
                Fixed { raw: crate::fixed::FIXED_SCALE },
            ),
    {
        let mut routes: Vec<(TrackId, Volume)> = Vec::new();
        routes.push(
            (TrackId::Main, Volume::Amplitude(Fixed { raw: crate::fixed::FIXED_SCALE })),
        );
        TrackRoutes { routes }
    }

    /// An empty route set.
    pub fn empty() -> (r: TrackRoutes)
        ensures
            r.routes@.len() == 0,
    {
        TrackRoutes { routes: Vec::new() }
    }

    /// The same routes with one more send appended.
    pub fn with_route(self, to: TrackId, volume: Volume) -> (r: TrackRoutes)
        ensures
            r.routes@ == self.routes@.push((to, volume)),
    {
        let mut routes = self.routes;
        routes.push((to, volume));
        TrackRoutes { routes }
    }
}

/// Configures a mixer track.
pub struct TrackBuilder {
    /// The track's starting volume.
    pub volume: Volume,
    /// Where the track's output is sent.
    pub routes: TrackRoutes,
    /// The effect chain, in processing order.
    pub effects: Vec<TrackEffect>,
}

impl TrackBuilder {
    /// A track at full volume, routed to the main track, with no effects.
    pub fn new() -> (r: TrackBuilder)
        ensures
            r.volume == Volume::Amplitude(Fixed { raw: crate::fixed::FIXED_SCALE }),
            r.routes.routes@.len() == 1,
            r.routes.routes@[0].0 is Main,
            r.effects@.len() == 0,
    {
        TrackBuilder {
            volume: Volume::Amplitude(Fixed { raw: crate::fixed::FIXED_SCALE }),
            routes: TrackRoutes::new(),
            effects: Vec::new(),
        }
    }

    /// The same builder with a different starting volume.
    pub fn volume(self, volume: Volume) -> (r: TrackBuilder)
        ensures
            r.volume == volume,
            r.routes == self.routes,
            r.effects == self.effects,
    {
        TrackBuilder { volume, ..self }
    }

    /// The same builder with different routes.
    pub fn routes(self, routes: TrackRoutes) -> (r: TrackBuilder)
        ensures
            r.routes == routes,
            r.volume == self.volume,
            r.effects == self.effects,
    {
        TrackBuilder { routes, ..self }
    }

    /// The same builder with one more effect appended to the chain.
    pub fn with_effect(self, effect: TrackEffect) -> (r: TrackBuilder)
        ensures
            r.effects@ == self.effects@.push(effect),
            r.volume == self.volume,
            r.routes == self.routes,
    {
        let mut effects = self.effects;
        effects.push(effect);
        TrackBuilder { volume: self.volume, routes: self.routes, effects }
    }
}

/// A mixer track on the audio side.
pub struct Track {
    /// The lifecycle mark the control side reads and sets.
    pub shared: TrackShared,
    /// The track's animated volume.
    pub volume: Tweener<Volume>,
    /// The sends to other tracks, in order.
    pub routes: Vec<TrackRoute>,
    /// The effect chain, in processing order.
    pub effects: Vec<TrackEffect>,
    /// The input accumulated since the last frame.
    pub input: Frame,
    /// The queue of commands from the track's handle.
    pub commands: Consumer<Command>,
}

/// The control side of a track: pushes commands to the audio-side track.
pub struct TrackHandle {
    /// The track this handle addresses.
    pub id: TrackId,
    /// The producing end of the track's command queue.
    pub command_producer: Producer<Command>,
}

/// Well-formedness of a track: every tween in it is well formed.
pub open spec fn track_wf(t: &Track) -> bool {
    &&& tweener_wf(t.volume)
    &&& forall|i: int| 0 <= i < t.routes@.len() ==> tweener_wf((#[trigger] t.routes@[i]).volume)
    &&& forall|i: int| 0 <= i < t.effects@.len() ==> effect_wf(&(#[trigger] t.effects@[i]).state)
}

/// The effect chain from position `i` on, run over an input frame: each
/// effect updates its parameters and transforms the frame in turn.
pub open spec fn effects_run_from(
    effs: Seq<TrackEffect>,
    i: int,
    input: Frame,
    dt: int,
) -> (Seq<TrackEffect>, Frame)
    decreases effs.len() - i,
        when 0 <= i <= effs.len()
{
    if i == effs.len() {
        (effs, input)
    } else {
        let e2 = TrackEffect {
            state: effect_after_update(effs[i].state, dt),
            commands: effs[i].commands,
        };
        effects_run_from(effs.update(i, e2), i + 1, effect_output(e2.state, input), dt)
    }
}

/// The routes with their volume tweens advanced by one frame.
pub open spec fn routes_updated(routes: Seq<TrackRoute>, dt: int) -> Seq<TrackRoute> {
    routes.map(
        |i: int, r: TrackRoute|
            TrackRoute { to: r.to, volume: tweener_after_update(r.volume, dt) },
    )
}

/// The same track with a different input accumulator.
pub open spec fn with_input(t: Track, input: Frame) -> Track {
    Track { input, ..t }
}

/// Whether two tracks agree on everything but their input accumulator.
pub open spec fn track_eq_mod_input(a: &Track, b: &Track) -> bool {
    &&& a.shared == b.shared
    &&& a.volume == b.volume
    &&& a.routes == b.routes
    &&& a.effects == b.effects
    &&& a.commands == b.commands
}

/// What one processing frame does to a track, apart from clearing its
/// input: the volume and route tweens advance, the effect chain runs over
/// the track's input, and the output is the folded frame scaled by the
/// track's new volume.
pub open spec fn track_processed(pre: &Track, post: &Track, dt: int, out: Frame) -> bool {
    &&& post.volume == tweener_after_update(pre.volume, dt)
    &&& post.routes@ == routes_updated(pre.routes@, dt)
    &&& post.shared == pre.shared
    &&& post.commands == pre.commands
    &&& ({
        let folded = effects_run_from(pre.effects@, 0, pre.input, dt);
        post.effects@ == folded.0 && out == frame_scaled_spec(
            folded.1,
            volume_amp_raw(post.volume.value),
        )
    })
}

/// What a clock tick does to a track: it reaches the volume tween, every
/// route tween and every effect; everything else stays put.
pub open spec fn track_ticked(pre: &Track, post: &Track, time: ClockTime) -> bool {
    &&& post.volume == tweener_after_tick(pre.volume, time)
    &&& post.routes@.len() == pre.routes@.len()
    &&& forall|i: int|
        0 <= i < pre.routes@.len() ==> #[trigger] post.routes@[i] == (TrackRoute {
            to: pre.routes@[i].to,
            volume: tweener_after_tick(pre.routes@[i].volume, time),
        })
    &&& post.effects@.len() == pre.effects@.len()
    &&& forall|i: int|
        0 <= i < pre.effects@.len() ==> (#[trigger] post.effects@[i]).state == effect_after_tick(
            pre.effects@[i].state,
            time,
        )
    &&& post.input == pre.input
    &&& post.shared == pre.shared
    &&& post.commands == pre.commands
}

/// What draining a track's queues guarantees, whatever commands arrived:
/// the input, the route destinations and the effect chain's length are
/// untouched, the removal mark is never cleared, and each effect applied
/// some received sequence.
pub open spec fn track_drained(pre: &Track, post: &Track) -> bool {
    &&& post.input == pre.input
    &&& post.routes@.len() == pre.routes@.len()
    &&& forall|i: int|
        0 <= i < pre.routes@.len() ==> (#[trigger] post.routes@[i]).to == pre.routes@[i].to
    &&& pre.shared.is_marked() ==> post.shared.is_marked()
    &&& post.effects@.len() == pre.effects@.len()
    &&& forall|i: int|
        0 <= i < pre.effects@.len() ==> effect_drained_from(
            (#[trigger] pre.effects@[i]).state,
            post.effects@[i].state,
        )
}

/// Whether a track is the one a builder describes: resting tweens on the
/// builder's volumes, the builder's routes and effects, a silent input
/// accumulator, and no removal mark.
pub open spec fn track_from_builder(t: &Track, builder: &TrackBuilder) -> bool {
    &&& !t.shared.is_marked()
    &&& t.volume == (Tweener::<Volume> {
        value: builder.volume,
        state: crate::tweener::TweenerState::Idle,
    })
    &&& t.routes@.len() == builder.routes.routes@.len()
    &&& forall|i: int|
        0 <= i < t.routes@.len() ==> (#[trigger] t.routes@[i]).to == builder.routes.routes@[i].0
            && t.routes@[i].volume == (Tweener::<Volume> {
            value: builder.routes.routes@[i].1,
            state: crate::tweener::TweenerState::Idle,
        })
    &&& t.effects == builder.effects
    &&& t.input == (Frame { left: Fixed { raw: 0 }, right: Fixed { raw: 0 } })
}

impl Track {
    /// A fresh track from its builder, with a silent input accumulator.
    pub fn new(builder: TrackBuilder, commands: Consumer<Command>) -> (r: Track)
        ensures
            track_from_builder(&r, &builder),
            r.commands == commands,
            (forall|i: int|
                0 <= i < builder.effects@.len() ==> effect_wf(
                    &(#[trigger] builder.effects@[i]).state,
                )) ==> track_wf(&r),
    {
        let mut routes: Vec<TrackRoute> = Vec::new();
        let mut i: usize = 0;
        let n = builder.routes.routes.len();
        while i < n
            invariant
                i <= n,
                n == builder.routes.routes@.len(),
                routes@.len() == i,
                forall|j: int|
                    0 <= j < i ==> (#[trigger] routes@[j]).to == builder.routes.routes@[j].0
                        && routes@[j].volume == (Tweener::<Volume> {
                        value: builder.routes.routes@[j].1,
                        state: crate::tweener::TweenerState::Idle,
                    }),
            decreases n - i,
        {
            let (to, volume) = builder.routes.routes[i];
            routes.push(TrackRoute { to, volume: Tweener::new(volume) });
            i = i + 1;
        }
        Track {
            shared: TrackShared::new(),
            volume: Tweener::new(builder.volume),
            routes,
            effects: builder.effects,
            input: Frame::zero(),
            commands,
        }
    }

    /// Tells every effect the sample rate before processing begins; the
    /// built-in effects keep no per-rate state, so the track is unchanged.
    pub fn init_effects(&mut self, sample_rate: u32)
        ensures
            *final (self) == *old(self),
    {
        let _ = sample_rate;
    }

    /// Tells every effect the new sample rate; the built-in effects keep no
    /// per-rate state, so the track is unchanged.
    pub fn on_change_sample_rate(&mut self, sample_rate: u32)
        ensures
            *final (self) == *old(self),
    {
        let _ = sample_rate;
    }

    /// The track's lifecycle mark.
    pub fn shared(&self) -> (r: TrackShared)
        ensures
            r == self.shared,
    {
        self.shared
    }

    /// The track's routes, for rewiring.
    pub fn routes_mut(&mut self) -> (r: &mut Vec<TrackRoute>)
        ensures
            *r == old(self).routes,
            final (self).routes == *final (r),
            final (self).shared == old(self).shared,
            final (self).volume == old(self).volume,
            final (self).effects == old(self).effects,
            final (self).input == old(self).input,
            final (self).commands == old(self).commands,
    {
        &mut self.routes
    }

    /// Schedules a volume transition.
    pub fn set_volume(&mut self, volume: Volume, tween: Tween)
        requires
            track_wf(old(self)),
        ensures
            *final (self) == (Track {
                volume: tweener_after_set(old(self).volume, volume, tween),
                ..*old(self)
            }),
            track_wf(final (self)),
    {
        self.volume.set(volume, tween);
    }

    /// Schedules a volume transition on every route to `to`; routes to other
    /// destinations are untouched.
    pub fn set_route(&mut self, to: TrackId, volume: Volume, tween: Tween)
        requires
            track_wf(old(self)),
        ensures
            final (self).routes@.len() == old(self).routes@.len(),
            forall|i: int|
                0 <= i < old(self).routes@.len() ==> #[trigger] final (self).routes@[i] == (
                if old(self).routes@[i].to == to {
                    TrackRoute {
                        to,
                        volume: tweener_after_set(old(self).routes@[i].volume, volume, tween),
                    }
                } else {
                    old(self).routes@[i]
                }),
            final (self).shared == old(self).shared,
            final (self).volume == old(self).volume,
            final (self).effects == old(self).effects,
            final (self).input == old(self).input,
            final (self).commands == old(self).commands,
            track_wf(final (self)),
    {
        let n = self.routes.len();
        let mut i: usize = 0;
        while i < n
            invariant
                i <= n,
                n == self.routes@.len(),
                old(self).routes@.len() == n,
                track_wf(self),
                forall|j: int|
                    i <= j < n ==> #[trigger] self.routes@[j] == old(self).routes@[j],
                forall|j: int|
                    0 <= j < i ==> #[trigger] self.routes@[j] == (
                    if old(self).routes@[j].to == to {
                        TrackRoute {
                            to,
                            volume: tweener_after_set(old(self).routes@[j].volume, volume, tween),
                        }
                    } else {
                        old(self).routes@[j]
                    }),
                self.shared == old(self).shared,
                self.volume == old(self).volume,
                self.effects == old(self).effects,
                self.input == old(self).input,
                self.commands == old(self).commands,
            decreases n - i,
        {
            let matches_dest = self.routes[i].to == to;
            if matches_dest {
                let route = &mut self.routes[i];
                route.volume.set(volume, tween);
                proof {
                    assert(self.routes@[i as int].to == to);
                }
            }
            i = i + 1;
        }
    }

    /// Accumulates one frame of input for this processing frame.
    pub fn add_input(&mut self, input: Frame)
        ensures
            *final (self) == (Track {
                input: crate::frame::frame_plus_spec(old(self).input, input),
                ..*old(self)
            }),
    {
        self.input = self.input.plus(input);
    }

    /// Drains and applies the track's queued commands - at most the queue's
    /// capacity per block - then lets every effect drain its own. A command
    /// only schedules a tween, sets a route volume or sets the removal
    /// mark, so the input, the route destinations and the effect chain's
    /// length are untouched, and the removal mark is never cleared.
    pub fn on_start_processing(&mut self)
        requires
            track_wf(old(self)),
        ensures
            track_wf(final (self)),
            track_drained(old(self), final (self)),
    {
        let mut budget: usize = 0;
        loop
            invariant
                track_wf(self),
                budget <= TRACK_COMMAND_CAPACITY,
                self.input == old(self).input,
                self.routes@.len() == old(self).routes@.len(),
                forall|i: int|
                    0 <= i < old(self).routes@.len() ==> (#[trigger] self.routes@[i]).to == old(
                        self,
                    ).routes@[i].to,
                old(self).shared.is_marked() ==> self.shared.is_marked(),
                self.effects == old(self).effects,
            ensures
                track_wf(self),
                self.input == old(self).input,
                self.routes@.len() == old(self).routes@.len(),
                forall|i: int|
                    0 <= i < old(self).routes@.len() ==> (#[trigger] self.routes@[i]).to == old(
                        self,
                    ).routes@[i].to,
                old(self).shared.is_marked() ==> self.shared.is_marked(),
                self.effects == old(self).effects,
            decreases TRACK_COMMAND_CAPACITY - budget,
        {
            if budget >= TRACK_COMMAND_CAPACITY {
                break ;
            }
            let popped = pop_command(&mut self.commands);
            match popped {
                None => {
                    break ;
                },
                Some(cmd) => {
                    match cmd {
                        Command::SetVolume(v, t) => {
                            self.volume.set(v, t);
                        },
                        Command::SetRouteVolume(to, v, t) => {
                            self.set_route(to, v, t);
                        },
                        Command::MarkForRemoval => {
                            self.shared.mark_for_removal();
                        },
                        _ => {},
                    }
                },
            }
            budget = budget + 1;
        }
        let n = self.effects.len();
        let mut i: usize = 0;
        while i < n
            invariant
                i <= n,
                n == self.effects@.len(),
                track_wf(self),
                self.input == old(self).input,
                self.routes@.len() == old(self).routes@.len(),
                forall|j: int|
                    0 <= j < old(self).routes@.len() ==> (#[trigger] self.routes@[j]).to == old(
                        self,
                    ).routes@[j].to,
                old(self).shared.is_marked() ==> self.shared.is_marked(),
                self.effects@.len() == old(self).effects@.len(),
                forall|j: int|
                    i <= j < n ==> #[trigger] self.effects@[j] == old(self).effects@[j],
                forall|j: int|
                    0 <= j < i ==> effect_drained_from(
                        (#[trigger] old(self).effects@[j]).state,
                        self.effects@[j].state,
                    ),
            decreases n - i,
        {
            let effect = &mut self.effects[i];
            effect.on_start_processing();
            i = i + 1;
        }
    }

    /// Renders one frame: the volume and route tweens advance, the
    /// accumulated input runs through the effect chain, and the result is
    /// scaled by the track's volume. The input accumulator is cleared.
    pub fn process(&mut self, dt: Fixed) -> (out: Frame)
        requires
            dt.raw >= 0,
            track_wf(old(self)),
        ensures
            track_wf(final (self)),
            track_processed(old(self), final (self), dt.raw as int, out),
            final (self).input == (Frame { left: Fixed { raw: 0 }, right: Fixed { raw: 0 } }),
    {
        self.volume.update(dt);
        let rn = self.routes.len();
        let mut i: usize = 0;
        while i < rn
            invariant
                i <= rn,
                rn == self.routes@.len(),
                old(self).routes@.len() == rn,
                track_wf(self),
                dt.raw >= 0,
                forall|j: int|
                    i <= j < rn ==> #[trigger] self.routes@[j] == old(self).routes@[j],
                forall|j: int|
                    0 <= j < i ==> #[trigger] self.routes@[j] == (TrackRoute {
                        to: old(self).routes@[j].to,
                        volume: tweener_after_update(old(self).routes@[j].volume, dt.raw as int),
                    }),
                self.volume == tweener_after_update(old(self).volume, dt.raw as int),
                self.effects == old(self).effects,
                self.input == old(self).input,
                self.shared == old(self).shared,
                self.commands == old(self).commands,
            decreases rn - i,
        {
            let route = &mut self.routes[i];
            route.volume.update(dt);
            i = i + 1;
        }
        proof {
            assert(self.routes@ =~= routes_updated(old(self).routes@, dt.raw as int));
        }
        let mut frame = self.input;
        self.input = Frame::zero();
        let en = self.effects.len();
        let mut k: usize = 0;
        while k < en
            invariant
                k <= en,
                en == self.effects@.len(),
                track_wf(self),
                effects_run_from(self.effects@, k as int, frame, dt.raw as int)
                    == effects_run_from(old(self).effects@, 0, old(self).input, dt.raw as int),
                dt.raw >= 0,
                self.volume == tweener_after_update(old(self).volume, dt.raw as int),
                self.routes@ == routes_updated(old(self).routes@, dt.raw as int),
                self.input == (Frame { left: Fixed { raw: 0 }, right: Fixed { raw: 0 } }),
                self.shared == old(self).shared,
                self.commands == old(self).commands,
            decreases en - k,
        {
            let ghost pre_effs = self.effects@;
            let ghost pre_frame = frame;
            let effect = &mut self.effects[k];
            frame = effect.process(frame, dt);
            proof {
                assert(self.effects@ =~= pre_effs.update(
                    k as int,
                    TrackEffect {
                        state: effect_after_update(pre_effs[k as int].state, dt.raw as int),
                        commands: pre_effs[k as int].commands,
                    },
                ));
            }
            k = k + 1;
        }
        frame.scaled(self.volume.get().as_amplitude())
    }

    /// Reacts to an observed clock tick: it reaches the volume tween, every
    /// route tween and every effect.
    pub fn on_clock_tick(&mut self, time: ClockTime)
        requires
            track_wf(old(self)),
        ensures
            track_wf(final (self)),
            track_ticked(old(self), final (self), time),
    {
        self.volume.on_clock_tick(time);
        let rn = self.routes.len();
        let mut i: usize = 0;
        while i < rn
            invariant
                i <= rn,
                rn == self.routes@.len(),
                old(self).routes@.len() == rn,
                track_wf(self),
                forall|j: int|
                    i <= j < rn ==> #[trigger] self.routes@[j] == old(self).routes@[j],
                forall|j: int|
                    0 <= j < i ==> #[trigger] self.routes@[j] == (TrackRoute {
                        to: old(self).routes@[j].to,
                        volume: tweener_after_tick(old(self).routes@[j].volume, time),
                    }),
                self.volume == tweener_after_tick(old(self).volume, time),
                self.effects == old(self).effects,
                self.input == old(self).input,
                self.shared == old(self).shared,
                self.commands == old(self).commands,
            decreases rn - i,
        {
            let route = &mut self.routes[i];
            route.volume.on_clock_tick(time);
            i = i + 1;
        }
        let en = self.effects.len();
        let mut k: usize = 0;
        while k < en
            invariant
                k <= en,
                en == self.effects@.len(),
                track_wf(self),
                self.effects@.len() == old(self).effects@.len(),
                forall|j: int|
                    k <= j < en ==> #[trigger] self.effects@[j] == old(self).effects@[j],
                forall|j: int|
                    0 <= j < k ==> (#[trigger] self.effects@[j]).state == effect_after_tick(
                        old(self).effects@[j].state,
                        time,
                    ),
                self.volume == tweener_after_tick(old(self).volume, time),
                self.routes@.len() == old(self).routes@.len(),
                forall|j: int|
                    0 <= j < rn ==> #[trigger] self.routes@[j] == (TrackRoute {
                        to: old(self).routes@[j].to,
                        volume: tweener_after_tick(old(self).routes@[j].volume, time),
                    }),
                self.input == old(self).input,
                self.shared == old(self).shared,
                self.commands == old(self).commands,
            decreases en - k,
        {
            let effect = &mut self.effects[k];
            effect.on_clock_tick(time);
            k = k + 1;
        }
    }
}

impl TrackHandle {
    /// The track this handle addresses.
    pub fn id(&self) -> (r: TrackId)
        ensures
            r == self.id,
    {
        self.id
    }

    /// Asks the track to change volume.
    pub fn set_volume(&mut self, volume: Volume, tween: Tween) -> (r: Result<(), CommandQueueFull>)
        ensures
            producer_capacity(final (self).command_producer) == producer_capacity(
                old(self).command_producer,
            ),
            final (self).id == old(self).id,
    {
        match push_command(&mut self.command_producer, Command::SetVolume(volume, tween)) {
            Ok(_) => Ok(()),
            Err(_) => Err(CommandQueueFull),
        }
    }

    /// Asks the track to change the volume of its sends to `to`.
    pub fn set_route(&mut self, to: TrackId, volume: Volume, tween: Tween) -> (r: Result<(),
        CommandQueueFull>)
        ensures
            producer_capacity(final (self).command_producer) == producer_capacity(
                old(self).command_producer,
            ),
            final (self).id == old(self).id,
    {
        match push_command(&mut self.command_producer, Command::SetRouteVolume(to, volume, tween)) {
            Ok(_) => Ok(()),
            Err(_) => Err(CommandQueueFull),
        }
    }
}

/// Builds a track's command channel.
pub(crate) fn track_command_channel() -> (r: (Producer<Command>, Consumer<Command>))
    ensures
        producer_capacity(r.0) == TRACK_COMMAND_CAPACITY,
{
    command_channel(TRACK_COMMAND_CAPACITY)
}

} // verus!
