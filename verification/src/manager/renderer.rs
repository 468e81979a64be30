//! The audio-thread root: drains commands, advances clocks, renders sounds
//! and mixes one output frame at a time.

use vstd::prelude::*;

use crate::arena::arena_same_slots;
use crate::channel::push_unused;
use crate::clock::{clock_after_process, clock_after_ticks, clock_drained_to, Clock};
use crate::fixed::{sat64, div_trunc, Fixed, FIXED_SCALE};
use crate::frame::Frame;
use crate::manager::resources::{resources_wf, Resources, UnusedResource, UnusedResourceProducers};
use crate::sound::static_sound::{
    sound_after_process,
    sound_after_ticks,
    sound_drained_to,
    sound_finished,
    StaticSound,
};
use crate::track::mixer::same_slots;
use crate::track::mixer_track::track_drained;
use crate::tween::ClockTime;

verus! {

/// The audio-side root object. A backend calls
/// [`Renderer::on_start_processing`] once per block and
/// [`Renderer::process`] once per output frame.
pub struct Renderer {
    /// The output sample rate in Hz; positive.
    pub sample_rate: u32,
    /// Seconds per output frame: the reciprocal of the sample rate.
    pub dt: Fixed,
    /// The resource pools.
    pub resources: Resources,
    /// Where removed resources are returned for disposal.
    pub unused_producers: UnusedResourceProducers,
    /// Scratch space for the ticks produced in one frame; reused every
    /// frame so processing allocates nothing.
    pub tick_scratch: Vec<ClockTime>,
}

/// Whether `post` is `pre` after one frame: some delivered tick sequence
/// reached the sound before it rendered the frame.
pub open spec fn sound_stepped(pre: StaticSound, post: StaticSound, dt: int) -> bool {
    exists|ts: Seq<ClockTime>|
        post == sound_after_process(#[trigger] sound_after_ticks(pre, ts), dt)
}

/// Whether `post` is `pre` after one frame: the clock advanced by the time
/// step and then observed some delivered tick sequence.
pub open spec fn clock_stepped(pre: Clock, post: Clock, dt: int) -> bool {
    exists|ts: Seq<ClockTime>|
        post == #[trigger] clock_after_ticks(clock_after_process(pre, dt), ts)
}

/// Well-formedness of the renderer: a positive sample rate, a non-negative
/// time step, well-formed resources, and tick scratch covering the clock
/// arena.
pub open spec fn renderer_wf(r: &Renderer) -> bool {
    &&& r.sample_rate >= 1
    &&& r.dt.raw >= 0
    &&& resources_wf(&r.resources)
    &&& r.tick_scratch@.len() == r.resources.clocks.slots@.len()
}

impl Renderer {
    /// A renderer over the given resources, producing frames at
    /// `sample_rate` Hz.
    pub fn new(
        sample_rate: u32,
        resources: Resources,
        unused_producers: UnusedResourceProducers,
    ) -> (r: Renderer)
        requires
            sample_rate >= 1,
            resources_wf(&resources),
        ensures
            renderer_wf(&r),
            r.sample_rate == sample_rate,
            r.resources == resources,
            r.dt.raw == sat64(div_trunc(FIXED_SCALE as int, sample_rate as int)),
    {
        let dt = Fixed::from_ratio(1, sample_rate as i64);
        let n = resources.clocks.len();
        let mut tick_scratch: Vec<ClockTime> = Vec::new();
        let mut i: usize = 0;
        while i < n
            invariant
                i <= n,
                tick_scratch@.len() == i,
            decreases n - i,
        {
            tick_scratch.push(
                ClockTime {
                    clock: crate::tween::ClockId {
                        key: crate::arena::ArenaKey { index: 0, generation: 0 },
                    },
                    ticks: 0,
                },
            );
            i = i + 1;
        }
        proof {
            vstd::arithmetic::div_mod::lemma_div_pos_is_pos(FIXED_SCALE as int, sample_rate as int);
        }
        Renderer { sample_rate, dt, resources, unused_producers, tick_scratch }
    }

    /// Drains every resource's command queue and returns finished sounds
    /// and removed resources to the control side: afterwards no stored
    /// sound is finished, no stored clock, sub-track or scene is marked
    /// for removal, and every surviving resource has applied some received
    /// command sequence in its own slot.
    #[verifier::rlimit(100)]
    pub fn on_start_processing(&mut self)
        requires
            renderer_wf(old(self)),
        ensures
            renderer_wf(final (self)),
            final (self).sample_rate == old(self).sample_rate,
            final (self).dt == old(self).dt,
            final (self).resources.sounds.slots@.len() == old(self).resources.sounds.slots@.len(),
            final (self).resources.clocks.slots@.len() == old(self).resources.clocks.slots@.len(),
            final (self).resources.spatial_scenes.slots@.len() == old(self).resources.spatial_scenes.slots@.len(),
            final (self).resources.mixer.sub_tracks.slots@.len() == old(self).resources.mixer.sub_tracks.slots@.len(),
            track_drained(
                &old(self).resources.mixer.main_track,
                &final (self).resources.mixer.main_track,
            ),
            forall|i: int|
                0 <= i < final (self).resources.sounds.slots@.len() && (#[trigger] final (self).resources.sounds.slots@[i]).state.is_occupied() ==> ({
                    &&& old(self).resources.sounds.slots@[i].state.is_occupied()
                    &&& sound_drained_to(
                        old(self).resources.sounds.slots@[i].state.value(),
                        final (self).resources.sounds.slots@[i].state.value(),
                    )
                    &&& !sound_finished(&final (self).resources.sounds.slots@[i].state.value())
                }),
            forall|i: int|
                0 <= i < final (self).resources.clocks.slots@.len() && (#[trigger] final (self).resources.clocks.slots@[i]).state.is_occupied() ==> ({
                    &&& old(self).resources.clocks.slots@[i].state.is_occupied()
                    &&& clock_drained_to(
                        old(self).resources.clocks.slots@[i].state.value(),
                        final (self).resources.clocks.slots@[i].state.value(),
                    )
                    &&& !final (self).resources.clocks.slots@[i].state.value().removed
                }),
            forall|i: int|
                0 <= i < final (self).resources.mixer.sub_tracks.slots@.len() && (#[trigger] final (self).resources.mixer.sub_tracks.slots@[i]).state.is_occupied() ==> ({
                    &&& old(self).resources.mixer.sub_tracks.slots@[i].state.is_occupied()
                    &&& track_drained(
                        &old(self).resources.mixer.sub_tracks.slots@[i].state.value(),
                        &final (self).resources.mixer.sub_tracks.slots@[i].state.value(),
                    )
                    &&& !final (self).resources.mixer.sub_tracks.slots@[i].state.value().shared.is_marked()
                }),
            forall|i: int|
                0 <= i < final (self).resources.spatial_scenes.slots@.len() && (#[trigger] final (self).resources.spatial_scenes.slots@[i]).state.is_occupied() ==> ({
                    &&& old(self).resources.spatial_scenes.slots@[i].state.is_occupied()
                    &&& final (self).resources.spatial_scenes.slots@[i].state.value() == old(self).resources.spatial_scenes.slots@[i].state.value()
                    &&& !final (self).resources.spatial_scenes.slots@[i].state.value().removed
                }),
    {
        let sn = self.resources.sounds.len();
        let mut i: usize = 0;
        while i < sn
            invariant
                i <= sn,
                sn == self.resources.sounds.slots@.len(),
                renderer_wf(self),
                self.sample_rate == old(self).sample_rate,
                self.dt == old(self).dt,
                self.resources.clocks == old(self).resources.clocks,
                self.resources.mixer == old(self).resources.mixer,
                self.resources.spatial_scenes == old(self).resources.spatial_scenes,
                forall|j: int|
                    i <= j < sn ==> #[trigger] self.resources.sounds.slots@[j] == old(self).resources.sounds.slots@[j],
                forall|j: int|
                    0 <= j < i && (#[trigger] self.resources.sounds.slots@[j]).state.is_occupied()
                        ==> ({
                        &&& old(self).resources.sounds.slots@[j].state.is_occupied()
                        &&& sound_drained_to(
                            old(self).resources.sounds.slots@[j].state.value(),
                            self.resources.sounds.slots@[j].state.value(),
                        )
                        &&& !sound_finished(&self.resources.sounds.slots@[j].state.value())
                    }),
            decreases sn - i,
        {
            if self.resources.sounds.occupied_at(i) {
                let key = self.resources.sounds.key_at(i);
                let sound = self.resources.sounds.get_mut(key);
                sound.on_start_processing();
                let finished = self.resources.sounds.get(key).finished();
                if finished {
                    let removed = self.resources.sounds.remove(key);
                    match removed {
                        Some(s) => {
                            let _ = push_unused(
                                &mut self.unused_producers.sound,
                                UnusedResource::Sound(s),
                            );
                        },
                        None => {},
                    }
                }
            }
            i = i + 1;
        }
        let cn = self.resources.clocks.len();
        let mut i: usize = 0;
        while i < cn
            invariant
                i <= cn,
                cn == self.resources.clocks.slots@.len(),
                renderer_wf(self),
                self.sample_rate == old(self).sample_rate,
                self.dt == old(self).dt,
                self.resources.mixer == old(self).resources.mixer,
                self.resources.spatial_scenes == old(self).resources.spatial_scenes,
                self.resources.sounds.slots@.len() == old(self).resources.sounds.slots@.len(),
                forall|j: int|
                    0 <= j < self.resources.sounds.slots@.len() && (#[trigger] self.resources.sounds.slots@[j]).state.is_occupied()
                        ==> ({
                        &&& old(self).resources.sounds.slots@[j].state.is_occupied()
                        &&& sound_drained_to(
                            old(self).resources.sounds.slots@[j].state.value(),
                            self.resources.sounds.slots@[j].state.value(),
                        )
                        &&& !sound_finished(&self.resources.sounds.slots@[j].state.value())
                    }),
                forall|j: int|
                    i <= j < cn ==> #[trigger] self.resources.clocks.slots@[j] == old(self).resources.clocks.slots@[j],
                forall|j: int|
                    0 <= j < i && (#[trigger] self.resources.clocks.slots@[j]).state.is_occupied()
                        ==> ({
                        &&& old(self).resources.clocks.slots@[j].state.is_occupied()
                        &&& clock_drained_to(
                            old(self).resources.clocks.slots@[j].state.value(),
                            self.resources.clocks.slots@[j].state.value(),
                        )
                        &&& !self.resources.clocks.slots@[j].state.value().removed
                    }),
            decreases cn - i,
        {
            if self.resources.clocks.occupied_at(i) {
                let key = self.resources.clocks.key_at(i);
                let clock = self.resources.clocks.get_mut(key);
                clock.on_start_processing();
                let marked = self.resources.clocks.get(key).removed;
                if marked {
                    let removed = self.resources.clocks.remove(key);
                    match removed {
                        Some(c) => {
                            let _ = push_unused(
                                &mut self.unused_producers.clock,
                                UnusedResource::Clock(c),
                            );
                        },
                        None => {},
                    }
                }
            }
            i = i + 1;
        }
        self.resources.mixer.on_start_processing();
        let tn = self.resources.mixer.sub_tracks.len();
        let mut i: usize = 0;
        while i < tn
            invariant
                i <= tn,
                tn == self.resources.mixer.sub_tracks.slots@.len(),
                renderer_wf(self),
                self.sample_rate == old(self).sample_rate,
                self.dt == old(self).dt,
                self.resources.spatial_scenes == old(self).resources.spatial_scenes,
                self.resources.sounds.slots@.len() == old(self).resources.sounds.slots@.len(),
                self.resources.clocks.slots@.len() == old(self).resources.clocks.slots@.len(),
                forall|j: int|
                    0 <= j < self.resources.sounds.slots@.len() && (#[trigger] self.resources.sounds.slots@[j]).state.is_occupied()
                        ==> ({
                        &&& old(self).resources.sounds.slots@[j].state.is_occupied()
                        &&& sound_drained_to(
                            old(self).resources.sounds.slots@[j].state.value(),
                            self.resources.sounds.slots@[j].state.value(),
                        )
                        &&& !sound_finished(&self.resources.sounds.slots@[j].state.value())
                    }),
                forall|j: int|
                    0 <= j < self.resources.clocks.slots@.len() && (#[trigger] self.resources.clocks.slots@[j]).state.is_occupied()
                        ==> ({
                        &&& old(self).resources.clocks.slots@[j].state.is_occupied()
                        &&& clock_drained_to(
                            old(self).resources.clocks.slots@[j].state.value(),
                            self.resources.clocks.slots@[j].state.value(),
                        )
                        &&& !self.resources.clocks.slots@[j].state.value().removed
                    }),
                track_drained(
                    &old(self).resources.mixer.main_track,
                    &self.resources.mixer.main_track,
                ),
                forall|j: int|
                    i <= j < tn ==> #[trigger] self.resources.mixer.sub_tracks.slots@[j].state.is_occupied()
                        ==> old(self).resources.mixer.sub_tracks.slots@[j].state.is_occupied()
                        && track_drained(
                        &old(self).resources.mixer.sub_tracks.slots@[j].state.value(),
                        &self.resources.mixer.sub_tracks.slots@[j].state.value(),
                    ),
                forall|j: int|
                    0 <= j < i && (#[trigger] self.resources.mixer.sub_tracks.slots@[j]).state.is_occupied()
                        ==> ({
                        &&& old(self).resources.mixer.sub_tracks.slots@[j].state.is_occupied()
                        &&& track_drained(
                            &old(self).resources.mixer.sub_tracks.slots@[j].state.value(),
                            &self.resources.mixer.sub_tracks.slots@[j].state.value(),
                        )
                        &&& !self.resources.mixer.sub_tracks.slots@[j].state.value().shared.is_marked()
                    }),
            decreases tn - i,
        {
            if self.resources.mixer.sub_tracks.occupied_at(i) {
                let key = self.resources.mixer.sub_tracks.key_at(i);
                let marked = self.resources.mixer.sub_tracks.get(key).shared.is_marked_for_removal();
                if marked {
                    let removed = self.resources.mixer.remove_sub_track(key);
                    match removed {
                        Some(t) => {
                            let _ = push_unused(
                                &mut self.unused_producers.sub_track,
                                UnusedResource::SubTrack(t),
                            );
                        },
                        None => {},
                    }
                }
            }
            i = i + 1;
        }
        let pn = self.resources.spatial_scenes.len();
        let mut i: usize = 0;
        while i < pn
            invariant
                i <= pn,
                pn == self.resources.spatial_scenes.slots@.len(),
                renderer_wf(self),
                self.sample_rate == old(self).sample_rate,
                self.dt == old(self).dt,
                self.resources.sounds.slots@.len() == old(self).resources.sounds.slots@.len(),
                self.resources.clocks.slots@.len() == old(self).resources.clocks.slots@.len(),
                self.resources.mixer.sub_tracks.slots@.len() == old(self).resources.mixer.sub_tracks.slots@.len(),
                forall|j: int|
                    0 <= j < self.resources.sounds.slots@.len() && (#[trigger] self.resources.sounds.slots@[j]).state.is_occupied()
                        ==> ({
                        &&& old(self).resources.sounds.slots@[j].state.is_occupied()
                        &&& sound_drained_to(
                            old(self).resources.sounds.slots@[j].state.value(),
                            self.resources.sounds.slots@[j].state.value(),
                        )
                        &&& !sound_finished(&self.resources.sounds.slots@[j].state.value())
                    }),
                forall|j: int|
                    0 <= j < self.resources.clocks.slots@.len() && (#[trigger] self.resources.clocks.slots@[j]).state.is_occupied()
                        ==> ({
                        &&& old(self).resources.clocks.slots@[j].state.is_occupied()
                        &&& clock_drained_to(
                            old(self).resources.clocks.slots@[j].state.value(),
                            self.resources.clocks.slots@[j].state.value(),
                        )
                        &&& !self.resources.clocks.slots@[j].state.value().removed
                    }),
                track_drained(
                    &old(self).resources.mixer.main_track,
                    &self.resources.mixer.main_track,
                ),
                forall|j: int|
                    0 <= j < self.resources.mixer.sub_tracks.slots@.len() && (#[trigger] self.resources.mixer.sub_tracks.slots@[j]).state.is_occupied()
                        ==> ({
                        &&& old(self).resources.mixer.sub_tracks.slots@[j].state.is_occupied()
                        &&& track_drained(
                            &old(self).resources.mixer.sub_tracks.slots@[j].state.value(),
                            &self.resources.mixer.sub_tracks.slots@[j].state.value(),
                        )
                        &&& !self.resources.mixer.sub_tracks.slots@[j].state.value().shared.is_marked()
                    }),
                forall|j: int|
                    i <= j < pn ==> #[trigger] self.resources.spatial_scenes.slots@[j] == old(self).resources.spatial_scenes.slots@[j],
                forall|j: int|
                    0 <= j < i && (#[trigger] self.resources.spatial_scenes.slots@[j]).state.is_occupied()
                        ==> ({
                        &&& old(self).resources.spatial_scenes.slots@[j].state.is_occupied()
                        &&& self.resources.spatial_scenes.slots@[j].state.value() == old(self).resources.spatial_scenes.slots@[j].state.value()
                        &&& !self.resources.spatial_scenes.slots@[j].state.value().removed
                    }),
            decreases pn - i,
        {
            if self.resources.spatial_scenes.occupied_at(i) {
                let key = self.resources.spatial_scenes.key_at(i);
                let marked = self.resources.spatial_scenes.get(key).removed;
                if marked {
                    let removed = self.resources.spatial_scenes.remove(key);
                    match removed {
                        Some(s) => {
                            let _ = push_unused(
                                &mut self.unused_producers.spatial_scene,
                                UnusedResource::SpatialScene(s),
                            );
                        },
                        None => {},
                    }
                }
            }
            i = i + 1;
        }
    }

    /// Renders one output frame: clocks advance by the time step and the
    /// ticks they produce are broadcast - to every sound, every clock and
    /// the mixer - before sounds render; each sound then renders one frame
    /// into its target track, spatial scenes mix their listeners into their
    /// target tracks, and the mixer produces the frame. Every stored sound
    /// and clock evolves exactly by its own model under the frame's
    /// delivered tick sequence.
    #[verifier::rlimit(100)]
    pub fn process(&mut self) -> (out: Frame)
        requires
            renderer_wf(old(self)),
        ensures
            renderer_wf(final (self)),
            final (self).sample_rate == old(self).sample_rate,
            final (self).dt == old(self).dt,
            arena_same_slots(&final (self).resources.sounds, &old(self).resources.sounds),
            arena_same_slots(&final (self).resources.clocks, &old(self).resources.clocks),
            arena_same_slots(
                &final (self).resources.spatial_scenes,
                &old(self).resources.spatial_scenes,
            ),
            same_slots(
                &final (self).resources.mixer.sub_tracks,
                &old(self).resources.mixer.sub_tracks,
            ),
            forall|i: int|
                0 <= i < old(self).resources.sounds.slots@.len() && (#[trigger] old(
                    self,
                ).resources.sounds.slots@[i]).state.is_occupied() ==> sound_stepped(
                    old(self).resources.sounds.slots@[i].state.value(),
                    final (self).resources.sounds.slots@[i].state.value(),
                    old(self).dt.raw as int,
                ),
            forall|i: int|
                0 <= i < old(self).resources.clocks.slots@.len() && (#[trigger] old(
                    self,
                ).resources.clocks.slots@[i]).state.is_occupied() ==> clock_stepped(
                    old(self).resources.clocks.slots@[i].state.value(),
                    final (self).resources.clocks.slots@[i].state.value(),
                    old(self).dt.raw as int,
                ),
            final (self).resources.mixer.main_track.input == (Frame {
                left: crate::fixed::Fixed { raw: 0 },
                right: crate::fixed::Fixed { raw: 0 },
            }),
    {
        let dt = self.dt;
        // advance clocks, collecting the ticks produced this frame
        let cn = self.resources.clocks.len();
        let mut produced: usize = 0;
        let mut i: usize = 0;
        while i < cn
            invariant
                i <= cn,
                cn == self.resources.clocks.slots@.len(),
                renderer_wf(self),
                produced <= i,
                self.sample_rate == old(self).sample_rate,
                self.dt == old(self).dt,
                dt == old(self).dt,
                self.resources.sounds == old(self).resources.sounds,
                self.resources.mixer == old(self).resources.mixer,
                self.resources.spatial_scenes == old(self).resources.spatial_scenes,
                arena_same_slots(&self.resources.clocks, &old(self).resources.clocks),
                forall|j: int|
                    i <= j < cn ==> #[trigger] self.resources.clocks.slots@[j] == old(
                        self,
                    ).resources.clocks.slots@[j],
                forall|j: int|
                    0 <= j < i && (#[trigger] self.resources.clocks.slots@[j]).state.is_occupied()
                        ==> self.resources.clocks.slots@[j].state.value() == clock_after_process(
                        old(self).resources.clocks.slots@[j].state.value(),
                        dt.raw as int,
                    ),
            decreases cn - i,
        {
            if self.resources.clocks.occupied_at(i) {
                let key = self.resources.clocks.key_at(i);
                let clock = self.resources.clocks.get_mut(key);
                let id = clock.id;
                let ticked = clock.process(dt);
                match ticked {
                    Some(ticks) => {
                        self.tick_scratch[produced] = ClockTime { clock: id, ticks };
                        produced = produced + 1;
                    },
                    None => {},
                }
            }
            i = i + 1;
        }
        // broadcast the ticks to every clock-aware consumer
        let ghost delivered: Seq<ClockTime> = Seq::empty();
        let ghost mut delivered = delivered;
        let mut t: usize = 0;
        while t < produced
            invariant
                t <= produced,
                produced <= self.tick_scratch@.len(),
                renderer_wf(self),
                self.sample_rate == old(self).sample_rate,
                self.dt == old(self).dt,
                dt == old(self).dt,
                self.resources.spatial_scenes == old(self).resources.spatial_scenes,
                arena_same_slots(&self.resources.sounds, &old(self).resources.sounds),
                arena_same_slots(&self.resources.clocks, &old(self).resources.clocks),
                same_slots(
                    &self.resources.mixer.sub_tracks,
                    &old(self).resources.mixer.sub_tracks,
                ),
                forall|j: int|
                    0 <= j < self.resources.sounds.slots@.len() && (#[trigger] self.resources.sounds.slots@[j]).state.is_occupied()
                        ==> self.resources.sounds.slots@[j].state.value() == sound_after_ticks(
                        old(self).resources.sounds.slots@[j].state.value(),
                        delivered,
                    ),
                forall|j: int|
                    0 <= j < self.resources.clocks.slots@.len() && (#[trigger] self.resources.clocks.slots@[j]).state.is_occupied()
                        ==> self.resources.clocks.slots@[j].state.value() == clock_after_ticks(
                        clock_after_process(
                            old(self).resources.clocks.slots@[j].state.value(),
                            dt.raw as int,
                        ),
                        delivered,
                    ),
            decreases produced - t,
        {
            let time = self.tick_scratch[t];
            let ghost before = *self;
            let sn = self.resources.sounds.len();
            let mut s: usize = 0;
            while s < sn
                invariant
                    s <= sn,
                    sn == self.resources.sounds.slots@.len(),
                    renderer_wf(self),
                    self.sample_rate == old(self).sample_rate,
                    self.dt == old(self).dt,
                    self.resources.clocks == before.resources.clocks,
                    self.resources.mixer == before.resources.mixer,
                    self.resources.spatial_scenes == before.resources.spatial_scenes,
                    arena_same_slots(&self.resources.sounds, &before.resources.sounds),
                    forall|j: int|
                        s <= j < sn ==> #[trigger] self.resources.sounds.slots@[j]
                            == before.resources.sounds.slots@[j],
                    forall|j: int|
                        0 <= j < s && (#[trigger] self.resources.sounds.slots@[j]).state.is_occupied()
                            ==> self.resources.sounds.slots@[j].state.value()
                            == crate::sound::static_sound::sound_after_tick(
                            before.resources.sounds.slots@[j].state.value(),
                            time,
                        ),
                decreases sn - s,
            {
                if self.resources.sounds.occupied_at(s) {
                    let key = self.resources.sounds.key_at(s);
                    let sound = self.resources.sounds.get_mut(key);
                    sound.on_clock_tick(time);
                }
                s = s + 1;
            }
            let cn2 = self.resources.clocks.len();
            let mut c: usize = 0;
            while c < cn2
                invariant
                    c <= cn2,
                    cn2 == self.resources.clocks.slots@.len(),
                    renderer_wf(self),
                    self.sample_rate == old(self).sample_rate,
                    self.dt == old(self).dt,
                    self.resources.mixer == before.resources.mixer,
                    self.resources.spatial_scenes == before.resources.spatial_scenes,
                    arena_same_slots(&self.resources.clocks, &before.resources.clocks),
                    arena_same_slots(&self.resources.sounds, &before.resources.sounds),
                    forall|j: int|
                        0 <= j < self.resources.sounds.slots@.len() && (#[trigger] self.resources.sounds.slots@[j]).state.is_occupied()
                            ==> self.resources.sounds.slots@[j].state.value()
                            == crate::sound::static_sound::sound_after_tick(
                            before.resources.sounds.slots@[j].state.value(),
                            time,
                        ),
                    forall|j: int|
                        c <= j < cn2 ==> #[trigger] self.resources.clocks.slots@[j]
                            == before.resources.clocks.slots@[j],
                    forall|j: int|
                        0 <= j < c && (#[trigger] self.resources.clocks.slots@[j]).state.is_occupied()
                            ==> self.resources.clocks.slots@[j].state.value()
                            == crate::clock::clock_after_tick(
                            before.resources.clocks.slots@[j].state.value(),
                            time,
                        ),
                decreases cn2 - c,
            {
                if self.resources.clocks.occupied_at(c) {
                    let key = self.resources.clocks.key_at(c);
                    let clock = self.resources.clocks.get_mut(key);
                    clock.on_clock_tick(time);
                }
                c = c + 1;
            }
            self.resources.mixer.on_clock_tick(time);
            proof {
                assert forall|j: int|
                    0 <= j < self.resources.sounds.slots@.len() && (#[trigger] self.resources.sounds.slots@[j]).state.is_occupied() implies self.resources.sounds.slots@[j].state.value()
                    == sound_after_ticks(
                    old(self).resources.sounds.slots@[j].state.value(),
                    delivered.push(time),
                ) by {
                    crate::sound::static_sound::lemma_sound_after_ticks_snoc(
                        old(self).resources.sounds.slots@[j].state.value(),
                        delivered,
                        time,
                    );
                }
                assert forall|j: int|
                    0 <= j < self.resources.clocks.slots@.len() && (#[trigger] self.resources.clocks.slots@[j]).state.is_occupied() implies self.resources.clocks.slots@[j].state.value()
                    == clock_after_ticks(
                    clock_after_process(
                        old(self).resources.clocks.slots@[j].state.value(),
                        dt.raw as int,
                    ),
                    delivered.push(time),
                ) by {
                    crate::clock::lemma_clock_after_ticks_snoc(
                        clock_after_process(
                            old(self).resources.clocks.slots@[j].state.value(),
                            dt.raw as int,
                        ),
                        delivered,
                        time,
                    );
                }
                delivered = delivered.push(time);
            }
            t = t + 1;
        }
        // render sounds into their target tracks
        let ghost ticked = *self;
        let sn = self.resources.sounds.len();
        let mut s: usize = 0;
        while s < sn
            invariant
                s <= sn,
                sn == self.resources.sounds.slots@.len(),
                renderer_wf(self),
                self.sample_rate == old(self).sample_rate,
                self.dt == old(self).dt,
                dt == old(self).dt,
                dt.raw >= 0,
                self.resources.clocks == ticked.resources.clocks,
                self.resources.spatial_scenes == ticked.resources.spatial_scenes,
                arena_same_slots(&self.resources.sounds, &ticked.resources.sounds),
                same_slots(
                    &self.resources.mixer.sub_tracks,
                    &ticked.resources.mixer.sub_tracks,
                ),
                forall|j: int|
                    s <= j < sn ==> #[trigger] self.resources.sounds.slots@[j]
                        == ticked.resources.sounds.slots@[j],
                forall|j: int|
                    0 <= j < s && (#[trigger] self.resources.sounds.slots@[j]).state.is_occupied()
                        ==> self.resources.sounds.slots@[j].state.value() == sound_after_process(
                        ticked.resources.sounds.slots@[j].state.value(),
                        dt.raw as int,
                    ),
            decreases sn - s,
        {
            if self.resources.sounds.occupied_at(s) {
                let key = self.resources.sounds.key_at(s);
                let (frame, target) = {
                    let sound = self.resources.sounds.get_mut(key);
                    let frame = sound.process(dt);
                    (frame, sound.data.settings.track)
                };
                self.resources.mixer.add_input(target, frame);
            }
            s = s + 1;
        }
        // mix spatial scenes into their target tracks
        let ghost rendered = *self;
        let pn = self.resources.spatial_scenes.len();
        let mut p: usize = 0;
        while p < pn
            invariant
                p <= pn,
                pn == self.resources.spatial_scenes.slots@.len(),
                renderer_wf(self),
                self.sample_rate == old(self).sample_rate,
                self.dt == old(self).dt,
                dt == old(self).dt,
                dt.raw >= 0,
                self.resources.sounds == rendered.resources.sounds,
                self.resources.clocks == rendered.resources.clocks,
                arena_same_slots(
                    &self.resources.spatial_scenes,
                    &rendered.resources.spatial_scenes,
                ),
                same_slots(
                    &self.resources.mixer.sub_tracks,
                    &rendered.resources.mixer.sub_tracks,
                ),
            decreases pn - p,
        {
            if self.resources.spatial_scenes.occupied_at(p) {
                let key = self.resources.spatial_scenes.key_at(p);
                let ln = self.resources.spatial_scenes.get(key).listeners.len();
                let mut l: usize = 0;
                while l < ln
                    invariant_except_break
                        self.resources.spatial_scenes.key_live(key),
                        ln == self.resources.spatial_scenes.value_of(key).listeners.slots@.len(),
                    invariant
                        l <= ln,
                        renderer_wf(self),
                        pn == self.resources.spatial_scenes.slots@.len(),
                        self.sample_rate == old(self).sample_rate,
                        self.dt == old(self).dt,
                        dt.raw >= 0,
                        self.resources.sounds == rendered.resources.sounds,
                        self.resources.clocks == rendered.resources.clocks,
                        arena_same_slots(
                            &self.resources.spatial_scenes,
                            &rendered.resources.spatial_scenes,
                        ),
                        same_slots(
                            &self.resources.mixer.sub_tracks,
                            &rendered.resources.mixer.sub_tracks,
                        ),
                    ensures
                        renderer_wf(self),
                        pn == self.resources.spatial_scenes.slots@.len(),
                        self.sample_rate == old(self).sample_rate,
                        self.dt == old(self).dt,
                        self.resources.sounds == rendered.resources.sounds,
                        self.resources.clocks == rendered.resources.clocks,
                        arena_same_slots(
                            &self.resources.spatial_scenes,
                            &rendered.resources.spatial_scenes,
                        ),
                        same_slots(
                            &self.resources.mixer.sub_tracks,
                            &rendered.resources.mixer.sub_tracks,
                        ),
                    decreases ln - l,
                {
                    let (frame, target, occupied) = {
                        let scene = self.resources.spatial_scenes.get_mut(key);
                        if scene.listeners.occupied_at(l) {
                            let lkey = scene.listeners.key_at(l);
                            let out = {
                                let emitters = &scene.emitters;
                                let listener = scene.listeners.get_mut(lkey);
                                listener.process(emitters)
                            };
                            let target = scene.listeners.get(lkey).track;
                            (out, target, true)
                        } else {
                            (Frame::zero(), crate::track::TrackId::Main, false)
                        }
                    };
                    if occupied {
                        self.resources.mixer.add_input(target, frame);
                    }
                    if !self.resources.spatial_scenes.contains(key) {
                        break ;
                    }
                    let new_ln = self.resources.spatial_scenes.get(key).listeners.len();
                    if new_ln != ln {
                        break ;
                    }
                    l = l + 1;
                }
                if self.resources.spatial_scenes.contains(key) {
                    let scene = self.resources.spatial_scenes.get_mut(key);
                    scene.reset_emitter_inputs();
                }
            }
            p = p + 1;
        }
        // mix the tracks
        let out = self.resources.mixer.process(dt);
        proof {
            assert forall|i: int|
                0 <= i < old(self).resources.sounds.slots@.len() && (#[trigger] old(
                    self,
                ).resources.sounds.slots@[i]).state.is_occupied() implies sound_stepped(
                old(self).resources.sounds.slots@[i].state.value(),
                self.resources.sounds.slots@[i].state.value(),
                old(self).dt.raw as int,
            ) by {
                assert(sound_after_ticks(
                    old(self).resources.sounds.slots@[i].state.value(),
                    delivered,
                ) == ticked.resources.sounds.slots@[i].state.value());
            }
            assert forall|i: int|
                0 <= i < old(self).resources.clocks.slots@.len() && (#[trigger] old(
                    self,
                ).resources.clocks.slots@[i]).state.is_occupied() implies clock_stepped(
                old(self).resources.clocks.slots@[i].state.value(),
                self.resources.clocks.slots@[i].state.value(),
                old(self).dt.raw as int,
            ) by {
                assert(clock_after_ticks(
                    clock_after_process(
                        old(self).resources.clocks.slots@[i].state.value(),
                        old(self).dt.raw as int,
                    ),
                    delivered,
                ) == ticked.resources.clocks.slots@[i].state.value());
            }
        }
        out
    }

    /// Adopts a new output sample rate.
    pub fn on_change_sample_rate(&mut self, sample_rate: u32)
        requires
            sample_rate >= 1,
            renderer_wf(old(self)),
        ensures
            renderer_wf(final (self)),
            final (self).sample_rate == sample_rate,
    {
        self.sample_rate = sample_rate;
        proof {
            vstd::arithmetic::div_mod::lemma_div_pos_is_pos(FIXED_SCALE as int, sample_rate as int);
        }
        self.dt = Fixed::from_ratio(1, sample_rate as i64);
    }
}

} // verus!
