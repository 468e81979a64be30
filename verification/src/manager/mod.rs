//! The public surface that binds a backend, creates resources, and hands
//! out handles.

pub mod backend;
pub mod renderer;
pub mod resources;

use vstd::prelude::*;

use ringbuf::Producer;

use crate::channel::{command_channel, pop_unused, producer_capacity, push_command};
use crate::arena::ArenaKey;
use crate::clock::ClockSpeed;
use crate::command::Command;
use crate::error::{CommandQueueFull, ResourceLimitReached};
use crate::manager::backend::Backend;
use crate::manager::renderer::{renderer_wf, Renderer};
use crate::manager::resources::{
    create_resources,
    create_unused_resource_channels,
    Capacities,
    UnusedResourceConsumers,
};
use crate::sound::data::StaticSoundData;
use crate::sound::static_sound::{StaticSoundHandle, MAX_SOUND_FRAMES};
use crate::spatial::scene::{SpatialScene, SpatialSceneId, SpatialSceneSettings};
use crate::track::ids::TrackId;
use crate::track::mixer_track::{TrackBuilder, TrackHandle};
use crate::tween::{ClockId, Tween};

verus! {

/// Configures an audio engine.
pub struct AudioManagerSettings {
    /// How many of each resource the engine holds room for.
    pub capacities: Capacities,
    /// The main mixer track's configuration.
    pub main_track_builder: TrackBuilder,
}

impl Default for AudioManagerSettings {
    /// The default capacities and a plain main track.
    fn default() -> (r: AudioManagerSettings)
        ensures
            r.main_track_builder.effects@.len() == 0,
    {
        AudioManagerSettings {
            capacities: Capacities::default(),
            main_track_builder: TrackBuilder::new(),
        }
    }
}

/// The control side of a clock: pushes commands to the audio-side clock.
pub struct ClockHandle {
    /// The clock this handle addresses.
    pub id: ClockId,
    /// The producing end of the clock's command queue.
    pub command_producer: Producer<Command>,
}

impl ClockHandle {
    /// The clock this handle addresses.
    pub fn id(&self) -> (r: ClockId)
        ensures
            r == self.id,
    {
        self.id
    }

    /// Asks the clock to start ticking.
    pub fn start(&mut self) -> (r: Result<(), CommandQueueFull>)
        ensures
            producer_capacity(final (self).command_producer) == producer_capacity(
                old(self).command_producer,
            ),
            final (self).id == old(self).id,
    {
        match push_command(&mut self.command_producer, Command::StartClock) {
            Ok(_) => Ok(()),
            Err(_) => Err(CommandQueueFull),
        }
    }

    /// Asks the clock to pause its ticking.
    pub fn stop(&mut self) -> (r: Result<(), CommandQueueFull>)
        ensures
            producer_capacity(final (self).command_producer) == producer_capacity(
                old(self).command_producer,
            ),
            final (self).id == old(self).id,
    {
        match push_command(&mut self.command_producer, Command::StopClock) {
            Ok(_) => Ok(()),
            Err(_) => Err(CommandQueueFull),
        }
    }

    /// Asks the clock to change speed.
    pub fn set_speed(&mut self, speed: ClockSpeed, tween: Tween) -> (r: Result<(),
        CommandQueueFull>)
        ensures
            producer_capacity(final (self).command_producer) == producer_capacity(
                old(self).command_producer,
            ),
            final (self).id == old(self).id,
    {
        match push_command(&mut self.command_producer, Command::SetClockSpeed(speed, tween)) {
            Ok(_) => Ok(()),
            Err(_) => Err(CommandQueueFull),
        }
    }
}

/// The control side of a spatial scene.
pub struct SpatialSceneHandle {
    /// The scene this handle addresses.
    pub id: SpatialSceneId,
}

impl SpatialSceneHandle {
    /// The scene this handle addresses.
    pub fn id(&self) -> (r: SpatialSceneId)
        ensures
            r == self.id,
    {
        self.id
    }
}

/// The control-side root of an audio engine: creates resources on the audio
/// side and hands out the handles that command them.
pub struct AudioManager<B> {
    /// The backend driving the renderer.
    pub backend: B,
    /// The main track's handle.
    pub main_track_handle: TrackHandle,
    /// Where removed resources come back for disposal.
    pub unused_consumers: UnusedResourceConsumers,
    /// The capacities the engine was built with.
    pub capacities: Capacities,
}

impl<B: Backend> AudioManager<B> {
    /// Builds the audio side at the given sample rate, installs it into a
    /// fresh backend, and keeps the control-side ends.
    pub fn new(sample_rate: u32, settings: AudioManagerSettings) -> (r: AudioManager<B>)
        requires
            sample_rate >= 1,
            forall|i: int|
                0 <= i < settings.main_track_builder.effects@.len()
                    ==> crate::track::effect::effect_wf(
                    &(#[trigger] settings.main_track_builder.effects@[i]).state,
                ),
        ensures
            renderer_wf(&r.backend.renderer_view()),
            r.backend.renderer_view().sample_rate == sample_rate,
            crate::track::mixer_track::track_from_builder(
                &r.backend.renderer_view().resources.mixer.main_track,
                &settings.main_track_builder,
            ),
            r.backend.renderer_view().resources.sounds.slots@.len()
                == settings.capacities.sound_capacity,
            r.backend.renderer_view().resources.mixer.sub_tracks.slots@.len()
                == settings.capacities.sub_track_capacity,
            r.backend.renderer_view().resources.clocks.slots@.len()
                == settings.capacities.clock_capacity,
            r.backend.renderer_view().resources.spatial_scenes.slots@.len()
                == settings.capacities.spatial_scene_capacity,
            r.main_track_handle.id is Main,
            r.capacities == settings.capacities,
    {
        let (unused_producers, unused_consumers) = create_unused_resource_channels(
            settings.capacities,
        );
        let (main_producer, main_consumer) = command_channel(settings.capacities.command_capacity);
        let resources = create_resources(
            settings.capacities,
            settings.main_track_builder,
            main_consumer,
        );
        let renderer = Renderer::new(sample_rate, resources, unused_producers);
        let backend = B::setup(renderer);
        AudioManager {
            backend,
            main_track_handle: TrackHandle { id: TrackId::Main, command_producer: main_producer },
            unused_consumers,
            capacities: settings.capacities,
        }
    }

    /// Starts playing a sound; fails when the sound arena is full.
    pub fn play(&mut self, data: StaticSoundData) -> (r: Result<
        StaticSoundHandle,
        ResourceLimitReached,
    >)
        requires
            renderer_wf(&old(self).backend.renderer_view()),
            data.sample_rate >= 1,
            data.frames@.len() < MAX_SOUND_FRAMES,
        ensures
            renderer_wf(&final (self).backend.renderer_view()),
            r is Ok <==> exists|i: int|
                0 <= i < old(self).backend.renderer_view().resources.sounds.slots@.len()
                    && (#[trigger] old(
                    self,
                ).backend.renderer_view().resources.sounds.slots@[i]).state is Free,
            r is Ok ==> exists|key: ArenaKey|
                (#[trigger] final (self).backend.renderer_view().resources.sounds.key_live(key))
                    && final (self).backend.renderer_view().resources.sounds.value_of(key)
                    == crate::sound::static_sound::sound_initial(
                    data,
                    final (self).backend.renderer_view().resources.sounds.value_of(key).commands,
                ),
            r is Err ==> final (self).backend.renderer_view().resources.sounds == old(
                self,
            ).backend.renderer_view().resources.sounds,
    {
        let renderer = self.backend.renderer_mut();
        let reserved = renderer.resources.sounds.try_reserve();
        match reserved {
            Some(key) => {
                let (sound, handle) = data.split();
                let ok = renderer.resources.sounds.insert(key, sound);
                if ok {
                    Ok(handle)
                } else {
                    Err(ResourceLimitReached)
                }
            },
            None => Err(ResourceLimitReached),
        }
    }

    /// Adds a clock; fails when the clock arena is full.
    pub fn add_clock(&mut self, speed: ClockSpeed) -> (r: Result<ClockHandle, ResourceLimitReached>)
        requires
            renderer_wf(&old(self).backend.renderer_view()),
        ensures
            renderer_wf(&final (self).backend.renderer_view()),
            r is Ok <==> exists|i: int|
                0 <= i < old(self).backend.renderer_view().resources.clocks.slots@.len()
                    && (#[trigger] old(
                    self,
                ).backend.renderer_view().resources.clocks.slots@[i]).state is Free,
            r matches Ok(h) ==> ({
                let clocks = final (self).backend.renderer_view().resources.clocks;
                &&& clocks.key_live(h.id.key)
                &&& clocks.value_of(h.id.key).id == h.id
                &&& !clocks.value_of(h.id.key).ticking
                &&& clocks.value_of(h.id.key).ticks == 0
                &&& clocks.value_of(h.id.key).speed.value == speed
                &&& !clocks.value_of(h.id.key).removed
            }),
            r is Err ==> final (self).backend.renderer_view().resources.clocks == old(
                self,
            ).backend.renderer_view().resources.clocks,
    {
        let renderer = self.backend.renderer_mut();
        let reserved = renderer.resources.clocks.try_reserve();
        match reserved {
            Some(key) => {
                let id = ClockId { key };
                let (producer, consumer) = command_channel(
                    crate::sound::static_sound::SOUND_COMMAND_CAPACITY,
                );
                let clock = crate::clock::Clock::new(id, speed, consumer);
                let ok = renderer.resources.clocks.insert(key, clock);
                if ok {
                    Ok(ClockHandle { id, command_producer: producer })
                } else {
                    Err(ResourceLimitReached)
                }
            },
            None => Err(ResourceLimitReached),
        }
    }

    /// Adds a mixer sub-track; fails when the sub-track arena is full.
    pub fn add_sub_track(&mut self, builder: TrackBuilder) -> (r: Result<
        TrackHandle,
        ResourceLimitReached,
    >)
        requires
            renderer_wf(&old(self).backend.renderer_view()),
            forall|i: int|
                0 <= i < builder.effects@.len() ==> crate::track::effect::effect_wf(
                    &(#[trigger] builder.effects@[i]).state,
                ),
        ensures
            renderer_wf(&final (self).backend.renderer_view()),
            r is Ok <==> exists|i: int|
                0 <= i
                    < old(self).backend.renderer_view().resources.mixer.sub_tracks.slots@.len()
                    && (#[trigger] old(
                    self,
                ).backend.renderer_view().resources.mixer.sub_tracks.slots@[i]).state is Free,
            r matches Ok(h) ==> (h.id matches TrackId::Sub(sub) && ({
                let tracks = final (self).backend.renderer_view().resources.mixer.sub_tracks;
                tracks.key_live(sub.0) && crate::track::mixer_track::track_from_builder(
                    &tracks.value_of(sub.0),
                    &builder,
                )
            })),
            r is Err ==> final (self).backend.renderer_view().resources.mixer.sub_tracks == old(
                self,
            ).backend.renderer_view().resources.mixer.sub_tracks,
    {
        let renderer = self.backend.renderer_mut();
        let (producer, consumer) = crate::track::mixer_track::track_command_channel();
        let added = renderer.resources.mixer.add_sub_track(builder, consumer);
        match added {
            Ok(id) => Ok(TrackHandle { id: TrackId::Sub(id), command_producer: producer }),
            Err(e) => Err(e),
        }
    }

    /// Adds a spatial scene; fails when the scene arena is full.
    pub fn add_spatial_scene(&mut self, settings: SpatialSceneSettings) -> (r: Result<
        SpatialSceneHandle,
        ResourceLimitReached,
    >)
        requires
            renderer_wf(&old(self).backend.renderer_view()),
        ensures
            renderer_wf(&final (self).backend.renderer_view()),
            r is Ok <==> exists|i: int|
                0 <= i < old(self).backend.renderer_view().resources.spatial_scenes.slots@.len()
                    && (#[trigger] old(
                    self,
                ).backend.renderer_view().resources.spatial_scenes.slots@[i]).state is Free,
            r matches Ok(h) ==> ({
                let scenes = final (self).backend.renderer_view().resources.spatial_scenes;
                &&& scenes.key_live(h.id.0)
                &&& scenes.value_of(h.id.0).id == h.id
                &&& scenes.value_of(h.id.0).emitters.slots@.len() == settings.emitter_capacity
                &&& scenes.value_of(h.id.0).listeners.slots@.len() == settings.listener_capacity
                &&& !scenes.value_of(h.id.0).removed
            }),
            r is Err ==> final (self).backend.renderer_view().resources.spatial_scenes == old(
                self,
            ).backend.renderer_view().resources.spatial_scenes,
    {
        let renderer = self.backend.renderer_mut();
        let reserved = renderer.resources.spatial_scenes.try_reserve();
        match reserved {
            Some(key) => {
                let id = SpatialSceneId(key);
                let scene = SpatialScene::new(id, settings);
                let ok = renderer.resources.spatial_scenes.insert(key, scene);
                if ok {
                    Ok(SpatialSceneHandle { id })
                } else {
                    Err(ResourceLimitReached)
                }
            },
            None => Err(ResourceLimitReached),
        }
    }

    /// Drains the resources the audio side has returned - up to each
    /// channel's capacity per call - dropping them on this side; returns
    /// how many were reclaimed. How many arrive depends on the shared
    /// rings, so only the engine's own state is promised unchanged.
    pub fn reclaim_unused(&mut self) -> (r: usize)
        ensures
            final (self).backend == old(self).backend,
            final (self).main_track_handle == old(self).main_track_handle,
            final (self).capacities == old(self).capacities,
    {
        let mut count: usize = 0;
        let mut budget: usize = 0;
        while budget < self.capacities.sound_capacity
            invariant
                self.backend == old(self).backend,
                self.main_track_handle == old(self).main_track_handle,
                self.capacities == old(self).capacities,
            decreases self.capacities.sound_capacity - budget,
        {
            let popped = pop_unused(&mut self.unused_consumers.sound);
            if popped.is_none() {
                break ;
            }
            count = if count < usize::MAX {
                count + 1
            } else {
                count
            };
            budget = budget + 1;
        }
        let mut budget: usize = 0;
        while budget < self.capacities.sub_track_capacity
            invariant
                self.backend == old(self).backend,
                self.main_track_handle == old(self).main_track_handle,
                self.capacities == old(self).capacities,
            decreases self.capacities.sub_track_capacity - budget,
        {
            let popped = pop_unused(&mut self.unused_consumers.sub_track);
            if popped.is_none() {
                break ;
            }
            count = if count < usize::MAX {
                count + 1
            } else {
                count
            };
            budget = budget + 1;
        }
        let mut budget: usize = 0;
        while budget < self.capacities.clock_capacity
            invariant
                self.backend == old(self).backend,
                self.main_track_handle == old(self).main_track_handle,
                self.capacities == old(self).capacities,
            decreases self.capacities.clock_capacity - budget,
        {
            let popped = pop_unused(&mut self.unused_consumers.clock);
            if popped.is_none() {
                break ;
            }
            count = if count < usize::MAX {
                count + 1
            } else {
                count
            };
            budget = budget + 1;
        }
        let mut budget: usize = 0;
        while budget < self.capacities.spatial_scene_capacity
            invariant
                self.backend == old(self).backend,
                self.main_track_handle == old(self).main_track_handle,
                self.capacities == old(self).capacities,
            decreases self.capacities.spatial_scene_capacity - budget,
        {
            let popped = pop_unused(&mut self.unused_consumers.spatial_scene);
            if popped.is_none() {
                break ;
            }
            count = if count < usize::MAX {
                count + 1
            } else {
                count
            };
            budget = budget + 1;
        }
        count
    }

    /// The main track's handle.
    pub fn main_track(&mut self) -> (r: &mut TrackHandle)
        ensures
            *r == old(self).main_track_handle,
            final (self).main_track_handle == *final (r),
            final (self).backend == old(self).backend,
    {
        &mut self.main_track_handle
    }
}

} // verus!
