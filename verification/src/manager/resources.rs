//! The audio side's resource pools and the return channels that carry
//! removed resources back to the control side for disposal.

use vstd::prelude::*;

use ringbuf::{Consumer, Producer};

use crate::arena::Arena;
use crate::channel::{unused_channel, unused_producer_capacity};
use crate::clock::Clock;
use crate::sound::static_sound::{sound_wf, StaticSound};
use crate::spatial::scene::SpatialScene;
use crate::track::mixer::{mixer_wf, Mixer};
use crate::track::mixer_track::{track_from_builder, TrackBuilder};
use crate::track::Track;

verus! {

/// How many of each resource the engine holds room for.
#[derive(Clone, Copy, Debug, PartialEq, Eq, Structural)]
pub struct Capacities {
    /// How many sounds can play at once.
    pub sound_capacity: usize,
    /// How many mixer sub-tracks can exist at once.
    pub sub_track_capacity: usize,
    /// How many clocks can exist at once.
    pub clock_capacity: usize,
    /// How many spatial scenes can exist at once.
    pub spatial_scene_capacity: usize,
    /// How many commands each command queue holds.
    pub command_capacity: usize,
}

impl Default for Capacities {
    /// Room for 128 sounds and 8 of everything else, with 128-command
    /// queues.
    fn default() -> (r: Capacities)
        ensures
            r.sound_capacity == 128,
            r.sub_track_capacity == 8,
            r.clock_capacity == 8,
            r.spatial_scene_capacity == 8,
            r.command_capacity == 128,
    {
        Capacities {
            sound_capacity: 128,
            sub_track_capacity: 8,
            clock_capacity: 8,
            spatial_scene_capacity: 8,
            command_capacity: 128,
        }
    }
}

/// A resource the audio side no longer uses, carried back to the control
/// side to be dropped there.
pub enum UnusedResource {
    /// A finished or removed sound.
    Sound(StaticSound),
    /// A removed mixer sub-track.
    SubTrack(Track),
    /// A removed clock.
    Clock(Clock),
    /// A removed spatial scene.
    SpatialScene(SpatialScene),
}

/// The audio-side ends of the unused-resource channels.
pub struct UnusedResourceProducers {
    pub sound: Producer<UnusedResource>,
    pub sub_track: Producer<UnusedResource>,
    pub clock: Producer<UnusedResource>,
    pub spatial_scene: Producer<UnusedResource>,
}

/// The control-side ends of the unused-resource channels.
pub struct UnusedResourceConsumers {
    pub sound: Consumer<UnusedResource>,
    pub sub_track: Consumer<UnusedResource>,
    pub clock: Consumer<UnusedResource>,
    pub spatial_scene: Consumer<UnusedResource>,
}

/// Creates the unused-resource channels, one per resource kind, each sized
/// to its resource's capacity.
pub fn create_unused_resource_channels(capacities: Capacities) -> (r: (
    UnusedResourceProducers,
    UnusedResourceConsumers,
))
    ensures
        unused_producer_capacity(r.0.sound) == capacities.sound_capacity,
        unused_producer_capacity(r.0.sub_track) == capacities.sub_track_capacity,
        unused_producer_capacity(r.0.clock) == capacities.clock_capacity,
        unused_producer_capacity(r.0.spatial_scene) == capacities.spatial_scene_capacity,
{
    let (unused_sound_producer, unused_sound_consumer) = unused_channel(capacities.sound_capacity);
    let (unused_sub_track_producer, unused_sub_track_consumer) = unused_channel(
        capacities.sub_track_capacity,
    );
    let (unused_clock_producer, unused_clock_consumer) = unused_channel(capacities.clock_capacity);
    let (unused_spatial_scene_producer, unused_spatial_scene_consumer) = unused_channel(
        capacities.spatial_scene_capacity,
    );
    (
        UnusedResourceProducers {
            sound: unused_sound_producer,
            sub_track: unused_sub_track_producer,
            clock: unused_clock_producer,
            spatial_scene: unused_spatial_scene_producer,
        },
        UnusedResourceConsumers {
            sound: unused_sound_consumer,
            sub_track: unused_sub_track_consumer,
            clock: unused_clock_consumer,
            spatial_scene: unused_spatial_scene_consumer,
        },
    )
}

/// The audio side's resource pools.
pub struct Resources {
    /// The playing sounds.
    pub sounds: Arena<StaticSound>,
    /// The mixer.
    pub mixer: Mixer,
    /// The clocks.
    pub clocks: Arena<Clock>,
    /// The spatial scenes.
    pub spatial_scenes: Arena<SpatialScene>,
}

/// Well-formedness of the resource pools: the mixer and every stored sound
/// and clock are well formed.
pub open spec fn resources_wf(r: &Resources) -> bool {
    &&& mixer_wf(&r.mixer)
    &&& forall|i: int|
        0 <= i < r.sounds.slots@.len() && (#[trigger] r.sounds.slots@[i]).state.is_occupied()
            ==> sound_wf(&r.sounds.slots@[i].state.value())
    &&& forall|i: int|
        0 <= i < r.clocks.slots@.len() && (#[trigger] r.clocks.slots@[i]).state.is_occupied()
            ==> crate::clock::clock_wf(&r.clocks.slots@[i].state.value())
}

/// Creates the audio side's resource pools with the configured capacities.
pub fn create_resources(
    capacities: Capacities,
    main_track_builder: TrackBuilder,
    main_commands: Consumer<crate::command::Command>,
) -> (r: Resources)
    requires
        forall|i: int|
            0 <= i < main_track_builder.effects@.len() ==> crate::track::effect::effect_wf(
                &(#[trigger] main_track_builder.effects@[i]).state,
            ),
    ensures
        resources_wf(&r),
        track_from_builder(&r.mixer.main_track, &main_track_builder),
        r.sounds.slots@.len() == capacities.sound_capacity,
        r.mixer.sub_tracks.slots@.len() == capacities.sub_track_capacity,
        r.clocks.slots@.len() == capacities.clock_capacity,
        r.spatial_scenes.slots@.len() == capacities.spatial_scene_capacity,
        forall|i: int|
            0 <= i < capacities.sound_capacity ==> !(#[trigger] r.sounds.slots@[i]).state.is_occupied(),
        forall|i: int|
            0 <= i < capacities.clock_capacity ==> !(#[trigger] r.clocks.slots@[i]).state.is_occupied(),
{
    let sounds = Arena::new(capacities.sound_capacity);
    let mixer = Mixer::new(capacities.sub_track_capacity, main_track_builder, main_commands);
    let clocks = Arena::new(capacities.clock_capacity);
    let spatial_scenes = Arena::new(capacities.spatial_scene_capacity);
    Resources { sounds, mixer, clocks, spatial_scenes }
}

} // verus!
