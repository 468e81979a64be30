//! A spatial scene: an arena of emitters and an arena of listeners.

use vstd::prelude::*;

use crate::arena::{Arena, ArenaKey};
use crate::error::ResourceLimitReached;
use crate::spatial::emitter::{Emitter, EmitterSettings};
use crate::spatial::listener::{Listener, ListenerId, ListenerSettings};

verus! {

/// A unique identifier for a spatial scene.
#[derive(Clone, Copy, Debug, PartialEq, Eq, Structural)]
pub struct SpatialSceneId(pub ArenaKey);

/// A unique identifier for an emitter.
#[derive(Clone, Copy, Debug, PartialEq, Eq, Structural)]
pub struct EmitterId {
    pub key: ArenaKey,
    pub scene_id: SpatialSceneId,
}

impl EmitterId {
    /// Returns the ID of the spatial scene this emitter belongs to.
    pub fn scene(&self) -> (r: SpatialSceneId)
        ensures
            r == self.scene_id,
    {
        self.scene_id
    }
}

/// Configures a spatial scene.
#[derive(Clone, Copy, Debug)]
pub struct SpatialSceneSettings {
    /// How many emitters the scene can hold.
    pub emitter_capacity: usize,
    /// How many listeners the scene can hold.
    pub listener_capacity: usize,
}

impl Default for SpatialSceneSettings {
    /// Room for 128 emitters and 8 listeners.
    fn default() -> (r: SpatialSceneSettings)
        ensures
            r.emitter_capacity == 128,
            r.listener_capacity == 8,
    {
        SpatialSceneSettings { emitter_capacity: 128, listener_capacity: 8 }
    }
}

/// An emitter/listener graph processed once per frame.
pub struct SpatialScene {
    /// This scene's identity among the scene arena's keys.
    pub id: SpatialSceneId,
    /// The positioned sources.
    pub emitters: Arena<Emitter>,
    /// The receivers.
    pub listeners: Arena<Listener>,
    /// Whether the control side wants this scene removed.
    pub removed: bool,
}

impl SpatialScene {
    /// A fresh scene with the configured capacities.
    pub fn new(id: SpatialSceneId, settings: SpatialSceneSettings) -> (r: SpatialScene)
        ensures
            r.id == id,
            r.emitters.slots@.len() == settings.emitter_capacity,
            r.listeners.slots@.len() == settings.listener_capacity,
            !r.removed,
            forall|i: int|
                0 <= i < settings.emitter_capacity ==> !(#[trigger] r.emitters.slots@[i]).state.is_occupied(),
            forall|i: int|
                0 <= i < settings.listener_capacity ==> !(#[trigger] r.listeners.slots@[i]).state.is_occupied(),
    {
        SpatialScene {
            id,
            emitters: Arena::new(settings.emitter_capacity),
            listeners: Arena::new(settings.listener_capacity),
            removed: false,
        }
    }

    /// Adds an emitter, failing when the emitter arena is full.
    pub fn add_emitter(&mut self, settings: EmitterSettings) -> (r: Result<
        EmitterId,
        ResourceLimitReached,
    >)
        ensures
            final (self).id == old(self).id,
            final (self).removed == old(self).removed,
            final (self).listeners == old(self).listeners,
            match r {
                Ok(id) => id.scene_id == old(self).id && final (self).emitters.key_live(id.key)
                    && final (self).emitters.value_of(id.key).position == settings.position,
                Err(_) => final (self).emitters == old(self).emitters,
            },
    {
        let reserved = self.emitters.try_reserve();
        match reserved {
            Some(key) => {
                let ok = self.emitters.insert(key, Emitter::new(settings));
                if ok {
                    Ok(EmitterId { key, scene_id: self.id })
                } else {
                    Err(ResourceLimitReached)
                }
            },
            None => Err(ResourceLimitReached),
        }
    }

    /// Adds a listener, failing when the listener arena is full.
    pub fn add_listener(&mut self, settings: ListenerSettings) -> (r: Result<
        ListenerId,
        ResourceLimitReached,
    >)
        ensures
            final (self).id == old(self).id,
            final (self).removed == old(self).removed,
            final (self).emitters == old(self).emitters,
            match r {
                Ok(id) => id.scene_id == old(self).id && final (self).listeners.key_live(id.key)
                    && final (self).listeners.value_of(id.key) == (Listener {
                    shared: crate::spatial::listener::ListenerShared { removed: false },
                    position: settings.position,
                    orientation: settings.orientation,
                    track: settings.track,
                }),
                Err(_) => final (self).listeners == old(self).listeners,
            },
    {
        let reserved = self.listeners.try_reserve();
        match reserved {
            Some(key) => {
                let ok = self.listeners.insert(key, Listener::new(settings));
                if ok {
                    Ok(ListenerId { key, scene_id: self.id })
                } else {
                    Err(ResourceLimitReached)
                }
            },
            None => Err(ResourceLimitReached),
        }
    }

    /// Clears every emitter's accumulator for the next frame.
    pub fn reset_emitter_inputs(&mut self)
        ensures
            final (self).id == old(self).id,
            final (self).removed == old(self).removed,
            final (self).listeners == old(self).listeners,
            final (self).emitters.slots@.len() == old(self).emitters.slots@.len(),
    {
        let n = self.emitters.len();
        let mut i: usize = 0;
        while i < n
            invariant
                i <= n,
                n == self.emitters.slots@.len(),
                self.id == old(self).id,
                self.removed == old(self).removed,
                self.listeners == old(self).listeners,
            decreases n - i,
        {
            if self.emitters.occupied_at(i) {
                let key = self.emitters.key_at(i);
                let emitter = self.emitters.get_mut(key);
                emitter.reset_input();
            }
            i = i + 1;
        }
    }
}

} // verus!
