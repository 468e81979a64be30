//! The spatial sound scene: emitters, listeners, distance attenuation and
//! ear-difference panning.

pub mod emitter;
pub mod listener;
pub mod scene;

pub use emitter::{Emitter, EmitterDistances, EmitterSettings, EmitterShared};
pub use listener::{Listener, ListenerId, ListenerSettings, ListenerShared};
pub use scene::{EmitterId, SpatialScene, SpatialSceneId, SpatialSceneSettings};
