//! Spatial listeners: receivers that mix every emitter's output by distance
//! and direction.

use vstd::prelude::*;

use crate::arena::{Arena, ArenaKey, ArenaSlot};
use crate::fixed::{fdiv_raw, sat64, Fixed, FIXED_SCALE, fmul_raw};
use crate::frame::{frame_plus_spec, frame_scaled_spec, Frame};
use crate::math::{
    quat_rotate_spec,
    vec3_magnitude_raw,
    vec3_normalized_spec,
    vec3_sub_spec,
    vec3_add_spec,
    vec3_scaled_spec,
    vec3_dot_raw,
    Quaternion,
    Vec3,
};
use crate::spatial::emitter::{relative_distance_raw, Emitter};
use crate::spatial::scene::SpatialSceneId;
use crate::track::TrackId;
use crate::tween::ease_raw;
use crate::volume::{db_to_amp_raw, lerp_raw, MIN_DECIBELS_RAW};

verus! {

/// How far each ear sits from the listener's center, in fixed point: 0.1.
pub const EAR_DISTANCE_RAW: i64 = 429496730;

/// Configures a spatial listener.
#[derive(Clone, Copy, Debug)]
pub struct ListenerSettings {
    /// Where the listener sits in the scene.
    pub position: Vec3,
    /// Which way the listener faces.
    pub orientation: Quaternion,
    /// The mixer track the listener's mix is sent to.
    pub track: TrackId,
}

/// A unique identifier for a listener.
#[derive(Clone, Copy, Debug, PartialEq, Eq, Structural)]
pub struct ListenerId {
    pub key: ArenaKey,
    pub scene_id: SpatialSceneId,
}

impl ListenerId {
    /// Returns the ID of the spatial scene this listener belongs to.
    pub fn scene(&self) -> (r: SpatialSceneId)
        ensures
            r == self.scene_id,
    {
        self.scene_id
    }
}

/// Lifecycle mark of a listener: set once the control side no longer wants
/// the listener, read by the audio side when it returns resources.
#[derive(Clone, Copy, Debug, PartialEq, Eq, Structural)]
pub struct ListenerShared {
    pub removed: bool,
}

impl ListenerShared {
    /// A fresh mark: not removed.
    pub fn new() -> (r: ListenerShared)
        ensures
            !r.is_marked(),
    {
        ListenerShared { removed: false }
    }

    /// Whether the listener has been marked for removal.
    pub open spec fn is_marked(&self) -> bool {
        self.removed
    }

    /// Whether the listener has been marked for removal.
    pub fn is_marked_for_removal(&self) -> (r: bool)
        ensures
            r == self.is_marked(),
    {
        self.removed
    }

    /// Marks the listener for removal; the mark is never cleared.
    pub fn mark_for_removal(&mut self)
        ensures
            final (self).is_marked(),
    {
        self.removed = true;
    }
}

/// A receiver in a spatial scene.
pub struct Listener {
    /// The lifecycle mark.
    pub shared: ListenerShared,
    /// Where the listener sits.
    pub position: Vec3,
    /// Which way the listener faces.
    pub orientation: Quaternion,
    /// The mixer track the listener's mix is sent to.
    pub track: TrackId,
}

/// The listener's ear positions: the center offset left and right by the
/// rotated ear distance.
pub open spec fn ear_positions_spec(l: &Listener) -> (Vec3, Vec3) {
    let left = vec3_add_spec(
        l.position,
        quat_rotate_spec(
            l.orientation,
            vec3_scaled_spec(
                Vec3 { x: Fixed { raw: (-FIXED_SCALE) as i64 }, y: Fixed { raw: 0 }, z: Fixed { raw: 0 } },
                EAR_DISTANCE_RAW as int,
            ),
        ),
    );
    let right = vec3_add_spec(
        l.position,
        quat_rotate_spec(
            l.orientation,
            vec3_scaled_spec(
                Vec3 { x: Fixed { raw: FIXED_SCALE }, y: Fixed { raw: 0 }, z: Fixed { raw: 0 } },
                EAR_DISTANCE_RAW as int,
            ),
        ),
    );
    (left, right)
}

/// One emitter's contribution to a listener's mix. If the emitter
/// attenuates, its frame is scaled by the amplitude of the decibel level a
/// fraction `curve(1 - relative distance)` of the way up from silence to
/// full volume. If it spatializes, each channel is scaled by the ear gain
/// `(ear direction . direction to emitter + 1) / 2` for that ear, clamped
/// into [0, 1] since the fixed-point normalization is approximate.
pub open spec fn emitter_contribution(l: &Listener, e: &Emitter) -> Frame {
    let attenuated = match e.attenuation_function {
        Some(curve) => {
            let dist = vec3_magnitude_raw(vec3_sub_spec(e.position, l.position));
            let rel = relative_distance_raw(e.distances, dist);
            let rel_volume = ease_raw(curve, (FIXED_SCALE as int) - rel);
            let amp = db_to_amp_raw(lerp_raw(MIN_DECIBELS_RAW as int, 0, rel_volume));
            frame_scaled_spec(e.input, amp)
        },
        None => e.input,
    };
    if e.enable_spatialization {
        let ears = ear_positions_spec(l);
        let left_dir = quat_rotate_spec(
            l.orientation,
            Vec3 { x: Fixed { raw: (-FIXED_SCALE) as i64 }, y: Fixed { raw: 0 }, z: Fixed { raw: 0 } },
        );
        let right_dir = quat_rotate_spec(
            l.orientation,
            Vec3 { x: Fixed { raw: FIXED_SCALE }, y: Fixed { raw: 0 }, z: Fixed { raw: 0 } },
        );
        let to_left = vec3_normalized_spec(vec3_sub_spec(e.position, ears.0));
        let to_right = vec3_normalized_spec(vec3_sub_spec(e.position, ears.1));
        let left_gain = crate::frame::clamp_unit_raw(
            fdiv_raw(sat64(vec3_dot_raw(left_dir, to_left) + FIXED_SCALE), 2 * FIXED_SCALE as int),
        );
        let right_gain = crate::frame::clamp_unit_raw(
            fdiv_raw(
                sat64(vec3_dot_raw(right_dir, to_right) + FIXED_SCALE),
                2 * FIXED_SCALE as int,
            ),
        );
        Frame {
            left: Fixed { raw: fmul_raw(attenuated.left.raw as int, left_gain) as i64 },
            right: Fixed { raw: fmul_raw(attenuated.right.raw as int, right_gain) as i64 },
        }
    } else {
        attenuated
    }
}

/// The sum of the contributions of the occupied emitter slots before
/// position `i`, accumulated in slot order.
pub open spec fn listener_mix_upto(l: &Listener, slots: Seq<ArenaSlot<Emitter>>, i: int) -> Frame
    decreases i,
        when i >= 0
{
    if i <= 0 {
        Frame { left: Fixed { raw: 0 }, right: Fixed { raw: 0 } }
    } else {
        let acc = listener_mix_upto(l, slots, i - 1);
        if slots[i - 1].state.is_occupied() {
            frame_plus_spec(acc, emitter_contribution(l, &slots[i - 1].state.value()))
        } else {
            acc
        }
    }
}

impl Listener {
    /// A fresh listener from its settings.
    pub fn new(settings: ListenerSettings) -> (r: Listener)
        ensures
            !r.shared.is_marked(),
            r.position == settings.position,
            r.orientation == settings.orientation,
            r.track == settings.track,
    {
        Listener {
            shared: ListenerShared::new(),
            position: settings.position,
            orientation: settings.orientation,
            track: settings.track,
        }
    }

    /// The listener's lifecycle mark.
    pub fn shared(&self) -> (r: ListenerShared)
        ensures
            r == self.shared,
    {
        self.shared
    }

    /// The mixer track the listener's mix is sent to.
    pub fn track(&self) -> (r: TrackId)
        ensures
            r == self.track,
    {
        self.track
    }

    /// Moves the listener.
    pub fn set_position(&mut self, position: Vec3)
        ensures
            *final (self) == (Listener { position, ..*old(self) }),
    {
        self.position = position;
    }

    /// The listener's ear positions.
    fn ear_positions(&self) -> (r: (Vec3, Vec3))
        ensures
            r == ear_positions_spec(self),
    {
        let left = self.position.add(
            self.orientation.rotate_point(Vec3::left().scaled(Fixed { raw: EAR_DISTANCE_RAW })),
        );
        let right = self.position.add(
            self.orientation.rotate_point(Vec3::right().scaled(Fixed { raw: EAR_DISTANCE_RAW })),
        );
        (left, right)
    }

    /// Mixes every emitter in the scene: each occupied emitter's output is
    /// attenuated by distance and panned by ear direction, then summed.
    pub fn process(&mut self, emitters: &Arena<Emitter>) -> (out: Frame)
        ensures
            *final (self) == *old(self),
            out == listener_mix_upto(old(self), emitters.slots@, emitters.slots@.len() as int),
    {
        let mut output = Frame::zero();
        let n = emitters.len();
        let mut i: usize = 0;
        while i < n
            invariant
                i <= n,
                n == emitters.slots@.len(),
                *self == *old(self),
                output == listener_mix_upto(self, emitters.slots@, i as int),
            decreases n - i,
        {
            if emitters.occupied_at(i) {
                let key = emitters.key_at(i);
                let emitter = emitters.get(key);
                let mut emitter_output = emitter.output();
                // attenuate volume
                match emitter.attenuation_function {
                    Some(curve) => {
                        let distance = emitter.position().sub(self.position).magnitude();
                        let relative_distance = emitter.distances.relative_distance(distance);
                        let rel_volume = crate::tween::ease(
                            curve,
                            Fixed { raw: FIXED_SCALE - relative_distance.raw },
                        );
                        let db = Fixed { raw: MIN_DECIBELS_RAW }.fadd(
                            Fixed { raw: 0 }.fsub(Fixed { raw: MIN_DECIBELS_RAW }).fmul(rel_volume),
                        );
                        let amplitude = crate::volume::db_to_amplitude(db);
                        emitter_output = emitter_output.scaled(amplitude);
                    },
                    None => {},
                }
                // apply spatialization
                if emitter.enable_spatialization {
                    let (left_ear_position, right_ear_position) = self.ear_positions();
                    let left_ear_direction = self.orientation.rotate_point(Vec3::left());
                    let right_ear_direction = self.orientation.rotate_point(Vec3::right());
                    let to_left = emitter.position().sub(left_ear_position).normalized();
                    let to_right = emitter.position().sub(right_ear_position).normalized();
                    let left_gain = crate::frame::clamp_unit(
                        left_ear_direction.dot(to_left).fadd(Fixed { raw: FIXED_SCALE }).fdiv(
                            Fixed { raw: 2 * FIXED_SCALE },
                        ),
                    );
                    let right_gain = crate::frame::clamp_unit(
                        right_ear_direction.dot(to_right).fadd(Fixed { raw: FIXED_SCALE }).fdiv(
                            Fixed { raw: 2 * FIXED_SCALE },
                        ),
                    );
                    emitter_output = Frame {
                        left: emitter_output.left.fmul(left_gain),
                        right: emitter_output.right.fmul(right_gain),
                    };
                }
                output = output.plus(emitter_output);
            }
            i = i + 1;
        }
        output
    }
}

} // verus!
