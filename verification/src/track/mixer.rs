//! The mixer: the main track plus an arena of sub-tracks.
//!
//! Each frame, sub-tracks are processed in slot order; each one's output is
//! scaled by its route volumes and accumulated into its destinations' input.
//! The main track is processed last and its output is the mixer's. Route
//! destinations are fixed when a track is built and can only name tracks
//! that already exist, so route cycles cannot be formed; a send to a track
//! processed earlier in the same frame is heard on that track's next frame.

use vstd::prelude::*;

use crate::arena::{Arena, ArenaKey};
use crate::error::ResourceLimitReached;
use crate::fixed::Fixed;
use crate::frame::Frame;
use crate::track::ids::{SubTrackId, TrackId};
use crate::track::mixer_track::{
    track_drained,
    track_eq_mod_input,
    track_from_builder,
    track_processed,
    track_ticked,
    track_wf,
    with_input,
    Track,
    TrackBuilder,
};
use crate::tween::ClockTime;

verus! {

/// The mixer: the main track and the sub-track arena.
pub struct Mixer {
    /// The track every route eventually reaches.
    pub main_track: Track,
    /// The sub-tracks, processed in slot order.
    pub sub_tracks: Arena<Track>,
    /// Scratch space holding one output frame per sub-track slot; reused
    /// every frame so processing allocates nothing.
    pub scratch: Vec<Frame>,
}

/// Well-formedness of the mixer: the main track and every stored sub-track
/// are well formed, and the scratch space covers the arena.
pub open spec fn mixer_wf(m: &Mixer) -> bool {
    &&& track_wf(&m.main_track)
    &&& forall|i: int|
        0 <= i < m.sub_tracks.slots@.len() && (#[trigger] m.sub_tracks.slots@[i]).state.is_occupied()
            ==> track_wf(&m.sub_tracks.slots@[i].state.value())
    &&& m.scratch@.len() == m.sub_tracks.slots@.len()
}

/// Whether two sub-track arenas hold the same slots: same generations and
/// the same occupancy at every position.
pub open spec fn same_slots(a: &crate::arena::Arena<Track>, b: &crate::arena::Arena<Track>) -> bool {
    &&& a.slots@.len() == b.slots@.len()
    &&& forall|i: int|
        0 <= i < a.slots@.len() ==> (#[trigger] b.slots@[i]).generation == a.slots@[i].generation
            && (b.slots@[i].state.is_occupied() <==> a.slots@[i].state.is_occupied())
}

impl Mixer {
    /// A fresh mixer with the given sub-track capacity and main track.
    pub fn new(
        sub_track_capacity: usize,
        main_track_builder: TrackBuilder,
        main_commands: ringbuf::Consumer<crate::command::Command>,
    ) -> (r: Mixer)
        requires
            forall|i: int|
                0 <= i < main_track_builder.effects@.len() ==> crate::track::effect::effect_wf(
                    &(#[trigger] main_track_builder.effects@[i]).state,
                ),
        ensures
            mixer_wf(&r),
            track_from_builder(&r.main_track, &main_track_builder),
            r.sub_tracks.slots@.len() == sub_track_capacity,
            forall|i: int|
                0 <= i < sub_track_capacity ==> !(#[trigger] r.sub_tracks.slots@[i]).state.is_occupied(),
    {
        let main_track = Track::new(main_track_builder, main_commands);
        let mut scratch: Vec<Frame> = Vec::new();
        let mut i: usize = 0;
        while i < sub_track_capacity
            invariant
                i <= sub_track_capacity,
                scratch@.len() == i,
            decreases sub_track_capacity - i,
        {
            scratch.push(Frame::zero());
            i = i + 1;
        }
        Mixer { main_track, sub_tracks: Arena::new(sub_track_capacity), scratch }
    }

    /// Adds a sub-track built from `builder`, failing when the arena is
    /// full.
    pub fn add_sub_track(
        &mut self,
        builder: TrackBuilder,
        commands: ringbuf::Consumer<crate::command::Command>,
    ) -> (r: Result<SubTrackId, ResourceLimitReached>)
        requires
            mixer_wf(old(self)),
            forall|i: int|
                0 <= i < builder.effects@.len() ==> crate::track::effect::effect_wf(
                    &(#[trigger] builder.effects@[i]).state,
                ),
        ensures
            mixer_wf(final (self)),
            final (self).sub_tracks.slots@.len() == old(self).sub_tracks.slots@.len(),
            final (self).main_track == old(self).main_track,
            r is Ok <==> exists|i: int|
                0 <= i < old(self).sub_tracks.slots@.len() && (#[trigger] old(
                    self,
                ).sub_tracks.slots@[i]).state is Free,
            match r {
                Ok(id) => final (self).sub_tracks.key_live(id.0) && track_from_builder(
                    &final (self).sub_tracks.value_of(id.0),
                    &builder,
                ),
                Err(_) => final (self).sub_tracks == old(self).sub_tracks,
            },
    {
        let reserved = self.sub_tracks.try_reserve();
        match reserved {
            Some(key) => {
                let ok = self.sub_tracks.insert(key, Track::new(builder, commands));
                if ok {
                    Ok(SubTrackId(key))
                } else {
                    Err(ResourceLimitReached)
                }
            },
            None => Err(ResourceLimitReached),
        }
    }

    /// Accumulates a frame into a track's input - the main track's for the
    /// main id, the named sub-track's for a live sub id - leaving every
    /// other field and every other track untouched; a stale id is absorbed
    /// as a no-op.
    pub fn add_input(&mut self, id: TrackId, input: Frame)
        requires
            mixer_wf(old(self)),
        ensures
            mixer_wf(final (self)),
            same_slots(&final (self).sub_tracks, &old(self).sub_tracks),
            final (self).scratch == old(self).scratch,
            id is Main ==> final (self).main_track == with_input(
                old(self).main_track,
                crate::frame::frame_plus_spec(old(self).main_track.input, input),
            ) && final (self).sub_tracks == old(self).sub_tracks,
            id matches TrackId::Sub(st) ==> ({
                &&& old(self).sub_tracks.key_live(st.0) ==> ({
                    &&& final (self).main_track == old(self).main_track
                    &&& final (self).sub_tracks.value_of(st.0) == with_input(
                        old(self).sub_tracks.value_of(st.0),
                        crate::frame::frame_plus_spec(
                            old(self).sub_tracks.value_of(st.0).input,
                            input,
                        ),
                    )
                    &&& forall|i: int|
                        0 <= i < old(self).sub_tracks.slots@.len() && i != st.0.index
                            ==> #[trigger] final (self).sub_tracks.slots@[i] == old(
                            self,
                        ).sub_tracks.slots@[i]
                })
                &&& !old(self).sub_tracks.key_live(st.0) ==> *final (self) == *old(self)
            }),
    {
        match id {
            TrackId::Main => {
                self.main_track.add_input(input);
            },
            TrackId::Sub(sub) => {
                if self.sub_tracks.contains(sub.0) {
                    let track = self.sub_tracks.get_mut(sub.0);
                    track.add_input(input);
                }
            },
        }
    }

    /// Drains queued commands on the main track and on every sub-track:
    /// each track applies some received command sequence, as
    /// [`track_drained`] describes.
    pub fn on_start_processing(&mut self)
        requires
            mixer_wf(old(self)),
        ensures
            mixer_wf(final (self)),
            same_slots(&final (self).sub_tracks, &old(self).sub_tracks),
            track_drained(&old(self).main_track, &final (self).main_track),
            forall|i: int|
                0 <= i < old(self).sub_tracks.slots@.len() && (#[trigger] old(
                    self,
                ).sub_tracks.slots@[i]).state.is_occupied() ==> track_drained(
                    &old(self).sub_tracks.slots@[i].state.value(),
                    &final (self).sub_tracks.slots@[i].state.value(),
                ),
    {
        self.main_track.on_start_processing();
        let n = self.sub_tracks.len();
        let mut i: usize = 0;
        while i < n
            invariant
                i <= n,
                n == self.sub_tracks.slots@.len(),
                mixer_wf(self),
                same_slots(&self.sub_tracks, &old(self).sub_tracks),
                track_drained(&old(self).main_track, &self.main_track),
                forall|j: int|
                    0 <= j < i && (#[trigger] old(self).sub_tracks.slots@[j]).state.is_occupied()
                        ==> track_drained(
                        &old(self).sub_tracks.slots@[j].state.value(),
                        &self.sub_tracks.slots@[j].state.value(),
                    ),
                forall|j: int|
                    i <= j < n ==> #[trigger] self.sub_tracks.slots@[j] == old(
                        self,
                    ).sub_tracks.slots@[j],
            decreases n - i,
        {
            if self.sub_tracks.occupied_at(i) {
                let key = self.sub_tracks.key_at(i);
                let track = self.sub_tracks.get_mut(key);
                track.on_start_processing();
            }
            i = i + 1;
        }
    }

    /// Renders one frame: every sub-track is processed in slot order - its
    /// per-frame output lands in the scratch slot of the same position -
    /// then each output is scaled by that track's route volumes and
    /// accumulated into the destinations' inputs, and finally the main
    /// track is processed over everything it accumulated; its output is
    /// returned.
    pub fn process(&mut self, dt: Fixed) -> (out: Frame)
        requires
            dt.raw >= 0,
            mixer_wf(old(self)),
        ensures
            mixer_wf(final (self)),
            same_slots(&final (self).sub_tracks, &old(self).sub_tracks),
            forall|i: int|
                0 <= i < old(self).sub_tracks.slots@.len() && (#[trigger] old(
                    self,
                ).sub_tracks.slots@[i]).state.is_occupied() ==> track_processed(
                    &old(self).sub_tracks.slots@[i].state.value(),
                    &final (self).sub_tracks.slots@[i].state.value(),
                    dt.raw as int,
                    final (self).scratch@[i],
                ),
            exists|main_in: Frame|
                track_processed(
                    &(#[trigger] with_input(old(self).main_track, main_in)),
                    &final (self).main_track,
                    dt.raw as int,
                    out,
                ),
            final (self).main_track.input == (Frame {
                left: Fixed { raw: 0 },
                right: Fixed { raw: 0 },
            }),
    {
        let n = self.sub_tracks.len();
        let mut i: usize = 0;
        while i < n
            invariant
                i <= n,
                n == self.sub_tracks.slots@.len(),
                mixer_wf(self),
                self.scratch@.len() == n,
                dt.raw >= 0,
                same_slots(&self.sub_tracks, &old(self).sub_tracks),
                self.main_track == old(self).main_track,
                forall|j: int|
                    0 <= j < i && (#[trigger] old(self).sub_tracks.slots@[j]).state.is_occupied()
                        ==> track_processed(
                        &old(self).sub_tracks.slots@[j].state.value(),
                        &self.sub_tracks.slots@[j].state.value(),
                        dt.raw as int,
                        self.scratch@[j],
                    ),
                forall|j: int|
                    i <= j < n ==> #[trigger] self.sub_tracks.slots@[j] == old(
                        self,
                    ).sub_tracks.slots@[j],
            decreases n - i,
        {
            if self.sub_tracks.occupied_at(i) {
                let key = self.sub_tracks.key_at(i);
                let track = self.sub_tracks.get_mut(key);
                let frame = track.process(dt);
                self.scratch[i] = frame;
            } else {
                self.scratch[i] = Frame::zero();
            }
            i = i + 1;
        }
        let ghost processed = *self;
        let mut i: usize = 0;
        while i < n
            invariant
                i <= n,
                n == self.sub_tracks.slots@.len(),
                mixer_wf(self),
                self.scratch@.len() == n,
                self.scratch == processed.scratch,
                dt.raw >= 0,
                same_slots(&self.sub_tracks, &old(self).sub_tracks),
                track_eq_mod_input(&old(self).main_track, &self.main_track),
                forall|j: int|
                    0 <= j < n && (#[trigger] old(self).sub_tracks.slots@[j]).state.is_occupied()
                        ==> track_processed(
                        &old(self).sub_tracks.slots@[j].state.value(),
                        &self.sub_tracks.slots@[j].state.value(),
                        dt.raw as int,
                        self.scratch@[j],
                    ),
            decreases n - i,
        {
            if self.sub_tracks.occupied_at(i) {
                let key = self.sub_tracks.key_at(i);
                let frame = self.scratch[i];
                let route_count = self.sub_tracks.get(key).routes.len();
                let mut j: usize = 0;
                while j < route_count
                    invariant_except_break
                        self.sub_tracks.key_live(key),
                        route_count == self.sub_tracks.value_of(key).routes@.len(),
                    invariant
                        j <= route_count,
                        mixer_wf(self),
                        n == self.sub_tracks.slots@.len(),
                        self.scratch@.len() == n,
                        self.scratch == processed.scratch,
                        dt.raw >= 0,
                        same_slots(&self.sub_tracks, &old(self).sub_tracks),
                        track_eq_mod_input(&old(self).main_track, &self.main_track),
                        forall|k: int|
                            0 <= k < n && (#[trigger] old(
                                self,
                            ).sub_tracks.slots@[k]).state.is_occupied() ==> track_processed(
                                &old(self).sub_tracks.slots@[k].state.value(),
                                &self.sub_tracks.slots@[k].state.value(),
                                dt.raw as int,
                                self.scratch@[k],
                            ),
                    ensures
                        mixer_wf(self),
                        n == self.sub_tracks.slots@.len(),
                        self.scratch@.len() == n,
                        self.scratch == processed.scratch,
                        same_slots(&self.sub_tracks, &old(self).sub_tracks),
                        track_eq_mod_input(&old(self).main_track, &self.main_track),
                        forall|k: int|
                            0 <= k < n && (#[trigger] old(
                                self,
                            ).sub_tracks.slots@[k]).state.is_occupied() ==> track_processed(
                                &old(self).sub_tracks.slots@[k].state.value(),
                                &self.sub_tracks.slots@[k].state.value(),
                                dt.raw as int,
                                self.scratch@[k],
                            ),
                    decreases route_count - j,
                {
                    let (to, amp) = {
                        let track = self.sub_tracks.get(key);
                        let route = &track.routes[j];
                        (route.to, route.volume.get().as_amplitude())
                    };
                    self.add_input(to, frame.scaled(amp));
                    if !self.sub_tracks.contains(key) {
                        break ;
                    }
                    let new_count = self.sub_tracks.get(key).routes.len();
                    if new_count != route_count {
                        break ;
                    }
                    j = j + 1;
                }
            }
            i = i + 1;
        }
        let ghost main_in = self.main_track.input;
        proof {
            assert(with_input(old(self).main_track, main_in) == self.main_track);
        }
        self.main_track.process(dt)
    }

    /// Reacts to an observed clock tick: it reaches the main track and
    /// every sub-track, as [`track_ticked`] describes.
    pub fn on_clock_tick(&mut self, time: ClockTime)
        requires
            mixer_wf(old(self)),
        ensures
            mixer_wf(final (self)),
            same_slots(&final (self).sub_tracks, &old(self).sub_tracks),
            track_ticked(&old(self).main_track, &final (self).main_track, time),
            forall|i: int|
                0 <= i < old(self).sub_tracks.slots@.len() && (#[trigger] old(
                    self,
                ).sub_tracks.slots@[i]).state.is_occupied() ==> track_ticked(
                    &old(self).sub_tracks.slots@[i].state.value(),
                    &final (self).sub_tracks.slots@[i].state.value(),
                    time,
                ),
    {
        self.main_track.on_clock_tick(time);
        let n = self.sub_tracks.len();
        let mut i: usize = 0;
        while i < n
            invariant
                i <= n,
                n == self.sub_tracks.slots@.len(),
                mixer_wf(self),
                same_slots(&self.sub_tracks, &old(self).sub_tracks),
                track_ticked(&old(self).main_track, &self.main_track, time),
                forall|j: int|
                    0 <= j < i && (#[trigger] old(self).sub_tracks.slots@[j]).state.is_occupied()
                        ==> track_ticked(
                        &old(self).sub_tracks.slots@[j].state.value(),
                        &self.sub_tracks.slots@[j].state.value(),
                        time,
                    ),
                forall|j: int|
                    i <= j < n ==> #[trigger] self.sub_tracks.slots@[j] == old(
                        self,
                    ).sub_tracks.slots@[j],
            decreases n - i,
        {
            if self.sub_tracks.occupied_at(i) {
                let key = self.sub_tracks.key_at(i);
                let track = self.sub_tracks.get_mut(key);
                track.on_clock_tick(time);
            }
            i = i + 1;
        }
    }

    /// Removes a sub-track, handing it back for disposal off the audio
    /// side; everything else stays put, and a stale id removes nothing.
    pub fn remove_sub_track(&mut self, key: ArenaKey) -> (r: Option<Track>)
        requires
            mixer_wf(old(self)),
        ensures
            mixer_wf(final (self)),
            final (self).sub_tracks.slots@.len() == old(self).sub_tracks.slots@.len(),
            final (self).main_track == old(self).main_track,
            final (self).scratch == old(self).scratch,
            r is Some <==> old(self).sub_tracks.key_live(key),
            r is Some ==> final (self).sub_tracks.slots@[key.index as int].state is Free && forall|
                i: int,
            |
                0 <= i < old(self).sub_tracks.slots@.len() && i != key.index ==> #[trigger] final (self).sub_tracks.slots@[i] == old(self).sub_tracks.slots@[i],
            r is None ==> *final (self) == *old(self),
    {
        self.sub_tracks.remove(key)
    }
}

} // verus!
