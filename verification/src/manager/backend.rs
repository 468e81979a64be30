//! The audio-backend boundary, and the backend used for tests.
//!
//! A backend owns the [`Renderer`] and calls it at its sample rate. The
//! mock backend does no device I/O at all: it hands control of time to the
//! caller, who drives blocks and frames by hand.

use vstd::prelude::*;

use crate::arena::arena_same_slots;
use crate::frame::Frame;
use crate::manager::renderer::{clock_stepped, renderer_wf, sound_stepped, Renderer};
use crate::sound::static_sound::{sound_drained_to, sound_finished};

verus! {

/// An audio backend: owns the renderer and drives it at its sample rate.
pub trait Backend: Sized {
    /// The renderer this backend drives.
    spec fn renderer_view(&self) -> Renderer;

    /// Installs the renderer into a fresh backend.
    fn setup(renderer: Renderer) -> (r: Self)
        ensures
            r.renderer_view() == renderer,
    ;

    /// Borrows the renderer.
    fn renderer(&self) -> (r: &Renderer)
        ensures
            *r == self.renderer_view(),
    ;

    /// Mutably borrows the renderer.
    fn renderer_mut(&mut self) -> (r: &mut Renderer)
        ensures
            *r == old(self).renderer_view(),
            final (self).renderer_view() == *final (r),
    ;
}

/// A backend for tests: holds the renderer and exposes manual processing
/// steps instead of a device callback.
pub struct MockBackend {
    /// The renderer under manual control.
    pub renderer: Renderer,
}

impl Backend for MockBackend {
    open spec fn renderer_view(&self) -> Renderer {
        self.renderer
    }

    fn setup(renderer: Renderer) -> (r: Self) {
        MockBackend { renderer }
    }

    fn renderer(&self) -> (r: &Renderer) {
        &self.renderer
    }

    fn renderer_mut(&mut self) -> (r: &mut Renderer) {
        &mut self.renderer
    }
}

impl MockBackend {
    /// Runs the start of one processing block by hand: queues drain and
    /// finished or removed resources leave, exactly as the renderer's own
    /// block start guarantees.
    pub fn on_start_processing(&mut self)
        requires
            renderer_wf(&old(self).renderer),
        ensures
            renderer_wf(&final (self).renderer),
            final (self).renderer.sample_rate == old(self).renderer.sample_rate,
            final (self).renderer.dt == old(self).renderer.dt,
            final (self).renderer.resources.sounds.slots@.len() == old(
                self,
            ).renderer.resources.sounds.slots@.len(),
            forall|i: int|
                0 <= i < final (self).renderer.resources.sounds.slots@.len() && (#[trigger] final (self).renderer.resources.sounds.slots@[i]).state.is_occupied() ==> ({
                    &&& old(self).renderer.resources.sounds.slots@[i].state.is_occupied()
                    &&& sound_drained_to(
                        old(self).renderer.resources.sounds.slots@[i].state.value(),
                        final (self).renderer.resources.sounds.slots@[i].state.value(),
                    )
                    &&& !sound_finished(
                        &final (self).renderer.resources.sounds.slots@[i].state.value(),
                    )
                }),
    {
        self.renderer.on_start_processing();
    }

    /// Renders one output frame by hand: clocks advance and broadcast,
    /// sounds render into their tracks, and the mixer produces the frame,
    /// exactly as the renderer's own processing guarantees.
    pub fn process(&mut self) -> (out: Frame)
        requires
            renderer_wf(&old(self).renderer),
        ensures
            renderer_wf(&final (self).renderer),
            final (self).renderer.sample_rate == old(self).renderer.sample_rate,
            final (self).renderer.dt == old(self).renderer.dt,
            arena_same_slots(
                &final (self).renderer.resources.sounds,
                &old(self).renderer.resources.sounds,
            ),
            arena_same_slots(
                &final (self).renderer.resources.clocks,
                &old(self).renderer.resources.clocks,
            ),
            forall|i: int|
                0 <= i < old(self).renderer.resources.sounds.slots@.len() && (#[trigger] old(
                    self,
                ).renderer.resources.sounds.slots@[i]).state.is_occupied() ==> sound_stepped(
                    old(self).renderer.resources.sounds.slots@[i].state.value(),
                    final (self).renderer.resources.sounds.slots@[i].state.value(),
                    old(self).renderer.dt.raw as int,
                ),
            forall|i: int|
                0 <= i < old(self).renderer.resources.clocks.slots@.len() && (#[trigger] old(
                    self,
                ).renderer.resources.clocks.slots@[i]).state.is_occupied() ==> clock_stepped(
                    old(self).renderer.resources.clocks.slots@[i].state.value(),
                    final (self).renderer.resources.clocks.slots@[i].state.value(),
                    old(self).renderer.dt.raw as int,
                ),
    {
        self.renderer.process()
    }
}

} // verus!
