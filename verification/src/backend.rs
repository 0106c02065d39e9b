//! The context-owning backend: it owns the GUI context, the event adapter and
//! the pending frame buffer, and runs a full GUI cycle per frame.

use vstd::prelude::*;

use crate::frame::FrameOutput;
use crate::frame::PaintJob;
use crate::upstream::adapter_apply_platform_output;
use crate::upstream::adapter_match_window_scale;
use crate::upstream::adapter_new;
use crate::upstream::adapter_on_event;
use crate::upstream::adapter_pending_max_texture_side;
use crate::upstream::adapter_set_max_texture_side;
use crate::upstream::adapter_take_input;
use crate::upstream::context_default;
use crate::upstream::context_has_run;
use crate::upstream::context_run;
use crate::upstream::context_tessellate;

verus! {

/// The fixed upper bound on texture dimensions handed to the event adapter at
/// construction. Requests beyond it are for the GUI context to reject or
/// clamp; this layer only configures the bound, once.
pub const MAX_TEXTURE_SIDE: usize = 2048;

/// A backend that owns its GUI context.
pub struct EguiBackend {
    /// The GUI context: layout, widget logic and tessellation.
    pub egui_ctx: egui::Context,
    /// The event adapter between the window and the GUI context.
    pub egui_winit: egui_winit::State,
    /// The pending frame buffer: what the last logic pass produced and the
    /// next paint will consume.
    pub frame: FrameOutput,
}

impl EguiBackend {
    /// The pending frame buffer, as contracts speak of it.
    pub open spec fn pending(self) -> FrameOutput {
        self.frame
    }

    /// Build a backend bound to the given window and display: a fresh GUI
    /// context, an event adapter configured with the fixed texture size cap
    /// and the window's current scale factor, and an empty pending buffer.
    pub fn new<E>(
        window: &winit::window::Window,
        event_loop: &winit::event_loop::EventLoopWindowTarget<E>,
    ) -> (backend: EguiBackend)
        ensures
            adapter_pending_max_texture_side(backend.egui_winit) == Some(MAX_TEXTURE_SIDE),
            backend.pending().is_empty(),
    {
        let mut egui_winit = adapter_new(event_loop);
        adapter_set_max_texture_side(&mut egui_winit, MAX_TEXTURE_SIDE);
        adapter_match_window_scale(&mut egui_winit, window);
        EguiBackend { egui_ctx: context_default(), egui_winit, frame: FrameOutput::empty() }
    }

    /// Forward a window event to the event adapter and hand back, unchanged,
    /// whether the GUI consumed it and whether a repaint is needed. The
    /// pending frame buffer is untouched.
    pub fn on_event(&mut self, event: &winit::event::WindowEvent<'_>) -> (response:
        egui_winit::EventResponse)
        ensures
            final(self).egui_ctx == old(self).egui_ctx,
            final(self).pending() == old(self).pending(),
            adapter_pending_max_texture_side(final(self).egui_winit)
                == adapter_pending_max_texture_side(old(self).egui_winit),
    {
        adapter_on_event(&mut self.egui_winit, &self.egui_ctx, event)
    }

    /// Run one full GUI cycle: take the accumulated input from the adapter,
    /// run the GUI context with the caller's logic callback, apply the
    /// returned platform output back to the window, and stash the returned
    /// shapes and texture delta in the pending buffer — the shapes replace the
    /// previous frame's, the texture delta is appended to what is pending.
    /// Returns the advisory repaint delay the GUI context requested.
    ///
    /// Afterwards the context has completed a logic pass, so a paint may
    /// follow; and the pending texture size limit has been handed to the
    /// context with the taken input, so none is pending any more.
    pub fn run<F: FnMut(&egui::Context)>(
        &mut self,
        window: &winit::window::Window,
        run_ui: F,
    ) -> (repaint_after: std::time::Duration)
        ensures
            final(self).egui_ctx == old(self).egui_ctx,
            context_has_run(final(self).egui_ctx),
            adapter_pending_max_texture_side(final(self).egui_winit) == None::<usize>,
            old(self).pending().textures_delta.set@.is_prefix_of(
                final(self).pending().textures_delta.set@,
            ),
            old(self).pending().textures_delta.free@.is_prefix_of(
                final(self).pending().textures_delta.free@,
            ),
    {
        let raw_input = adapter_take_input(&mut self.egui_winit, window);
        let full_output = context_run(&mut self.egui_ctx, raw_input, run_ui);
        let egui::FullOutput { platform_output, repaint_after, textures_delta, shapes } =
            full_output;
        adapter_apply_platform_output(&mut self.egui_winit, window, &self.egui_ctx, platform_output);
        self.frame.store(shapes, textures_delta);
        proof {
            let older_set = old(self).frame.textures_delta.set@;
            let older_free = old(self).frame.textures_delta.free@;
            assert(older_set =~= self.frame.textures_delta.set@.subrange(
                0,
                older_set.len() as int,
            ));
            assert(older_free =~= self.frame.textures_delta.free@.subrange(
                0,
                older_free.len() as int,
            ));
        }
        repaint_after
    }

    /// Paint the results of the last call to `run`: take (consume) the pending
    /// shapes and texture delta, tessellate the shapes, and hand both to the
    /// caller's painter as a [`PaintJob`]. A second paint without a logic pass
    /// in between finds the buffer empty and yields an empty job.
    ///
    /// Requires a context that has completed at least one logic pass — `run`
    /// establishes that: upstream `egui::Context::tessellate` panics on a
    /// context that never ran.
    pub fn paint(&mut self) -> (job: PaintJob)
        requires
            context_has_run(old(self).egui_ctx),
        ensures
            final(self).egui_ctx == old(self).egui_ctx,
            final(self).egui_winit == old(self).egui_winit,
            final(self).pending().is_empty(),
            job.textures_delta.set@ == old(self).pending().textures_delta.set@,
            job.textures_delta.free@ == old(self).pending().textures_delta.free@,
            old(self).pending().shapes@.len() == 0 ==> job.primitives@.len() == 0,
    {
        let taken = self.frame.take();
        let primitives = context_tessellate(&self.egui_ctx, taken.shapes);
        PaintJob { primitives, textures_delta: taken.textures_delta }
    }

    /// The explicit teardown point: the GPU painter and its resources live
    /// with the caller and must be released there, together with this call,
    /// before the window and GPU context are torn down. This layer itself
    /// holds no graphics resources, so nothing of its state changes.
    pub fn destroy(&mut self)
        ensures
            *final(self) == *old(self),
    {
    }
}

} // verus!
