//! The context-external backend: the same lifecycle as the context-owning one,
//! but the caller supplies the GUI context to every method, so that one
//! context can serve several windows and backends. The full GUI cycle is
//! decomposed into three steps the caller sequences: take the input, run the
//! context itself, hand the output back.

use vstd::prelude::*;

use crate::backend::MAX_TEXTURE_SIDE;
use crate::frame::FrameOutput;
use crate::frame::PaintJob;
use crate::upstream::adapter_apply_platform_output;
use crate::upstream::adapter_match_window_scale;
use crate::upstream::adapter_new;
use crate::upstream::adapter_on_event;
use crate::upstream::adapter_pending_max_texture_side;
use crate::upstream::adapter_set_max_texture_side;
use crate::upstream::adapter_take_input;
use crate::upstream::context_has_run;
use crate::upstream::context_tessellate;

verus! {

/// A backend that does not own the GUI context: the caller passes it in.
pub struct EguiContextFreeBackend {
    /// The event adapter between the window and the GUI context.
    pub egui_winit: egui_winit::State,
    /// The pending frame buffer: what the last logic pass produced and the
    /// next paint will consume.
    pub frame: FrameOutput,
}

impl EguiContextFreeBackend {
    /// The pending frame buffer, as contracts speak of it.
    pub open spec fn pending(self) -> FrameOutput {
        self.frame
    }

    /// Build a backend bound to the given window and display: an event adapter
    /// configured with the fixed texture size cap and the window's current
    /// scale factor, and an empty pending buffer.
    pub fn new<E>(
        window: &winit::window::Window,
        event_loop: &winit::event_loop::EventLoopWindowTarget<E>,
    ) -> (backend: EguiContextFreeBackend)
        ensures
            adapter_pending_max_texture_side(backend.egui_winit) == Some(MAX_TEXTURE_SIDE),
            backend.pending().is_empty(),
    {
        let mut egui_winit = adapter_new(event_loop);
        adapter_set_max_texture_side(&mut egui_winit, MAX_TEXTURE_SIDE);
        adapter_match_window_scale(&mut egui_winit, window);
        EguiContextFreeBackend { egui_winit, frame: FrameOutput::empty() }
    }

    /// Forward a window event to the event adapter and hand back, unchanged,
    /// whether the GUI consumed it and whether a repaint is needed. The
    /// pending frame buffer is untouched.
    pub fn on_event(
        &mut self,
        egui_ctx: &egui::Context,
        event: &winit::event::WindowEvent<'_>,
    ) -> (response: egui_winit::EventResponse)
        ensures
            final(self).pending() == old(self).pending(),
            adapter_pending_max_texture_side(final(self).egui_winit)
                == adapter_pending_max_texture_side(old(self).egui_winit),
    {
        adapter_on_event(&mut self.egui_winit, egui_ctx, event)
    }

    /// Take the accumulated raw input snapshot out of the event adapter, for
    /// the caller to run the GUI context with. The pending frame buffer is
    /// untouched; the adapter's accumulated input is reset.
    pub fn take_input(&mut self, window: &winit::window::Window) -> (input: egui::RawInput)
        ensures
            final(self).pending() == old(self).pending(),
            adapter_pending_max_texture_side(final(self).egui_winit) == None::<usize>,
    {
        adapter_take_input(&mut self.egui_winit, window)
    }

    /// Hand one logic pass's output back: apply the platform output to the
    /// window, and stash the shapes and texture delta in the pending buffer —
    /// the shapes replace the previous frame's, the texture delta is appended
    /// to what is pending, newer entries after older ones. Returns the
    /// advisory repaint delay the GUI context requested. The adapter's pending
    /// texture size limit is untouched.
    pub fn handle_output(
        &mut self,
        egui_ctx: &egui::Context,
        full_output: egui::FullOutput,
        window: &winit::window::Window,
    ) -> (repaint_after: std::time::Duration)
        ensures
            adapter_pending_max_texture_side(final(self).egui_winit)
                == adapter_pending_max_texture_side(old(self).egui_winit),
            final(self).pending().shapes@ == full_output.shapes@,
            final(self).pending().textures_delta.set@ == old(self).pending().textures_delta.set@
                + full_output.textures_delta.set@,
            final(self).pending().textures_delta.free@ == old(self).pending().textures_delta.free@
                + full_output.textures_delta.free@,
            repaint_after == full_output.repaint_after,
    {
        let egui::FullOutput { platform_output, repaint_after, textures_delta, shapes } =
            full_output;
        adapter_apply_platform_output(&mut self.egui_winit, window, egui_ctx, platform_output);
        self.frame.store(shapes, textures_delta);
        repaint_after
    }

    /// Paint the results of the last `handle_output`: take (consume) the
    /// pending shapes and texture delta, tessellate the shapes with the given
    /// context, and hand both to the caller's painter as a [`PaintJob`]. A
    /// second paint without a logic pass in between finds the buffer empty and
    /// yields an empty job.
    ///
    /// Requires a context that has completed at least one logic pass: upstream
    /// `egui::Context::tessellate` panics on a context that never ran. The
    /// caller runs the context, so the caller owes this; it holds from the
    /// first pass on and no later call undoes it.
    pub fn paint(&mut self, egui_ctx: &egui::Context) -> (job: PaintJob)
        requires
            context_has_run(*egui_ctx),
        ensures
            final(self).egui_winit == old(self).egui_winit,
            final(self).pending().is_empty(),
            job.textures_delta.set@ == old(self).pending().textures_delta.set@,
            job.textures_delta.free@ == old(self).pending().textures_delta.free@,
            old(self).pending().shapes@.len() == 0 ==> job.primitives@.len() == 0,
    {
        let taken = self.frame.take();
        let primitives = context_tessellate(egui_ctx, taken.shapes);
        PaintJob { primitives, textures_delta: taken.textures_delta }
    }

    /// The explicit teardown point: the GPU painter and its resources live
    /// with the caller and must be released there, together with this call,
    /// before the window and GPU context are torn down. This layer itself
    /// holds no graphics resources, so nothing of its state changes.
    pub fn destroy(&mut self)
        ensures
            *final(self) == *old(self),
    {
    }
}

} // verus!
