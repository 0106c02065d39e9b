//! The pending frame buffer: what a logic pass produced and a paint consumes.
//!
//! Each backend owns one [`FrameOutput`]. A logic pass stores into it — the
//! draw shapes overwrite the previous frame's, the texture delta is appended —
//! and a paint takes the whole buffer, leaving it empty.

use vstd::prelude::*;

verus! {

/// What one paint hands the caller's GPU painter: the tessellated primitives
/// of the consumed shapes, and the texture updates to apply before painting
/// and the frees to apply after, accumulated since the previous paint.
pub struct PaintJob {
    /// GPU-ready primitives, tessellated from the consumed shapes.
    pub primitives: Vec<egui::ClippedPrimitive>,
    /// The texture updates and frees consumed from the pending buffer.
    pub textures_delta: egui::TexturesDelta,
}

/// The most recent logic pass's draw shapes together with the texture updates
/// accumulated since the last paint.
pub struct FrameOutput {
    /// The draw shapes of the last logic pass; overwritten each pass.
    pub shapes: Vec<egui::epaint::ClippedShape>,
    /// The texture updates and frees accumulated since the last paint.
    pub textures_delta: egui::TexturesDelta,
}

impl FrameOutput {
    /// Does the buffer hold nothing at all?
    pub open spec fn is_empty(self) -> bool {
        self.shapes@.len() == 0
            && self.textures_delta.set@.len() == 0
            && self.textures_delta.free@.len() == 0
    }

    /// An empty buffer: no shapes, no pending texture updates.
    pub fn empty() -> (out: FrameOutput)
        ensures
            out.is_empty(),
    {
        FrameOutput {
            shapes: Vec::new(),
            textures_delta: egui::TexturesDelta { set: Vec::new(), free: Vec::new() },
        }
    }

    /// Store one logic pass's output: the shapes replace the previous ones,
    /// the texture delta is appended to what is already pending, newer entries
    /// after older ones. Applied in order, the accumulated updates mean the
    /// override-union of the batches' effects: see
    /// [`crate::textures::lemma_applied_updates_append`].
    pub fn store(&mut self, shapes: Vec<egui::epaint::ClippedShape>, delta: egui::TexturesDelta)
        ensures
            final(self).shapes@ == shapes@,
            final(self).textures_delta.set@ == old(self).textures_delta.set@ + delta.set@,
            final(self).textures_delta.free@ == old(self).textures_delta.free@ + delta.free@,
    {
        let egui::TexturesDelta { mut set, mut free } = delta;
        self.shapes = shapes;
        self.textures_delta.set.append(&mut set);
        self.textures_delta.free.append(&mut free);
    }

    /// Take everything pending, leaving the buffer empty: a second take
    /// without a logic pass in between yields an empty buffer.
    pub fn take(&mut self) -> (taken: FrameOutput)
        ensures
            taken == *old(self),
            final(self).is_empty(),
    {
        let mut taken = FrameOutput::empty();
        core::mem::swap(&mut taken, self);
        taken
    }
}

} // verus!
