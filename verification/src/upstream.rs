//! Trusted bindings to the outside crates `egui`, `egui_winit` and `winit`.
//!
//! Everything in this module is believed rather than proved: the type
//! declarations make the outside types usable in signatures, and each
//! wrapper's contract states only what the named upstream function's source
//! plainly shows. All verified code reaches the outside crates through here.

use vstd::prelude::*;

verus! {

// ---------------------------------------------------------------------------
// Outside types, declared so that they can stand in signatures and fields.
// ---------------------------------------------------------------------------

/// `egui::Context`: the immediate-mode GUI engine. Interior-mutable upstream,
/// so it is opaque here and nothing is stated about values of it.
#[verifier::external_type_specification]
#[verifier::external_body]
pub struct ExContext(egui::Context);

/// `egui_winit::State`: the event adapter between `winit` and `egui`. Opaque;
/// the properties the contracts need are named below.
#[verifier::external_type_specification]
#[verifier::external_body]
pub struct ExState(egui_winit::State);

/// `egui_winit::EventResponse`: whether the GUI consumed an event and whether
/// a repaint is needed. Carried through unchanged.
#[verifier::external_type_specification]
#[verifier::external_body]
pub struct ExEventResponse(egui_winit::EventResponse);

/// `winit::window::Window`: a handle to a native window. Its observable state
/// (scale factor, size) can change behind the handle, so nothing is named of it.
#[verifier::external_type_specification]
#[verifier::external_body]
pub struct ExWindow(winit::window::Window);

/// `winit::event::WindowEvent`: one windowing-system event.
#[verifier::external_type_specification]
#[verifier::external_body]
pub struct ExWindowEvent<'a>(winit::event::WindowEvent<'a>);

/// `winit::event_loop::EventLoopWindowTarget`: the display handle the event
/// adapter is built against.
#[verifier::external_type_specification]
#[verifier::external_body]
#[verifier::reject_recursive_types(T)]
pub struct ExEventLoopWindowTarget<T: 'static>(winit::event_loop::EventLoopWindowTarget<T>);

/// `egui::RawInput`: one frame's accumulated GUI input. Opaque; it carries
/// time- and machine-dependent data.
#[verifier::external_type_specification]
#[verifier::external_body]
pub struct ExRawInput(egui::RawInput);

/// `egui::PlatformOutput`: GUI-requested platform actions (cursor icon,
/// clipboard text, URLs to open). Carried through to the event adapter.
#[verifier::external_type_specification]
#[verifier::external_body]
pub struct ExPlatformOutput(egui::PlatformOutput);

/// `egui::epaint::ClippedShape`: one abstract draw shape. Carried through to
/// tessellation unread.
#[verifier::external_type_specification]
#[verifier::external_body]
pub struct ExClippedShape(egui::epaint::ClippedShape);

/// `egui::ClippedPrimitive`: one tessellated, GPU-ready primitive.
#[verifier::external_type_specification]
#[verifier::external_body]
pub struct ExClippedPrimitive(egui::ClippedPrimitive);

/// `egui::TextureId`: the identity of one texture. Opaque; the contracts only
/// ever compare ids for equality, at the specification level.
#[verifier::external_type_specification]
#[verifier::external_body]
pub struct ExTextureId(egui::TextureId);

/// `egui::epaint::ImageDelta`: the payload of one texture update. Carried
/// through to the painter unread.
#[verifier::external_type_specification]
#[verifier::external_body]
pub struct ExImageDelta(egui::epaint::ImageDelta);

/// `egui::TexturesDelta`: the texture updates (`set`) and frees (`free`)
/// requested by the GUI context since last consumed. Declared with its fields
/// visible: both are public upstream, and the verified bookkeeping reads them.
#[verifier::external_type_specification]
pub struct ExTexturesDelta(egui::TexturesDelta);

/// `egui::FullOutput`: everything one GUI-logic pass returns. Declared with
/// its fields visible: all four are public upstream, and the verified
/// bookkeeping splits them apart.
#[verifier::external_type_specification]
pub struct ExFullOutput(egui::FullOutput);

// ---------------------------------------------------------------------------
// Named properties of the event adapter.
// ---------------------------------------------------------------------------

/// The texture size limit the event adapter will hand the GUI context with the
/// next input snapshot: the `max_texture_side` field of the pending
/// `egui::RawInput` that `egui_winit::State` accumulates (observable upstream
/// through `egui_winit::State::egui_input`).
pub uninterp spec fn adapter_pending_max_texture_side(state: egui_winit::State) -> Option<usize>;

/// Whether the GUI context has completed at least one logic pass: upstream,
/// `egui::Context::run` initializes the context's font atlas on its first
/// pass, and no call made through this crate ever uninitializes it, so the
/// property, once established, holds for good. `egui::Context::tessellate`
/// demands it: on a context that never ran, that call panics.
pub uninterp spec fn context_has_run(egui_ctx: egui::Context) -> bool;

// ---------------------------------------------------------------------------
// Trusted wrappers around the outside calls the backends make.
// ---------------------------------------------------------------------------

/// Relies on `egui_winit::State::new`: builds a fresh event adapter bound to
/// the given display.
#[verifier::external_body]
pub(crate) fn adapter_new<T: 'static>(
    event_loop: &winit::event_loop::EventLoopWindowTarget<T>,
) -> egui_winit::State {
    egui_winit::State::new(event_loop)
}

/// Relies on `egui_winit::State::set_max_texture_side`: it stores `Some(side)`
/// as the pending input's texture size limit and touches nothing else.
#[verifier::external_body]
pub(crate) fn adapter_set_max_texture_side(state: &mut egui_winit::State, side: usize)
    ensures
        adapter_pending_max_texture_side(*final(state)) == Some(side),
{
    state.set_max_texture_side(side);
}

/// Relies on `egui_winit::State::set_pixels_per_point` and
/// `egui_winit::native_pixels_per_point`: the adapter afterwards reports the
/// window's current scale factor as its pixels-per-point, and the pending
/// texture size limit is untouched (`set_pixels_per_point` writes only the
/// scale fields).
#[verifier::external_body]
pub(crate) fn adapter_match_window_scale(
    state: &mut egui_winit::State,
    window: &winit::window::Window,
)
    ensures
        adapter_pending_max_texture_side(*final(state))
            == adapter_pending_max_texture_side(*old(state)),
{
    let scale = egui_winit::native_pixels_per_point(window);
    state.set_pixels_per_point(scale);
}

/// Relies on `egui_winit::State::on_event`: it translates one window event
/// into pending GUI input and reports whether the GUI consumed the event and
/// whether a repaint is needed. No arm of it writes the pending texture size
/// limit.
#[verifier::external_body]
pub(crate) fn adapter_on_event(
    state: &mut egui_winit::State,
    egui_ctx: &egui::Context,
    event: &winit::event::WindowEvent<'_>,
) -> (response: egui_winit::EventResponse)
    ensures
        adapter_pending_max_texture_side(*final(state))
            == adapter_pending_max_texture_side(*old(state)),
{
    state.on_event(egui_ctx, event)
}

/// Relies on `egui_winit::State::take_egui_input`: it moves the accumulated
/// input out of the adapter. The pending input is reset by `RawInput::take`,
/// which clears its texture size limit to `None`.
#[verifier::external_body]
pub(crate) fn adapter_take_input(
    state: &mut egui_winit::State,
    window: &winit::window::Window,
) -> (input: egui::RawInput)
    ensures
        adapter_pending_max_texture_side(*final(state)) == None::<usize>,
{
    state.take_egui_input(window)
}

/// Relies on `egui_winit::State::handle_platform_output`: it applies
/// GUI-requested platform actions (cursor icon, clipboard, URLs) back to the
/// window, and writes no field of the pending input — in particular not the
/// pending texture size limit. Nothing more is stated of the adapter
/// afterwards: the call also adopts the context's current scale, which is
/// interior-mutable upstream.
#[verifier::external_body]
pub(crate) fn adapter_apply_platform_output(
    state: &mut egui_winit::State,
    window: &winit::window::Window,
    egui_ctx: &egui::Context,
    platform_output: egui::PlatformOutput,
)
    ensures
        adapter_pending_max_texture_side(*final(state))
            == adapter_pending_max_texture_side(*old(state)),
{
    state.handle_platform_output(window, egui_ctx, platform_output);
}

/// Relies on `egui::Context::default`: builds a fresh GUI context.
#[verifier::external_body]
pub(crate) fn context_default() -> egui::Context {
    egui::Context::default()
}

/// Relies on `egui::Context::run`: it runs one GUI-logic pass over the given
/// input with the caller-supplied logic callback. What comes back depends on
/// the context's interior state, so nothing is stated of the result. The
/// context is taken mutably: the call advances its interior state — the handle
/// value itself is unchanged — and afterwards the context has completed a
/// logic pass ([`context_has_run`], a property no later call undoes).
#[verifier::external_body]
pub(crate) fn context_run<F: FnMut(&egui::Context)>(
    egui_ctx: &mut egui::Context,
    new_input: egui::RawInput,
    run_ui: F,
) -> (full_output: egui::FullOutput)
    ensures
        *final(egui_ctx) == *old(egui_ctx),
        context_has_run(*final(egui_ctx)),
{
    egui_ctx.run(new_input, run_ui)
}

/// Relies on `egui::Context::tessellate`: it turns draw shapes into GPU-ready
/// primitives, one pass over the given shapes, so an empty shape list yields
/// an empty primitive list. Upstream demands that the context has completed at
/// least one logic pass; on a context that never has, the call panics — the
/// `requires` leaves such a context out.
#[verifier::external_body]
pub(crate) fn context_tessellate(
    egui_ctx: &egui::Context,
    shapes: Vec<egui::epaint::ClippedShape>,
) -> (primitives: Vec<egui::ClippedPrimitive>)
    requires
        context_has_run(*egui_ctx),
    ensures
        shapes@.len() == 0 ==> primitives@.len() == 0,
{
    egui_ctx.tessellate(shapes)
}

} // verus!
