//! A small verified adapter layer that binds the `egui` immediate-mode GUI
//! library to the `winit` windowing library and a caller-supplied GPU painter.
//!
//! The layer converts window events into GUI input through `egui_winit`, runs
//! one GUI-logic pass per frame, and keeps the resulting draw shapes and
//! texture updates in a pending frame buffer until paint time. The pending
//! buffer's bookkeeping — shapes overwritten each frame, texture updates
//! accumulated until consumed, both taken at paint — is the verified core.
//! Calls into `egui`, `egui_winit` and `winit` stand behind trusted items in
//! [`upstream`].

pub mod backend;
pub mod context_free_backend;
pub mod frame;
pub mod textures;
pub mod upstream;
