//! A real GUI-logic pass feeding the pending frame buffer: the output of
//! `egui::Context::run` accumulates exactly as the contracts state, and the
//! consumed shapes tessellate into primitives.

use egui_backend::frame::FrameOutput;

use egui::TextureId;

#[test]
fn real_logic_pass_accumulates_and_paints_once() {
    let ctx = egui::Context::default();

    let full_output = ctx.run(egui::RawInput::default(), |ctx| {
        egui::CentralPanel::default().show(ctx, |ui| {
            ui.label("frame one");
        });
    });

    let mut frame = FrameOutput::empty();
    let shapes_len = full_output.shapes.len();
    let set_len = full_output.textures_delta.set.len();
    frame.store(full_output.shapes, full_output.textures_delta);

    // The first pass uploads at least the font texture.
    assert!(set_len >= 1);
    assert!(frame.textures_delta.set.iter().any(|e| e.0 == TextureId::Managed(0)));
    assert_eq!(frame.shapes.len(), shapes_len);

    // Paint-time take: everything pending is consumed at once.
    let taken = frame.take();
    assert_eq!(taken.shapes.len(), shapes_len);
    assert_eq!(taken.textures_delta.set.len(), set_len);
    assert!(frame.shapes.is_empty());
    assert!(frame.textures_delta.set.is_empty());

    let primitives = ctx.tessellate(taken.shapes);
    assert!(!primitives.is_empty());

    // A second take without a logic pass in between has nothing to paint.
    let second = frame.take();
    assert!(second.shapes.is_empty());
    assert!(second.textures_delta.set.is_empty());
    assert!(second.textures_delta.free.is_empty());
    assert!(ctx.tessellate(second.shapes).is_empty());
}

#[test]
fn deltas_of_two_passes_accumulate_until_taken() {
    let ctx = egui::Context::default();

    let out1 = ctx.run(egui::RawInput::default(), |ctx| {
        egui::CentralPanel::default().show(ctx, |ui| {
            ui.label("first");
        });
    });
    let out2 = ctx.run(egui::RawInput::default(), |ctx| {
        egui::CentralPanel::default().show(ctx, |ui| {
            ui.label("second");
        });
    });

    let set1 = out1.textures_delta.set.len();
    let free1 = out1.textures_delta.free.len();
    let set2 = out2.textures_delta.set.len();
    let free2 = out2.textures_delta.free.len();

    let mut frame = FrameOutput::empty();
    frame.store(out1.shapes, out1.textures_delta);
    frame.store(out2.shapes, out2.textures_delta);

    // Shapes of the first pass are replaced; the deltas concatenate.
    assert_eq!(frame.textures_delta.set.len(), set1 + set2);
    assert_eq!(frame.textures_delta.free.len(), free1 + free2);
}
