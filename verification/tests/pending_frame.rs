//! The pending frame buffer's bookkeeping: shapes overwritten, texture deltas
//! accumulated by concatenation, everything consumed at take time.

use egui_backend::backend::MAX_TEXTURE_SIDE;
use egui_backend::frame::FrameOutput;

use egui::epaint::ClippedShape;
use egui::epaint::ImageDelta;
use egui::Color32;
use egui::ColorImage;
use egui::Rect;
use egui::Shape;
use egui::TextureId;
use egui::TextureOptions;
use egui::TexturesDelta;

fn patch(w: usize, h: usize) -> ImageDelta {
    ImageDelta::full(ColorImage::new([w, h], Color32::RED), TextureOptions::LINEAR)
}

fn noop_shape() -> ClippedShape {
    ClippedShape(Rect::EVERYTHING, Shape::Noop)
}

#[test]
fn empty_buffer_is_empty() {
    let f = FrameOutput::empty();
    assert_eq!(f.shapes.len(), 0);
    assert_eq!(f.textures_delta.set.len(), 0);
    assert_eq!(f.textures_delta.free.len(), 0);
}

#[test]
fn store_overwrites_shapes_and_appends_delta() {
    let mut f = FrameOutput::empty();

    f.store(
        vec![noop_shape(), noop_shape()],
        TexturesDelta {
            set: vec![(TextureId::User(1), patch(1, 1))],
            free: vec![TextureId::Managed(9)],
        },
    );
    assert_eq!(f.shapes.len(), 2);
    assert_eq!(f.textures_delta.set.len(), 1);

    f.store(
        vec![noop_shape()],
        TexturesDelta {
            set: vec![(TextureId::User(2), patch(1, 1)), (TextureId::Managed(5), patch(2, 2))],
            free: vec![TextureId::User(3)],
        },
    );

    // Shapes are the second pass's alone; the delta is both passes', in order.
    assert_eq!(f.shapes.len(), 1);
    let ids: Vec<TextureId> = f.textures_delta.set.iter().map(|e| e.0).collect();
    assert_eq!(ids, vec![TextureId::User(1), TextureId::User(2), TextureId::Managed(5)]);
    assert_eq!(f.textures_delta.free, vec![TextureId::Managed(9), TextureId::User(3)]);
}

#[test]
fn take_hands_out_everything_and_empties_the_buffer() {
    let mut f = FrameOutput::empty();
    f.store(
        vec![noop_shape()],
        TexturesDelta { set: vec![(TextureId::User(7), patch(4, 4))], free: vec![] },
    );

    let taken = f.take();
    assert_eq!(taken.shapes.len(), 1);
    assert_eq!(taken.textures_delta.set.len(), 1);
    assert_eq!(taken.textures_delta.set[0].0, TextureId::User(7));

    assert_eq!(f.shapes.len(), 0);
    assert_eq!(f.textures_delta.set.len(), 0);
    assert_eq!(f.textures_delta.free.len(), 0);
}

#[test]
fn second_take_without_a_logic_pass_is_empty() {
    let mut f = FrameOutput::empty();
    f.store(
        vec![noop_shape()],
        TexturesDelta {
            set: vec![(TextureId::User(1), patch(1, 1))],
            free: vec![TextureId::User(2)],
        },
    );

    let first = f.take();
    assert_eq!(first.shapes.len(), 1);

    let second = f.take();
    assert_eq!(second.shapes.len(), 0);
    assert_eq!(second.textures_delta.set.len(), 0);
    assert_eq!(second.textures_delta.free.len(), 0);
}

#[test]
fn conflicting_updates_merge_with_latest_winning() {
    let mut f = FrameOutput::empty();

    // Two accumulation rounds both update User(1); the older round alone
    // updates Managed(2).
    f.store(
        vec![],
        TexturesDelta {
            set: vec![(TextureId::User(1), patch(1, 1)), (TextureId::Managed(2), patch(5, 5))],
            free: vec![],
        },
    );
    f.store(
        vec![],
        TexturesDelta { set: vec![(TextureId::User(1), patch(3, 2))], free: vec![] },
    );

    // Applying the stored updates in order: the newer payload wins on the
    // conflicting id, the older round's other update survives.
    let mut latest: std::collections::HashMap<TextureId, [usize; 2]> =
        std::collections::HashMap::new();
    for (id, delta) in &f.textures_delta.set {
        latest.insert(*id, delta.image.size());
    }
    assert_eq!(latest[&TextureId::User(1)], [3, 2]);
    assert_eq!(latest[&TextureId::Managed(2)], [5, 5]);
}

#[test]
fn texture_side_cap_is_fixed_at_2048() {
    assert_eq!(MAX_TEXTURE_SIDE, 2048);
}
