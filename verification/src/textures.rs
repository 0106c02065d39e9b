//! The meaning of accumulated texture updates.
//!
//! A frame's texture delta is a sequence of `(id, payload)` updates plus a
//! sequence of ids to free. Between logic passes the backends accumulate
//! deltas by concatenation, exactly as `egui::TexturesDelta::append` does.
//! This module gives that accumulation its meaning: applying a sequence of
//! updates in order builds a map from texture id to payload in which a later
//! update to the same id overrides an earlier one, and concatenating two
//! batches applies as the override-union of the two batches' maps.

use vstd::prelude::*;

verus! {

/// The effect of applying a sequence of texture updates in order: a map from
/// texture id to the payload that ends up stored for it. A later update to
/// the same id overrides an earlier one.
pub open spec fn applied_updates(
    entries: Seq<(egui::TextureId, egui::epaint::ImageDelta)>,
) -> Map<egui::TextureId, egui::epaint::ImageDelta>
    decreases entries.len(),
{
    if entries.len() == 0 {
        Map::empty()
    } else {
        applied_updates(entries.drop_last()).insert(entries.last().0, entries.last().1)
    }
}

/// Accumulating texture updates by concatenation means merging with
/// override-on-conflict: applying `older + newer` yields the union of the two
/// batches' maps in which `newer` wins on a conflicting texture id.
pub proof fn lemma_applied_updates_append(
    older: Seq<(egui::TextureId, egui::epaint::ImageDelta)>,
    newer: Seq<(egui::TextureId, egui::epaint::ImageDelta)>,
)
    ensures
        applied_updates(older + newer)
            == applied_updates(older).union_prefer_right(applied_updates(newer)),
    decreases newer.len(),
{
    if newer.len() == 0 {
        assert(older + newer =~= older);
        assert(applied_updates(older).union_prefer_right(applied_updates(newer))
            =~= applied_updates(older));
    } else {
        lemma_applied_updates_append(older, newer.drop_last());
        assert((older + newer).drop_last() =~= older + newer.drop_last());
        assert((older + newer).last() == newer.last());
        assert(applied_updates(older)
            .union_prefer_right(applied_updates(newer.drop_last()))
            .insert(newer.last().0, newer.last().1)
            =~= applied_updates(older).union_prefer_right(
                applied_updates(newer.drop_last()).insert(newer.last().0, newer.last().1),
            ));
    }
}

} // verus!
