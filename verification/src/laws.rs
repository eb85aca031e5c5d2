//! Laws of the chunk segmentation, stated against the specification state
//! machine of [`crate::chunk`] and proved once and for all.

use vstd::prelude::*;
use crate::chunk::{
    init_state, run_model, span_visible, spec_chunks, spec_resolve_pos, state_after, ChunkModel,
};
use crate::geom::spec_fuzzy_eq;
use crate::tree::TextElement;

verus! {

/// A text element with no spans, or none of whose spans carries a
/// text-content node, converts to an empty chunk list.
pub proof fn lemma_no_text_no_chunks(node: TextElement)
    requires
        forall|i: int| 0 <= i < node.spans@.len() ==> !span_visible(#[trigger] node.spans@[i]),
    ensures
        spec_chunks(node).len() == 0,
{
    lemma_invisible_prefix_keeps_init(node, node.spans@.len() as int);
}

/// Helper for [`lemma_no_text_no_chunks`]: while every span is invisible,
/// the builder state never moves off its initial value.
proof fn lemma_invisible_prefix_keeps_init(node: TextElement, k: int)
    requires
        0 <= k <= node.spans@.len(),
        forall|i: int| 0 <= i < node.spans@.len() ==> !span_visible(#[trigger] node.spans@[i]),
    ensures
        state_after(node, k) == init_state(node),
    decreases k,
{
    if k > 0 {
        lemma_invisible_prefix_keeps_init(node, k - 1);
    }
}

/// A span without a text-content node is inert: it leaves the whole
/// builder state — anchor, pending runs, chunks and diagnostics — exactly
/// as it was.
pub proof fn lemma_invisible_span_inert(node: TextElement, j: int)
    requires
        0 <= j < node.spans@.len(),
        !span_visible(node.spans@[j]),
    ensures
        state_after(node, j + 1) == state_after(node, j),
{
}

/// A span that carries text always leaves at least one run pending.
pub proof fn lemma_visible_span_leaves_pending(node: TextElement, j: int)
    requires
        0 <= j < node.spans@.len(),
        span_visible(node.spans@[j]),
    ensures
        state_after(node, j + 1).pending.len() > 0,
{
}

/// Two consecutive spans that both carry text coalesce into one chunk when
/// the second gives no explicit coordinates, or gives coordinates fuzzily
/// equal to the anchor in effect: no chunk is closed at the second span,
/// and its run is appended after the first span's, keeping input order.
pub proof fn lemma_consecutive_spans_coalesce(node: TextElement, j: int)
    requires
        0 <= j,
        j + 1 < node.spans@.len(),
        span_visible(node.spans@[j]),
        span_visible(node.spans@[j + 1]),
        ({
            let st = state_after(node, j + 1);
            let x = spec_resolve_pos(node.spans@[j + 1].x@);
            let y = spec_resolve_pos(node.spans@[j + 1].y@);
            let nx = match x {
                Some(v) => v,
                None => st.anchor_x,
            };
            let ny = match y {
                Some(v) => v,
                None => st.anchor_y,
            };
            (x is None && y is None) || (spec_fuzzy_eq(nx as int, st.anchor_x as int)
                && spec_fuzzy_eq(ny as int, st.anchor_y as int))
        }),
    ensures
        state_after(node, j + 2).chunks == state_after(node, j + 1).chunks,
        state_after(node, j + 2).pending == state_after(node, j + 1).pending.push(
            run_model(node, node.spans@[j + 1]),
        ),
        state_after(node, j + 1).pending.len() > 0,
{
    lemma_visible_span_leaves_pending(node, j);
}

/// A span carrying text whose explicit Y moves the anchor by more than the
/// tolerance while X is left unchanged closes the open chunk: the finished
/// chunk holds exactly the runs accumulated before this span, anchored at
/// the old position with the old source's anchor keyword, and the span's
/// own run starts the next pending list.
pub proof fn lemma_y_change_opens_chunk(node: TextElement, j: int)
    requires
        0 <= j < node.spans@.len(),
        span_visible(node.spans@[j]),
        node.spans@[j].x@.len() == 0,
        node.spans@[j].y@.len() > 0,
        state_after(node, j).pending.len() > 0,
        !spec_fuzzy_eq(node.spans@[j].y@[0] as int, state_after(node, j).anchor_y as int),
    ensures
        ({
            let st = state_after(node, j);
            let next = state_after(node, j + 1);
            &&& next.chunks == st.chunks.push(
                ChunkModel {
                    x: st.anchor_x,
                    y: st.anchor_y,
                    anchor: st.source_anchor,
                    runs: st.pending,
                },
            )
            &&& next.pending =~= seq![run_model(node, node.spans@[j])]
            &&& next.anchor_x == st.anchor_x
            &&& next.anchor_y == node.spans@[j].y@[0]
        }),
{
}

/// No chunk is ever empty: every chunk the conversion produces holds at
/// least one run.
pub proof fn lemma_chunks_never_empty(node: TextElement)
    ensures
        forall|i: int| 0 <= i < spec_chunks(node).len() ==> #[trigger] spec_chunks(
            node,
        )[i].runs.len() > 0,
{
    lemma_state_chunks_nonempty(node, node.spans@.len() as int);
}

/// Helper for [`lemma_chunks_never_empty`]: every finished chunk in every
/// intermediate state is non-empty, because a flush only happens with runs
/// pending.
proof fn lemma_state_chunks_nonempty(node: TextElement, k: int)
    requires
        0 <= k <= node.spans@.len(),
    ensures
        forall|i: int| 0 <= i < state_after(node, k).chunks.len() ==> #[trigger] state_after(
            node,
            k,
        ).chunks[i].runs.len() > 0,
    decreases k,
{
    if k > 0 {
        lemma_state_chunks_nonempty(node, k - 1);
    }
}

} // verus!
