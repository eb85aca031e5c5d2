//! Chunk segmentation: one linear pass over the direct child spans of a
//! text element, accumulating styled runs and flushing them into a chunk
//! whenever an explicit coordinate moves the anchor by more than the fuzzy
//! tolerance.
//!
//! The whole pass is specified by a small state machine over ghost values:
//! [`init_state`] is the state before any span, [`step`] processes one
//! span, and [`final_state`] flushes whatever is still pending. The
//! executable [`convert_chunks`] is proved to produce exactly the chunks,
//! and exactly the diagnostics, of that machine.

use vstd::prelude::*;
use crate::decoration::{conv_tspan_decoration2, decoration_model, TextDecoration};
use crate::font::{convert_font, font_model, font_view, Font, FontModel};
use crate::geom::{fuzzy_eq, spec_fuzzy_eq, spec_identity_transform, Paint, Transform};
use crate::tree::{font_sizes_ok, Keyword, Span, TextElement};

verus! {

/// The alignment reference point of a chunk.
#[derive(Clone, Copy, Debug, PartialEq, Eq, Structural)]
pub enum TextAnchor {
    Start,
    Middle,
    End,
}

/// A non-fatal diagnostic the conversion reports alongside its result.
#[derive(Clone, Copy, Debug, PartialEq, Eq, Structural)]
pub enum Diagnostic {
    /// A coordinate list carried more than one value; only the first one
    /// is used, the rest are ignored.
    CoordinateListTruncated,
}

/// One styled, contiguous piece of text within a chunk.
pub struct StyledRun {
    pub text: String,
    pub fill: Option<Paint>,
    pub stroke: Option<Paint>,
    pub font: Font,
    pub decoration: TextDecoration,
}

/// A run group anchored at one position with one text-anchor value.
/// Never constructed empty by the conversion.
pub struct TextChunk {
    pub x: i64,
    pub y: i64,
    pub anchor: TextAnchor,
    pub runs: Vec<StyledRun>,
}

/// The text payload of a converted element.
pub struct Text {
    pub chunks: Vec<TextChunk>,
}

/// What a converted element holds.
pub enum ElementKind {
    Text(Text),
}

/// The converted element handed to the downstream layout stage.
pub struct Element {
    pub id: String,
    pub kind: ElementKind,
    pub transform: Transform,
}

/// The mathematical image of a [`StyledRun`].
#[verifier::ext_equal]
pub ghost struct RunModel {
    pub text: Seq<char>,
    pub fill: Option<Paint>,
    pub stroke: Option<Paint>,
    pub font: FontModel,
    pub decoration: TextDecoration,
}

/// The mathematical image of a [`TextChunk`].
#[verifier::ext_equal]
pub ghost struct ChunkModel {
    pub x: i64,
    pub y: i64,
    pub anchor: TextAnchor,
    pub runs: Seq<RunModel>,
}

/// The model a [`StyledRun`] value denotes.
pub open spec fn run_view(r: StyledRun) -> RunModel {
    RunModel {
        text: r.text@,
        fill: r.fill,
        stroke: r.stroke,
        font: font_view(r.font),
        decoration: r.decoration,
    }
}

/// The run a visible span resolves to under a given root.
pub open spec fn run_model(node: TextElement, span: Span) -> RunModel {
    RunModel {
        text: match span.text {
            Some(t) => t@,
            None => Seq::empty(),
        },
        fill: span.fill,
        stroke: span.stroke,
        font: font_model(span),
        decoration: decoration_model(node, span),
    }
}

/// A span takes part in the conversion only when it carries a
/// text-content node.
pub open spec fn span_visible(span: Span) -> bool {
    span.text is Some
}

/// The explicit coordinate a number list resolves to: its first value, or
/// none when the list is empty.
pub open spec fn spec_resolve_pos(list: Seq<i64>) -> Option<i64> {
    if list.len() == 0 {
        None
    } else {
        Some(list[0])
    }
}

/// The diagnostics resolving one number list reports: one truncation
/// notice when the list holds more than one value.
pub open spec fn list_diagnostics(list: Seq<i64>) -> Seq<Diagnostic> {
    if list.len() > 1 {
        seq![Diagnostic::CoordinateListTruncated]
    } else {
        Seq::empty()
    }
}

/// The explicit coordinate of a number list, or a default.
pub open spec fn pos_or(list: Seq<i64>, default: i64) -> i64 {
    match spec_resolve_pos(list) {
        Some(v) => v,
        None => default,
    }
}

/// The anchor a keyword resolves to; everything but the three known
/// keywords (absent ones included) falls back to `Start`.
pub open spec fn spec_text_anchor(kw: Option<Keyword>) -> TextAnchor {
    match kw {
        Some(Keyword::Middle) => TextAnchor::Middle,
        Some(Keyword::End) => TextAnchor::End,
        _ => TextAnchor::Start,
    }
}

/// The running state of the chunk builder.
#[verifier::ext_equal]
pub ghost struct BuildState {
    /// The anchor position in effect.
    pub anchor_x: i64,
    pub anchor_y: i64,
    /// The anchor keyword of the node that last defined the position
    /// (the root at first), already resolved.
    pub source_anchor: TextAnchor,
    /// Runs accumulated since the last flush, in document order.
    pub pending: Seq<RunModel>,
    /// Finished chunks, in document order.
    pub chunks: Seq<ChunkModel>,
    /// Diagnostics reported so far, in the order they arose.
    pub diagnostics: Seq<Diagnostic>,
}

/// The state before any span is processed: the anchor comes from the
/// root's explicit coordinates (default 0 each), the anchor keyword from
/// the root.
pub open spec fn init_state(node: TextElement) -> BuildState {
    BuildState {
        anchor_x: pos_or(node.x@, 0),
        anchor_y: pos_or(node.y@, 0),
        source_anchor: spec_text_anchor(node.text_anchor),
        pending: Seq::empty(),
        chunks: Seq::empty(),
        diagnostics: list_diagnostics(node.x@) + list_diagnostics(node.y@),
    }
}

/// Moves the pending runs into a finished chunk anchored at the current
/// position, with the anchor keyword of the node that defined it.
pub open spec fn flush(st: BuildState) -> BuildState {
    BuildState {
        pending: Seq::empty(),
        chunks: st.chunks.push(
            ChunkModel {
                x: st.anchor_x,
                y: st.anchor_y,
                anchor: st.source_anchor,
                runs: st.pending,
            },
        ),
        ..st
    }
}

/// Processes one span. An invisible span changes nothing. A visible span
/// first resolves its explicit coordinates; if it has any, a fuzzy
/// position change (with runs pending) flushes the open chunk, and the
/// anchor and its source move to this span — also when the position did
/// not change. The span's run is then appended to the pending list.
pub open spec fn step(node: TextElement, st: BuildState, span: Span) -> BuildState {
    if !span_visible(span) {
        st
    } else {
        let st0 = BuildState {
            diagnostics: st.diagnostics + list_diagnostics(span.x@) + list_diagnostics(span.y@),
            ..st
        };
        let x = spec_resolve_pos(span.x@);
        let y = spec_resolve_pos(span.y@);
        let st1 = if x is Some || y is Some {
            let nx = match x {
                Some(v) => v,
                None => st0.anchor_x,
            };
            let ny = match y {
                Some(v) => v,
                None => st0.anchor_y,
            };
            let st2 = if st0.pending.len() > 0 && (!spec_fuzzy_eq(nx as int, st0.anchor_x as int)
                || !spec_fuzzy_eq(ny as int, st0.anchor_y as int)) {
                flush(st0)
            } else {
                st0
            };
            BuildState {
                anchor_x: nx,
                anchor_y: ny,
                source_anchor: spec_text_anchor(span.text_anchor),
                ..st2
            }
        } else {
            st0
        };
        BuildState { pending: st1.pending.push(run_model(node, span)), ..st1 }
    }
}

/// The state after the first `n` spans.
pub open spec fn state_after(node: TextElement, n: int) -> BuildState
    decreases n,
{
    if n <= 0 {
        init_state(node)
    } else {
        step(node, state_after(node, n - 1), node.spans@[n - 1])
    }
}

/// The state after all spans and the closing flush.
pub open spec fn final_state(node: TextElement) -> BuildState {
    let st = state_after(node, node.spans@.len() as int);
    if st.pending.len() > 0 {
        flush(st)
    } else {
        st
    }
}

/// The chunk sequence a text element converts to.
pub open spec fn spec_chunks(node: TextElement) -> Seq<ChunkModel> {
    final_state(node).chunks
}

/// The diagnostics a text element's conversion reports.
pub open spec fn spec_diagnostics(node: TextElement) -> Seq<Diagnostic> {
    final_state(node).diagnostics
}

/// The run vector denotes exactly the given run models, in order.
pub open spec fn runs_match(rs: Seq<StyledRun>, m: Seq<RunModel>) -> bool {
    rs.len() == m.len() && forall|i: int| 0 <= i < rs.len() ==> run_view(#[trigger] rs[i]) == m[i]
}

/// The chunk denotes the given chunk model.
pub open spec fn chunk_matches(c: TextChunk, m: ChunkModel) -> bool {
    c.x == m.x && c.y == m.y && c.anchor == m.anchor && runs_match(c.runs@, m.runs)
}

/// The chunk vector denotes exactly the given chunk models, in order.
pub open spec fn chunks_match(cs: Seq<TextChunk>, m: Seq<ChunkModel>) -> bool {
    cs.len() == m.len() && forall|i: int| 0 <= i < cs.len() ==> chunk_matches(
        #[trigger] cs[i],
        m[i],
    )
}

/// Resolves a text-anchor keyword; any keyword other than the three known
/// ones, or an absent one, resolves to `Start`.
pub fn conv_text_anchor(kw: Option<Keyword>) -> (r: TextAnchor)
    ensures
        r == spec_text_anchor(kw),
{
    match kw {
        Some(Keyword::Middle) => TextAnchor::Middle,
        Some(Keyword::End) => TextAnchor::End,
        _ => TextAnchor::Start,
    }
}

/// Resolves a coordinate number list to at most one explicit coordinate:
/// the first value when the list is non-empty, else none (distinct from an
/// explicit zero). A list with more than one value reports a truncation
/// diagnostic and still resolves to its first value.
pub fn resolve_pos(list: &Vec<i64>, diagnostics: &mut Vec<Diagnostic>) -> (r: Option<i64>)
    ensures
        r == spec_resolve_pos(list@),
        final(diagnostics)@ == old(diagnostics)@ + list_diagnostics(list@),
{
    if list.len() == 0 {
        None
    } else {
        if list.len() > 1 {
            diagnostics.push(Diagnostic::CoordinateListTruncated);
            proof {
                assert(diagnostics@ =~= old(diagnostics)@ + list_diagnostics(list@));
            }
        }
        Some(list[0])
    }
}

/// Builds one finished chunk from the runs accumulated so far, anchored at
/// the given position, with the anchor keyword of the node that defined
/// that position.
pub fn create_text_chunk(x: i64, y: i64, runs: Vec<StyledRun>, anchor_kw: Option<Keyword>) -> (c:
    TextChunk)
    ensures
        c.x == x,
        c.y == y,
        c.anchor == spec_text_anchor(anchor_kw),
        c.runs == runs,
{
    TextChunk { x, y, anchor: conv_text_anchor(anchor_kw), runs }
}

/// Converts a text element to its ordered chunk sequence, appending any
/// diagnostics to `diagnostics`. The result is exactly the chunk sequence
/// of the specification state machine ([`spec_chunks`]), and the appended
/// diagnostics are exactly [`spec_diagnostics`].
#[verifier::loop_isolation(false)]
pub fn convert_chunks(text_elem: &TextElement, diagnostics: &mut Vec<Diagnostic>) -> (chunks: Vec<
    TextChunk,
>)
    requires
        font_sizes_ok(*text_elem),
    ensures
        chunks_match(chunks@, spec_chunks(*text_elem)),
        final(diagnostics)@ == old(diagnostics)@ + spec_diagnostics(*text_elem),
{
    let ghost root = *text_elem;
    let mut chunks: Vec<TextChunk> = Vec::new();
    let mut pending: Vec<StyledRun> = Vec::new();

    let rx = resolve_pos(&text_elem.x, diagnostics);
    let ry = resolve_pos(&text_elem.y, diagnostics);
    let mut prev_x: i64 = match rx {
        Some(v) => v,
        None => 0,
    };
    let mut prev_y: i64 = match ry {
        Some(v) => v,
        None => 0,
    };
    let mut source_kw: Option<Keyword> = text_elem.text_anchor;

    let n = text_elem.spans.len();
    let mut i: usize = 0;
    while i < n
        invariant
            i <= n,
            prev_x == state_after(root, i as int).anchor_x,
            prev_y == state_after(root, i as int).anchor_y,
            spec_text_anchor(source_kw) == state_after(root, i as int).source_anchor,
            runs_match(pending@, state_after(root, i as int).pending),
            chunks_match(chunks@, state_after(root, i as int).chunks),
            diagnostics@ == old(diagnostics)@ + state_after(root, i as int).diagnostics,
        decreases n - i,
    {
        let span: &Span = &text_elem.spans[i];
        if let Some(t) = &span.text {
            let x = resolve_pos(&span.x, diagnostics);
            let y = resolve_pos(&span.y, diagnostics);
            if x.is_some() || y.is_some() {
                let nx = match x {
                    Some(v) => v,
                    None => prev_x,
                };
                let ny = match y {
                    Some(v) => v,
                    None => prev_y,
                };
                if pending.len() > 0 && (!fuzzy_eq(nx, prev_x) || !fuzzy_eq(ny, prev_y)) {
                    let runs = pending;
                    pending = Vec::new();
                    let chunk = create_text_chunk(prev_x, prev_y, runs, source_kw);
                    chunks.push(chunk);
                }
                prev_x = nx;
                prev_y = ny;
                source_kw = span.text_anchor;
            }
            let font = convert_font(span);
            let decoration = conv_tspan_decoration2(text_elem, span);
            let run = StyledRun { text: t.clone(), fill: span.fill, stroke: span.stroke, font, decoration };
            pending.push(run);
        }
        i += 1;
    }
    if pending.len() > 0 {
        let runs = pending;
        let chunk = create_text_chunk(prev_x, prev_y, runs, source_kw);
        chunks.push(chunk);
    }
    chunks
}

/// The transform the output element carries: the root's own, or the
/// identity when the root has none.
pub open spec fn spec_transform(t: Option<Transform>) -> Transform {
    match t {
        Some(t) => t,
        None => spec_identity_transform(),
    }
}

/// The output element is a text element whose chunks and transform are the
/// ones the specification machine assigns, with an empty id.
pub open spec fn element_matches(e: Element, node: TextElement) -> bool {
    &&& e.id@ =~= Seq::<char>::empty()
    &&& e.transform == spec_transform(node.transform)
    &&& match e.kind {
        ElementKind::Text(t) => chunks_match(t.chunks@, spec_chunks(node)),
    }
}

/// Converts one text element into a rendering-ready element together with
/// the non-fatal diagnostics the conversion raised. Always succeeds; the
/// chunk list may legitimately be empty.
pub fn convert(text_elem: &TextElement) -> (r: (Element, Vec<Diagnostic>))
    requires
        font_sizes_ok(*text_elem),
    ensures
        element_matches(r.0, *text_elem),
        r.1@ == spec_diagnostics(*text_elem),
{
    let mut diagnostics: Vec<Diagnostic> = Vec::new();
    let chunks = convert_chunks(text_elem, &mut diagnostics);
    let ts = match text_elem.transform {
        Some(t) => t,
        None => Transform::default(),
    };
    let element = Element {
        id: String::new(),
        kind: ElementKind::Text(Text { chunks }),
        transform: ts,
    };
    (element, diagnostics)
}

} // verus!
