//! Read-only input model: a text element and its direct child spans, as the
//! upstream parser delivers them. Every attribute is already cascaded and
//! typed; absent attributes are `None` (or an empty list for the coordinate
//! lists).

use vstd::prelude::*;
use crate::geom::{Paint, Transform};

verus! {

/// A predefined attribute keyword, the closed vocabulary the upstream
/// parser recognises. Each consumer of a keyword attribute maps the
/// keywords it understands and treats every other one as its default.
#[derive(Clone, Copy, Debug, PartialEq, Eq, Structural)]
pub enum Keyword {
    Normal,
    Italic,
    Oblique,
    SmallCaps,
    Bold,
    Bolder,
    Lighter,
    N100,
    N200,
    N300,
    N400,
    N500,
    N600,
    N700,
    N800,
    N900,
    Wider,
    Narrower,
    UltraCondensed,
    ExtraCondensed,
    Condensed,
    SemiCondensed,
    SemiExpanded,
    Expanded,
    ExtraExpanded,
    UltraExpanded,
    Start,
    Middle,
    End,
    Underline,
    Overline,
    LineThrough,
}

/// A direct child span of a text element. A span may override position and
/// style locally; a span whose `text` is `None` carries no text-content
/// node and is inert.
pub struct Span {
    /// Explicit X coordinates, as a number list; empty means absent.
    pub x: Vec<i64>,
    /// Explicit Y coordinates, as a number list; empty means absent.
    pub y: Vec<i64>,
    /// Fill paint resolved from this span's own attributes.
    pub fill: Option<Paint>,
    /// Stroke paint resolved from this span's own attributes.
    pub stroke: Option<Paint>,
    pub font_style: Option<Keyword>,
    pub font_variant: Option<Keyword>,
    pub font_weight: Option<Keyword>,
    pub font_stretch: Option<Keyword>,
    /// Font size, fixed-point; must be positive when present.
    pub font_size: Option<i64>,
    pub font_family: Option<String>,
    /// The span's own text-decoration keyword.
    pub decoration: Option<Keyword>,
    pub text_anchor: Option<Keyword>,
    /// The embedded text-content node, if any.
    pub text: Option<String>,
}

/// The root text element with its ordered child spans.
pub struct TextElement {
    /// Explicit X coordinates, as a number list; empty means absent.
    pub x: Vec<i64>,
    /// Explicit Y coordinates, as a number list; empty means absent.
    pub y: Vec<i64>,
    pub transform: Option<Transform>,
    /// The root's text-decoration value, kept as the free-form string the
    /// document carries.
    pub text_decoration: Option<String>,
    /// Fill paint resolved from the root's attributes.
    pub fill: Option<Paint>,
    /// Stroke paint resolved from the root's attributes.
    pub stroke: Option<Paint>,
    pub text_anchor: Option<Keyword>,
    pub spans: Vec<Span>,
}

/// A span's font size, when present, is positive. Non-positive sizes are
/// an input error that callers must reject or sanitise upstream.
pub open spec fn span_font_size_ok(span: Span) -> bool {
    match span.font_size {
        Some(s) => s > 0,
        None => true,
    }
}

/// Every span of the element satisfies [`span_font_size_ok`].
pub open spec fn font_sizes_ok(elem: TextElement) -> bool {
    forall|i: int| 0 <= i < elem.spans@.len() ==> span_font_size_ok(#[trigger] elem.spans@[i])
}

} // verus!
