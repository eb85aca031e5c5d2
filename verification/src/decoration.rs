//! Text-decoration resolution. For each decoration kind (underline,
//! overline, line-through) exactly one source is consulted: the span's own
//! decoration keyword first, else the root's free-form decoration string
//! (matched by substring containment of the kind's token); the styles are
//! never merged across span and root.

use vstd::prelude::*;
use crate::geom::Paint;
use crate::tree::{Keyword, Span, TextElement};

verus! {

/// The needle occurs in the haystack starting at position `i`.
pub open spec fn substr_at(hay: Seq<char>, needle: Seq<char>, i: int) -> bool {
    hay.subrange(i, i + needle.len()) == needle
}

/// The needle occurs somewhere in the haystack.
pub open spec fn contains_substr(hay: Seq<char>, needle: Seq<char>) -> bool {
    exists|i: int| 0 <= i <= hay.len() - needle.len() && substr_at(hay, needle, i)
}

/// The needle occurs in the haystack starting at character `i`.
fn match_at(hay: &str, needle: &str, i: usize, hlen: usize, nlen: usize) -> (r: bool)
    requires
        hlen == hay@.len(),
        nlen == needle@.len(),
        i + nlen <= hlen,
    ensures
        r == substr_at(hay@, needle@, i as int),
{
    let mut j: usize = 0;
    while j < nlen
        invariant
            hlen == hay@.len(),
            nlen == needle@.len(),
            i + nlen <= hlen,
            j <= nlen,
            forall|k: int| 0 <= k < j ==> hay@[i + k] == needle@[k],
        decreases nlen - j,
    {
        if hay.get_char(i + j) != needle.get_char(j) {
            proof {
                assert(hay@.subrange(i as int, i + nlen)[j as int] != needle@[j as int]);
            }
            return false;
        }
        j += 1;
    }
    proof {
        assert(hay@.subrange(i as int, i + nlen) =~= needle@);
    }
    true
}

/// Whether `needle` is a substring of `hay`, by characters.
pub fn str_contains(hay: &str, needle: &str) -> (r: bool)
    ensures
        r == contains_substr(hay@, needle@),
{
    let hlen = hay.unicode_len();
    let nlen = needle.unicode_len();
    if nlen > hlen {
        return false;
    }
    if nlen == 0 {
        proof {
            assert(substr_at(hay@, needle@, 0)) by {
                assert(hay@.subrange(0, 0) =~= needle@);
            }
        }
        return true;
    }
    let mut i: usize = 0;
    while i <= hlen - nlen
        invariant
            hlen == hay@.len(),
            nlen == needle@.len(),
            1 <= nlen <= hlen,
            i <= hlen - nlen + 1,
            forall|k: int| 0 <= k < i ==> !substr_at(hay@, needle@, k),
        decreases hlen - nlen + 1 - i,
    {
        if match_at(hay, needle, i, hlen, nlen) {
            return true;
        }
        i += 1;
    }
    false
}

/// The style of one rendered decoration line: the paints it is drawn with.
#[derive(Clone, Copy, Debug, PartialEq, Eq, Structural)]
pub struct TextDecorationStyle {
    pub fill: Option<Paint>,
    pub stroke: Option<Paint>,
}

/// The resolved decoration of one run: three independent optional slots.
#[derive(Clone, Copy, Debug, PartialEq, Eq, Structural)]
pub struct TextDecoration {
    pub underline: Option<TextDecorationStyle>,
    pub overline: Option<TextDecorationStyle>,
    pub line_through: Option<TextDecorationStyle>,
}

/// Which decoration kinds one node switches on.
#[derive(Clone, Copy, Debug, PartialEq, Eq, Structural)]
pub struct TextDecoTypes {
    pub has_underline: bool,
    pub has_overline: bool,
    pub has_line_through: bool,
}

/// The root's decoration string, empty when the attribute is absent.
pub open spec fn root_dec_text(node: TextElement) -> Seq<char> {
    match node.text_decoration {
        Some(s) => s@,
        None => Seq::empty(),
    }
}

/// The root switches a kind on when its decoration string contains the
/// kind's token.
pub open spec fn spec_root_active(node: TextElement, token: Seq<char>) -> bool {
    contains_substr(root_dec_text(node), token)
}

/// A span switches a kind on only by its own keyword, never by an
/// ancestor's.
pub open spec fn spec_span_active(span: Span, kw: Keyword) -> bool {
    span.decoration == Some(kw)
}

/// One decoration slot: the span's own paint when the span switches the
/// kind on, else the root's paint when the root does, else absent.
pub open spec fn spec_dec_slot(
    node: TextElement,
    span: Span,
    span_active: bool,
    root_active: bool,
) -> Option<TextDecorationStyle> {
    if span_active {
        Some(TextDecorationStyle { fill: span.fill, stroke: span.stroke })
    } else if root_active {
        Some(TextDecorationStyle { fill: node.fill, stroke: node.stroke })
    } else {
        None
    }
}

/// The full decoration a span resolves to under a given root.
pub open spec fn decoration_model(node: TextElement, span: Span) -> TextDecoration {
    TextDecoration {
        underline: spec_dec_slot(
            node,
            span,
            spec_span_active(span, Keyword::Underline),
            spec_root_active(node, "underline"@),
        ),
        overline: spec_dec_slot(
            node,
            span,
            spec_span_active(span, Keyword::Overline),
            spec_root_active(node, "overline"@),
        ),
        line_through: spec_dec_slot(
            node,
            span,
            spec_span_active(span, Keyword::LineThrough),
            spec_root_active(node, "linethrough"@),
        ),
    }
}

/// Reads the decoration kinds the root element switches on, by substring
/// containment of each kind's token in its decoration string.
pub fn conv_text_decoration(node: &TextElement) -> (t: TextDecoTypes)
    ensures
        t.has_underline == spec_root_active(*node, "underline"@),
        t.has_overline == spec_root_active(*node, "overline"@),
        t.has_line_through == spec_root_active(*node, "linethrough"@),
{
    let text: &str = match &node.text_decoration {
        Some(s) => s.as_str(),
        None => "",
    };
    proof {
        reveal_strlit("");
        assert(text@ =~= root_dec_text(*node));
    }
    TextDecoTypes {
        has_underline: str_contains(text, "underline"),
        has_overline: str_contains(text, "overline"),
        has_line_through: str_contains(text, "linethrough"),
    }
}

/// Reads the decoration kinds a span switches on by its own keyword.
pub fn conv_tspan_decoration(tspan: &Span) -> (t: TextDecoTypes)
    ensures
        t.has_underline == spec_span_active(*tspan, Keyword::Underline),
        t.has_overline == spec_span_active(*tspan, Keyword::Overline),
        t.has_line_through == spec_span_active(*tspan, Keyword::LineThrough),
{
    match tspan.decoration {
        Some(Keyword::Underline) => TextDecoTypes {
            has_underline: true,
            has_overline: false,
            has_line_through: false,
        },
        Some(Keyword::Overline) => TextDecoTypes {
            has_underline: false,
            has_overline: true,
            has_line_through: false,
        },
        Some(Keyword::LineThrough) => TextDecoTypes {
            has_underline: false,
            has_overline: false,
            has_line_through: true,
        },
        _ => TextDecoTypes {
            has_underline: false,
            has_overline: false,
            has_line_through: false,
        },
    }
}

/// One slot of the output decoration; see [`spec_dec_slot`].
fn gen_style(node: &TextElement, tspan: &Span, in_tspan: bool, in_text: bool) -> (r: Option<
    TextDecorationStyle,
>)
    ensures
        r == spec_dec_slot(*node, *tspan, in_tspan, in_text),
{
    if in_tspan {
        Some(TextDecorationStyle { fill: tspan.fill, stroke: tspan.stroke })
    } else if in_text {
        Some(TextDecorationStyle { fill: node.fill, stroke: node.stroke })
    } else {
        None
    }
}

/// Resolves a span's decoration under a given root: per kind, the span's
/// own keyword wins, else the root's string, else the slot stays empty.
pub fn conv_tspan_decoration2(node: &TextElement, tspan: &Span) -> (d: TextDecoration)
    ensures
        d == decoration_model(*node, *tspan),
{
    let text_dec = conv_text_decoration(node);
    let tspan_dec = conv_tspan_decoration(tspan);
    TextDecoration {
        underline: gen_style(node, tspan, tspan_dec.has_underline, text_dec.has_underline),
        overline: gen_style(node, tspan, tspan_dec.has_overline, text_dec.has_overline),
        line_through: gen_style(node, tspan, tspan_dec.has_line_through, text_dec.has_line_through),
    }
}

} // verus!
