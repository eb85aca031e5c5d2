//! Font, decoration and anchor resolution, and the shared coordinate
//! helpers.

use text_chunks::chunk::{conv_text_anchor, resolve_pos, Diagnostic, TextAnchor};
use text_chunks::decoration::{conv_tspan_decoration2, str_contains, TextDecorationStyle};
use text_chunks::font::{
    convert_font, FontStretch, FontStyle, FontVariant, FontWeight, DEFAULT_FONT_SIZE,
};
use text_chunks::geom::{fuzzy_eq, Paint, POSITION_EPSILON};
use text_chunks::tree::{Keyword, Span, TextElement};

fn blank_span() -> Span {
    Span {
        x: Vec::new(),
        y: Vec::new(),
        fill: None,
        stroke: None,
        font_style: None,
        font_variant: None,
        font_weight: None,
        font_stretch: None,
        font_size: None,
        font_family: None,
        decoration: None,
        text_anchor: None,
        text: None,
    }
}

fn blank_root() -> TextElement {
    TextElement {
        x: Vec::new(),
        y: Vec::new(),
        transform: None,
        text_decoration: None,
        fill: None,
        stroke: None,
        text_anchor: None,
        spans: Vec::new(),
    }
}

#[test]
fn font_weight_700_maps_to_w700() {
    let mut span = blank_span();
    span.font_weight = Some(Keyword::N700);
    let font = convert_font(&span);
    assert_eq!(font.weight, FontWeight::W700);
}

#[test]
fn unrecognized_font_weight_falls_back_to_normal() {
    let mut span = blank_span();
    span.font_weight = Some(Keyword::Italic);
    let font = convert_font(&span);
    assert_eq!(font.weight, FontWeight::Normal);
}

#[test]
fn font_defaults() {
    let font = convert_font(&blank_span());
    assert_eq!(font.family, "Times New Roman");
    assert_eq!(font.size, DEFAULT_FONT_SIZE);
    assert_eq!(font.style, FontStyle::Normal);
    assert_eq!(font.variant, FontVariant::Normal);
    assert_eq!(font.weight, FontWeight::Normal);
    assert_eq!(font.stretch, FontStretch::Normal);
}

#[test]
fn font_explicit_attributes() {
    let mut span = blank_span();
    span.font_style = Some(Keyword::Oblique);
    span.font_variant = Some(Keyword::SmallCaps);
    span.font_weight = Some(Keyword::Bolder);
    span.font_stretch = Some(Keyword::Condensed);
    span.font_size = Some(9000);
    span.font_family = Some("Arial".to_string());
    let font = convert_font(&span);
    assert_eq!(font.family, "Arial");
    assert_eq!(font.size, 9000);
    assert_eq!(font.style, FontStyle::Oblique);
    assert_eq!(font.variant, FontVariant::SmallCaps);
    assert_eq!(font.weight, FontWeight::Bolder);
    assert_eq!(font.stretch, FontStretch::Condensed);
}

#[test]
fn span_underline_with_keyword_only_root() {
    // The root's decoration was a bare keyword, which the upstream parser
    // does not surface as a decoration string: only the span's own
    // underline is active, styled from the span's own paint.
    let mut root = blank_root();
    root.fill = Some(Paint(2));
    let mut span = blank_span();
    span.decoration = Some(Keyword::Underline);
    span.fill = Some(Paint(1));
    let d = conv_tspan_decoration2(&root, &span);
    assert_eq!(d.underline, Some(TextDecorationStyle { fill: Some(Paint(1)), stroke: None }));
    assert_eq!(d.overline, None);
    assert_eq!(d.line_through, None);
}

#[test]
fn root_string_styles_inactive_kinds_from_root() {
    // A kind the span does not name itself falls back to the root's
    // decoration string and is styled from the root's paint.
    let mut root = blank_root();
    root.text_decoration = Some("underline overline".to_string());
    root.fill = Some(Paint(7));
    root.stroke = Some(Paint(8));
    let mut span = blank_span();
    span.decoration = Some(Keyword::Underline);
    span.fill = Some(Paint(1));
    let d = conv_tspan_decoration2(&root, &span);
    // Span wins for underline, root supplies overline, nothing names
    // line-through.
    assert_eq!(d.underline, Some(TextDecorationStyle { fill: Some(Paint(1)), stroke: None }));
    assert_eq!(
        d.overline,
        Some(TextDecorationStyle { fill: Some(Paint(7)), stroke: Some(Paint(8)) })
    );
    assert_eq!(d.line_through, None);
}

#[test]
fn line_through_token_has_no_hyphen() {
    let mut root = blank_root();
    root.text_decoration = Some("linethrough".to_string());
    let d = conv_tspan_decoration2(&root, &blank_span());
    assert_eq!(d.line_through, Some(TextDecorationStyle { fill: None, stroke: None }));

    let mut hyphenated = blank_root();
    hyphenated.text_decoration = Some("line-through".to_string());
    let d2 = conv_tspan_decoration2(&hyphenated, &blank_span());
    assert_eq!(d2.line_through, None);
}

#[test]
fn str_contains_is_substring_containment() {
    assert!(str_contains("underline overline", "overline"));
    assert!(!str_contains("underline", "overline"));
    assert!(str_contains("anything", ""));
    assert!(!str_contains("", "x"));
}

#[test]
fn anchor_keywords() {
    assert_eq!(conv_text_anchor(None), TextAnchor::Start);
    assert_eq!(conv_text_anchor(Some(Keyword::Start)), TextAnchor::Start);
    assert_eq!(conv_text_anchor(Some(Keyword::Middle)), TextAnchor::Middle);
    assert_eq!(conv_text_anchor(Some(Keyword::End)), TextAnchor::End);
    assert_eq!(conv_text_anchor(Some(Keyword::Bold)), TextAnchor::Start);
}

#[test]
fn fuzzy_eq_uses_the_shared_epsilon() {
    assert!(fuzzy_eq(5000, 5000));
    assert!(fuzzy_eq(5000, 5000 + POSITION_EPSILON));
    assert!(fuzzy_eq(5000 + POSITION_EPSILON, 5000));
    assert!(!fuzzy_eq(5000, 5000 + POSITION_EPSILON + 1));
    assert!(fuzzy_eq(i64::MIN, i64::MIN));
    assert!(!fuzzy_eq(i64::MIN, i64::MAX));
}

#[test]
fn resolve_pos_policies() {
    let mut diags: Vec<Diagnostic> = Vec::new();
    assert_eq!(resolve_pos(&vec![], &mut diags), None);
    assert_eq!(diags.len(), 0);
    assert_eq!(resolve_pos(&vec![4000], &mut diags), Some(4000));
    assert_eq!(diags.len(), 0);
    assert_eq!(resolve_pos(&vec![4000, 5000], &mut diags), Some(4000));
    assert_eq!(diags, vec![Diagnostic::CoordinateListTruncated]);
}

#[test]
fn empty_text_content_still_makes_a_run() {
    // A present but empty text-content node is not the same as an absent
    // one: the span still contributes a (textless) run.
    let mut root = blank_root();
    let mut span = blank_span();
    span.text = Some(String::new());
    root.spans = vec![span];
    let (elem, _) = text_chunks::chunk::convert(&root);
    match elem.kind {
        text_chunks::chunk::ElementKind::Text(t) => {
            assert_eq!(t.chunks.len(), 1);
            assert_eq!(t.chunks[0].runs.len(), 1);
            assert_eq!(t.chunks[0].runs[0].text, "");
        }
    }
}
