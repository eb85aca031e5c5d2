//! Font resolution: mapping a span's keyword and numeric attributes to a
//! closed font descriptor. Total: every unrecognised or absent keyword
//! falls back to the kind's `Normal`, an absent size or family falls back
//! to a fixed default.

use vstd::prelude::*;
use crate::tree::{Keyword, Span};

verus! {

/// Default font size (fixed-point), used when a span has no size attribute.
pub const DEFAULT_FONT_SIZE: i64 = 12000;

/// Default font family, used when a span has no family attribute.
pub open spec fn spec_default_font_family() -> Seq<char> {
    "Times New Roman"@
}

#[derive(Clone, Copy, Debug, PartialEq, Eq, Structural)]
pub enum FontStyle {
    Normal,
    Italic,
    Oblique,
}

#[derive(Clone, Copy, Debug, PartialEq, Eq, Structural)]
pub enum FontVariant {
    Normal,
    SmallCaps,
}

#[derive(Clone, Copy, Debug, PartialEq, Eq, Structural)]
pub enum FontWeight {
    Normal,
    Bold,
    Bolder,
    Lighter,
    W100,
    W200,
    W300,
    W400,
    W500,
    W600,
    W700,
    W800,
    W900,
}

#[derive(Clone, Copy, Debug, PartialEq, Eq, Structural)]
pub enum FontStretch {
    Normal,
    Wider,
    Narrower,
    UltraCondensed,
    ExtraCondensed,
    Condensed,
    SemiCondensed,
    SemiExpanded,
    Expanded,
    ExtraExpanded,
    UltraExpanded,
}

/// A resolved font descriptor.
pub struct Font {
    pub family: String,
    /// Fixed-point font size, always positive.
    pub size: i64,
    pub style: FontStyle,
    pub variant: FontVariant,
    pub weight: FontWeight,
    pub stretch: FontStretch,
}

/// The mathematical image of a [`Font`]: the same fields with the family
/// abstracted to its character sequence.
#[verifier::ext_equal]
pub ghost struct FontModel {
    pub family: Seq<char>,
    pub size: i64,
    pub style: FontStyle,
    pub variant: FontVariant,
    pub weight: FontWeight,
    pub stretch: FontStretch,
}

/// The model a [`Font`] value denotes.
pub open spec fn font_view(f: Font) -> FontModel {
    FontModel {
        family: f.family@,
        size: f.size,
        style: f.style,
        variant: f.variant,
        weight: f.weight,
        stretch: f.stretch,
    }
}

pub open spec fn spec_font_style(kw: Option<Keyword>) -> FontStyle {
    match kw {
        Some(Keyword::Italic) => FontStyle::Italic,
        Some(Keyword::Oblique) => FontStyle::Oblique,
        _ => FontStyle::Normal,
    }
}

pub open spec fn spec_font_variant(kw: Option<Keyword>) -> FontVariant {
    match kw {
        Some(Keyword::SmallCaps) => FontVariant::SmallCaps,
        _ => FontVariant::Normal,
    }
}

pub open spec fn spec_font_weight(kw: Option<Keyword>) -> FontWeight {
    match kw {
        Some(Keyword::Bold) => FontWeight::Bold,
        Some(Keyword::Bolder) => FontWeight::Bolder,
        Some(Keyword::Lighter) => FontWeight::Lighter,
        Some(Keyword::N100) => FontWeight::W100,
        Some(Keyword::N200) => FontWeight::W200,
        Some(Keyword::N300) => FontWeight::W300,
        Some(Keyword::N400) => FontWeight::W400,
        Some(Keyword::N500) => FontWeight::W500,
        Some(Keyword::N600) => FontWeight::W600,
        Some(Keyword::N700) => FontWeight::W700,
        Some(Keyword::N800) => FontWeight::W800,
        Some(Keyword::N900) => FontWeight::W900,
        _ => FontWeight::Normal,
    }
}

pub open spec fn spec_font_stretch(kw: Option<Keyword>) -> FontStretch {
    match kw {
        Some(Keyword::Wider) => FontStretch::Wider,
        Some(Keyword::Narrower) => FontStretch::Narrower,
        Some(Keyword::UltraCondensed) => FontStretch::UltraCondensed,
        Some(Keyword::ExtraCondensed) => FontStretch::ExtraCondensed,
        Some(Keyword::Condensed) => FontStretch::Condensed,
        Some(Keyword::SemiCondensed) => FontStretch::SemiCondensed,
        Some(Keyword::SemiExpanded) => FontStretch::SemiExpanded,
        Some(Keyword::Expanded) => FontStretch::Expanded,
        Some(Keyword::ExtraExpanded) => FontStretch::ExtraExpanded,
        Some(Keyword::UltraExpanded) => FontStretch::UltraExpanded,
        _ => FontStretch::Normal,
    }
}

pub open spec fn spec_font_size(size: Option<i64>) -> i64 {
    match size {
        Some(s) => s,
        None => DEFAULT_FONT_SIZE,
    }
}

pub open spec fn spec_font_family(family: Option<String>) -> Seq<char> {
    match family {
        Some(f) => f@,
        None => spec_default_font_family(),
    }
}

/// The font a span resolves to.
pub open spec fn font_model(span: Span) -> FontModel {
    FontModel {
        family: spec_font_family(span.font_family),
        size: spec_font_size(span.font_size),
        style: spec_font_style(span.font_style),
        variant: spec_font_variant(span.font_variant),
        weight: spec_font_weight(span.font_weight),
        stretch: spec_font_stretch(span.font_stretch),
    }
}

fn conv_font_style(kw: Option<Keyword>) -> (r: FontStyle)
    ensures
        r == spec_font_style(kw),
{
    match kw {
        Some(Keyword::Italic) => FontStyle::Italic,
        Some(Keyword::Oblique) => FontStyle::Oblique,
        _ => FontStyle::Normal,
    }
}

fn conv_font_variant(kw: Option<Keyword>) -> (r: FontVariant)
    ensures
        r == spec_font_variant(kw),
{
    match kw {
        Some(Keyword::SmallCaps) => FontVariant::SmallCaps,
        _ => FontVariant::Normal,
    }
}

fn conv_font_weight(kw: Option<Keyword>) -> (r: FontWeight)
    ensures
        r == spec_font_weight(kw),
{
    match kw {
        Some(Keyword::Bold) => FontWeight::Bold,
        Some(Keyword::Bolder) => FontWeight::Bolder,
        Some(Keyword::Lighter) => FontWeight::Lighter,
        Some(Keyword::N100) => FontWeight::W100,
        Some(Keyword::N200) => FontWeight::W200,
        Some(Keyword::N300) => FontWeight::W300,
        Some(Keyword::N400) => FontWeight::W400,
        Some(Keyword::N500) => FontWeight::W500,
        Some(Keyword::N600) => FontWeight::W600,
        Some(Keyword::N700) => FontWeight::W700,
        Some(Keyword::N800) => FontWeight::W800,
        Some(Keyword::N900) => FontWeight::W900,
        _ => FontWeight::Normal,
    }
}

fn conv_font_stretch(kw: Option<Keyword>) -> (r: FontStretch)
    ensures
        r == spec_font_stretch(kw),
{
    match kw {
        Some(Keyword::Wider) => FontStretch::Wider,
        Some(Keyword::Narrower) => FontStretch::Narrower,
        Some(Keyword::UltraCondensed) => FontStretch::UltraCondensed,
        Some(Keyword::ExtraCondensed) => FontStretch::ExtraCondensed,
        Some(Keyword::Condensed) => FontStretch::Condensed,
        Some(Keyword::SemiCondensed) => FontStretch::SemiCondensed,
        Some(Keyword::SemiExpanded) => FontStretch::SemiExpanded,
        Some(Keyword::Expanded) => FontStretch::Expanded,
        Some(Keyword::ExtraExpanded) => FontStretch::ExtraExpanded,
        Some(Keyword::UltraExpanded) => FontStretch::UltraExpanded,
        _ => FontStretch::Normal,
    }
}

/// Resolves a span's font attributes to a [`Font`]. Total over all keyword
/// combinations; only a non-positive explicit size is excluded, which the
/// caller must have rejected upstream.
pub fn convert_font(span: &Span) -> (f: Font)
    requires
        crate::tree::span_font_size_ok(*span),
    ensures
        font_view(f) == font_model(*span),
        f.size > 0,
{
    let family: String = match &span.font_family {
        Some(f) => f.clone(),
        None => String::from_str("Times New Roman"),
    };
    let size: i64 = match span.font_size {
        Some(s) => s,
        None => DEFAULT_FONT_SIZE,
    };
    let f = Font {
        family,
        size,
        style: conv_font_style(span.font_style),
        variant: conv_font_variant(span.font_variant),
        weight: conv_font_weight(span.font_weight),
        stretch: conv_font_stretch(span.font_stretch),
    };
    proof {
        assert(font_view(f) =~= font_model(*span));
    }
    f
}

} // verus!
