//! The color parser: takes canonical CSS color text (or the slash shorthand,
//! through [`Color::from_repr`]), parses it with the CSS grammar
//! collaborator, classifies the color space from the textual prefix, checks
//! that every required component is present, converts to standard RGB, and
//! assembles the normalized color value.
use vstd::prelude::*;

use crate::css::{
    css_color_of, hsl_srgb, hsl_to_srgb, is_color_keyword, is_css_keyword, lab_srgb, lab_to_srgb,
    lch_srgb, lch_to_srgb, oklab_srgb, oklab_to_srgb, oklch_srgb, oklch_to_srgb, parse_css_color,
    rgb_to_unit, rgb_unit_bits, CssColor,
};
use crate::shorthand::{convert_to_css_string, normalize_spec};
use crate::strutil::chars_vec;

verus! {

/// The bit pattern of the floating-point value one: the alpha of a fully
/// opaque color.
pub const OPAQUE_ALPHA: u32 = 0x3F80_0000;

/// The color space a textual color representation was written in.
#[derive(Clone, Copy, PartialEq, Eq, Structural, Debug)]
pub enum Space {
    Rgb,
    Hsl,
    Lab,
    Lch,
    Oklch,
    Oklab,
    Hex,
    CssName,
}

/// One numeric axis of a color space, named in a missing-component failure.
#[derive(Clone, Copy, PartialEq, Eq, Structural, Debug)]
pub enum Component {
    Hue,
    Saturation,
    Lightness,
    AAxis,
    BAxis,
    Chroma,
}

/// Why a textual color representation was rejected. Every failure is
/// terminal: no partial or defaulted color value is ever returned.
#[derive(Clone, Copy, PartialEq, Eq, Structural, Debug)]
pub enum ParseError {
    /// The canonical text fails the CSS grammar.
    InvalidSyntax,
    /// The text prefix matches no known space and no color keyword.
    UnknownColorSpace,
    /// A space-required numeric component is absent from the typed result.
    MissingComponent(Component),
    /// The grammar yields a color variant this parser has no handler for.
    UnsupportedSpace,
}

/// A normalized color value: the color space the text was written in, the
/// standard-RGB channels in the unit range, and an alpha in [0, 1]. The
/// channels and the alpha are floating-point bit patterns.
#[derive(Clone, Copy, PartialEq, Eq, Structural, Debug)]
pub struct Color {
    /// The color space the source text was written in.
    pub space: Space,
    /// The red channel, as a unit-range floating-point bit pattern.
    pub red: u32,
    /// The green channel, as a unit-range floating-point bit pattern.
    pub green: u32,
    /// The blue channel, as a unit-range floating-point bit pattern.
    pub blue: u32,
    /// The opacity, as a floating-point bit pattern; one when the source
    /// grammar carries no alpha.
    pub alpha: u32,
}

/// True when `s` starts with the characters of `p`.
pub open spec fn has_prefix(s: Seq<char>, p: Seq<char>) -> bool {
    s.len() >= p.len() && s.take(p.len() as int) == p
}

/// The color space of canonical text, classified by its prefix: one of the
/// six function names, `#` for hex notation, or a recognized color keyword.
pub open spec fn space_of(s: Seq<char>) -> Option<Space> {
    if has_prefix(s, seq!['r', 'g', 'b']) {
        Some(Space::Rgb)
    } else if has_prefix(s, seq!['h', 's', 'l']) {
        Some(Space::Hsl)
    } else if has_prefix(s, seq!['l', 'a', 'b']) {
        Some(Space::Lab)
    } else if has_prefix(s, seq!['l', 'c', 'h']) {
        Some(Space::Lch)
    } else if has_prefix(s, seq!['o', 'k', 'l', 'a', 'b']) {
        Some(Space::Oklab)
    } else if has_prefix(s, seq!['o', 'k', 'l', 'c', 'h']) {
        Some(Space::Oklch)
    } else if has_prefix(s, seq!['#']) {
        Some(Space::Hex)
    } else if is_css_keyword(s) {
        Some(Space::CssName)
    } else {
        None
    }
}

/// The alpha bit pattern of an optionally absent alpha component: absent
/// means fully opaque.
pub open spec fn alpha_or_opaque(a: Option<u32>) -> u32 {
    match a {
        Some(bits) => bits,
        None => OPAQUE_ALPHA,
    }
}

/// The standard-RGB channels and the alpha of a typed grammar result, or the
/// failure it is rejected with: an unhandled variant, or the first missing
/// required component in grammar order. Spaces without an alpha channel here
/// (Lab, Lch, Oklab, Oklch) are fully opaque.
pub open spec fn srgb_of(c: CssColor) -> Result<(u32, u32, u32, u32), ParseError> {
    match c {
        CssColor::CurrentColor => Err(ParseError::UnsupportedSpace),
        CssColor::Other => Err(ParseError::UnsupportedSpace),
        CssColor::Rgb(red, green, blue, alpha) => {
            let (x, y, z) = rgb_unit_bits(red, green, blue);
            Ok((x, y, z, alpha))
        },
        CssColor::Hsl(hue, saturation, lightness, alpha) => match (hue, saturation, lightness) {
            (None, _, _) => Err(ParseError::MissingComponent(Component::Hue)),
            (Some(_), None, _) => Err(ParseError::MissingComponent(Component::Saturation)),
            (Some(_), Some(_), None) => Err(ParseError::MissingComponent(Component::Lightness)),
            (Some(h), Some(s), Some(l)) => {
                let (x, y, z) = hsl_srgb(h, s, l);
                Ok((x, y, z, alpha_or_opaque(alpha)))
            },
        },
        CssColor::Lab(lightness, a_axis, b_axis) => match (lightness, a_axis, b_axis) {
            (None, _, _) => Err(ParseError::MissingComponent(Component::Lightness)),
            (Some(_), None, _) => Err(ParseError::MissingComponent(Component::AAxis)),
            (Some(_), Some(_), None) => Err(ParseError::MissingComponent(Component::BAxis)),
            (Some(l), Some(a), Some(b)) => {
                let (x, y, z) = lab_srgb(l, a, b);
                Ok((x, y, z, OPAQUE_ALPHA))
            },
        },
        CssColor::Lch(lightness, chroma, hue) => match (lightness, chroma, hue) {
            (None, _, _) => Err(ParseError::MissingComponent(Component::Lightness)),
            (Some(_), None, _) => Err(ParseError::MissingComponent(Component::Chroma)),
            (Some(_), Some(_), None) => Err(ParseError::MissingComponent(Component::Hue)),
            (Some(l), Some(c), Some(h)) => {
                let (x, y, z) = lch_srgb(l, c, h);
                Ok((x, y, z, OPAQUE_ALPHA))
            },
        },
        CssColor::Oklab(lightness, a_axis, b_axis) => match (lightness, a_axis, b_axis) {
            (None, _, _) => Err(ParseError::MissingComponent(Component::Lightness)),
            (Some(_), None, _) => Err(ParseError::MissingComponent(Component::AAxis)),
            (Some(_), Some(_), None) => Err(ParseError::MissingComponent(Component::BAxis)),
            (Some(l), Some(a), Some(b)) => {
                let (x, y, z) = oklab_srgb(l, a, b);
                Ok((x, y, z, OPAQUE_ALPHA))
            },
        },
        CssColor::Oklch(lightness, chroma, hue) => match (lightness, chroma, hue) {
            (None, _, _) => Err(ParseError::MissingComponent(Component::Lightness)),
            (Some(_), None, _) => Err(ParseError::MissingComponent(Component::Chroma)),
            (Some(_), Some(_), None) => Err(ParseError::MissingComponent(Component::Hue)),
            (Some(l), Some(c), Some(h)) => {
                let (x, y, z) = oklch_srgb(l, c, h);
                Ok((x, y, z, OPAQUE_ALPHA))
            },
        },
    }
}

/// What parsing canonical CSS color text yields: the grammar rejects the text
/// (`InvalidSyntax`), or the prefix classifies no space
/// (`UnknownColorSpace`), or the typed result is rejected by [`srgb_of`], or
/// the normalized color is assembled.
pub open spec fn parse_css_spec(s: Seq<char>) -> Result<Color, ParseError> {
    match css_color_of(s) {
        None => Err(ParseError::InvalidSyntax),
        Some(c) => match space_of(s) {
            None => Err(ParseError::UnknownColorSpace),
            Some(space) => match srgb_of(c) {
                Err(e) => Err(e),
                Ok((red, green, blue, alpha)) => Ok(
                    Color { space, red, green, blue, alpha },
                ),
            },
        },
    }
}

/// What the whole pipeline yields on arbitrary input text: the shorthand
/// normalizer first, then the canonical-text parser.
pub open spec fn parse_repr_spec(s: Seq<char>) -> Result<Color, ParseError> {
    parse_css_spec(normalize_spec(s))
}

/// True when `v` starts with the characters of `p`.
fn slice_has_prefix(v: &[char], p: &[char]) -> (r: bool)
    ensures
        r == has_prefix(v@, p@),
{
    if v.len() < p.len() {
        return false;
    }
    let mut i: usize = 0;
    while i < p.len()
        invariant
            i <= p@.len() <= v@.len(),
            forall|j: int| 0 <= j < i ==> v@[j] == p@[j],
        decreases p.len() - i,
    {
        if v[i] != p[i] {
            proof {
                assert(v@.take(p@.len() as int)[i as int] != p@[i as int]);
            }
            return false;
        }
        i = i + 1;
    }
    proof {
        assert(v@.take(p@.len() as int) =~= p@);
    }
    true
}

/// The per-space component check and conversion to standard RGB, with the
/// alpha resolved; exactly [`srgb_of`].
fn srgb_components(c: &CssColor) -> (r: Result<(u32, u32, u32, u32), ParseError>)
    ensures
        r == srgb_of(*c),
{
    match *c {
        CssColor::CurrentColor => Err(ParseError::UnsupportedSpace),
        CssColor::Other => Err(ParseError::UnsupportedSpace),
        CssColor::Rgb(red, green, blue, alpha) => {
            let (x, y, z) = rgb_to_unit(red, green, blue);
            Ok((x, y, z, alpha))
        },
        CssColor::Hsl(hue, saturation, lightness, alpha) => match (hue, saturation, lightness) {
            (None, _, _) => Err(ParseError::MissingComponent(Component::Hue)),
            (Some(_), None, _) => Err(ParseError::MissingComponent(Component::Saturation)),
            (Some(_), Some(_), None) => Err(ParseError::MissingComponent(Component::Lightness)),
            (Some(h), Some(s), Some(l)) => {
                let (x, y, z) = hsl_to_srgb(h, s, l);
                let a = match alpha {
                    Some(bits) => bits,
                    None => OPAQUE_ALPHA,
                };
                Ok((x, y, z, a))
            },
        },
        CssColor::Lab(lightness, a_axis, b_axis) => match (lightness, a_axis, b_axis) {
            (None, _, _) => Err(ParseError::MissingComponent(Component::Lightness)),
            (Some(_), None, _) => Err(ParseError::MissingComponent(Component::AAxis)),
            (Some(_), Some(_), None) => Err(ParseError::MissingComponent(Component::BAxis)),
            (Some(l), Some(a), Some(b)) => {
                let (x, y, z) = lab_to_srgb(l, a, b);
                Ok((x, y, z, OPAQUE_ALPHA))
            },
        },
        CssColor::Lch(lightness, chroma, hue) => match (lightness, chroma, hue) {
            (None, _, _) => Err(ParseError::MissingComponent(Component::Lightness)),
            (Some(_), None, _) => Err(ParseError::MissingComponent(Component::Chroma)),
            (Some(_), Some(_), None) => Err(ParseError::MissingComponent(Component::Hue)),
            (Some(l), Some(c2), Some(h)) => {
                let (x, y, z) = lch_to_srgb(l, c2, h);
                Ok((x, y, z, OPAQUE_ALPHA))
            },
        },
        CssColor::Oklab(lightness, a_axis, b_axis) => match (lightness, a_axis, b_axis) {
            (None, _, _) => Err(ParseError::MissingComponent(Component::Lightness)),
            (Some(_), None, _) => Err(ParseError::MissingComponent(Component::AAxis)),
            (Some(_), Some(_), None) => Err(ParseError::MissingComponent(Component::BAxis)),
            (Some(l), Some(a), Some(b)) => {
                let (x, y, z) = oklab_to_srgb(l, a, b);
                Ok((x, y, z, OPAQUE_ALPHA))
            },
        },
        CssColor::Oklch(lightness, chroma, hue) => match (lightness, chroma, hue) {
            (None, _, _) => Err(ParseError::MissingComponent(Component::Lightness)),
            (Some(_), None, _) => Err(ParseError::MissingComponent(Component::Chroma)),
            (Some(_), Some(_), None) => Err(ParseError::MissingComponent(Component::Hue)),
            (Some(l), Some(c2), Some(h)) => {
                let (x, y, z) = oklch_to_srgb(l, c2, h);
                Ok((x, y, z, OPAQUE_ALPHA))
            },
        },
    }
}

/// Classifies the color space of canonical text by its prefix; exactly
/// [`space_of`].
fn classify_space(css: &str) -> (r: Option<Space>)
    ensures
        r == space_of(css@),
{
    let cs = chars_vec(css);
    let v = cs.as_slice();
    let rgb: &[char] = &['r', 'g', 'b'];
    let hsl: &[char] = &['h', 's', 'l'];
    let lab: &[char] = &['l', 'a', 'b'];
    let lch: &[char] = &['l', 'c', 'h'];
    let oklab: &[char] = &['o', 'k', 'l', 'a', 'b'];
    let oklch: &[char] = &['o', 'k', 'l', 'c', 'h'];
    let hash: &[char] = &['#'];
    proof {
        assert(rgb@ =~= seq!['r', 'g', 'b']);
        assert(hsl@ =~= seq!['h', 's', 'l']);
        assert(lab@ =~= seq!['l', 'a', 'b']);
        assert(lch@ =~= seq!['l', 'c', 'h']);
        assert(oklab@ =~= seq!['o', 'k', 'l', 'a', 'b']);
        assert(oklch@ =~= seq!['o', 'k', 'l', 'c', 'h']);
        assert(hash@ =~= seq!['#']);
    }
    if slice_has_prefix(v, rgb) {
        Some(Space::Rgb)
    } else if slice_has_prefix(v, hsl) {
        Some(Space::Hsl)
    } else if slice_has_prefix(v, lab) {
        Some(Space::Lab)
    } else if slice_has_prefix(v, lch) {
        Some(Space::Lch)
    } else if slice_has_prefix(v, oklab) {
        Some(Space::Oklab)
    } else if slice_has_prefix(v, oklch) {
        Some(Space::Oklch)
    } else if slice_has_prefix(v, hash) {
        Some(Space::Hex)
    } else if is_color_keyword(css) {
        Some(Space::CssName)
    } else {
        None
    }
}

impl Color {
    /// Parses canonical CSS color text into a normalized color value;
    /// exactly [`parse_css_spec`] on the characters of the text.
    pub fn from_css(css: &str) -> (r: Result<Color, ParseError>)
        ensures
            r == parse_css_spec(css@),
    {
        let parsed = match parse_css_color(css) {
            Some(c) => c,
            None => {
                return Err(ParseError::InvalidSyntax);
            },
        };
        let space = match classify_space(css) {
            Some(space) => space,
            None => {
                return Err(ParseError::UnknownColorSpace);
            },
        };
        match srgb_components(&parsed) {
            Err(e) => Err(e),
            Ok((red, green, blue, alpha)) => Ok(Color { space, red, green, blue, alpha }),
        }
    }

    /// Parses any accepted textual representation: the slash shorthand is
    /// first rewritten to canonical CSS syntax, then parsed; exactly
    /// [`parse_repr_spec`] on the characters of the text.
    pub fn from_repr(s: &str) -> (r: Result<Color, ParseError>)
        ensures
            r == parse_repr_spec(s@),
    {
        let canonical = convert_to_css_string(s);
        Color::from_css(canonical.as_str())
    }
}

impl ParseError {
    /// The human-readable message of this failure.
    pub open spec fn message_spec(&self) -> Seq<char> {
        match *self {
            ParseError::InvalidSyntax => "Invalid color format"@,
            ParseError::UnknownColorSpace => "Unknown color space"@,
            ParseError::MissingComponent(Component::Hue) => "Missing hue value"@,
            ParseError::MissingComponent(Component::Saturation) => "Missing saturation value"@,
            ParseError::MissingComponent(Component::Lightness) => "Missing lightness value"@,
            ParseError::MissingComponent(Component::AAxis) => "Missing 'a' value"@,
            ParseError::MissingComponent(Component::BAxis) => "Missing 'b' value"@,
            ParseError::MissingComponent(Component::Chroma) => "Missing chroma value"@,
            ParseError::UnsupportedSpace => "Unsupported color format"@,
        }
    }

    /// A human-readable message naming the failure; exactly
    /// [`ParseError::message_spec`].
    pub fn message(&self) -> (r: &'static str)
        ensures
            r@ == self.message_spec(),
    {
        match *self {
            ParseError::InvalidSyntax => "Invalid color format",
            ParseError::UnknownColorSpace => "Unknown color space",
            ParseError::MissingComponent(Component::Hue) => "Missing hue value",
            ParseError::MissingComponent(Component::Saturation) => "Missing saturation value",
            ParseError::MissingComponent(Component::Lightness) => "Missing lightness value",
            ParseError::MissingComponent(Component::AAxis) => "Missing 'a' value",
            ParseError::MissingComponent(Component::BAxis) => "Missing 'b' value",
            ParseError::MissingComponent(Component::Chroma) => "Missing chroma value",
            ParseError::UnsupportedSpace => "Unsupported color format",
        }
    }
}

/// Parsing is deterministic: the result, success or failure, is a function
/// of the input text alone, so equal texts parse to equal normalized colors.
pub proof fn lemma_parse_deterministic(s: Seq<char>, t: Seq<char>)
    requires
        s == t,
    ensures
        parse_repr_spec(s) == parse_repr_spec(t),
{
}

} // verus!
