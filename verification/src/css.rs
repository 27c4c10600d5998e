//! Trusted interface to the outside collaborators: the CSS color grammar
//! (`cssparser` / `cssparser-color`) and the color-space conversion math
//! (`palette`). Every floating-point component crosses this boundary as its
//! raw bit pattern, carried in a `u32`; the verified logic never computes on
//! the numeric value, it only moves, tests and compares these patterns.
//! The conversion wrappers turn a bit pattern back into a floating component
//! with a bit-for-bit `bytemuck::cast`, anchored on the grammar library's
//! concretely typed constructors.
use vstd::prelude::*;

use cssparser_color::Color as RawColor;
use palette::FromColor;

verus! {

/// A parsed CSS color value as the grammar collaborator reports it, with
/// every floating-point component as its bit pattern. Components that CSS
/// allows to be syntactically absent are `Option`s; the RGB form always
/// carries all of its channels. Variants this library has no handler for
/// (`hwb`, `color()`) collapse into `Other`.
#[derive(Clone, Copy, PartialEq, Eq, Structural, Debug)]
pub enum CssColor {
    /// The `currentcolor` keyword.
    CurrentColor,
    /// Red, green and blue channel bytes, and the alpha bit pattern.
    Rgb(u8, u8, u8, u32),
    /// Hue, saturation, lightness and alpha, each optionally absent.
    Hsl(Option<u32>, Option<u32>, Option<u32>, Option<u32>),
    /// Lightness, a-axis and b-axis of a CIE Lab color.
    Lab(Option<u32>, Option<u32>, Option<u32>),
    /// Lightness, chroma and hue of a CIE Lch color.
    Lch(Option<u32>, Option<u32>, Option<u32>),
    /// Lightness, a-axis and b-axis of an Oklab color.
    Oklab(Option<u32>, Option<u32>, Option<u32>),
    /// Lightness, chroma and hue of an Oklch color.
    Oklch(Option<u32>, Option<u32>, Option<u32>),
    /// A color variant this library has no handler for.
    Other,
}

/// Which variant the CSS grammar collaborator yields on the given text:
/// `Fail` on a grammar error, `Other` for a variant this library has no
/// handler for. The grammar is a pure function of the text.
#[derive(Clone, Copy, PartialEq, Eq, Structural, Debug)]
pub enum CssKind {
    Fail,
    Current,
    Rgb,
    Hsl,
    Lab,
    Lch,
    Oklab,
    Oklch,
    Other,
}

/// The grammar variant that parsing the given text yields.
pub uninterp spec fn css_kind_of(s: Seq<char>) -> CssKind;

/// The channel bytes and the alpha bit pattern of the RGB variant that
/// parsing the given text yields; all zero when the variant is another one.
pub uninterp spec fn css_rgb_of(s: Seq<char>) -> (u8, u8, u8, u32);

/// The hue, saturation, lightness and alpha bit patterns of the HSL variant
/// that parsing the given text yields; absent when the variant is another one.
pub uninterp spec fn css_hsl_of(s: Seq<char>) -> (
    Option<u32>,
    Option<u32>,
    Option<u32>,
    Option<u32>,
);

/// The lightness, a-axis and b-axis bit patterns of the rectangular Lab or
/// Oklab variant that parsing the given text yields; absent when the variant
/// is another one.
pub uninterp spec fn css_lab_of(s: Seq<char>) -> (Option<u32>, Option<u32>, Option<u32>);

/// The lightness, chroma and hue bit patterns of the cylindrical Lch or Oklch
/// variant that parsing the given text yields; absent when the variant is
/// another one.
pub uninterp spec fn css_lch_of(s: Seq<char>) -> (Option<u32>, Option<u32>, Option<u32>);

/// What the CSS grammar collaborator yields on the given text: `None` on a
/// grammar error, otherwise the typed color value, assembled from the
/// variant and the components of that variant.
pub open spec fn css_color_of(s: Seq<char>) -> Option<CssColor> {
    match css_kind_of(s) {
        CssKind::Fail => None,
        CssKind::Current => Some(CssColor::CurrentColor),
        CssKind::Rgb => {
            let (red, green, blue, alpha) = css_rgb_of(s);
            Some(CssColor::Rgb(red, green, blue, alpha))
        },
        CssKind::Hsl => {
            let (hue, saturation, lightness, alpha) = css_hsl_of(s);
            Some(CssColor::Hsl(hue, saturation, lightness, alpha))
        },
        CssKind::Lab => {
            let (lightness, a_axis, b_axis) = css_lab_of(s);
            Some(CssColor::Lab(lightness, a_axis, b_axis))
        },
        CssKind::Lch => {
            let (lightness, chroma, hue) = css_lch_of(s);
            Some(CssColor::Lch(lightness, chroma, hue))
        },
        CssKind::Oklab => {
            let (lightness, a_axis, b_axis) = css_lab_of(s);
            Some(CssColor::Oklab(lightness, a_axis, b_axis))
        },
        CssKind::Oklch => {
            let (lightness, chroma, hue) = css_lch_of(s);
            Some(CssColor::Oklch(lightness, chroma, hue))
        },
        CssKind::Other => Some(CssColor::Other),
    }
}

/// Whether the given text is a recognized CSS color keyword (a named color,
/// `transparent` or `currentcolor`), ASCII-case-insensitively.
pub uninterp spec fn is_css_keyword(s: Seq<char>) -> bool;

/// The sRGB bit patterns that the conversion library yields for three RGB
/// channel bytes brought into the unit range.
pub uninterp spec fn rgb_unit_bits(red: u8, green: u8, blue: u8) -> (u32, u32, u32);

/// The sRGB bit patterns that the conversion library yields for an HSL color
/// with the given component bit patterns.
pub uninterp spec fn hsl_srgb(hue: u32, saturation: u32, lightness: u32) -> (u32, u32, u32);

/// The sRGB bit patterns that the conversion library yields for a CIE Lab
/// color with the given component bit patterns.
pub uninterp spec fn lab_srgb(lightness: u32, a_axis: u32, b_axis: u32) -> (u32, u32, u32);

/// The sRGB bit patterns that the conversion library yields for a CIE Lch
/// color with the given component bit patterns.
pub uninterp spec fn lch_srgb(lightness: u32, chroma: u32, hue: u32) -> (u32, u32, u32);

/// The sRGB bit patterns that the conversion library yields for an Oklab
/// color with the given component bit patterns.
pub uninterp spec fn oklab_srgb(lightness: u32, a_axis: u32, b_axis: u32) -> (u32, u32, u32);

/// The sRGB bit patterns that the conversion library yields for an Oklch
/// color with the given component bit patterns.
pub uninterp spec fn oklch_srgb(lightness: u32, chroma: u32, hue: u32) -> (u32, u32, u32);

/// Relies on cssparser's Parser and cssparser_color::Color::parse: which
/// grammar variant, if any, a CSS `<color>` value parses to; a pure function
/// of the input text.
#[verifier::external_body]
fn css_kind(s: &str) -> (r: CssKind)
    ensures
        r == css_kind_of(s@),
{
    match RawColor::parse(&mut cssparser::Parser::new(s)) {
        Err(_) => CssKind::Fail,
        Ok(RawColor::CurrentColor) => CssKind::Current,
        Ok(RawColor::Rgba(_)) => CssKind::Rgb,
        Ok(RawColor::Hsl(_)) => CssKind::Hsl,
        Ok(RawColor::Lab(_)) => CssKind::Lab,
        Ok(RawColor::Lch(_)) => CssKind::Lch,
        Ok(RawColor::Oklab(_)) => CssKind::Oklab,
        Ok(RawColor::Oklch(_)) => CssKind::Oklch,
        Ok(_) => CssKind::Other,
    }
}

/// Relies on cssparser_color::Color::parse: the channel bytes and the alpha
/// bit pattern of the RGB variant; a pure function of the input text.
#[verifier::external_body]
fn css_rgb_parts(s: &str) -> (r: (u8, u8, u8, u32))
    ensures
        r == css_rgb_of(s@),
{
    match RawColor::parse(&mut cssparser::Parser::new(s)) {
        Ok(RawColor::Rgba(v)) => (v.red, v.green, v.blue, v.alpha.to_bits()),
        _ => (0, 0, 0, 0),
    }
}

/// Relies on cssparser_color::Color::parse: the component bit patterns of
/// the HSL variant; a pure function of the input text.
#[verifier::external_body]
fn css_hsl_parts(s: &str) -> (r: (Option<u32>, Option<u32>, Option<u32>, Option<u32>))
    ensures
        r == css_hsl_of(s@),
{
    match RawColor::parse(&mut cssparser::Parser::new(s)) {
        Ok(RawColor::Hsl(v)) => (
            v.hue.map(|x| x.to_bits()),
            v.saturation.map(|x| x.to_bits()),
            v.lightness.map(|x| x.to_bits()),
            v.alpha.map(|x| x.to_bits()),
        ),
        _ => (None, None, None, None),
    }
}

/// Relies on cssparser_color::Color::parse: the component bit patterns of
/// the Lab or Oklab variant; a pure function of the input text.
#[verifier::external_body]
fn css_lab_parts(s: &str) -> (r: (Option<u32>, Option<u32>, Option<u32>))
    ensures
        r == css_lab_of(s@),
{
    match RawColor::parse(&mut cssparser::Parser::new(s)) {
        Ok(RawColor::Lab(v)) => (
            v.lightness.map(|x| x.to_bits()),
            v.a.map(|x| x.to_bits()),
            v.b.map(|x| x.to_bits()),
        ),
        Ok(RawColor::Oklab(v)) => (
            v.lightness.map(|x| x.to_bits()),
            v.a.map(|x| x.to_bits()),
            v.b.map(|x| x.to_bits()),
        ),
        _ => (None, None, None),
    }
}

/// Relies on cssparser_color::Color::parse: the component bit patterns of
/// the Lch or Oklch variant; a pure function of the input text.
#[verifier::external_body]
fn css_lch_parts(s: &str) -> (r: (Option<u32>, Option<u32>, Option<u32>))
    ensures
        r == css_lch_of(s@),
{
    match RawColor::parse(&mut cssparser::Parser::new(s)) {
        Ok(RawColor::Lch(v)) => (
            v.lightness.map(|x| x.to_bits()),
            v.chroma.map(|x| x.to_bits()),
            v.hue.map(|x| x.to_bits()),
        ),
        Ok(RawColor::Oklch(v)) => (
            v.lightness.map(|x| x.to_bits()),
            v.chroma.map(|x| x.to_bits()),
            v.hue.map(|x| x.to_bits()),
        ),
        _ => (None, None, None),
    }
}

/// Parses a CSS `<color>` value into the mirror type, assembling the typed
/// value from the grammar variant and that variant's components; exactly
/// [`css_color_of`].
pub(crate) fn parse_css_color(s: &str) -> (r: Option<CssColor>)
    ensures
        r == css_color_of(s@),
{
    match css_kind(s) {
        CssKind::Fail => None,
        CssKind::Current => Some(CssColor::CurrentColor),
        CssKind::Rgb => {
            let (red, green, blue, alpha) = css_rgb_parts(s);
            Some(CssColor::Rgb(red, green, blue, alpha))
        },
        CssKind::Hsl => {
            let (hue, saturation, lightness, alpha) = css_hsl_parts(s);
            Some(CssColor::Hsl(hue, saturation, lightness, alpha))
        },
        CssKind::Lab => {
            let (lightness, a_axis, b_axis) = css_lab_parts(s);
            Some(CssColor::Lab(lightness, a_axis, b_axis))
        },
        CssKind::Lch => {
            let (lightness, chroma, hue) = css_lch_parts(s);
            Some(CssColor::Lch(lightness, chroma, hue))
        },
        CssKind::Oklab => {
            let (lightness, a_axis, b_axis) = css_lab_parts(s);
            Some(CssColor::Oklab(lightness, a_axis, b_axis))
        },
        CssKind::Oklch => {
            let (lightness, chroma, hue) = css_lch_parts(s);
            Some(CssColor::Oklch(lightness, chroma, hue))
        },
        CssKind::Other => Some(CssColor::Other),
    }
}

/// Relies on cssparser_color::parse_color_keyword: recognizes exactly the CSS
/// color keywords, ASCII-case-insensitively; a pure function of the text.
#[verifier::external_body]
pub(crate) fn is_color_keyword(s: &str) -> (r: bool)
    ensures
        r == is_css_keyword(s@),
{
    cssparser_color::parse_color_keyword::<RawColor>(s).is_ok()
}

/// Relies on palette's Rgb::into_format: brings the three channel bytes into
/// unit-range floating components; a pure function of the three bytes.
#[verifier::external_body]
pub(crate) fn rgb_to_unit(red: u8, green: u8, blue: u8) -> (r: (u32, u32, u32))
    ensures
        r == rgb_unit_bits(red, green, blue),
{
    let c8: palette::Srgb<u8> = palette::Srgb::new(red, green, blue);
    let c: palette::Srgb = c8.into_format();
    (c.red.to_bits(), c.green.to_bits(), c.blue.to_bits())
}

/// Relies on palette's Srgb::from_color for HSL: converts hue (degrees),
/// saturation and lightness (unit fractions) to sRGB; a pure function of the
/// three component bit patterns.
#[verifier::external_body]
pub(crate) fn hsl_to_srgb(hue: u32, saturation: u32, lightness: u32) -> (r: (u32, u32, u32))
    ensures
        r == hsl_srgb(hue, saturation, lightness),
{
    let t = cssparser_color::Hsl::new(
        Some(bytemuck::cast(hue)),
        Some(bytemuck::cast(saturation)),
        Some(bytemuck::cast(lightness)),
        None,
    );
    let v = palette::Hsl::new(t.hue.unwrap(), t.saturation.unwrap(), t.lightness.unwrap());
    let c: palette::Srgb = palette::Srgb::from_color(v);
    (c.red.to_bits(), c.green.to_bits(), c.blue.to_bits())
}

/// Relies on palette's Srgb::from_color for CIE Lab; a pure function of the
/// three component bit patterns.
#[verifier::external_body]
pub(crate) fn lab_to_srgb(lightness: u32, a_axis: u32, b_axis: u32) -> (r: (u32, u32, u32))
    ensures
        r == lab_srgb(lightness, a_axis, b_axis),
{
    let t = cssparser_color::Lab::new(
        Some(bytemuck::cast(lightness)),
        Some(bytemuck::cast(a_axis)),
        Some(bytemuck::cast(b_axis)),
        None,
    );
    let v = palette::Lab::new(t.lightness.unwrap(), t.a.unwrap(), t.b.unwrap());
    let c: palette::Srgb = palette::Srgb::from_color(v);
    (c.red.to_bits(), c.green.to_bits(), c.blue.to_bits())
}

/// Relies on palette's Srgb::from_color for CIE Lch, with the hue in degrees
/// as the grammar reports it; a pure function of the three component bit
/// patterns.
#[verifier::external_body]
pub(crate) fn lch_to_srgb(lightness: u32, chroma: u32, hue: u32) -> (r: (u32, u32, u32))
    ensures
        r == lch_srgb(lightness, chroma, hue),
{
    let t = cssparser_color::Lch::new(
        Some(bytemuck::cast(lightness)),
        Some(bytemuck::cast(chroma)),
        Some(bytemuck::cast(hue)),
        None,
    );
    let v = palette::Lch::new(t.lightness.unwrap(), t.chroma.unwrap(), t.hue.unwrap());
    let c: palette::Srgb = palette::Srgb::from_color(v);
    (c.red.to_bits(), c.green.to_bits(), c.blue.to_bits())
}

/// Relies on palette's Srgb::from_color for Oklab; a pure function of the
/// three component bit patterns.
#[verifier::external_body]
pub(crate) fn oklab_to_srgb(lightness: u32, a_axis: u32, b_axis: u32) -> (r: (u32, u32, u32))
    ensures
        r == oklab_srgb(lightness, a_axis, b_axis),
{
    let t = cssparser_color::Oklab::new(
        Some(bytemuck::cast(lightness)),
        Some(bytemuck::cast(a_axis)),
        Some(bytemuck::cast(b_axis)),
        None,
    );
    let v = palette::Oklab::new(t.lightness.unwrap(), t.a.unwrap(), t.b.unwrap());
    let c: palette::Srgb = palette::Srgb::from_color(v);
    (c.red.to_bits(), c.green.to_bits(), c.blue.to_bits())
}

/// Relies on palette's Srgb::from_color for Oklch, with the hue in degrees as
/// the grammar reports it; a pure function of the three component bit
/// patterns.
#[verifier::external_body]
pub(crate) fn oklch_to_srgb(lightness: u32, chroma: u32, hue: u32) -> (r: (u32, u32, u32))
    ensures
        r == oklch_srgb(lightness, chroma, hue),
{
    let t = cssparser_color::Oklch::new(
        Some(bytemuck::cast(lightness)),
        Some(bytemuck::cast(chroma)),
        Some(bytemuck::cast(hue)),
        None,
    );
    let v = palette::Oklch::new(t.lightness.unwrap(), t.chroma.unwrap(), t.hue.unwrap());
    let c: palette::Srgb = palette::Srgb::from_color(v);
    (c.red.to_bits(), c.green.to_bits(), c.blue.to_bits())
}

} // verus!
