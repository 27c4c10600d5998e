//! Normalizes textual color representations: a slash-delimited shorthand is
//! rewritten into canonical CSS function syntax, and canonical CSS color text
//! is parsed into a space-tagged color value with standard-RGB components.
//!
//! The pipeline is pure: [`shorthand::convert_to_css_string`] rewrites the
//! shorthand, and [`color::Color::from_repr`] runs the whole pipeline,
//! classifying the color space, validating per-space components and
//! converting every space to standard RGB.
pub mod color;
pub mod css;
pub mod shorthand;
pub mod strutil;
