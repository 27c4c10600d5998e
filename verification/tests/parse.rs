use color_norm::color::{Color, Component, ParseError, Space};

/// Relative comparison in the style of the `approx` crate: equal values pass,
/// a difference below machine epsilon passes, otherwise the difference must
/// be within `max_relative` of the larger magnitude.
fn relative_eq(a: f32, b: f32, max_relative: f32) -> bool {
    if a == b {
        return true;
    }
    let abs_diff = (a - b).abs();
    if abs_diff <= f32::EPSILON {
        return true;
    }
    abs_diff <= max_relative * a.abs().max(b.abs())
}

fn compare_colors(color1: (f32, f32, f32), color2: (f32, f32, f32)) {
    const ALLOWED_DIFF: f32 = 1.0 / 255.0;
    assert!(relative_eq(color1.0, color2.0, ALLOWED_DIFF), "red: {} != {}", color1.0, color2.0);
    assert!(relative_eq(color1.1, color2.1, ALLOWED_DIFF), "green: {} != {}", color1.1, color2.1);
    assert!(relative_eq(color1.2, color2.2, ALLOWED_DIFF), "blue: {} != {}", color1.2, color2.2);
}

fn rgb_of(color: &Color) -> (f32, f32, f32) {
    (f32::from_bits(color.red), f32::from_bits(color.green), f32::from_bits(color.blue))
}

#[test]
fn test_parse() {
    let dark_turquoise_representations = vec![
        "rgb/0/206/209",
        "rgb/0/206/209/1.0",
        "rgb(0 206 209)",
        "rgb(0, 206, 209)",
        "rgb(0,206,209)",
        "rgb(0 206 209 / 1.0)",
        "hsl(181, 100%, 41%)",
        "hsla/181/100.0pct/41pct/1.0",
        "hsla(181, 100%, 41%, 1.0)",
        "hsl(0.50277778turn 100% 41% / 1.0)",
        "hsl(181 100% 41% / 100%)",
        "lab/75.29/-40.04/-13.52",
        "lab(75.29 -40.04 -13.52)",
        "lab(75.29 -40.05 -13.52 / 1.0)",
        "darkturquoise",
        "css/darkturquoise",
        "#00ced1",
    ];

    let expected = (0.0f32, 206.0 / 255.0, 209.0 / 255.0);

    for representation in &dark_turquoise_representations {
        let actual = match Color::from_repr(representation) {
            Ok(color) => color,
            Err(e) => panic!("Failed to parse color {}: {}", representation, e.message()),
        };
        println!("{}", representation);
        compare_colors(expected, rgb_of(&actual));
        let alpha = f32::from_bits(actual.alpha);
        assert_eq!(1.0, alpha, "Alpha values do not match: {} != {}", 1.0, alpha);
    }

    let bad_representations = vec![
        "rgb/1/2",
        "gibberish",
        "lch/(76.45/33.69/196.47/0.5)",
        "very/much/nonsense",
        "very/much/nonsense/1.0",
        "rgb/very/much/nonsense",
        "rgb/very/much/nonsense/1.0",
    ];
    for representation in &bad_representations {
        match Color::from_repr(representation) {
            Ok(_) => panic!("Expected error for color {}", representation),
            Err(_) => (),
        }
    }
}

#[test]
fn test_cross_syntax_equivalence() {
    let forms = vec!["rgb/0/206/209", "rgb(0 206 209)", "rgb(0, 206, 209)", "#00ced1"];
    let mut parsed = Vec::new();
    for form in &forms {
        parsed.push(Color::from_repr(form).unwrap());
    }
    for color in &parsed {
        compare_colors(rgb_of(&parsed[0]), rgb_of(color));
        assert_eq!(f32::from_bits(color.alpha), 1.0);
    }
}

#[test]
fn test_space_tags() {
    assert_eq!(Color::from_repr("rgb/0/206/209").unwrap().space, Space::Rgb);
    assert_eq!(Color::from_repr("hsl(181 100% 41%)").unwrap().space, Space::Hsl);
    assert_eq!(Color::from_repr("lab(75.29 -40.04 -13.52)").unwrap().space, Space::Lab);
    assert_eq!(Color::from_repr("lch(100 0 0)").unwrap().space, Space::Lch);
    assert_eq!(Color::from_repr("oklab(1 0 0)").unwrap().space, Space::Oklab);
    assert_eq!(Color::from_repr("oklch(1 0 0)").unwrap().space, Space::Oklch);
    assert_eq!(Color::from_repr("#00ced1").unwrap().space, Space::Hex);
    assert_eq!(Color::from_repr("darkturquoise").unwrap().space, Space::CssName);
}

#[test]
fn test_conversion_reaches_unit_range() {
    // every conversion path lands in the unit range: white in four spaces
    let whites = vec!["lch(100 0 0)", "oklab(1 0 0)", "oklch(1 0 0)", "hsl(0 0% 100%)"];
    for white in &whites {
        let color = Color::from_repr(white).unwrap();
        compare_colors((1.0, 1.0, 1.0), rgb_of(&color));
    }
    // the direct RGB path scales channel bytes down to the unit range
    let red = Color::from_repr("rgb(255 0 0)").unwrap();
    compare_colors((1.0, 0.0, 0.0), rgb_of(&red));
}

#[test]
fn test_alpha_handling() {
    // an explicit alpha on an RGB- or HSL-family color is kept
    let half = Color::from_repr("rgb(0 206 209 / 0.5)").unwrap();
    assert_eq!(f32::from_bits(half.alpha), 0.5);
    let half_hsl = Color::from_repr("hsl(181 100% 41% / 0.5)").unwrap();
    assert_eq!(f32::from_bits(half_hsl.alpha), 0.5);
    // spaces parsed without an alpha channel are fully opaque
    let lab = Color::from_repr("lab(75.29 -40.04 -13.52 / 0.5)").unwrap();
    assert_eq!(f32::from_bits(lab.alpha), 1.0);
    let oklch = Color::from_repr("oklch/0.8/0.2/120/0.5").unwrap();
    assert_eq!(f32::from_bits(oklch.alpha), 1.0);
}

#[test]
fn test_missing_component() {
    assert_eq!(
        Color::from_repr("hsl(none 100% 41%)").unwrap_err(),
        ParseError::MissingComponent(Component::Hue)
    );
    assert_eq!(
        Color::from_repr("hsl(181 none 41%)").unwrap_err(),
        ParseError::MissingComponent(Component::Saturation)
    );
    assert_eq!(
        Color::from_repr("hsl(181 100% none)").unwrap_err(),
        ParseError::MissingComponent(Component::Lightness)
    );
    assert_eq!(
        Color::from_repr("lab(none -40.04 -13.52)").unwrap_err(),
        ParseError::MissingComponent(Component::Lightness)
    );
    assert_eq!(
        Color::from_repr("lab(75.29 none -13.52)").unwrap_err(),
        ParseError::MissingComponent(Component::AAxis)
    );
    assert_eq!(
        Color::from_repr("lab(75.29 -40.04 none)").unwrap_err(),
        ParseError::MissingComponent(Component::BAxis)
    );
    assert_eq!(
        Color::from_repr("lch(50 none 120)").unwrap_err(),
        ParseError::MissingComponent(Component::Chroma)
    );
    assert_eq!(
        Color::from_repr("oklch(0.8 0.2 none)").unwrap_err(),
        ParseError::MissingComponent(Component::Hue)
    );
}

#[test]
fn test_rejection_of_malformed_input() {
    assert_eq!(Color::from_repr("gibberish").unwrap_err(), ParseError::InvalidSyntax);
    assert_eq!(Color::from_repr("very/much/nonsense").unwrap_err(), ParseError::InvalidSyntax);
    assert_eq!(Color::from_repr("rgb/1/2").unwrap_err(), ParseError::InvalidSyntax);
}

#[test]
fn test_unknown_color_space() {
    // hwb() parses in the grammar, but no prefix and no keyword matches it
    assert_eq!(Color::from_repr("hwb(120 30% 50%)").unwrap_err(), ParseError::UnknownColorSpace);
}

#[test]
fn test_unsupported_space() {
    // currentcolor is a keyword, so it classifies, but has no handler
    assert_eq!(Color::from_repr("currentcolor").unwrap_err(), ParseError::UnsupportedSpace);
}

#[test]
fn test_error_messages() {
    assert_eq!(ParseError::InvalidSyntax.message(), "Invalid color format");
    assert_eq!(ParseError::UnknownColorSpace.message(), "Unknown color space");
    assert_eq!(ParseError::MissingComponent(Component::Hue).message(), "Missing hue value");
    assert_eq!(ParseError::UnsupportedSpace.message(), "Unsupported color format");
}

#[test]
fn test_determinism() {
    let inputs = vec!["rgb/0/206/209", "hsl(181 100% 41%)", "#00ced1", "darkturquoise", "gibberish"];
    for input in &inputs {
        let first = Color::from_repr(input);
        let second = Color::from_repr(input);
        assert_eq!(first, second);
    }
}
