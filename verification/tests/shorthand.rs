use color_norm::shorthand::convert_to_css_string;

#[test]
fn test_convert_to_css_string() {
    let test_cases = vec![
        ("rgb/255/127/0", "rgb(255 127 0)"),
        ("rgb/100pct/50pct/0pct", "rgb(100% 50% 0%)"),
        ("rgb/0/206/209/1.0", "rgb(0 206 209 / 1.0)"),
        ("hsl/34.99/0.4/0.1", "hsl(34.99 0.4 0.1)"),
        ("rgba/255/127/0/0.5", "rgba(255 127 0 / 0.5)"),
        ("lch/50/100/120", "lch(50 100 120)"),
        ("oklch/0.8/0.2/120", "oklch(0.8 0.2 120)"),
        ("oklch/0.8/0.2/120/0.5", "oklch(0.8 0.2 120 / 0.5)"),
        ("css/darkturquoise", "darkturquoise"),
        ("darkturquoise", "darkturquoise"),
    ];
    for (input, expected_output) in &test_cases {
        assert_eq!(convert_to_css_string(input), expected_output.to_string());
    }
    let ignore_cases = vec![
        "oklab(0.77 -0.16 -0.02 / 0.5)",
        "oklch(0.77 0.16 187.69 / 0.5)",
    ];
    for bad_input in &ignore_cases {
        assert_eq!(convert_to_css_string(bad_input), bad_input.to_string());
    }
}

#[test]
fn test_shorthand_three_values() {
    assert_eq!(convert_to_css_string("foo/a/b/c"), "foo(a b c)");
    assert_eq!(convert_to_css_string("hsl/120/0.5/0.25"), "hsl(120 0.5 0.25)");
}

#[test]
fn test_shorthand_alpha_arity() {
    assert_eq!(convert_to_css_string("foo/a/b/c/d"), "foo(a b c / d)");
    assert_eq!(convert_to_css_string("lab/50/-40/-13/0.5"), "lab(50 -40 -13 / 0.5)");
    // six or more pieces fall back to plain positional joining
    assert_eq!(convert_to_css_string("foo/a/b/c/d/e"), "foo(a b c d e)");
}

#[test]
fn test_percent_rewrite() {
    assert_eq!(convert_to_css_string("rgb/100pct/50pct/0pct"), "rgb(100% 50% 0%)");
    assert_eq!(convert_to_css_string("hsla/181/100.0pct/41pct/1.0"), "hsla(181 100.0% 41% / 1.0)");
}

#[test]
fn test_css_escape_hatch() {
    assert_eq!(convert_to_css_string("css/darkturquoise"), "darkturquoise");
    assert_eq!(convert_to_css_string("darkturquoise"), "darkturquoise");
}

#[test]
fn test_passthrough_idempotence() {
    let already_canonical = vec![
        "rgb(255 127 0)",
        "rgb(0, 206, 209)",
        "lch/(76.45/33.69/196.47/0.5)",
        "(",
        ")",
        "hsl(181 100% 41% / 1.0)",
    ];
    for text in &already_canonical {
        let once = convert_to_css_string(text);
        assert_eq!(&once, text);
        assert_eq!(convert_to_css_string(&once), once);
    }
}

#[test]
fn test_no_slash_is_untouched() {
    assert_eq!(convert_to_css_string(""), "");
    assert_eq!(convert_to_css_string("salmon"), "salmon");
    assert_eq!(convert_to_css_string("#00ced1"), "#00ced1");
}
