use bath::tui::theme::{
    default_preset, effective_color, parse_css_color, parse_hex_color, pick_preset,
    preset_from_config, BathConfig, ColorError, CssColor, Rgb, ThemeSection,
};

fn names(items: &[&str]) -> Vec<String> {
    items.iter().map(|s| s.to_string()).collect()
}

#[test]
fn default_preset_is_dracula() {
    assert_eq!(default_preset(), "dracula");
}

#[test]
fn preset_from_config_falls_back_to_the_default() {
    let mut cfg = BathConfig::default();
    assert_eq!(preset_from_config(&cfg), "dracula");
    cfg.theme = Some(ThemeSection::default());
    assert_eq!(preset_from_config(&cfg), "dracula");
    let mut section = ThemeSection::default();
    section.preset = Some("nord".to_string());
    cfg.theme = Some(section);
    assert_eq!(preset_from_config(&cfg), "nord");
}

#[test]
fn config_clone_keeps_every_field() {
    let mut section = ThemeSection::default();
    section.preset = Some("nord".to_string());
    section.base_100 = Some("#fff".to_string());
    section.warning_content = Some("oklch(1 0 0)".to_string());
    let cfg = BathConfig {
        theme: Some(section),
    };
    let copy = cfg.clone();
    let s = copy.theme.expect("a section");
    assert_eq!(s.preset.as_deref(), Some("nord"));
    assert_eq!(s.base_100.as_deref(), Some("#fff"));
    assert_eq!(s.warning_content.as_deref(), Some("oklch(1 0 0)"));
    assert_eq!(s.primary, None);
}

#[test]
fn hex_colors_with_six_digits() {
    assert_eq!(
        parse_hex_color("ff8000"),
        Ok(Rgb {
            r: 255,
            g: 128,
            b: 0
        })
    );
    assert_eq!(parse_hex_color("000000"), Ok(Rgb { r: 0, g: 0, b: 0 }));
    assert_eq!(
        parse_hex_color(" 1A2b3C "),
        Ok(Rgb {
            r: 0x1a,
            g: 0x2b,
            b: 0x3c
        })
    );
}

#[test]
fn hex_colors_with_three_digits() {
    assert_eq!(
        parse_hex_color("f80"),
        Ok(Rgb {
            r: 0xff,
            g: 0x88,
            b: 0x00
        })
    );
    assert_eq!(
        parse_hex_color("ABC"),
        Ok(Rgb {
            r: 0xaa,
            g: 0xbb,
            b: 0xcc
        })
    );
}

#[test]
fn hex_colors_agree_with_the_standard_parser() {
    for hex in [
        "+f+0+a", "123456", "12345g", "+++", "++1234", "-12345", "0x1234", "a+b+cd", "+a+",
        "ffffff", "FFFFFF",
    ] {
        let expected = if hex.len() == 6 {
            match (
                u8::from_str_radix(&hex[0..2], 16),
                u8::from_str_radix(&hex[2..4], 16),
                u8::from_str_radix(&hex[4..6], 16),
            ) {
                (Ok(r), Ok(g), Ok(b)) => Ok(Rgb { r, g, b }),
                _ => Err(ColorError::InvalidHex),
            }
        } else {
            match (
                u8::from_str_radix(&hex[0..1].repeat(2), 16),
                u8::from_str_radix(&hex[1..2].repeat(2), 16),
                u8::from_str_radix(&hex[2..3].repeat(2), 16),
            ) {
                (Ok(r), Ok(g), Ok(b)) => Ok(Rgb { r, g, b }),
                _ => Err(ColorError::InvalidHex),
            }
        };
        assert_eq!(parse_hex_color(hex), expected, "{hex:?}");
    }
}

#[test]
fn hex_colors_of_other_lengths_are_refused() {
    for hex in ["", "f", "ff", "ffff", "fffff", "fffffff", "\u{e9}\u{e9}\u{e9}"] {
        assert_eq!(parse_hex_color(hex), Err(ColorError::InvalidHex), "{hex:?}");
    }
}

#[test]
fn css_colors() {
    assert!(matches!(
        parse_css_color("  #ff0000 "),
        Ok(CssColor::Hex(Rgb { r: 255, g: 0, b: 0 }))
    ));
    assert!(matches!(
        parse_css_color("# 0f0 "),
        Ok(CssColor::Hex(Rgb { r: 0, g: 255, b: 0 }))
    ));
    match parse_css_color(" oklch(98% 0.003 247.858) ") {
        Ok(CssColor::Oklch(inner)) => assert_eq!(inner, "98% 0.003 247.858"),
        other => panic!("unexpected colour: {:?}", other),
    }
    match parse_css_color("oklch()") {
        Ok(CssColor::Oklch(inner)) => assert_eq!(inner, ""),
        other => panic!("unexpected colour: {:?}", other),
    }
}

#[test]
fn css_color_errors() {
    assert!(matches!(parse_css_color(""), Err(ColorError::Empty)));
    assert!(matches!(parse_css_color("   "), Err(ColorError::Empty)));
    assert!(matches!(parse_css_color("#12"), Err(ColorError::InvalidHex)));
    assert!(matches!(
        parse_css_color("#ggg"),
        Err(ColorError::InvalidHex)
    ));
    assert!(matches!(parse_css_color("#"), Err(ColorError::InvalidHex)));
    assert!(matches!(
        parse_css_color("red"),
        Err(ColorError::Unsupported)
    ));
    assert!(matches!(
        parse_css_color("oklch("),
        Err(ColorError::Unsupported)
    ));
    assert!(matches!(
        parse_css_color("oklch(1 2 3"),
        Err(ColorError::Unsupported)
    ));
    assert!(matches!(
        parse_css_color("rgb(1,2,3)"),
        Err(ColorError::Unsupported)
    ));
}

#[test]
fn effective_color_prefers_the_override() {
    assert_eq!(effective_color(&None, "#000"), "#000");
    assert_eq!(effective_color(&Some("#fff".to_string()), "#000"), "#fff");
    assert_eq!(effective_color(&Some(String::new()), "#000"), "");
}

#[test]
fn pick_preset_by_name_then_default_then_first() {
    let all = names(&["light", "dark", "dracula", "nord"]);
    assert_eq!(pick_preset(&all, "nord"), Some(3));
    assert_eq!(pick_preset(&all, "  dark "), Some(1));
    assert_eq!(pick_preset(&all, ""), Some(2));
    assert_eq!(pick_preset(&all, "   "), Some(2));
    assert_eq!(pick_preset(&all, "unknown"), Some(2));
    assert_eq!(pick_preset(&all, "Nord"), Some(2));
    let without_default = names(&["light", "dark"]);
    assert_eq!(pick_preset(&without_default, "unknown"), Some(0));
    assert_eq!(pick_preset(&without_default, ""), Some(0));
    assert_eq!(pick_preset(&without_default, "dark"), Some(1));
    assert_eq!(pick_preset(&names(&[]), "dark"), None);
}
