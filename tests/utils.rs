use debugrs::color::color_sequence;
use debugrs::{get_ansi_color_sequence, get_color_support_level, ColorSupportLevel};

#[test]
fn test_get_color_support_level_in_colorterm_env() {
    let level = get_color_support_level(None, Some("truecolor"));
    assert_eq!(level, ColorSupportLevel::TrueColor);
}

#[test]
fn test_get_color_support_level_in_256color_term_env() {
    let level = get_color_support_level(Some("xterm-256color"), None);
    assert_eq!(level, ColorSupportLevel::Color256);
}

#[test]
fn test_get_color_support_level_in_16color_term_env() {
    let level = get_color_support_level(Some("xterm-16color"), None);
    assert_eq!(level, ColorSupportLevel::Color16);
}

#[test]
fn test_get_color_support_level_in_color_term_env() {
    let level = get_color_support_level(Some("xterm-color"), None);
    assert_eq!(level, ColorSupportLevel::BasicColor);
}

#[test]
fn test_get_color_support_level_in_no_color_term_env() {
    let level = get_color_support_level(Some("dumb"), None);
    assert_eq!(level, ColorSupportLevel::NoColor);
}

#[test]
fn test_get_color_support_level_in_missing_term_env() {
    let level = get_color_support_level(None, None);
    assert_eq!(level, ColorSupportLevel::NoColor);
}

#[test]
fn support_level_other_cases() {
    assert_eq!(get_color_support_level(Some("xterm-256color"), Some("24bit")), ColorSupportLevel::TrueColor);
    assert_eq!(get_color_support_level(Some("xterm"), Some("yes")), ColorSupportLevel::BasicColor);
    assert_eq!(get_color_support_level(Some("xterm"), None), ColorSupportLevel::NoColor);
    assert_eq!(get_color_support_level(Some("dumb"), Some("yes")), ColorSupportLevel::NoColor);
    assert_eq!(get_color_support_level(None, Some("yes")), ColorSupportLevel::NoColor);
}

#[test]
fn color_sequences_encode_exactly() {
    assert_eq!(color_sequence(ColorSupportLevel::TrueColor, 1, 20, 255), "\x1b[38;2;1;20;255m");
    assert_eq!(color_sequence(ColorSupportLevel::Color256, 3, 5, 0), "\x1b[38;5;15m");
    assert_eq!(color_sequence(ColorSupportLevel::Color256, 16, 16, 0), "\x1b[38;5;256m");
    assert_eq!(color_sequence(ColorSupportLevel::Color16, 4, 0, 0), "\x1b[34m");
    assert_eq!(color_sequence(ColorSupportLevel::BasicColor, 7, 0, 0), "\x1b[37m");
    assert_eq!(color_sequence(ColorSupportLevel::NoColor, 1, 2, 3), "");
}

#[test]
fn random_colors_stay_in_their_ranges() {
    for _ in 0..200 {
        let s = get_ansi_color_sequence(ColorSupportLevel::Color16);
        let d: u32 = s["\x1b[3".len()..s.len() - 1].parse().unwrap();
        assert!((1..=7).contains(&d));
        let s = get_ansi_color_sequence(ColorSupportLevel::Color256);
        let d: u32 = s["\x1b[38;5;".len()..s.len() - 1].parse().unwrap();
        assert!((1..=256).contains(&d));
        let s = get_ansi_color_sequence(ColorSupportLevel::TrueColor);
        let parts: Vec<u32> = s["\x1b[38;2;".len()..s.len() - 1].split(';').map(|p| p.parse().unwrap()).collect();
        assert_eq!(parts.len(), 3);
        assert!(parts.iter().all(|p| *p <= 255));
    }
    assert_eq!(get_ansi_color_sequence(ColorSupportLevel::NoColor), "");
}
