use debugrs::debugger::{format_label_at, format_line, format_marker};
use debugrs::{ColorSupportLevel, RsDebugger};

#[test]
fn test_replace_emojis() {
    let debugger = RsDebugger::new(String::from("test"), None, None, None);
    let result = debugger.replace_emojis(String::from("Hello :smile:"));
    let mut matcher = String::from("Hello ");
    matcher.push_str(
        emojis::get_by_shortcode("smile")
            .unwrap()
            .to_string()
            .as_str(),
    );
    assert_eq!(result, matcher);
}

#[test]
fn test_is_permitted_to_write() {
    let debugger = RsDebugger::new("test".to_string(), Some("test"), None, None);
    assert!(debugger.is_enabled());

    let debugger = RsDebugger::new("test".to_string(), Some("other"), None, None);
    assert!(!debugger.is_enabled());
}

#[test]
fn test_is_permitted_to_write_extended() {
    let debugger = RsDebugger::new("test:extended:child-process".to_string(), Some("test:*"), None, None);
    assert!(debugger.is_enabled());
}

#[test]
fn test_extend_label() {
    let mut debugger = RsDebugger::new("test".to_string(), None, None, None);
    let extended = debugger.extend("sub".to_string(), None);
    assert_eq!(extended.label(), "test:sub");
}

#[test]
fn test_write() {
    let mut debugger = RsDebugger::new("test".to_string(), Some("test"), None, Some("truecolor"));
    let line = debugger.format_logline("Hello, world! :rocket: :crab: :fire: ");
    assert!(line.is_some());
    debugger.mark_emitted();
}

#[test]
fn test_disables_enabled_logger() {
    let mut debugger = RsDebugger::new("test".to_string(), Some("test"), None, None);
    assert!(debugger.is_enabled());
    debugger.disable();
    assert!(!debugger.is_enabled());
    debugger.enable();
    assert!(debugger.is_enabled());
}

#[test]
fn unset_filter_disables_everything() {
    let debugger = RsDebugger::new("app".to_string(), None, Some("xterm-256color"), None);
    assert!(!debugger.is_enabled());
    assert_eq!(debugger.format_logline("anything"), None);
}

#[test]
fn exact_filter_enables_only_its_label() {
    assert!(RsDebugger::new("test".to_string(), Some("test"), None, None).is_enabled());
    assert!(!RsDebugger::new("other".to_string(), Some("test"), None, None).is_enabled());
}

#[test]
fn namespace_filter_enables_nested_child() {
    let debugger = RsDebugger::new("test:extended:child".to_string(), Some("test:*"), None, None);
    assert!(debugger.is_enabled());
}

#[test]
fn extend_decides_child_filter_on_full_label() {
    let mut root = RsDebugger::new("app".to_string(), Some("app:worker"), None, None);
    assert!(!root.is_enabled());
    let child = root.extend("worker".to_string(), Some("app:worker"));
    assert!(child.is_enabled());
    assert!(!root.is_enabled());
    assert_eq!(root.label(), "app");
}

#[test]
fn extend_keeps_tier_of_parent() {
    let mut root = RsDebugger::new("app".to_string(), None, Some("xterm-256color"), None);
    let child = root.extend("c".to_string(), None);
    assert_eq!(child.support_level(), ColorSupportLevel::Color256);
    assert!(child.color().starts_with("\x1b[38;5;"));
}

#[test]
fn extend_twice_matches_extend_with_joined_label() {
    let mut root = RsDebugger::new("root".to_string(), None, None, None);
    let mut a = root.extend("a".to_string(), None);
    let ab = a.extend("b".to_string(), None);
    let joined = root.extend("a:b".to_string(), None);
    assert_eq!(ab.label(), "root:a:b");
    assert_eq!(ab.label(), joined.label());
}

#[test]
fn child_state_is_independent_of_parent() {
    let mut root = RsDebugger::new("app".to_string(), Some("*"), None, None);
    let mut child = root.extend("c".to_string(), Some("*"));
    child.disable();
    assert!(root.is_enabled());
    root.disable();
    child.enable();
    assert!(child.is_enabled());
    assert!(!root.is_enabled());
}

#[test]
fn no_color_terminal_has_no_escape_and_a_timestamp() {
    let debugger = RsDebugger::new("app".to_string(), Some("app"), None, None);
    assert_eq!(debugger.support_level(), ColorSupportLevel::NoColor);
    assert_eq!(debugger.color(), "");
    let line = debugger.format_logline("hi :smile:").unwrap();
    assert!(!line.contains('\x1b'));
    let glyph = emojis::get_by_shortcode("smile").unwrap().as_str();
    let stamp: String = line.chars().take(19).collect();
    assert_eq!(stamp.len(), 19);
    assert_eq!(&stamp[4..5], "-");
    assert_eq!(&stamp[10..11], " ");
    assert_eq!(&stamp[13..14], ":");
    assert_eq!(&line[19..], format!(" [app] hi {} \n", glyph));
}

#[test]
fn colored_line_has_label_message_and_first_marker() {
    let debugger = RsDebugger::new("app".to_string(), Some("app"), Some("xterm-16color"), None);
    let color = debugger.color().to_string();
    let line = debugger.format_logline("booting").unwrap();
    assert_eq!(
        line,
        format!("\x1b[1m{}[app]\x1b[0m booting \x1b[1m{}+0\x1b[0m\n", color, color)
    );
}

#[test]
fn second_marker_counts_milliseconds_from_last_emission() {
    let mut debugger = RsDebugger::new("app".to_string(), Some("app"), None, Some("truecolor"));
    let color = debugger.color().to_string();
    assert_eq!(debugger.format_timestamp(), format!("\x1b[1m{}+0\x1b[0m", color));
    debugger.mark_emitted();
    let marker = debugger.format_timestamp();
    let prefix = format!("\x1b[1m{}+", color);
    assert!(marker.starts_with(&prefix));
    assert!(marker.ends_with("ms\x1b[0m"));
    let digits = &marker[prefix.len()..marker.len() - "ms\x1b[0m".len()];
    let ms: u128 = digits.parse().unwrap();
    assert!(ms < 60_000);
}

#[test]
fn disabled_instance_emits_nothing_and_keeps_its_marker() {
    let mut debugger = RsDebugger::new("test".to_string(), Some("test"), None, Some("truecolor"));
    let color = debugger.color().to_string();
    debugger.disable();
    assert_eq!(debugger.format_logline("hidden"), None);
    assert_eq!(debugger.format_timestamp(), format!("\x1b[1m{}+0\x1b[0m", color));
}

#[test]
fn label_formats_exactly() {
    assert_eq!(
        format_label_at(ColorSupportLevel::NoColor, "", "app", "2024-01-02 03:04:05"),
        "2024-01-02 03:04:05 [app]"
    );
    assert_eq!(
        format_label_at(ColorSupportLevel::BasicColor, "\x1b[32m", "app", "ignored"),
        "\x1b[1m\x1b[32m[app]\x1b[0m"
    );
}

#[test]
fn marker_formats_exactly() {
    assert_eq!(format_marker(ColorSupportLevel::NoColor, "", Some(5)), "");
    assert_eq!(format_marker(ColorSupportLevel::Color16, "C", None), "\x1b[1mC+0\x1b[0m");
    assert_eq!(format_marker(ColorSupportLevel::TrueColor, "C", Some(1042)), "\x1b[1mC+1042ms\x1b[0m");
    assert_eq!(format_marker(ColorSupportLevel::Color256, "C", Some(0)), "\x1b[1mC+0ms\x1b[0m");
}

#[test]
fn line_joins_with_spaces() {
    assert_eq!(format_line("[a]", "msg", "+0"), "[a] msg +0\n");
    assert_eq!(format_line("[a]", "msg", ""), "[a] msg \n");
}
