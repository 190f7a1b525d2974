//! Style presets, kind resolution, and the style builder.

use logy::model::{resolve_style, LogColor, LogStyle, LogStyleBuilder, LogType};

#[test]
fn resolve_info_preset() {
    let s = resolve_style(&LogType::Info);
    assert_eq!(s.color, LogColor::White);
    assert_eq!(s.prefix.as_str(), "[INFO]");
    assert!(!s.color_message);
}

#[test]
fn resolve_warning_preset() {
    let s = resolve_style(&LogType::Warning);
    assert_eq!(s.color, LogColor::Yellow);
    assert_eq!(s.prefix.as_str(), "[WARNING]");
    assert!(!s.color_message);
}

#[test]
fn resolve_error_preset() {
    let s = resolve_style(&LogType::Error);
    assert_eq!(s.color, LogColor::Red);
    assert_eq!(s.prefix.as_str(), "[ERROR]");
    assert!(!s.color_message);
}

#[test]
fn resolve_fatal_preset() {
    let s = resolve_style(&LogType::Fatal);
    assert_eq!(s.color, LogColor::DarkRed);
    assert_eq!(s.prefix.as_str(), "[FATAL]");
    assert!(s.color_message);
}

#[test]
fn resolve_custom_returns_its_style() {
    let custom = LogStyleBuilder::new()
        .color(LogColor::Rgb { r: 163, g: 0, b: 233 })
        .prefix(String::from("*** WOW ***"))
        .color_message(true)
        .build();
    let s = resolve_style(&LogType::Custom(custom));
    assert_eq!(s.color, LogColor::Rgb { r: 163, g: 0, b: 233 });
    assert_eq!(s.prefix.as_str(), "*** WOW ***");
    assert!(s.color_message);
}

#[test]
fn new_custom_wraps_the_style() {
    let t = LogType::new_custom(LogStyle::error());
    assert!(matches!(t, LogType::Custom(ref s) if s.prefix.as_str() == "[ERROR]"));
}

#[test]
fn style_presets_match_constructors() {
    let i = LogStyle::info();
    assert_eq!(i.prefix.as_str(), "[INFO]");
    let w = LogStyle::warning();
    assert_eq!(w.color, LogColor::Yellow);
    let e = LogStyle::error();
    assert_eq!(e.color, LogColor::Red);
    let f = LogStyle::fatal();
    assert!(f.color_message);
}

#[test]
fn default_style_is_plain_log() {
    let s = LogStyle::default();
    assert_eq!(s.color, LogColor::White);
    assert_eq!(s.prefix.as_str(), "[LOG]");
    assert!(!s.color_message);
}

#[test]
fn style_builder_starts_from_default() {
    let s = LogStyleBuilder::new().build();
    assert_eq!(s.color, LogColor::White);
    assert_eq!(s.prefix.as_str(), "[LOG]");
    assert!(!s.color_message);
}

#[test]
fn style_builder_from_keeps_given_style() {
    let s = LogStyleBuilder::from(LogStyle::fatal()).build();
    assert_eq!(s.color, LogColor::DarkRed);
    assert_eq!(s.prefix.as_str(), "[FATAL]");
    assert!(s.color_message);
}

#[test]
fn style_builder_setters_apply_in_any_order() {
    let s = LogStyleBuilder::new()
        .color_message(true)
        .prefix(String::from(">>"))
        .color(LogColor::Red)
        .build();
    assert_eq!(s.color, LogColor::Red);
    assert_eq!(s.prefix.as_str(), ">>");
    assert!(s.color_message);
}

#[test]
fn clone_keeps_style_and_type() {
    let s = LogStyle::warning();
    let c = s.clone();
    assert_eq!(c.color, s.color);
    assert_eq!(c.prefix, s.prefix);
    assert_eq!(c.color_message, s.color_message);
    let t = LogType::Custom(s);
    let tc = t.clone();
    assert!(matches!(tc, LogType::Custom(ref cs) if cs.prefix.as_str() == "[WARNING]"));
}
