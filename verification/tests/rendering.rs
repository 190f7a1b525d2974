//! The formatting pipeline, against exact expected strings. Colored
//! expectations are computed with the same terminal-styling collaborator
//! the library calls, so a wrapper that handed its argument back
//! unchanged would fail them.

use crossterm::style::{Color, Stylize};
use logy::hooks::RecordingHook;
use logy::logger::Logger;
use logy::model::{resolve_style, LogComponent, LogMessage, LogType};
use logy::render::{build_log_string, get_component_str, render_with_time};

fn message_of(log_type: LogType, text: &str) -> LogMessage {
    let log_style = resolve_style(&log_type);
    LogMessage {
        log_type,
        log_message: String::from(text),
        log_style,
    }
}

fn prefix_spacer_message() -> Vec<LogComponent> {
    vec![LogComponent::Prefix, LogComponent::Spacer, LogComponent::Message]
}

#[test]
fn plain_info_line_is_exact() {
    let m = message_of(LogType::Info, "hi");
    let out = render_with_time(&prefix_spacer_message(), &m, false, "12:34:56");
    assert_eq!(out, "[INFO] hi");
}

#[test]
fn colorized_info_colors_only_the_prefix() {
    let m = message_of(LogType::Info, "hi");
    let out = render_with_time(&prefix_spacer_message(), &m, true, "12:34:56");
    let expected = format!("{}{}", "[INFO]".with(Color::White), " hi");
    assert_eq!(out, expected);
    assert!(out.ends_with(" hi"));
}

#[test]
fn colorized_fatal_colors_prefix_and_body() {
    let m = message_of(LogType::Fatal, "hi");
    let out = render_with_time(&prefix_spacer_message(), &m, true, "12:34:56");
    let expected = format!(
        "{} {}",
        "[FATAL]".with(Color::DarkRed),
        "hi".with(Color::DarkRed)
    );
    assert_eq!(out, expected);
}

#[test]
fn rendering_is_pure_in_its_inputs() {
    let m = message_of(LogType::Error, "twice");
    let components = vec![
        LogComponent::Prefix,
        LogComponent::Spacer,
        LogComponent::Literal(String::from("->")),
        LogComponent::Spacer,
        LogComponent::Message,
        LogComponent::Newline,
    ];
    let a = render_with_time(&components, &m, true, "00:00:00");
    let b = render_with_time(&components, &m, true, "00:00:00");
    assert_eq!(a, b);
    // No Time component: the clock reading cannot influence the output,
    // so two full renderings also agree.
    let c = build_log_string(&components, &m, true);
    let d = build_log_string(&components, &m, true);
    assert_eq!(c, d);
    assert_eq!(a, c);
}

#[test]
fn time_component_takes_the_given_reading() {
    let m = message_of(LogType::Info, "x");
    let components = vec![LogComponent::Time, LogComponent::Spacer, LogComponent::Message];
    let out = render_with_time(&components, &m, false, "08:15:59");
    assert_eq!(out, "08:15:59 x");
}

#[test]
fn clock_reading_has_hms_shape() {
    let m = message_of(LogType::Info, "");
    let components = vec![LogComponent::Time];
    let out = build_log_string(&components, &m, false);
    assert_eq!(out.chars().count(), 8);
    let chars: Vec<char> = out.chars().collect();
    assert_eq!(chars[2], ':');
    assert_eq!(chars[5], ':');
    for i in [0usize, 1, 3, 4, 6, 7] {
        assert!(chars[i].is_ascii_digit());
    }
}

#[test]
fn default_template_line_is_exact() {
    let l = Logger::<RecordingHook>::default();
    let m = message_of(LogType::Info, "Started");
    let out = render_with_time(&l.components, &m, false, "12:34:56");
    assert_eq!(out, "12:34:56 [INFO] Started");
}

#[test]
fn duplicate_and_reordered_components_are_honored() {
    let m = message_of(LogType::Warning, "w");
    let components = vec![
        LogComponent::Prefix,
        LogComponent::Newline,
        LogComponent::Prefix,
    ];
    let out = render_with_time(&components, &m, false, "12:00:00");
    assert_eq!(out, "[WARNING]\n[WARNING]");
}

#[test]
fn empty_pipeline_renders_empty_line() {
    let m = message_of(LogType::Info, "ignored");
    let out = render_with_time(&Vec::new(), &m, true, "12:00:00");
    assert_eq!(out, "");
}

#[test]
fn literal_component_is_verbatim() {
    let m = message_of(LogType::Info, "x");
    let out = get_component_str(
        &LogComponent::Literal(String::from("*** WOW ***")),
        &m,
        true,
        "12:00:00",
    );
    assert_eq!(out, "*** WOW ***");
}

#[test]
fn spacer_and_newline_components() {
    let m = message_of(LogType::Info, "x");
    assert_eq!(get_component_str(&LogComponent::Spacer, &m, true, "t"), " ");
    assert_eq!(get_component_str(&LogComponent::Newline, &m, false, "t"), "\n");
}

#[test]
fn custom_style_colors_with_rgb() {
    let style = logy::model::LogStyleBuilder::new()
        .color(logy::model::LogColor::Rgb { r: 163, g: 0, b: 233 })
        .prefix(String::from("*** WOW ***"))
        .color_message(true)
        .build();
    let m = message_of(LogType::Custom(style), "custom!");
    let out = render_with_time(&prefix_spacer_message(), &m, true, "12:00:00");
    let expected = format!(
        "{} {}",
        "*** WOW ***".with(Color::Rgb { r: 163, g: 0, b: 233 }),
        "custom!".with(Color::Rgb { r: 163, g: 0, b: 233 })
    );
    assert_eq!(out, expected);
}
