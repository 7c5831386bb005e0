use chrono::Local;
use lumus_logger::template::render;
use lumus_logger::ConsoleLogger;
use lumus_logger::LevelTag;
use lumus_logger::LogColor;
use lumus_logger::render_file_line;

/*
Direct tests of the substitution engine, with explicit date texts.
*/
#[test]
fn render_substitutes_all_four_placeholders() {
    let out = render("[%dt|%d|%i] %m", "hello", "Info", "2024-01-02 03:04:05", "2024-01-02");
    assert_eq!(out, "[2024-01-02 03:04:05|2024-01-02|Info] hello");
}

#[test]
fn render_checks_datetime_before_date() {
    // The "%d" check runs after "%dt" was already consumed: no residue is
    // left behind, and a lone "%d" is still expanded.
    let out = render("%dt and %d", "m", "T", "DT", "D");
    assert_eq!(out, "DT and D");
}

#[test]
fn render_date_only_is_untouched_by_datetime_handling() {
    let out = render("%d", "m", "T", "DT", "D");
    assert_eq!(out, "D");
}

#[test]
fn render_leaves_template_without_placeholders_unchanged() {
    let out = render("plain text, even with a stray % sign", "m", "T", "DT", "D");
    assert_eq!(out, "plain text, even with a stray % sign");
}

#[test]
fn render_leaves_unrecognized_sequences_alone() {
    let out = render("a %x %m z", "hello", "Tag", "DT", "D");
    assert_eq!(out, "a %x hello z");
}

#[test]
fn render_substitutes_every_occurrence() {
    let out = render("%i %i and %m,%m", "twice", "Log", "DT", "D");
    assert_eq!(out, "Log Log and twice,twice");
}

#[test]
fn render_empty_template() {
    let out = render("", "m", "T", "DT", "D");
    assert_eq!(out, "");
}

#[test]
fn render_handles_tokens_arriving_with_the_message() {
    // The message lands before the "%i" pass, so a "%i" inside it is
    // rewritten too when the template itself holds "%i" ...
    let out = render("%m;%i", "x%i", "Log", "DT", "D");
    assert_eq!(out, "xLog;Log");
    // ... and stays verbatim when the template does not.
    let out2 = render("%m", "a%ib", "Log", "DT", "D");
    assert_eq!(out2, "a%ib");
}

#[test]
fn render_is_deterministic_for_fixed_inputs() {
    let one = render("%i -> %m (%d)", "same", "Warn", "DT", "D");
    let two = render("%i -> %m (%d)", "same", "Warn", "DT", "D");
    assert_eq!(one, two);
}

/*
Scenario tests over the public logger surface.
*/
#[test]
fn warn_message_only_template() {
    let logger = ConsoleLogger::new("%m");
    let warn = logger.warn("Error message");
    assert_eq!(warn.text, "Error message");
    assert_eq!(warn.color, LogColor::Yellow);
}

#[test]
fn log_tag_and_message_template() {
    let logger = ConsoleLogger::new("%i;%m");
    let log = logger.log("Log message");
    assert_eq!(log.text, "Log;Log message");
    assert_eq!(log.color, LogColor::Green);
}

#[test]
fn debug_repeated_message_with_datetime_and_tag() {
    let logger = ConsoleLogger::new("%m - %m -> %dt (%i)");
    let debug = logger.debug("D");
    let datetime_now = Local::now().format("%Y-%m-%d %H:%M:%S").to_string();
    assert_eq!(debug.text, format!("D - D -> {} ({})", datetime_now, "Debug"));
    assert_eq!(debug.color, LogColor::Purple);
}

#[test]
fn console_template_without_placeholders_passes_through() {
    let logger = ConsoleLogger::new("nothing to expand");
    let log = logger.log("ignored");
    assert_eq!(log.text, "nothing to expand");
    assert_eq!(log.color, LogColor::Green);
}

/*
File-sink lines: same engine, one trailing newline appended.
*/
#[test]
fn file_line_appends_newline() {
    let line = render_file_line("%i;%m", "msg", LevelTag::Warn);
    assert_eq!(line, "Warn;msg\n");
}

#[test]
fn file_line_without_placeholders_only_gains_newline() {
    let line = render_file_line("plain", "msg", LevelTag::Error);
    assert_eq!(line, "plain\n");
}

#[test]
fn file_line_carries_the_level_display_name() {
    assert_eq!(render_file_line("%i", "m", LevelTag::Log), "Log\n");
    assert_eq!(render_file_line("%i", "m", LevelTag::Info), "Info\n");
    assert_eq!(render_file_line("%i", "m", LevelTag::Debug), "Debug\n");
}

#[test]
fn file_line_with_date_placeholders() {
    let line = render_file_line("%dt|%d|%m", "m", LevelTag::Info);
    let datetime_now = Local::now().format("%Y-%m-%d %H:%M:%S").to_string();
    let date_now = Local::now().format("%Y-%m-%d").to_string();
    assert_eq!(line, format!("{}|{}|m\n", datetime_now, date_now));
}
