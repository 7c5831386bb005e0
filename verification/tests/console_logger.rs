use chrono::Local;
use lumus_logger::ConsoleLogger;
use lumus_logger::LogColor;

/*
Warn messages tests
*/
#[test]
fn test_warn_with_datetime_info_message() {
    let logger = ConsoleLogger::new("[ %dt - %i ] - %m");

    let warn = logger.warn("Warn message");
    let datetime_now = Local::now().format("%Y-%m-%d %H:%M:%S").to_string();

    assert_eq!(warn.text, format!("[ {} - Warn ] - Warn message", datetime_now));
    assert_eq!(warn.color, LogColor::Yellow);
}

#[test]
fn test_warn_with_date_info_message() {
    let logger = ConsoleLogger::new("[ %d - %i ] - %m");

    let warn = logger.warn("Warn message");
    let date_now = Local::now().format("%Y-%m-%d").to_string();

    assert_eq!(warn.text, format!("[ {} - Warn ] - Warn message", date_now));
    assert_eq!(warn.color, LogColor::Yellow);
}

#[test]
fn test_warn_just_message() {
    let logger = ConsoleLogger::new("%m");

    let warn = logger.warn("Warn message");

    assert_eq!(warn.text, "Warn message");
    assert_eq!(warn.color, LogColor::Yellow);
}

/*
Info messages tests
*/
#[test]
fn test_info_with_datetime_info_message() {
    let logger = ConsoleLogger::new("(%dt) - (%i) - (%m)");

    let info = logger.info("Info message");
    let datetime_now = Local::now().format("%Y-%m-%d %H:%M:%S").to_string();

    assert_eq!(info.text, format!("({}) - (Info) - (Info message)", datetime_now));
    assert_eq!(info.color, LogColor::Blue);
}

#[test]
fn test_info_with_date_info_message() {
    let logger = ConsoleLogger::new("|%d | | %i | - |%m|");

    let info = logger.info("Info message");
    let date_now = Local::now().format("%Y-%m-%d").to_string();

    assert_eq!(info.text, format!("|{} | | Info | - |Info message|", date_now));
    assert_eq!(info.color, LogColor::Blue);
}

#[test]
fn test_info_just_message() {
    let logger = ConsoleLogger::new("'%m'");

    let info = logger.info("Info message");

    assert_eq!(info.text, "'Info message'");
    assert_eq!(info.color, LogColor::Blue);
}

/*
Log messages tests
*/
#[test]
fn test_log_with_datetime_message() {
    let logger = ConsoleLogger::new("%dt;%m");

    let log = logger.log("Log message");
    let datetime_now = Local::now().format("%Y-%m-%d %H:%M:%S").to_string();

    assert_eq!(log.text, format!("{};Log message", datetime_now));
    assert_eq!(log.color, LogColor::Green);
}

#[test]
fn test_log_with_info_message() {
    let logger = ConsoleLogger::new("%i;%m");

    let log = logger.log("Log message");

    assert_eq!(log.text, "Log;Log message");
    assert_eq!(log.color, LogColor::Green);
}

#[test]
fn test_log_just_message() {
    let logger = ConsoleLogger::new("%m - %m");

    let log = logger.log("Log message");

    assert_eq!(log.text, "Log message - Log message");
    assert_eq!(log.color, LogColor::Green);
}

/*
Debug messages tests
*/
#[test]
fn test_debug_with_date() {
    let logger = ConsoleLogger::new("%dt");

    let debug = logger.debug("Debug Message");
    let datetime_now = Local::now().format("%Y-%m-%d %H:%M:%S").to_string();

    assert_eq!(debug.text, format!("{}", datetime_now));
    assert_eq!(debug.color, LogColor::Purple);
}

#[test]
fn test_debug_with_info_message() {
    let logger = ConsoleLogger::new("%i -> %m");

    let debug = logger.debug("Debug message");

    assert_eq!(debug.text, "Debug -> Debug message");
    assert_eq!(debug.color, LogColor::Purple);
}

#[test]
fn test_debug_message_datetime_info() {
    let logger = ConsoleLogger::new("%m - %m -> %dt (%i)");

    let debug = logger.debug("Debug message");
    let datetime_now = Local::now().format("%Y-%m-%d %H:%M:%S").to_string();

    assert_eq!(
        debug.text,
        format!("Debug message - Debug message -> {} (Debug)", datetime_now)
    );
    assert_eq!(debug.color, LogColor::Purple);
}

/*
Error messages tests
*/
#[test]
fn test_error_with_datetime() {
    let logger = ConsoleLogger::new("%m %dt");

    let error = logger.error("An error occurred at");
    let datetime_now = Local::now().format("%Y-%m-%d %H:%M:%S").to_string();

    assert_eq!(error.text, format!("An error occurred at {}", datetime_now));
    assert_eq!(error.color, LogColor::Red);
}

#[test]
fn test_error_just_message() {
    let logger = ConsoleLogger::new("%m");

    let error = logger.error("Error message");

    assert_eq!(error.text, "Error message");
    assert_eq!(error.color, LogColor::Red);
}

#[test]
fn test_error_message_date_info() {
    let logger = ConsoleLogger::new("%m;%d;%i");

    let error = logger.error("Error message");
    let date_now = Local::now().format("%Y-%m-%d").to_string();

    assert_eq!(error.text, format!("Error message;{};Error", date_now));
    assert_eq!(error.color, LogColor::Red);
}
