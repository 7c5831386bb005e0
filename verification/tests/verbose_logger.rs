use chrono::Local;
use lumus_logger::LogColor;
use lumus_logger::VerboseLogger;

#[test]
fn quiet_info_line() {
    let logger = VerboseLogger::new(false);
    let info = logger.info("x");
    assert_eq!(info.text, "[ Info ] - x");
    assert_eq!(info.color, LogColor::Cyan);
}

#[test]
fn quiet_lines_for_every_level() {
    let logger = VerboseLogger::new(false);

    let warn = logger.warn("w");
    assert_eq!(warn.text, "[ Warn ] - w");
    assert_eq!(warn.color, LogColor::Yellow);

    let log = logger.log("l");
    assert_eq!(log.text, "[ Log ] - l");
    assert_eq!(log.color, LogColor::Green);

    let debug = logger.debug("d");
    assert_eq!(debug.text, "[ Debug ] - d");
    assert_eq!(debug.color, LogColor::Purple);

    let error = logger.error("e");
    assert_eq!(error.text, "[ Error ] - e");
    assert_eq!(error.color, LogColor::Red);
}

#[test]
fn verbose_line_prepends_the_timestamp() {
    let logger = VerboseLogger::new(true);
    let warn = logger.warn("boot");
    let datetime_now = Local::now().format("%Y-%m-%d %H:%M:%S").to_string();
    assert_eq!(warn.text, format!("[ {} - Warn ] - boot", datetime_now));
    assert_eq!(warn.color, LogColor::Yellow);
}

#[test]
fn verbose_info_keeps_the_cyan_palette() {
    let logger = VerboseLogger::new(true);
    let info = logger.info("x");
    let datetime_now = Local::now().format("%Y-%m-%d %H:%M:%S").to_string();
    assert_eq!(info.text, format!("[ {} - Info ] - x", datetime_now));
    assert_eq!(info.color, LogColor::Cyan);
}
