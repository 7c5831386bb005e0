use vstd::prelude::*;
use colored::Colorize;
use std::io::Write;

verus! {

/// Relies on colored's `Colorize::yellow` and a `writeln` to standard
/// output: prints `text` in yellow with a trailing newline. Write failures
/// are ignored, as console output is best-effort.
#[verifier::external_body]
pub(crate) fn print_yellow(text: &str) {
    let _ = writeln!(std::io::stdout(), "{}", text.yellow());
}

/// Relies on colored's `Colorize::green` and a `writeln` to standard
/// output: prints `text` in green with a trailing newline, best-effort.
#[verifier::external_body]
pub(crate) fn print_green(text: &str) {
    let _ = writeln!(std::io::stdout(), "{}", text.green());
}

/// Relies on colored's `Colorize::blue` and a `writeln` to standard
/// output: prints `text` in blue with a trailing newline, best-effort.
#[verifier::external_body]
pub(crate) fn print_blue(text: &str) {
    let _ = writeln!(std::io::stdout(), "{}", text.blue());
}

/// Relies on colored's `Colorize::purple` and a `writeln` to standard
/// output: prints `text` in purple with a trailing newline, best-effort.
#[verifier::external_body]
pub(crate) fn print_purple(text: &str) {
    let _ = writeln!(std::io::stdout(), "{}", text.purple());
}

/// Relies on colored's `Colorize::red` and a `writeln` to standard
/// output: prints `text` in red with a trailing newline, best-effort.
#[verifier::external_body]
pub(crate) fn print_red(text: &str) {
    let _ = writeln!(std::io::stdout(), "{}", text.red());
}

/// Relies on colored's `Colorize::cyan` and a `writeln` to standard
/// output: prints `text` in cyan with a trailing newline, best-effort.
#[verifier::external_body]
pub(crate) fn print_cyan(text: &str) {
    let _ = writeln!(std::io::stdout(), "{}", text.cyan());
}

/// Prints `text` to standard output in the given color, best-effort.
pub(crate) fn print_colored(text: &str, color: crate::level::LogColor) {
    match color {
        crate::level::LogColor::Yellow => print_yellow(text),
        crate::level::LogColor::Green => print_green(text),
        crate::level::LogColor::Blue => print_blue(text),
        crate::level::LogColor::Purple => print_purple(text),
        crate::level::LogColor::Red => print_red(text),
        crate::level::LogColor::Cyan => print_cyan(text),
    }
}

} // verus!
