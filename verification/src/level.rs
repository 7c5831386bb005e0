use vstd::prelude::*;
use vstd::string::*;

verus! {

/// The fixed, closed set of log levels. Each level is bound to one display
/// name and, per logger variant, one fixed color.
#[derive(Clone, Copy, PartialEq, Eq, Structural, Debug)]
pub enum LevelTag {
    Warn,
    Log,
    Info,
    Debug,
    Error,
}

/// The colors a finished line can be painted with on the console.
#[derive(Clone, Copy, PartialEq, Eq, Structural, Debug)]
pub enum LogColor {
    Yellow,
    Green,
    Blue,
    Purple,
    Red,
    Cyan,
}

/// A finished console log line: the text before any terminal escape codes,
/// and the color it is painted with when written to standard output.
pub struct ColoredLine {
    pub text: String,
    pub color: LogColor,
}

impl LevelTag {
    /// The display name substituted for `%i` and written into fixed layouts.
    pub open spec fn spec_name(self) -> Seq<char> {
        match self {
            LevelTag::Warn => "Warn"@,
            LevelTag::Log => "Log"@,
            LevelTag::Info => "Info"@,
            LevelTag::Debug => "Debug"@,
            LevelTag::Error => "Error"@,
        }
    }

    /// The color the template console logger paints this level's lines with.
    pub open spec fn spec_console_color(self) -> LogColor {
        match self {
            LevelTag::Warn => LogColor::Yellow,
            LevelTag::Log => LogColor::Green,
            LevelTag::Info => LogColor::Blue,
            LevelTag::Debug => LogColor::Purple,
            LevelTag::Error => LogColor::Red,
        }
    }

    /// The color the verbose console logger paints this level's lines with.
    /// Its palette differs from the template logger's at `Info`.
    pub open spec fn spec_verbose_color(self) -> LogColor {
        match self {
            LevelTag::Warn => LogColor::Yellow,
            LevelTag::Log => LogColor::Green,
            LevelTag::Info => LogColor::Cyan,
            LevelTag::Debug => LogColor::Purple,
            LevelTag::Error => LogColor::Red,
        }
    }

    /// The display name as an owned string.
    pub fn display_name(self) -> (r: String)
        ensures
            r@ == self.spec_name(),
    {
        match self {
            LevelTag::Warn => String::from_str("Warn"),
            LevelTag::Log => String::from_str("Log"),
            LevelTag::Info => String::from_str("Info"),
            LevelTag::Debug => String::from_str("Debug"),
            LevelTag::Error => String::from_str("Error"),
        }
    }

    /// The template console logger's color for this level.
    pub fn console_color(self) -> (r: LogColor)
        ensures
            r == self.spec_console_color(),
    {
        match self {
            LevelTag::Warn => LogColor::Yellow,
            LevelTag::Log => LogColor::Green,
            LevelTag::Info => LogColor::Blue,
            LevelTag::Debug => LogColor::Purple,
            LevelTag::Error => LogColor::Red,
        }
    }

    /// The verbose console logger's color for this level.
    pub fn verbose_color(self) -> (r: LogColor)
        ensures
            r == self.spec_verbose_color(),
    {
        match self {
            LevelTag::Warn => LogColor::Yellow,
            LevelTag::Log => LogColor::Green,
            LevelTag::Info => LogColor::Cyan,
            LevelTag::Debug => LogColor::Purple,
            LevelTag::Error => LogColor::Red,
        }
    }
}

} // verus!
