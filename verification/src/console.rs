use vstd::prelude::*;
use vstd::string::*;
use crate::clock::now_date;
use crate::clock::now_datetime;
use crate::level::ColoredLine;
use crate::level::LevelTag;
use crate::level::LogColor;
use crate::paint::print_colored;
use crate::template::percent_free;
use crate::template::render;
use crate::template::spec_contains;
use crate::template::spec_render;

verus! {

/// The template console logger: it holds a user-supplied format string and,
/// on every level call, expands the recognized placeholders, prints the line
/// to standard output in the level's fixed color, and returns the line.
pub struct ConsoleLogger {
    format: String,
}

impl ConsoleLogger {
    /// The format template this logger was constructed with.
    pub closed spec fn format_spec(&self) -> Seq<char> {
        self.format@
    }

    /// A logger over the given format template. Any string is accepted:
    /// absent or unrecognized placeholders are simply inert.
    pub fn new(format: &str) -> (r: ConsoleLogger)
        ensures
            r.format_spec() == format@,
    {
        ConsoleLogger { format: String::from_str(format) }
    }

    /// Renders one line at the given level from the clock's current values,
    /// prints it in the level's color, and returns it.
    fn emit(&self, message: &str, tag: LevelTag) -> (r: ColoredLine)
        ensures
            r.color == tag.spec_console_color(),
            exists|dt: Seq<char>, d: Seq<char>|
                percent_free(dt) && percent_free(d) && r.text@ == spec_render(
                    self.format_spec(),
                    message@,
                    tag.spec_name(),
                    dt,
                    d,
                ),
            !spec_contains(self.format_spec(), "%dt"@) && !spec_contains(
                self.format_spec(),
                "%d"@,
            ) ==> r.text@ == spec_render(
                self.format_spec(),
                message@,
                tag.spec_name(),
                Seq::empty(),
                Seq::empty(),
            ),
    {
        let dt = now_datetime();
        let d = now_date();
        let name = tag.display_name();
        let text = render(self.format.as_str(), message, name.as_str(), dt.as_str(), d.as_str());
        let color = tag.console_color();
        print_colored(text.as_str(), color);
        proof {
            assert(exists|dt2: Seq<char>, d2: Seq<char>|
                percent_free(dt2) && percent_free(d2) && text@ == spec_render(
                    self.format_spec(),
                    message@,
                    tag.spec_name(),
                    dt2,
                    d2,
                )) by {
                assert(percent_free(dt@) && percent_free(d@));
                assert(text@ == spec_render(
                    self.format_spec(),
                    message@,
                    tag.spec_name(),
                    dt@,
                    d@,
                ));
            }
        }
        ColoredLine { text, color }
    }

    /// Expands the template with `message` and the `Warn` tag, prints the
    /// line in yellow, and returns it.
    pub fn warn(&self, message: &str) -> (r: ColoredLine)
        ensures
            r.color == LogColor::Yellow,
            exists|dt: Seq<char>, d: Seq<char>|
                percent_free(dt) && percent_free(d) && r.text@ == spec_render(
                    self.format_spec(),
                    message@,
                    "Warn"@,
                    dt,
                    d,
                ),
            !spec_contains(self.format_spec(), "%dt"@) && !spec_contains(
                self.format_spec(),
                "%d"@,
            ) ==> r.text@ == spec_render(
                self.format_spec(),
                message@,
                "Warn"@,
                Seq::empty(),
                Seq::empty(),
            ),
    {
        self.emit(message, LevelTag::Warn)
    }

    /// Expands the template with `message` and the `Log` tag, prints the
    /// line in green, and returns it.
    pub fn log(&self, message: &str) -> (r: ColoredLine)
        ensures
            r.color == LogColor::Green,
            exists|dt: Seq<char>, d: Seq<char>|
                percent_free(dt) && percent_free(d) && r.text@ == spec_render(
                    self.format_spec(),
                    message@,
                    "Log"@,
                    dt,
                    d,
                ),
            !spec_contains(self.format_spec(), "%dt"@) && !spec_contains(
                self.format_spec(),
                "%d"@,
            ) ==> r.text@ == spec_render(
                self.format_spec(),
                message@,
                "Log"@,
                Seq::empty(),
                Seq::empty(),
            ),
    {
        self.emit(message, LevelTag::Log)
    }

    /// Expands the template with `message` and the `Info` tag, prints the
    /// line in blue, and returns it.
    pub fn info(&self, message: &str) -> (r: ColoredLine)
        ensures
            r.color == LogColor::Blue,
            exists|dt: Seq<char>, d: Seq<char>|
                percent_free(dt) && percent_free(d) && r.text@ == spec_render(
                    self.format_spec(),
                    message@,
                    "Info"@,
                    dt,
                    d,
                ),
            !spec_contains(self.format_spec(), "%dt"@) && !spec_contains(
                self.format_spec(),
                "%d"@,
            ) ==> r.text@ == spec_render(
                self.format_spec(),
                message@,
                "Info"@,
                Seq::empty(),
                Seq::empty(),
            ),
    {
        self.emit(message, LevelTag::Info)
    }

    /// Expands the template with `message` and the `Debug` tag, prints the
    /// line in purple, and returns it.
    pub fn debug(&self, message: &str) -> (r: ColoredLine)
        ensures
            r.color == LogColor::Purple,
            exists|dt: Seq<char>, d: Seq<char>|
                percent_free(dt) && percent_free(d) && r.text@ == spec_render(
                    self.format_spec(),
                    message@,
                    "Debug"@,
                    dt,
                    d,
                ),
            !spec_contains(self.format_spec(), "%dt"@) && !spec_contains(
                self.format_spec(),
                "%d"@,
            ) ==> r.text@ == spec_render(
                self.format_spec(),
                message@,
                "Debug"@,
                Seq::empty(),
                Seq::empty(),
            ),
    {
        self.emit(message, LevelTag::Debug)
    }

    /// Expands the template with `message` and the `Error` tag, prints the
    /// line in red, and returns it.
    pub fn error(&self, message: &str) -> (r: ColoredLine)
        ensures
            r.color == LogColor::Red,
            exists|dt: Seq<char>, d: Seq<char>|
                percent_free(dt) && percent_free(d) && r.text@ == spec_render(
                    self.format_spec(),
                    message@,
                    "Error"@,
                    dt,
                    d,
                ),
            !spec_contains(self.format_spec(), "%dt"@) && !spec_contains(
                self.format_spec(),
                "%d"@,
            ) ==> r.text@ == spec_render(
                self.format_spec(),
                message@,
                "Error"@,
                Seq::empty(),
                Seq::empty(),
            ),
    {
        self.emit(message, LevelTag::Error)
    }
}

} // verus!
