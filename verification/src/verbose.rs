use vstd::prelude::*;
use vstd::string::*;
use crate::clock::now_datetime;
use crate::level::ColoredLine;
use crate::level::LevelTag;
use crate::level::LogColor;
use crate::paint::print_colored;
use crate::template::percent_free;

verus! {

/// The fixed layout of a verbose-logger line: `"[ <dt> - <tag> ] - <msg>"`
/// when the verbose flag is set, `"[ <tag> ] - <msg>"` when it is not.
pub open spec fn spec_verbose_line(
    verbose: bool,
    tag: Seq<char>,
    msg: Seq<char>,
    dt: Seq<char>,
) -> Seq<char> {
    if verbose {
        "[ "@ + dt + " - "@ + tag + " ] - "@ + msg
    } else {
        "[ "@ + tag + " ] - "@ + msg
    }
}

/// The fixed-layout console logger: no placeholder language, only a boolean
/// flag, captured at construction, that toggles a timestamp prefix.
pub struct VerboseLogger {
    verbose: bool,
}

impl VerboseLogger {
    /// The verbose flag this logger was constructed with.
    pub closed spec fn verbose_spec(&self) -> bool {
        self.verbose
    }

    /// A logger that prepends a timestamp to every line exactly when
    /// `verbose` is true.
    pub fn new(verbose: bool) -> (r: VerboseLogger)
        ensures
            r.verbose_spec() == verbose,
    {
        VerboseLogger { verbose }
    }

    /// Builds one fixed-layout line at the given level, prints it in the
    /// level's verbose-palette color, and returns it.
    fn emit(&self, message: &str, tag: LevelTag) -> (r: ColoredLine)
        ensures
            r.color == tag.spec_verbose_color(),
            exists|dt: Seq<char>|
                percent_free(dt) && r.text@ == spec_verbose_line(
                    self.verbose_spec(),
                    tag.spec_name(),
                    message@,
                    dt,
                ),
            !self.verbose_spec() ==> r.text@ == spec_verbose_line(
                false,
                tag.spec_name(),
                message@,
                Seq::empty(),
            ),
    {
        let mut line = String::from_str("[ ");
        let ghost mut dt_used: Seq<char> = Seq::empty();
        if self.verbose {
            let dt = now_datetime();
            line.append(dt.as_str());
            line.append(" - ");
            proof {
                dt_used = dt@;
            }
        }
        let name = tag.display_name();
        line.append(name.as_str());
        line.append(" ] - ");
        line.append(message);
        let color = tag.verbose_color();
        print_colored(line.as_str(), color);
        proof {
            assert(percent_free(dt_used));
            assert(line@ == spec_verbose_line(
                self.verbose_spec(),
                tag.spec_name(),
                message@,
                dt_used,
            ));
        }
        ColoredLine { text: line, color }
    }

    /// One warn line in the fixed layout, printed in yellow.
    pub fn warn(&self, message: &str) -> (r: ColoredLine)
        ensures
            r.color == LogColor::Yellow,
            exists|dt: Seq<char>|
                percent_free(dt) && r.text@ == spec_verbose_line(
                    self.verbose_spec(),
                    "Warn"@,
                    message@,
                    dt,
                ),
            !self.verbose_spec() ==> r.text@ == spec_verbose_line(
                false,
                "Warn"@,
                message@,
                Seq::empty(),
            ),
    {
        self.emit(message, LevelTag::Warn)
    }

    /// One log line in the fixed layout, printed in green.
    pub fn log(&self, message: &str) -> (r: ColoredLine)
        ensures
            r.color == LogColor::Green,
            exists|dt: Seq<char>|
                percent_free(dt) && r.text@ == spec_verbose_line(
                    self.verbose_spec(),
                    "Log"@,
                    message@,
                    dt,
                ),
            !self.verbose_spec() ==> r.text@ == spec_verbose_line(
                false,
                "Log"@,
                message@,
                Seq::empty(),
            ),
    {
        self.emit(message, LevelTag::Log)
    }

    /// One info line in the fixed layout, printed in cyan.
    pub fn info(&self, message: &str) -> (r: ColoredLine)
        ensures
            r.color == LogColor::Cyan,
            exists|dt: Seq<char>|
                percent_free(dt) && r.text@ == spec_verbose_line(
                    self.verbose_spec(),
                    "Info"@,
                    message@,
                    dt,
                ),
            !self.verbose_spec() ==> r.text@ == spec_verbose_line(
                false,
                "Info"@,
                message@,
                Seq::empty(),
            ),
    {
        self.emit(message, LevelTag::Info)
    }

    /// One debug line in the fixed layout, printed in purple.
    pub fn debug(&self, message: &str) -> (r: ColoredLine)
        ensures
            r.color == LogColor::Purple,
            exists|dt: Seq<char>|
                percent_free(dt) && r.text@ == spec_verbose_line(
                    self.verbose_spec(),
                    "Debug"@,
                    message@,
                    dt,
                ),
            !self.verbose_spec() ==> r.text@ == spec_verbose_line(
                false,
                "Debug"@,
                message@,
                Seq::empty(),
            ),
    {
        self.emit(message, LevelTag::Debug)
    }

    /// One error line in the fixed layout, printed in red.
    pub fn error(&self, message: &str) -> (r: ColoredLine)
        ensures
            r.color == LogColor::Red,
            exists|dt: Seq<char>|
                percent_free(dt) && r.text@ == spec_verbose_line(
                    self.verbose_spec(),
                    "Error"@,
                    message@,
                    dt,
                ),
            !self.verbose_spec() ==> r.text@ == spec_verbose_line(
                false,
                "Error"@,
                message@,
                Seq::empty(),
            ),
    {
        self.emit(message, LevelTag::Error)
    }
}

} // verus!
