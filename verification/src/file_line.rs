use vstd::prelude::*;
use vstd::string::*;
use crate::clock::now_date;
use crate::clock::now_datetime;
use crate::level::LevelTag;
use crate::template::percent_free;
use crate::template::render;
use crate::template::spec_contains;
use crate::template::spec_render;

verus! {

/// One line for the file sink: the template expanded with the message, the
/// level's display name and the clock's current values, with a trailing
/// newline appended so the stored file stays line-delimited. The file
/// variant alone appends this newline; the console variant leaves it to the
/// underlying print.
pub fn render_file_line(format: &str, message: &str, tag: LevelTag) -> (r: String)
    ensures
        exists|dt: Seq<char>, d: Seq<char>|
            percent_free(dt) && percent_free(d) && r@ == spec_render(
                format@,
                message@,
                tag.spec_name(),
                dt,
                d,
            ) + "\n"@,
        !spec_contains(format@, "%dt"@) && !spec_contains(format@, "%d"@) ==> r@ == spec_render(
            format@,
            message@,
            tag.spec_name(),
            Seq::empty(),
            Seq::empty(),
        ) + "\n"@,
{
    let dt = now_datetime();
    let d = now_date();
    let name = tag.display_name();
    let mut line = render(format, message, name.as_str(), dt.as_str(), d.as_str());
    line.append("\n");
    proof {
        assert(exists|dt2: Seq<char>, d2: Seq<char>|
            percent_free(dt2) && percent_free(d2) && line@ == spec_render(
                format@,
                message@,
                tag.spec_name(),
                dt2,
                d2,
            ) + "\n"@) by {
            assert(percent_free(dt@) && percent_free(d@));
            assert(line@ == spec_render(format@, message@, tag.spec_name(), dt@, d@) + "\n"@);
        }
    }
    line
}

} // verus!
