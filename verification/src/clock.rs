use vstd::prelude::*;
use crate::template::percent_free;

verus! {

/// Relies on chrono's `Local::now` and `DateTime::format` with
/// `"%Y-%m-%d %H:%M:%S"`: the current local date and time as
/// `YYYY-MM-DD HH:MM:SS`. The format writes only digits, `-`, `:` and a
/// space, so the result holds no `%` character; beyond that the value
/// depends on the clock at the moment of the call, and nothing more is
/// promised of it.
#[verifier::external_body]
pub(crate) fn now_datetime() -> (r: String)
    ensures
        percent_free(r@),
{
    chrono::Local::now().format("%Y-%m-%d %H:%M:%S").to_string()
}

/// Relies on chrono's `Local::now` and `DateTime::format` with `"%Y-%m-%d"`:
/// the current local date as `YYYY-MM-DD`. The format writes only digits and
/// `-`, so the result holds no `%` character; beyond that the value depends
/// on the clock at the moment of the call, and nothing more is promised.
#[verifier::external_body]
pub(crate) fn now_date() -> (r: String)
    ensures
        percent_free(r@),
{
    chrono::Local::now().format("%Y-%m-%d").to_string()
}

} // verus!
