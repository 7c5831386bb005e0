use vstd::prelude::*;
use crate::level::LevelTag;
use crate::level::LogColor;
use crate::template::match_at;
use crate::template::percent_free;
use crate::template::spec_contains;
use crate::template::spec_render;
use crate::template::spec_replace;

verus! {

/// A pattern that starts with `%` cannot occur in a string that holds no
/// `%` character at all.
pub proof fn lemma_no_percent_no_match(s: Seq<char>, pat: Seq<char>)
    requires
        pat.len() >= 1,
        pat[0] == '%',
        percent_free(s),
    ensures
        !spec_contains(s, pat),
        forall|i: int| !match_at(s, pat, i),
{
    assert forall|i: int| !match_at(s, pat, i) by {
        if match_at(s, pat, i) {
            assert(s.subrange(i, i + pat.len())[0] == s[i]);
        }
    }
}

/// Replacement passes over a leading piece in which the pattern never
/// begins: the piece is copied verbatim and the scan goes on behind it.
pub proof fn lemma_replace_concat(a: Seq<char>, b: Seq<char>, pat: Seq<char>, to: Seq<char>)
    requires
        pat.len() >= 1,
        forall|i: int| 0 <= i < a.len() ==> !match_at(a + b, pat, i),
    ensures
        spec_replace(a + b, pat, to) == a + spec_replace(b, pat, to),
    decreases a.len(),
{
    let s = a + b;
    if a.len() == 0 {
        assert(s =~= b);
        assert(a + spec_replace(b, pat, to) =~= spec_replace(b, pat, to));
    } else {
        assert(!match_at(s, pat, 0));
        assert(s.len() > 0);
        assert(s.skip(1) =~= a.skip(1) + b);
        assert forall|i: int| 0 <= i < a.skip(1).len() implies !match_at(
            a.skip(1) + b,
            pat,
            i,
        ) by {
            if match_at(a.skip(1) + b, pat, i) {
                assert((a.skip(1) + b).subrange(i, i + pat.len()) =~= s.subrange(
                    i + 1,
                    i + 1 + pat.len(),
                ));
                assert(match_at(s, pat, i + 1));
            }
        }
        lemma_replace_concat(a.skip(1), b, pat, to);
        assert(s[0] == a[0]);
        assert(seq![s[0]] + (a.skip(1) + spec_replace(b, pat, to)) =~= a + spec_replace(
            b,
            pat,
            to,
        ));
    }
}

/// A pattern that does not occur is not replaced: the string comes back
/// unchanged, whatever the replacement text.
pub proof fn lemma_replace_absent(s: Seq<char>, pat: Seq<char>, to: Seq<char>)
    requires
        pat.len() >= 1,
        !spec_contains(s, pat),
    ensures
        spec_replace(s, pat, to) == s,
{
    let e = Seq::<char>::empty();
    assert(s + e =~= s);
    lemma_replace_concat(s, e, pat, to);
    assert(spec_replace(e, pat, to) == e);
    assert(s + e == s);
}

/// Splitting a string right before a leading occurrence of the pattern:
/// when the pattern starts with `%`, carries no further `%`, and does not
/// occur in the piece `a` before the split, the scan copies `a`, replaces
/// that occurrence, and goes on behind it.
pub proof fn lemma_replace_at_boundary(
    a: Seq<char>,
    rest: Seq<char>,
    pat: Seq<char>,
    to: Seq<char>,
)
    requires
        pat.len() >= 1,
        pat[0] == '%',
        forall|j: int| 1 <= j < pat.len() ==> pat[j] != '%',
        !spec_contains(a, pat),
        rest.len() >= pat.len(),
        rest.subrange(0, pat.len() as int) == pat,
    ensures
        spec_replace(a + rest, pat, to) == a + to + spec_replace(
            rest.skip(pat.len() as int),
            pat,
            to,
        ),
{
    let s = a + rest;
    let len = pat.len() as int;
    assert forall|i: int| 0 <= i < a.len() implies !match_at(s, pat, i) by {
        if match_at(s, pat, i) {
            if i + len <= a.len() {
                assert(s.subrange(i, i + len) =~= a.subrange(i, i + len));
                assert(match_at(a, pat, i));
            } else {
                let j = a.len() - i;
                assert(s.subrange(i, i + len)[j] == s[a.len() as int]);
                assert(rest.subrange(0, len)[0] == rest[0]);
                assert(s[a.len() as int] == rest[0]);
            }
        }
    }
    lemma_replace_concat(a, rest, pat, to);
    assert(match_at(rest, pat, 0));
    assert(rest.len() > 0);
    assert(a + (to + spec_replace(rest.skip(len), pat, to)) =~= a + to + spec_replace(
        rest.skip(len),
        pat,
        to,
    ));
}

/// LAW: a template that holds `%m` exactly once, written `a + "%m" + b`,
/// expands under `%m`-substitution to `a + msg + b`: the message lands
/// verbatim at that one spot and nothing around it moves.
pub proof fn lemma_message_substituted_once(a: Seq<char>, b: Seq<char>, msg: Seq<char>)
    requires
        !spec_contains(a, "%m"@),
        !spec_contains(b, "%m"@),
    ensures
        spec_replace(a + "%m"@ + b, "%m"@, msg) == a + msg + b,
{
    reveal_strlit("%m");
    let pat = "%m"@;
    let rest = pat + b;
    assert(a + pat + b =~= a + rest);
    assert(rest.subrange(0, 2) =~= pat);
    lemma_replace_at_boundary(a, rest, pat, msg);
    assert(rest.skip(2) =~= b);
    lemma_replace_absent(b, pat, msg);
    assert(a + msg + spec_replace(b, pat, msg) =~= a + msg + b);
}

/// LAW: when the template holds `%m` exactly once and no other recognized
/// placeholder, a full render is exactly `a + msg + b`, whatever the clock
/// said and whatever the level tag is.
pub proof fn lemma_render_single_message(
    a: Seq<char>,
    b: Seq<char>,
    msg: Seq<char>,
    tag: Seq<char>,
    dt: Seq<char>,
    d: Seq<char>,
)
    requires
        !spec_contains(a, "%m"@),
        !spec_contains(b, "%m"@),
        !spec_contains(a + "%m"@ + b, "%dt"@),
        !spec_contains(a + "%m"@ + b, "%d"@),
        !spec_contains(a + "%m"@ + b, "%i"@),
    ensures
        spec_render(a + "%m"@ + b, msg, tag, dt, d) == a + msg + b,
{
    reveal_strlit("%m");
    let fmt = a + "%m"@ + b;
    assert(fmt.subrange(a.len() as int, a.len() as int + 2) =~= "%m"@);
    assert(match_at(fmt, "%m"@, a.len() as int));
    assert(spec_contains(fmt, "%m"@));
    lemma_message_substituted_once(a, b, msg);
}

/// LAW: every occurrence is substituted identically. A template written
/// `a + pat + b + pat + c`, with `a`, `b`, `c` free of the pattern and the
/// pattern `%`-headed, rewrites to `a + to + b + to + c`.
pub proof fn lemma_replace_both_occurrences(
    a: Seq<char>,
    b: Seq<char>,
    c: Seq<char>,
    pat: Seq<char>,
    to: Seq<char>,
)
    requires
        pat.len() >= 1,
        pat[0] == '%',
        forall|j: int| 1 <= j < pat.len() ==> pat[j] != '%',
        !spec_contains(a, pat),
        !spec_contains(b, pat),
        !spec_contains(c, pat),
    ensures
        spec_replace(a + pat + b + pat + c, pat, to) == a + to + b + to + c,
{
    let len = pat.len() as int;
    let tail = b + pat + c;
    let rest1 = pat + tail;
    assert(a + pat + b + pat + c =~= a + rest1);
    assert(rest1.subrange(0, len) =~= pat);
    lemma_replace_at_boundary(a, rest1, pat, to);
    assert(rest1.skip(len) =~= tail);
    let rest2 = pat + c;
    assert(tail =~= b + rest2);
    assert(rest2.subrange(0, len) =~= pat);
    lemma_replace_at_boundary(b, rest2, pat, to);
    assert(rest2.skip(len) =~= c);
    lemma_replace_absent(c, pat, to);
    assert(spec_replace(tail, pat, to) == b + to + c);
    assert(a + to + (b + to + c) =~= a + to + b + to + c);
}

/// LAW: expanding `%dt` leaves no `%d`-shaped fragment behind. With the
/// text around the one `%dt` and the timestamp free of `%`, the expansion
/// is exactly `a + dt + b`, and `%d` does not occur in it.
pub proof fn lemma_datetime_leaves_no_date_token(a: Seq<char>, b: Seq<char>, dt: Seq<char>)
    requires
        percent_free(a),
        percent_free(b),
        percent_free(dt),
    ensures
        spec_replace(a + "%dt"@ + b, "%dt"@, dt) == a + dt + b,
        percent_free(a + dt + b),
        !spec_contains(a + dt + b, "%d"@),
{
    reveal_strlit("%dt");
    reveal_strlit("%d");
    let pat = "%dt"@;
    lemma_no_percent_no_match(a, pat);
    lemma_no_percent_no_match(b, pat);
    let rest = pat + b;
    assert(a + pat + b =~= a + rest);
    assert(rest.subrange(0, 3) =~= pat);
    lemma_replace_at_boundary(a, rest, pat, dt);
    assert(rest.skip(3) =~= b);
    lemma_replace_absent(b, pat, dt);
    assert(a + dt + spec_replace(b, pat, dt) =~= a + dt + b);
    let out = a + dt + b;
    assert forall|k: int| 0 <= k < out.len() implies out[k] != '%' by {
        if k < a.len() {
        } else if k < a.len() + dt.len() {
            assert(out[k] == dt[k - a.len()]);
        } else {
            assert(out[k] == b[k - a.len() - dt.len()]);
        }
    }
    lemma_no_percent_no_match(out, "%d"@);
}

/// A two-character pattern `%x` whose second character is not `d` cannot
/// occur in `a + "%dt" + b` when `a` and `b` are `%`-free: the only `%` in
/// that string is the one of `%dt`, and `d` follows it.
pub proof fn lemma_token_absent_around_datetime(a: Seq<char>, b: Seq<char>, pat: Seq<char>)
    requires
        percent_free(a),
        percent_free(b),
        pat.len() == 2,
        pat[0] == '%',
        pat[1] != 'd',
    ensures
        !spec_contains(a + "%dt"@ + b, pat),
{
    reveal_strlit("%dt");
    let fmt = a + "%dt"@ + b;
    let boundary = a.len() as int;
    assert forall|i: int| !match_at(fmt, pat, i) by {
        if match_at(fmt, pat, i) {
            assert(fmt.subrange(i, i + 2)[0] == fmt[i]);
            assert(fmt[i] == '%');
            if i < boundary {
                assert(fmt[i] == a[i]);
            } else if i == boundary {
                assert(fmt.subrange(i, i + 2)[1] == fmt[i + 1]);
                assert(fmt[i + 1] == "%dt"@[1]);
            } else if i <= boundary + 2 {
                assert(fmt[i] == "%dt"@[i - boundary]);
            } else {
                assert(fmt[i] == b[i - boundary - 3]);
            }
        }
    }
}

/// LAW: a full render of a template that holds `%dt` and nothing else
/// recognized is exactly `a + dt + b`, and the `%d` pass that follows finds
/// nothing to consume: no residual `%d`-shaped fragment is left behind.
pub proof fn lemma_render_datetime_only(
    a: Seq<char>,
    b: Seq<char>,
    msg: Seq<char>,
    tag: Seq<char>,
    dt: Seq<char>,
    d: Seq<char>,
)
    requires
        percent_free(a),
        percent_free(b),
        percent_free(dt),
    ensures
        spec_render(a + "%dt"@ + b, msg, tag, dt, d) == a + dt + b,
        !spec_contains(a + dt + b, "%d"@),
{
    reveal_strlit("%dt");
    reveal_strlit("%d");
    reveal_strlit("%m");
    reveal_strlit("%i");
    let fmt = a + "%dt"@ + b;
    let boundary = a.len() as int;
    assert(fmt.subrange(boundary, boundary + 3) =~= "%dt"@);
    assert(match_at(fmt, "%dt"@, boundary));
    assert(spec_contains(fmt, "%dt"@));
    assert(fmt.subrange(boundary, boundary + 2) =~= "%d"@);
    assert(match_at(fmt, "%d"@, boundary));
    assert(spec_contains(fmt, "%d"@));
    lemma_datetime_leaves_no_date_token(a, b, dt);
    lemma_replace_absent(a + dt + b, "%d"@, d);
    lemma_token_absent_around_datetime(a, b, "%m"@);
    lemma_token_absent_around_datetime(a, b, "%i"@);
}

/// LAW: a template without `%dt` is wholly unaffected by `%dt` handling:
/// the render does not depend on the date-time argument at all.
pub proof fn lemma_render_ignores_datetime(
    fmt: Seq<char>,
    msg: Seq<char>,
    tag: Seq<char>,
    dt1: Seq<char>,
    dt2: Seq<char>,
    d: Seq<char>,
)
    requires
        !spec_contains(fmt, "%dt"@),
    ensures
        spec_render(fmt, msg, tag, dt1, d) == spec_render(fmt, msg, tag, dt2, d),
{
}

/// LAW: a template in which no recognized placeholder occurs renders
/// unchanged, whatever the message, tag and clock values.
pub proof fn lemma_render_no_placeholders(
    fmt: Seq<char>,
    msg: Seq<char>,
    tag: Seq<char>,
    dt: Seq<char>,
    d: Seq<char>,
)
    requires
        !spec_contains(fmt, "%dt"@),
        !spec_contains(fmt, "%d"@),
        !spec_contains(fmt, "%m"@),
        !spec_contains(fmt, "%i"@),
    ensures
        spec_render(fmt, msg, tag, dt, d) == fmt,
{
}

/// LAW: the level table is fixed. Each tag carries exactly its documented
/// display name, its template-logger color and its verbose-logger color,
/// independent of any template or message.
pub proof fn lemma_level_table()
    ensures
        LevelTag::Warn.spec_name() == "Warn"@,
        LevelTag::Log.spec_name() == "Log"@,
        LevelTag::Info.spec_name() == "Info"@,
        LevelTag::Debug.spec_name() == "Debug"@,
        LevelTag::Error.spec_name() == "Error"@,
        LevelTag::Warn.spec_console_color() == LogColor::Yellow,
        LevelTag::Log.spec_console_color() == LogColor::Green,
        LevelTag::Info.spec_console_color() == LogColor::Blue,
        LevelTag::Debug.spec_console_color() == LogColor::Purple,
        LevelTag::Error.spec_console_color() == LogColor::Red,
        LevelTag::Warn.spec_verbose_color() == LogColor::Yellow,
        LevelTag::Log.spec_verbose_color() == LogColor::Green,
        LevelTag::Info.spec_verbose_color() == LogColor::Cyan,
        LevelTag::Debug.spec_verbose_color() == LogColor::Purple,
        LevelTag::Error.spec_verbose_color() == LogColor::Red,
{
}

} // verus!
