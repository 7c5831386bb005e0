use vstd::prelude::*;
use vstd::string::*;

verus! {

/// True when `s` holds no `%` character, so that no placeholder, recognized
/// or not, can occur in it.
pub open spec fn percent_free(s: Seq<char>) -> bool {
    forall|k: int| 0 <= k < s.len() ==> s[k] != '%'
}

/// True when `pat` occurs in `s` starting at character index `i`.
pub open spec fn match_at(s: Seq<char>, pat: Seq<char>, i: int) -> bool {
    &&& 0 <= i
    &&& i + pat.len() <= s.len()
    &&& s.subrange(i, i + pat.len()) == pat
}

/// True when `pat` occurs somewhere in `s`.
pub open spec fn spec_contains(s: Seq<char>, pat: Seq<char>) -> bool {
    exists|i: int| match_at(s, pat, i)
}

/// Every occurrence of `pat` in `s` replaced by `to`, scanning left to
/// right without overlap, as `str::replace` does.
pub open spec fn spec_replace(s: Seq<char>, pat: Seq<char>, to: Seq<char>) -> Seq<char>
    decreases s.len(),
{
    if s.len() == 0 {
        s
    } else if pat.len() >= 1 && match_at(s, pat, 0) {
        to + spec_replace(s.skip(pat.len() as int), pat, to)
    } else {
        seq![s[0]] + spec_replace(s.skip(1), pat, to)
    }
}

/// The template `fmt` fully expanded: `%dt` to `dt`, then `%d` to `d`,
/// then `%m` to `msg`, then `%i` to `tag`, in exactly that order. A
/// placeholder is handled only when it occurs in the template as first given,
/// and then at every occurrence of the progressively rewritten string.
/// Unrecognized `%x` sequences pass through untouched.
pub open spec fn spec_render(
    fmt: Seq<char>,
    msg: Seq<char>,
    tag: Seq<char>,
    dt: Seq<char>,
    d: Seq<char>,
) -> Seq<char> {
    let s1 = if spec_contains(fmt, "%dt"@) {
        spec_replace(fmt, "%dt"@, dt)
    } else {
        fmt
    };
    let s2 = if spec_contains(fmt, "%d"@) {
        spec_replace(s1, "%d"@, d)
    } else {
        s1
    };
    let s3 = if spec_contains(fmt, "%m"@) {
        spec_replace(s2, "%m"@, msg)
    } else {
        s2
    };
    if spec_contains(fmt, "%i"@) {
        spec_replace(s3, "%i"@, tag)
    } else {
        s3
    }
}

/// Does `pat` occur in `s` at character index `i`?
fn matches_at(s: &str, pat: &str, i: usize) -> (r: bool)
    requires
        i <= s@.len(),
    ensures
        r == match_at(s@, pat@, i as int),
{
    let n = s.unicode_len();
    let p = pat.unicode_len();
    if n - i < p {
        return false;
    }
    let mut j: usize = 0;
    while j < p
        invariant
            j <= p,
            i + p <= n,
            n == s@.len(),
            p == pat@.len(),
            forall|k: int| 0 <= k < j ==> s@[i + k] == pat@[k],
        decreases p - j,
    {
        if s.get_char(i + j) != pat.get_char(j) {
            proof {
                if match_at(s@, pat@, i as int) {
                    assert(s@.subrange(i as int, i + pat@.len())[j as int] == s@[i + j]);
                }
            }
            return false;
        }
        j += 1;
    }
    proof {
        assert(s@.subrange(i as int, i + pat@.len()) =~= pat@);
    }
    true
}

/// Does `pat` occur anywhere in `s`?
fn contains_sub(s: &str, pat: &str) -> (r: bool)
    requires
        pat@.len() >= 1,
    ensures
        r == spec_contains(s@, pat@),
{
    let n = s.unicode_len();
    let p = pat.unicode_len();
    if p > n {
        proof {
            assert forall|i: int| !match_at(s@, pat@, i) by {}
        }
        return false;
    }
    let bound = n - p;
    let mut i: usize = 0;
    while i <= bound
        invariant
            i <= bound + 1,
            bound == n - p,
            1 <= p <= n,
            n == s@.len(),
            p == pat@.len(),
            forall|k: int| 0 <= k < i ==> !match_at(s@, pat@, k),
        decreases bound + 1 - i,
    {
        if matches_at(s, pat, i) {
            return true;
        }
        i += 1;
    }
    proof {
        assert forall|k: int| !match_at(s@, pat@, k) by {
            if match_at(s@, pat@, k) {
                assert(0 <= k <= bound);
            }
        }
    }
    false
}

/// Every occurrence of `pat` in `s` replaced by `to`, left to right.
fn replace_all(s: &str, pat: &str, to: &str) -> (r: String)
    requires
        pat@.len() >= 1,
    ensures
        r@ == spec_replace(s@, pat@, to@),
{
    let n = s.unicode_len();
    let p = pat.unicode_len();
    let mut out = String::new();
    let mut i: usize = 0;
    proof {
        assert(s@.skip(0) =~= s@);
        assert(out@ + spec_replace(s@.skip(0), pat@, to@) =~= spec_replace(s@, pat@, to@));
    }
    while i < n
        invariant
            i <= n,
            n == s@.len(),
            p == pat@.len(),
            p >= 1,
            spec_replace(s@, pat@, to@) == out@ + spec_replace(s@.skip(i as int), pat@, to@),
        decreases n - i,
    {
        let ghost pre = out@;
        if matches_at(s, pat, i) {
            proof {
                assert(s@.skip(i as int).subrange(0, p as int) =~= s@.subrange(
                    i as int,
                    i + p,
                ));
                assert(match_at(s@.skip(i as int), pat@, 0));
                assert(s@.skip(i as int).skip(p as int) =~= s@.skip(i + p));
            }
            out.append(to);
            proof {
                assert(pre + (to@ + spec_replace(s@.skip(i + p), pat@, to@)) =~= out@
                    + spec_replace(s@.skip(i + p), pat@, to@));
            }
            i += p;
        } else {
            proof {
                if match_at(s@.skip(i as int), pat@, 0) {
                    assert(s@.skip(i as int).subrange(0, p as int) =~= s@.subrange(
                        i as int,
                        i + p,
                    ));
                    assert(match_at(s@, pat@, i as int));
                }
                assert(s@.skip(i as int).len() > 0);
                assert(s@.skip(i as int)[0] == s@[i as int]);
                assert(s@.skip(i as int).skip(1) =~= s@.skip(i + 1));
            }
            let piece = s.substring_char(i, i + 1);
            proof {
                assert(piece@ =~= seq![s@[i as int]]);
            }
            out.append(piece);
            proof {
                assert(pre + (seq![s@[i as int]] + spec_replace(s@.skip(i + 1), pat@, to@))
                    =~= out@ + spec_replace(s@.skip(i + 1), pat@, to@));
            }
            i += 1;
        }
    }
    proof {
        assert(s@.skip(n as int) =~= Seq::<char>::empty());
        assert(out@ + spec_replace(s@.skip(n as int), pat@, to@) =~= out@);
    }
    out
}

/// The template `fmt` fully expanded with the given message, level name,
/// date-time text and date text, exactly as `spec_render` states.
pub fn render(fmt: &str, msg: &str, tag: &str, dt: &str, d: &str) -> (r: String)
    ensures
        r@ == spec_render(fmt@, msg@, tag@, dt@, d@),
{
    proof {
        reveal_strlit("%dt");
        reveal_strlit("%d");
        reveal_strlit("%m");
        reveal_strlit("%i");
    }
    let mut parsed = String::from_str(fmt);
    if contains_sub(fmt, "%dt") {
        parsed = replace_all(parsed.as_str(), "%dt", dt);
    }
    if contains_sub(fmt, "%d") {
        parsed = replace_all(parsed.as_str(), "%d", d);
    }
    if contains_sub(fmt, "%m") {
        parsed = replace_all(parsed.as_str(), "%m", msg);
    }
    if contains_sub(fmt, "%i") {
        parsed = replace_all(parsed.as_str(), "%i", tag);
    }
    parsed
}

} // verus!
