//! Turning what the user typed at `tokscale warp login` into credentials.

use vstd::prelude::*;
use vstd::string::*;
use crate::desktop::{is_white_space, is_whitespace_char};
use crate::model::{WarpAuthKind, WarpCredentials};

verus! {

/// `s` without its leading white space.
pub open spec fn trim_start(s: Seq<char>) -> Seq<char>
    decreases s.len(),
{
    if s.len() > 0 && is_white_space(s[0]) {
        trim_start(s.drop_first())
    } else {
        s
    }
}

/// `s` without its trailing white space.
pub open spec fn trim_end(s: Seq<char>) -> Seq<char>
    decreases s.len(),
{
    if s.len() > 0 && is_white_space(s.last()) {
        trim_end(s.drop_last())
    } else {
        s
    }
}

/// `s` without leading and trailing white space, as `str::trim` gives it.
pub open spec fn trimmed(s: Seq<char>) -> Seq<char> {
    trim_end(trim_start(s))
}

/// A trimmed value neither starts nor ends with white space.
pub proof fn law_trimmed_has_no_outer_white_space(s: Seq<char>)
    ensures
        trimmed(s).len() > 0 ==> !is_white_space(trimmed(s)[0]) && !is_white_space(trimmed(s).last()),
{
    lemma_trim_start_clean(s);
    lemma_trim_end_keeps_start(trim_start(s));
}

proof fn lemma_trim_start_clean(s: Seq<char>)
    ensures
        trim_start(s).len() > 0 ==> !is_white_space(trim_start(s)[0]),
    decreases s.len(),
{
    if s.len() > 0 && is_white_space(s[0]) {
        lemma_trim_start_clean(s.drop_first());
    }
}

/// Trimming the end of a value that does not start with white space leaves a
/// value that neither starts nor ends with it.
proof fn lemma_trim_end_keeps_start(s: Seq<char>)
    requires
        s.len() > 0 ==> !is_white_space(s[0]),
    ensures
        trim_end(s).len() > 0 ==> !is_white_space(trim_end(s)[0]) && !is_white_space(trim_end(s).last()),
    decreases s.len(),
{
    if s.len() > 0 && is_white_space(s.last()) {
        if s.len() > 1 {
            assert(s.drop_last()[0] == s[0]);
        }
        lemma_trim_end_keeps_start(s.drop_last());
    }
}

/// Removes leading and trailing white space.
pub fn trim_whitespace(text: &str) -> (r: String)
    ensures
        r@ == trimmed(text@),
{
    let ghost s = text@;
    let n = text.unicode_len();
    let mut lo: usize = 0;
    assert(s.subrange(0, n as int) =~= s);
    while lo < n && is_whitespace_char(text.get_char(lo))
        invariant
            s == text@,
            n == s.len(),
            lo <= n,
            trim_start(s) == trim_start(s.subrange(lo as int, n as int)),
        decreases n - lo,
    {
        assert(s.subrange(lo as int, n as int).drop_first() =~= s.subrange(lo + 1, n as int));
        lo = lo + 1;
    }
    let ghost t = s.subrange(lo as int, n as int);
    assert(trim_start(s) == t);
    assert(t =~= s.subrange(lo as int, n as int));
    let mut hi: usize = n;
    while hi > lo && is_whitespace_char(text.get_char(hi - 1))
        invariant
            s == text@,
            n == s.len(),
            lo <= hi <= n,
            t == s.subrange(lo as int, n as int),
            trim_end(t) == trim_end(s.subrange(lo as int, hi as int)),
        decreases hi,
    {
        assert(s.subrange(lo as int, hi as int).drop_last() =~= s.subrange(lo as int, hi - 1));
        hi = hi - 1;
    }
    let kept = text.substring_char(lo, hi);
    String::from_str(kept)
}

/// The credentials stored after a login: the typed value trimmed, presented as
/// a cookie or as a bearer token. A blank value is refused.
pub fn login_credentials(input: &str, cookie: bool, created_at: String) -> (r: Result<WarpCredentials, String>)
    ensures
        match r {
            Ok(c) => {
                &&& trimmed(input@).len() > 0
                &&& c.auth_value@ == trimmed(input@)
                &&& c.auth_kind == (if cookie { WarpAuthKind::Cookie } else { WarpAuthKind::Bearer })
                &&& c.created_at == created_at
            },
            Err(text) => trimmed(input@).len() == 0 && text@ == "Warp credential must not be empty"@,
        },
{
    let auth_value = trim_whitespace(input);
    if auth_value.as_str().unicode_len() == 0 {
        return Err(String::from_str("Warp credential must not be empty"));
    }
    Ok(WarpCredentials {
        auth_value,
        auth_kind: if cookie { WarpAuthKind::Cookie } else { WarpAuthKind::Bearer },
        created_at,
    })
}

} // verus!
