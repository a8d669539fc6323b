//! Decisions of the desktop widget that do not touch a window: the default
//! pin state, which external surface a menu entry opens, and how a command
//! line typed into the widget is split into arguments.

use vstd::prelude::*;
use vstd::string::*;
use crate::text::{join, views, join_strings};

verus! {

/// The widget stays on top unless the user unpinned it.
pub fn default_pinned() -> (r: bool)
    ensures
        r,
{
    true
}

/// The surfaces the widget's menu can open.
#[derive(Debug, Clone, Copy, PartialEq, Eq)]
pub enum ExternalSurface {
    /// The standalone dashboard app (`"web"`).
    Frontend,
    /// The terminal UI (`"tui"`).
    Terminal,
}

/// Which surface a menu entry of kind `kind` opens.
pub fn external_surface(kind: &str) -> (r: Result<ExternalSurface, String>)
    ensures
        kind@ == "web"@ ==> r == Ok::<ExternalSurface, String>(ExternalSurface::Frontend),
        kind@ == "tui"@ ==> r == Ok::<ExternalSurface, String>(ExternalSurface::Terminal),
        kind@ != "web"@ && kind@ != "tui"@ ==> (r matches Err(text) && text@ == "unknown external kind: "@ + kind@),
{
    proof {
        reveal_strlit("web");
        reveal_strlit("tui");
        assert("web"@[0] != "tui"@[0]);
    }
    let k = String::from_str(kind);
    if k == String::from_str("web") {
        Ok(ExternalSurface::Frontend)
    } else if k == String::from_str("tui") {
        Ok(ExternalSurface::Terminal)
    } else {
        let mut text = String::from_str("unknown external kind: ");
        text.append(kind);
        Err(text)
    }
}

/// Unicode `White_Space`, which `char::is_whitespace` tests.
pub open spec fn is_white_space(c: char) -> bool {
    let u = c as u32;
    ||| 0x09 <= u <= 0x0d
    ||| u == 0x20
    ||| u == 0x85
    ||| u == 0xa0
    ||| u == 0x1680
    ||| 0x2000 <= u <= 0x200a
    ||| u == 0x2028
    ||| u == 0x2029
    ||| u == 0x202f
    ||| u == 0x205f
    ||| u == 0x3000
}

/// Tests whether `c` is white space.
pub fn is_whitespace_char(c: char) -> (r: bool)
    ensures
        r == is_white_space(c),
{
    let u = c as u32;
    (0x09 <= u && u <= 0x0d) || u == 0x20 || u == 0x85 || u == 0xa0 || u == 0x1680 || (0x2000 <= u
        && u <= 0x200a) || u == 0x2028 || u == 0x2029 || u == 0x202f || u == 0x205f || u == 0x3000
}

/// The white-space separated words of `s`, as `str::split_whitespace` yields
/// them: the maximal runs of characters that are not white space.
pub open spec fn words_of(s: Seq<char>) -> Seq<Seq<char>>
    decreases s.len(),
{
    if s.len() == 0 {
        Seq::empty()
    } else {
        let prev = words_of(s.drop_last());
        let c = s.last();
        if is_white_space(c) {
            prev
        } else if s.len() >= 2 && !is_white_space(s[s.len() - 2]) {
            prev.drop_last().push(prev.last().push(c))
        } else {
            prev.push(seq![c])
        }
    }
}

/// Every word of a command line is non-empty and holds no white space.
pub proof fn law_words_are_nonempty_runs_without_white_space(s: Seq<char>)
    ensures
        forall|k: int| 0 <= k < words_of(s).len() ==> {
            &&& (#[trigger] words_of(s)[k]).len() > 0
            &&& forall|j: int| 0 <= j < words_of(s)[k].len() ==> !is_white_space(words_of(s)[k][j])
        },
    decreases s.len(),
{
    if s.len() > 0 {
        let prev = words_of(s.drop_last());
        law_words_are_nonempty_runs_without_white_space(s.drop_last());
        let c = s.last();
        let w = words_of(s);
        if is_white_space(c) {
        } else if s.len() >= 2 && !is_white_space(s[s.len() - 2]) {
            lemma_words_nonempty_when_last_is_word(s.drop_last());
            let last = prev.last().push(c);
            assert(w == prev.drop_last().push(last));
            assert forall|k: int| 0 <= k < w.len() implies {
                &&& (#[trigger] w[k]).len() > 0
                &&& forall|j: int| 0 <= j < w[k].len() ==> !is_white_space(w[k][j])
            } by {
                if k < w.len() - 1 {
                    assert(w[k] == prev[k]);
                } else {
                    assert(w[k] == last);
                    assert forall|j: int| 0 <= j < last.len() implies !is_white_space(last[j]) by {
                        if j < last.len() - 1 {
                            assert(last[j] == prev.last()[j]);
                        }
                    }
                }
            }
        } else {
            assert(w == prev.push(seq![c]));
            assert forall|k: int| 0 <= k < w.len() implies {
                &&& (#[trigger] w[k]).len() > 0
                &&& forall|j: int| 0 <= j < w[k].len() ==> !is_white_space(w[k][j])
            } by {
                if k < w.len() - 1 {
                    assert(w[k] == prev[k]);
                } else {
                    assert(w[k] == seq![c]);
                }
            }
        }
    }
}

/// A text that ends in a non-white-space character has at least one word.
proof fn lemma_words_nonempty_when_last_is_word(s: Seq<char>)
    requires
        s.len() > 0,
        !is_white_space(s.last()),
    ensures
        words_of(s).len() > 0,
    decreases s.len(),
{
    if s.len() >= 2 && !is_white_space(s[s.len() - 2]) {
        assert(s.drop_last().last() == s[s.len() - 2]);
        lemma_words_nonempty_when_last_is_word(s.drop_last());
    }
}

/// Splits `text` into its white-space separated words.
pub fn split_whitespace(text: &str) -> (r: Vec<String>)
    ensures
        views(r@) == words_of(text@),
{
    let ghost s = text@;
    let n = text.unicode_len();
    let mut words: Vec<String> = Vec::new();
    let mut start: Option<usize> = None;
    let mut i: usize = 0;
    while i < n
        invariant
            s == text@,
            n == s.len(),
            i <= n,
            match start {
                Some(st) => {
                    &&& st < i
                    &&& views(words@).push(s.subrange(st as int, i as int)) == words_of(s.take(i as int))
                    &&& !is_white_space(s[i - 1])
                    &&& (st == 0 || is_white_space(s[st - 1]))
                },
                None => {
                    &&& views(words@) == words_of(s.take(i as int))
                    &&& (i == 0 || is_white_space(s[i - 1]))
                },
            },
        decreases n - i,
    {
        let c = text.get_char(i);
        let ghost before = views(words@);
        assert(s.take(i + 1).drop_last() =~= s.take(i as int));
        assert(s.take(i + 1).last() == c);
        if is_whitespace_char(c) {
            match start {
                Some(st) => {
                    let word = text.substring_char(st, i);
                    words.push(String::from_str(word));
                    assert(views(words@) =~= before.push(s.subrange(st as int, i as int)));
                },
                None => {},
            }
            start = None;
        } else {
            match start {
                Some(st) => {
                    let ghost prev = before.push(s.subrange(st as int, i as int));
                    assert(prev.drop_last() =~= before);
                    assert(prev.last().push(c) =~= s.subrange(st as int, i + 1));
                    assert(i >= 1);
                    assert(s.take(i + 1)[i - 1] == s[i - 1]);
                },
                None => {
                    if i > 0 {
                        assert(s.take(i + 1)[i - 1] == s[i - 1]);
                    }
                    assert(s.subrange(i as int, i + 1) =~= seq![c]);
                    start = Some(i);
                },
            }
        }
        i = i + 1;
    }
    assert(s.take(n as int) =~= s);
    match start {
        Some(st) => {
            let ghost before = views(words@);
            let word = text.substring_char(st, n);
            words.push(String::from_str(word));
            assert(views(words@) =~= before.push(s.subrange(st as int, n as int)));
        },
        None => {},
    }
    words
}

/// The arguments of a command line typed into the widget; an empty (or
/// all-blank) command is refused.
pub fn cli_command_args(command: &str) -> (r: Result<Vec<String>, String>)
    ensures
        match r {
            Ok(args) => views(args@) == words_of(command@) && args@.len() > 0,
            Err(text) => words_of(command@).len() == 0 && text@ == "empty command"@,
        },
{
    let args = split_whitespace(command);
    if args.len() == 0 {
        Err(String::from_str("empty command"))
    } else {
        Ok(args)
    }
}

/// The command line that starts `bin` with `args` in a terminal: the binary,
/// then the arguments separated by single spaces.
pub fn terminal_command_line(bin: &str, args: &Vec<String>) -> (r: String)
    ensures
        r@ == (if args@.len() == 0 { bin@ } else { bin@ + " "@ + join(views(args@), " "@) }),
{
    let mut line = String::from_str(bin);
    if args.len() > 0 {
        line.append(" ");
        let rest = join_strings(args, " ");
        line.append(rest.as_str());
    }
    line
}

} // verus!
