//! Splitting a raw input line into a command token and argument tokens,
//! and recognizing confirmation tokens.

use crate::chars::{is_space, space_char};
use vstd::prelude::*;

verus! {

/// The views of a sequence of owned strings.
pub open spec fn string_views(v: Seq<String>) -> Seq<Seq<char>> {
    v.map_values(|s: String| s@)
}

/// The first whitespace position at or after `i`, or the end.
pub open spec fn tok_end(s: Seq<char>, i: int) -> int
    decreases s.len() - i,
    when 0 <= i <= s.len()
{
    if i >= s.len() {
        i
    } else if is_space(s[i]) {
        i
    } else {
        tok_end(s, i + 1)
    }
}

pub proof fn lemma_tok_end_bounds(s: Seq<char>, i: int)
    requires
        0 <= i <= s.len(),
    ensures
        i <= tok_end(s, i) <= s.len(),
        forall|k: int| i <= k < tok_end(s, i) ==> !is_space(#[trigger] s[k]),
        tok_end(s, i) < s.len() ==> is_space(s[tok_end(s, i)]),
        i < s.len() && !is_space(s[i]) ==> tok_end(s, i) > i,
    decreases s.len() - i,
{
    if i < s.len() && !is_space(s[i]) {
        lemma_tok_end_bounds(s, i + 1);
    }
}

/// The whitespace-delimited tokens of `s`, from position `i` on.
pub open spec fn tokens_from(s: Seq<char>, i: int) -> Seq<Seq<char>>
    decreases s.len() - i,
    when 0 <= i <= s.len()
    via tokens_from_decreases
{
    if i >= s.len() {
        Seq::<Seq<char>>::empty()
    } else if is_space(s[i]) {
        tokens_from(s, i + 1)
    } else {
        seq![s.subrange(i, tok_end(s, i))] + tokens_from(s, tok_end(s, i))
    }
}

#[via_fn]
proof fn tokens_from_decreases(s: Seq<char>, i: int) {
    if 0 <= i < s.len() {
        lemma_tok_end_bounds(s, i);
    }
}

/// The whitespace-delimited tokens of `s`.
pub open spec fn tokens(s: Seq<char>) -> Seq<Seq<char>> {
    tokens_from(s, 0)
}

/// The command token of a raw line: its first token, or empty.
pub open spec fn command_of(s: Seq<char>) -> Seq<char> {
    if tokens(s).len() == 0 {
        Seq::<char>::empty()
    } else {
        tokens(s)[0]
    }
}

/// The argument tokens of a raw line: everything after the first token.
pub open spec fn arguments_of(s: Seq<char>) -> Seq<Seq<char>> {
    if tokens(s).len() == 0 {
        Seq::<Seq<char>>::empty()
    } else {
        tokens(s).drop_first()
    }
}

pub struct ParseResult {
    pub command: String,
    pub arguments: Vec<String>,
}

/// A confirmation token: `y` or `yes`, in any letter case.
pub open spec fn is_confirm_token(s: Seq<char>) -> bool {
    (s.len() == 1 && (s[0] == 'y' || s[0] == 'Y')) || (s.len() == 3 && (s[0] == 'y' || s[0] == 'Y')
        && (s[1] == 'e' || s[1] == 'E') && (s[2] == 's' || s[2] == 'S'))
}

/// True exactly for the affirmative tokens `y` and `yes`, in any letter
/// case; every other input declines.
pub fn is_confirm(target: &str) -> (r: bool)
    ensures
        r == is_confirm_token(target@),
{
    let len = target.unicode_len();
    if len == 1 {
        let c = target.get_char(0);
        c == 'y' || c == 'Y'
    } else if len == 3 {
        let c0 = target.get_char(0);
        let c1 = target.get_char(1);
        let c2 = target.get_char(2);
        (c0 == 'y' || c0 == 'Y') && (c1 == 'e' || c1 == 'E') && (c2 == 's' || c2 == 'S')
    } else {
        false
    }
}

/// Advances to the end of the token starting at `i`, mirroring `tok_end`.
fn tok_end_exec(s: &str, i: usize, len: usize) -> (r: usize)
    requires
        i <= len,
        len == s@.len(),
    ensures
        r == tok_end(s@, i as int),
        i <= r <= len,
{
    let mut j = i;
    while j < len
        invariant
            i <= j <= len,
            len == s@.len(),
            tok_end(s@, i as int) == tok_end(s@, j as int),
        decreases len - j,
    {
        if space_char(s.get_char(j)) {
            return j;
        }
        j = j + 1;
    }
    j
}

/// Splits a raw line on whitespace: the first token is the command, the
/// rest are its arguments.  An empty or all-whitespace line yields an
/// empty command and no arguments.
pub fn parse(target: &str) -> (r: ParseResult)
    ensures
        r.command@ == command_of(target@),
        string_views(r.arguments@) == arguments_of(target@),
{
    let len = target.unicode_len();
    let mut toks: Vec<String> = Vec::new();
    let mut i: usize = 0;
    proof {
        assert(string_views(toks@) + tokens_from(target@, 0) =~= tokens(target@));
    }
    while i < len
        invariant
            0 <= i <= len,
            len == target@.len(),
            string_views(toks@) + tokens_from(target@, i as int) == tokens(target@),
        decreases len - i,
    {
        let c = target.get_char(i);
        if space_char(c) {
            i = i + 1;
        } else {
            let e = tok_end_exec(target, i, len);
            proof {
                lemma_tok_end_bounds(target@, i as int);
            }
            let tok = target.substring_char(i, e);
            let ghost prev = toks@;
            toks.push(tok.to_owned());
            proof {
                assert(string_views(toks@) =~= string_views(prev).push(tok@));
                assert(string_views(toks@) + tokens_from(target@, e as int) =~= tokens(
                    target@,
                ));
            }
            i = e;
        }
    }
    proof {
        assert(tokens_from(target@, len as int) =~= Seq::<Seq<char>>::empty());
        assert(string_views(toks@) =~= tokens(target@));
    }
    if toks.len() == 0 {
        let r = ParseResult { command: String::new(), arguments: toks };
        proof {
            assert(string_views(r.arguments@) =~= arguments_of(target@));
        }
        r
    } else {
        let command = toks.remove(0);
        proof {
            assert(command@ == command_of(target@));
            assert(string_views(toks@) =~= arguments_of(target@));
        }
        ParseResult { command, arguments: toks }
    }
}

} // verus!
