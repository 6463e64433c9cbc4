//! Whitespace normalization: raw input lines are collapsed to single spaces
//! and trimmed before they are stored or compared.

use crate::chars::{is_space, space_char};
use vstd::prelude::*;

verus! {

/// The tail of the normalized form of `s`, starting at position `i`.
/// `has_out` records whether any character has been emitted before `i`;
/// `pending` records whether a separating space is owed before the next
/// non-space character.
pub open spec fn norm_rest(s: Seq<char>, i: int, has_out: bool, pending: bool) -> Seq<char>
    decreases s.len() - i,
    when 0 <= i <= s.len()
{
    if i >= s.len() {
        Seq::<char>::empty()
    } else if is_space(s[i]) {
        norm_rest(s, i + 1, has_out, pending || has_out)
    } else if pending {
        seq![' ', s[i]] + norm_rest(s, i + 1, true, false)
    } else {
        seq![s[i]] + norm_rest(s, i + 1, true, false)
    }
}

/// `s` with every run of whitespace collapsed to a single space and with
/// leading and trailing whitespace removed.
pub open spec fn norm(s: Seq<char>) -> Seq<char> {
    norm_rest(s, 0, false, false)
}

/// A string is normal when normalization leaves it unchanged.
pub open spec fn is_normal(s: Seq<char>) -> bool {
    norm(s) == s
}

/// Normalization of a suffix does not depend on what stands before it.
pub proof fn lemma_norm_rest_shift(a: Seq<char>, b: Seq<char>, j: int, has_out: bool, pending: bool)
    requires
        0 <= j <= b.len(),
    ensures
        norm_rest(a + b, a.len() + j, has_out, pending) == norm_rest(b, j, has_out, pending),
    decreases b.len() - j,
{
    if j < b.len() {
        assert((a + b)[a.len() + j] == b[j]);
        lemma_norm_rest_shift(a, b, j + 1, has_out, pending || has_out);
        lemma_norm_rest_shift(a, b, j + 1, true, false);
    }
}

/// A normal string prefixed with one space normalizes back to itself.
pub proof fn lemma_norm_space_prefix(t: Seq<char>)
    requires
        is_normal(t),
    ensures
        norm(seq![' '] + t) == t,
{
    let s = seq![' '] + t;
    assert(s[0] == ' ');
    assert(is_space(s[0]));
    assert(norm(s) == norm_rest(s, 1, false, false));
    lemma_norm_rest_shift(seq![' '], t, 0, false, false);
}

/// Collapses whitespace runs in `target` to single spaces and trims both ends.
pub fn trim_str(target: &str) -> (r: String)
    ensures
        r@ == norm(target@),
{
    let len = target.unicode_len();
    let mut out = String::new();
    let mut started = false;
    let mut pending = false;
    let mut i: usize = 0;
    while i < len
        invariant
            0 <= i <= len,
            len == target@.len(),
            started == (out@.len() > 0),
            pending ==> started,
            norm(target@) == out@ + norm_rest(target@, i as int, started, pending),
        decreases len - i,
    {
        let c = target.get_char(i);
        if space_char(c) {
            pending = pending || started;
        } else if pending {
            out.push(' ');
            out.push(c);
            pending = false;
            assert(norm(target@) =~= out@ + norm_rest(target@, i + 1, true, false));
        } else {
            out.push(c);
            started = true;
            assert(norm(target@) =~= out@ + norm_rest(target@, i + 1, true, false));
        }
        i = i + 1;
    }
    proof {
        assert(norm(target@) =~= out@);
    }
    out
}

} // verus!
