//! Validation of index arguments: a usable index token is all digits and
//! does not start with a zero.

use crate::chars::{digit_char_value, digit_value, is_digit, is_nonzero_digit};
use vstd::prelude::*;

verus! {

/// A well-formed index token: nonempty, all digits, no leading zero.
pub open spec fn is_index_token(s: Seq<char>) -> bool {
    s.len() >= 1 && is_nonzero_digit(s[0]) && forall|i: int| 0 <= i < s.len() ==> is_digit(#[trigger] s[i])
}

/// The numeric value of a digit string, most significant digit first.
pub open spec fn token_num(s: Seq<char>) -> int
    decreases s.len(),
{
    if s.len() == 0 {
        0
    } else {
        token_num(s.drop_last()) * 10 + digit_value(s.last())
    }
}

pub proof fn lemma_token_num_nonneg(s: Seq<char>)
    requires
        forall|i: int| 0 <= i < s.len() ==> is_digit(#[trigger] s[i]),
    ensures
        token_num(s) >= 0,
    decreases s.len(),
{
    if s.len() > 0 {
        lemma_token_num_nonneg(s.drop_last());
    }
}

/// Extending a digit string to the right never decreases its value.
pub proof fn lemma_token_num_prefix(s: Seq<char>, i: int)
    requires
        forall|j: int| 0 <= j < s.len() ==> is_digit(#[trigger] s[j]),
        0 <= i <= s.len(),
    ensures
        token_num(s) >= token_num(s.subrange(0, i)),
    decreases s.len() - i,
{
    if i < s.len() {
        let p = s.subrange(0, i);
        let q = s.subrange(0, i + 1);
        assert(q.drop_last() =~= p);
        lemma_token_num_nonneg(p);
        lemma_token_num_prefix(s, i + 1);
    } else {
        assert(s.subrange(0, i) =~= s);
    }
}

/// A well-formed index token denotes a positive number.
pub proof fn lemma_index_token_positive(s: Seq<char>)
    requires
        is_index_token(s),
    ensures
        token_num(s) >= 1,
    decreases s.len(),
{
    assert(is_digit(s[s.len() - 1]));
    if s.len() == 1 {
        assert(s.drop_last() =~= Seq::<char>::empty());
        assert(token_num(Seq::<char>::empty()) == 0);
        assert(token_num(s) == digit_value(s[0]));
    } else {
        assert(is_digit(s.drop_last()[0]));
        lemma_index_token_positive(s.drop_last());
    }
}

/// Decides whether `s` is a well-formed index token.
pub fn check_index_token(s: &str) -> (r: bool)
    ensures
        r == is_index_token(s@),
{
    let len = s.unicode_len();
    if len == 0 {
        return false;
    }
    let first = s.get_char(0);
    if first == '0' || digit_char_value(first).is_none() {
        return false;
    }
    let mut i: usize = 1;
    while i < len
        invariant
            1 <= i <= len,
            len == s@.len(),
            is_nonzero_digit(s@[0]),
            forall|j: int| 0 <= j < i ==> is_digit(#[trigger] s@[j]),
        decreases len - i,
    {
        if digit_char_value(s.get_char(i)).is_none() {
            return false;
        }
        i = i + 1;
    }
    true
}

/// Parses a well-formed index token into a machine integer.
/// Returns `None` when the token is malformed or its value does not fit.
pub fn parse_index(s: &str) -> (r: Option<usize>)
    ensures
        r is Some <==> is_index_token(s@) && token_num(s@) <= usize::MAX,
        r is Some ==> r->Some_0 == token_num(s@),
{
    if !check_index_token(s) {
        return None;
    }
    let len = s.unicode_len();
    let mut n: usize = 0;
    let mut i: usize = 0;
    while i < len
        invariant
            0 <= i <= len,
            len == s@.len(),
            is_index_token(s@),
            n == token_num(s@.subrange(0, i as int)),
        decreases len - i,
    {
        let d = match digit_char_value(s.get_char(i)) {
            Some(d) => d,
            None => {
                proof {
                    assert(is_digit(s@[i as int]));
                }
                return None;
            },
        };
        proof {
            assert(s@.subrange(0, i + 1).drop_last() =~= s@.subrange(0, i as int));
        }
        if n > (usize::MAX - d as usize) / 10 {
            proof {
                lemma_token_num_prefix(s@, i + 1);
                assert(token_num(s@.subrange(0, s@.len() as int)) == token_num(s@)) by {
                    assert(s@.subrange(0, s@.len() as int) =~= s@);
                }
            }
            return None;
        }
        n = n * 10 + d as usize;
        i = i + 1;
    }
    proof {
        assert(s@.subrange(0, len as int) =~= s@);
    }
    Some(n)
}

/// True when every argument token is a well-formed index token.
pub fn are_strings_integers(strings: &Vec<String>) -> (r: bool)
    ensures
        r == forall|i: int| 0 <= i < strings@.len() ==> is_index_token(#[trigger] strings@[i]@),
{
    let mut i: usize = 0;
    while i < strings.len()
        invariant
            0 <= i <= strings@.len(),
            forall|j: int| 0 <= j < i ==> is_index_token(#[trigger] strings@[j]@),
        decreases strings@.len() - i,
    {
        if !check_index_token(strings[i].as_str()) {
            return false;
        }
        i = i + 1;
    }
    true
}

/// True when there is at least one argument and every one is a
/// well-formed index token.
pub fn is_arguments_integer(arguments: &Vec<String>) -> (r: bool)
    ensures
        r == (arguments@.len() > 0 && forall|i: int|
            0 <= i < arguments@.len() ==> is_index_token(#[trigger] arguments@[i]@)),
{
    if arguments.len() == 0 {
        return false;
    }
    are_strings_integers(arguments)
}

} // verus!
