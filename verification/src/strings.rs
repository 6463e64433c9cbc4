//! Small verified helpers on `String` and `&str`: appending one character,
//! character-wise equality, and decimal rendering of list positions.

use crate::chars::{char_of_digit, digit_char};
use vstd::prelude::*;

verus! {

/// Relies on `String::push`: std documents that it appends the given
/// character to the end of the string.
pub assume_specification[ String::push ](s: &mut String, c: char)
    ensures
        final (s)@ == old(s)@.push(c),
;

/// Character-wise string equality, so that contracts can speak of the
/// views of both sides.
pub fn str_eq(a: &str, b: &str) -> (r: bool)
    ensures
        r == (a@ == b@),
{
    let a_len = a.unicode_len();
    let b_len = b.unicode_len();
    if a_len != b_len {
        assert(a@.len() != b@.len());
        return false;
    }
    let mut i: usize = 0;
    while i < a_len
        invariant
            0 <= i <= a_len,
            a_len == a@.len(),
            a_len == b@.len(),
            forall|j: int| 0 <= j < i ==> a@[j] == b@[j],
        decreases a_len - i,
    {
        if a.get_char(i) != b.get_char(i) {
            return false;
        }
        i = i + 1;
    }
    proof {
        assert(a@ =~= b@);
    }
    true
}

/// The decimal numeral of `n`, most significant digit first.
pub open spec fn dec_rep(n: int) -> Seq<char>
    recommends
        n >= 0,
    decreases n,
{
    if n < 10 {
        seq![digit_char(n)]
    } else {
        dec_rep(n / 10).push(digit_char(n % 10))
    }
}

/// Every character of a decimal numeral is a digit.
pub proof fn lemma_dec_rep_digits(n: int)
    requires
        n >= 0,
    ensures
        dec_rep(n).len() >= 1,
        forall|i: int|
            0 <= i < dec_rep(n).len() ==> crate::chars::is_digit(#[trigger] dec_rep(n)[i]),
    decreases n,
{
    if n >= 10 {
        lemma_dec_rep_digits(n / 10);
    }
}

/// Appends the decimal numeral of `n` to `out`.
pub fn push_dec(out: &mut String, n: usize)
    ensures
        final (out)@ == old(out)@ + dec_rep(n as int),
    decreases n,
{
    if n < 10 {
        out.push(char_of_digit(n as u32));
        assert(final (out)@ =~= old(out)@ + dec_rep(n as int));
    } else {
        push_dec(out, n / 10);
        out.push(char_of_digit((n % 10) as u32));
        assert(final (out)@ =~= old(out)@ + dec_rep(n as int));
    }
}

} // verus!
