//! Character classification and small string helpers that the scanner and
//! the error renderings share.

use vstd::prelude::*;
use vstd::string::StrSliceExecFns;
use vstd::string::StringExecFns;

use crate::numbits::num_of_text;
use crate::numbits::parse_bits;

verus! {

/// A decimal digit, `'0'` through `'9'`.
pub open spec fn char_digit(c: char) -> bool {
    48 <= c as u32 <= 57
}

/// What `char::is_alphabetic` holds of a character: a property of the
/// character alone.
pub uninterp spec fn char_alpha(c: char) -> bool;

/// What `char::is_alphanumeric` holds of a character: a property of the
/// character alone.
pub uninterp spec fn char_alnum(c: char) -> bool;

pub fn is_digit(character: char) -> (r: bool)
    ensures
        r == char_digit(character),
{
    let u: u32 = character as u32;
    48 <= u && u <= 57
}

/// Relies on char::is_alphabetic, which tests the Unicode Alphabetic
/// property of the character.
#[verifier::external_body]
pub fn is_alpha(character: char) -> (r: bool)
    ensures
        r == char_alpha(character),
{
    character.is_alphabetic()
}

/// Relies on char::is_alphanumeric, which tests whether the character is
/// Unicode alphabetic or numeric.
#[verifier::external_body]
pub fn is_alphanumeric(character: char) -> (r: bool)
    ensures
        r == char_alnum(character),
{
    character.is_alphanumeric()
}

/// Reads a decimal numeral as a 64-bit IEEE 754 value, returned as its bit
/// pattern; None where the text denotes no number.
pub fn parse_string(string: &str) -> (r: Option<u64>)
    ensures
        r == num_of_text(string@),
{
    parse_bits(string)
}

/// Relies on String::push: appends the given character to the end.
#[verifier::external_body]
pub(crate) fn push_char(s: &mut String, c: char)
    ensures
        final(s)@ == old(s)@.push(c),
{
    s.push(c);
}

/// The characters of a string, in order, as a vector.
pub(crate) fn str_chars(s: &str) -> (v: Vec<char>)
    ensures
        v@ == s@,
{
    let n: usize = s.unicode_len();
    let mut v: Vec<char> = Vec::new();
    let mut i: usize = 0;
    while i < n
        invariant
            i <= n,
            n == s@.len(),
            v@ == s@.subrange(0, i as int),
        decreases n - i,
    {
        v.push(s.get_char(i));
        i = i + 1;
        assert(v@ =~= s@.subrange(0, i as int));
    }
    assert(v@ =~= s@);
    v
}

/// The text `v[start..end]`, as a string.
pub(crate) fn chars_string(v: &Vec<char>, start: usize, end: usize) -> (s: String)
    requires
        start <= end <= v@.len(),
    ensures
        s@ == v@.subrange(start as int, end as int),
{
    let mut s: String = String::new();
    let mut i: usize = start;
    while i < end
        invariant
            start <= i <= end <= v@.len(),
            s@ == v@.subrange(start as int, i as int),
        decreases end - i,
    {
        push_char(&mut s, v[i]);
        i = i + 1;
        assert(s@ =~= v@.subrange(start as int, i as int));
    }
    s
}

/// The decimal numeral of `n`: the digits of `n / 10` (where `n` has more
/// than one digit), then the last digit.
pub open spec fn dec_rep(n: nat) -> Seq<char>
    decreases n,
{
    if n < 10 {
        seq![dec_digit(n)]
    } else {
        dec_rep(n / 10).push(dec_digit(n % 10))
    }
}

/// The character of a single decimal digit.
pub open spec fn dec_digit(d: nat) -> char {
    (48 + (d % 10)) as u8 as char
}

/// The decimal numeral of `n`, as a string.
pub fn usize_string(n: usize) -> (s: String)
    ensures
        s@ == dec_rep(n as nat),
    decreases n,
{
    if n < 10 {
        let mut s: String = String::new();
        push_char(&mut s, (48 + (n as u8)) as char);
        assert(s@ =~= seq![dec_digit(n as nat)]);
        s
    } else {
        let mut s: String = usize_string(n / 10);
        push_char(&mut s, (48 + ((n % 10) as u8)) as char);
        assert(s@ =~= dec_rep((n / 10) as nat).push(dec_digit((n % 10) as nat)));
        s
    }
}

} // verus!
