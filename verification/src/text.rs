//! Character and string helpers: the fixed "leet" substitution table, the
//! last-character repetition used for username name variants, probabilistic
//! per-character substitution, and decimal rendering of numbers.

use vstd::prelude::*;
use vstd::string::StrSliceExecFns;
use vstd::string::StringExecFns;
use crate::randomness::rng_ratio;

verus! {

/// The fixed, case-sensitive substitution table: the look-alike replacement
/// of a character, or the character itself where the table assigns none.
pub open spec fn leet_spec(c: char) -> char {
    if c == 'a' {
        '4'
    } else if c == 'b' {
        '8'
    } else if c == 'c' {
        'C'
    } else if c == 'd' {
        'd'
    } else if c == 'e' {
        '3'
    } else if c == 'f' {
        'F'
    } else if c == 'g' {
        '6'
    } else if c == 'h' {
        'h'
    } else if c == 'j' {
        'J'
    } else if c == 'k' {
        'k'
    } else if c == 'l' {
        '1'
    } else if c == 'm' {
        'm'
    } else if c == 'n' {
        'n'
    } else if c == 'o' {
        '0'
    } else if c == 'p' {
        'p'
    } else if c == 'q' {
        'Q'
    } else if c == 'r' {
        'r'
    } else if c == 's' {
        '5'
    } else if c == 't' {
        '7'
    } else if c == 'u' {
        'u'
    } else if c == 'v' {
        'v'
    } else if c == 'w' {
        'w'
    } else if c == 'x' {
        'x'
    } else if c == 'y' {
        'Y'
    } else if c == 'z' {
        '2'
    } else {
        c
    }
}

/// The look-alike substitute of a character per the fixed table; characters
/// without a table entry pass through unchanged.
pub fn leetify_char(c: char) -> (r: char)
    ensures
        r == leet_spec(c),
{
    match c {
        'a' => '4',
        'b' => '8',
        'c' => 'C',
        'd' => 'd',
        'e' => '3',
        'f' => 'F',
        'g' => '6',
        'h' => 'h',
        'j' => 'J',
        'k' => 'k',
        'l' => '1',
        'm' => 'm',
        'n' => 'n',
        'o' => '0',
        'p' => 'p',
        'q' => 'Q',
        'r' => 'r',
        's' => '5',
        't' => '7',
        'u' => 'u',
        'v' => 'v',
        'w' => 'w',
        'x' => 'x',
        'y' => 'Y',
        'z' => '2',
        _ => c,
    }
}

/// Relies on std's `String::push`: appends one character at the end.
#[verifier::external_body]
pub(crate) fn push_char(s: &mut String, c: char)
    ensures
        final(s)@ == old(s)@ + seq![c],
{
    s.push(c)
}

/// A string with its last character appended `times` more times; an empty
/// string stays empty.
pub open spec fn repeat_last_spec(s: Seq<char>, times: int) -> Seq<char>
    recommends
        times >= 0,
{
    if s.len() == 0 {
        s
    } else {
        s + Seq::new(times as nat, |i: int| s.last())
    }
}

/// Repeats the last character of `s` a further `times` times at the end.
pub fn repeat_last_char(s: &str, times: usize) -> (r: String)
    ensures
        r@ == repeat_last_spec(s@, times as int),
{
    let mut result = s.to_owned();
    let n: usize = s.unicode_len();
    if n > 0 {
        let last_char = s.get_char(n - 1);
        let mut i: usize = 0;
        while i < times
            invariant
                n > 0,
                n == s@.len(),
                last_char == s@.last(),
                i <= times,
                result@ == s@ + Seq::new(i as nat, |k: int| s@.last()),
            decreases times - i,
        {
            push_char(&mut result, last_char);
            proof {
                assert(result@ =~= s@ + Seq::new((i + 1) as nat, |k: int| s@.last()));
            }
            i = i + 1;
        }
        proof {
            assert(result@ =~= repeat_last_spec(s@, times as int));
        }
        result
    } else {
        result
    }
}

/// A string whose first character is kept and whose every later character is
/// either kept or replaced by its table substitute.
pub open spec fn is_leet_of(r: Seq<char>, base: Seq<char>) -> bool {
    &&& r.len() == base.len()
    &&& base.len() > 0 ==> r[0] == base[0]
    &&& forall|i: int|
        1 <= i < base.len() ==> r[i] == base[i] || r[i] == #[trigger] leet_spec(base[i])
}

/// Rewrites a string character by character: the first character is always
/// kept; each later character is independently replaced by its table
/// substitute with probability one in four, and kept otherwise.
pub fn leetify_string(rng: &mut rand::rngs::ThreadRng, input: &str) -> (r: String)
    ensures
        is_leet_of(r@, input@),
{
    let mut result = String::new();
    let n: usize = input.unicode_len();
    let mut i: usize = 0;
    while i < n
        invariant
            n == input@.len(),
            i <= n,
            result@.len() == i,
            i > 0 ==> result@[0] == input@[0],
            forall|k: int|
                1 <= k < i ==> result@[k] == input@[k] || result@[k] == #[trigger] leet_spec(
                    input@[k],
                ),
        decreases n - i,
    {
        let c = input.get_char(i);
        if i == 0 || !rng_ratio(rng, 1, 4) {
            push_char(&mut result, c);
        } else {
            push_char(&mut result, leetify_char(c));
        }
        i = i + 1;
    }
    result
}

/// The character for one decimal digit.
pub open spec fn digit_char_spec(d: int) -> char {
    if d == 0 {
        '0'
    } else if d == 1 {
        '1'
    } else if d == 2 {
        '2'
    } else if d == 3 {
        '3'
    } else if d == 4 {
        '4'
    } else if d == 5 {
        '5'
    } else if d == 6 {
        '6'
    } else if d == 7 {
        '7'
    } else if d == 8 {
        '8'
    } else {
        '9'
    }
}

/// The decimal digit string of a non-negative number, most significant digit
/// first and without leading zeros (a lone zero for zero itself).
pub open spec fn dec_seq(n: int) -> Seq<char>
    recommends
        n >= 0,
    decreases n,
{
    if n <= 9 {
        seq![digit_char_spec(n)]
    } else {
        dec_seq(n / 10) + seq![digit_char_spec(n % 10)]
    }
}

/// The decimal string of a possibly negative number: a minus sign, where one
/// is due, before the digits of the absolute value.
pub open spec fn dec_seq_signed(n: int) -> Seq<char> {
    if n < 0 {
        seq!['-'] + dec_seq(-n)
    } else {
        dec_seq(n)
    }
}

fn digit_char(d: u32) -> (r: char)
    requires
        d < 10,
    ensures
        r == digit_char_spec(d as int),
{
    match d {
        0u32 => '0',
        1u32 => '1',
        2u32 => '2',
        3u32 => '3',
        4u32 => '4',
        5u32 => '5',
        6u32 => '6',
        7u32 => '7',
        8u32 => '8',
        _ => '9',
    }
}

/// The decimal rendering of a `u32`.
pub fn u32_to_string(n: u32) -> (r: String)
    ensures
        r@ == dec_seq(n as int),
    decreases n,
{
    if n <= 9 {
        let mut s = String::new();
        push_char(&mut s, digit_char(n));
        proof {
            assert(s@ =~= dec_seq(n as int));
        }
        s
    } else {
        let mut s = u32_to_string(n / 10);
        push_char(&mut s, digit_char(n % 10));
        proof {
            assert(s@ =~= dec_seq(n as int));
        }
        s
    }
}

/// The decimal rendering of an `i32`, with a leading minus sign when the
/// number is negative.
pub fn i32_to_string(n: i32) -> (r: String)
    requires
        n > i32::MIN,
    ensures
        r@ == dec_seq_signed(n as int),
{
    if n >= 0 {
        u32_to_string(n as u32)
    } else {
        let mut s = String::new();
        push_char(&mut s, '-');
        let digits = u32_to_string((-n) as u32);
        let r = s.concat(digits.as_str());
        proof {
            assert(r@ =~= dec_seq_signed(n as int));
        }
        r
    }
}

} // verus!
