use vstd::prelude::*;
use vstd::string::*;

verus! {

/// True when the char is an ASCII decimal digit.
pub open spec fn spec_is_ascii_digit(c: char) -> bool {
    '0' <= c && c <= '9'
}

pub fn is_ascii_digit(c: char) -> (r: bool)
    ensures
        r == spec_is_ascii_digit(c),
{
    '0' <= c && c <= '9'
}

/// Compares two char sequences for equality.
pub fn chars_eq(a: &[char], b: &[char]) -> (r: bool)
    ensures
        r == (a@ == b@),
{
    if a.len() != b.len() {
        return false;
    }
    let mut i: usize = 0;
    while i < a.len()
        invariant
            a@.len() == b@.len(),
            i <= a@.len(),
            forall|j: int| 0 <= j < i ==> a@[j] == b@[j],
        decreases a@.len() - i,
    {
        if a[i] != b[i] {
            return false;
        }
        i = i + 1;
    }
    proof {
        assert(a@ =~= b@);
    }
    true
}

} // verus!

verus! {

/// The chars of a string slice.
pub fn str_to_chars(s: &str) -> (r: Vec<char>)
    ensures
        r@ == s@,
{
    let n = s.unicode_len();
    let mut out: Vec<char> = Vec::new();
    let mut i: usize = 0;
    while i < n
        invariant
            n == s@.len(),
            i <= n,
            out@ == s@.subrange(0, i as int),
        decreases n - i,
    {
        out.push(s.get_char(i));
        i = i + 1;
        proof {
            assert(out@ =~= s@.subrange(0, i as int));
        }
    }
    proof {
        assert(out@ =~= s@);
    }
    out
}

} // verus!

verus! {

/// Appends the chars of a string slice.
pub fn push_str(out: &mut Vec<char>, s: &str)
    ensures
        final(out)@ == old(out)@ + s@,
{
    let chars = str_to_chars(s);
    let mut i: usize = 0;
    while i < chars.len()
        invariant
            i <= chars@.len(),
            chars@ == s@,
            out@ == old(out)@ + s@.subrange(0, i as int),
        decreases chars@.len() - i,
    {
        out.push(chars[i]);
        i = i + 1;
        proof {
            assert(out@ =~= old(out)@ + s@.subrange(0, i as int));
        }
    }
    proof {
        assert(s@.subrange(0, s@.len() as int) =~= s@);
    }
}

/// Compares a sequence of chars with a string slice.
pub fn chars_eq_str(a: &[char], s: &str) -> (r: bool)
    ensures
        r == (a@ == s@),
{
    let b = str_to_chars(s);
    chars_eq(a, b.as_slice())
}

/// Copies a vector of chars.
pub fn clone_chars(s: &Vec<char>) -> (r: Vec<char>)
    ensures
        r@ == s@,
{
    let mut out: Vec<char> = Vec::new();
    let mut i: usize = 0;
    while i < s.len()
        invariant
            i <= s@.len(),
            out@ == s@.subrange(0, i as int),
        decreases s@.len() - i,
    {
        out.push(s[i]);
        i = i + 1;
        proof {
            assert(out@ =~= s@.subrange(0, i as int));
        }
    }
    proof {
        assert(out@ =~= s@);
    }
    out
}

/// Appends a sequence of chars.
pub fn push_chars(out: &mut Vec<char>, s: &[char])
    ensures
        final(out)@ == old(out)@ + s@,
{
    let mut i: usize = 0;
    while i < s.len()
        invariant
            i <= s@.len(),
            out@ == old(out)@ + s@.subrange(0, i as int),
        decreases s@.len() - i,
    {
        out.push(s[i]);
        i = i + 1;
        proof {
            assert(out@ =~= old(out)@ + s@.subrange(0, i as int));
        }
    }
    proof {
        assert(s@.subrange(0, s@.len() as int) =~= s@);
    }
}

/// The char of a decimal digit.
pub open spec fn decimal_digit_char(d: nat) -> char {
    if d == 0 {
        '0'
    } else if d == 1 {
        '1'
    } else if d == 2 {
        '2'
    } else if d == 3 {
        '3'
    } else if d == 4 {
        '4'
    } else if d == 5 {
        '5'
    } else if d == 6 {
        '6'
    } else if d == 7 {
        '7'
    } else if d == 8 {
        '8'
    } else {
        '9'
    }
}

/// The decimal digits of a natural number, without leading zeros.
pub open spec fn nat_decimal(n: nat) -> Seq<char>
    decreases n,
{
    if n < 10 {
        seq![decimal_digit_char(n)]
    } else {
        nat_decimal(n / 10) + seq![decimal_digit_char(n % 10)]
    }
}

/// The decimal text of an integer, with a leading `-` when it is negative.
pub open spec fn int_decimal(n: int) -> Seq<char> {
    if n < 0 {
        seq!['-'] + nat_decimal((-n) as nat)
    } else {
        nat_decimal(n as nat)
    }
}

pub open spec fn spec_u8_decimal(n: u8) -> Seq<char> {
    nat_decimal(n as nat)
}

fn digit_char(d: u128) -> (r: char)
    requires
        d < 10,
    ensures
        r == decimal_digit_char(d as nat),
{
    if d == 0 {
        '0'
    } else if d == 1 {
        '1'
    } else if d == 2 {
        '2'
    } else if d == 3 {
        '3'
    } else if d == 4 {
        '4'
    } else if d == 5 {
        '5'
    } else if d == 6 {
        '6'
    } else if d == 7 {
        '7'
    } else if d == 8 {
        '8'
    } else {
        '9'
    }
}

/// Appends the decimal digits of a number.
pub fn push_u128_decimal(out: &mut Vec<char>, v: u128)
    ensures
        final(out)@ == old(out)@ + nat_decimal(v as nat),
    decreases v,
{
    if v >= 10 {
        push_u128_decimal(out, v / 10);
    }
    out.push(digit_char(v % 10));
    proof {
        assert(final(out)@ =~= old(out)@ + nat_decimal(v as nat));
    }
}

pub fn push_u8_decimal(out: &mut Vec<char>, v: u8)
    ensures
        final(out)@ == old(out)@ + spec_u8_decimal(v),
{
    push_u128_decimal(out, v as u128);
}

pub fn push_usize_decimal(out: &mut Vec<char>, v: usize)
    ensures
        final(out)@ == old(out)@ + nat_decimal(v as nat),
{
    push_u128_decimal(out, v as u128);
}

/// Appends the decimal text of a signed number.
pub fn push_i128_decimal(out: &mut Vec<char>, v: i128)
    ensures
        final(out)@ == old(out)@ + int_decimal(v as int),
{
    if v < 0 {
        out.push('-');
        let magnitude: u128 = ((-(v + 1)) as u128) + 1;
        push_u128_decimal(out, magnitude);
        proof {
            assert(final(out)@ =~= old(out)@ + int_decimal(v as int));
        }
    } else {
        push_u128_decimal(out, v as u128);
    }
}

} // verus!

verus! {

/// The text `{:?}` gives for a char: the char in single quotes, escaped as `char::escape_debug` does.
pub uninterp spec fn char_debug_text(c: char) -> Seq<char>;

/// The text `{:?}` gives for a string: the string in double quotes, escaped as `str::escape_debug` does.
pub uninterp spec fn str_debug_text(s: Seq<char>) -> Seq<char>;

/// The debug text of a char, by `format!("{:?}")` (`<char as Debug>::fmt`).
#[verifier::external_body]
pub(crate) fn char_debug(c: char) -> (r: Vec<char>)
    ensures
        r@ == char_debug_text(c),
{
    format!("{:?}", c).chars().collect()
}

/// The debug text of a string, by `format!("{:?}")` (`<str as Debug>::fmt`).
#[verifier::external_body]
pub(crate) fn str_debug(s: &Vec<char>) -> (r: Vec<char>)
    ensures
        r@ == str_debug_text(s@),
{
    let text: String = s.iter().collect();
    format!("{:?}", text).chars().collect()
}

} // verus!
