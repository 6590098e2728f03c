//! Arbitrary precision integers for compile time values.
//! The arithmetic is done by `num::BigInt`; this module holds the values as plain limbs.
use num::bigint::Sign;
use num::{BigInt, BigUint, Num, Signed, ToPrimitive};
use vstd::arithmetic::power::pow;
use vstd::arithmetic::power2::pow2;
use vstd::prelude::*;

use crate::text::int_decimal;

verus! {

/// An arbitrary precision integer: a sign and a little-endian magnitude in base 2^32.
#[derive(Clone, Debug)]
pub struct CtInt {
    pub negative: bool,
    pub magnitude: Vec<u32>,
}

/// The value of little-endian base 2^32 limbs.
pub open spec fn limbs_value(d: Seq<u32>) -> nat
    decreases d.len(),
{
    if d.len() == 0 {
        0
    } else {
        (d[0] + 4294967296 * limbs_value(d.drop_first())) as nat
    }
}

impl View for CtInt {
    type V = int;

    open spec fn view(&self) -> int {
        if self.negative {
            -(limbs_value(self.magnitude@) as int)
        } else {
            limbs_value(self.magnitude@) as int
        }
    }
}

pub open spec fn spec_abs(a: int) -> int {
    if a < 0 {
        -a
    } else {
        a
    }
}

/// Division rounding toward zero, as Rust's `/` on integers.
pub open spec fn trunc_div(a: int, b: int) -> int {
    let q = spec_abs(a) / spec_abs(b);
    if (a < 0) != (b < 0) {
        -q
    } else {
        q
    }
}

/// The remainder of `trunc_div`, taking the sign of the dividend.
pub open spec fn trunc_rem(a: int, b: int) -> int {
    a - b * trunc_div(a, b)
}

/// Two's complement bitwise AND over the low `n` bits, sign-extended above them.
pub open spec fn bits_and(a: int, b: int, n: nat) -> int
    decreases n,
{
    if n == 0 {
        if a < 0 && b < 0 {
            -1
        } else {
            0
        }
    } else {
        2 * bits_and(a / 2, b / 2, (n - 1) as nat) + (a % 2) * (b % 2)
    }
}

pub open spec fn bits_or(a: int, b: int, n: nat) -> int
    decreases n,
{
    if n == 0 {
        if a < 0 || b < 0 {
            -1
        } else {
            0
        }
    } else {
        2 * bits_or(a / 2, b / 2, (n - 1) as nat) + (a % 2) + (b % 2) - (a % 2) * (b % 2)
    }
}

pub open spec fn bits_xor(a: int, b: int, n: nat) -> int
    decreases n,
{
    if n == 0 {
        if (a < 0) != (b < 0) {
            -1
        } else {
            0
        }
    } else {
        2 * bits_xor(a / 2, b / 2, (n - 1) as nat) + ((a % 2) + (b % 2)) % 2
    }
}

/// Enough bits to hold both operands in two's complement.
pub open spec fn bit_bound(a: int, b: int) -> nat {
    (spec_abs(a) + spec_abs(b) + 1) as nat
}

/// Two's complement AND of two integers.
pub open spec fn int_and(a: int, b: int) -> int {
    bits_and(a, b, bit_bound(a, b))
}

/// Two's complement OR of two integers.
pub open spec fn int_or(a: int, b: int) -> int {
    bits_or(a, b, bit_bound(a, b))
}

/// Two's complement XOR of two integers.
pub open spec fn int_xor(a: int, b: int) -> int {
    bits_xor(a, b, bit_bound(a, b))
}

/// The value of a digit char in radices up to 36, or 255 when the char is no digit.
pub open spec fn radix_digit_value(c: char) -> int {
    if '0' <= c && c <= '9' {
        c as int - '0' as int
    } else if 'a' <= c && c <= 'z' {
        c as int - 'a' as int + 10
    } else if 'A' <= c && c <= 'Z' {
        c as int - 'A' as int + 10
    } else {
        255
    }
}

/// The value of digits in a radix where underscores are skipped, or `None` when a char is no digit of the radix.
pub open spec fn radix_digits_value(s: Seq<char>, radix: int) -> Option<int>
    decreases s.len(),
{
    if s.len() == 0 {
        Some(0)
    } else {
        let c = s.last();
        let rest = radix_digits_value(s.drop_last(), radix);
        if c == '_' {
            rest
        } else if radix_digit_value(c) < radix {
            match rest {
                Some(v) => Some(v * radix + radix_digit_value(c)),
                None => None,
            }
        } else {
            None
        }
    }
}

/// What `BigUint::from_str_radix` accepts and gives: one leading `+` is dropped unless another
/// follows it, the rest must be non-empty, must not start with `_`, and must be digits of the radix or `_`.
pub open spec fn unsigned_from_str_radix(s: Seq<char>, radix: int) -> Option<int> {
    let t = if s.len() > 0 && s[0] == '+' && !(s.len() > 1 && s[1] == '+') {
        s.drop_first()
    } else {
        s
    };
    if t.len() == 0 || t[0] == '_' {
        None
    } else {
        radix_digits_value(t, radix)
    }
}

/// Returns the integer with the value of an `i64`.
/// Calls `BigInt::from`, which converts exactly.
#[verifier::external_body]
pub(crate) fn ct_from_i64(v: i64) -> (r: CtInt)
    ensures
        r@ == v as int,
{
    let (s, d) = BigInt::from(v).to_u32_digits();
    CtInt { negative: s == Sign::Minus, magnitude: d }
}

/// Returns the integer with the value of a `u64`.
/// Calls `BigInt::from`, which converts exactly.
#[verifier::external_body]
pub(crate) fn ct_from_u64(v: u64) -> (r: CtInt)
    ensures
        r@ == v as int,
{
    let (s, d) = BigInt::from(v).to_u32_digits();
    CtInt { negative: s == Sign::Minus, magnitude: d }
}

/// Parses digits of a radix to an unsigned integer.
/// Calls `BigUint::from_str_radix`, which panics unless the radix is in 2..=36.
#[verifier::external_body]
pub(crate) fn ct_unsigned_from_str_radix(s: &[char], radix: u32) -> (r: Option<CtInt>)
    requires
        2 <= radix <= 36,
    ensures
        match r {
            Some(v) => unsigned_from_str_radix(s@, radix as int) == Some(v@),
            None => unsigned_from_str_radix(s@, radix as int) is None,
        },
{
    let text: String = s.iter().collect();
    match BigUint::from_str_radix(&text, radix) {
        Ok(v) => Some(CtInt { negative: false, magnitude: v.to_u32_digits() }),
        Err(_) => None,
    }
}

/// `a + b`, computed by `BigInt`'s `Add`.
#[verifier::external_body]
pub(crate) fn ct_add(a: &CtInt, b: &CtInt) -> (r: CtInt)
    ensures
        r@ == a@ + b@,
{
    let x = BigInt::from_slice(if a.negative { Sign::Minus } else { Sign::Plus }, &a.magnitude);
    let y = BigInt::from_slice(if b.negative { Sign::Minus } else { Sign::Plus }, &b.magnitude);
    let (s, d) = (x + y).to_u32_digits();
    CtInt { negative: s == Sign::Minus, magnitude: d }
}

/// `a - b`, computed by `BigInt`'s `Sub`.
#[verifier::external_body]
pub(crate) fn ct_sub(a: &CtInt, b: &CtInt) -> (r: CtInt)
    ensures
        r@ == a@ - b@,
{
    let x = BigInt::from_slice(if a.negative { Sign::Minus } else { Sign::Plus }, &a.magnitude);
    let y = BigInt::from_slice(if b.negative { Sign::Minus } else { Sign::Plus }, &b.magnitude);
    let (s, d) = (x - y).to_u32_digits();
    CtInt { negative: s == Sign::Minus, magnitude: d }
}

/// `a * b`, computed by `BigInt`'s `Mul`.
#[verifier::external_body]
pub(crate) fn ct_mul(a: &CtInt, b: &CtInt) -> (r: CtInt)
    ensures
        r@ == a@ * b@,
{
    let x = BigInt::from_slice(if a.negative { Sign::Minus } else { Sign::Plus }, &a.magnitude);
    let y = BigInt::from_slice(if b.negative { Sign::Minus } else { Sign::Plus }, &b.magnitude);
    let (s, d) = (x * y).to_u32_digits();
    CtInt { negative: s == Sign::Minus, magnitude: d }
}

/// `a / b` rounding toward zero, computed by `BigInt`'s `Div`, which panics on a zero divisor.
#[verifier::external_body]
pub(crate) fn ct_div(a: &CtInt, b: &CtInt) -> (r: CtInt)
    requires
        b@ != 0,
    ensures
        r@ == trunc_div(a@, b@),
{
    let x = BigInt::from_slice(if a.negative { Sign::Minus } else { Sign::Plus }, &a.magnitude);
    let y = BigInt::from_slice(if b.negative { Sign::Minus } else { Sign::Plus }, &b.magnitude);
    let (s, d) = (x / y).to_u32_digits();
    CtInt { negative: s == Sign::Minus, magnitude: d }
}

/// `a % b` with the sign of `a`, computed by `BigInt`'s `Rem`, which panics on a zero divisor.
#[verifier::external_body]
pub(crate) fn ct_rem(a: &CtInt, b: &CtInt) -> (r: CtInt)
    requires
        b@ != 0,
    ensures
        r@ == trunc_rem(a@, b@),
{
    let x = BigInt::from_slice(if a.negative { Sign::Minus } else { Sign::Plus }, &a.magnitude);
    let y = BigInt::from_slice(if b.negative { Sign::Minus } else { Sign::Plus }, &b.magnitude);
    let (s, d) = (x % y).to_u32_digits();
    CtInt { negative: s == Sign::Minus, magnitude: d }
}

/// `a` to the power of `e`, computed by `BigInt::pow`.
#[verifier::external_body]
pub(crate) fn ct_pow(a: &CtInt, e: u32) -> (r: CtInt)
    ensures
        r@ == pow(a@, e as nat),
{
    let x = BigInt::from_slice(if a.negative { Sign::Minus } else { Sign::Plus }, &a.magnitude);
    let (s, d) = x.pow(e).to_u32_digits();
    CtInt { negative: s == Sign::Minus, magnitude: d }
}

/// `-a`, computed by `BigInt`'s `Neg`.
#[verifier::external_body]
pub(crate) fn ct_neg(a: &CtInt) -> (r: CtInt)
    ensures
        r@ == -a@,
{
    let x = BigInt::from_slice(if a.negative { Sign::Minus } else { Sign::Plus }, &a.magnitude);
    let (s, d) = (-x).to_u32_digits();
    CtInt { negative: s == Sign::Minus, magnitude: d }
}

/// `!a`, computed by `BigInt`'s `Not`, which is two's complement: `-a - 1`.
#[verifier::external_body]
pub(crate) fn ct_not(a: &CtInt) -> (r: CtInt)
    ensures
        r@ == -a@ - 1,
{
    let x = BigInt::from_slice(if a.negative { Sign::Minus } else { Sign::Plus }, &a.magnitude);
    let (s, d) = (!x).to_u32_digits();
    CtInt { negative: s == Sign::Minus, magnitude: d }
}

/// `a & b`, computed by `BigInt`'s `BitAnd`, which acts on two's complement.
#[verifier::external_body]
pub(crate) fn ct_and(a: &CtInt, b: &CtInt) -> (r: CtInt)
    ensures
        r@ == int_and(a@, b@),
{
    let x = BigInt::from_slice(if a.negative { Sign::Minus } else { Sign::Plus }, &a.magnitude);
    let y = BigInt::from_slice(if b.negative { Sign::Minus } else { Sign::Plus }, &b.magnitude);
    let (s, d) = (x & y).to_u32_digits();
    CtInt { negative: s == Sign::Minus, magnitude: d }
}

/// `a | b`, computed by `BigInt`'s `BitOr`, which acts on two's complement.
#[verifier::external_body]
pub(crate) fn ct_or(a: &CtInt, b: &CtInt) -> (r: CtInt)
    ensures
        r@ == int_or(a@, b@),
{
    let x = BigInt::from_slice(if a.negative { Sign::Minus } else { Sign::Plus }, &a.magnitude);
    let y = BigInt::from_slice(if b.negative { Sign::Minus } else { Sign::Plus }, &b.magnitude);
    let (s, d) = (x | y).to_u32_digits();
    CtInt { negative: s == Sign::Minus, magnitude: d }
}

/// `a ^ b`, computed by `BigInt`'s `BitXor`, which acts on two's complement.
#[verifier::external_body]
pub(crate) fn ct_xor(a: &CtInt, b: &CtInt) -> (r: CtInt)
    ensures
        r@ == int_xor(a@, b@),
{
    let x = BigInt::from_slice(if a.negative { Sign::Minus } else { Sign::Plus }, &a.magnitude);
    let y = BigInt::from_slice(if b.negative { Sign::Minus } else { Sign::Plus }, &b.magnitude);
    let (s, d) = (x ^ y).to_u32_digits();
    CtInt { negative: s == Sign::Minus, magnitude: d }
}

/// `a << n`, computed by `BigInt`'s `Shl<u128>`. It panics ("capacity overflow") for a nonzero `a`
/// and shifts near 2^66 bits and more; the shift is held below 2^64 bits.
#[verifier::external_body]
pub(crate) fn ct_shl(a: &CtInt, n: u128) -> (r: CtInt)
    requires
        a@ == 0 || n < 0x1_0000_0000_0000_0000,
    ensures
        r@ == a@ * pow2(n as nat),
{
    let x = BigInt::from_slice(if a.negative { Sign::Minus } else { Sign::Plus }, &a.magnitude);
    let (s, d) = (x << n).to_u32_digits();
    CtInt { negative: s == Sign::Minus, magnitude: d }
}

/// `a >> n`, computed by `BigInt`'s `Shr<u128>`, which rounds toward negative infinity.
#[verifier::external_body]
pub(crate) fn ct_shr(a: &CtInt, n: u128) -> (r: CtInt)
    ensures
        r@ == a@ / (pow2(n as nat) as int),
{
    let x = BigInt::from_slice(if a.negative { Sign::Minus } else { Sign::Plus }, &a.magnitude);
    let (s, d) = (x >> n).to_u32_digits();
    CtInt { negative: s == Sign::Minus, magnitude: d }
}

/// Compares two integers by `Ord::cmp` of `BigInt`: -1 when `a < b`, 0 when equal, 1 when `a > b`.
#[verifier::external_body]
pub(crate) fn ct_compare(a: &CtInt, b: &CtInt) -> (r: i8)
    ensures
        r == (if a@ < b@ { -1i8 } else if a@ == b@ { 0i8 } else { 1i8 }),
{
    let x = BigInt::from_slice(if a.negative { Sign::Minus } else { Sign::Plus }, &a.magnitude);
    let y = BigInt::from_slice(if b.negative { Sign::Minus } else { Sign::Plus }, &b.magnitude);
    match x.cmp(&y) {
        std::cmp::Ordering::Less => -1,
        std::cmp::Ordering::Equal => 0,
        std::cmp::Ordering::Greater => 1,
    }
}

/// The sign of the integer as an integer (-1, 0 or 1), by `Signed::signum`.
#[verifier::external_body]
pub(crate) fn ct_signum(a: &CtInt) -> (r: CtInt)
    ensures
        r@ == (if a@ < 0 { -1int } else if a@ == 0 { 0int } else { 1int }),
{
    let (s, d) = BigInt::from_slice(if a.negative { Sign::Minus } else { Sign::Plus }, &a.magnitude).signum().to_u32_digits();
    CtInt { negative: s == Sign::Minus, magnitude: d }
}

/// A copy of the integer.
pub fn clone_ct(a: &CtInt) -> (r: CtInt)
    ensures
        r@ == a@,
        r.negative == a.negative,
        r.magnitude@ == a.magnitude@,
{
    let mut magnitude: Vec<u32> = Vec::new();
    let mut i: usize = 0;
    while i < a.magnitude.len()
        invariant
            i <= a.magnitude@.len(),
            magnitude@ == a.magnitude@.subrange(0, i as int),
        decreases a.magnitude@.len() - i,
    {
        magnitude.push(a.magnitude[i]);
        i = i + 1;
        proof {
            assert(magnitude@ =~= a.magnitude@.subrange(0, i as int));
        }
    }
    proof {
        assert(magnitude@ =~= a.magnitude@);
    }
    CtInt { negative: a.negative, magnitude }
}

/// The decimal text of the integer, by `BigInt`'s `Display`: its digits without leading zeros,
/// after a `-` when it is negative.
#[verifier::external_body]
pub(crate) fn ct_decimal(a: &CtInt) -> (r: Vec<char>)
    ensures
        r@ == int_decimal(a@),
{
    BigInt::from_slice(if a.negative { Sign::Minus } else { Sign::Plus }, &a.magnitude).to_string().chars().collect()
}

/// Whether the integer is greater than zero, by `Signed::is_positive`.
#[verifier::external_body]
pub(crate) fn ct_is_positive(a: &CtInt) -> (r: bool)
    ensures
        r == (a@ > 0),
{
    BigInt::from_slice(if a.negative { Sign::Minus } else { Sign::Plus }, &a.magnitude).is_positive()
}

/// Whether the integer is less than zero, by `Signed::is_negative`.
#[verifier::external_body]
pub(crate) fn ct_is_negative(a: &CtInt) -> (r: bool)
    ensures
        r == (a@ < 0),
{
    BigInt::from_slice(if a.negative { Sign::Minus } else { Sign::Plus }, &a.magnitude).is_negative()
}

/// The integer as a `u8` when it fits, by `ToPrimitive::to_u8`.
#[verifier::external_body]
pub(crate) fn ct_to_u8(a: &CtInt) -> (r: Option<u8>)
    ensures
        match r {
            Some(v) => v as int == a@,
            None => !(0 <= a@ <= u8::MAX),
        },
{
    BigInt::from_slice(if a.negative { Sign::Minus } else { Sign::Plus }, &a.magnitude).to_u8()
}

/// The integer as a `u32` when it fits, by `ToPrimitive::to_u32`.
#[verifier::external_body]
pub(crate) fn ct_to_u32(a: &CtInt) -> (r: Option<u32>)
    ensures
        match r {
            Some(v) => v as int == a@,
            None => !(0 <= a@ <= u32::MAX),
        },
{
    BigInt::from_slice(if a.negative { Sign::Minus } else { Sign::Plus }, &a.magnitude).to_u32()
}

/// The integer as a `u64` when it fits, by `ToPrimitive::to_u64`.
#[verifier::external_body]
pub(crate) fn ct_to_u64(a: &CtInt) -> (r: Option<u64>)
    ensures
        match r {
            Some(v) => v as int == a@,
            None => !(0 <= a@ <= u64::MAX),
        },
{
    BigInt::from_slice(if a.negative { Sign::Minus } else { Sign::Plus }, &a.magnitude).to_u64()
}

/// The integer as an `i64` when it fits, by `ToPrimitive::to_i64`.
#[verifier::external_body]
pub(crate) fn ct_to_i64(a: &CtInt) -> (r: Option<i64>)
    ensures
        match r {
            Some(v) => v as int == a@,
            None => !(i64::MIN <= a@ <= i64::MAX),
        },
{
    BigInt::from_slice(if a.negative { Sign::Minus } else { Sign::Plus }, &a.magnitude).to_i64()
}

/// The integer as a `u128` when it fits, by `ToPrimitive::to_u128`.
#[verifier::external_body]
pub(crate) fn ct_to_u128(a: &CtInt) -> (r: Option<u128>)
    ensures
        match r {
            Some(v) => v as int == a@,
            None => !(0 <= a@ <= u128::MAX),
        },
{
    BigInt::from_slice(if a.negative { Sign::Minus } else { Sign::Plus }, &a.magnitude).to_u128()
}

/// The integer as a `usize` when it fits, by `ToPrimitive::to_usize`.
#[verifier::external_body]
pub(crate) fn ct_to_usize(a: &CtInt) -> (r: Option<usize>)
    ensures
        match r {
            Some(v) => v as int == a@,
            None => !(0 <= a@ <= usize::MAX),
        },
{
    BigInt::from_slice(if a.negative { Sign::Minus } else { Sign::Plus }, &a.magnitude).to_usize()
}

} // verus!
