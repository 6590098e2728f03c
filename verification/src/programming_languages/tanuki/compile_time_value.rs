use vstd::prelude::*;

use crate::big_int::{ct_decimal, ct_from_i64, ct_from_u64, ct_is_positive, ct_neg, ct_shl, ct_shr, ct_to_i64, ct_to_u64, CtInt};
use crate::error::Error;
use crate::programming_languages::tanuki::t_type::{
    cast_error_message, clone_types, types_model, FunctionPointerModel, FunctionPointerType, TanukiType, TypeModel,
};
use crate::text::{
    char_debug, char_debug_text, clone_chars, int_decimal, nat_decimal, push_chars, push_str, push_u128_decimal,
    spec_u8_decimal, str_debug, str_debug_text,
};

verus! {

/// A value that is known at compile time. Floats are held as the bits of their IEEE 754 binary64 value.
#[derive(Debug)]
pub enum TanukiCompileTimeValue {
    CompileTimeInt(CtInt),
    CompileTimeFloat(u64),
    CompileTimeChar(char),
    CompileTimeString(Vec<char>),
    Type(TanukiType),
    Void,
    U(u8, u64),
    I(u8, i64),
    F(u8, u64),
    Bool(bool),
    /// A function of a module: its name, the module's path, and its return and parameter types.
    FunctionPointer(Vec<char>, Vec<char>, Box<TanukiType>, Vec<TanukiType>),
    /// A function linked from outside: its name, and its return and parameter types.
    LinkedFunctionPointer(Vec<char>, Box<TanukiType>, Vec<TanukiType>),
}

/// The largest value of an unsigned integer type of a bit width: `2^width - 1`.
pub open spec fn unsigned_largest(bit_width: u8) -> int {
    vstd::arithmetic::power2::pow2(bit_width as nat) - 1
}

/// The bit shift used for the bounds of a signed integer type of a bit width.
pub open spec fn signed_shift(bit_width: u8) -> nat {
    ((if bit_width == 0 { 0 } else { bit_width - 1 }) % 64) as nat
}

/// The largest value of a signed integer type of a bit width.
pub open spec fn signed_largest(bit_width: u8) -> int {
    vstd::arithmetic::power2::pow2(signed_shift(bit_width)) - 1
}

/// The smallest value of a signed integer type of a bit width.
pub open spec fn signed_smallest(bit_width: u8) -> int {
    -vstd::arithmetic::power2::pow2(signed_shift(bit_width))
}

impl TanukiCompileTimeValue {
    /// The model of the type of the value.
    pub open spec fn type_model(&self) -> TypeModel {
        match self {
            TanukiCompileTimeValue::CompileTimeInt(_) => TypeModel::CompileTimeInt,
            TanukiCompileTimeValue::CompileTimeFloat(_) => TypeModel::CompileTimeFloat,
            TanukiCompileTimeValue::CompileTimeChar(_) => TypeModel::CompileTimeChar,
            TanukiCompileTimeValue::CompileTimeString(_) => TypeModel::CompileTimeString,
            TanukiCompileTimeValue::Type(_) => TypeModel::Type,
            TanukiCompileTimeValue::Void => TypeModel::Void,
            TanukiCompileTimeValue::U(w, _) => TypeModel::U(*w),
            TanukiCompileTimeValue::I(w, _) => TypeModel::I(*w),
            TanukiCompileTimeValue::F(w, _) => TypeModel::F(*w),
            TanukiCompileTimeValue::Bool(_) => TypeModel::Bool,
            TanukiCompileTimeValue::FunctionPointer(_, _, return_type, parameter_types) => TypeModel::FunctionPointer(
                FunctionPointerModel { return_type: Box::new(return_type.model()), parameter_types: types_model(parameter_types@) },
            ),
            TanukiCompileTimeValue::LinkedFunctionPointer(_, return_type, parameter_types) => TypeModel::FunctionPointer(
                FunctionPointerModel { return_type: Box::new(return_type.model()), parameter_types: types_model(parameter_types@) },
            ),
        }
    }

    /// Whether the value holds a float.
    pub open spec fn is_float(&self) -> bool {
        self is CompileTimeFloat || self is F
    }

    /// The bits of a float value.
    pub open spec fn float_bits(&self) -> u64 {
        match self {
            TanukiCompileTimeValue::CompileTimeFloat(b) => *b,
            TanukiCompileTimeValue::F(_, b) => *b,
            _ => 0,
        }
    }

    /// The integer an integer value holds.
    pub open spec fn int_value(&self) -> int {
        match self {
            TanukiCompileTimeValue::CompileTimeInt(v) => v@,
            TanukiCompileTimeValue::U(_, v) => *v as int,
            TanukiCompileTimeValue::I(_, v) => *v as int,
            _ => 0,
        }
    }

    /// The text that names a value that holds no float.
    pub open spec fn spec_print_name(&self) -> Seq<char> {
        match self {
            TanukiCompileTimeValue::CompileTimeInt(v) => "Compile Time Integer "@ + int_decimal(v@),
            TanukiCompileTimeValue::CompileTimeChar(c) => "Compile Time Char "@ + char_debug_text(*c),
            TanukiCompileTimeValue::CompileTimeString(s) => "Compile Time String "@ + str_debug_text(s@),
            TanukiCompileTimeValue::Void => "Void"@,
            TanukiCompileTimeValue::U(w, v) => seq!['U'] + spec_u8_decimal(*w) + " "@ + nat_decimal(*v as nat),
            TanukiCompileTimeValue::I(w, v) => seq!['I'] + spec_u8_decimal(*w) + " "@ + int_decimal(*v as int),
            TanukiCompileTimeValue::Bool(b) => "Bool "@ + if *b { "true"@ } else { "false"@ },
            TanukiCompileTimeValue::Type(_) => "Type"@,
            TanukiCompileTimeValue::FunctionPointer(name, path, _, _) => "Function Pointer "@ + name@ + " of "@ + str_debug_text(path@),
            TanukiCompileTimeValue::LinkedFunctionPointer(name, _, _) => "Linked Function Pointer "@ + name@,
            _ => Seq::empty(),
        }
    }

    /// The type of the value.
    pub fn get_type(&self) -> (r: TanukiType)
        ensures
            r.model() == self.type_model(),
    {
        match self {
            TanukiCompileTimeValue::CompileTimeInt(_) => TanukiType::CompileTimeInt,
            TanukiCompileTimeValue::CompileTimeFloat(_) => TanukiType::CompileTimeFloat,
            TanukiCompileTimeValue::CompileTimeChar(_) => TanukiType::CompileTimeChar,
            TanukiCompileTimeValue::CompileTimeString(_) => TanukiType::CompileTimeString,
            TanukiCompileTimeValue::Type(_) => TanukiType::Type,
            TanukiCompileTimeValue::Void => TanukiType::Void,
            TanukiCompileTimeValue::U(w, _) => TanukiType::U(*w),
            TanukiCompileTimeValue::I(w, _) => TanukiType::I(*w),
            TanukiCompileTimeValue::F(w, _) => TanukiType::F(*w),
            TanukiCompileTimeValue::Bool(_) => TanukiType::Bool,
            TanukiCompileTimeValue::FunctionPointer(_, _, return_type, parameter_types) => TanukiType::FunctionPointer(
                FunctionPointerType { return_type: Box::new(return_type.deep_clone()), parameter_types: clone_types(parameter_types) },
            ),
            TanukiCompileTimeValue::LinkedFunctionPointer(_, return_type, parameter_types) => TanukiType::FunctionPointer(
                FunctionPointerType { return_type: Box::new(return_type.deep_clone()), parameter_types: clone_types(parameter_types) },
            ),
        }
    }

    /// Whether the value can be held by a variable of a type: it is of that type, or the type is `Any`.
    pub fn is_of_type(&self, t_type: &TanukiType) -> (r: bool)
        ensures
            r == (t_type.model() is Any || self.type_model() == t_type.model()),
    {
        match t_type {
            TanukiType::Any => true,
            _ => self.get_type().same_as(t_type),
        }
    }

    /// The name of the value, when it holds no float.
    pub fn print_name(&self) -> (r: Vec<char>)
        requires
            !self.is_float(),
        ensures
            r@ == self.spec_print_name(),
    {
        let mut out: Vec<char> = Vec::new();
        match self {
            TanukiCompileTimeValue::CompileTimeInt(v) => {
                push_str(&mut out, "Compile Time Integer ");
                push_chars(&mut out, ct_decimal(v).as_slice());
            },
            TanukiCompileTimeValue::CompileTimeChar(c) => {
                push_str(&mut out, "Compile Time Char ");
                push_chars(&mut out, char_debug(*c).as_slice());
            },
            TanukiCompileTimeValue::CompileTimeString(s) => {
                push_str(&mut out, "Compile Time String ");
                push_chars(&mut out, str_debug(s).as_slice());
            },
            TanukiCompileTimeValue::Void => push_str(&mut out, "Void"),
            TanukiCompileTimeValue::U(w, v) => {
                out.push('U');
                push_u128_decimal(&mut out, *w as u128);
                push_str(&mut out, " ");
                push_u128_decimal(&mut out, *v as u128);
            },
            TanukiCompileTimeValue::I(w, v) => {
                out.push('I');
                push_u128_decimal(&mut out, *w as u128);
                push_str(&mut out, " ");
                crate::text::push_i128_decimal(&mut out, *v as i128);
            },
            TanukiCompileTimeValue::Bool(b) => {
                push_str(&mut out, "Bool ");
                if *b {
                    push_str(&mut out, "true");
                } else {
                    push_str(&mut out, "false");
                }
            },
            TanukiCompileTimeValue::Type(_) => push_str(&mut out, "Type"),
            TanukiCompileTimeValue::FunctionPointer(name, path, _, _) => {
                push_str(&mut out, "Function Pointer ");
                push_chars(&mut out, name.as_slice());
                push_str(&mut out, " of ");
                push_chars(&mut out, str_debug(path).as_slice());
            },
            TanukiCompileTimeValue::LinkedFunctionPointer(name, _, _) => {
                push_str(&mut out, "Linked Function Pointer ");
                push_chars(&mut out, name.as_slice());
            },
            _ => {},
        }
        proof {
            assert(out@ =~= self.spec_print_name());
        }
        out
    }
}


/// `2^s - 1` for a shift below 64.
fn low_bits(s: u64) -> (r: u64)
    requires
        s < 64,
    ensures
        r as int == vstd::arithmetic::power2::pow2(s as nat) - 1,
{
    proof {
        vstd::bits::lemma_u64_pow2_no_overflow(s as nat);
        vstd::bits::lemma_u64_shl_is_mul(1, s);
    }
    (1u64 << s) - 1
}

/// The name of a type.
fn type_text(t: &TanukiType) -> (r: Vec<char>)
    ensures
        r@ == t.model().spec_print_name(),
{
    let mut name: Vec<char> = Vec::new();
    t.print_name(&mut name);
    proof {
        assert(name@ =~= t.model().spec_print_name());
    }
    name
}

/// Whether a result is what casting the integer `n` to an integer type gives: the value in the
/// type, or the error for a value out of its range.
pub open spec fn int_cast_holds(n: int, t: TypeModel, r: Result<TanukiCompileTimeValue, Error>) -> bool {
    let name = t.spec_print_name();
                match t {
                    TypeModel::U(w) => if !(0 <= n <= u64::MAX) {
                        r matches Err(e) && is_range_error(e, n > 0, n, name)
                    } else if n > unsigned_largest(w) {
                        r matches Err(e) && is_range_error(e, true, n, name)
                    } else {
                        r matches Ok(TanukiCompileTimeValue::U(w2, v)) && w2 == w && v == n
                    },
                    TypeModel::I(w) => if !(i64::MIN <= n <= i64::MAX) {
                        r matches Err(e) && is_range_error(e, n > 0, n, name)
                    } else if n < signed_smallest(w) {
                        r matches Err(e) && is_range_error(e, false, n, name)
                    } else if n > signed_largest(w) {
                        r matches Err(e) && is_range_error(e, true, n, name)
                    } else {
                        r matches Ok(TanukiCompileTimeValue::I(w2, v)) && w2 == w && v == n
                    },
                    _ => r matches Ok(TanukiCompileTimeValue::CompileTimeInt(v)) && v@ == n,
                }
}

/// Casting an integer to a fixed-width integer type succeeds exactly when the integer fits in the
/// type, and keeps it: `0 <= n < 2^w` for the unsigned `@u(w)` and `-2^(w-1) <= n < 2^(w-1)` for
/// the signed `@i(w)`, for the widths 8, 16, 32 and 64.
pub proof fn law_integer_casts_keep_values_that_fit(n: int, t: TypeModel, r: Result<TanukiCompileTimeValue, Error>)
    requires
        int_cast_holds(n, t, r),
    ensures
        t == TypeModel::U(8) ==> (r is Ok <==> 0 <= n < 0x100),
        t == TypeModel::U(16) ==> (r is Ok <==> 0 <= n < 0x1_0000),
        t == TypeModel::U(32) ==> (r is Ok <==> 0 <= n < 0x1_0000_0000),
        t == TypeModel::U(64) ==> (r is Ok <==> 0 <= n < 0x1_0000_0000_0000_0000),
        t == TypeModel::I(8) ==> (r is Ok <==> -0x80 <= n < 0x80),
        t == TypeModel::I(16) ==> (r is Ok <==> -0x8000 <= n < 0x8000),
        t == TypeModel::I(32) ==> (r is Ok <==> -0x8000_0000 <= n < 0x8000_0000),
        t == TypeModel::I(64) ==> (r is Ok <==> -0x8000_0000_0000_0000 <= n < 0x8000_0000_0000_0000),
        t matches TypeModel::U(w) ==> (r is Ok ==> r == Ok::<TanukiCompileTimeValue, Error>(
            TanukiCompileTimeValue::U(w, n as u64),
        )),
        t matches TypeModel::I(w) ==> (r is Ok ==> r == Ok::<TanukiCompileTimeValue, Error>(
            TanukiCompileTimeValue::I(w, n as i64),
        )),
{
    vstd::arithmetic::power2::lemma2_to64();
    vstd::arithmetic::power2::lemma2_to64_rest();
}

/// The biased exponent field of the bits of a binary64 float.
pub open spec fn float_exponent(bits: u64) -> int {
    (bits as int / 0x10_0000_0000_0000) % 2048
}

/// The significand of a normal binary64 float, the implicit leading bit included.
pub open spec fn float_significand(bits: u64) -> int {
    bits as int % 0x10_0000_0000_0000 + 0x10_0000_0000_0000
}

/// The integer a binary64 float is truncated to (its fraction dropped, toward zero), or `None` for
/// an infinity or a NaN.
pub open spec fn float_truncated(bits: u64) -> Option<int> {
    let e = float_exponent(bits);
    let magnitude = if e == 0 {
        0
    } else if e >= 1075 {
        float_significand(bits) * vstd::arithmetic::power2::pow2((e - 1075) as nat)
    } else {
        float_significand(bits) / (vstd::arithmetic::power2::pow2((1075 - e) as nat) as int)
    };
    if e == 2047 {
        None
    } else if bits as int >= 0x8000_0000_0000_0000 {
        Some(-magnitude)
    } else {
        Some(magnitude)
    }
}

/// Whether a finite binary64 float has no fraction.
pub open spec fn float_is_integral(bits: u64) -> bool {
    let e = float_exponent(bits);
    if e == 0 {
        bits as int % 0x10_0000_0000_0000 == 0
    } else if e >= 1075 {
        true
    } else {
        float_significand(bits) % (vstd::arithmetic::power2::pow2((1075 - e) as nat) as int) == 0
    }
}

/// The integer of a binary64 float: truncated toward zero where `can_be_lossy`, else only when the
/// float has no fraction; `None` for an infinity or a NaN.
fn float_to_integer(bits: u64, can_be_lossy: bool) -> (r: Option<CtInt>)
    ensures
        match float_truncated(bits) {
            None => r is None,
            Some(t) => if !can_be_lossy && !float_is_integral(bits) {
                r is None
            } else {
                r matches Some(v) && v@ == t
            },
        },
{
    let e: u64 = (bits / 0x10_0000_0000_0000) % 2048;
    let m: u64 = bits % 0x10_0000_0000_0000;
    if e == 2047 {
        return None;
    }
    let magnitude = if e == 0 {
        if !can_be_lossy && m != 0 {
            return None;
        }
        ct_from_u64(0)
    } else {
        let significand: u64 = m + 0x10_0000_0000_0000;
        let significand_ct = ct_from_u64(significand);
        if e >= 1075 {
            ct_shl(&significand_ct, (e - 1075) as u128)
        } else {
            let shift: u64 = 1075 - e;
            if !can_be_lossy {
                if shift >= 64 {
                    proof {
                        vstd::arithmetic::power2::lemma2_to64();
                        vstd::arithmetic::power2::lemma2_to64_rest();
                        vstd::arithmetic::power2::lemma_pow2_strictly_increases(53, shift as nat);
                        vstd::arithmetic::div_mod::lemma_small_mod(
                            significand as nat,
                            vstd::arithmetic::power2::pow2(shift as nat),
                        );
                    }
                    return None;
                }
                proof {
                    vstd::bits::lemma_u64_pow2_no_overflow(shift as nat);
                }
                let divisor: u64 = low_bits(shift) + 1;
                if significand % divisor != 0 {
                    return None;
                }
            }
            ct_shr(&significand_ct, shift as u128)
        }
    };
    if bits >= 0x8000_0000_0000_0000 {
        Some(ct_neg(&magnitude))
    } else {
        Some(magnitude)
    }
}

/// Whether an error is the one for an integer out of the range of a type.
pub open spec fn is_range_error(e: Error, too_large: bool, value: int, type_text: Seq<char>) -> bool {
    if too_large {
        e matches Error::IntegerTooLargeForType(v, t) && v@ == value && t@ == type_text
    } else {
        e matches Error::IntegerTooSmallForType(v, t) && v@ == value && t@ == type_text
    }
}

impl TanukiCompileTimeValue {
    /// Casts the value to a type. A value of the type, or any value cast to `Any`, stays as it is;
    /// integer values (compile time integers, `U` and `I`) can be cast between integer types, an error
    /// coming when the value is out of the target type's range; other casts are not implemented.
    /// Whether the cast may lose data does not change what is done.
    pub fn cast_to(self, type_to: &TanukiType, can_be_lossy: bool) -> (r: Result<Self, Error>)
        ensures
            self.type_model() == type_to.model() || type_to.model() is Any ==> r == Ok::<Self, Error>(self),
            !(self.type_model() == type_to.model() || type_to.model() is Any) && self.type_model().is_integer()
                && type_to.model().is_integer() ==> int_cast_holds(self.int_value(), type_to.model(), r),
            !(self.type_model() == type_to.model() || type_to.model() is Any) && self.is_float() && type_to.model().is_integer() ==> (
            match float_truncated(self.float_bits()) {
                None => r matches Err(Error::NotYetImplemented(_)),
                Some(t) => if !can_be_lossy && !float_is_integral(self.float_bits()) {
                    r matches Err(Error::NotYetImplemented(_))
                } else {
                    int_cast_holds(t, type_to.model(), r)
                },
            }),
            !(self.type_model() == type_to.model() || type_to.model() is Any) && !(self.type_model().is_integer()
                && type_to.model().is_integer()) && !(self.is_float() && type_to.model().is_integer()) ==> (r matches Err(
                Error::NotYetImplemented(m),
            ) && (!self.is_float() ==> m@ == cast_error_message(self.spec_print_name(), type_to.model().spec_print_name()))),
        decreases (if self.is_float() { 1int } else { 0int }),
    {
        let type_from = self.get_type();
        if type_from.same_as(type_to) {
            return Ok(self);
        }
        if let TanukiType::Any = type_to {
            return Ok(self);
        }
        let from_integer = match &self {
            TanukiCompileTimeValue::CompileTimeInt(_) | TanukiCompileTimeValue::U(_, _) | TanukiCompileTimeValue::I(_, _) => true,
            _ => false,
        };
        let to_integer = match type_to {
            TanukiType::CompileTimeInt | TanukiType::U(_) | TanukiType::I(_) => true,
            _ => false,
        };
        let float_bits = match &self {
            TanukiCompileTimeValue::CompileTimeFloat(b) => Some(*b),
            TanukiCompileTimeValue::F(_, b) => Some(*b),
            _ => None,
        };
        if let Some(bits) = float_bits {
            if to_integer {
                return match float_to_integer(bits, can_be_lossy) {
                    Some(v) => TanukiCompileTimeValue::CompileTimeInt(v).cast_to(type_to, can_be_lossy),
                    None => {
                        let mut m: Vec<char> = Vec::new();
                        push_str(&mut m, "Casting value ");
                        match &self {
                            TanukiCompileTimeValue::CompileTimeFloat(_) => push_str(&mut m, "Compile Time Float"),
                            _ => push_str(&mut m, "Float"),
                        }
                        push_str(&mut m, " to type ");
                        type_to.print_name(&mut m);
                        Err(Error::NotYetImplemented(m))
                    },
                };
            }
        }
        if !(from_integer && to_integer) {
            let mut m: Vec<char> = Vec::new();
            push_str(&mut m, "Casting value ");
            match &self {
                TanukiCompileTimeValue::CompileTimeFloat(_) => push_str(&mut m, "Compile Time Float"),
                TanukiCompileTimeValue::F(_, _) => push_str(&mut m, "Float"),
                _ => push_chars(&mut m, self.print_name().as_slice()),
            }
            push_str(&mut m, " to type ");
            type_to.print_name(&mut m);
            proof {
                if !self.is_float() {
                    assert(m@ =~= cast_error_message(self.spec_print_name(), type_to.model().spec_print_name()));
                }
            }
            return Err(Error::NotYetImplemented(m));
        }
        let ghost n = self.int_value();
        let value: CtInt = match self {
            TanukiCompileTimeValue::CompileTimeInt(v) => v,
            TanukiCompileTimeValue::U(_, v) => ct_from_u64(v),
            TanukiCompileTimeValue::I(_, v) => ct_from_i64(v),
            _ => ct_from_u64(0),
        };
        match type_to {
            TanukiType::U(bit_width) => {
                let max = if *bit_width >= 64 {
                    proof {
                        vstd::arithmetic::power2::lemma2_to64_rest();
                        if *bit_width > 64 {
                            vstd::arithmetic::power2::lemma_pow2_strictly_increases(64, *bit_width as nat);
                        }
                    }
                    u64::MAX
                } else {
                    low_bits(*bit_width as u64)
                };
                let value_u64 = match ct_to_u64(&value) {
                    Some(v) => v,
                    None => {
                        let name = type_text(type_to);
                        if ct_is_positive(&value) {
                            return Err(Error::IntegerTooLargeForType(value, name));
                        } else {
                            return Err(Error::IntegerTooSmallForType(value, name));
                        }
                    },
                };
                if value_u64 > max {
                    let name = type_text(type_to);
                    return Err(Error::IntegerTooLargeForType(value, name));
                }
                Ok(TanukiCompileTimeValue::U(*bit_width, value_u64))
            },
            TanukiType::I(bit_width) => {
                let shift: u8 = if *bit_width == 0 { 0 } else { *bit_width - 1 };
                let max_u64 = low_bits((shift % 64) as u64);
                proof {
                    if shift % 64 < 63 {
                        vstd::arithmetic::power2::lemma_pow2_strictly_increases((shift % 64) as nat, 63);
                    }
                    vstd::arithmetic::power2::lemma2_to64_rest();
                }
                let max = max_u64 as i64;
                let min = -max - 1;
                let value_i64 = match ct_to_i64(&value) {
                    Some(v) => v,
                    None => {
                        let name = type_text(type_to);
                        if ct_is_positive(&value) {
                            return Err(Error::IntegerTooLargeForType(value, name));
                        } else {
                            return Err(Error::IntegerTooSmallForType(value, name));
                        }
                    },
                };
                if value_i64 < min {
                    let name = type_text(type_to);
                    return Err(Error::IntegerTooSmallForType(value, name));
                }
                if value_i64 > max {
                    let name = type_text(type_to);
                    return Err(Error::IntegerTooLargeForType(value, name));
                }
                Ok(TanukiCompileTimeValue::I(*bit_width, value_i64))
            },
            _ => Ok(TanukiCompileTimeValue::CompileTimeInt(value)),
        }
    }
}

} // verus!
