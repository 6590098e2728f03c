//! Compile time evaluation of Tanuki operators on values known at compile time.
use vstd::arithmetic::power::pow;
use vstd::arithmetic::power2::pow2;
use vstd::prelude::*;

use crate::big_int::{
    ct_add, ct_and, ct_compare, ct_div, ct_from_i64, ct_is_negative, ct_mul, ct_neg, ct_not, ct_or, ct_pow, ct_rem, ct_shl,
    ct_shr, ct_signum, ct_sub, ct_to_u128, ct_to_u32, ct_to_usize, ct_xor, int_and, int_or, int_xor, trunc_div, trunc_rem,
    CtInt,
};
use crate::error::{Error, ErrorAt};
use crate::programming_languages::tanuki::compile_time_value::TanukiCompileTimeValue;
use crate::programming_languages::tanuki::t_type::{types_model, TanukiType, TypeModel};
use crate::programming_languages::tanuki::token::{
    TanukiInfixBinaryOperator, TanukiInfixTernaryOperator, TanukiNullaryOperator, TanukiPostfixUnaryOperator,
    TanukiPrefixUnaryOperator,
};

verus! {

/// What const-compiling an r-value gives.
#[derive(Debug)]
pub struct RValueConstComplicationResult {
    /// Contains a value if the expression always gives the same value.
    pub result_value: Option<TanukiCompileTimeValue>,
    /// Contains a type if the expression always gives a value of the same type.
    pub result_type: Option<TanukiType>,
    /// The expression can be removed and has no side effects if this is true.
    pub is_pure: bool,
}

impl RValueConstComplicationResult {
    /// Nothing known of the expression.
    pub open spec fn is_unknown(&self) -> bool {
        self.result_value is None && self.result_type is None && !self.is_pure
    }

    /// Nothing known of the expression.
    pub fn unknown() -> (r: Self)
        ensures
            r.is_unknown(),
    {
        RValueConstComplicationResult { result_value: None, result_type: None, is_pure: false }
    }
}

/// What an operator gives on integer operands.
pub enum IntOutcome {
    /// The integer value.
    Value(int),
    /// No value known at compile time.
    NoValue,
    DivisionByZero,
    ModuloByZero,
}

/// The integer an infix binary operator gives on two compile time integers.
pub open spec fn infix_int_outcome(op: TanukiInfixBinaryOperator, a: int, b: int) -> IntOutcome {
    match op {
        TanukiInfixBinaryOperator::Addition => IntOutcome::Value(a + b),
        TanukiInfixBinaryOperator::Subtraction => IntOutcome::Value(a - b),
        TanukiInfixBinaryOperator::Multiplication => IntOutcome::Value(a * b),
        TanukiInfixBinaryOperator::Division => if b == 0 {
            IntOutcome::DivisionByZero
        } else {
            IntOutcome::Value(trunc_div(a, b))
        },
        TanukiInfixBinaryOperator::Modulo => if b == 0 {
            IntOutcome::ModuloByZero
        } else {
            IntOutcome::Value(trunc_rem(a, b))
        },
        TanukiInfixBinaryOperator::Exponent => if 0 <= b <= u32::MAX {
            IntOutcome::Value(pow(a, b as nat))
        } else {
            IntOutcome::NoValue
        },
        TanukiInfixBinaryOperator::NonShortCircuitAnd | TanukiInfixBinaryOperator::ShortCircuitAnd => IntOutcome::Value(int_and(a, b)),
        TanukiInfixBinaryOperator::NonShortCircuitOr | TanukiInfixBinaryOperator::ShortCircuitOr => IntOutcome::Value(int_or(a, b)),
        TanukiInfixBinaryOperator::NonShortCircuitXor | TanukiInfixBinaryOperator::ShortCircuitXor => IntOutcome::Value(int_xor(a, b)),
        TanukiInfixBinaryOperator::NonShortCircuitNand | TanukiInfixBinaryOperator::ShortCircuitNand => IntOutcome::Value(
            -int_and(a, b) - 1,
        ),
        TanukiInfixBinaryOperator::NonShortCircuitNor | TanukiInfixBinaryOperator::ShortCircuitNor => IntOutcome::Value(-int_or(a, b) - 1),
        TanukiInfixBinaryOperator::NonShortCircuitXnor | TanukiInfixBinaryOperator::ShortCircuitXnor => IntOutcome::Value(
            -int_xor(a, b) - 1,
        ),
        TanukiInfixBinaryOperator::BitshiftLeft => if 0 <= b <= u128::MAX {
            IntOutcome::Value(a * pow2(b as nat))
        } else {
            IntOutcome::NoValue
        },
        TanukiInfixBinaryOperator::BitshiftRight => if 0 <= b <= u128::MAX {
            IntOutcome::Value(a / (pow2(b as nat) as int))
        } else {
            IntOutcome::NoValue
        },
        TanukiInfixBinaryOperator::ThreeWayCompare => IntOutcome::Value(
            if a == b {
                0
            } else if a > b {
                1
            } else {
                -1
            },
        ),
        TanukiInfixBinaryOperator::Minimum => IntOutcome::Value(if a <= b { a } else { b }),
        TanukiInfixBinaryOperator::Maximum => IntOutcome::Value(if a >= b { a } else { b }),
        _ => IntOutcome::NoValue,
    }
}

/// Whether the operator is one that is evaluated on two operand values.
pub open spec fn is_evaluated_infix(op: TanukiInfixBinaryOperator) -> bool {
    !(op is NoOperator || op is MemberAccess || op is As || op is SaturatingAs || op is WrappingAs || op is TryAs || op is Pipe)
}

/// Whether a result is what const-compiling an infix binary operator gives on what const-compiling
/// its operands gave: nothing known for an operator that is not evaluated or an operand without a
/// value, else the operator's value on the two values, pure when both operands are.
pub open spec fn infix_const_compiled(
    op: TanukiInfixBinaryOperator,
    lhs: RValueConstComplicationResult,
    rhs: RValueConstComplicationResult,
    r: Result<RValueConstComplicationResult, ErrorAt>,
    line: usize,
    column: usize,
) -> bool {
    &&& !is_evaluated_infix(op) || lhs.result_value is None || rhs.result_value is None ==> (r matches Ok(x) && x.is_unknown())
    &&& is_evaluated_infix(op) && lhs.result_value is Some && rhs.result_value is Some ==> match r {
        Ok(x) => {
            &&& infix_evaluation(op, lhs.result_value.unwrap(), rhs.result_value.unwrap(), Ok(x.result_value), line, column)
            &&& x.result_type is None
            &&& x.is_pure == (lhs.is_pure && rhs.is_pure)
        },
        Err(e) => infix_evaluation(op, lhs.result_value.unwrap(), rhs.result_value.unwrap(), Err(e), line, column),
    }
}

/// Whether a const-compiling result is the compile time integer `v`, pure when both operands were.
pub open spec fn folds_to_int(
    r: Result<RValueConstComplicationResult, ErrorAt>,
    v: int,
    lhs: RValueConstComplicationResult,
    rhs: RValueConstComplicationResult,
) -> bool {
    match r {
        Ok(x) => x.is_pure == (lhs.is_pure && rhs.is_pure) && match x.result_value {
            Some(TanukiCompileTimeValue::CompileTimeInt(c)) => c@ == v,
            _ => false,
        },
        Err(_) => false,
    }
}

/// Arithmetic and comparison of two compile time integers is folded into the integer it gives:
/// for `a + b`, `a - b`, `a * b`, `a / b` and `a % b` (truncating, by a divisor other than 0),
/// `a ** b` (for an exponent that fits in 32 bits), the minimum `<<<`, the maximum `>>>` and the
/// three-way comparison `<=>` of known integers, const-compiling gives that integer, pure when both
/// operands are. A divisor of 0 is an error.
pub proof fn law_integer_arithmetic_is_folded(
    op: TanukiInfixBinaryOperator,
    lhs: RValueConstComplicationResult,
    rhs: RValueConstComplicationResult,
    a: CtInt,
    b: CtInt,
    r: Result<RValueConstComplicationResult, ErrorAt>,
    line: usize,
    column: usize,
)
    requires
        infix_const_compiled(op, lhs, rhs, r, line, column),
        lhs.result_value == Some(TanukiCompileTimeValue::CompileTimeInt(a)),
        rhs.result_value == Some(TanukiCompileTimeValue::CompileTimeInt(b)),
    ensures
        op is Addition ==> folds_to_int(r, a@ + b@, lhs, rhs),
        op is Subtraction ==> folds_to_int(r, a@ - b@, lhs, rhs),
        op is Multiplication ==> folds_to_int(r, a@ * b@, lhs, rhs),
        op is Division && b@ != 0 ==> folds_to_int(r, trunc_div(a@, b@), lhs, rhs),
        op is Modulo && b@ != 0 ==> folds_to_int(r, trunc_rem(a@, b@), lhs, rhs),
        (op is Division || op is Modulo) && b@ == 0 ==> r is Err,
        op is Exponent && 0 <= b@ <= u32::MAX ==> folds_to_int(r, pow(a@, b@ as nat), lhs, rhs),
        op is Minimum ==> folds_to_int(r, if a@ <= b@ { a@ } else { b@ }, lhs, rhs),
        op is Maximum ==> folds_to_int(r, if a@ >= b@ { a@ } else { b@ }, lhs, rhs),
        op is ThreeWayCompare ==> folds_to_int(r, if a@ < b@ { -1 } else if a@ == b@ { 0 } else { 1 }, lhs, rhs),
{
}

/// Member access, the casts and the pipe are never evaluated at compile time: const-compiling
/// them gives nothing known, whatever their operands gave.
pub proof fn law_casts_and_pipes_are_not_folded(
    op: TanukiInfixBinaryOperator,
    lhs: RValueConstComplicationResult,
    rhs: RValueConstComplicationResult,
    r: Result<RValueConstComplicationResult, ErrorAt>,
    line: usize,
    column: usize,
)
    requires
        infix_const_compiled(op, lhs, rhs, r, line, column),
        op is MemberAccess || op is As || op is SaturatingAs || op is WrappingAs || op is TryAs || op is Pipe,
    ensures
        r matches Ok(x) && x.is_unknown(),
{
}

/// The types of a type enum, or the type alone.
pub open spec fn enum_members(t: TypeModel) -> Seq<TypeModel> {
    match t {
        TypeModel::TypeEnum(ts) => ts,
        _ => seq![t],
    }
}

/// Types with those of another sequence that are not among them yet added at the end, in order.
pub open spec fn add_missing_types(base: Seq<TypeModel>, more: Seq<TypeModel>) -> Seq<TypeModel>
    decreases more.len(),
{
    if more.len() == 0 {
        base
    } else {
        let before = add_missing_types(base, more.drop_last());
        if before.contains(more.last()) {
            before
        } else {
            before.push(more.last())
        }
    }
}

/// The type enum of `|` on two types: the types of the first, then those of the second that are
/// not already there.
pub open spec fn type_union(l: TypeModel, r: TypeModel) -> Seq<TypeModel> {
    add_missing_types(enum_members(l), enum_members(r))
}

/// Whether an error is one placed at a line and column.
pub open spec fn is_at(e: ErrorAt, line: usize, column: usize) -> bool {
    e.line == Some(line) && e.column == Some(column) && e.file is None
}

/// Whether an infix operator on two values would make the integer library panic: a left shift of
/// a nonzero integer by 2^64 bits or more.
pub open spec fn infix_panics(op: TanukiInfixBinaryOperator, lhs: TanukiCompileTimeValue, rhs: TanukiCompileTimeValue) -> bool {
    &&& op is BitshiftLeft
    &&& lhs matches TanukiCompileTimeValue::CompileTimeInt(a) && a@ != 0
    &&& rhs matches TanukiCompileTimeValue::CompileTimeInt(b) && b@ >= 0x1_0000_0000_0000_0000
}

/// Whether a result is what an infix binary operator gives on two compile time values: integer
/// arithmetic, bitwise and comparison operators on compile time integers, and `|` on two types,
/// which gives their type enum; nothing for anything else.
pub open spec fn infix_evaluation(
    self_op: TanukiInfixBinaryOperator,
    lhs: TanukiCompileTimeValue,
    rhs: TanukiCompileTimeValue,
    r: Result<Option<TanukiCompileTimeValue>, ErrorAt>,
    line: usize,
    column: usize,
) -> bool {
    &&& (lhs is CompileTimeInt && rhs is CompileTimeInt) ==> match infix_int_outcome(self_op, lhs.int_value(), rhs.int_value()) {
        IntOutcome::Value(v) => r matches Ok(Some(TanukiCompileTimeValue::CompileTimeInt(c))) && c@ == v,
        IntOutcome::NoValue => r == Ok::<Option<TanukiCompileTimeValue>, ErrorAt>(None),
        IntOutcome::DivisionByZero => r matches Err(e) && e.error is DivisionByZero && is_at(e, line, column),
        IntOutcome::ModuloByZero => r matches Err(e) && e.error is ModuloByZero && is_at(e, line, column),
    }
    &&& (self_op is NonShortCircuitOr && lhs is Type && rhs is Type) ==> (r matches Ok(Some(TanukiCompileTimeValue::Type(t)))
        && t.model() == TypeModel::TypeEnum(type_union(lhs->Type_0.model(), rhs->Type_0.model())))
    &&& !(lhs is CompileTimeInt && rhs is CompileTimeInt) && !(self_op is NonShortCircuitOr && lhs is Type && rhs is Type) ==> r
        == Ok::<Option<TanukiCompileTimeValue>, ErrorAt>(None)
}

/// Whether a sequence of types holds one with the model of a type.
fn holds_type(ts: &Vec<TanukiType>, t: &TanukiType) -> (r: bool)
    ensures
        r == types_model(ts@).contains(t.model()),
{
    proof {
        crate::programming_languages::tanuki::t_type::lemma_types_model(ts@);
    }
    let mut i: usize = 0;
    while i < ts.len()
        invariant
            i <= ts@.len(),
            types_model(ts@).len() == ts@.len(),
            forall|j: int| 0 <= j < ts@.len() ==> #[trigger] types_model(ts@)[j] == ts@[j].model(),
            forall|j: int| 0 <= j < i ==> ts@[j].model() != t.model(),
        decreases ts@.len() - i,
    {
        if ts[i].same_as(t) {
            proof {
                assert(types_model(ts@)[i as int] == t.model());
            }
            return true;
        }
        i = i + 1;
    }
    false
}

/// The type enum of `|` on two types.
fn union_types(l: TanukiType, r: TanukiType) -> (out: TanukiType)
    ensures
        out.model() == TypeModel::TypeEnum(type_union(l.model(), r.model())),
{
    proof {
        crate::programming_languages::tanuki::t_type::lemma_types_model(Seq::<TanukiType>::empty());
    }
    let ghost lm = l.model();
    let ghost rm = r.model();
    let mut types: Vec<TanukiType> = match l {
        TanukiType::TypeEnum(ls) => ls,
        other => {
            let mut v: Vec<TanukiType> = Vec::new();
            v.push(other);
            proof {
                crate::programming_languages::tanuki::t_type::lemma_types_model(v@);
                assert(types_model(v@) =~= seq![lm]);
            }
            v
        },
    };
    assert(types_model(types@) == enum_members(lm));
    let more: Vec<TanukiType> = match r {
        TanukiType::TypeEnum(rs) => rs,
        other => {
            let mut v: Vec<TanukiType> = Vec::new();
            v.push(other);
            proof {
                crate::programming_languages::tanuki::t_type::lemma_types_model(v@);
                assert(types_model(v@) =~= seq![rm]);
            }
            v
        },
    };
    assert(types_model(more@) == enum_members(rm));
    let ghost more_model = types_model(more@);
    let mut rest = more;
    let mut taken: Vec<TanukiType> = Vec::new();
    proof {
        crate::programming_languages::tanuki::t_type::lemma_types_model(rest@);
    }
    let mut i: usize = 0;
    let n = rest.len();
    while i < n
        invariant
            n == rest@.len(),
            i <= n,
            more_model == types_model(rest@),
            types_model(types@) == add_missing_types(enum_members(lm), more_model.take(i as int)),
        decreases n - i,
    {
        proof {
            crate::programming_languages::tanuki::t_type::lemma_types_model(rest@);
            crate::programming_languages::tanuki::t_type::lemma_types_model(types@);
            assert(more_model.take(i + 1).drop_last() =~= more_model.take(i as int));
            assert(more_model.take(i + 1).last() == rest@[i as int].model());
        }
        let t = rest[i].deep_clone();
        if !holds_type(&types, &t) {
            let ghost before = types@;
            types.push(t);
            proof {
                crate::programming_languages::tanuki::t_type::lemma_types_model(types@);
                crate::programming_languages::tanuki::t_type::lemma_types_model(before);
                assert(types_model(types@) =~= types_model(before).push(rest@[i as int].model()));
            }
        }
        i = i + 1;
    }
    proof {
        assert(more_model.take(n as int) =~= more_model);
    }
    TanukiType::TypeEnum(types)
}

impl TanukiInfixBinaryOperator {
    /// Whether the operator is evaluated on its operands' values.
    pub fn is_evaluated(self) -> (r: bool)
        ensures
            r == is_evaluated_infix(self),
    {
        match self {
            TanukiInfixBinaryOperator::NoOperator | TanukiInfixBinaryOperator::MemberAccess | TanukiInfixBinaryOperator::As
            | TanukiInfixBinaryOperator::SaturatingAs | TanukiInfixBinaryOperator::WrappingAs | TanukiInfixBinaryOperator::TryAs
            | TanukiInfixBinaryOperator::Pipe => false,
            _ => true,
        }
    }

    /// The value an infix binary operator gives on two compile time values, if it can be known:
    /// integer arithmetic, bitwise and comparison operators on compile time integers, and `|` on
    /// two types, which gives their type enum.
    pub fn evaluate(self, lhs: TanukiCompileTimeValue, rhs: TanukiCompileTimeValue, line: usize, column: usize) -> (r: Result<
        Option<TanukiCompileTimeValue>,
        ErrorAt,
    >)
        requires
            !infix_panics(self, lhs, rhs),
        ensures
            infix_evaluation(self, lhs, rhs, r, line, column),
    {
        match (lhs, rhs) {
            (TanukiCompileTimeValue::CompileTimeInt(a), TanukiCompileTimeValue::CompileTimeInt(b)) => {
                let value: CtInt = match self {
                    TanukiInfixBinaryOperator::Addition => ct_add(&a, &b),
                    TanukiInfixBinaryOperator::Subtraction => ct_sub(&a, &b),
                    TanukiInfixBinaryOperator::Multiplication => ct_mul(&a, &b),
                    TanukiInfixBinaryOperator::Division => {
                        if ct_compare(&b, &ct_from_i64(0)) == 0 {
                            return Err(Error::DivisionByZero.at(Some(line), Some(column), None));
                        }
                        ct_div(&a, &b)
                    },
                    TanukiInfixBinaryOperator::Modulo => {
                        if ct_compare(&b, &ct_from_i64(0)) == 0 {
                            return Err(Error::ModuloByZero.at(Some(line), Some(column), None));
                        }
                        ct_rem(&a, &b)
                    },
                    TanukiInfixBinaryOperator::Exponent => match ct_to_u32(&b) {
                        Some(e) => ct_pow(&a, e),
                        None => return Ok(None),
                    },
                    TanukiInfixBinaryOperator::NonShortCircuitAnd | TanukiInfixBinaryOperator::ShortCircuitAnd => ct_and(&a, &b),
                    TanukiInfixBinaryOperator::NonShortCircuitOr | TanukiInfixBinaryOperator::ShortCircuitOr => ct_or(&a, &b),
                    TanukiInfixBinaryOperator::NonShortCircuitXor | TanukiInfixBinaryOperator::ShortCircuitXor => ct_xor(&a, &b),
                    TanukiInfixBinaryOperator::NonShortCircuitNand | TanukiInfixBinaryOperator::ShortCircuitNand => ct_not(&ct_and(&a, &b)),
                    TanukiInfixBinaryOperator::NonShortCircuitNor | TanukiInfixBinaryOperator::ShortCircuitNor => ct_not(&ct_or(&a, &b)),
                    TanukiInfixBinaryOperator::NonShortCircuitXnor | TanukiInfixBinaryOperator::ShortCircuitXnor => ct_not(&ct_xor(&a, &b)),
                    TanukiInfixBinaryOperator::BitshiftLeft => match ct_to_u128(&b) {
                        Some(n) => ct_shl(&a, n),
                        None => return Ok(None),
                    },
                    TanukiInfixBinaryOperator::BitshiftRight => match ct_to_u128(&b) {
                        Some(n) => ct_shr(&a, n),
                        None => return Ok(None),
                    },
                    TanukiInfixBinaryOperator::ThreeWayCompare => {
                        let c = ct_compare(&a, &b);
                        if c == 0 {
                            ct_from_i64(0)
                        } else if c > 0 {
                            ct_from_i64(1)
                        } else {
                            ct_from_i64(-1)
                        }
                    },
                    TanukiInfixBinaryOperator::Minimum => {
                        if ct_compare(&a, &b) <= 0 {
                            a
                        } else {
                            b
                        }
                    },
                    TanukiInfixBinaryOperator::Maximum => {
                        if ct_compare(&a, &b) >= 0 {
                            a
                        } else {
                            b
                        }
                    },
                    _ => return Ok(None),
                };
                Ok(Some(TanukiCompileTimeValue::CompileTimeInt(value)))
            },
            (TanukiCompileTimeValue::Type(l), TanukiCompileTimeValue::Type(r)) => {
                if let TanukiInfixBinaryOperator::NonShortCircuitOr = self {
                    Ok(Some(TanukiCompileTimeValue::Type(union_types(l, r))))
                } else {
                    Ok(None)
                }
            },
            _ => Ok(None),
        }
    }

    /// Const-compiles the operator as an r-value from what const-compiling its operands gave: when
    /// both are values, the value it gives on them (pure when both are); else nothing is known.
    /// Member access, casts and pipes are not const-compiled.
    pub fn const_compile_r_value(
        self,
        lhs: RValueConstComplicationResult,
        rhs: RValueConstComplicationResult,
        line: usize,
        column: usize,
    ) -> (r: Result<RValueConstComplicationResult, ErrorAt>)
        requires
            !(self is NoOperator),
            lhs.result_value is Some && rhs.result_value is Some ==> !infix_panics(
                self,
                lhs.result_value.unwrap(),
                rhs.result_value.unwrap(),
            ),
        ensures
            infix_const_compiled(self, lhs, rhs, r, line, column),
    {
        if !self.is_evaluated() {
            return Ok(RValueConstComplicationResult::unknown());
        }
        let (l, rv) = match (lhs.result_value, rhs.result_value) {
            (Some(l), Some(rv)) => (l, rv),
            _ => return Ok(RValueConstComplicationResult::unknown()),
        };
        let value = self.evaluate(l, rv, line, column)?;
        Ok(RValueConstComplicationResult { result_value: value, result_type: None, is_pure: lhs.is_pure && rhs.is_pure })
    }
}


/// The integer a prefix unary operator gives on a compile time integer, if it can be known.
pub open spec fn prefix_int_value(op: TanukiPrefixUnaryOperator, a: int) -> Option<int> {
    match op {
        TanukiPrefixUnaryOperator::Read => Some(a),
        TanukiPrefixUnaryOperator::Not => Some(-a - 1),
        TanukiPrefixUnaryOperator::Negation => Some(-a),
        TanukiPrefixUnaryOperator::Square => Some(a * a),
        TanukiPrefixUnaryOperator::BitshiftLeftOne => Some(a * 2),
        TanukiPrefixUnaryOperator::BitshiftRightOne => Some(a / 2),
        TanukiPrefixUnaryOperator::Signum => Some(
            if a < 0 {
                -1
            } else if a == 0 {
                0
            } else {
                1
            },
        ),
        _ => None,
    }
}

/// Whether a prefix unary operator is evaluated on its operand's value.
pub open spec fn is_evaluated_prefix(op: TanukiPrefixUnaryOperator) -> bool {
    !(op is AddressOf || op is Increment || op is SaturatingIncrement || op is WrappingIncrement || op is Decrement
        || op is SaturatingDecrement || op is WrappingDecrement || op is MemberAccess)
}

/// Whether a result is what a prefix unary operator gives on a compile time value: the value
/// itself for `+`, integer operators on compile time integers, and `*` on a type, which gives the
/// type of pointers to it; nothing for anything else.
pub open spec fn prefix_evaluation(op: TanukiPrefixUnaryOperator, operand: TanukiCompileTimeValue, r: Option<TanukiCompileTimeValue>) -> bool {
    if op is Read {
        r == Some(operand)
    } else if operand is CompileTimeInt {
        match prefix_int_value(op, operand.int_value()) {
            Some(v) => r matches Some(TanukiCompileTimeValue::CompileTimeInt(c)) && c@ == v,
            None => r is None,
        }
    } else if op is Dereference && operand is Type {
        r matches Some(TanukiCompileTimeValue::Type(t)) && t.model() == TypeModel::Pointer(Box::new(operand->Type_0.model()))
    } else {
        r is None
    }
}

/// Whether a result is what const-compiling a prefix unary operator gives on what const-compiling
/// its operand gave: the operator's value on the operand's value, pure when the operand is; nothing
/// known for an operator that is not evaluated or an operand without a value.
pub open spec fn prefix_const_compiled(
    op: TanukiPrefixUnaryOperator,
    operand: RValueConstComplicationResult,
    r: Result<RValueConstComplicationResult, ErrorAt>,
) -> bool {
    r matches Ok(x) && if is_evaluated_prefix(op) && operand.result_value is Some {
        &&& prefix_evaluation(op, operand.result_value.unwrap(), x.result_value)
        &&& x.result_type is None
        &&& x.is_pure == operand.is_pure
    } else {
        x.is_unknown()
    }
}

/// Whether a const-compiling result is the compile time integer `v`, pure when the operand was.
pub open spec fn folds_unary_to_int(r: Result<RValueConstComplicationResult, ErrorAt>, v: int, operand: RValueConstComplicationResult) -> bool {
    match r {
        Ok(x) => x.is_pure == operand.is_pure && match x.result_value {
            Some(TanukiCompileTimeValue::CompileTimeInt(c)) => c@ == v,
            _ => false,
        },
        Err(_) => false,
    }
}

/// Prefix operators on a compile time integer are folded into the integer they give: `+a` is `a`,
/// `-a` is its negation, `!a` its bitwise complement `-a - 1`, `**a` its square, `<<a` twice it,
/// `>>a` half of it rounded down and `<=>a` its sign. Address-of, the increments and decrements
/// and member access are never evaluated.
pub proof fn law_prefix_integer_operators_are_folded(
    op: TanukiPrefixUnaryOperator,
    operand: RValueConstComplicationResult,
    a: CtInt,
    r: Result<RValueConstComplicationResult, ErrorAt>,
)
    requires
        prefix_const_compiled(op, operand, r),
    ensures
        operand.result_value == Some(TanukiCompileTimeValue::CompileTimeInt(a)) ==> {
            &&& op is Read ==> folds_unary_to_int(r, a@, operand)
            &&& op is Negation ==> folds_unary_to_int(r, -a@, operand)
            &&& op is Not ==> folds_unary_to_int(r, -a@ - 1, operand)
            &&& op is Square ==> folds_unary_to_int(r, a@ * a@, operand)
            &&& op is BitshiftLeftOne ==> folds_unary_to_int(r, 2 * a@, operand)
            &&& op is BitshiftRightOne ==> folds_unary_to_int(r, if a@ >= 0 { a@ / 2 } else { -((-a@ + 1) / 2) }, operand)
            &&& op is Signum ==> folds_unary_to_int(r, if a@ < 0 { -1 } else if a@ == 0 { 0 } else { 1 }, operand)
        },
        op is AddressOf || op is Increment || op is SaturatingIncrement || op is WrappingIncrement || op is Decrement
            || op is SaturatingDecrement || op is WrappingDecrement || op is MemberAccess ==> (r matches Ok(x) && x.is_unknown()),
{
}

impl TanukiPrefixUnaryOperator {
    /// The value the operator gives on a compile time value, if it can be known.
    pub fn evaluate(self, operand: TanukiCompileTimeValue) -> (r: Option<TanukiCompileTimeValue>)
        ensures
            prefix_evaluation(self, operand, r),
    {
        if let TanukiPrefixUnaryOperator::Read = self {
            return Some(operand);
        }
        match operand {
            TanukiCompileTimeValue::CompileTimeInt(a) => {
                let value = match self {
                    TanukiPrefixUnaryOperator::Not => ct_not(&a),
                    TanukiPrefixUnaryOperator::Negation => ct_neg(&a),
                    TanukiPrefixUnaryOperator::Square => ct_mul(&a, &a),
                    TanukiPrefixUnaryOperator::BitshiftLeftOne => {
                        let r = ct_shl(&a, 1);
                        proof {
                            vstd::arithmetic::power2::lemma2_to64();
                        }
                        r
                    },
                    TanukiPrefixUnaryOperator::BitshiftRightOne => {
                        let r = ct_shr(&a, 1);
                        proof {
                            vstd::arithmetic::power2::lemma2_to64();
                        }
                        r
                    },
                    TanukiPrefixUnaryOperator::Signum => ct_signum(&a),
                    _ => return None,
                };
                Some(TanukiCompileTimeValue::CompileTimeInt(value))
            },
            TanukiCompileTimeValue::Type(t) => {
                if let TanukiPrefixUnaryOperator::Dereference = self {
                    Some(TanukiCompileTimeValue::Type(TanukiType::Pointer(Box::new(t))))
                } else {
                    None
                }
            },
            _ => None,
        }
    }

    /// Whether the operator is evaluated on its operand's value.
    pub fn is_evaluated(self) -> (r: bool)
        ensures
            r == is_evaluated_prefix(self),
    {
        match self {
            TanukiPrefixUnaryOperator::AddressOf | TanukiPrefixUnaryOperator::Increment | TanukiPrefixUnaryOperator::SaturatingIncrement
            | TanukiPrefixUnaryOperator::WrappingIncrement | TanukiPrefixUnaryOperator::Decrement
            | TanukiPrefixUnaryOperator::SaturatingDecrement | TanukiPrefixUnaryOperator::WrappingDecrement
            | TanukiPrefixUnaryOperator::MemberAccess => false,
            _ => true,
        }
    }

    /// Const-compiles the operator as an r-value from what const-compiling its operand gave: when
    /// it is a value, the value the operator gives on it (pure when the operand is); else nothing is
    /// known. Operators on l-values and member access are not const-compiled.
    pub fn const_compile_r_value(self, operand: RValueConstComplicationResult) -> (r: Result<RValueConstComplicationResult, ErrorAt>)
        ensures
            prefix_const_compiled(self, operand, r),
    {
        if !self.is_evaluated() {
            return Ok(RValueConstComplicationResult::unknown());
        }
        let value = match operand.result_value {
            Some(value) => value,
            None => return Ok(RValueConstComplicationResult::unknown()),
        };
        Ok(RValueConstComplicationResult { result_value: self.evaluate(value), result_type: None, is_pure: operand.is_pure })
    }
}

/// Whether a postfix unary operator is evaluated on its operand's value.
pub open spec fn is_evaluated_postfix(op: TanukiPostfixUnaryOperator) -> bool {
    !(op is Increment || op is SaturatingIncrement || op is WrappingIncrement || op is Decrement || op is SaturatingDecrement
        || op is WrappingDecrement)
}

/// The factorial of a natural number: the product of 1 up to it, 1 for 0.
pub open spec fn factorial(n: nat) -> nat
    decreases n,
{
    if n == 0 {
        1
    } else {
        factorial((n - 1) as nat) * n
    }
}

/// Whether a result is what a postfix unary operator gives on a compile time value: `%` divides a
/// compile time integer by 100; `!` gives the factorial of the integer, refusing a negative integer
/// or one above the largest `usize`; nothing for anything else.
pub open spec fn postfix_evaluation(
    op: TanukiPostfixUnaryOperator,
    operand: TanukiCompileTimeValue,
    r: Result<Option<TanukiCompileTimeValue>, ErrorAt>,
    line: usize,
    column: usize,
) -> bool {
    if op is Percent && operand is CompileTimeInt {
        r matches Ok(Some(TanukiCompileTimeValue::CompileTimeInt(c))) && c@ == trunc_div(operand.int_value(), 100)
    } else if op is Factorial && operand is CompileTimeInt {
        if operand.int_value() < 0 {
            r matches Err(e) && e.error is NegativeFactorial && is_at(e, line, column)
        } else if operand.int_value() > usize::MAX {
            r matches Err(e) && e.error is IntegerOverflow && is_at(e, line, column)
        } else {
            r matches Ok(Some(TanukiCompileTimeValue::CompileTimeInt(c))) && c@ == factorial(operand.int_value() as nat)
        }
    } else {
        r == Ok::<Option<TanukiCompileTimeValue>, ErrorAt>(None)
    }
}

/// Whether a result is what const-compiling a postfix unary operator gives on what const-compiling
/// its operand gave: the operator's value on the operand's value (or its error), pure when the
/// operand is; nothing known for an operator that is not evaluated or an operand without a value.
pub open spec fn postfix_const_compiled(
    op: TanukiPostfixUnaryOperator,
    operand: RValueConstComplicationResult,
    r: Result<RValueConstComplicationResult, ErrorAt>,
    line: usize,
    column: usize,
) -> bool {
    &&& !is_evaluated_postfix(op) || operand.result_value is None ==> (r matches Ok(x) && x.is_unknown())
    &&& is_evaluated_postfix(op) && operand.result_value is Some ==> match r {
        Ok(x) => {
            &&& postfix_evaluation(op, operand.result_value.unwrap(), Ok(x.result_value), line, column)
            &&& x.result_type is None
            &&& x.is_pure == operand.is_pure
        },
        Err(e) => postfix_evaluation(op, operand.result_value.unwrap(), Err(e), line, column),
    }
}

/// The factorial is the product of 1 up to the number: 1 for 0, and `n` times the factorial of
/// `n - 1` above it, so it is never 0.
pub proof fn law_factorial_is_the_product(n: nat)
    ensures
        factorial(0) == 1,
        n > 0 ==> factorial(n) == n * factorial((n - 1) as nat),
        factorial(n) >= 1,
    decreases n,
{
    assert(factorial(0) == 1);
    if n > 0 {
        law_factorial_is_the_product((n - 1) as nat);
        let p = factorial((n - 1) as nat);
        assert(factorial(n) == p * n);
        assert(p * n == n * p && n * p >= 1) by (nonlinear_arith)
            requires
                n >= 1,
                p >= 1,
        ;
    }
}

/// Postfix operators on a compile time integer are folded: `n!` is the factorial of `n` (an error
/// for a negative `n`), and `a%` is `a / 100` truncated. The increments and decrements are never
/// evaluated.
pub proof fn law_postfix_integer_operators_are_folded(
    op: TanukiPostfixUnaryOperator,
    operand: RValueConstComplicationResult,
    a: CtInt,
    r: Result<RValueConstComplicationResult, ErrorAt>,
    line: usize,
    column: usize,
)
    requires
        postfix_const_compiled(op, operand, r, line, column),
    ensures
        operand.result_value == Some(TanukiCompileTimeValue::CompileTimeInt(a)) ==> {
            &&& op is Factorial && 0 <= a@ <= usize::MAX ==> folds_unary_to_int(r, factorial(a@ as nat) as int, operand)
            &&& op is Factorial && a@ < 0 ==> (r matches Err(e) && e.error is NegativeFactorial)
            &&& op is Percent ==> folds_unary_to_int(r, trunc_div(a@, 100), operand)
        },
        op is Increment || op is SaturatingIncrement || op is WrappingIncrement || op is Decrement || op is SaturatingDecrement
            || op is WrappingDecrement ==> (r matches Ok(x) && x.is_unknown()),
{
}

impl TanukiPostfixUnaryOperator {
    /// The value the operator gives on a compile time value, if it can be known. Errors are placed
    /// at the operand's start.
    pub fn evaluate(self, operand: TanukiCompileTimeValue, line: usize, column: usize) -> (r: Result<
        Option<TanukiCompileTimeValue>,
        ErrorAt,
    >)
        ensures
            postfix_evaluation(self, operand, r, line, column),
    {
        let a = match operand {
            TanukiCompileTimeValue::CompileTimeInt(a) => a,
            _ => return Ok(None),
        };
        match self {
            TanukiPostfixUnaryOperator::Percent => {
                let hundred = ct_from_i64(100);
                Ok(Some(TanukiCompileTimeValue::CompileTimeInt(ct_div(&a, &hundred))))
            },
            TanukiPostfixUnaryOperator::Factorial => {
                if ct_is_negative(&a) {
                    return Err(Error::NegativeFactorial.at(Some(line), Some(column), None));
                }
                let n = match ct_to_usize(&a) {
                    Some(n) => n,
                    None => return Err(Error::IntegerOverflow.at(Some(line), Some(column), None)),
                };
                let mut result = ct_from_i64(1);
                let mut x: usize = 0;
                while x < n
                    invariant
                        x <= n,
                        result@ == factorial(x as nat),
                    decreases n - x,
                {
                    x = x + 1;
                    let factor = crate::big_int::ct_from_u64(x as u64);
                    result = ct_mul(&result, &factor);
                }
                Ok(Some(TanukiCompileTimeValue::CompileTimeInt(result)))
            },
            _ => Ok(None),
        }
    }

    /// Whether the operator is evaluated on its operand's value.
    pub fn is_evaluated(self) -> (r: bool)
        ensures
            r == is_evaluated_postfix(self),
    {
        match self {
            TanukiPostfixUnaryOperator::Increment | TanukiPostfixUnaryOperator::SaturatingIncrement
            | TanukiPostfixUnaryOperator::WrappingIncrement | TanukiPostfixUnaryOperator::Decrement
            | TanukiPostfixUnaryOperator::SaturatingDecrement | TanukiPostfixUnaryOperator::WrappingDecrement => false,
            _ => true,
        }
    }

    /// Const-compiles the operator as an r-value from what const-compiling its operand gave: when
    /// it is a value, the value the operator gives on it (pure when the operand is); else nothing is
    /// known. Increments and decrements are not const-compiled.
    pub fn const_compile_r_value(self, operand: RValueConstComplicationResult, line: usize, column: usize) -> (r: Result<
        RValueConstComplicationResult,
        ErrorAt,
    >)
        ensures
            postfix_const_compiled(self, operand, r, line, column),
    {
        if !self.is_evaluated() {
            return Ok(RValueConstComplicationResult::unknown());
        }
        let value = match operand.result_value {
            Some(value) => value,
            None => return Ok(RValueConstComplicationResult::unknown()),
        };
        let result_value = self.evaluate(value, line, column)?;
        Ok(RValueConstComplicationResult { result_value, result_type: None, is_pure: operand.is_pure })
    }
}

impl TanukiInfixTernaryOperator {
    /// Const-compiles the operator as an r-value from what const-compiling its operands gave: no
    /// conditional is evaluated at compile time yet, so nothing is known.
    pub fn const_compile_r_value(
        self,
        lhs: RValueConstComplicationResult,
        mhs: RValueConstComplicationResult,
        rhs: RValueConstComplicationResult,
    ) -> (r: Result<RValueConstComplicationResult, ErrorAt>)
        ensures
            r matches Ok(x) && x.is_unknown(),
    {
        Ok(RValueConstComplicationResult::unknown())
    }
}

impl TanukiNullaryOperator {
    /// Const-compiles the operator as an r-value: nothing is known of it at compile time.
    pub fn const_compile_r_value(self) -> (r: Result<RValueConstComplicationResult, ErrorAt>)
        ensures
            r matches Ok(x) && x.is_unknown(),
    {
        Ok(RValueConstComplicationResult::unknown())
    }
}

} // verus!
