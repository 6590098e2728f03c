//! Const-compilation of Tanuki expressions: what is known of an expression's value and type at
//! compile time, with the expression replaced by its value where that is known and pure.
use vstd::prelude::*;

use crate::big_int::{clone_ct, ct_is_positive, ct_to_i64, ct_to_u64, ct_to_u8, CtInt};
use crate::error::{Error, ErrorAt};
use crate::programming_languages::tanuki::compile_time_value::TanukiCompileTimeValue;
use crate::programming_languages::tanuki::const_compile::{
    factorial, infix_int_outcome, infix_panics, is_evaluated_infix, prefix_int_value, IntOutcome, RValueConstComplicationResult,
};
use crate::big_int::trunc_div;
use crate::programming_languages::tanuki::expression::{TanukiExpression, TanukiExpressionVariant};
use crate::programming_languages::tanuki::global_constant::TanukiGlobalConstant;
use crate::programming_languages::tanuki::parse::TanukiModule;
use crate::programming_languages::tanuki::t_type::{clone_types, same_types, types_model, TanukiType, TypeModel};
use crate::programming_languages::tanuki::token::{
    TanukiInfixBinaryOperator, TanukiPostfixUnaryOperator, TanukiPrefixUnaryOperator,
};
use crate::text::{chars_eq, clone_chars, str_to_chars};

verus! {

/// A local variable in scope: its name, its type, and its value when it is known at compile time.
#[derive(Debug)]
pub struct LocalVariable {
    pub name: Vec<char>,
    pub t_type: TanukiType,
    pub value: Option<TanukiCompileTimeValue>,
}

/// An l-value known at compile time.
#[derive(Debug)]
pub enum CompileTimeLValue {
    /// A local variable in a given block.
    LocalVariable { name: Vec<char>, block_level: usize },
}

/// Whether two compile time values are the same value.
pub open spec fn same_value(a: TanukiCompileTimeValue, b: TanukiCompileTimeValue) -> bool {
    match (a, b) {
        (TanukiCompileTimeValue::CompileTimeInt(x), TanukiCompileTimeValue::CompileTimeInt(y)) => x@ == y@,
        (TanukiCompileTimeValue::CompileTimeFloat(x), TanukiCompileTimeValue::CompileTimeFloat(y)) => x == y,
        (TanukiCompileTimeValue::CompileTimeChar(x), TanukiCompileTimeValue::CompileTimeChar(y)) => x == y,
        (TanukiCompileTimeValue::CompileTimeString(x), TanukiCompileTimeValue::CompileTimeString(y)) => x@ == y@,
        (TanukiCompileTimeValue::Type(x), TanukiCompileTimeValue::Type(y)) => x.model() == y.model(),
        (TanukiCompileTimeValue::Void, TanukiCompileTimeValue::Void) => true,
        (TanukiCompileTimeValue::U(w, x), TanukiCompileTimeValue::U(v, y)) => w == v && x == y,
        (TanukiCompileTimeValue::I(w, x), TanukiCompileTimeValue::I(v, y)) => w == v && x == y,
        (TanukiCompileTimeValue::F(w, x), TanukiCompileTimeValue::F(v, y)) => w == v && x == y,
        (TanukiCompileTimeValue::Bool(x), TanukiCompileTimeValue::Bool(y)) => x == y,
        (TanukiCompileTimeValue::FunctionPointer(n, p, r, ps), TanukiCompileTimeValue::FunctionPointer(m, q, s, qs)) => n@ == m@
            && p@ == q@ && r.model() == s.model() && types_model(ps@) == types_model(qs@),
        (TanukiCompileTimeValue::LinkedFunctionPointer(n, r, ps), TanukiCompileTimeValue::LinkedFunctionPointer(m, s, qs)) => n@
            == m@ && r.model() == s.model() && types_model(ps@) == types_model(qs@),
        _ => false,
    }
}

/// Whether two compile time values are the same value.
pub fn values_same(a: &TanukiCompileTimeValue, b: &TanukiCompileTimeValue) -> (r: bool)
    ensures
        r == same_value(*a, *b),
{
    match (a, b) {
        (TanukiCompileTimeValue::CompileTimeInt(x), TanukiCompileTimeValue::CompileTimeInt(y)) => {
            same_limbs(x, y)
        },
        (TanukiCompileTimeValue::CompileTimeFloat(x), TanukiCompileTimeValue::CompileTimeFloat(y)) => *x == *y,
        (TanukiCompileTimeValue::CompileTimeChar(x), TanukiCompileTimeValue::CompileTimeChar(y)) => *x == *y,
        (TanukiCompileTimeValue::CompileTimeString(x), TanukiCompileTimeValue::CompileTimeString(y)) => chars_eq(
            x.as_slice(),
            y.as_slice(),
        ),
        (TanukiCompileTimeValue::Type(x), TanukiCompileTimeValue::Type(y)) => x.same_as(y),
        (TanukiCompileTimeValue::Void, TanukiCompileTimeValue::Void) => true,
        (TanukiCompileTimeValue::U(w, x), TanukiCompileTimeValue::U(v, y)) => *w == *v && *x == *y,
        (TanukiCompileTimeValue::I(w, x), TanukiCompileTimeValue::I(v, y)) => *w == *v && *x == *y,
        (TanukiCompileTimeValue::F(w, x), TanukiCompileTimeValue::F(v, y)) => *w == *v && *x == *y,
        (TanukiCompileTimeValue::Bool(x), TanukiCompileTimeValue::Bool(y)) => *x == *y,
        (TanukiCompileTimeValue::FunctionPointer(n, p, r, ps), TanukiCompileTimeValue::FunctionPointer(m, q, s, qs)) => {
            chars_eq(n.as_slice(), m.as_slice()) && chars_eq(p.as_slice(), q.as_slice()) && r.same_as(s) && same_types(ps, qs)
        },
        (TanukiCompileTimeValue::LinkedFunctionPointer(n, r, ps), TanukiCompileTimeValue::LinkedFunctionPointer(m, s, qs)) => {
            chars_eq(n.as_slice(), m.as_slice()) && r.same_as(s) && same_types(ps, qs)
        },
        _ => false,
    }
}

/// Whether two integers are the same value: their difference is zero.
fn same_limbs(x: &CtInt, y: &CtInt) -> (r: bool)
    ensures
        r == (x@ == y@),
{
    let difference = crate::big_int::ct_sub(x, y);
    match ct_to_i64(&difference) {
        Some(d) => d == 0,
        None => false,
    }
}

/// A copy of a compile time value.
pub fn clone_value(v: &TanukiCompileTimeValue) -> (r: TanukiCompileTimeValue)
    ensures
        same_value(r, *v),
        r.type_model() == v.type_model(),
{
    match v {
        TanukiCompileTimeValue::CompileTimeInt(x) => TanukiCompileTimeValue::CompileTimeInt(clone_ct(x)),
        TanukiCompileTimeValue::CompileTimeFloat(x) => TanukiCompileTimeValue::CompileTimeFloat(*x),
        TanukiCompileTimeValue::CompileTimeChar(x) => TanukiCompileTimeValue::CompileTimeChar(*x),
        TanukiCompileTimeValue::CompileTimeString(x) => TanukiCompileTimeValue::CompileTimeString(clone_chars(x)),
        TanukiCompileTimeValue::Type(x) => TanukiCompileTimeValue::Type(x.deep_clone()),
        TanukiCompileTimeValue::Void => TanukiCompileTimeValue::Void,
        TanukiCompileTimeValue::U(w, x) => TanukiCompileTimeValue::U(*w, *x),
        TanukiCompileTimeValue::I(w, x) => TanukiCompileTimeValue::I(*w, *x),
        TanukiCompileTimeValue::F(w, x) => TanukiCompileTimeValue::F(*w, *x),
        TanukiCompileTimeValue::Bool(x) => TanukiCompileTimeValue::Bool(*x),
        TanukiCompileTimeValue::FunctionPointer(n, p, r, ps) => TanukiCompileTimeValue::FunctionPointer(
            clone_chars(n),
            clone_chars(p),
            Box::new(r.deep_clone()),
            clone_types(ps),
        ),
        TanukiCompileTimeValue::LinkedFunctionPointer(n, r, ps) => TanukiCompileTimeValue::LinkedFunctionPointer(
            clone_chars(n),
            Box::new(r.deep_clone()),
            clone_types(ps),
        ),
    }
}

/// Whether a local variable of a name is in any of the scopes.
pub open spec fn in_scopes(scopes: Seq<Vec<LocalVariable>>, name: Seq<char>) -> bool {
    exists|i: int, j: int| 0 <= i < scopes.len() && 0 <= j < scopes[i]@.len() && (#[trigger] scopes[i]@[j]).name@ == name
}

/// Whether a scope holds a local variable of a name.
pub open spec fn in_scope(scope: Seq<LocalVariable>, name: Seq<char>) -> bool {
    exists|j: int| 0 <= j < scope.len() && (#[trigger] scope[j]).name@ == name
}

/// Where the variable of a name is found in the scopes: the outermost scope that holds it.
fn find_local(scopes: &Vec<Vec<LocalVariable>>, name: &Vec<char>) -> (r: Option<(usize, usize)>)
    ensures
        r is None <==> !in_scopes(scopes@, name@),
        r matches Some((i, j)) ==> {
            &&& i < scopes@.len()
            &&& j < scopes@[i as int]@.len()
            &&& scopes@[i as int]@[j as int].name@ == name@
            &&& forall|k: int| 0 <= k < i ==> !in_scope(#[trigger] scopes@[k]@, name@)
        },
{
    let mut i: usize = 0;
    while i < scopes.len()
        invariant
            i <= scopes@.len(),
            forall|k: int| 0 <= k < i ==> !in_scope(#[trigger] scopes@[k]@, name@),
        decreases scopes@.len() - i,
    {
        let mut j: usize = 0;
        while j < scopes[i].len()
            invariant
                i < scopes@.len(),
                j <= scopes@[i as int]@.len(),
                forall|k: int| 0 <= k < i ==> !in_scope(#[trigger] scopes@[k]@, name@),
                forall|k: int| 0 <= k < j ==> (#[trigger] scopes@[i as int]@[k]).name@ != name@,
            decreases scopes@[i as int]@.len() - j,
        {
            if chars_eq(scopes[i][j].name.as_slice(), name.as_slice()) {
                return Some((i, j));
            }
            j = j + 1;
        }
        proof {
            assert(!in_scope(scopes@[i as int]@, name@));
        }
        i = i + 1;
    }
    proof {
        if in_scopes(scopes@, name@) {
            let (a, b) = choose|a: int, b: int|
                0 <= a < scopes@.len() && 0 <= b < scopes@[a]@.len() && (#[trigger] scopes@[a]@[b]).name@ == name@;
            assert(in_scope(scopes@[a]@, name@));
        }
    }
    None
}

/// Whether a module has a global constant of a name.
pub open spec fn has_global_constant(m: TanukiModule, name: Seq<char>) -> bool {
    exists|i: int| 0 <= i < m.global_constants@.len() && is_constant_named(#[trigger] m.global_constants@[i], name)
}

/// Whether a global constant slot holds a constant of a name.
pub open spec fn is_constant_named(c: Option<TanukiGlobalConstant>, name: Seq<char>) -> bool {
    c matches Some(g) && g.name@ == name
}

/// The first global constant of a name in a module.
fn find_global_constant(m: &TanukiModule, name: &Vec<char>) -> (r: Option<usize>)
    ensures
        r is None <==> !has_global_constant(*m, name@),
        r matches Some(i) ==> i < m.global_constants@.len() && is_constant_named(m.global_constants@[i as int], name@),
        r matches Some(i) ==> forall|k: int| 0 <= k < i ==> !is_constant_named(#[trigger] m.global_constants@[k], name@),
{
    let mut i: usize = 0;
    while i < m.global_constants.len()
        invariant
            i <= m.global_constants@.len(),
            forall|k: int| 0 <= k < i ==> !is_constant_named(#[trigger] m.global_constants@[k], name@),
        decreases m.global_constants@.len() - i,
    {
        match &m.global_constants[i] {
            Some(g) => {
                if chars_eq(g.name.as_slice(), name.as_slice()) {
                    return Some(i);
                }
            },
            None => {},
        }
        i = i + 1;
    }
    None
}

/// Whether an integer is a bit width of integer types.
pub open spec fn is_integer_bit_width(w: int) -> bool {
    w == 8 || w == 16 || w == 32 || w == 64
}

/// Whether an integer is a bit width of float types.
pub open spec fn is_float_bit_width(w: int) -> bool {
    w == 32 || w == 64
}

/// Which builtin type constructor an expression of `@u`, `@i` or `@f` is.
pub enum BitWidthKind {
    U,
    I,
    F,
}

/// The type a builtin type constructor gives for a bit width.
pub open spec fn bit_width_type(kind: BitWidthKind, w: int) -> Option<TypeModel> {
    match kind {
        BitWidthKind::U => if is_integer_bit_width(w) { Some(TypeModel::U(w as u8)) } else { None },
        BitWidthKind::I => if is_integer_bit_width(w) { Some(TypeModel::I(w as u8)) } else { None },
        BitWidthKind::F => if is_float_bit_width(w) { Some(TypeModel::F(w as u8)) } else { None },
    }
}

/// The type a builtin type constructor gives for a bit width, or the error for a bit width it does not take.
fn type_of_bit_width(kind: BitWidthKind, width: CtInt, line: usize, column: usize) -> (r: Result<TanukiType, ErrorAt>)
    ensures
        match bit_width_type(kind, width@) {
            Some(t) => r matches Ok(x) && x.model() == t,
            None => r matches Err(e) && e.line == Some(line) && e.column == Some(column) && match kind {
                BitWidthKind::F => e.error matches Error::InvalidFloatBitWidth(v) && v@ == width@,
                _ => e.error matches Error::InvalidIntegerBitWidth(v) && v@ == width@,
            },
        },
{
    let w = ct_to_u8(&width);
    match kind {
        BitWidthKind::U => match w {
            Some(8) | Some(16) | Some(32) | Some(64) => Ok(TanukiType::U(w.unwrap())),
            _ => Err(Error::InvalidIntegerBitWidth(width).at(Some(line), Some(column), None)),
        },
        BitWidthKind::I => match w {
            Some(8) | Some(16) | Some(32) | Some(64) => Ok(TanukiType::I(w.unwrap())),
            _ => Err(Error::InvalidIntegerBitWidth(width).at(Some(line), Some(column), None)),
        },
        BitWidthKind::F => match w {
            Some(32) | Some(64) => Ok(TanukiType::F(w.unwrap())),
            _ => Err(Error::InvalidFloatBitWidth(width).at(Some(line), Some(column), None)),
        },
    }
}


/// The kinds of expressions as const-compilation tells them apart.
pub enum ConstCompileKind {
    Constant,
    Variable,
    BitWidth,
    TypeAndValue,
    Operator,
    Assignment,
    Block,
    FunctionCall,
    Transmute,
    Other,
}

pub open spec fn const_compile_kind(v: TanukiExpressionVariant) -> ConstCompileKind {
    match v {
        TanukiExpressionVariant::Constant(_) => ConstCompileKind::Constant,
        TanukiExpressionVariant::Variable(_) => ConstCompileKind::Variable,
        TanukiExpressionVariant::U(_) | TanukiExpressionVariant::I(_) | TanukiExpressionVariant::F(_) => ConstCompileKind::BitWidth,
        TanukiExpressionVariant::TypeAndValue(..) => ConstCompileKind::TypeAndValue,
        TanukiExpressionVariant::NullaryOperator(_) | TanukiExpressionVariant::PrefixUnaryOperator(..)
        | TanukiExpressionVariant::PostfixUnaryOperator(..) | TanukiExpressionVariant::InfixBinaryOperator(..)
        | TanukiExpressionVariant::InfixTernaryOperator(..) => ConstCompileKind::Operator,
        TanukiExpressionVariant::Assignment(..) => ConstCompileKind::Assignment,
        TanukiExpressionVariant::Block { .. } => ConstCompileKind::Block,
        TanukiExpressionVariant::FunctionCall { .. } => ConstCompileKind::FunctionCall,
        TanukiExpressionVariant::Transmute { .. } => ConstCompileKind::Transmute,
        _ => ConstCompileKind::Other,
    }
}

fn kind_of_expression(v: &TanukiExpressionVariant) -> (r: ConstCompileKind)
    ensures
        r == const_compile_kind(*v),
{
    match v {
        TanukiExpressionVariant::Constant(_) => ConstCompileKind::Constant,
        TanukiExpressionVariant::Variable(_) => ConstCompileKind::Variable,
        TanukiExpressionVariant::U(_) | TanukiExpressionVariant::I(_) | TanukiExpressionVariant::F(_) => ConstCompileKind::BitWidth,
        TanukiExpressionVariant::TypeAndValue(..) => ConstCompileKind::TypeAndValue,
        TanukiExpressionVariant::NullaryOperator(_) | TanukiExpressionVariant::PrefixUnaryOperator(..)
        | TanukiExpressionVariant::PostfixUnaryOperator(..) | TanukiExpressionVariant::InfixBinaryOperator(..)
        | TanukiExpressionVariant::InfixTernaryOperator(..) => ConstCompileKind::Operator,
        TanukiExpressionVariant::Assignment(..) => ConstCompileKind::Assignment,
        TanukiExpressionVariant::Block { .. } => ConstCompileKind::Block,
        TanukiExpressionVariant::FunctionCall { .. } => ConstCompileKind::FunctionCall,
        TanukiExpressionVariant::Transmute { .. } => ConstCompileKind::Transmute,
        _ => ConstCompileKind::Other,
    }
}

/// What const-compiling keeps: the flags only go from false to true, at least one scope stays,
/// and the expression stays where it was.
pub open spec fn keeps(
    old_expression: TanukiExpression,
    new_expression: TanukiExpression,
    old_was: bool,
    new_was: bool,
    old_dependencies: bool,
    new_dependencies: bool,
    old_scopes: Seq<Vec<LocalVariable>>,
    new_scopes: Seq<Vec<LocalVariable>>,
) -> bool {
    &&& old_was ==> new_was
    &&& old_dependencies ==> new_dependencies
    &&& new_scopes.len() >= old_scopes.len()
    &&& new_expression.start_line == old_expression.start_line
    &&& new_expression.start_column == old_expression.start_column
    &&& new_expression.end_line == old_expression.end_line
    &&& new_expression.end_column == old_expression.end_column
}

/// A result's value and type agree, and the value is of the wanted type.
pub open spec fn is_typed_result(x: RValueConstComplicationResult, result_type: TypeModel) -> bool {
    &&& x.result_type is Some
    &&& x.result_value matches Some(v) ==> x.result_type.unwrap().model() == v.type_model() && (v.type_model() == result_type
        || result_type is Any)
}

/// Whether a prefix unary operator works on an l-value: taking its address, and the increments
/// and decrements.
pub open spec fn spec_is_l_value_prefix(op: TanukiPrefixUnaryOperator) -> bool {
    op is AddressOf || op is Increment || op is SaturatingIncrement || op is WrappingIncrement || op is Decrement
        || op is SaturatingDecrement || op is WrappingDecrement
}

/// Whether a postfix unary operator works on an l-value: the increments and decrements.
pub open spec fn spec_is_l_value_postfix(op: TanukiPostfixUnaryOperator) -> bool {
    op is Increment || op is SaturatingIncrement || op is WrappingIncrement || op is Decrement || op is SaturatingDecrement
        || op is WrappingDecrement
}

/// Whether a prefix unary operator works on an l-value.
fn is_l_value_prefix(op: TanukiPrefixUnaryOperator) -> (r: bool)
    ensures
        r == spec_is_l_value_prefix(op),
{
    match op {
        TanukiPrefixUnaryOperator::AddressOf | TanukiPrefixUnaryOperator::Increment | TanukiPrefixUnaryOperator::SaturatingIncrement
        | TanukiPrefixUnaryOperator::WrappingIncrement | TanukiPrefixUnaryOperator::Decrement
        | TanukiPrefixUnaryOperator::SaturatingDecrement | TanukiPrefixUnaryOperator::WrappingDecrement => true,
        _ => false,
    }
}

/// Whether a postfix unary operator works on an l-value.
fn is_l_value_postfix(op: TanukiPostfixUnaryOperator) -> (r: bool)
    ensures
        r == spec_is_l_value_postfix(op),
{
    match op {
        TanukiPostfixUnaryOperator::Increment | TanukiPostfixUnaryOperator::SaturatingIncrement
        | TanukiPostfixUnaryOperator::WrappingIncrement | TanukiPostfixUnaryOperator::Decrement
        | TanukiPostfixUnaryOperator::SaturatingDecrement | TanukiPostfixUnaryOperator::WrappingDecrement => true,
        _ => false,
    }
}

/// Whether an infix binary operator's operands are const-compiled.
fn compiles_infix_operands(op: TanukiInfixBinaryOperator) -> (r: bool)
    ensures
        r == crate::programming_languages::tanuki::const_compile::is_evaluated_infix(op),
{
    match op {
        TanukiInfixBinaryOperator::NoOperator | TanukiInfixBinaryOperator::MemberAccess | TanukiInfixBinaryOperator::As
        | TanukiInfixBinaryOperator::SaturatingAs | TanukiInfixBinaryOperator::WrappingAs | TanukiInfixBinaryOperator::TryAs
        | TanukiInfixBinaryOperator::Pipe => false,
        _ => true,
    }
}

/// Whether evaluating the operator on the values would shift a nonzero integer left by 2^64 or more.
fn shifts_too_far(op: TanukiInfixBinaryOperator, lhs: &TanukiCompileTimeValue, rhs: &TanukiCompileTimeValue) -> (r: bool)
    ensures
        r == crate::programming_languages::tanuki::const_compile::infix_panics(op, *lhs, *rhs),
{
    match op {
        TanukiInfixBinaryOperator::BitshiftLeft => match (lhs, rhs) {
            (TanukiCompileTimeValue::CompileTimeInt(a), TanukiCompileTimeValue::CompileTimeInt(b)) => {
                let a_is_zero = match ct_to_i64(a) {
                    Some(v) => v == 0,
                    None => false,
                };
                !a_is_zero && ct_to_u64(b).is_none() && ct_is_positive(b)
            },
            _ => false,
        },
        _ => false,
    }
}


impl TanukiExpression {
    /// Const-compiles a variable: the value of the first local variable of its name, from the
    /// outermost scope in, or else that of the module's global constant of the name once the
    /// constant is const-compiled.
    fn const_compile_variable(
        &self,
        this_module: &TanukiModule,
        was_complication_done: &mut bool,
        local_variables: &Vec<Vec<LocalVariable>>,
        dependencies_need_const_compiling: &mut bool,
    ) -> (r: Result<(RValueConstComplicationResult, bool), ErrorAt>)
        requires
            self.variant is Variable,
        ensures
            *old(was_complication_done) ==> *final(was_complication_done),
            *old(dependencies_need_const_compiling) ==> *final(dependencies_need_const_compiling),
            r matches Ok((x, false)) ==> x.is_unknown(),
            !in_scopes(local_variables@, self.variant->Variable_0@) && !has_global_constant(*this_module, self.variant->Variable_0@)
                ==> (r matches Err(e) && e.error is VariableNotFound && e.line == Some(self.start_line) && e.column == Some(
                self.start_column,
            )),
    {
        let name = match &self.variant {
            TanukiExpressionVariant::Variable(name) => name,
            _ => return Ok((RValueConstComplicationResult::unknown(), false)),
        };
        match find_local(local_variables, name) {
            Some((i, j)) => {
                let value = match &local_variables[i][j].value {
                    Some(v) => Some(clone_value(v)),
                    None => None,
                };
                if value.is_some() {
                    *was_complication_done = true;
                }
                Ok((RValueConstComplicationResult { result_value: value, result_type: None, is_pure: true }, true))
            },
            None => match find_global_constant(this_module, name) {
                Some(k) => match &this_module.global_constants[k] {
                    Some(constant) => match &constant.value_expression.variant {
                        TanukiExpressionVariant::Constant(v) => {
                            *was_complication_done = true;
                            Ok((RValueConstComplicationResult { result_value: Some(clone_value(v)), result_type: None, is_pure: true }, true))
                        },
                        _ => {
                            *dependencies_need_const_compiling = true;
                            Ok((RValueConstComplicationResult::unknown(), false))
                        },
                    },
                    None => Ok((RValueConstComplicationResult::unknown(), false)),
                },
                None => Err(Error::VariableNotFound.at(Some(self.start_line), Some(self.start_column), None)),
            },
        }
    }

    /// Const-compiles `@u`, `@i` or `@f` on a bit width: the type of that width, once the width is
    /// a known integer.
    fn const_compile_bit_width(
        &mut self,
        this_module: &TanukiModule,
        was_complication_done: &mut bool,
        local_variables: &mut Vec<Vec<LocalVariable>>,
        dependencies_need_const_compiling: &mut bool,
    ) -> (r: Result<(RValueConstComplicationResult, bool), ErrorAt>)
        requires
            old(local_variables)@.len() >= 1,
            const_compile_kind(old(self).variant) is BitWidth,
        ensures
            keeps(
                *old(self),
                *final(self),
                *old(was_complication_done),
                *final(was_complication_done),
                *old(dependencies_need_const_compiling),
                *final(dependencies_need_const_compiling),
                old(local_variables)@,
                final(local_variables)@,
            ),
            r matches Ok((x, false)) ==> x.is_unknown(),
            bit_width_arguments(old(self).variant).len() != 1 ==> (r matches Err(e) && e.error
                == Error::UnexpectedBuiltinFunctionArgumentCount {
                expected_min: Some(1),
                expected_max: Some(1),
                got: bit_width_arguments(old(self).variant).len() as usize,
            } && e.line == Some(old(self).start_line) && e.column == Some(old(self).start_column)),
            width_type(old(self).variant) is Some && !*old(dependencies_need_const_compiling) ==> (r matches Ok((x, true)) && x.is_pure
                && gives_type(x, width_type(old(self).variant))),
            constant_width(old(self).variant) is Some && width_type(old(self).variant) is None && !*old(
                dependencies_need_const_compiling,
            ) ==> (r matches Err(e) && is_bit_width_error(
                e,
                bit_width_kind(old(self).variant),
                constant_width(old(self).variant).unwrap(),
                old(self).start_line,
                old(self).start_column,
            )),
        decreases *old(self), 0nat,
    {
        let start_line = self.start_line;
        let start_column = self.start_column;
        let kind = match &self.variant {
            TanukiExpressionVariant::U(_) => BitWidthKind::U,
            TanukiExpressionVariant::I(_) => BitWidthKind::I,
            _ => BitWidthKind::F,
        };
        let arguments = match &mut self.variant {
            TanukiExpressionVariant::U(a) => a,
            TanukiExpressionVariant::I(a) => a,
            TanukiExpressionVariant::F(a) => a,
            _ => return Ok((RValueConstComplicationResult::unknown(), false)),
        };
        if arguments.len() != 1 {
            return Err(
                Error::UnexpectedBuiltinFunctionArgumentCount {
                    expected_min: Some(1),
                    expected_max: Some(1),
                    got: arguments.len(),
                }.at(Some(start_line), Some(start_column), None),
            );
        }
        proof {
            let v = bit_width_arguments(old(self).variant);
            assert(decreases_to!(*old(self) => old(self).variant));
            if old(self).variant is U {
                assert(decreases_to!(old(self).variant => old(self).variant->U_0));
                assert(decreases_to!(old(self).variant->U_0 => old(self).variant->U_0@));
            } else if old(self).variant is I {
                assert(decreases_to!(old(self).variant => old(self).variant->I_0));
                assert(decreases_to!(old(self).variant->I_0 => old(self).variant->I_0@));
            } else {
                assert(decreases_to!(old(self).variant => old(self).variant->F_0));
                assert(decreases_to!(old(self).variant->F_0 => old(self).variant->F_0@));
            }
            assert(decreases_to!(v => v[0]));
        }
        let argument = arguments[0].const_compile_r_value(
            this_module,
            was_complication_done,
            local_variables,
            &TanukiType::CompileTimeInt,
            dependencies_need_const_compiling,
        )?;
        if *dependencies_need_const_compiling {
            return Ok((RValueConstComplicationResult::unknown(), false));
        }
        let width = match argument.result_value {
            Some(TanukiCompileTimeValue::CompileTimeInt(width)) => width,
            _ => return Ok((RValueConstComplicationResult::unknown(), false)),
        };
        *was_complication_done = true;
        let t = type_of_bit_width(kind, width, start_line, start_column)?;
        Ok((RValueConstComplicationResult { result_value: Some(TanukiCompileTimeValue::Type(t)), result_type: None, is_pure: true }, true))
    }

    /// Const-compiles the expression as an r-value of a type: what is known of its value and
    /// type. Where its value is known and computing it has no side effects, the expression is
    /// replaced by the value. `was_complication_done` is set when anything was const-compiled, and
    /// `dependencies_need_const_compiling` when a global constant it reads is not const-compiled
    /// yet; the caller repeats until nothing more is const-compiled.
    ///
    /// Function values, function definitions, imported constants and links are not const-compiled:
    /// nothing is known of their value. A block with several return expressions, or named ones,
    /// gives no value.
    pub fn const_compile_r_value(
        &mut self,
        this_module: &TanukiModule,
        was_complication_done: &mut bool,
        local_variables: &mut Vec<Vec<LocalVariable>>,
        result_type: &TanukiType,
        dependencies_need_const_compiling: &mut bool,
    ) -> (r: Result<RValueConstComplicationResult, ErrorAt>)
        requires
            old(local_variables)@.len() >= 1,
        ensures
            keeps(
                *old(self),
                *final(self),
                *old(was_complication_done),
                *final(was_complication_done),
                *old(dependencies_need_const_compiling),
                *final(dependencies_need_const_compiling),
                old(local_variables)@,
                final(local_variables)@,
            ),
            r matches Ok(x) ==> (x.result_value is Some ==> is_typed_result(x, result_type.model())) && folded_into(x, *final(self)),
            constant_of(*old(self)) is Some && fits(constant_of(*old(self)).unwrap(), result_type.model()) ==> {
                &&& gives_pure_value(r, constant_of(*old(self)).unwrap())
                &&& *final(self) == *old(self)
                &&& *final(was_complication_done) == *old(was_complication_done)
                &&& *final(dependencies_need_const_compiling) == *old(dependencies_need_const_compiling)
                &&& *final(local_variables) == *old(local_variables)
            },
            old(self).variant matches TanukiExpressionVariant::Variable(name) && !in_scopes(old(local_variables)@, name@)
                && !has_global_constant(*this_module, name@) ==> (r matches Err(e) && e.error is VariableNotFound && e.line == Some(
                old(self).start_line,
            ) && e.column == Some(old(self).start_column)),
            const_compile_kind(old(self).variant) is BitWidth && bit_width_arguments(old(self).variant).len() != 1 ==> (r matches Err(
                e,
            ) && e.error == Error::UnexpectedBuiltinFunctionArgumentCount {
                expected_min: Some(1),
                expected_max: Some(1),
                got: bit_width_arguments(old(self).variant).len() as usize,
            }),
            width_type(old(self).variant) is Some && (result_type.model() is Type || result_type.model() is Any)
                && !*old(dependencies_need_const_compiling) ==> (r matches Ok(x)
                && gives_type(x, width_type(old(self).variant))),
            folded_operator_constant(*old(self)) is Some && (result_type.model() is Any || result_type.model() is CompileTimeInt) ==> (
            r matches Ok(x) && gives_int(x, folded_operator_constant(*old(self)).unwrap())),
            folded_operator_constant(*old(self)) is Some && (result_type.model() is Any || result_type.model() is CompileTimeInt) ==> (
            *final(was_complication_done)),
            folded_operator_constant(*old(self)) is Some && (result_type.model() is Any || result_type.model() is CompileTimeInt) ==> (
            *final(dependencies_need_const_compiling) == *old(dependencies_need_const_compiling)),
            folded_operator_constant(*old(self)) is Some && (result_type.model() is Any || result_type.model() is CompileTimeInt) ==> (
            holds_int_constant(*final(self), folded_operator_constant(*old(self)).unwrap())),
            constant_width(old(self).variant) is Some && width_type(old(self).variant) is None && !*old(
                dependencies_need_const_compiling,
            ) ==> (r matches Err(e) && is_bit_width_error(
                e,
                bit_width_kind(old(self).variant),
                constant_width(old(self).variant).unwrap(),
                old(self).start_line,
                old(self).start_column,
            )),
        decreases *old(self), 1nat,
    {
        let kind = kind_of_expression(&self.variant);
        let (expression_result, finish) = match kind {
            ConstCompileKind::Constant => match &self.variant {
                TanukiExpressionVariant::Constant(value) => (
                    RValueConstComplicationResult { result_value: Some(clone_value(value)), result_type: None, is_pure: true },
                    true,
                ),
                _ => (RValueConstComplicationResult::unknown(), false),
            },
            ConstCompileKind::Variable => self.const_compile_variable(
                this_module,
                was_complication_done,
                local_variables,
                dependencies_need_const_compiling,
            )?,
            ConstCompileKind::BitWidth => self.const_compile_bit_width(
                this_module,
                was_complication_done,
                local_variables,
                dependencies_need_const_compiling,
            )?,
            ConstCompileKind::TypeAndValue => self.const_compile_type_and_value(
                this_module,
                was_complication_done,
                local_variables,
                dependencies_need_const_compiling,
            )?,
            ConstCompileKind::Operator => self.const_compile_operator(
                this_module,
                was_complication_done,
                local_variables,
                dependencies_need_const_compiling,
            )?,
            ConstCompileKind::Assignment => self.const_compile_assignment(
                this_module,
                was_complication_done,
                local_variables,
                dependencies_need_const_compiling,
            )?,
            ConstCompileKind::Block => self.const_compile_block(
                this_module,
                was_complication_done,
                local_variables,
                result_type,
                dependencies_need_const_compiling,
            )?,
            ConstCompileKind::FunctionCall => self.const_compile_function_call(
                this_module,
                was_complication_done,
                local_variables,
                dependencies_need_const_compiling,
            )?,
            ConstCompileKind::Transmute => self.const_compile_transmute(
                this_module,
                was_complication_done,
                local_variables,
                dependencies_need_const_compiling,
            )?,
            ConstCompileKind::Other => (RValueConstComplicationResult::unknown(), true),
        };
        if !finish {
            return Ok(expression_result);
        }
        self.finish_const_compile(expression_result, result_type, was_complication_done)
    }

    /// Casts what const-compiling found to the wanted type, and replaces the expression by its
    /// value when that is known and pure and the expression is not that value already.
    fn finish_const_compile(
        &mut self,
        expression_result: RValueConstComplicationResult,
        result_type: &TanukiType,
        was_complication_done: &mut bool,
    ) -> (r: Result<RValueConstComplicationResult, ErrorAt>)
        ensures
            final(self).start_line == old(self).start_line && final(self).start_column == old(self).start_column,
            final(self).end_line == old(self).end_line && final(self).end_column == old(self).end_column,
            *old(was_complication_done) ==> *final(was_complication_done),
            r matches Ok(x) ==> is_typed_result(x, result_type.model()) && x.is_pure == expression_result.is_pure && folded_into(
                x,
                *final(self),
            ),
            expression_result.result_value is Some && fits(expression_result.result_value.unwrap(), result_type.model()) ==> (
            r matches Ok(x) && same_optional_value(x.result_value, expression_result.result_value)),
            expression_result.result_value is Some && fits(expression_result.result_value.unwrap(), result_type.model()) && same_optional_value(
                constant_of(*old(self)),
                expression_result.result_value,
            ) ==> (*final(self) == *old(self) && *final(was_complication_done) == *old(was_complication_done)),
            expression_result.result_value is None ==> *final(self) == *old(self),
            r matches Ok(x) && x.is_pure && x.result_value is Some && !(old(self).variant is Constant) ==> *final(was_complication_done),
    {
        let start_line = self.start_line;
        let start_column = self.start_column;
        let is_pure = expression_result.is_pure;
        match expression_result.result_value {
            None => {
                let known_type = match expression_result.result_type {
                    Some(t) => t,
                    None => result_type.deep_clone(),
                };
                let t = match known_type.cast_to(result_type) {
                    Ok(t) => t,
                    Err(e) => return Err(e.at(Some(start_line), Some(start_column), None)),
                };
                Ok(RValueConstComplicationResult { result_value: None, result_type: Some(t), is_pure })
            },
            Some(v) => {
                let ghost before = v;
                let v = match v.cast_to(result_type, false) {
                    Ok(v) => v,
                    Err(e) => return Err(e.at(Some(start_line), Some(start_column), None)),
                };
                proof {
                    if before.type_model() == result_type.model() || result_type.model() is Any {
                        assert(v == before);
                    }
                }
                let t = v.get_type();
                let already = match &self.variant {
                    TanukiExpressionVariant::Constant(c) => values_same(c, &v),
                    _ => false,
                };
                if is_pure && !already {
                    self.variant = TanukiExpressionVariant::Constant(clone_value(&v));
                    *was_complication_done = true;
                }
                Ok(RValueConstComplicationResult { result_value: Some(v), result_type: Some(t), is_pure })
            },
        }
    }
}

/// Whether a known pure value was written back into the expression.
pub open spec fn folded_into(x: RValueConstComplicationResult, e: TanukiExpression) -> bool {
    x.is_pure && x.result_value is Some ==> (e.variant is Constant && same_value(e.variant->Constant_0, x.result_value.unwrap()))
}

/// The value of a constant expression.
pub open spec fn constant_of(e: TanukiExpression) -> Option<TanukiCompileTimeValue> {
    match e.variant {
        TanukiExpressionVariant::Constant(c) => Some(c),
        _ => None,
    }
}

/// The integer that an infix binary operator gives on two compile time integer constants, when
/// the expression is such an operator and the integer is known.
pub open spec fn folded_infix_constant(e: TanukiExpression) -> Option<int> {
    match e.variant {
        TanukiExpressionVariant::InfixBinaryOperator(op, l, r) => match (constant_of(*l), constant_of(*r)) {
            (Some(TanukiCompileTimeValue::CompileTimeInt(a)), Some(TanukiCompileTimeValue::CompileTimeInt(b))) => if is_evaluated_infix(op)
                && !infix_panics(op, TanukiCompileTimeValue::CompileTimeInt(a), TanukiCompileTimeValue::CompileTimeInt(b)) {
                match infix_int_outcome(op, a@, b@) {
                    IntOutcome::Value(v) => Some(v),
                    _ => None,
                }
            } else {
                None
            },
            _ => None,
        },
        _ => None,
    }
}

/// An infix arithmetic or comparison operator on two compile time integer constants is folded: the
/// integer of `a + b`, `a - b`, `a * b`, `a / b` and `a % b` (truncating, by a divisor other than
/// 0), the minimum `<<<`, the maximum `>>>` and the three-way comparison `<=>` is known, and it is
/// what the operator means on the two integers.
pub proof fn law_constant_arithmetic_is_folded(e: TanukiExpression, a: CtInt, b: CtInt)
    requires
        e.variant matches TanukiExpressionVariant::InfixBinaryOperator(_, l, r) && constant_of(*l) == Some(
            TanukiCompileTimeValue::CompileTimeInt(a),
        ) && constant_of(*r) == Some(TanukiCompileTimeValue::CompileTimeInt(b)),
    ensures
        e.variant->InfixBinaryOperator_0 is Addition ==> folded_infix_constant(e) == Some(a@ + b@),
        e.variant->InfixBinaryOperator_0 is Subtraction ==> folded_infix_constant(e) == Some(a@ - b@),
        e.variant->InfixBinaryOperator_0 is Multiplication ==> folded_infix_constant(e) == Some(a@ * b@),
        e.variant->InfixBinaryOperator_0 is Division && b@ != 0 ==> folded_infix_constant(e) == Some(trunc_div(a@, b@)),
        e.variant->InfixBinaryOperator_0 is Modulo && b@ != 0 ==> folded_infix_constant(e) == Some(
            a@ - b@ * trunc_div(a@, b@),
        ),
        e.variant->InfixBinaryOperator_0 is Minimum ==> folded_infix_constant(e) == Some(if a@ <= b@ { a@ } else { b@ }),
        e.variant->InfixBinaryOperator_0 is Maximum ==> folded_infix_constant(e) == Some(if a@ >= b@ { a@ } else { b@ }),
        e.variant->InfixBinaryOperator_0 is ThreeWayCompare ==> folded_infix_constant(e) == Some(
            if a@ < b@ {
                -1int
            } else if a@ == b@ {
                0int
            } else {
                1int
            },
        ),
{
}

/// Whether every expression is a constant.
pub open spec fn all_constants(es: Seq<TanukiExpression>) -> bool {
    forall|j: int| 0 <= j < es.len() ==> (#[trigger] constant_of(es[j])) is Some
}

/// A function call whose function and arguments are all constants.
pub open spec fn is_constant_call(v: TanukiExpressionVariant) -> bool {
    v matches TanukiExpressionVariant::FunctionCall { function_pointer, arguments } && constant_of(*function_pointer) is Some
        && all_constants(arguments@)
}

/// A block of constants only, without return expressions.
pub open spec fn is_constant_block(v: TanukiExpressionVariant) -> bool {
    v matches TanukiExpressionVariant::Block { sub_expressions, return_expressions } && all_constants(sub_expressions@)
        && return_expressions@.len() == 0
}

/// The constant of a block that is one unnamed return expression, a constant, and nothing else.
pub open spec fn single_constant_return(v: TanukiExpressionVariant) -> Option<TanukiCompileTimeValue> {
    match v {
        TanukiExpressionVariant::Block { sub_expressions, return_expressions } => if sub_expressions@.len() == 0
            && return_expressions@.len() == 1 && return_expressions@[0].0 is None {
            constant_of(return_expressions@[0].1)
        } else {
            None
        },
        _ => None,
    }
}

/// An assignment of a constant to a variable that is not in any scope yet.
pub open spec fn declares_constant(v: TanukiExpressionVariant, scopes: Seq<Vec<LocalVariable>>) -> bool {
    v matches TanukiExpressionVariant::Assignment(l, value) && l.variant is Variable && !in_scopes(scopes, l.variant->Variable_0@)
        && constant_of(*value) is Some
}

/// A transmute of a constant to a type constant.
pub open spec fn is_constant_transmute(v: TanukiExpressionVariant) -> bool {
    v matches TanukiExpressionVariant::Transmute { to_transmute, transmute_to_type } && constant_of(*to_transmute) is Some
        && constant_of(*transmute_to_type) matches Some(TanukiCompileTimeValue::Type(_))
}

/// The value of a constant written after a type constant, when the value is of that type.
pub open spec fn typed_constant(v: TanukiExpressionVariant) -> Option<TanukiCompileTimeValue> {
    match v {
        TanukiExpressionVariant::TypeAndValue(t, c) => match (constant_of(*t), constant_of(*c)) {
            (Some(TanukiCompileTimeValue::Type(ty)), Some(value)) => if value.type_model() == ty.model() {
                Some(value)
            } else {
                None
            },
            _ => None,
        },
        _ => None,
    }
}

/// Whether an expression is a compile time integer constant, the given one.
pub open spec fn holds_int_constant(e: TanukiExpression, v: int) -> bool {
    constant_of(e) matches Some(TanukiCompileTimeValue::CompileTimeInt(c)) && c@ == v
}

/// The integer that a prefix unary operator gives on a compile time integer constant, when the
/// expression is such an operator and the integer is known.
pub open spec fn folded_prefix_constant(e: TanukiExpression) -> Option<int> {
    match e.variant {
        TanukiExpressionVariant::PrefixUnaryOperator(op, o) => match constant_of(*o) {
            Some(TanukiCompileTimeValue::CompileTimeInt(a)) => prefix_int_value(op, a@),
            _ => None,
        },
        _ => None,
    }
}

/// The integer that a postfix unary operator gives on a compile time integer constant: `%` the
/// integer divided by 100, `!` the factorial of an integer from 0 up to the largest `usize`.
pub open spec fn folded_postfix_constant(e: TanukiExpression) -> Option<int> {
    match e.variant {
        TanukiExpressionVariant::PostfixUnaryOperator(op, o) => match constant_of(*o) {
            Some(TanukiCompileTimeValue::CompileTimeInt(a)) => if op is Percent {
                Some(trunc_div(a@, 100))
            } else if op is Factorial && 0 <= a@ <= usize::MAX {
                Some(factorial(a@ as nat) as int)
            } else {
                None
            },
            _ => None,
        },
        _ => None,
    }
}

/// The integer an operator on compile time integer constants folds to: an infix, prefix or
/// postfix operator whose value is known.
pub open spec fn folded_operator_constant(e: TanukiExpression) -> Option<int> {
    if folded_infix_constant(e) is Some {
        folded_infix_constant(e)
    } else if folded_prefix_constant(e) is Some {
        folded_prefix_constant(e)
    } else {
        folded_postfix_constant(e)
    }
}

/// Whether an error is the one for a bit width a builtin type constructor does not take, at a place.
pub open spec fn is_bit_width_error(e: ErrorAt, kind: BitWidthKind, w: int, line: usize, column: usize) -> bool {
    &&& e.line == Some(line) && e.column == Some(column)
    &&& match kind {
        BitWidthKind::F => e.error matches Error::InvalidFloatBitWidth(v) && v@ == w,
        _ => e.error matches Error::InvalidIntegerBitWidth(v) && v@ == w,
    }
}

/// Whether const-compiling gave a pure compile time integer, the given one.
pub open spec fn gives_int(x: RValueConstComplicationResult, v: int) -> bool {
    &&& x.is_pure
    &&& x.result_value matches Some(TanukiCompileTimeValue::CompileTimeInt(c)) && c@ == v
}

/// Whether a value is of a type, or the type is `Any`.
pub open spec fn fits(v: TanukiCompileTimeValue, t: TypeModel) -> bool {
    v.type_model() == t || t is Any
}

/// The bit width written as a constant integer, the one argument of `@u`, `@i` or `@f`.
pub open spec fn constant_width(v: TanukiExpressionVariant) -> Option<int> {
    let a = bit_width_arguments(v);
    if const_compile_kind(v) is BitWidth && a.len() == 1 {
        match a[0].variant {
            TanukiExpressionVariant::Constant(TanukiCompileTimeValue::CompileTimeInt(w)) => Some(w@),
            _ => None,
        }
    } else {
        None
    }
}

/// The type `@u`, `@i` or `@f` gives on its constant bit width argument, if it takes it.
pub open spec fn width_type(v: TanukiExpressionVariant) -> Option<TypeModel> {
    match constant_width(v) {
        Some(w) => bit_width_type(bit_width_kind(v), w),
        None => None,
    }
}

/// Whether two optional values are both there and the same value.
pub open spec fn same_optional_value(a: Option<TanukiCompileTimeValue>, b: Option<TanukiCompileTimeValue>) -> bool {
    match (a, b) {
        (Some(x), Some(y)) => same_value(x, y),
        _ => false,
    }
}

/// Whether const-compiling gave a pure value, the given one.
pub open spec fn gives_pure_value(r: Result<RValueConstComplicationResult, ErrorAt>, c: TanukiCompileTimeValue) -> bool {
    match r {
        Ok(x) => x.is_pure && same_optional_value(x.result_value, Some(c)),
        Err(_) => false,
    }
}

/// Whether the result's value is a type, the given one.
pub open spec fn gives_type(x: RValueConstComplicationResult, t: Option<TypeModel>) -> bool {
    x.result_value matches Some(TanukiCompileTimeValue::Type(u)) && Some(u.model()) == t
}

/// The argument expressions of `@u`, `@i` or `@f`.
pub open spec fn bit_width_arguments(v: TanukiExpressionVariant) -> Seq<TanukiExpression> {
    match v {
        TanukiExpressionVariant::U(a) => a@,
        TanukiExpressionVariant::I(a) => a@,
        TanukiExpressionVariant::F(a) => a@,
        _ => Seq::empty(),
    }
}

/// Which builtin type constructor an expression is.
pub open spec fn bit_width_kind(v: TanukiExpressionVariant) -> BitWidthKind {
    match v {
        TanukiExpressionVariant::U(_) => BitWidthKind::U,
        TanukiExpressionVariant::I(_) => BitWidthKind::I,
        _ => BitWidthKind::F,
    }
}


impl TanukiExpression {
    /// Const-compiles a type written before a value: the value cast to the type, once the type
    /// is known and pure.
    fn const_compile_type_and_value(
        &mut self,
        this_module: &TanukiModule,
        was_complication_done: &mut bool,
        local_variables: &mut Vec<Vec<LocalVariable>>,
        dependencies_need_const_compiling: &mut bool,
    ) -> (r: Result<(RValueConstComplicationResult, bool), ErrorAt>)
        requires
            old(local_variables)@.len() >= 1,
            old(self).variant is TypeAndValue,
        ensures
            keeps(
                *old(self),
                *final(self),
                *old(was_complication_done),
                *final(was_complication_done),
                *old(dependencies_need_const_compiling),
                *final(dependencies_need_const_compiling),
                old(local_variables)@,
                final(local_variables)@,
            ),
            r matches Ok((x, false)) ==> x.is_unknown(),
            folded_infix_constant(*old(self)) is Some ==> (r matches Ok((x, true)) && gives_int(
                x,
                folded_infix_constant(*old(self)).unwrap(),
            )),
            typed_constant(old(self).variant) is Some && !*old(dependencies_need_const_compiling) ==> (r matches Ok((x, true)) && x.is_pure
                && same_optional_value(x.result_value, typed_constant(old(self).variant))),
        decreases *old(self), 0nat,
    {
        let start_line = self.start_line;
        let start_column = self.start_column;
        let (type_expression, castee) = match &mut self.variant {
            TanukiExpressionVariant::TypeAndValue(t, c) => (t, c),
            _ => return Ok((RValueConstComplicationResult::unknown(), false)),
        };
        proof {
            assert(decreases_to!(*old(self) => old(self).variant));
            assert(decreases_to!(old(self).variant => old(self).variant->TypeAndValue_0));
            assert(decreases_to!(old(self).variant => old(self).variant->TypeAndValue_1));
        }
        let parsed = type_expression.const_compile_r_value(
            this_module,
            was_complication_done,
            local_variables,
            &TanukiType::Type,
            dependencies_need_const_compiling,
        )?;
        let target = match parsed.result_value {
            Some(TanukiCompileTimeValue::Type(t)) => t,
            _ => return Ok((RValueConstComplicationResult::unknown(), false)),
        };
        if !parsed.is_pure || *dependencies_need_const_compiling {
            return Ok((RValueConstComplicationResult::unknown(), false));
        }
        let result = castee.const_compile_r_value(
            this_module,
            was_complication_done,
            local_variables,
            &TanukiType::Any,
            dependencies_need_const_compiling,
        )?;
        if *dependencies_need_const_compiling {
            return Ok((RValueConstComplicationResult::unknown(), false));
        }
        let value = match result.result_value {
            Some(v) => match v.cast_to(&target, true) {
                Ok(v) => Some(v),
                Err(e) => return Err(e.at(Some(start_line), Some(start_column), None)),
            },
            None => None,
        };
        let t = match result.result_type {
            Some(t) => match t.cast_to(&target) {
                Ok(t) => Some(t),
                Err(e) => return Err(e.at(Some(start_line), Some(start_column), None)),
            },
            None => None,
        };
        Ok((RValueConstComplicationResult { result_value: value, result_type: t, is_pure: result.is_pure }, true))
    }

    /// Const-compiles an operator: its operands are const-compiled (operators on l-values as
    /// l-values), then the operator is evaluated on their values. Member access, casts and pipes
    /// are not const-compiled.
    fn const_compile_operator(
        &mut self,
        this_module: &TanukiModule,
        was_complication_done: &mut bool,
        local_variables: &mut Vec<Vec<LocalVariable>>,
        dependencies_need_const_compiling: &mut bool,
    ) -> (r: Result<(RValueConstComplicationResult, bool), ErrorAt>)
        requires
            old(local_variables)@.len() >= 1,
            const_compile_kind(old(self).variant) is Operator,
        ensures
            keeps(
                *old(self),
                *final(self),
                *old(was_complication_done),
                *final(was_complication_done),
                *old(dependencies_need_const_compiling),
                *final(dependencies_need_const_compiling),
                old(local_variables)@,
                final(local_variables)@,
            ),
            const_compile_kind(final(self).variant) is Operator,
            r matches Ok((x, false)) ==> x.is_unknown(),
            folded_operator_constant(*old(self)) is Some ==> (r matches Ok((x, true)) && gives_int(
                x,
                folded_operator_constant(*old(self)).unwrap(),
            )),
            folded_operator_constant(*old(self)) is Some ==> *final(dependencies_need_const_compiling) == *old(
                dependencies_need_const_compiling,
            ),
        decreases *old(self), 0nat,
    {
        let start_line = self.start_line;
        let start_column = self.start_column;
        proof {
            assert(decreases_to!(*old(self) => old(self).variant));
        }
        match &mut self.variant {
            TanukiExpressionVariant::NullaryOperator(op) => {
                let x = (*op).const_compile_r_value()?;
                Ok((x, true))
            },
            TanukiExpressionVariant::PrefixUnaryOperator(op, operand) => {
                proof {
                    assert(decreases_to!(old(self).variant => old(self).variant->PrefixUnaryOperator_1));
                }
                let op = *op;
                if is_l_value_prefix(op) {
                    let _ = operand.const_compile_l_value(
                        this_module,
                        was_complication_done,
                        local_variables,
                        &TanukiType::Any,
                        dependencies_need_const_compiling,
                    )?;
                    return Ok((RValueConstComplicationResult::unknown(), true));
                }
                if let TanukiPrefixUnaryOperator::MemberAccess = op {
                    return Ok((RValueConstComplicationResult::unknown(), true));
                }
                let o = operand.const_compile_r_value(
                    this_module,
                    was_complication_done,
                    local_variables,
                    &TanukiType::Any,
                    dependencies_need_const_compiling,
                )?;
                let x = op.const_compile_r_value(o)?;
                Ok((x, true))
            },
            TanukiExpressionVariant::PostfixUnaryOperator(op, operand) => {
                proof {
                    assert(decreases_to!(old(self).variant => old(self).variant->PostfixUnaryOperator_1));
                }
                let op = *op;
                let line = operand.start_line;
                let column = operand.start_column;
                if is_l_value_postfix(op) {
                    let _ = operand.const_compile_l_value(
                        this_module,
                        was_complication_done,
                        local_variables,
                        &TanukiType::Any,
                        dependencies_need_const_compiling,
                    )?;
                    return Ok((RValueConstComplicationResult::unknown(), true));
                }
                let o = operand.const_compile_r_value(
                    this_module,
                    was_complication_done,
                    local_variables,
                    &TanukiType::Any,
                    dependencies_need_const_compiling,
                )?;
                let x = op.const_compile_r_value(o, line, column)?;
                Ok((x, true))
            },
            TanukiExpressionVariant::InfixBinaryOperator(op, lhs, rhs) => {
                proof {
                    assert(decreases_to!(old(self).variant => old(self).variant->InfixBinaryOperator_1));
                    assert(decreases_to!(old(self).variant => old(self).variant->InfixBinaryOperator_2));
                }
                let op = *op;
                if !compiles_infix_operands(op) {
                    return Ok((RValueConstComplicationResult::unknown(), true));
                }
                let line = lhs.start_line;
                let column = lhs.start_column;
                let l = lhs.const_compile_r_value(
                    this_module,
                    was_complication_done,
                    local_variables,
                    &TanukiType::Any,
                    dependencies_need_const_compiling,
                )?;
                let rv = rhs.const_compile_r_value(
                    this_module,
                    was_complication_done,
                    local_variables,
                    &TanukiType::Any,
                    dependencies_need_const_compiling,
                )?;
                let too_far = match (&l.result_value, &rv.result_value) {
                    (Some(a), Some(b)) => shifts_too_far(op, a, b),
                    _ => false,
                };
                if too_far {
                    return Err(Error::IntegerOverflow.at(Some(start_line), Some(start_column), None));
                }
                proof {
                    if l.result_value is Some && rv.result_value is Some {
                        assert(!crate::programming_languages::tanuki::const_compile::infix_panics(
                            op,
                            l.result_value.unwrap(),
                            rv.result_value.unwrap(),
                        ));
                    }
                }
                let x = op.const_compile_r_value(l, rv, line, column)?;
                Ok((x, true))
            },
            TanukiExpressionVariant::InfixTernaryOperator(op, lhs, mhs, rhs) => {
                proof {
                    assert(decreases_to!(old(self).variant => old(self).variant->InfixTernaryOperator_1));
                    assert(decreases_to!(old(self).variant => old(self).variant->InfixTernaryOperator_2));
                    assert(decreases_to!(old(self).variant => old(self).variant->InfixTernaryOperator_3));
                }
                let op = *op;
                let a = lhs.const_compile_r_value(
                    this_module,
                    was_complication_done,
                    local_variables,
                    &TanukiType::Any,
                    dependencies_need_const_compiling,
                )?;
                let b = mhs.const_compile_r_value(
                    this_module,
                    was_complication_done,
                    local_variables,
                    &TanukiType::Any,
                    dependencies_need_const_compiling,
                )?;
                let c = rhs.const_compile_r_value(
                    this_module,
                    was_complication_done,
                    local_variables,
                    &TanukiType::Any,
                    dependencies_need_const_compiling,
                )?;
                let x = op.const_compile_r_value(a, b, c)?;
                Ok((x, true))
            },
            _ => Ok((RValueConstComplicationResult::unknown(), true)),
        }
    }
}


impl TanukiExpression {
    /// Const-compiles the expression as an l-value of a type: the local variable it names, if any,
    /// declared in the innermost scope (with the type, its value unknown) when no scope has it, and
    /// the type of the l-value. A type written before a variable gives the variable that type.
    pub fn const_compile_l_value(
        &mut self,
        this_module: &TanukiModule,
        was_complication_done: &mut bool,
        local_variables: &mut Vec<Vec<LocalVariable>>,
        result_type: &TanukiType,
        dependencies_need_const_compiling: &mut bool,
    ) -> (r: Result<(Option<CompileTimeLValue>, TanukiType), ErrorAt>)
        requires
            old(local_variables)@.len() >= 1,
        ensures
            keeps(
                *old(self),
                *final(self),
                *old(was_complication_done),
                *final(was_complication_done),
                *old(dependencies_need_const_compiling),
                *final(dependencies_need_const_compiling),
                old(local_variables)@,
                final(local_variables)@,
            ),
            old(self).variant is Constant ==> is_constant_l_value_error(r, old(self).start_line, old(self).start_column),
            old(self).variant is Variable && !in_scopes(old(local_variables)@, old(self).variant->Variable_0@) ==> declares(
                r,
                old(local_variables)@,
                final(local_variables)@,
                old(self).variant->Variable_0@,
                result_type.model(),
            ),
            old(self).variant is Variable && in_scopes(old(local_variables)@, old(self).variant->Variable_0@) ==> (r is Ok
                && *final(local_variables) == *old(local_variables)),
        decreases *old(self), 1nat,
    {
        let start_line = self.start_line;
        let start_column = self.start_column;
        proof {
            assert(decreases_to!(*old(self) => old(self).variant));
        }
        match &mut self.variant {
            TanukiExpressionVariant::Constant(_) => Err(
                Error::Unimplemented(str_to_chars("Using a constant as a l-value")).at(Some(start_line), Some(start_column), None),
            ),
            TanukiExpressionVariant::Variable(name) => match find_local(local_variables, name) {
                None => {
                    let level = local_variables.len();
                    let last = local_variables.len() - 1;
                    let ghost before = local_variables@;
                    local_variables[last].push(LocalVariable { name: clone_chars(name), t_type: result_type.deep_clone(), value: None });
                    proof {
                        assert(local_variables@.drop_last() =~= before.drop_last());
                        assert(local_variables@.last()@.drop_last() =~= before.last()@);
                    }
                    Ok((Some(CompileTimeLValue::LocalVariable { name: clone_chars(name), block_level: level }), result_type.deep_clone()))
                },
                Some((i, j)) => {
                    let t = local_variables[i][j].t_type.deep_clone();
                    Ok((Some(CompileTimeLValue::LocalVariable { name: clone_chars(name), block_level: i }), t))
                },
            },
            TanukiExpressionVariant::TypeAndValue(type_expression, value_expression) => {
                proof {
                    assert(decreases_to!(old(self).variant => old(self).variant->TypeAndValue_0));
                    assert(decreases_to!(old(self).variant => old(self).variant->TypeAndValue_1));
                }
                let parsed = type_expression.const_compile_r_value(
                    this_module,
                    was_complication_done,
                    local_variables,
                    &TanukiType::Type,
                    dependencies_need_const_compiling,
                )?;
                let t = match parsed.result_value {
                    Some(TanukiCompileTimeValue::Type(t)) => t,
                    Some(_) => return Ok((None, TanukiType::Any)),
                    None => TanukiType::Any,
                };
                if *dependencies_need_const_compiling {
                    return Ok((None, TanukiType::Any));
                }
                let _ = value_expression.const_compile_l_value(
                    this_module,
                    was_complication_done,
                    local_variables,
                    &t,
                    dependencies_need_const_compiling,
                )?;
                Ok((None, t))
            },
            _ => Ok((None, TanukiType::Any)),
        }
    }
}

/// Whether the result is the error for using a constant as an l-value, at a place.
pub open spec fn is_constant_l_value_error(r: Result<(Option<CompileTimeLValue>, TanukiType), ErrorAt>, line: usize, column: usize) -> bool {
    match r {
        Err(e) => e.line == Some(line) && e.column == Some(column) && match e.error {
            Error::Unimplemented(m) => m@ == "Using a constant as a l-value"@,
            _ => false,
        },
        Ok(_) => false,
    }
}

/// Whether the l-value is a new local variable of a name and type, declared at the end of the
/// innermost scope, its value unknown, with the number of scopes as its block level.
pub open spec fn declares(
    r: Result<(Option<CompileTimeLValue>, TanukiType), ErrorAt>,
    old_scopes: Seq<Vec<LocalVariable>>,
    new_scopes: Seq<Vec<LocalVariable>>,
    name: Seq<char>,
    t: TypeModel,
) -> bool {
    &&& match r {
        Ok((Some(CompileTimeLValue::LocalVariable { name: n, block_level }), u)) => n@ == name && block_level == old_scopes.len()
            && u.model() == t,
        _ => false,
    }
    &&& new_scopes.len() == old_scopes.len()
    &&& new_scopes.drop_last() == old_scopes.drop_last()
    &&& new_scopes.last()@.drop_last() == old_scopes.last()@
    &&& new_scopes.last()@.last().name@ == name
    &&& new_scopes.last()@.last().t_type.model() == t
    &&& new_scopes.last()@.last().value is None
}


impl TanukiExpression {
    /// Const-compiles an assignment: the l-value, then the value as one of the l-value's type.
    /// An assignment is never pure.
    fn const_compile_assignment(
        &mut self,
        this_module: &TanukiModule,
        was_complication_done: &mut bool,
        local_variables: &mut Vec<Vec<LocalVariable>>,
        dependencies_need_const_compiling: &mut bool,
    ) -> (r: Result<(RValueConstComplicationResult, bool), ErrorAt>)
        requires
            old(local_variables)@.len() >= 1,
            old(self).variant is Assignment,
        ensures
            keeps(
                *old(self),
                *final(self),
                *old(was_complication_done),
                *final(was_complication_done),
                *old(dependencies_need_const_compiling),
                *final(dependencies_need_const_compiling),
                old(local_variables)@,
                final(local_variables)@,
            ),
            r matches Ok((x, false)) ==> x.is_unknown(),
            r matches Ok((x, true)) ==> !x.is_pure,
            declares_constant(old(self).variant, old(local_variables)@) ==> r is Ok,
        decreases *old(self), 0nat,
    {
        let (l, value) = match &mut self.variant {
            TanukiExpressionVariant::Assignment(l, value) => (l, value),
            _ => return Ok((RValueConstComplicationResult::unknown(), false)),
        };
        proof {
            assert(decreases_to!(*old(self) => old(self).variant));
            assert(decreases_to!(old(self).variant => old(self).variant->Assignment_0));
            assert(decreases_to!(old(self).variant => old(self).variant->Assignment_1));
        }
        let (_l_value, l_value_type) = l.const_compile_l_value(
            this_module,
            was_complication_done,
            local_variables,
            &TanukiType::Any,
            dependencies_need_const_compiling,
        )?;
        if *dependencies_need_const_compiling {
            return Ok((RValueConstComplicationResult::unknown(), false));
        }
        let mut value_result = value.const_compile_r_value(
            this_module,
            was_complication_done,
            local_variables,
            &l_value_type,
            dependencies_need_const_compiling,
        )?;
        value_result.is_pure = false;
        Ok((value_result, true))
    }

    /// Const-compiles a block in a scope of its own: its expressions (the pure ones are dropped,
    /// each dropped one skipping the one after it), then its return expressions. A block of one
    /// unnamed return expression gives what that expression gives, as one of the wanted type, pure
    /// only when the block has no other expression left; a block without return expressions gives
    /// void; any other block gives no value.
    #[verifier::loop_isolation(false)]
    fn const_compile_block(
        &mut self,
        this_module: &TanukiModule,
        was_complication_done: &mut bool,
        local_variables: &mut Vec<Vec<LocalVariable>>,
        result_type: &TanukiType,
        dependencies_need_const_compiling: &mut bool,
    ) -> (r: Result<(RValueConstComplicationResult, bool), ErrorAt>)
        requires
            old(local_variables)@.len() >= 1,
            old(self).variant is Block,
        ensures
            keeps(
                *old(self),
                *final(self),
                *old(was_complication_done),
                *final(was_complication_done),
                *old(dependencies_need_const_compiling),
                *final(dependencies_need_const_compiling),
                old(local_variables)@,
                final(local_variables)@,
            ),
            r matches Ok((x, false)) ==> x.is_unknown(),
            is_constant_block(old(self).variant) && !*old(dependencies_need_const_compiling) ==> (r matches Ok((x, true))
                && x.result_value == Some(TanukiCompileTimeValue::Void) && !x.is_pure),
            single_constant_return(old(self).variant) is Some && fits(single_constant_return(old(self).variant).unwrap(), result_type.model())
                && !*old(dependencies_need_const_compiling) ==> (r matches Ok((x, true)) && x.is_pure && same_optional_value(
                x.result_value,
                single_constant_return(old(self).variant),
            )),
        decreases *old(self), 0nat,
    {
        let (sub_expressions, return_expressions) = match &mut self.variant {
            TanukiExpressionVariant::Block { sub_expressions, return_expressions } => (sub_expressions, return_expressions),
            _ => return Ok((RValueConstComplicationResult::unknown(), false)),
        };
        let ghost subs_before = old(self).variant->Block_sub_expressions@;
        let ghost returns_before = old(self).variant->Block_return_expressions@;
        proof {
            assert(decreases_to!(*old(self) => old(self).variant));
            assert(decreases_to!(old(self).variant => old(self).variant->Block_sub_expressions));
            assert(decreases_to!(old(self).variant->Block_sub_expressions => subs_before));
            assert(decreases_to!(old(self).variant => old(self).variant->Block_return_expressions));
            assert(decreases_to!(old(self).variant->Block_return_expressions => returns_before));
        }
        local_variables.push(Vec::new());
        let mut is_pure = true;
        let mut x: usize = 0;
        let ghost mut k: int = 0;
        while x < sub_expressions.len()
            invariant
                old(self).variant is Block,
                subs_before == old(self).variant->Block_sub_expressions@,
                returns_before == old(self).variant->Block_return_expressions@,
                decreases_to!(*old(self) => subs_before),
                decreases_to!(*old(self) => returns_before),
                *return_expressions == old(self).variant->Block_return_expressions,
                local_variables@.len() >= old(local_variables)@.len() + 1,
                *old(was_complication_done) ==> *was_complication_done,
                *old(dependencies_need_const_compiling) ==> *dependencies_need_const_compiling,
                0 <= k,
                x <= sub_expressions@.len() + 1,
                sub_expressions@.len() - x == subs_before.len() - k,
                forall|j: int| x <= j < sub_expressions@.len() ==> sub_expressions@[j] == subs_before[k + j - x],
                is_constant_block(old(self).variant) && !*old(dependencies_need_const_compiling) ==> !*dependencies_need_const_compiling,
                single_constant_return(old(self).variant) is Some && !*old(dependencies_need_const_compiling) ==> (
                !*dependencies_need_const_compiling && sub_expressions@.len() == 0),
            decreases sub_expressions@.len() + 1 - x,
        {
            proof {
                assert(sub_expressions@[x as int] == subs_before[k]);
                if is_constant_block(old(self).variant) {
                    assert(constant_of(subs_before[k]) is Some);
                }
                assert(decreases_to!(subs_before => subs_before[k]));
            }
            let sub_result = sub_expressions[x].const_compile_r_value(
                this_module,
                was_complication_done,
                local_variables,
                &TanukiType::Any,
                dependencies_need_const_compiling,
            )?;
            if *dependencies_need_const_compiling {
                return Ok((RValueConstComplicationResult::unknown(), false));
            }
            if sub_result.is_pure {
                let _ = sub_expressions.remove(x);
                proof {
                    k = k + 2;
                }
            } else {
                proof {
                    k = k + 1;
                }
            }
            is_pure = is_pure && sub_result.is_pure;
            x = x + 1;
        }
        let return_expressions_len = return_expressions.len();
        let mut j: usize = 0;
        while j < return_expressions.len()
            invariant
                old(self).variant is Block,
                returns_before == old(self).variant->Block_return_expressions@,
                decreases_to!(*old(self) => returns_before),
                return_expressions@.len() == returns_before.len(),
                return_expressions_len == returns_before.len(),
                forall|i: int| j <= i < return_expressions@.len() ==> return_expressions@[i] == returns_before[i],
                single_constant_return(old(self).variant) is Some && !*old(dependencies_need_const_compiling) ==> (j == 0
                    && !*dependencies_need_const_compiling && sub_expressions@.len() == 0),
                local_variables@.len() >= old(local_variables)@.len() + 1,
                *old(was_complication_done) ==> *was_complication_done,
                *old(dependencies_need_const_compiling) ==> *dependencies_need_const_compiling,
            decreases return_expressions@.len() - j,
        {
            let single = return_expressions_len == 1 && return_expressions[j].0.is_none();
            let wanted = if single {
                result_type.deep_clone()
            } else {
                TanukiType::Any
            };
            proof {
                assert(return_expressions@[j as int] == returns_before[j as int]);
                assert(decreases_to!(returns_before => returns_before[j as int]));
                assert(decreases_to!(returns_before[j as int] => returns_before[j as int].1));
            }
            let mut return_result = return_expressions[j].1.const_compile_r_value(
                this_module,
                was_complication_done,
                local_variables,
                &wanted,
                dependencies_need_const_compiling,
            )?;
            if *dependencies_need_const_compiling {
                return Ok((RValueConstComplicationResult::unknown(), false));
            }
            if single {
                if sub_expressions.len() > 0 {
                    return_result.is_pure = false;
                }
                return Ok((return_result, true));
            }
            is_pure = is_pure && return_result.is_pure;
            j = j + 1;
        }
        let _ = local_variables.pop();
        if return_expressions.len() == 0 {
            return Ok(
                (RValueConstComplicationResult { result_value: Some(TanukiCompileTimeValue::Void), result_type: None, is_pure: false }, true),
            );
        }
        Ok((RValueConstComplicationResult { result_value: None, result_type: None, is_pure }, true))
    }

    /// Const-compiles a function call: its arguments, then the function. Nothing is known of what a
    /// call gives.
    #[verifier::loop_isolation(false)]
    fn const_compile_function_call(
        &mut self,
        this_module: &TanukiModule,
        was_complication_done: &mut bool,
        local_variables: &mut Vec<Vec<LocalVariable>>,
        dependencies_need_const_compiling: &mut bool,
    ) -> (r: Result<(RValueConstComplicationResult, bool), ErrorAt>)
        requires
            old(local_variables)@.len() >= 1,
            old(self).variant is FunctionCall,
        ensures
            keeps(
                *old(self),
                *final(self),
                *old(was_complication_done),
                *final(was_complication_done),
                *old(dependencies_need_const_compiling),
                *final(dependencies_need_const_compiling),
                old(local_variables)@,
                final(local_variables)@,
            ),
            r matches Ok((x, _)) ==> x.is_unknown(),
            is_constant_call(old(self).variant) && !*old(dependencies_need_const_compiling) ==> r matches Ok((_, true)),
        decreases *old(self), 0nat,
    {
        let (function_pointer, arguments) = match &mut self.variant {
            TanukiExpressionVariant::FunctionCall { function_pointer, arguments } => (function_pointer, arguments),
            _ => return Ok((RValueConstComplicationResult::unknown(), false)),
        };
        let ghost subs_before = old(self).variant->FunctionCall_arguments@;
        proof {
            assert(decreases_to!(*old(self) => old(self).variant));
            assert(decreases_to!(old(self).variant => old(self).variant->FunctionCall_function_pointer));
            assert(decreases_to!(old(self).variant => old(self).variant->FunctionCall_arguments));
            assert(decreases_to!(old(self).variant->FunctionCall_arguments => subs_before));
        }
        let mut i: usize = 0;
        while i < arguments.len()
            invariant
                old(self).variant is FunctionCall,
                subs_before == old(self).variant->FunctionCall_arguments@,
                decreases_to!(*old(self) => subs_before),
                *function_pointer == old(self).variant->FunctionCall_function_pointer,
                arguments@.len() == subs_before.len(),
                forall|j: int| i <= j < arguments@.len() ==> arguments@[j] == subs_before[j],
                local_variables@.len() >= old(local_variables)@.len(),
                *old(was_complication_done) ==> *was_complication_done,
                *old(dependencies_need_const_compiling) ==> *dependencies_need_const_compiling,
                is_constant_call(old(self).variant) && !*old(dependencies_need_const_compiling) ==> !*dependencies_need_const_compiling,
            decreases arguments@.len() - i,
        {
            proof {
                assert(decreases_to!(subs_before => subs_before[i as int]));
            }
            let _ = arguments[i].const_compile_r_value(
                this_module,
                was_complication_done,
                local_variables,
                &TanukiType::Any,
                dependencies_need_const_compiling,
            )?;
            if *dependencies_need_const_compiling {
                return Ok((RValueConstComplicationResult::unknown(), false));
            }
            i = i + 1;
        }
        let _ = function_pointer.const_compile_r_value(
            this_module,
            was_complication_done,
            local_variables,
            &TanukiType::Any,
            dependencies_need_const_compiling,
        )?;
        if *dependencies_need_const_compiling {
            return Ok((RValueConstComplicationResult::unknown(), false));
        }
        Ok((RValueConstComplicationResult::unknown(), true))
    }

    /// Const-compiles a transmute: the value, then the type. Nothing is known of what it gives.
    fn const_compile_transmute(
        &mut self,
        this_module: &TanukiModule,
        was_complication_done: &mut bool,
        local_variables: &mut Vec<Vec<LocalVariable>>,
        dependencies_need_const_compiling: &mut bool,
    ) -> (r: Result<(RValueConstComplicationResult, bool), ErrorAt>)
        requires
            old(local_variables)@.len() >= 1,
            old(self).variant is Transmute,
        ensures
            keeps(
                *old(self),
                *final(self),
                *old(was_complication_done),
                *final(was_complication_done),
                *old(dependencies_need_const_compiling),
                *final(dependencies_need_const_compiling),
                old(local_variables)@,
                final(local_variables)@,
            ),
            r matches Ok((x, _)) ==> x.is_unknown(),
            is_constant_transmute(old(self).variant) && !*old(dependencies_need_const_compiling) ==> r matches Ok((_, true)),
        decreases *old(self), 0nat,
    {
        let (to_transmute, transmute_to_type) = match &mut self.variant {
            TanukiExpressionVariant::Transmute { to_transmute, transmute_to_type } => (to_transmute, transmute_to_type),
            _ => return Ok((RValueConstComplicationResult::unknown(), false)),
        };
        proof {
            assert(decreases_to!(*old(self) => old(self).variant));
            assert(decreases_to!(old(self).variant => old(self).variant->Transmute_to_transmute));
            assert(decreases_to!(old(self).variant => old(self).variant->Transmute_transmute_to_type));
        }
        let _ = to_transmute.const_compile_r_value(
            this_module,
            was_complication_done,
            local_variables,
            &TanukiType::Any,
            dependencies_need_const_compiling,
        )?;
        if *dependencies_need_const_compiling {
            return Ok((RValueConstComplicationResult::unknown(), false));
        }
        let _ = transmute_to_type.const_compile_r_value(
            this_module,
            was_complication_done,
            local_variables,
            &TanukiType::Type,
            dependencies_need_const_compiling,
        )?;
        if *dependencies_need_const_compiling {
            return Ok((RValueConstComplicationResult::unknown(), false));
        }
        Ok((RValueConstComplicationResult::unknown(), true))
    }
}


/// The same value is of the same type.
pub proof fn lemma_same_value_same_type(a: TanukiCompileTimeValue, b: TanukiCompileTimeValue)
    requires
        same_value(a, b),
    ensures
        a.type_model() == b.type_model(),
{
}

/// Once const-compiling gives a pure value of the wanted type, the expression has become a constant
/// of that type: const-compiling it again to the type leaves it as it is, gives the same value, and
/// reports that nothing was const-compiled.
pub proof fn law_folded_expression_is_a_fixpoint(x: RValueConstComplicationResult, e: TanukiExpression, t: TypeModel)
    requires
        x.is_pure,
        x.result_value is Some,
        is_typed_result(x, t),
        folded_into(x, e),
    ensures
        constant_of(e) is Some,
        fits(constant_of(e).unwrap(), t),
        same_value(constant_of(e).unwrap(), x.result_value.unwrap()),
{
    lemma_same_value_same_type(constant_of(e).unwrap(), x.result_value.unwrap());
}

impl TanukiGlobalConstant {
    /// Const-compiles the constant against the module it belongs to (which does not hold it while
    /// it is compiled): its type, when it has one, then its value as one of that type. When the
    /// type does not become a known type the constant is not compiled further and `ExpectedType`
    /// is given.
    pub fn const_compile(
        &mut self,
        this_module: &TanukiModule,
        was_complication_done: &mut bool,
        dependencies_need_const_compiling: &mut bool,
    ) -> (r: Result<(), ErrorAt>)
        ensures
            *old(was_complication_done) ==> *final(was_complication_done),
            *old(dependencies_need_const_compiling) ==> *final(dependencies_need_const_compiling),
            final(self).name == old(self).name,
            final(self).export == old(self).export,
            final(self).start_line == old(self).start_line && final(self).start_column == old(self).start_column,
            old(self).t_type is None && constant_of(old(self).value_expression) is Some ==> (r is Ok
                && final(self).value_expression == old(self).value_expression && *final(self) == *old(self)),
            old(self).t_type is None && !*old(dependencies_need_const_compiling) && folded_infix_constant(old(self).value_expression) is Some
                ==> (r is Ok && holds_int_constant(final(self).value_expression, folded_infix_constant(old(self).value_expression).unwrap())),
            old(self).t_type matches Some(t) && constant_of(t) matches Some(TanukiCompileTimeValue::Type(ty)) && constant_of(
                old(self).value_expression,
            ) is Some && fits(constant_of(old(self).value_expression).unwrap(), ty.model()) && !*old(dependencies_need_const_compiling) ==> (
            r is Ok && final(self).value_expression == old(self).value_expression && final(self).t_type == old(self).t_type),
    {
        let mut scopes: Vec<Vec<LocalVariable>> = Vec::new();
        scopes.push(Vec::new());
        match &mut self.t_type {
            Some(t_type) => {
                let _ = t_type.const_compile_r_value(
                    this_module,
                    was_complication_done,
                    &mut scopes,
                    &TanukiType::Type,
                    dependencies_need_const_compiling,
                )?;
            },
            None => {},
        }
        if *dependencies_need_const_compiling {
            return Ok(());
        }
        let result_type = match &self.t_type {
            None => TanukiType::Any,
            Some(e) => match &e.variant {
                TanukiExpressionVariant::Constant(TanukiCompileTimeValue::Type(t)) => t.deep_clone(),
                _ => return Err(Error::ExpectedType.at(Some(self.start_line), Some(self.start_column), None)),
            },
        };
        let mut scopes: Vec<Vec<LocalVariable>> = Vec::new();
        scopes.push(Vec::new());
        let _ = self.value_expression.const_compile_r_value(
            this_module,
            was_complication_done,
            &mut scopes,
            &result_type,
            dependencies_need_const_compiling,
        )?;
        Ok(())
    }
}

/// Whether every global constant slot of a module holds a constant.
pub open spec fn all_constants_present(m: TanukiModule) -> bool {
    forall|i: int| 0 <= i < m.global_constants@.len() ==> (#[trigger] m.global_constants@[i]) is Some
}

/// Whether every global constant of a module is there, without a type, and a constant value.
pub open spec fn all_plain_constants(m: TanukiModule) -> bool {
    forall|i: int| 0 <= i < m.global_constants@.len() ==> is_plain_constant(#[trigger] m.global_constants@[i])
}

/// Whether a global constant slot holds a constant without a type whose value is a constant.
pub open spec fn is_plain_constant(slot: Option<TanukiGlobalConstant>) -> bool {
    slot matches Some(c) && c.t_type is None && constant_of(c.value_expression) is Some
}

/// Whether two global constants share a name while both are constants of different values.
pub open spec fn conflicting_constants(a: TanukiGlobalConstant, b: TanukiGlobalConstant) -> bool {
    &&& a.name@ == b.name@
    &&& constant_of(a.value_expression) is Some
    &&& constant_of(b.value_expression) is Some
    &&& !same_value(constant_of(a.value_expression).unwrap(), constant_of(b.value_expression).unwrap())
}

/// Whether a module has two global constants of one name with different constant values.
pub open spec fn has_conflicting_constants(m: TanukiModule) -> bool {
    exists|i: int, j: int|
        0 <= i < m.global_constants@.len() && 0 <= j < m.global_constants@.len() && i != j && conflicting_constants(
            (#[trigger] m.global_constants@[i]).unwrap(),
            (#[trigger] m.global_constants@[j]).unwrap(),
        )
}

impl TanukiModule {
    /// Const-compiles the global constants of the module, each in turn, then checks that no two
    /// constants of one name have become different values. Functions are not const-compiled.
    pub fn const_compile_globals(&mut self, was_complication_done: &mut bool) -> (r: Result<(), ErrorAt>)
        requires
            all_constants_present(*old(self)),
        ensures
            *old(was_complication_done) ==> *final(was_complication_done),
            final(self).global_constants@.len() == old(self).global_constants@.len(),
            final(self).parsed_expressions == old(self).parsed_expressions,
            r is Ok ==> all_constants_present(*final(self)) && !has_conflicting_constants(*final(self)),
            all_plain_constants(*old(self)) ==> final(self).global_constants@ == old(self).global_constants@ && (r is Ok
                <==> !has_conflicting_constants(*old(self))),
    {
        let mut x: usize = 0;
        while x < self.global_constants.len()
            invariant
                x <= self.global_constants@.len(),
                self.global_constants@.len() == old(self).global_constants@.len(),
                self.parsed_expressions == old(self).parsed_expressions,
                all_constants_present(*self),
                *old(was_complication_done) ==> *was_complication_done,
                all_plain_constants(*old(self)) ==> self.global_constants@ == old(self).global_constants@,
            decreases self.global_constants@.len() - x,
        {
            let ghost before = self.global_constants@;
            let slot = self.global_constants[x].take();
            match slot {
                Some(mut constant) => {
                    let mut dependencies = false;
                    let result = constant.const_compile(self, was_complication_done, &mut dependencies);
                    self.global_constants.set(x, Some(constant));
                    proof {
                        if all_plain_constants(*old(self)) {
                            assert(self.global_constants@ =~= before);
                        }
                    }
                    match result {
                        Ok(()) => {},
                        Err(e) => return Err(e),
                    }
                },
                None => {
                    proof {
                        assert(old(self).global_constants@.len() > 0);
                    }
                    self.global_constants.set(x, None);
                },
            }
            x = x + 1;
        }
        self.check_global_constants()
    }

    /// Checks that no two global constants of one name have different constant values: the
    /// error is placed at the first of such a pair.
    pub fn check_global_constants(&self) -> (r: Result<(), ErrorAt>)
        requires
            all_constants_present(*self),
        ensures
            r is Ok <==> !has_conflicting_constants(*self),
            r matches Err(e) ==> e.error is DuplicateGlobalVariableWithDifferentValues,
    {
        let n = self.global_constants.len();
        let mut i: usize = 0;
        while i < n
            invariant
                n == self.global_constants@.len(),
                i <= n,
                all_constants_present(*self),
                forall|a: int, b: int|
                    0 <= a < i && 0 <= b < n && a != b ==> !conflicting_constants(
                        (#[trigger] self.global_constants@[a]).unwrap(),
                        (#[trigger] self.global_constants@[b]).unwrap(),
                    ),
            decreases n - i,
        {
            let mut j: usize = 0;
            while j < n
                invariant
                    n == self.global_constants@.len(),
                    i < n,
                    j <= n,
                    all_constants_present(*self),
                    forall|a: int, b: int|
                        0 <= a < i && 0 <= b < n && a != b ==> !conflicting_constants(
                            (#[trigger] self.global_constants@[a]).unwrap(),
                            (#[trigger] self.global_constants@[b]).unwrap(),
                        ),
                    forall|b: int|
                        0 <= b < j && b != i ==> !conflicting_constants(
                            self.global_constants@[i as int].unwrap(),
                            (#[trigger] self.global_constants@[b]).unwrap(),
                        ),
                decreases n - j,
            {
                if i != j {
                    let conflict = match (&self.global_constants[i], &self.global_constants[j]) {
                        (Some(a), Some(b)) => {
                            if chars_eq(a.name.as_slice(), b.name.as_slice()) {
                                match (&a.value_expression.variant, &b.value_expression.variant) {
                                    (TanukiExpressionVariant::Constant(va), TanukiExpressionVariant::Constant(vb)) => !values_same(va, vb),
                                    _ => false,
                                }
                            } else {
                                false
                            }
                        },
                        _ => false,
                    };
                    if conflict {
                        let (line, column) = match &self.global_constants[i] {
                            Some(a) => (a.start_line, a.start_column),
                            None => (1, 1),
                        };
                        proof {
                            assert(has_conflicting_constants(*self)) by {
                                assert(conflicting_constants(
                                    self.global_constants@[i as int].unwrap(),
                                    self.global_constants@[j as int].unwrap(),
                                ));
                            }
                        }
                        return Err(Error::DuplicateGlobalVariableWithDifferentValues.at(Some(line), Some(column), None));
                    }
                }
                j = j + 1;
            }
            i = i + 1;
        }
        Ok(())
    }
}

} // verus!
