//! The printed trees of Tanuki values, types, expressions and modules.
use vstd::prelude::*;

use crate::programming_languages::c::{concat, lemma_concat_take};
use crate::programming_languages::tanuki::compile_time_value::TanukiCompileTimeValue;
use crate::programming_languages::tanuki::expression::{TanukiExpression, TanukiExpressionVariant};
use crate::programming_languages::tanuki::global_constant::TanukiGlobalConstant;
use crate::programming_languages::tanuki::parse::TanukiModule;
use crate::programming_languages::tanuki::t_type::{FunctionPointerType, TanukiType};
use crate::text::{push_chars, push_str, str_debug, str_debug_text, str_to_chars};
use crate::traits::ast_node::{deeper, node_line, push_node_line};

verus! {

impl TanukiType {
    /// The printed tree of the type.
    pub open spec fn tree(&self, dashes: Seq<char>) -> Seq<char>
        decreases self, 2nat,
    {
        node_line(dashes, None, self.model().spec_print_name()) + match self {
            TanukiType::Pointer(pointee) => pointee.tree(dashes.push('-')),
            TanukiType::FunctionPointer(f) => f.tree(dashes.push('-')),
            TanukiType::FunctionPointerEnum(fs) => function_pointer_trees(fs@, dashes.push('-')),
            TanukiType::Struct { ordered_members, named_members } => type_trees(ordered_members@, dashes.push('-'))
                + named_type_trees(named_members@, dashes.push('-')),
            TanukiType::TypeEnum(ts) => type_trees(ts@, dashes.push('-')),
            _ => Seq::empty(),
        }
    }

    /// Writes the printed tree of the type.
    pub fn print_tree(&self, out: &mut Vec<char>, dashes: &Vec<char>)
        ensures
            final(out)@ == old(out)@ + self.tree(dashes@),
        decreases self,
    {
        let mut name: Vec<char> = Vec::new();
        self.print_name(&mut name);
        push_node_line(out, dashes, None, name.as_slice());
        let below = deeper(dashes);
        match self {
            TanukiType::Pointer(pointee) => pointee.print_tree(out, &below),
            TanukiType::FunctionPointer(f) => f.print_tree(out, &below),
            TanukiType::FunctionPointerEnum(fs) => print_function_pointer_trees(fs, out, &below),
            TanukiType::Struct { ordered_members, named_members } => {
                print_type_trees(ordered_members, out, &below);
                print_named_type_trees(named_members, out, &below);
            },
            TanukiType::TypeEnum(ts) => print_type_trees(ts, out, &below),
            _ => {},
        }
    }
}

/// The printed tree of each type.
pub open spec fn type_tree_parts(ts: Seq<TanukiType>, dashes: Seq<char>) -> Seq<Seq<char>>
    decreases ts, 0nat,
{
    Seq::new(ts.len(), |i: int| if 0 <= i < ts.len() { ts[i].tree(dashes) } else { Seq::empty() })
}

/// The printed trees of types, one after the other.
pub open spec fn type_trees(ts: Seq<TanukiType>, dashes: Seq<char>) -> Seq<char>
    decreases ts, 1nat,
{
    concat(type_tree_parts(ts, dashes))
}

/// The printed tree of the type of each named member.
pub open spec fn named_type_tree_parts(ns: Seq<(Vec<char>, TanukiType)>, dashes: Seq<char>) -> Seq<Seq<char>>
    decreases ns, 0nat,
{
    Seq::new(ns.len(), |i: int| if 0 <= i < ns.len() { ns[i].1.tree(dashes) } else { Seq::empty() })
}

/// The printed trees of the types of named members, one after the other.
pub open spec fn named_type_trees(ns: Seq<(Vec<char>, TanukiType)>, dashes: Seq<char>) -> Seq<char>
    decreases ns, 1nat,
{
    concat(named_type_tree_parts(ns, dashes))
}

/// The printed tree of each function pointer type.
pub open spec fn function_pointer_tree_parts(fs: Seq<FunctionPointerType>, dashes: Seq<char>) -> Seq<Seq<char>>
    decreases fs, 0nat,
{
    Seq::new(fs.len(), |i: int| if 0 <= i < fs.len() { fs[i].tree(dashes) } else { Seq::empty() })
}

/// The printed trees of function pointer types, one after the other.
pub open spec fn function_pointer_trees(fs: Seq<FunctionPointerType>, dashes: Seq<char>) -> Seq<char>
    decreases fs, 1nat,
{
    concat(function_pointer_tree_parts(fs, dashes))
}

/// Writes the printed trees of the types of named members, one after the other.
pub fn print_named_type_trees(ns: &Vec<(Vec<char>, TanukiType)>, out: &mut Vec<char>, dashes: &Vec<char>)
    ensures
        final(out)@ == old(out)@ + named_type_trees(ns@, dashes@),
    decreases ns,
{
    let ghost start = out@;
    let ghost parts = named_type_tree_parts(ns@, dashes@);
    let mut i: usize = 0;
    while i < ns.len()
        invariant
            i <= ns@.len(),
            parts == named_type_tree_parts(ns@, dashes@),
            out@ == start + concat(parts.take(i as int)),
        decreases ns@.len() - i,
    {
        proof {
            lemma_concat_take(parts, i as int);
            assert(decreases_to!(ns => ns@));
            assert(decreases_to!(ns@ => ns@[i as int]));
            assert(decreases_to!(ns@[i as int] => ns@[i as int].1));
        }
        ns[i].1.print_tree(out, dashes);
        i = i + 1;
    }
    proof {
        assert(parts.take(ns@.len() as int) =~= parts);
    }
}

/// Writes the printed trees of function pointer types, one after the other.
pub fn print_function_pointer_trees(fs: &Vec<FunctionPointerType>, out: &mut Vec<char>, dashes: &Vec<char>)
    ensures
        final(out)@ == old(out)@ + function_pointer_trees(fs@, dashes@),
    decreases fs,
{
    let ghost start = out@;
    let ghost parts = function_pointer_tree_parts(fs@, dashes@);
    let mut i: usize = 0;
    while i < fs.len()
        invariant
            i <= fs@.len(),
            parts == function_pointer_tree_parts(fs@, dashes@),
            out@ == start + concat(parts.take(i as int)),
        decreases fs@.len() - i,
    {
        proof {
            lemma_concat_take(parts, i as int);
            assert(decreases_to!(fs => fs@));
            assert(decreases_to!(fs@ => fs@[i as int]));
        }
        fs[i].print_tree(out, dashes);
        i = i + 1;
    }
    proof {
        assert(parts.take(fs@.len() as int) =~= parts);
    }
}

/// Writes the printed trees of types, one after the other.
pub fn print_type_trees(ts: &Vec<TanukiType>, out: &mut Vec<char>, dashes: &Vec<char>)
    ensures
        final(out)@ == old(out)@ + type_trees(ts@, dashes@),
    decreases ts,
{
    let ghost start = out@;
    let ghost parts = type_tree_parts(ts@, dashes@);
    let mut i: usize = 0;
    while i < ts.len()
        invariant
            i <= ts@.len(),
            parts == type_tree_parts(ts@, dashes@),
            out@ == start + concat(parts.take(i as int)),
        decreases ts@.len() - i,
    {
        proof {
            lemma_concat_take(parts, i as int);
            assert(decreases_to!(ts => ts@));
            assert(decreases_to!(ts@ => ts@[i as int]));
        }
        ts[i].print_tree(out, dashes);
        i = i + 1;
    }
    proof {
        assert(parts.take(ts@.len() as int) =~= parts);
    }
}

impl FunctionPointerType {
    /// The printed tree of the function pointer type: its parameter types, then its return type.
    pub open spec fn tree(&self, dashes: Seq<char>) -> Seq<char>
        decreases self, 2nat,
    {
        node_line(dashes, None, "Function Pointer"@) + type_trees(self.parameter_types@, dashes.push('-'))
            + self.return_type.tree(dashes.push('-'))
    }

    /// Writes the printed tree of the function pointer type.
    pub fn print_tree(&self, out: &mut Vec<char>, dashes: &Vec<char>)
        ensures
            final(out)@ == old(out)@ + self.tree(dashes@),
        decreases self,
    {
        let ghost start = out@;
        let name = str_to_chars("Function Pointer");
        push_node_line(out, dashes, None, name.as_slice());
        let below = deeper(dashes);
        print_type_trees(&self.parameter_types, out, &below);
        self.return_type.print_tree(out, &below);
        proof {
            assert(out@ =~= start + self.tree(dashes@));
        }
    }
}

impl TanukiCompileTimeValue {
    /// The printed tree of the value: its name, then the types it holds.
    pub open spec fn tree(&self, dashes: Seq<char>) -> Seq<char> {
        node_line(dashes, None, self.spec_print_name()) + match self {
            TanukiCompileTimeValue::Type(t) => t.tree(dashes.push('-')),
            TanukiCompileTimeValue::FunctionPointer(_, _, return_type, parameter_types) => return_type.tree(dashes.push('-'))
                + type_trees(parameter_types@, dashes.push('-')),
            TanukiCompileTimeValue::LinkedFunctionPointer(_, return_type, parameter_types) => return_type.tree(
                dashes.push('-'),
            ) + type_trees(parameter_types@, dashes.push('-')),
            _ => Seq::empty(),
        }
    }

    /// Writes the printed tree of a value that holds no float.
    pub fn print_tree(&self, out: &mut Vec<char>, dashes: &Vec<char>)
        requires
            !self.is_float(),
        ensures
            final(out)@ == old(out)@ + self.tree(dashes@),
    {
        let ghost start = out@;
        let name = self.print_name();
        push_node_line(out, dashes, None, name.as_slice());
        let below = deeper(dashes);
        match self {
            TanukiCompileTimeValue::Type(t) => t.print_tree(out, &below),
            TanukiCompileTimeValue::FunctionPointer(_, _, return_type, parameter_types) => {
                return_type.print_tree(out, &below);
                print_type_trees(parameter_types, out, &below);
            },
            TanukiCompileTimeValue::LinkedFunctionPointer(_, return_type, parameter_types) => {
                return_type.print_tree(out, &below);
                print_type_trees(parameter_types, out, &below);
            },
            _ => {},
        }
        proof {
            assert(out@ =~= start + self.tree(dashes@));
        }
    }
}

/// A name after a space, where there is one.
pub open spec fn spaced_name(name: Option<Vec<char>>) -> Seq<char> {
    match name {
        Some(n) => " "@ + n@,
        None => Seq::empty(),
    }
}

impl TanukiExpression {
    /// The name of the expression as it is printed.
    pub open spec fn spec_print_name(&self) -> Seq<char> {
        match &self.variant {
            TanukiExpressionVariant::Constant(_) => "Constant"@,
            TanukiExpressionVariant::Block { .. } => "Block"@,
            TanukiExpressionVariant::FunctionCall { .. } => "Function Call"@,
            TanukiExpressionVariant::FunctionDefinition { return_type, .. } => "Function Definition"@ + if return_type is Some {
                ", Has Return Type"@
            } else {
                Seq::empty()
            },
            TanukiExpressionVariant::U(_) => "U"@,
            TanukiExpressionVariant::I(_) => "I"@,
            TanukiExpressionVariant::F(_) => "F"@,
            TanukiExpressionVariant::Function { name, module_file } => "Function "@ + name@ + " from "@ + str_debug_text(
                module_file@,
            ),
            TanukiExpressionVariant::Index(..) => "Index"@,
            TanukiExpressionVariant::Variable(name) => "Variable "@ + name@,
            TanukiExpressionVariant::TypeAndValue(..) => "Type and Value"@,
            TanukiExpressionVariant::ImportConstant { name, module_file } => "Import Constant"@ + spaced_name(*name) + " from "@
                + str_debug_text(module_file@),
            TanukiExpressionVariant::Export(_) => "Export"@,
            TanukiExpressionVariant::Link { name, library_path, .. } => "Link"@ + spaced_name(*name) + " from "@ + str_debug_text(
                library_path@,
            ),
            TanukiExpressionVariant::Entrypoint(_) => "Entrypoint"@,
            TanukiExpressionVariant::NullaryOperator(o) => "Nullary Operator "@ + o.spec_print_name(),
            TanukiExpressionVariant::PrefixUnaryOperator(o, _) => "Prefix Unary Operator "@ + o.spec_print_name(),
            TanukiExpressionVariant::PostfixUnaryOperator(o, _) => "Postfix Unary Operator "@ + o.spec_print_name(),
            TanukiExpressionVariant::InfixBinaryOperator(o, _, _) => "Infix Binary Operator "@ + o.spec_print_name(),
            TanukiExpressionVariant::InfixTernaryOperator(o, _, _, _) => "Infix Ternary Operator "@ + o.spec_print_name(),
            TanukiExpressionVariant::Assignment(..) => "Assignment"@,
            TanukiExpressionVariant::AugmentedBinaryAssignment(o, _, _) => "Augmented Binary Assignment "@ + o.spec_print_name()
                + "="@,
            TanukiExpressionVariant::Transmute { .. } => "Transmute"@,
        }
    }

    /// Whether no constant in the expression holds a float.
    pub open spec fn float_free(&self) -> bool
        decreases self, 2nat,
    {
        match &self.variant {
            TanukiExpressionVariant::Constant(v) => !v.is_float(),
            TanukiExpressionVariant::Block { sub_expressions, return_expressions } => all_float_free(sub_expressions@)
                && all_named_float_free(return_expressions@),
            TanukiExpressionVariant::FunctionCall { function_pointer, arguments } => function_pointer.float_free()
                && all_float_free(arguments@),
            TanukiExpressionVariant::FunctionDefinition { parameters, return_type, body_expression } => all_float_free(parameters@)
                && match return_type {
                Some(r) => r.float_free(),
                None => true,
            } && body_expression.float_free(),
            TanukiExpressionVariant::U(arguments) => all_float_free(arguments@),
            TanukiExpressionVariant::I(arguments) => all_float_free(arguments@),
            TanukiExpressionVariant::F(arguments) => all_float_free(arguments@),
            TanukiExpressionVariant::Export(o) => o.float_free(),
            TanukiExpressionVariant::Entrypoint(o) => o.float_free(),
            TanukiExpressionVariant::PrefixUnaryOperator(_, o) => o.float_free(),
            TanukiExpressionVariant::PostfixUnaryOperator(_, o) => o.float_free(),
            TanukiExpressionVariant::Index(l, r) => l.float_free() && r.float_free(),
            TanukiExpressionVariant::TypeAndValue(l, r) => l.float_free() && r.float_free(),
            TanukiExpressionVariant::Assignment(l, r) => l.float_free() && r.float_free(),
            TanukiExpressionVariant::InfixBinaryOperator(_, l, r) => l.float_free() && r.float_free(),
            TanukiExpressionVariant::AugmentedBinaryAssignment(_, l, r) => l.float_free() && r.float_free(),
            TanukiExpressionVariant::InfixTernaryOperator(_, l, m, r) => l.float_free() && m.float_free() && r.float_free(),
            TanukiExpressionVariant::Link { parameter_types, return_type, link_if, .. } => all_float_free(parameter_types@)
                && match return_type {
                Some(r) => r.float_free(),
                None => true,
            } && match link_if {
                Some(c) => c.float_free(),
                None => true,
            },
            TanukiExpressionVariant::Transmute { to_transmute, transmute_to_type } => to_transmute.float_free()
                && transmute_to_type.float_free(),
            _ => true,
        }
    }

    /// The printed tree of the expression: its line, then those of the expressions it holds.
    pub open spec fn tree(&self, dashes: Seq<char>) -> Seq<char>
        decreases self, 2nat,
    {
        node_line(dashes, Some((self.start_line, self.start_column)), self.spec_print_name()) + self.sub_trees(
            dashes.push('-'),
        )
    }

    /// The printed trees of the expressions (or the value) that the expression holds, at a level.
    pub open spec fn sub_trees(&self, dashes: Seq<char>) -> Seq<char>
        decreases self, 1nat,
    {
        match &self.variant {
            TanukiExpressionVariant::Constant(v) => v.tree(dashes),
            TanukiExpressionVariant::Block { sub_expressions, return_expressions } => expression_trees(
                sub_expressions@,
                dashes,
            ) + "\n"@ + named_expression_trees(return_expressions@, dashes),
            TanukiExpressionVariant::FunctionCall { function_pointer, arguments } => function_pointer.tree(dashes)
                + expression_trees(arguments@, dashes),
            TanukiExpressionVariant::FunctionDefinition { parameters, return_type, body_expression } => expression_trees(
                parameters@,
                dashes,
            ) + match return_type {
                Some(r) => r.tree(dashes),
                None => Seq::empty(),
            } + body_expression.tree(dashes),
            TanukiExpressionVariant::U(arguments) => expression_trees(arguments@, dashes),
            TanukiExpressionVariant::I(arguments) => expression_trees(arguments@, dashes),
            TanukiExpressionVariant::F(arguments) => expression_trees(arguments@, dashes),
            TanukiExpressionVariant::Export(o) => o.tree(dashes),
            TanukiExpressionVariant::Entrypoint(o) => o.tree(dashes),
            TanukiExpressionVariant::PrefixUnaryOperator(_, o) => o.tree(dashes),
            TanukiExpressionVariant::PostfixUnaryOperator(_, o) => o.tree(dashes),
            TanukiExpressionVariant::Index(l, r) => l.tree(dashes) + r.tree(dashes),
            TanukiExpressionVariant::TypeAndValue(l, r) => l.tree(dashes) + r.tree(dashes),
            TanukiExpressionVariant::Assignment(l, r) => l.tree(dashes) + r.tree(dashes),
            TanukiExpressionVariant::InfixBinaryOperator(_, l, r) => l.tree(dashes) + r.tree(dashes),
            TanukiExpressionVariant::AugmentedBinaryAssignment(_, l, r) => l.tree(dashes) + r.tree(dashes),
            TanukiExpressionVariant::InfixTernaryOperator(_, l, m, r) => l.tree(dashes) + m.tree(dashes)
                + r.tree(dashes),
            TanukiExpressionVariant::Link { parameter_types, return_type, link_if, .. } => expression_trees(
                parameter_types@,
                dashes,
            ) + "\n"@ + match return_type {
                Some(r) => r.tree(dashes),
                None => Seq::empty(),
            } + match link_if {
                Some(c) => c.tree(dashes),
                None => Seq::empty(),
            },
            TanukiExpressionVariant::Transmute { to_transmute, transmute_to_type } => to_transmute.tree(dashes)
                + transmute_to_type.tree(dashes),
            _ => Seq::empty(),
        }
    }
}

/// Whether each expression is float free.
pub open spec fn float_free_parts(es: Seq<TanukiExpression>) -> Seq<bool>
    decreases es, 0nat,
{
    Seq::new(es.len(), |i: int| if 0 <= i < es.len() { es[i].float_free() } else { true })
}

/// Whether every expression is float free.
pub open spec fn all_float_free(es: Seq<TanukiExpression>) -> bool
    decreases es, 1nat,
{
    !float_free_parts(es).contains(false)
}

/// Whether the expression of each named expression is float free.
pub open spec fn named_float_free_parts(es: Seq<(Option<Vec<char>>, TanukiExpression)>) -> Seq<bool>
    decreases es, 0nat,
{
    Seq::new(es.len(), |i: int| if 0 <= i < es.len() { es[i].1.float_free() } else { true })
}

/// Whether the expression of every named expression is float free.
pub open spec fn all_named_float_free(es: Seq<(Option<Vec<char>>, TanukiExpression)>) -> bool
    decreases es, 1nat,
{
    !named_float_free_parts(es).contains(false)
}

/// The printed tree of each expression.
pub open spec fn expression_tree_parts(es: Seq<TanukiExpression>, dashes: Seq<char>) -> Seq<Seq<char>>
    decreases es, 0nat,
{
    Seq::new(es.len(), |i: int| if 0 <= i < es.len() { es[i].tree(dashes) } else { Seq::empty() })
}

/// The printed trees of expressions, one after the other.
pub open spec fn expression_trees(es: Seq<TanukiExpression>, dashes: Seq<char>) -> Seq<char>
    decreases es, 1nat,
{
    concat(expression_tree_parts(es, dashes))
}

/// The printed tree of the expression of each named expression.
pub open spec fn named_expression_tree_parts(es: Seq<(Option<Vec<char>>, TanukiExpression)>, dashes: Seq<char>) -> Seq<
    Seq<char>,
>
    decreases es, 0nat,
{
    Seq::new(es.len(), |i: int| if 0 <= i < es.len() { es[i].1.tree(dashes) } else { Seq::empty() })
}

/// The printed trees of the expressions of named expressions, one after the other.
pub open spec fn named_expression_trees(es: Seq<(Option<Vec<char>>, TanukiExpression)>, dashes: Seq<char>) -> Seq<char>
    decreases es, 1nat,
{
    concat(named_expression_tree_parts(es, dashes))
}

impl TanukiExpression {
    /// Whether no constant in the expression holds a float.
    pub fn is_float_free(&self) -> (r: bool)
        ensures
            r == self.float_free(),
        decreases self,
    {
        match &self.variant {
            TanukiExpressionVariant::Constant(v) => match v {
                TanukiCompileTimeValue::CompileTimeFloat(_) => false,
                TanukiCompileTimeValue::F(_, _) => false,
                _ => true,
            },
            TanukiExpressionVariant::Block { sub_expressions, return_expressions } => are_float_free(sub_expressions)
                && are_named_float_free(return_expressions),
            TanukiExpressionVariant::FunctionCall { function_pointer, arguments } => function_pointer.is_float_free()
                && are_float_free(arguments),
            TanukiExpressionVariant::FunctionDefinition { parameters, return_type, body_expression } => {
                are_float_free(parameters) && match return_type {
                    Some(r) => r.is_float_free(),
                    None => true,
                } && body_expression.is_float_free()
            },
            TanukiExpressionVariant::U(arguments) => are_float_free(arguments),
            TanukiExpressionVariant::I(arguments) => are_float_free(arguments),
            TanukiExpressionVariant::F(arguments) => are_float_free(arguments),
            TanukiExpressionVariant::Export(o) => o.is_float_free(),
            TanukiExpressionVariant::Entrypoint(o) => o.is_float_free(),
            TanukiExpressionVariant::PrefixUnaryOperator(_, o) => o.is_float_free(),
            TanukiExpressionVariant::PostfixUnaryOperator(_, o) => o.is_float_free(),
            TanukiExpressionVariant::Index(l, r) => l.is_float_free() && r.is_float_free(),
            TanukiExpressionVariant::TypeAndValue(l, r) => l.is_float_free() && r.is_float_free(),
            TanukiExpressionVariant::Assignment(l, r) => l.is_float_free() && r.is_float_free(),
            TanukiExpressionVariant::InfixBinaryOperator(_, l, r) => l.is_float_free() && r.is_float_free(),
            TanukiExpressionVariant::AugmentedBinaryAssignment(_, l, r) => l.is_float_free() && r.is_float_free(),
            TanukiExpressionVariant::InfixTernaryOperator(_, l, m, r) => l.is_float_free() && m.is_float_free()
                && r.is_float_free(),
            TanukiExpressionVariant::Link { parameter_types, return_type, link_if, .. } => {
                are_float_free(parameter_types) && match return_type {
                    Some(r) => r.is_float_free(),
                    None => true,
                } && match link_if {
                    Some(c) => c.is_float_free(),
                    None => true,
                }
            },
            TanukiExpressionVariant::Transmute { to_transmute, transmute_to_type } => to_transmute.is_float_free()
                && transmute_to_type.is_float_free(),
            _ => true,
        }
    }
}

/// Whether no constant in the expressions holds a float.
pub fn are_float_free(es: &Vec<TanukiExpression>) -> (r: bool)
    ensures
        r == all_float_free(es@),
    decreases es,
{
    let ghost parts = float_free_parts(es@);
    let mut i: usize = 0;
    while i < es.len()
        invariant
            i <= es@.len(),
            parts == float_free_parts(es@),
            forall|j: int| 0 <= j < i ==> parts[j],
        decreases es@.len() - i,
    {
        proof {
            assert(decreases_to!(es => es@));
            assert(decreases_to!(es@ => es@[i as int]));
        }
        if !es[i].is_float_free() {
            proof {
                assert(!float_free_parts(es@)[i as int]);
            }
            return false;
        }
        i = i + 1;
    }
    true
}

/// Whether no constant in the expressions of named expressions holds a float.
pub fn are_named_float_free(es: &Vec<(Option<Vec<char>>, TanukiExpression)>) -> (r: bool)
    ensures
        r == all_named_float_free(es@),
    decreases es,
{
    let ghost parts = named_float_free_parts(es@);
    let mut i: usize = 0;
    while i < es.len()
        invariant
            i <= es@.len(),
            parts == named_float_free_parts(es@),
            forall|j: int| 0 <= j < i ==> parts[j],
        decreases es@.len() - i,
    {
        proof {
            assert(decreases_to!(es => es@));
            assert(decreases_to!(es@ => es@[i as int]));
            assert(decreases_to!(es@[i as int] => es@[i as int].1));
        }
        if !es[i].1.is_float_free() {
            proof {
                assert(!named_float_free_parts(es@)[i as int]);
            }
            return false;
        }
        i = i + 1;
    }
    true
}

/// Writes a name after a space, where there is one.
fn push_spaced_name(out: &mut Vec<char>, name: &Option<Vec<char>>)
    ensures
        final(out)@ == old(out)@ + spaced_name(*name),
{
    match name {
        Some(n) => {
            push_str(out, " ");
            push_chars(out, n.as_slice());
        },
        None => {},
    }
}

impl TanukiExpression {
    /// The name of the expression as it is printed.
    pub fn print_name(&self) -> (r: Vec<char>)
        ensures
            r@ == self.spec_print_name(),
    {
        let mut out: Vec<char> = Vec::new();
        match &self.variant {
            TanukiExpressionVariant::Constant(_) => push_str(&mut out, "Constant"),
            TanukiExpressionVariant::Block { .. } => push_str(&mut out, "Block"),
            TanukiExpressionVariant::FunctionCall { .. } => push_str(&mut out, "Function Call"),
            TanukiExpressionVariant::FunctionDefinition { return_type, .. } => {
                push_str(&mut out, "Function Definition");
                if return_type.is_some() {
                    push_str(&mut out, ", Has Return Type");
                }
            },
            TanukiExpressionVariant::U(_) => push_str(&mut out, "U"),
            TanukiExpressionVariant::I(_) => push_str(&mut out, "I"),
            TanukiExpressionVariant::F(_) => push_str(&mut out, "F"),
            TanukiExpressionVariant::Function { name, module_file } => {
                push_str(&mut out, "Function ");
                push_chars(&mut out, name.as_slice());
                push_str(&mut out, " from ");
                push_chars(&mut out, str_debug(module_file).as_slice());
            },
            TanukiExpressionVariant::Index(..) => push_str(&mut out, "Index"),
            TanukiExpressionVariant::Variable(name) => {
                push_str(&mut out, "Variable ");
                push_chars(&mut out, name.as_slice());
            },
            TanukiExpressionVariant::TypeAndValue(..) => push_str(&mut out, "Type and Value"),
            TanukiExpressionVariant::ImportConstant { name, module_file } => {
                push_str(&mut out, "Import Constant");
                push_spaced_name(&mut out, name);
                push_str(&mut out, " from ");
                push_chars(&mut out, str_debug(module_file).as_slice());
            },
            TanukiExpressionVariant::Export(_) => push_str(&mut out, "Export"),
            TanukiExpressionVariant::Link { name, library_path, .. } => {
                push_str(&mut out, "Link");
                push_spaced_name(&mut out, name);
                push_str(&mut out, " from ");
                push_chars(&mut out, str_debug(library_path).as_slice());
            },
            TanukiExpressionVariant::Entrypoint(_) => push_str(&mut out, "Entrypoint"),
            TanukiExpressionVariant::NullaryOperator(o) => {
                push_str(&mut out, "Nullary Operator ");
                push_str(&mut out, o.print_name());
            },
            TanukiExpressionVariant::PrefixUnaryOperator(o, _) => {
                push_str(&mut out, "Prefix Unary Operator ");
                push_str(&mut out, o.print_name());
            },
            TanukiExpressionVariant::PostfixUnaryOperator(o, _) => {
                push_str(&mut out, "Postfix Unary Operator ");
                push_str(&mut out, o.print_name());
            },
            TanukiExpressionVariant::InfixBinaryOperator(o, _, _) => {
                push_str(&mut out, "Infix Binary Operator ");
                push_str(&mut out, o.print_name());
            },
            TanukiExpressionVariant::InfixTernaryOperator(o, _, _, _) => {
                push_str(&mut out, "Infix Ternary Operator ");
                push_str(&mut out, o.print_name());
            },
            TanukiExpressionVariant::Assignment(..) => push_str(&mut out, "Assignment"),
            TanukiExpressionVariant::AugmentedBinaryAssignment(o, _, _) => {
                push_str(&mut out, "Augmented Binary Assignment ");
                push_str(&mut out, o.print_name());
                push_str(&mut out, "=");
            },
            TanukiExpressionVariant::Transmute { .. } => push_str(&mut out, "Transmute"),
        }
        proof {
            assert(out@ =~= self.spec_print_name());
        }
        out
    }
}

impl TanukiExpression {
    /// Writes the printed tree of an expression in which no constant holds a float.
    pub fn print_tree(&self, out: &mut Vec<char>, dashes: &Vec<char>)
        requires
            self.float_free(),
        ensures
            final(out)@ == old(out)@ + self.tree(dashes@),
        decreases self, 1nat,
    {
        let ghost start = out@;
        let name = self.print_name();
        push_node_line(out, dashes, Some((self.start_line, self.start_column)), name.as_slice());
        let below = deeper(dashes);
        self.print_sub_trees(out, &below);
    }

    /// Writes the printed trees of the expressions (or the value) that the expression holds.
    #[verifier::rlimit(40)]
    pub fn print_sub_trees(&self, out: &mut Vec<char>, below: &Vec<char>)
        requires
            self.float_free(),
        ensures
            final(out)@ == old(out)@ + self.sub_trees(below@),
        decreases self, 0nat,
    {
        let ghost start = out@;
        match &self.variant {
            TanukiExpressionVariant::Constant(v) => v.print_tree(out, below),
            TanukiExpressionVariant::Block { sub_expressions, return_expressions } => {
                print_expression_trees(sub_expressions, out, below);
                push_str(out, "\n");
                print_named_expression_trees(return_expressions, out, below);
            },
            TanukiExpressionVariant::FunctionCall { function_pointer, arguments } => {
                function_pointer.print_tree(out, below);
                print_expression_trees(arguments, out, below);
            },
            TanukiExpressionVariant::FunctionDefinition { parameters, return_type, body_expression } => {
                print_expression_trees(parameters, out, below);
                match return_type {
                    Some(r) => r.print_tree(out, below),
                    None => {},
                }
                body_expression.print_tree(out, below);
            },
            TanukiExpressionVariant::U(arguments) => print_expression_trees(arguments, out, below),
            TanukiExpressionVariant::I(arguments) => print_expression_trees(arguments, out, below),
            TanukiExpressionVariant::F(arguments) => print_expression_trees(arguments, out, below),
            TanukiExpressionVariant::Export(o) => o.print_tree(out, below),
            TanukiExpressionVariant::Entrypoint(o) => o.print_tree(out, below),
            TanukiExpressionVariant::PrefixUnaryOperator(_, o) => o.print_tree(out, below),
            TanukiExpressionVariant::PostfixUnaryOperator(_, o) => o.print_tree(out, below),
            TanukiExpressionVariant::Index(l, r) => {
                l.print_tree(out, below);
                r.print_tree(out, below);
            },
            TanukiExpressionVariant::TypeAndValue(l, r) => {
                l.print_tree(out, below);
                r.print_tree(out, below);
            },
            TanukiExpressionVariant::Assignment(l, r) => {
                l.print_tree(out, below);
                r.print_tree(out, below);
            },
            TanukiExpressionVariant::InfixBinaryOperator(_, l, r) => {
                l.print_tree(out, below);
                r.print_tree(out, below);
            },
            TanukiExpressionVariant::AugmentedBinaryAssignment(_, l, r) => {
                l.print_tree(out, below);
                r.print_tree(out, below);
            },
            TanukiExpressionVariant::InfixTernaryOperator(_, l, m, r) => {
                l.print_tree(out, below);
                m.print_tree(out, below);
                r.print_tree(out, below);
            },
            TanukiExpressionVariant::Link { parameter_types, return_type, link_if, .. } => {
                print_expression_trees(parameter_types, out, below);
                push_str(out, "\n");
                match return_type {
                    Some(r) => r.print_tree(out, below),
                    None => {},
                }
                match link_if {
                    Some(c) => c.print_tree(out, below),
                    None => {},
                }
            },
            TanukiExpressionVariant::Transmute { to_transmute, transmute_to_type } => {
                to_transmute.print_tree(out, below);
                transmute_to_type.print_tree(out, below);
            },
            _ => {},
        }
        proof {
            assert(out@ =~= start + self.sub_trees(below@));
        }
    }
}

/// Writes the printed trees of expressions in which no constant holds a float, one after the other.
pub fn print_expression_trees(es: &Vec<TanukiExpression>, out: &mut Vec<char>, dashes: &Vec<char>)
    requires
        all_float_free(es@),
    ensures
        final(out)@ == old(out)@ + expression_trees(es@, dashes@),
    decreases es, 0nat,
{
    let ghost start = out@;
    let ghost parts = expression_tree_parts(es@, dashes@);
    let mut i: usize = 0;
    while i < es.len()
        invariant
            i <= es@.len(),
            all_float_free(es@),
            parts == expression_tree_parts(es@, dashes@),
            out@ == start + concat(parts.take(i as int)),
        decreases es@.len() - i,
    {
        proof {
            lemma_concat_take(parts, i as int);
            assert(float_free_parts(es@)[i as int]);
            assert(decreases_to!(es => es@));
            assert(decreases_to!(es@ => es@[i as int]));
        }
        es[i].print_tree(out, dashes);
        i = i + 1;
    }
    proof {
        assert(parts.take(es@.len() as int) =~= parts);
    }
}

/// Writes the printed trees of the expressions of named expressions, one after the other; no
/// constant in them holds a float.
pub fn print_named_expression_trees(
    es: &Vec<(Option<Vec<char>>, TanukiExpression)>,
    out: &mut Vec<char>,
    dashes: &Vec<char>,
)
    requires
        all_named_float_free(es@),
    ensures
        final(out)@ == old(out)@ + named_expression_trees(es@, dashes@),
    decreases es, 0nat,
{
    let ghost start = out@;
    let ghost parts = named_expression_tree_parts(es@, dashes@);
    let mut i: usize = 0;
    while i < es.len()
        invariant
            i <= es@.len(),
            all_named_float_free(es@),
            parts == named_expression_tree_parts(es@, dashes@),
            out@ == start + concat(parts.take(i as int)),
        decreases es@.len() - i,
    {
        proof {
            lemma_concat_take(parts, i as int);
            assert(named_float_free_parts(es@)[i as int]);
            assert(decreases_to!(es => es@));
            assert(decreases_to!(es@ => es@[i as int]));
            assert(decreases_to!(es@[i as int] => es@[i as int].1));
        }
        es[i].1.print_tree(out, dashes);
        i = i + 1;
    }
    proof {
        assert(parts.take(es@.len() as int) =~= parts);
    }
}

impl TanukiGlobalConstant {
    /// The name of the global constant as it is printed.
    pub open spec fn spec_print_name(&self) -> Seq<char> {
        "Global Constant "@ + self.name@ + if self.export {
            " Exported"@
        } else {
            Seq::empty()
        }
    }

    /// The printed tree of the global constant: its line, then the tree of its value.
    pub open spec fn tree(&self, dashes: Seq<char>) -> Seq<char> {
        node_line(dashes, Some((self.start_line, self.start_column)), self.spec_print_name()) + self.value_expression.tree(
            dashes.push('-'),
        )
    }

    /// Writes the printed tree of a global constant whose value holds no float constant.
    pub fn print_tree(&self, out: &mut Vec<char>, dashes: &Vec<char>)
        requires
            self.value_expression.float_free(),
        ensures
            final(out)@ == old(out)@ + self.tree(dashes@),
    {
        let ghost start = out@;
        let mut name: Vec<char> = Vec::new();
        push_str(&mut name, "Global Constant ");
        push_chars(&mut name, self.name.as_slice());
        if self.export {
            push_str(&mut name, " Exported");
        }
        proof {
            assert(name@ =~= self.spec_print_name());
        }
        push_node_line(out, dashes, Some((self.start_line, self.start_column)), name.as_slice());
        let below = deeper(dashes);
        self.value_expression.print_tree(out, &below);
        proof {
            assert(out@ =~= start + self.tree(dashes@));
        }
    }
}

/// The printed tree of each global constant; one that is taken out prints nothing.
pub open spec fn global_constant_tree_parts(cs: Seq<Option<TanukiGlobalConstant>>, dashes: Seq<char>) -> Seq<Seq<char>> {
    Seq::new(
        cs.len(),
        |i: int|
            match cs[i] {
                Some(c) => c.tree(dashes),
                None => Seq::empty(),
            },
    )
}

impl TanukiModule {
    /// The name of the module as it is printed.
    pub open spec fn spec_print_name(&self) -> Seq<char> {
        "Tanuki Module"@ + match self.entrypoint {
            Some(e) => ", Entrypoint: "@ + e@,
            None => Seq::empty(),
        }
    }

    /// Where the module starts: at its first expression, or at line 1, column 1.
    pub open spec fn start_place(&self) -> (usize, usize) {
        if self.parsed_expressions@.len() > 0 {
            (self.parsed_expressions@[0].start_line, self.parsed_expressions@[0].start_column)
        } else {
            (1, 1)
        }
    }

    /// Whether the module can be printed: no constant holds a float, and no global constant is
    /// taken out.
    pub open spec fn printable(&self) -> bool {
        &&& all_float_free(self.parsed_expressions@)
        &&& forall|i: int|
            0 <= i < self.global_constants@.len() ==> (#[trigger] self.global_constants@[i]) is Some
                && self.global_constants@[i].unwrap().value_expression.float_free()
    }

    /// The printed tree of the module: its line, then the trees of its expressions, then those of
    /// its global constants.
    pub open spec fn tree(&self) -> Seq<char> {
        node_line(Seq::empty(), Some(self.start_place()), self.spec_print_name()) + expression_trees(
            self.parsed_expressions@,
            seq!['-'],
        ) + concat(global_constant_tree_parts(self.global_constants@, seq!['-']))
    }

    /// The printed tree of the module, or `None` where a constant holds a float or a global
    /// constant is taken out.
    pub fn print(&self) -> (r: Option<Vec<char>>)
        ensures
            r is Some <==> self.printable(),
            r matches Some(text) ==> text@ == self.tree(),
    {
        if !are_float_free(&self.parsed_expressions) {
            return None;
        }
        let mut i: usize = 0;
        while i < self.global_constants.len()
            invariant
                i <= self.global_constants@.len(),
                forall|j: int|
                    0 <= j < i ==> (#[trigger] self.global_constants@[j]) is Some
                        && self.global_constants@[j].unwrap().value_expression.float_free(),
            decreases self.global_constants@.len() - i,
        {
            match &self.global_constants[i] {
                Some(c) => {
                    if !c.value_expression.is_float_free() {
                        return None;
                    }
                },
                None => return None,
            }
            i = i + 1;
        }
        let mut out: Vec<char> = Vec::new();
        let mut name: Vec<char> = Vec::new();
        push_str(&mut name, "Tanuki Module");
        match &self.entrypoint {
            Some(e) => {
                push_str(&mut name, ", Entrypoint: ");
                push_chars(&mut name, e.as_slice());
            },
            None => {},
        }
        proof {
            assert(name@ =~= self.spec_print_name());
        }
        let place = if self.parsed_expressions.len() > 0 {
            (self.parsed_expressions[0].start_line, self.parsed_expressions[0].start_column)
        } else {
            (1, 1)
        };
        let no_dashes: Vec<char> = Vec::new();
        push_node_line(&mut out, &no_dashes, Some(place), name.as_slice());
        let below = deeper(&no_dashes);
        proof {
            assert(below@ =~= seq!['-']);
        }
        print_expression_trees(&self.parsed_expressions, &mut out, &below);
        let ghost before_constants = out@;
        let ghost parts = global_constant_tree_parts(self.global_constants@, seq!['-']);
        let mut k: usize = 0;
        while k < self.global_constants.len()
            invariant
                k <= self.global_constants@.len(),
                below@ == seq!['-'],
                parts == global_constant_tree_parts(self.global_constants@, seq!['-']),
                forall|j: int|
                    0 <= j < self.global_constants@.len() ==> (#[trigger] self.global_constants@[j]) is Some
                        && self.global_constants@[j].unwrap().value_expression.float_free(),
                out@ == before_constants + concat(parts.take(k as int)),
            decreases self.global_constants@.len() - k,
        {
            proof {
                lemma_concat_take(parts, k as int);
            }
            match &self.global_constants[k] {
                Some(c) => c.print_tree(&mut out, &below),
                None => {},
            }
            k = k + 1;
        }
        proof {
            assert(parts.take(self.global_constants@.len() as int) =~= parts);
            assert(out@ =~= self.tree());
        }
        Some(out)
    }
}

} // verus!
