use vstd::prelude::*;

use crate::programming_languages::c::l_value::CLValue;
use crate::programming_languages::c::statement::CStatement;
use crate::programming_languages::c::types::CType;
use crate::programming_languages::c::{concat, join, lemma_concat_take, lemma_join_take, push_text};
use crate::text::{int_decimal, push_chars, push_i128_decimal, push_str, str_to_chars};
use crate::traits::ast_node::{deeper, node_line, push_node_line};

verus! {

/// A C expression.
#[derive(Debug)]
pub enum CExpression {
    LValueRead(Box<CLValue>),
    FunctionCall(Vec<char>, Vec<CExpression>),
    IntConstant(i128),
    StringConstant(Vec<char>),
    TakeReference(Box<CLValue>),
    Assignment(Box<CLValue>, Box<CExpression>),
    AssignmentAdd(Box<CLValue>, Box<CExpression>),
    AssignmentSubtract(Box<CLValue>, Box<CExpression>),
    AssignmentMultiply(Box<CLValue>, Box<CExpression>),
    AssignmentDivide(Box<CLValue>, Box<CExpression>),
    AssignmentModulo(Box<CLValue>, Box<CExpression>),
    AssignmentBitwiseAnd(Box<CLValue>, Box<CExpression>),
    AssignmentBitwiseOr(Box<CLValue>, Box<CExpression>),
    AssignmentBitwiseXor(Box<CLValue>, Box<CExpression>),
    AssignmentBitshiftLeft(Box<CLValue>, Box<CExpression>),
    AssignmentBitshiftRight(Box<CLValue>, Box<CExpression>),
    Sizeof(CType),
    PostfixIncrement(Box<CLValue>),
    PostfixDecrement(Box<CLValue>),
    PrefixIncrement(Box<CLValue>),
    PrefixDecrement(Box<CLValue>),
    Add(Box<CExpression>, Box<CExpression>),
    Subtract(Box<CExpression>, Box<CExpression>),
    Multiply(Box<CExpression>, Box<CExpression>),
    Divide(Box<CExpression>, Box<CExpression>),
    Modulo(Box<CExpression>, Box<CExpression>),
    BitwiseAnd(Box<CExpression>, Box<CExpression>),
    BitwiseOr(Box<CExpression>, Box<CExpression>),
    BitwiseXor(Box<CExpression>, Box<CExpression>),
    BitshiftLeft(Box<CExpression>, Box<CExpression>),
    BitshiftRight(Box<CExpression>, Box<CExpression>),
    LogicalAnd(Box<CExpression>, Box<CExpression>),
    LogicalOr(Box<CExpression>, Box<CExpression>),
    Equal(Box<CExpression>, Box<CExpression>),
    NotEqual(Box<CExpression>, Box<CExpression>),
    GreaterThan(Box<CExpression>, Box<CExpression>),
    LessThan(Box<CExpression>, Box<CExpression>),
    GreaterThanOrEqual(Box<CExpression>, Box<CExpression>),
    LessThanOrEqual(Box<CExpression>, Box<CExpression>),
    Negate(Box<CExpression>),
    UnaryPlus(Box<CExpression>),
    BitwiseNot(Box<CExpression>),
    LogicalNot(Box<CExpression>),
    Ternary(Box<CExpression>, Box<CExpression>, Box<CExpression>),
}

/// The text of an operator between two operands, in parentheses.
pub open spec fn binary_text(lhs: Seq<char>, op: Seq<char>, rhs: Seq<char>) -> Seq<char> {
    "("@ + lhs + op + rhs + ")"@
}

impl CExpression {
    /// The C text of the expression. Every operator is put in parentheses.
    pub open spec fn render(&self, indent: nat) -> Seq<char>
        decreases self,
    {
        match self {
            CExpression::LValueRead(l) => l.render(indent),
            CExpression::FunctionCall(name, arguments) => name@ + "("@ + join(render_expressions(arguments@, indent), ", "@) + ")"@,
            CExpression::IntConstant(v) => int_decimal(*v as int),
            CExpression::StringConstant(v) => "\""@ + v@ + "\""@,
            CExpression::Sizeof(t) => "sizeof("@ + t.render(indent) + ")"@,
            CExpression::Assignment(l, r) => binary_text(l.render(indent), " = "@, r.render(indent)),
            CExpression::AssignmentAdd(l, r) => binary_text(l.render(indent), " += "@, r.render(indent)),
            CExpression::AssignmentSubtract(l, r) => binary_text(l.render(indent), " -= "@, r.render(indent)),
            CExpression::AssignmentMultiply(l, r) => binary_text(l.render(indent), " *= "@, r.render(indent)),
            CExpression::AssignmentDivide(l, r) => binary_text(l.render(indent), " /= "@, r.render(indent)),
            CExpression::AssignmentModulo(l, r) => binary_text(l.render(indent), " %= "@, r.render(indent)),
            CExpression::AssignmentBitwiseAnd(l, r) => binary_text(l.render(indent), " &= "@, r.render(indent)),
            CExpression::AssignmentBitwiseOr(l, r) => binary_text(l.render(indent), " |= "@, r.render(indent)),
            CExpression::AssignmentBitwiseXor(l, r) => binary_text(l.render(indent), " ^= "@, r.render(indent)),
            CExpression::AssignmentBitshiftLeft(l, r) => binary_text(l.render(indent), " <<= "@, r.render(indent)),
            CExpression::AssignmentBitshiftRight(l, r) => binary_text(l.render(indent), " >>= "@, r.render(indent)),
            CExpression::PostfixIncrement(l) => "("@ + l.render(indent) + "++)"@,
            CExpression::PostfixDecrement(l) => "("@ + l.render(indent) + "--)"@,
            CExpression::PrefixIncrement(l) => "(++"@ + l.render(indent) + ")"@,
            CExpression::PrefixDecrement(l) => "(--"@ + l.render(indent) + ")"@,
            CExpression::TakeReference(l) => "(&"@ + l.render(indent) + ")"@,
            CExpression::Add(l, r) => binary_text(l.render(indent), " + "@, r.render(indent)),
            CExpression::Subtract(l, r) => binary_text(l.render(indent), " - "@, r.render(indent)),
            CExpression::Multiply(l, r) => binary_text(l.render(indent), " * "@, r.render(indent)),
            CExpression::Divide(l, r) => binary_text(l.render(indent), " / "@, r.render(indent)),
            CExpression::Modulo(l, r) => binary_text(l.render(indent), " % "@, r.render(indent)),
            CExpression::BitwiseAnd(l, r) => binary_text(l.render(indent), " & "@, r.render(indent)),
            CExpression::BitwiseOr(l, r) => binary_text(l.render(indent), " | "@, r.render(indent)),
            CExpression::BitwiseXor(l, r) => binary_text(l.render(indent), " ^ "@, r.render(indent)),
            CExpression::BitshiftLeft(l, r) => binary_text(l.render(indent), " << "@, r.render(indent)),
            CExpression::BitshiftRight(l, r) => binary_text(l.render(indent), " >> "@, r.render(indent)),
            CExpression::LogicalAnd(l, r) => binary_text(l.render(indent), " && "@, r.render(indent)),
            CExpression::LogicalOr(l, r) => binary_text(l.render(indent), " || "@, r.render(indent)),
            CExpression::Equal(l, r) => binary_text(l.render(indent), " == "@, r.render(indent)),
            CExpression::NotEqual(l, r) => binary_text(l.render(indent), " != "@, r.render(indent)),
            CExpression::GreaterThan(l, r) => binary_text(l.render(indent), " > "@, r.render(indent)),
            CExpression::LessThan(l, r) => binary_text(l.render(indent), " < "@, r.render(indent)),
            CExpression::GreaterThanOrEqual(l, r) => binary_text(l.render(indent), " >= "@, r.render(indent)),
            CExpression::LessThanOrEqual(l, r) => binary_text(l.render(indent), " <= "@, r.render(indent)),
            CExpression::Negate(e) => "(-"@ + e.render(indent) + ")"@,
            CExpression::UnaryPlus(e) => "(+"@ + e.render(indent) + ")"@,
            CExpression::BitwiseNot(e) => "(~"@ + e.render(indent) + ")"@,
            CExpression::LogicalNot(e) => "(!"@ + e.render(indent) + ")"@,
            CExpression::Ternary(c, t, f) => "("@ + c.render(indent) + "? "@ + t.render(indent) + ": "@ + f.render(indent) + ")"@,
        }
    }
}

impl CLValue {
    /// The C text of the l-value.
    pub open spec fn render(&self, indent: nat) -> Seq<char>
        decreases self,
    {
        match self {
            CLValue::Variable(name) => name@,
            CLValue::Dereference(pointer) => "(*"@ + pointer.render(indent) + ")"@,
            CLValue::ArraySubscript(array, index) => array.render(indent) + "["@ + index.render(indent) + "]"@,
        }
    }
}

/// The C texts of a sequence of expressions.
pub open spec fn render_expressions(es: Seq<CExpression>, indent: nat) -> Seq<Seq<char>>
    decreases es,
{
    Seq::new(es.len(), |i: int| if 0 <= i < es.len() { es[i].render(indent) } else { Seq::empty() })
}

impl CExpression {
    /// `self == rhs`.
    pub fn equal(self, rhs: Self) -> (r: Self)
        ensures
            r == CExpression::Equal(Box::new(self), Box::new(rhs)),
    {
        CExpression::Equal(Box::new(self), Box::new(rhs))
    }

    /// `self != rhs`.
    pub fn not_equal(self, rhs: Self) -> (r: Self)
        ensures
            r == CExpression::NotEqual(Box::new(self), Box::new(rhs)),
    {
        CExpression::NotEqual(Box::new(self), Box::new(rhs))
    }

    /// `self + rhs`.
    pub fn add(self, rhs: Self) -> (r: Self)
        ensures
            r == CExpression::Add(Box::new(self), Box::new(rhs)),
    {
        CExpression::Add(Box::new(self), Box::new(rhs))
    }

    /// A statement that runs `block` if the expression holds.
    pub fn if_statement(self, block: CStatement) -> (r: CStatement)
        ensures
            r == CStatement::If(Box::new(self), Box::new(block)),
    {
        CStatement::If(Box::new(self), Box::new(block))
    }

    /// A statement that runs `block` over and over while the expression holds.
    pub fn while_statement(self, block: CStatement) -> (r: CStatement)
        ensures
            r == CStatement::While(Box::new(self), Box::new(block)),
    {
        CStatement::While(Box::new(self), Box::new(block))
    }

    /// A call of the function with a name.
    pub fn function_call(name: &str, args: Vec<CExpression>) -> (r: Self)
        ensures
            r matches CExpression::FunctionCall(n, a) && n@ == name@ && a == args,
    {
        CExpression::FunctionCall(str_to_chars(name), args)
    }

    /// A string constant with a text (written between double quotes as it is).
    pub fn string_constant(value: &str) -> (r: Self)
        ensures
            r matches CExpression::StringConstant(v) && v@ == value@,
    {
        CExpression::StringConstant(str_to_chars(value))
    }

    /// Appends the expressions' texts with `, ` between each two.
    fn write_expressions(es: &Vec<CExpression>, out: &mut Vec<char>, indent: usize)
        requires
            indent < usize::MAX,
        ensures
            final(out)@ == old(out)@ + join(render_expressions(es@, indent as nat), ", "@),
        decreases es@,
    {
        let ghost parts = render_expressions(es@, indent as nat);
        let mut i: usize = 0;
        while i < es.len()
            invariant
                i <= es@.len(),
                indent < usize::MAX,
                parts == render_expressions(es@, indent as nat),
                parts.len() == es@.len(),
                out@ == old(out)@ + join(parts.take(i as int), ", "@),
            decreases es@.len() - i,
        {
            if i > 0 {
                push_str(out, ", ");
            }
            proof {
                vstd::std_specs::vec::axiom_vec_index_decreases(*es, i as int);
            }
            es[i].write_to_file(out, indent);
            proof {
                lemma_join_take(parts, ", "@, i as int);
            }
            i = i + 1;
        }
        proof {
            assert(parts.take(es@.len() as int) =~= parts);
        }
    }

    /// Appends the C text of the expression.
    #[verifier::spinoff_prover]
    #[verifier::rlimit(50)]
    pub fn write_to_file(&self, out: &mut Vec<char>, indent: usize)
        requires
            indent < usize::MAX,
        ensures
            final(out)@ == old(out)@ + self.render(indent as nat),
        decreases self,
    {
        match self {
            CExpression::LValueRead(l) => l.write_to_file(out, indent),
            CExpression::FunctionCall(name, arguments) => {
                push_text(out, name);
                push_str(out, "(");
                CExpression::write_expressions(arguments, out, indent);
                push_str(out, ")");
            },
            CExpression::IntConstant(v) => push_i128_decimal(out, *v),
            CExpression::StringConstant(v) => {
                push_str(out, "\"");
                push_text(out, v);
                push_str(out, "\"");
            },
            CExpression::Sizeof(t) => {
                push_str(out, "sizeof(");
                t.write_to_file(out, indent);
                push_str(out, ")");
            },
            CExpression::Assignment(l, r) => {
                push_str(out, "(");
                l.write_to_file(out, indent);
                push_str(out, " = ");
                r.write_to_file(out, indent);
                push_str(out, ")");
            },
            CExpression::AssignmentAdd(l, r) => {
                push_str(out, "(");
                l.write_to_file(out, indent);
                push_str(out, " += ");
                r.write_to_file(out, indent);
                push_str(out, ")");
            },
            CExpression::AssignmentSubtract(l, r) => {
                push_str(out, "(");
                l.write_to_file(out, indent);
                push_str(out, " -= ");
                r.write_to_file(out, indent);
                push_str(out, ")");
            },
            CExpression::AssignmentMultiply(l, r) => {
                push_str(out, "(");
                l.write_to_file(out, indent);
                push_str(out, " *= ");
                r.write_to_file(out, indent);
                push_str(out, ")");
            },
            CExpression::AssignmentDivide(l, r) => {
                push_str(out, "(");
                l.write_to_file(out, indent);
                push_str(out, " /= ");
                r.write_to_file(out, indent);
                push_str(out, ")");
            },
            CExpression::AssignmentModulo(l, r) => {
                push_str(out, "(");
                l.write_to_file(out, indent);
                push_str(out, " %= ");
                r.write_to_file(out, indent);
                push_str(out, ")");
            },
            CExpression::AssignmentBitwiseAnd(l, r) => {
                push_str(out, "(");
                l.write_to_file(out, indent);
                push_str(out, " &= ");
                r.write_to_file(out, indent);
                push_str(out, ")");
            },
            CExpression::AssignmentBitwiseOr(l, r) => {
                push_str(out, "(");
                l.write_to_file(out, indent);
                push_str(out, " |= ");
                r.write_to_file(out, indent);
                push_str(out, ")");
            },
            CExpression::AssignmentBitwiseXor(l, r) => {
                push_str(out, "(");
                l.write_to_file(out, indent);
                push_str(out, " ^= ");
                r.write_to_file(out, indent);
                push_str(out, ")");
            },
            CExpression::AssignmentBitshiftLeft(l, r) => {
                push_str(out, "(");
                l.write_to_file(out, indent);
                push_str(out, " <<= ");
                r.write_to_file(out, indent);
                push_str(out, ")");
            },
            CExpression::AssignmentBitshiftRight(l, r) => {
                push_str(out, "(");
                l.write_to_file(out, indent);
                push_str(out, " >>= ");
                r.write_to_file(out, indent);
                push_str(out, ")");
            },
            CExpression::PostfixIncrement(l) => {
                push_str(out, "(");
                l.write_to_file(out, indent);
                push_str(out, "++)");
            },
            CExpression::PostfixDecrement(l) => {
                push_str(out, "(");
                l.write_to_file(out, indent);
                push_str(out, "--)");
            },
            CExpression::PrefixIncrement(l) => {
                push_str(out, "(++");
                l.write_to_file(out, indent);
                push_str(out, ")");
            },
            CExpression::PrefixDecrement(l) => {
                push_str(out, "(--");
                l.write_to_file(out, indent);
                push_str(out, ")");
            },
            CExpression::TakeReference(l) => {
                push_str(out, "(&");
                l.write_to_file(out, indent);
                push_str(out, ")");
            },
            CExpression::Add(l, r) => {
                push_str(out, "(");
                l.write_to_file(out, indent);
                push_str(out, " + ");
                r.write_to_file(out, indent);
                push_str(out, ")");
            },
            CExpression::Subtract(l, r) => {
                push_str(out, "(");
                l.write_to_file(out, indent);
                push_str(out, " - ");
                r.write_to_file(out, indent);
                push_str(out, ")");
            },
            CExpression::Multiply(l, r) => {
                push_str(out, "(");
                l.write_to_file(out, indent);
                push_str(out, " * ");
                r.write_to_file(out, indent);
                push_str(out, ")");
            },
            CExpression::Divide(l, r) => {
                push_str(out, "(");
                l.write_to_file(out, indent);
                push_str(out, " / ");
                r.write_to_file(out, indent);
                push_str(out, ")");
            },
            CExpression::Modulo(l, r) => {
                push_str(out, "(");
                l.write_to_file(out, indent);
                push_str(out, " % ");
                r.write_to_file(out, indent);
                push_str(out, ")");
            },
            CExpression::BitwiseAnd(l, r) => {
                push_str(out, "(");
                l.write_to_file(out, indent);
                push_str(out, " & ");
                r.write_to_file(out, indent);
                push_str(out, ")");
            },
            CExpression::BitwiseOr(l, r) => {
                push_str(out, "(");
                l.write_to_file(out, indent);
                push_str(out, " | ");
                r.write_to_file(out, indent);
                push_str(out, ")");
            },
            CExpression::BitwiseXor(l, r) => {
                push_str(out, "(");
                l.write_to_file(out, indent);
                push_str(out, " ^ ");
                r.write_to_file(out, indent);
                push_str(out, ")");
            },
            CExpression::BitshiftLeft(l, r) => {
                push_str(out, "(");
                l.write_to_file(out, indent);
                push_str(out, " << ");
                r.write_to_file(out, indent);
                push_str(out, ")");
            },
            CExpression::BitshiftRight(l, r) => {
                push_str(out, "(");
                l.write_to_file(out, indent);
                push_str(out, " >> ");
                r.write_to_file(out, indent);
                push_str(out, ")");
            },
            CExpression::LogicalAnd(l, r) => {
                push_str(out, "(");
                l.write_to_file(out, indent);
                push_str(out, " && ");
                r.write_to_file(out, indent);
                push_str(out, ")");
            },
            CExpression::LogicalOr(l, r) => {
                push_str(out, "(");
                l.write_to_file(out, indent);
                push_str(out, " || ");
                r.write_to_file(out, indent);
                push_str(out, ")");
            },
            CExpression::Equal(l, r) => {
                push_str(out, "(");
                l.write_to_file(out, indent);
                push_str(out, " == ");
                r.write_to_file(out, indent);
                push_str(out, ")");
            },
            CExpression::NotEqual(l, r) => {
                push_str(out, "(");
                l.write_to_file(out, indent);
                push_str(out, " != ");
                r.write_to_file(out, indent);
                push_str(out, ")");
            },
            CExpression::GreaterThan(l, r) => {
                push_str(out, "(");
                l.write_to_file(out, indent);
                push_str(out, " > ");
                r.write_to_file(out, indent);
                push_str(out, ")");
            },
            CExpression::LessThan(l, r) => {
                push_str(out, "(");
                l.write_to_file(out, indent);
                push_str(out, " < ");
                r.write_to_file(out, indent);
                push_str(out, ")");
            },
            CExpression::GreaterThanOrEqual(l, r) => {
                push_str(out, "(");
                l.write_to_file(out, indent);
                push_str(out, " >= ");
                r.write_to_file(out, indent);
                push_str(out, ")");
            },
            CExpression::LessThanOrEqual(l, r) => {
                push_str(out, "(");
                l.write_to_file(out, indent);
                push_str(out, " <= ");
                r.write_to_file(out, indent);
                push_str(out, ")");
            },
            CExpression::Negate(e) => {
                push_str(out, "(-");
                e.write_to_file(out, indent);
                push_str(out, ")");
            },
            CExpression::UnaryPlus(e) => {
                push_str(out, "(+");
                e.write_to_file(out, indent);
                push_str(out, ")");
            },
            CExpression::BitwiseNot(e) => {
                push_str(out, "(~");
                e.write_to_file(out, indent);
                push_str(out, ")");
            },
            CExpression::LogicalNot(e) => {
                push_str(out, "(!");
                e.write_to_file(out, indent);
                push_str(out, ")");
            },
            CExpression::Ternary(c, t, f) => {
                push_str(out, "(");
                c.write_to_file(out, indent);
                push_str(out, "? ");
                t.write_to_file(out, indent);
                push_str(out, ": ");
                f.write_to_file(out, indent);
                push_str(out, ")");
            },
        }
    }
}

impl CLValue {
    /// The variable with a name.
    pub fn variable(name: &str) -> (r: Self)
        ensures
            r matches CLValue::Variable(n) && n@ == name@,
    {
        CLValue::Variable(str_to_chars(name))
    }

    /// The element at an index of the array this l-value holds.
    pub fn array_subscript(self, index: CExpression) -> (r: Self)
        ensures
            r == CLValue::ArraySubscript(Box::new(CExpression::LValueRead(Box::new(self))), Box::new(index)),
    {
        CLValue::ArraySubscript(Box::new(CExpression::LValueRead(Box::new(self))), Box::new(index))
    }

    /// The value held by the l-value.
    pub fn read(self) -> (r: CExpression)
        ensures
            r == CExpression::LValueRead(Box::new(self)),
    {
        CExpression::LValueRead(Box::new(self))
    }

    /// `self++`.
    pub fn postfix_increment(self) -> (r: CExpression)
        ensures
            r == CExpression::PostfixIncrement(Box::new(self)),
    {
        CExpression::PostfixIncrement(Box::new(self))
    }

    /// `self--`.
    pub fn postfix_decrement(self) -> (r: CExpression)
        ensures
            r == CExpression::PostfixDecrement(Box::new(self)),
    {
        CExpression::PostfixDecrement(Box::new(self))
    }

    /// `&self`.
    pub fn take_reference(self) -> (r: CExpression)
        ensures
            r == CExpression::TakeReference(Box::new(self)),
    {
        CExpression::TakeReference(Box::new(self))
    }

    /// `self = value`.
    pub fn assign(self, value: CExpression) -> (r: CExpression)
        ensures
            r == CExpression::Assignment(Box::new(self), Box::new(value)),
    {
        CExpression::Assignment(Box::new(self), Box::new(value))
    }

    /// Appends the C text of the l-value.
    pub fn write_to_file(&self, out: &mut Vec<char>, indent: usize)
        requires
            indent < usize::MAX,
        ensures
            final(out)@ == old(out)@ + self.render(indent as nat),
        decreases self,
    {
        match self {
            CLValue::Variable(name) => push_text(out, name),
            CLValue::Dereference(pointer) => {
                push_str(out, "(*");
                pointer.write_to_file(out, indent);
                push_str(out, ")");
            },
            CLValue::ArraySubscript(array, index) => {
                array.write_to_file(out, indent);
                push_str(out, "[");
                index.write_to_file(out, indent);
                push_str(out, "]");
            },
        }
    }
}

impl CExpression {
    /// The name of an expression without a name or value of its own, as it is printed.
    pub open spec fn fixed_print_name(&self) -> Seq<char> {
        match self {
            CExpression::Assignment(..) => "Assignment"@,
            CExpression::AssignmentAdd(..) => "Assignment Add"@,
            CExpression::AssignmentSubtract(..) => "Assignment Subtract"@,
            CExpression::AssignmentMultiply(..) => "Assignment Multiply"@,
            CExpression::AssignmentDivide(..) => "Assignment Divide"@,
            CExpression::AssignmentModulo(..) => "Assignment Modulo"@,
            CExpression::AssignmentBitwiseAnd(..) => "Assignment Bitwise And"@,
            CExpression::AssignmentBitwiseOr(..) => "Assignment Bitwise Or"@,
            CExpression::AssignmentBitwiseXor(..) => "Assignment Bitwise Xor"@,
            CExpression::AssignmentBitshiftLeft(..) => "Assignment Bitshift Left"@,
            CExpression::AssignmentBitshiftRight(..) => "Assignment Bitshift Right"@,
            CExpression::LValueRead(_) => "Read L-Value"@,
            CExpression::TakeReference(_) => "Take Reference"@,
            CExpression::PostfixIncrement(_) => "Postfix Increment"@,
            CExpression::PostfixDecrement(_) => "Postfix Decrement"@,
            CExpression::PrefixIncrement(_) => "Postfix Increment"@,
            CExpression::PrefixDecrement(_) => "Postfix Decrement"@,
            CExpression::Add(..) => "Add"@,
            CExpression::Subtract(..) => "Subtract"@,
            CExpression::Multiply(..) => "Multiply"@,
            CExpression::Divide(..) => "Divide"@,
            CExpression::Modulo(..) => "Modulo"@,
            CExpression::BitwiseAnd(..) => "Bitwise And"@,
            CExpression::BitwiseOr(..) => "Bitwise Or"@,
            CExpression::BitwiseXor(..) => "Bitwise Xor"@,
            CExpression::BitshiftLeft(..) => "Bitshift Left"@,
            CExpression::BitshiftRight(..) => "Bitshift Right"@,
            CExpression::LogicalAnd(..) => "Logical And"@,
            CExpression::LogicalOr(..) => "Logical Or"@,
            CExpression::Equal(..) => "Equal"@,
            CExpression::NotEqual(..) => "Not Equal"@,
            CExpression::LessThan(..) => "Less than"@,
            CExpression::GreaterThan(..) => "Greater than"@,
            CExpression::LessThanOrEqual(..) => "Less than or Equal"@,
            CExpression::GreaterThanOrEqual(..) => "Greater than or Equal"@,
            CExpression::UnaryPlus(_) => "Unary Plus"@,
            CExpression::Negate(_) => "Negate"@,
            CExpression::BitwiseNot(_) => "Bitwise Not"@,
            CExpression::LogicalNot(_) => "Logical Not"@,
            CExpression::Sizeof(_) => "Sizeof"@,
            CExpression::Ternary(..) => "Ternary"@,
            _ => Seq::empty(),
        }
    }

    /// The name of the expression as it is printed.
    pub open spec fn spec_print_name(&self) -> Seq<char> {
        match self {
            CExpression::FunctionCall(name, _) => "Function Call \""@ + name@ + "\""@,
            CExpression::IntConstant(v) => "Int Constant "@ + int_decimal(*v as int),
            CExpression::StringConstant(v) => "String Constant \""@ + v@ + "\""@,
            _ => self.fixed_print_name(),
        }
    }

    fn fixed_name(&self) -> (r: &'static str)
        requires
            !(self is FunctionCall || self is IntConstant || self is StringConstant),
        ensures
            r@ == self.fixed_print_name(),
    {
        match self {
            CExpression::Assignment(..) => "Assignment",
            CExpression::AssignmentAdd(..) => "Assignment Add",
            CExpression::AssignmentSubtract(..) => "Assignment Subtract",
            CExpression::AssignmentMultiply(..) => "Assignment Multiply",
            CExpression::AssignmentDivide(..) => "Assignment Divide",
            CExpression::AssignmentModulo(..) => "Assignment Modulo",
            CExpression::AssignmentBitwiseAnd(..) => "Assignment Bitwise And",
            CExpression::AssignmentBitwiseOr(..) => "Assignment Bitwise Or",
            CExpression::AssignmentBitwiseXor(..) => "Assignment Bitwise Xor",
            CExpression::AssignmentBitshiftLeft(..) => "Assignment Bitshift Left",
            CExpression::AssignmentBitshiftRight(..) => "Assignment Bitshift Right",
            CExpression::LValueRead(_) => "Read L-Value",
            CExpression::TakeReference(_) => "Take Reference",
            CExpression::PostfixIncrement(_) => "Postfix Increment",
            CExpression::PostfixDecrement(_) => "Postfix Decrement",
            CExpression::PrefixIncrement(_) => "Postfix Increment",
            CExpression::PrefixDecrement(_) => "Postfix Decrement",
            CExpression::Add(..) => "Add",
            CExpression::Subtract(..) => "Subtract",
            CExpression::Multiply(..) => "Multiply",
            CExpression::Divide(..) => "Divide",
            CExpression::Modulo(..) => "Modulo",
            CExpression::BitwiseAnd(..) => "Bitwise And",
            CExpression::BitwiseOr(..) => "Bitwise Or",
            CExpression::BitwiseXor(..) => "Bitwise Xor",
            CExpression::BitshiftLeft(..) => "Bitshift Left",
            CExpression::BitshiftRight(..) => "Bitshift Right",
            CExpression::LogicalAnd(..) => "Logical And",
            CExpression::LogicalOr(..) => "Logical Or",
            CExpression::Equal(..) => "Equal",
            CExpression::NotEqual(..) => "Not Equal",
            CExpression::LessThan(..) => "Less than",
            CExpression::GreaterThan(..) => "Greater than",
            CExpression::LessThanOrEqual(..) => "Less than or Equal",
            CExpression::GreaterThanOrEqual(..) => "Greater than or Equal",
            CExpression::UnaryPlus(_) => "Unary Plus",
            CExpression::Negate(_) => "Negate",
            CExpression::BitwiseNot(_) => "Bitwise Not",
            CExpression::LogicalNot(_) => "Logical Not",
            CExpression::Sizeof(_) => "Sizeof",
            CExpression::Ternary(..) => "Ternary",
            _ => "",
        }
    }

    /// The name of the expression as it is printed.
    pub fn print_name(&self) -> (r: Vec<char>)
        ensures
            r@ == self.spec_print_name(),
    {
        let mut out: Vec<char> = Vec::new();
        match self {
            CExpression::FunctionCall(name, _) => {
                push_str(&mut out, "Function Call \"");
                push_chars(&mut out, name.as_slice());
                push_str(&mut out, "\"");
            },
            CExpression::IntConstant(v) => {
                push_str(&mut out, "Int Constant ");
                push_i128_decimal(&mut out, *v);
            },
            CExpression::StringConstant(v) => {
                push_str(&mut out, "String Constant \"");
                push_chars(&mut out, v.as_slice());
                push_str(&mut out, "\"");
            },
            _ => push_str(&mut out, self.fixed_name()),
        }
        proof {
            assert(out@ =~= self.spec_print_name());
        }
        out
    }

    /// The printed tree of the expression: its line, then the trees of its operands.
    pub open spec fn tree(&self, dashes: Seq<char>) -> Seq<char>
        decreases self, 2nat,
    {
        node_line(dashes, None, self.spec_print_name()) + self.sub_trees(dashes.push('-'))
    }

    /// The printed trees of the operands of the expression, at a level.
    pub open spec fn sub_trees(&self, dashes: Seq<char>) -> Seq<char>
        decreases self, 1nat,
    {
        match self {
            CExpression::Assignment(l, e) => l.tree(dashes) + e.tree(dashes),
            CExpression::AssignmentAdd(l, e) => l.tree(dashes) + e.tree(dashes),
            CExpression::AssignmentSubtract(l, e) => l.tree(dashes) + e.tree(dashes),
            CExpression::AssignmentMultiply(l, e) => l.tree(dashes) + e.tree(dashes),
            CExpression::AssignmentDivide(l, e) => l.tree(dashes) + e.tree(dashes),
            CExpression::AssignmentModulo(l, e) => l.tree(dashes) + e.tree(dashes),
            CExpression::AssignmentBitwiseAnd(l, e) => l.tree(dashes) + e.tree(dashes),
            CExpression::AssignmentBitwiseOr(l, e) => l.tree(dashes) + e.tree(dashes),
            CExpression::AssignmentBitwiseXor(l, e) => l.tree(dashes) + e.tree(dashes),
            CExpression::AssignmentBitshiftLeft(l, e) => l.tree(dashes) + e.tree(dashes),
            CExpression::AssignmentBitshiftRight(l, e) => l.tree(dashes) + e.tree(dashes),
            CExpression::LValueRead(l) => l.tree(dashes),
            CExpression::TakeReference(l) => l.tree(dashes),
            CExpression::PostfixIncrement(l) => l.tree(dashes),
            CExpression::PostfixDecrement(l) => l.tree(dashes),
            CExpression::PrefixIncrement(l) => l.tree(dashes),
            CExpression::PrefixDecrement(l) => l.tree(dashes),
            CExpression::Add(l, r) => l.tree(dashes) + r.tree(dashes),
            CExpression::Subtract(l, r) => l.tree(dashes) + r.tree(dashes),
            CExpression::Multiply(l, r) => l.tree(dashes) + r.tree(dashes),
            CExpression::Divide(l, r) => l.tree(dashes) + r.tree(dashes),
            CExpression::Modulo(l, r) => l.tree(dashes) + r.tree(dashes),
            CExpression::BitwiseAnd(l, r) => l.tree(dashes) + r.tree(dashes),
            CExpression::BitwiseOr(l, r) => l.tree(dashes) + r.tree(dashes),
            CExpression::BitwiseXor(l, r) => l.tree(dashes) + r.tree(dashes),
            CExpression::BitshiftLeft(l, r) => l.tree(dashes) + r.tree(dashes),
            CExpression::BitshiftRight(l, r) => l.tree(dashes) + r.tree(dashes),
            CExpression::LogicalAnd(l, r) => l.tree(dashes) + r.tree(dashes),
            CExpression::LogicalOr(l, r) => l.tree(dashes) + r.tree(dashes),
            CExpression::Equal(l, r) => l.tree(dashes) + r.tree(dashes),
            CExpression::NotEqual(l, r) => l.tree(dashes) + r.tree(dashes),
            CExpression::LessThan(l, r) => l.tree(dashes) + r.tree(dashes),
            CExpression::GreaterThan(l, r) => l.tree(dashes) + r.tree(dashes),
            CExpression::LessThanOrEqual(l, r) => l.tree(dashes) + r.tree(dashes),
            CExpression::GreaterThanOrEqual(l, r) => l.tree(dashes) + r.tree(dashes),
            CExpression::UnaryPlus(e) => e.tree(dashes),
            CExpression::Negate(e) => e.tree(dashes),
            CExpression::BitwiseNot(e) => e.tree(dashes),
            CExpression::LogicalNot(e) => e.tree(dashes),
            CExpression::Sizeof(t) => t.tree(dashes),
            CExpression::Ternary(c, t, f) => c.tree(dashes) + t.tree(dashes) + f.tree(dashes),
            CExpression::FunctionCall(_, arguments) => c_expression_trees(arguments@, dashes),
            _ => Seq::empty(),
        }
    }

    /// Writes the printed tree of the expression.
    pub fn print_tree(&self, out: &mut Vec<char>, dashes: &Vec<char>)
        ensures
            final(out)@ == old(out)@ + self.tree(dashes@),
        decreases self, 1nat,
    {
        let name = self.print_name();
        push_node_line(out, dashes, None, name.as_slice());
        let below = deeper(dashes);
        self.print_sub_trees(out, &below);
    }

    /// Writes the printed trees of the operands of the expression.
    #[verifier::rlimit(40)]
    pub fn print_sub_trees(&self, out: &mut Vec<char>, below: &Vec<char>)
        ensures
            final(out)@ == old(out)@ + self.sub_trees(below@),
        decreases self, 0nat,
    {
        let ghost start = out@;
        match self {
            CExpression::Assignment(l, e) => {
                l.print_tree(out, below);
                e.print_tree(out, below);
            },
            CExpression::AssignmentAdd(l, e) => {
                l.print_tree(out, below);
                e.print_tree(out, below);
            },
            CExpression::AssignmentSubtract(l, e) => {
                l.print_tree(out, below);
                e.print_tree(out, below);
            },
            CExpression::AssignmentMultiply(l, e) => {
                l.print_tree(out, below);
                e.print_tree(out, below);
            },
            CExpression::AssignmentDivide(l, e) => {
                l.print_tree(out, below);
                e.print_tree(out, below);
            },
            CExpression::AssignmentModulo(l, e) => {
                l.print_tree(out, below);
                e.print_tree(out, below);
            },
            CExpression::AssignmentBitwiseAnd(l, e) => {
                l.print_tree(out, below);
                e.print_tree(out, below);
            },
            CExpression::AssignmentBitwiseOr(l, e) => {
                l.print_tree(out, below);
                e.print_tree(out, below);
            },
            CExpression::AssignmentBitwiseXor(l, e) => {
                l.print_tree(out, below);
                e.print_tree(out, below);
            },
            CExpression::AssignmentBitshiftLeft(l, e) => {
                l.print_tree(out, below);
                e.print_tree(out, below);
            },
            CExpression::AssignmentBitshiftRight(l, e) => {
                l.print_tree(out, below);
                e.print_tree(out, below);
            },
            CExpression::LValueRead(l) => l.print_tree(out, below),
            CExpression::TakeReference(l) => l.print_tree(out, below),
            CExpression::PostfixIncrement(l) => l.print_tree(out, below),
            CExpression::PostfixDecrement(l) => l.print_tree(out, below),
            CExpression::PrefixIncrement(l) => l.print_tree(out, below),
            CExpression::PrefixDecrement(l) => l.print_tree(out, below),
            CExpression::Add(l, r) => {
                l.print_tree(out, below);
                r.print_tree(out, below);
            },
            CExpression::Subtract(l, r) => {
                l.print_tree(out, below);
                r.print_tree(out, below);
            },
            CExpression::Multiply(l, r) => {
                l.print_tree(out, below);
                r.print_tree(out, below);
            },
            CExpression::Divide(l, r) => {
                l.print_tree(out, below);
                r.print_tree(out, below);
            },
            CExpression::Modulo(l, r) => {
                l.print_tree(out, below);
                r.print_tree(out, below);
            },
            CExpression::BitwiseAnd(l, r) => {
                l.print_tree(out, below);
                r.print_tree(out, below);
            },
            CExpression::BitwiseOr(l, r) => {
                l.print_tree(out, below);
                r.print_tree(out, below);
            },
            CExpression::BitwiseXor(l, r) => {
                l.print_tree(out, below);
                r.print_tree(out, below);
            },
            CExpression::BitshiftLeft(l, r) => {
                l.print_tree(out, below);
                r.print_tree(out, below);
            },
            CExpression::BitshiftRight(l, r) => {
                l.print_tree(out, below);
                r.print_tree(out, below);
            },
            CExpression::LogicalAnd(l, r) => {
                l.print_tree(out, below);
                r.print_tree(out, below);
            },
            CExpression::LogicalOr(l, r) => {
                l.print_tree(out, below);
                r.print_tree(out, below);
            },
            CExpression::Equal(l, r) => {
                l.print_tree(out, below);
                r.print_tree(out, below);
            },
            CExpression::NotEqual(l, r) => {
                l.print_tree(out, below);
                r.print_tree(out, below);
            },
            CExpression::LessThan(l, r) => {
                l.print_tree(out, below);
                r.print_tree(out, below);
            },
            CExpression::GreaterThan(l, r) => {
                l.print_tree(out, below);
                r.print_tree(out, below);
            },
            CExpression::LessThanOrEqual(l, r) => {
                l.print_tree(out, below);
                r.print_tree(out, below);
            },
            CExpression::GreaterThanOrEqual(l, r) => {
                l.print_tree(out, below);
                r.print_tree(out, below);
            },
            CExpression::UnaryPlus(e) => e.print_tree(out, below),
            CExpression::Negate(e) => e.print_tree(out, below),
            CExpression::BitwiseNot(e) => e.print_tree(out, below),
            CExpression::LogicalNot(e) => e.print_tree(out, below),
            CExpression::Sizeof(t) => t.print_tree(out, below),
            CExpression::Ternary(c, t, f) => {
                c.print_tree(out, below);
                t.print_tree(out, below);
                f.print_tree(out, below);
            },
            CExpression::FunctionCall(_, arguments) => print_c_expression_trees(arguments, out, below),
            _ => {},
        }
        proof {
            assert(out@ =~= start + self.sub_trees(below@));
        }
    }
}

impl CLValue {
    /// The name of the l-value as it is printed.
    pub open spec fn spec_print_name(&self) -> Seq<char> {
        match self {
            CLValue::Variable(name) => "Variable \""@ + name@ + "\""@,
            CLValue::Dereference(_) => "Dereference"@,
            CLValue::ArraySubscript(_, _) => "Array Subscript"@,
        }
    }

    /// The printed tree of the l-value: its line, then the trees of the expressions it is made of.
    pub open spec fn tree(&self, dashes: Seq<char>) -> Seq<char>
        decreases self, 2nat,
    {
        node_line(dashes, None, self.spec_print_name()) + match self {
            CLValue::Dereference(pointer) => pointer.tree(dashes.push('-')),
            CLValue::ArraySubscript(array, index) => array.tree(dashes.push('-')) + index.tree(dashes.push('-')),
            _ => Seq::empty(),
        }
    }

    /// Writes the printed tree of the l-value.
    pub fn print_tree(&self, out: &mut Vec<char>, dashes: &Vec<char>)
        ensures
            final(out)@ == old(out)@ + self.tree(dashes@),
        decreases self, 1nat,
    {
        let ghost start = out@;
        let mut name: Vec<char> = Vec::new();
        match self {
            CLValue::Variable(v) => {
                push_str(&mut name, "Variable \"");
                push_chars(&mut name, v.as_slice());
                push_str(&mut name, "\"");
            },
            CLValue::Dereference(_) => push_str(&mut name, "Dereference"),
            CLValue::ArraySubscript(_, _) => push_str(&mut name, "Array Subscript"),
        }
        push_node_line(out, dashes, None, name.as_slice());
        let below = deeper(dashes);
        match self {
            CLValue::Dereference(pointer) => pointer.print_tree(out, &below),
            CLValue::ArraySubscript(array, index) => {
                array.print_tree(out, &below);
                index.print_tree(out, &below);
            },
            _ => {},
        }
        proof {
            assert(out@ =~= start + self.tree(dashes@));
        }
    }
}

/// The printed tree of each expression.
pub open spec fn c_expression_tree_parts(es: Seq<CExpression>, dashes: Seq<char>) -> Seq<Seq<char>>
    decreases es, 0nat,
{
    Seq::new(es.len(), |i: int| if 0 <= i < es.len() { es[i].tree(dashes) } else { Seq::empty() })
}

/// The printed trees of expressions, one after the other.
pub open spec fn c_expression_trees(es: Seq<CExpression>, dashes: Seq<char>) -> Seq<char>
    decreases es, 1nat,
{
    concat(c_expression_tree_parts(es, dashes))
}

/// Writes the printed trees of expressions, one after the other.
pub fn print_c_expression_trees(es: &Vec<CExpression>, out: &mut Vec<char>, dashes: &Vec<char>)
    ensures
        final(out)@ == old(out)@ + c_expression_trees(es@, dashes@),
    decreases es, 0nat,
{
    let ghost start = out@;
    let ghost parts = c_expression_tree_parts(es@, dashes@);
    let mut i: usize = 0;
    while i < es.len()
        invariant
            i <= es@.len(),
            parts == c_expression_tree_parts(es@, dashes@),
            out@ == start + concat(parts.take(i as int)),
        decreases es@.len() - i,
    {
        proof {
            lemma_concat_take(parts, i as int);
            assert(decreases_to!(es => es@));
            assert(decreases_to!(es@ => es@[i as int]));
        }
        es[i].print_tree(out, dashes);
        i = i + 1;
    }
    proof {
        assert(parts.take(es@.len() as int) =~= parts);
    }
}

} // verus!
