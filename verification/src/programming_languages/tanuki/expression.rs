use vstd::prelude::*;

use crate::programming_languages::tanuki::compile_time_value::TanukiCompileTimeValue;
use crate::programming_languages::tanuki::token::{
    TanukiInfixBinaryOperator, TanukiInfixTernaryOperator, TanukiNullaryOperator, TanukiPostfixUnaryOperator,
    TanukiPrefixUnaryOperator,
};
use crate::traits::ast_node::AstNode;
use crate::traits::expression::Expression;

verus! {

/// A Tanuki expression that has been parsed from a file, with where it starts and ends.
#[derive(Debug)]
pub struct TanukiExpression {
    pub variant: TanukiExpressionVariant,
    pub start_line: usize,
    pub start_column: usize,
    pub end_line: usize,
    pub end_column: usize,
}

/// What a Tanuki expression is.
#[derive(Debug)]
pub enum TanukiExpressionVariant {
    Constant(TanukiCompileTimeValue),
    /// A block: the expressions ended by semicolons, then those ended by commas (or the closing
    /// brace), each of the latter with the member name it is assigned to, if any.
    Block { sub_expressions: Vec<TanukiExpression>, return_expressions: Vec<(Option<Vec<char>>, TanukiExpression)> },
    Variable(Vec<char>),
    FunctionCall { function_pointer: Box<TanukiExpression>, arguments: Vec<TanukiExpression> },
    FunctionDefinition { parameters: Vec<TanukiExpression>, return_type: Option<Box<TanukiExpression>>, body_expression: Box<TanukiExpression> },
    /// A function of a module: its name and the module's file.
    Function { name: Vec<char>, module_file: Vec<char> },
    Index(Box<TanukiExpression>, Box<TanukiExpression>),
    TypeAndValue(Box<TanukiExpression>, Box<TanukiExpression>),
    /// A constant of another module: its name, if given, and the module's file.
    ImportConstant { name: Option<Vec<char>>, module_file: Vec<char> },
    Export(Box<TanukiExpression>),
    Link {
        name: Option<Vec<char>>,
        library_path: Vec<char>,
        parameter_types: Vec<TanukiExpression>,
        return_type: Option<Box<TanukiExpression>>,
        link_if: Option<Box<TanukiExpression>>,
    },
    Entrypoint(Box<TanukiExpression>),
    U(Vec<TanukiExpression>),
    I(Vec<TanukiExpression>),
    F(Vec<TanukiExpression>),
    NullaryOperator(TanukiNullaryOperator),
    PrefixUnaryOperator(TanukiPrefixUnaryOperator, Box<TanukiExpression>),
    PostfixUnaryOperator(TanukiPostfixUnaryOperator, Box<TanukiExpression>),
    InfixBinaryOperator(TanukiInfixBinaryOperator, Box<TanukiExpression>, Box<TanukiExpression>),
    InfixTernaryOperator(TanukiInfixTernaryOperator, Box<TanukiExpression>, Box<TanukiExpression>, Box<TanukiExpression>),
    Assignment(Box<TanukiExpression>, Box<TanukiExpression>),
    AugmentedBinaryAssignment(TanukiInfixBinaryOperator, Box<TanukiExpression>, Box<TanukiExpression>),
    Transmute { to_transmute: Box<TanukiExpression>, transmute_to_type: Box<TanukiExpression> },
}

impl TanukiExpression {
    /// The void constant at line 1, column 1.
    pub fn default() -> (r: Self)
        ensures
            r.variant matches TanukiExpressionVariant::Constant(TanukiCompileTimeValue::Void),
            r.start_line == 1 && r.start_column == 1 && r.end_line == 1 && r.end_column == 1,
    {
        TanukiExpression {
            variant: TanukiExpressionVariant::Constant(TanukiCompileTimeValue::Void),
            start_line: 1,
            start_column: 1,
            end_line: 1,
            end_column: 1,
        }
    }
}

impl AstNode for TanukiExpression {
    open spec fn spec_start_line(&self) -> Option<usize> {
        Some(self.start_line)
    }

    open spec fn spec_end_line(&self) -> Option<usize> {
        Some(self.end_line)
    }

    open spec fn spec_start_column(&self) -> Option<usize> {
        Some(self.start_column)
    }

    open spec fn spec_end_column(&self) -> Option<usize> {
        Some(self.end_column)
    }

    fn start_line(&self) -> (r: Option<usize>) {
        Some(self.start_line)
    }

    fn end_line(&self) -> (r: Option<usize>) {
        Some(self.end_line)
    }

    fn start_column(&self) -> (r: Option<usize>) {
        Some(self.start_column)
    }

    fn end_column(&self) -> (r: Option<usize>) {
        Some(self.end_column)
    }
}

impl Expression for TanukiExpression {
}

} // verus!
