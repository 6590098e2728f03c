use vstd::prelude::*;

use crate::programming_languages::tanuki::expression::TanukiExpression;
use crate::traits::ast_node::AstNode;

verus! {

/// A global constant of a Tanuki module: its value, name and type, where it was written, and
/// whether other modules can import it.
#[derive(Debug)]
pub struct TanukiGlobalConstant {
    pub value_expression: TanukiExpression,
    pub name: Vec<char>,
    pub t_type: Option<TanukiExpression>,
    pub start_line: usize,
    pub start_column: usize,
    pub end_line: usize,
    pub end_column: usize,
    pub export: bool,
}

impl AstNode for TanukiGlobalConstant {
    open spec fn spec_start_line(&self) -> Option<usize> {
        Some(self.start_line)
    }

    open spec fn spec_end_line(&self) -> Option<usize> {
        Some(self.end_line)
    }

    open spec fn spec_start_column(&self) -> Option<usize> {
        Some(self.start_column)
    }

    open spec fn spec_end_column(&self) -> Option<usize> {
        Some(self.end_column)
    }

    fn start_line(&self) -> (r: Option<usize>) {
        Some(self.start_line)
    }

    fn end_line(&self) -> (r: Option<usize>) {
        Some(self.end_line)
    }

    fn start_column(&self) -> (r: Option<usize>) {
        Some(self.start_column)
    }

    fn end_column(&self) -> (r: Option<usize>) {
        Some(self.end_column)
    }
}

} // verus!
