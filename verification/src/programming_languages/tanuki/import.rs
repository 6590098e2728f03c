use vstd::prelude::*;

use crate::traits::ast_node::AstNode;

verus! {

/// An import of a global item of another module.
#[derive(Debug)]
pub struct TanukiImport {
    pub name: Vec<char>,
    pub module_file: Vec<char>,
    pub start_line: usize,
    pub start_column: usize,
    pub end_line: usize,
    pub end_column: usize,
}

impl AstNode for TanukiImport {
    open spec fn spec_start_line(&self) -> Option<usize> {
        Some(self.start_line)
    }

    open spec fn spec_end_line(&self) -> Option<usize> {
        Some(self.end_line)
    }

    open spec fn spec_start_column(&self) -> Option<usize> {
        Some(self.start_column)
    }

    open spec fn spec_end_column(&self) -> Option<usize> {
        Some(self.end_column)
    }

    fn start_line(&self) -> (r: Option<usize>) {
        Some(self.start_line)
    }

    fn end_line(&self) -> (r: Option<usize>) {
        Some(self.end_line)
    }

    fn start_column(&self) -> (r: Option<usize>) {
        Some(self.start_column)
    }

    fn end_column(&self) -> (r: Option<usize>) {
        Some(self.end_column)
    }
}

} // verus!
