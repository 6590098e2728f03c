use vstd::prelude::*;

use crate::traits::ast_node::AstNode;

verus! {

/// A node of an abstract syntax tree that is an expression of its language.
pub trait Expression: AstNode {
}

} // verus!
