use vstd::prelude::*;

use crate::programming_languages::c::expression::CExpression;

verus! {

/// A C l-value: a place that can be assigned to.
#[derive(Debug)]
pub enum CLValue {
    Variable(Vec<char>),
    Dereference(Box<CExpression>),
    /// An element of an array: the array, then the index.
    ArraySubscript(Box<CExpression>, Box<CExpression>),
}

} // verus!
