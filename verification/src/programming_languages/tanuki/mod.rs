//! Tanuki, the compiler's own language: its tokens, tokenizer, types, values and their compilation.
use vstd::prelude::*;

pub mod compile_time_value;
pub mod compile_to_c;
pub mod const_compile;
pub mod expression;
pub mod parse;
pub mod post_parse;
pub mod print;
pub mod import;
pub mod expression_const_compile;
pub mod global_constant;
pub mod t_type;
pub mod token;
pub mod tokenize;

verus! {

/// The Tanuki language.
#[derive(Debug)]
pub struct Tanuki {}

impl Tanuki {
    pub fn new() -> (r: Self)
        ensures
            r == (Tanuki {}),
    {
        Tanuki {}
    }
}

} // verus!
