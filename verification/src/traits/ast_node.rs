//! Nodes of abstract syntax trees, and their printed trees: each node on a line of its own, after a
//! dash for each level it is below the root and the place it starts, when it has one.
use vstd::prelude::*;

use crate::text::{push_chars, push_str};
use crate::traits::token::{padded_decimal, push_padded_decimal};

verus! {

/// A node of an abstract syntax tree, with where it was read from in the source.
/// Lines and columns count from one; a node without a place gives `None`.
pub trait AstNode {
    spec fn spec_start_line(&self) -> Option<usize>;

    spec fn spec_end_line(&self) -> Option<usize>;

    spec fn spec_start_column(&self) -> Option<usize>;

    spec fn spec_end_column(&self) -> Option<usize>;

    fn start_line(&self) -> (r: Option<usize>)
        ensures
            r == self.spec_start_line(),
    ;

    fn end_line(&self) -> (r: Option<usize>)
        ensures
            r == self.spec_end_line(),
    ;

    fn start_column(&self) -> (r: Option<usize>)
        ensures
            r == self.spec_start_column(),
    ;

    fn end_column(&self) -> (r: Option<usize>)
        ensures
            r == self.spec_end_column(),
    ;
}

/// The line of a node: the dashes of its level, where it starts (when it has a place), and its name.
pub open spec fn node_line(dashes: Seq<char>, place: Option<(usize, usize)>, name: Seq<char>) -> Seq<char> {
    dashes + match place {
        Some((line, column)) => padded_decimal(line as nat) + ":"@ + padded_decimal(column as nat) + ": "@,
        None => Seq::empty(),
    } + name + "\n"@
}

/// Writes the line of a node.
pub fn push_node_line(out: &mut Vec<char>, dashes: &Vec<char>, place: Option<(usize, usize)>, name: &[char])
    ensures
        final(out)@ == old(out)@ + node_line(dashes@, place, name@),
{
    let ghost start = out@;
    push_chars(out, dashes.as_slice());
    let ghost after_dashes = out@;
    match place {
        Some((line, column)) => {
            push_padded_decimal(out, line);
            push_str(out, ":");
            push_padded_decimal(out, column);
            push_str(out, ": ");
        },
        None => {},
    }
    let ghost after_place = out@;
    push_chars(out, name);
    push_str(out, "\n");
    proof {
        assert(out@ =~= start + node_line(dashes@, place, name@));
    }
}

/// The dashes of the level below.
pub fn deeper(dashes: &Vec<char>) -> (r: Vec<char>)
    ensures
        r@ == dashes@.push('-'),
{
    let mut r: Vec<char> = Vec::new();
    push_chars(&mut r, dashes.as_slice());
    r.push('-');
    r
}

} // verus!
