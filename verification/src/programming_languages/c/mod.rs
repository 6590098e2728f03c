//! C source code: an abstract syntax tree of the C that Tanuki and Branflakes are compiled to,
//! and its rendering as text.
use vstd::prelude::*;

use crate::text::push_chars;

pub mod expression;
pub mod l_value;
pub mod module;
pub mod module_element;
pub mod statement;
pub mod types;

verus! {

/// The C language. Its source is only written, never read.
#[derive(Debug)]
pub struct C {}

impl C {
    pub fn new() -> (r: Self)
        ensures
            r == (C {}),
    {
        C {}
    }
}

/// A token of C source. C source is never tokenized, so a token carries nothing.
#[derive(Debug)]
pub struct CToken {}

/// Texts joined with a separator between each two.
pub open spec fn join(parts: Seq<Seq<char>>, sep: Seq<char>) -> Seq<char>
    decreases parts.len(),
{
    if parts.len() == 0 {
        Seq::empty()
    } else if parts.len() == 1 {
        parts[0]
    } else {
        join(parts.drop_last(), sep) + sep + parts.last()
    }
}

/// Texts one after the other.
pub open spec fn concat(parts: Seq<Seq<char>>) -> Seq<char>
    decreases parts.len(),
{
    if parts.len() == 0 {
        Seq::empty()
    } else {
        concat(parts.drop_last()) + parts.last()
    }
}

/// `n` tab chars.
pub open spec fn tabs(n: nat) -> Seq<char> {
    Seq::new(n, |i: int| '\t')
}

/// The text between the braces of a block of lines: nothing when there are none, else a line break,
/// the lines, and the indentation before the closing brace.
pub open spec fn block_body(lines: Seq<Seq<char>>, indent: nat) -> Seq<char> {
    if lines.len() == 0 {
        Seq::empty()
    } else {
        seq!['\n'] + concat(lines) + tabs(indent)
    }
}

pub proof fn lemma_join_take(parts: Seq<Seq<char>>, sep: Seq<char>, i: int)
    requires
        0 <= i < parts.len(),
    ensures
        join(parts.take(i + 1), sep) == if i == 0 {
            parts[0]
        } else {
            join(parts.take(i), sep) + sep + parts[i]
        },
{
    assert(parts.take(i + 1).drop_last() =~= parts.take(i));
}

pub proof fn lemma_concat_take(parts: Seq<Seq<char>>, i: int)
    requires
        0 <= i < parts.len(),
    ensures
        concat(parts.take(i + 1)) == concat(parts.take(i)) + parts[i],
{
    assert(parts.take(i + 1).drop_last() =~= parts.take(i));
}

/// Appends `n` tab chars.
pub fn push_tabs(out: &mut Vec<char>, n: usize)
    ensures
        final(out)@ == old(out)@ + tabs(n as nat),
{
    let mut i: usize = 0;
    while i < n
        invariant
            i <= n,
            out@ == old(out)@ + tabs(i as nat),
        decreases n - i,
    {
        out.push('\t');
        i = i + 1;
        proof {
            assert(out@ =~= old(out)@ + tabs(i as nat));
        }
    }
}

/// Appends a text held as chars.
pub fn push_text(out: &mut Vec<char>, s: &Vec<char>)
    ensures
        final(out)@ == old(out)@ + s@,
{
    push_chars(out, s.as_slice());
}

} // verus!
