use vstd::prelude::*;

use crate::text::{nat_decimal, push_chars, push_str, push_usize_decimal};

verus! {

/// A token read from a source file, with the position it was read at.
/// Lines and columns count from one.
pub trait Token {
    spec fn spec_start_line(&self) -> Option<usize>;

    spec fn spec_end_line(&self) -> Option<usize>;

    spec fn spec_start_column(&self) -> Option<usize>;

    spec fn spec_end_column(&self) -> Option<usize>;

    fn start_line(&self) -> (r: Option<usize>)
        ensures
            r == self.spec_start_line(),
    ;

    fn end_line(&self) -> (r: Option<usize>)
        ensures
            r == self.spec_end_line(),
    ;

    fn start_column(&self) -> (r: Option<usize>)
        ensures
            r == self.spec_start_column(),
    ;

    fn end_column(&self) -> (r: Option<usize>)
        ensures
            r == self.spec_end_column(),
    ;
}


/// A number in decimal with leading zeros up to three digits.
pub open spec fn padded_decimal(n: nat) -> Seq<char> {
    let d = nat_decimal(n);
    if d.len() >= 3 {
        d
    } else {
        Seq::new((3 - d.len()) as nat, |i: int| '0') + d
    }
}

/// Writes a number in decimal with leading zeros up to three digits.
pub fn push_padded_decimal(out: &mut Vec<char>, n: usize)
    ensures
        final(out)@ == old(out)@ + padded_decimal(n as nat),
{
    let mut digits: Vec<char> = Vec::new();
    push_usize_decimal(&mut digits, n);
    let ghost start = out@;
    let mut k: usize = digits.len();
    while k < 3
        invariant
            digits@ == nat_decimal(n as nat),
            digits@.len() <= k <= 3 || (k == digits@.len() && k >= 3),
            out@ == start + Seq::new((k - digits@.len()) as nat, |i: int| '0'),
        decreases 3 - k,
    {
        out.push('0');
        k = k + 1;
        proof {
            assert(out@ =~= start + Seq::new((k - digits@.len()) as nat, |i: int| '0'));
        }
    }
    push_chars(out, digits.as_slice());
    proof {
        if digits@.len() >= 3 {
            assert(out@ =~= start + padded_decimal(n as nat));
        } else {
            assert(out@ =~= start + padded_decimal(n as nat));
        }
    }
}

/// Where a token was read, as it is printed before its name: the lines and columns that are
/// known, each with at least three digits, and a space; `None` for a place that is not printed.
pub open spec fn position_text(start_line: Option<usize>, end_line: Option<usize>, start_column: Option<usize>, end_column: Option<usize>) -> Option<
    Seq<char>,
> {
    match (start_line, end_line, start_column, end_column) {
        (None, None, None, None) => Some(Seq::empty()),
        (Some(sl), None, None, None) => Some(padded_decimal(sl as nat) + " "@),
        (Some(sl), None, Some(sc), None) => Some(padded_decimal(sl as nat) + ":"@ + padded_decimal(sc as nat) + " "@),
        (Some(sl), Some(el), None, None) => if sl == el {
            Some(padded_decimal(sl as nat) + " "@)
        } else {
            Some(padded_decimal(sl as nat) + "-"@ + padded_decimal(el as nat) + " "@)
        },
        (Some(sl), Some(el), Some(sc), Some(ec)) => if sl == el && sc == ec {
            Some(padded_decimal(sl as nat) + ":"@ + padded_decimal(sc as nat) + " "@)
        } else if sl == el {
            Some(padded_decimal(sl as nat) + ":"@ + padded_decimal(sc as nat) + "-"@ + padded_decimal(ec as nat) + " "@)
        } else {
            Some(
                padded_decimal(sl as nat) + ":"@ + padded_decimal(sc as nat) + "-"@ + padded_decimal(el as nat) + ":"@ + padded_decimal(
                    ec as nat,
                ) + " "@,
            )
        },
        (Some(sl), None, Some(sc), Some(ec)) => Some(
            padded_decimal(sl as nat) + ":"@ + padded_decimal(sc as nat) + "-"@ + padded_decimal(ec as nat) + " "@,
        ),
        _ => None,
    }
}

/// Writes where a token was read, as it is printed before its name.
pub fn push_position(
    out: &mut Vec<char>,
    start_line: Option<usize>,
    end_line: Option<usize>,
    start_column: Option<usize>,
    end_column: Option<usize>,
)
    requires
        position_text(start_line, end_line, start_column, end_column) is Some,
    ensures
        final(out)@ == old(out)@ + position_text(start_line, end_line, start_column, end_column).unwrap(),
{
    match (start_line, end_line, start_column, end_column) {
        (None, None, None, None) => {},
        (Some(sl), None, None, None) => {
            push_padded_decimal(out, sl);
            push_str(out, " ");
        },
        (Some(sl), None, Some(sc), None) => {
            push_padded_decimal(out, sl);
            push_str(out, ":");
            push_padded_decimal(out, sc);
            push_str(out, " ");
        },
        (Some(sl), Some(el), None, None) => {
            push_padded_decimal(out, sl);
            if sl != el {
                push_str(out, "-");
                push_padded_decimal(out, el);
            }
            push_str(out, " ");
        },
        (Some(sl), Some(el), Some(sc), Some(ec)) => {
            push_padded_decimal(out, sl);
            push_str(out, ":");
            push_padded_decimal(out, sc);
            if !(sl == el && sc == ec) {
                push_str(out, "-");
                if sl != el {
                    push_padded_decimal(out, el);
                    push_str(out, ":");
                }
                push_padded_decimal(out, ec);
            }
            push_str(out, " ");
        },
        (Some(sl), None, Some(sc), Some(ec)) => {
            push_padded_decimal(out, sl);
            push_str(out, ":");
            push_padded_decimal(out, sc);
            push_str(out, "-");
            push_padded_decimal(out, ec);
            push_str(out, " ");
        },
        _ => {},
    }
}

} // verus!
