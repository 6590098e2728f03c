use vstd::prelude::*;

use crate::traits::token::Token;

verus! {

/// A token that may have been parsed into an expression, partially parsed, or not parsed yet.
pub enum MaybeParsedToken<P, Q, U: Token> {
    Unparsed(U),
    PartiallyParsed(Q),
    Parsed(P),
}

impl<P, Q, U: Token> MaybeParsedToken<P, Q, U> {
    pub fn unwrap_parsed(self) -> (r: P)
        requires
            self is Parsed,
        ensures
            self == MaybeParsedToken::<P, Q, U>::Parsed(r),
    {
        match self {
            Self::Parsed(parsed) => parsed,
            Self::PartiallyParsed(..) => { proof { assert(false); } unreached() },
            Self::Unparsed(..) => { proof { assert(false); } unreached() },
        }
    }

    pub fn unwrap_unparsed(self) -> (r: U)
        requires
            self is Unparsed,
        ensures
            self == MaybeParsedToken::<P, Q, U>::Unparsed(r),
    {
        match self {
            Self::Unparsed(unparsed) => unparsed,
            Self::PartiallyParsed(..) => { proof { assert(false); } unreached() },
            Self::Parsed(..) => { proof { assert(false); } unreached() },
        }
    }

    pub fn unwrap_partially_parsed(self) -> (r: Q)
        requires
            self is PartiallyParsed,
        ensures
            self == MaybeParsedToken::<P, Q, U>::PartiallyParsed(r),
    {
        match self {
            Self::PartiallyParsed(q) => q,
            Self::Unparsed(..) => { proof { assert(false); } unreached() },
            Self::Parsed(..) => { proof { assert(false); } unreached() },
        }
    }

    pub fn is_parsed(&self) -> (r: bool)
        ensures
            r == (self is Parsed),
    {
        matches!(self, Self::Parsed(..))
    }

    pub fn is_unparsed(&self) -> (r: bool)
        ensures
            r == (self is Unparsed),
    {
        matches!(self, Self::Unparsed(..))
    }
}

} // verus!
