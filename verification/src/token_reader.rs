use vstd::prelude::*;

use crate::traits::token::Token;

verus! {

/// Reads tokens one at a time from a slice of tokens, remembering where the last taken token ended.
pub struct TokenReader<'a, T: Token> {
    tokens: &'a [T],
    position: usize,
    last_taken_token_end_line: Option<usize>,
    last_taken_token_end_column: Option<usize>,
}

impl<'a, T: Token> TokenReader<'a, T> {
    /// The reader is well formed: its position lies within the tokens.
    pub closed spec fn wf(&self) -> bool {
        self.position <= self.tokens@.len()
    }

    /// The tokens that have not been taken yet.
    pub closed spec fn remaining(&self) -> Seq<T> {
        self.tokens@.subrange(self.position as int, self.tokens@.len() as int)
    }

    /// Whether the reader reads the same tokens as `old` and is no further back: what it has left
    /// is what `old` has left, less some tokens at the front.
    pub open spec fn continues(&self, old: &Self) -> bool {
        &&& self.spec_tokens() == old.spec_tokens()
        &&& old.spec_position() <= self.spec_position()
    }

    /// All the tokens the reader reads, those taken included.
    pub closed spec fn spec_tokens(&self) -> Seq<T> {
        self.tokens@
    }

    /// How many tokens have been taken.
    pub closed spec fn spec_position(&self) -> int {
        self.position as int
    }

    /// What a reader that continues another has left is a suffix of what the other has left.
    pub proof fn lemma_continues_suffix(&self, old: &Self)
        requires
            self.wf(),
            old.wf(),
            self.continues(old),
        ensures
            self.remaining().len() <= old.remaining().len(),
            self.remaining() == old.remaining().skip(old.remaining().len() - self.remaining().len()),
    {
        assert(self.remaining() =~= old.remaining().skip(old.remaining().len() - self.remaining().len()));
    }

    /// Where the last taken token ended, if a token was taken and it has a position.
    pub closed spec fn spec_last_end_line(&self) -> Option<usize> {
        self.last_taken_token_end_line
    }

    pub closed spec fn spec_last_end_column(&self) -> Option<usize> {
        self.last_taken_token_end_column
    }

    pub fn new(tokens: &'a [T]) -> (r: Self)
        ensures
            r.wf(),
            r.remaining() == tokens@,
            r.spec_last_end_line() is None,
            r.spec_last_end_column() is None,
    {
        let r = Self { tokens, position: 0, last_taken_token_end_line: None, last_taken_token_end_column: None };
        proof {
            assert(r.remaining() =~= tokens@);
        }
        r
    }

    pub fn is_empty(&self) -> (r: bool)
        requires
            self.wf(),
        ensures
            r == (self.remaining().len() == 0),
    {
        self.position >= self.tokens.len()
    }

    pub fn peek(&self) -> (r: Option<&'a T>)
        requires
            self.wf(),
        ensures
            r matches Some(t) ==> self.remaining().len() > 0 && *t == self.remaining()[0],
            r is None ==> self.remaining().len() == 0,
    {
        if self.position < self.tokens.len() {
            Some(&self.tokens[self.position])
        } else {
            None
        }
    }

    /// Takes the next token; the reader then remembers where it ended.
    pub fn next(&mut self) -> (r: Option<&'a T>)
        requires
            old(self).wf(),
        ensures
            final(self).wf(),
            match r {
                Some(t) => {
                    &&& old(self).remaining().len() > 0
                    &&& *t == old(self).remaining()[0]
                    &&& final(self).remaining() == old(self).remaining().drop_first()
                    &&& final(self).continues(old(self))
                    &&& final(self).spec_last_end_line() == t.spec_end_line()
                    &&& final(self).spec_last_end_column() == t.spec_end_column()
                },
                None => {
                    &&& old(self).remaining().len() == 0
                    &&& *final(self) == *old(self)
                },
            },
    {
        if self.position >= self.tokens.len() {
            return None;
        }
        let out: &'a T = &self.tokens[self.position];
        self.last_taken_token_end_line = out.end_line();
        self.last_taken_token_end_column = out.end_column();
        self.position = self.position + 1;
        proof {
            assert(self.remaining() =~= old(self).remaining().drop_first());
        }
        Some(out)
    }

    /// The line the last taken token ended on, or one.
    pub fn last_token_end_line(&self) -> (r: usize)
        ensures
            r == match self.spec_last_end_line() {
                Some(l) => l,
                None => 1,
            },
    {
        match self.last_taken_token_end_line {
            Some(l) => l,
            None => 1,
        }
    }

    /// The column the last taken token ended on, or one.
    pub fn last_token_end_column(&self) -> (r: usize)
        ensures
            r == match self.spec_last_end_column() {
                Some(c) => c,
                None => 1,
            },
    {
        match self.last_taken_token_end_column {
            Some(c) => c,
            None => 1,
        }
    }

    pub fn last_token_end_line_optional(&self) -> (r: Option<usize>)
        ensures
            r == self.spec_last_end_line(),
    {
        self.last_taken_token_end_line
    }

    pub fn last_token_end_column_optional(&self) -> (r: Option<usize>)
        ensures
            r == self.spec_last_end_column(),
    {
        self.last_taken_token_end_column
    }
}

} // verus!
