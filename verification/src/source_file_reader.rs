use vstd::prelude::*;

use crate::error::{Error, ErrorAt};
use crate::text::{clone_chars, push_str};

verus! {

/// The char with a code point, unless it is a surrogate or above 0x10FFFF.
pub open spec fn scalar_char(v: u32) -> Option<char> {
    if v <= 0xD7FF || (0xE000 <= v && v <= 0x10FFFF) {
        Some(v as char)
    } else {
        None
    }
}

/// Returns the char with a code point, by `char::from_u32`.
#[verifier::external_body]
pub(crate) fn char_from_u32(v: u32) -> (r: Option<char>)
    ensures
        r == scalar_char(v),
{
    char::from_u32(v)
}

/// Reads the code point that starts at byte `p`, with the position after it.
/// Which bytes are read is decided by the first byte below 0x80, then the second byte below 0xE0,
/// then the third below 0xF0. `None` when the bytes end first.
pub open spec fn decode_code_point(b: Seq<u8>, p: int) -> Option<(u32, int)> {
    if p < 0 || p >= b.len() {
        None
    } else if b[p] < 0x80 {
        Some((b[p] as u32, p + 1))
    } else if p + 1 >= b.len() {
        None
    } else if b[p + 1] < 0xE0 {
        Some(((((b[p] as u32) & 0x1F) << 6u32) | ((b[p + 1] as u32) & 0x3F), p + 2))
    } else if p + 2 >= b.len() {
        None
    } else if b[p + 2] < 0xF0 {
        Some(((((b[p] as u32) & 0x0F) << 12u32) | (((b[p + 1] as u32) & 0x3F) << 6u32) | ((b[p + 2] as u32) & 0x3F), p + 3))
    } else if p + 3 >= b.len() {
        None
    } else {
        Some((
            ((((b[p] as u32) & 0x07) << 18u32) | (((b[p + 1] as u32) & 0x3F) << 12u32) | (((b[p + 2] as u32) & 0x3F) << 6u32)
                | ((b[p + 3] as u32) & 0x3F)),
            p + 4,
        ))
    }
}

/// The next char read at byte `p` (`None` in the char when the code point is no char), with the position after it.
pub open spec fn next_item(b: Seq<u8>, p: int) -> Option<(Option<char>, int)> {
    match decode_code_point(b, p) {
        None => None,
        Some((v, q)) => Some((scalar_char(v), q)),
    }
}

/// The line and column after reading a char.
pub open spec fn advance(line: int, column: int, c: char) -> (int, int) {
    if c == '\n' {
        (line + 1, 1)
    } else {
        (line, column + 1)
    }
}

/// The line and column after an item read from the bytes: a char moves them, bytes that are no
/// char leave them.
pub open spec fn step_place(line: int, column: int, c: Option<char>) -> (int, int) {
    match c {
        Some(ch) => advance(line, column, ch),
        None => (line, column),
    }
}

/// The line and column reached by reading from byte `start` (at `line` and `column`) up to byte
/// `target`; `None` where reading does not stop at `target`.
pub open spec fn walk_place(b: Seq<u8>, start: int, line: int, column: int, target: int) -> Option<(int, int)>
    decreases b.len() - start,
{
    if start == target {
        Some((line, column))
    } else {
        match next_item(b, start) {
            Some((c, q)) => if start < q <= target && q <= b.len() {
                walk_place(b, q, step_place(line, column, c).0, step_place(line, column, c).1, target)
            } else {
                None
            },
            None => None,
        }
    }
}

/// The line and column of byte `p`, counted from line 1, column 1 at the start.
pub open spec fn place_at(b: Seq<u8>, p: int) -> Option<(int, int)> {
    walk_place(b, 0, 1, 1, p)
}

/// Reading one more item moves the place by that item.
pub proof fn lemma_walk_place_step(b: Seq<u8>, start: int, line: int, column: int, p: int, c: Option<char>, q: int)
    requires
        start <= p,
        walk_place(b, start, line, column, p) is Some,
        next_item(b, p) == Some((c, q)),
        p < q <= b.len(),
    ensures
        walk_place(b, start, line, column, q) == Some(
            step_place(walk_place(b, start, line, column, p).unwrap().0, walk_place(b, start, line, column, p).unwrap().1, c),
        ),
    decreases b.len() - start,
{
    if start < p {
        let (c0, q0) = next_item(b, start).unwrap();
        lemma_walk_place_step(b, q0, step_place(line, column, c0).0, step_place(line, column, c0).1, p, c, q);
    } else {
        let (l, k) = step_place(line, column, c);
        assert(walk_place(b, q, l, k, q) == Some((l, k)));
    }
}

/// The message of the error given for bytes that are no UTF-8 char.
pub open spec fn invalid_utf8_message() -> Seq<char> {
    "Invalid UTF-8"@
}

/// Reads chars from the bytes of a source file, decoding UTF-8, and keeps track of the line and column.
pub struct SourceFileReader {
    bytes: Vec<u8>,
    position: usize,
    path: Vec<char>,
    line: usize,
    column: usize,
}

/// The position after the ASCII whitespace from byte `p` on.
pub open spec fn whitespace_end(b: Seq<u8>, p: int) -> int
    decreases b.len() - p,
{
    match next_item(b, p) {
        Some((Some(c), q)) => if spec_is_ascii_whitespace(c) && p < q <= b.len() {
            whitespace_end(b, q)
        } else {
            p
        },
        _ => p,
    }
}

/// Where reading stops after taking `n` chars from byte `p` on, or fewer where the bytes end;
/// `None` when bytes that are no char come first.
pub open spec fn chars_skipped(b: Seq<u8>, p: int, n: nat) -> Option<int>
    decreases n,
{
    if n == 0 {
        Some(p)
    } else {
        match next_item(b, p) {
            None => Some(p),
            Some((Some(_), q)) => chars_skipped(b, q, (n - 1) as nat),
            Some((None, _)) => None,
        }
    }
}

/// The chars read from byte `p` on while each is in one of two classes, those of the second class
/// left out, with the position where the reading stops.
pub open spec fn class_run(b: Seq<u8>, p: int, read_while: CharClass, skip_if: CharClass) -> (Seq<char>, int)
    decreases b.len() - p,
{
    match next_item(b, p) {
        Some((Some(c), q)) => if (read_while.contains(c) || skip_if.contains(c)) && p < q <= b.len() {
            let (rest, end) = class_run(b, q, read_while, skip_if);
            (
                if skip_if.contains(c) {
                    rest
                } else {
                    seq![c] + rest
                },
                end,
            )
        } else {
            (Seq::empty(), p)
        },
        _ => (Seq::empty(), p),
    }
}

/// A class of chars that `read_string_while` reads.
#[derive(Debug, Clone, Copy, PartialEq, Eq, Structural)]
pub enum CharClass {
    /// `A`-`Z`, `a`-`z`, `_` and `0`-`9`.
    IdentifierChar,
    /// `0`-`7`.
    OctalDigit,
    /// `0`-`9`.
    DecimalDigit,
    /// `0`-`9`, `a`-`f` and `A`-`F`.
    HexDigit,
    /// `_` only.
    Underscore,
    /// No char.
    Nothing,
}

impl CharClass {
    pub open spec fn contains(self, c: char) -> bool {
        match self {
            CharClass::IdentifierChar => ('A' <= c && c <= 'Z') || ('a' <= c && c <= 'z') || c == '_' || ('0' <= c && c <= '9'),
            CharClass::OctalDigit => '0' <= c && c <= '7',
            CharClass::DecimalDigit => '0' <= c && c <= '9',
            CharClass::HexDigit => ('0' <= c && c <= '9') || ('a' <= c && c <= 'f') || ('A' <= c && c <= 'F'),
            CharClass::Underscore => c == '_',
            CharClass::Nothing => false,
        }
    }

    pub fn has(self, c: char) -> (r: bool)
        ensures
            r == self.contains(c),
    {
        match self {
            CharClass::IdentifierChar => ('A' <= c && c <= 'Z') || ('a' <= c && c <= 'z') || c == '_' || ('0' <= c && c <= '9'),
            CharClass::OctalDigit => '0' <= c && c <= '7',
            CharClass::DecimalDigit => '0' <= c && c <= '9',
            CharClass::HexDigit => ('0' <= c && c <= '9') || ('a' <= c && c <= 'f') || ('A' <= c && c <= 'F'),
            CharClass::Underscore => c == '_',
            CharClass::Nothing => false,
        }
    }
}

/// Whether a char is ASCII whitespace: space, tab, line feed, form feed or carriage return.
pub open spec fn spec_is_ascii_whitespace(c: char) -> bool {
    c == ' ' || c == '\t' || c == '\n' || c == '\x0C' || c == '\r'
}

pub fn is_ascii_whitespace(c: char) -> (r: bool)
    ensures
        r == spec_is_ascii_whitespace(c),
{
    c == ' ' || c == '\t' || c == '\n' || c == '\x0C' || c == '\r'
}

impl SourceFileReader {
    /// The reader's own invariant, with the fact that its position is within the bytes.
    pub open spec fn wf(&self) -> bool {
        &&& self.fields_wf()
        &&& 0 <= self.spec_position() <= self.spec_bytes().len()
        &&& place_at(self.spec_bytes(), self.spec_position()) == Some((self.spec_line() as int, self.spec_column() as int))
    }

    pub closed spec fn fields_wf(&self) -> bool {
        &&& self.bytes@.len() < usize::MAX
        &&& self.position <= self.bytes@.len()
        &&& 1 <= self.line <= self.position + 1
        &&& 1 <= self.column <= self.position + 1
    }

    pub closed spec fn spec_bytes(&self) -> Seq<u8> {
        self.bytes@
    }

    pub closed spec fn spec_position(&self) -> int {
        self.position as int
    }

    pub closed spec fn spec_path(&self) -> Seq<char> {
        self.path@
    }

    pub closed spec fn spec_line(&self) -> usize {
        self.line
    }

    pub closed spec fn spec_column(&self) -> usize {
        self.column
    }

    /// The next char, with the position after it.
    pub open spec fn spec_next(&self) -> Option<(Option<char>, int)> {
        next_item(self.spec_bytes(), self.spec_position())
    }

    /// Whether an error is the one for bytes that are no UTF-8 char at the reader's place.
    pub open spec fn is_read_error(&self, e: ErrorAt) -> bool {
        &&& e.error matches Error::UnableToReadFile(m) && m@ == invalid_utf8_message()
        &&& e.line == Some(self.spec_line())
        &&& e.column == Some(self.spec_column())
        &&& e.file matches Some(f) && f@ == self.spec_path()
    }

    /// The reader holds the same bytes as `old` and is no further back.
    pub open spec fn advanced_from(&self, old: &Self) -> bool {
        &&& self.wf()
        &&& self.spec_bytes() == old.spec_bytes()
        &&& self.spec_path() == old.spec_path()
        &&& old.spec_position() <= self.spec_position()
    }

    /// The reader after taking the next char, when it is one.
    pub open spec fn took(&self, new: &Self, c: char, q: int) -> bool {
        &&& new.wf()
        &&& new.spec_bytes() == self.spec_bytes()
        &&& new.spec_path() == self.spec_path()
        &&& new.spec_position() == q
        &&& (new.spec_line() as int, new.spec_column() as int) == advance(self.spec_line() as int, self.spec_column() as int, c)
    }

    /// A reader of the bytes of a file, at its start.
    pub fn new(bytes: Vec<u8>, path: Vec<char>) -> (r: Self)
        requires
            bytes@.len() < usize::MAX,
        ensures
            r.wf(),
            r.spec_bytes() == bytes@,
            r.spec_path() == path@,
            r.spec_position() == 0,
            r.spec_line() == 1,
            r.spec_column() == 1,
    {
        SourceFileReader { bytes, position: 0, path, line: 1, column: 1 }
    }

    pub fn get_line(&self) -> (r: usize)
        ensures
            r == self.spec_line(),
    {
        self.line
    }

    pub fn get_column(&self) -> (r: usize)
        ensures
            r == self.spec_column(),
    {
        self.column
    }

    fn decode_next(&self) -> (r: Option<(Option<char>, usize)>)
        requires
            self.wf(),
        ensures
            match self.spec_next() {
                None => r is None,
                Some((c, q)) => r matches Some((rc, rq)) && rc == c && rq == q,
            },
            r matches Some((_, q)) ==> self.position < q <= self.bytes@.len(),
    {
        let b = &self.bytes;
        let p = self.position;
        let n = b.len();
        if p >= n {
            return None;
        }
        let b1 = b[p];
        if b1 < 0x80 {
            return Some((char_from_u32(b1 as u32), p + 1));
        }
        if p + 1 >= n {
            return None;
        }
        let b2 = b[p + 1];
        if b2 < 0xE0 {
            let v: u32 = (((b1 as u32) & 0x1F) << 6u32) | ((b2 as u32) & 0x3F);
            return Some((char_from_u32(v), p + 2));
        }
        if p + 2 >= n {
            return None;
        }
        let b3 = b[p + 2];
        if b3 < 0xF0 {
            let v: u32 = (((b1 as u32) & 0x0F) << 12u32) | (((b2 as u32) & 0x3F) << 6u32) | ((b3 as u32) & 0x3F);
            return Some((char_from_u32(v), p + 3));
        }
        if p + 3 >= n {
            return None;
        }
        let b4 = b[p + 3];
        let v: u32 = (((b1 as u32) & 0x07) << 18u32) | (((b2 as u32) & 0x3F) << 12u32) | (((b3 as u32) & 0x3F) << 6u32)
            | ((b4 as u32) & 0x3F);
        Some((char_from_u32(v), p + 4))
    }

    fn read_error(&self) -> (e: ErrorAt)
        ensures
            self.is_read_error(e),
    {
        let mut m: Vec<char> = Vec::new();
        push_str(&mut m, "Invalid UTF-8");
        Error::UnableToReadFile(m).at(Some(self.line), Some(self.column), Some(clone_chars(&self.path)))
    }

    /// The next char without taking it: `Ok(None)` at the end, an error when the next bytes are no char.
    pub fn peek_char(&self) -> (r: Result<Option<char>, ErrorAt>)
        requires
            self.wf(),
        ensures
            match self.spec_next() {
                None => r == Ok::<Option<char>, ErrorAt>(None),
                Some((Some(c), _)) => r == Ok::<Option<char>, ErrorAt>(Some(c)),
                Some((None, _)) => r matches Err(e) && self.is_read_error(e),
            },
    {
        match self.decode_next() {
            None => Ok(None),
            Some((Some(c), _)) => Ok(Some(c)),
            Some((None, _)) => Err(self.read_error()),
        }
    }

    /// Takes the next char: `Ok(None)` at the end, an error (after skipping the bytes) when the next bytes are no char.
    pub fn read_char(&mut self) -> (r: Result<Option<char>, ErrorAt>)
        requires
            old(self).wf(),
        ensures
            final(self).wf(),
            match old(self).spec_next() {
                None => r == Ok::<Option<char>, ErrorAt>(None) && *final(self) == *old(self),
                Some((Some(c), q)) => r == Ok::<Option<char>, ErrorAt>(Some(c)) && old(self).took(final(self), c, q),
                Some((None, q)) => r matches Err(e) && old(self).is_read_error(e)
                    && final(self).spec_position() == q && final(self).spec_bytes() == old(self).spec_bytes()
                    && final(self).spec_path() == old(self).spec_path()
                    && final(self).spec_line() == old(self).spec_line()
                    && final(self).spec_column() == old(self).spec_column(),
            },
    {
        proof {
            if let Some((c, q)) = self.spec_next() {
                lemma_walk_place_step(self.spec_bytes(), 0, 1, 1, self.spec_position(), c, q);
            }
        }
        match self.decode_next() {
            None => Ok(None),
            Some((None, q)) => {
                let e = self.read_error();
                self.position = q;
                Err(e)
            },
            Some((Some(c), q)) => {
                if c == '\n' {
                    self.column = 1;
                    self.line = self.line + 1;
                } else {
                    self.column = self.column + 1;
                }
                self.position = q;
                Ok(Some(c))
            },
        }
    }

    /// Takes chars while they are ASCII whitespace.
    pub fn skip_leading_ascii_whitespaces(&mut self) -> (r: Result<(), ErrorAt>)
        requires
            old(self).wf(),
        ensures
            final(self).wf(),
            final(self).spec_bytes() == old(self).spec_bytes(),
            final(self).spec_path() == old(self).spec_path(),
            old(self).spec_position() <= final(self).spec_position(),
            r is Ok ==> !(final(self).spec_next() matches Some((Some(c), _)) && spec_is_ascii_whitespace(c)),
            r matches Err(e) ==> final(self).is_read_error(e) && final(self).spec_next() matches Some((None, _)),
            final(self).spec_position() == whitespace_end(old(self).spec_bytes(), old(self).spec_position()),
    {
        loop
            invariant
                self.wf(),
                self.spec_bytes() == old(self).spec_bytes(),
                self.spec_path() == old(self).spec_path(),
                old(self).spec_position() <= self.spec_position(),
                whitespace_end(self.spec_bytes(), self.spec_position()) == whitespace_end(old(self).spec_bytes(), old(self).spec_position()),
            decreases self.spec_bytes().len() - self.spec_position(),
        {
            match self.peek_char() {
                Err(e) => return Err(e),
                Ok(Some(c)) => {
                    if !is_ascii_whitespace(c) {
                        return Ok(());
                    }
                },
                Ok(None) => return Ok(()),
            }
            let _ = self.read_char();
        }
    }

    /// Takes `n` chars, or fewer when the end is reached.
    pub fn skip(&mut self, n: usize) -> (r: Result<(), ErrorAt>)
        requires
            old(self).wf(),
        ensures
            final(self).wf(),
            final(self).spec_bytes() == old(self).spec_bytes(),
            final(self).spec_path() == old(self).spec_path(),
            match chars_skipped(old(self).spec_bytes(), old(self).spec_position(), n as nat) {
                Some(end) => r is Ok && final(self).spec_position() == end,
                None => r matches Err(e) && e.error is UnableToReadFile,
            },
    {
        let mut i: usize = 0;
        while i < n
            invariant
                self.wf(),
                self.spec_bytes() == old(self).spec_bytes(),
                self.spec_path() == old(self).spec_path(),
                i <= n,
                chars_skipped(self.spec_bytes(), self.spec_position(), (n - i) as nat) == chars_skipped(
                    old(self).spec_bytes(),
                    old(self).spec_position(),
                    n as nat,
                ),
            decreases n - i,
        {
            self.read_char()?;
            i = i + 1;
        }
        Ok(())
    }

    /// Takes chars while they are in a class and returns them.
    pub fn read_string_while(&mut self, class: CharClass) -> (r: Result<Vec<char>, ErrorAt>)
        requires
            old(self).wf(),
        ensures
            final(self).wf(),
            final(self).spec_bytes() == old(self).spec_bytes(),
            final(self).spec_path() == old(self).spec_path(),
            old(self).spec_position() <= final(self).spec_position(),
            r matches Ok(s) ==> (forall|i: int| 0 <= i < s@.len() ==> class.contains(#[trigger] s@[i]))
                && !(final(self).spec_next() matches Some((Some(c), _)) && class.contains(c)),
            r matches Ok(s) ==> (old(self).spec_next() matches Some((Some(c), _)) ==> (class.contains(c)
                ==> s@.len() > 0 && s@[0] == c && old(self).spec_position() < final(self).spec_position())),
            r matches Err(e) ==> final(self).is_read_error(e) && final(self).spec_next() matches Some((None, _)),
            final(self).spec_position() == class_run(old(self).spec_bytes(), old(self).spec_position(), class, CharClass::Nothing).1,
            r matches Ok(s) ==> s@ == class_run(old(self).spec_bytes(), old(self).spec_position(), class, CharClass::Nothing).0,
            r is Ok <==> !(final(self).spec_next() matches Some((None, _))),
    {
        self.read_string_while_and_skip(class, CharClass::Nothing)
    }

    /// Takes chars while they are in one of two classes and returns those not in the second one.
    pub fn read_string_while_and_skip(&mut self, read_while: CharClass, skip_if: CharClass) -> (r: Result<Vec<char>, ErrorAt>)
        requires
            old(self).wf(),
        ensures
            final(self).wf(),
            final(self).spec_bytes() == old(self).spec_bytes(),
            final(self).spec_path() == old(self).spec_path(),
            old(self).spec_position() <= final(self).spec_position(),
            r matches Ok(s) ==> (forall|i: int| 0 <= i < s@.len() ==> read_while.contains(#[trigger] s@[i]) && !skip_if.contains(s@[i]))
                && !(final(self).spec_next() matches Some((Some(c), _)) && (read_while.contains(c) || skip_if.contains(c))),
            r matches Ok(s) ==> (old(self).spec_next() matches Some((Some(c), _)) ==> (read_while.contains(c) && !skip_if.contains(c)
                ==> s@.len() > 0 && s@[0] == c && old(self).spec_position() < final(self).spec_position())),
            r matches Err(e) ==> final(self).is_read_error(e) && final(self).spec_next() matches Some((None, _)),
            final(self).spec_position() == class_run(old(self).spec_bytes(), old(self).spec_position(), read_while, skip_if).1,
            r matches Ok(s) ==> s@ == class_run(old(self).spec_bytes(), old(self).spec_position(), read_while, skip_if).0,
            r is Ok <==> !(final(self).spec_next() matches Some((None, _))),
    {
        let mut out: Vec<char> = Vec::new();
        loop
            invariant
                self.wf(),
                self.spec_bytes() == old(self).spec_bytes(),
                self.spec_path() == old(self).spec_path(),
                old(self).spec_position() <= self.spec_position(),
                out@ + class_run(self.spec_bytes(), self.spec_position(), read_while, skip_if).0 == class_run(
                    old(self).spec_bytes(),
                    old(self).spec_position(),
                    read_while,
                    skip_if,
                ).0,
                class_run(self.spec_bytes(), self.spec_position(), read_while, skip_if).1 == class_run(
                    old(self).spec_bytes(),
                    old(self).spec_position(),
                    read_while,
                    skip_if,
                ).1,
                forall|i: int| 0 <= i < out@.len() ==> read_while.contains(#[trigger] out@[i]) && !skip_if.contains(out@[i]),
                old(self).spec_next() matches Some((Some(c), _)) ==> (read_while.contains(c) && !skip_if.contains(c) ==> {
                    &&& out@.len() == 0 ==> *self == *old(self)
                    &&& out@.len() > 0 ==> out@[0] == c && old(self).spec_position() < self.spec_position()
                }),
            decreases self.spec_bytes().len() - self.spec_position(),
        {
            let c = match self.peek_char() {
                Err(e) => return Err(e),
                Ok(None) => {
                    proof {
                        assert(out@ + Seq::<char>::empty() =~= out@);
                    }
                    return Ok(out);
                },
                Ok(Some(c)) => c,
            };
            let do_skip = skip_if.has(c);
            if !(read_while.has(c) || do_skip) {
                proof {
                    assert(out@ + Seq::<char>::empty() =~= out@);
                }
                return Ok(out);
            }
            let ghost before = out@;
            let ghost rest = class_run(self.spec_bytes(), self.spec_next().unwrap().1, read_while, skip_if).0;
            if !do_skip {
                out.push(c);
            }
            let _ = self.read_char();
            proof {
                if !do_skip {
                    assert(before + (seq![c] + rest) =~= out@ + rest);
                }
            }
        }
    }

    /// Takes the next char if it is the expected one.
    pub fn read_and_expect_char(&mut self, char_to_expect: char) -> (r: Result<bool, ErrorAt>)
        requires
            old(self).wf(),
        ensures
            final(self).wf(),
            match old(self).spec_next() {
                Some((Some(c), q)) => if c == char_to_expect {
                    r == Ok::<bool, ErrorAt>(true) && old(self).took(final(self), c, q)
                } else {
                    r == Ok::<bool, ErrorAt>(false) && *final(self) == *old(self)
                },
                None => r == Ok::<bool, ErrorAt>(false) && *final(self) == *old(self),
                Some((None, _)) => r matches Err(e) && old(self).is_read_error(e) && *final(self) == *old(self),
            },
    {
        let peeked = self.peek_char()?;
        if peeked == Some(char_to_expect) {
            let _ = self.read_char();
            return Ok(true);
        }
        Ok(false)
    }
}

} // verus!
