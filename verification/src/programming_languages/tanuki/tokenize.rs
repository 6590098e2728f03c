use vstd::prelude::*;

use crate::big_int::{ct_unsigned_from_str_radix, radix_digit_value, radix_digits_value};
use crate::error::{Error, ErrorAt};
use crate::programming_languages::tanuki::token::{
    TanukiInfixBinaryOperator, TanukiInfixTernaryOperator, TanukiKeyword, TanukiNullaryOperator,
    TanukiPostfixUnaryOperator, TanukiPrefixUnaryOperator, TanukiToken, TanukiTokenVariant,
};
use crate::source_file_reader::{
    char_from_u32, class_run, invalid_utf8_message, next_item, place_at, scalar_char, spec_is_ascii_whitespace, whitespace_end, CharClass,
    SourceFileReader,
};
use crate::text::{chars_eq_str, clone_chars, push_chars, push_str};
use crate::big_int::unsigned_from_str_radix;

verus! {

/// Whether a char is alphabetic in Unicode.
pub uninterp spec fn char_is_alphabetic(c: char) -> bool;

/// Whether a char is alphabetic, by `char::is_alphabetic`: the Unicode `Alphabetic` property,
/// which ASCII letters have and other ASCII chars do not.
#[verifier::external_body]
pub(crate) fn is_alphabetic(c: char) -> (r: bool)
    ensures
        r == char_is_alphabetic(c),
        (c as u32) < 128 ==> (r <==> (('A' <= c && c <= 'Z') || ('a' <= c && c <= 'z'))),
{
    c.is_alphabetic()
}

/// What `u32::from_str_radix` gives for a text of digits and underscores of the radix: `None` when it is
/// empty or does not fit.
pub open spec fn spec_u32_from_digits(s: Seq<char>, radix: int) -> Option<u32> {
    if s.len() == 0 {
        None
    } else {
        match radix_digits_value(s, radix) {
            Some(v) => if 0 <= v <= u32::MAX {
                Some(v as u32)
            } else {
                None
            },
            None => None,
        }
    }
}

proof fn lemma_radix_digits_nonneg(s: Seq<char>, radix: int)
    requires
        2 <= radix,
    ensures
        radix_digits_value(s, radix) matches Some(v) ==> v >= 0,
    decreases s.len(),
{
    if s.len() > 0 {
        lemma_radix_digits_nonneg(s.drop_last(), radix);
        let c = s.last();
        if c != '_' && radix_digit_value(c) < radix {
            if let Some(v) = radix_digits_value(s.drop_last(), radix) {
                assert(v * radix >= 0) by (nonlinear_arith)
                    requires
                        v >= 0,
                        radix >= 2,
                ;
            }
        }
    }
}


fn digit_value(c: char) -> (r: u32)
    ensures
        r as int == radix_digit_value(c),
{
    if '0' <= c && c <= '9' {
        (c as u32) - ('0' as u32)
    } else if 'a' <= c && c <= 'z' {
        (c as u32) - ('a' as u32) + 10
    } else if 'A' <= c && c <= 'Z' {
        (c as u32) - ('A' as u32) + 10
    } else {
        255
    }
}

/// Parses digits of a radix (which must not start with `+`) as `u32::from_str_radix` does.
pub fn u32_from_digits(s: &[char], radix: u32) -> (r: Option<u32>)
    requires
        2 <= radix <= 36,
        s@.len() > 0 ==> s@[0] != '+',
    ensures
        r == spec_u32_from_digits(s@, radix as int),
{
    if s.len() == 0 {
        return None;
    }
    let mut value: u32 = 0;
    let mut i: usize = 0;
    while i < s.len()
        invariant
            2 <= radix <= 36,
            i <= s@.len(),
            radix_digits_value(s@.subrange(0, i as int), radix as int) == Some(value as int),
        decreases s@.len() - i,
    {
        let c = s[i];
        proof {
            assert(s@.subrange(0, i + 1).drop_last() =~= s@.subrange(0, i as int));
            assert(s@.subrange(0, i + 1).last() == c);
        }
        if c != '_' {
            let d = digit_value(c);
            if d >= radix {
                proof {
                    lemma_none_extends(s@, i as int + 1, radix as int);
                }
                return None;
            }
            assert((value as u64) * (radix as u64) <= 0xFFFF_FFFFu64 * 36) by (nonlinear_arith)
                requires
                    radix <= 36,
            ;
            let next: u64 = (value as u64) * (radix as u64) + (d as u64);
            if next > u32::MAX as u64 {
                proof {
                    lemma_overflow_extends(s@, i as int + 1, radix as int);
                }
                return None;
            }
            value = next as u32;
        }
        i = i + 1;
    }
    proof {
        assert(s@.subrange(0, s@.len() as int) =~= s@);
    }
    Some(value)
}

/// Once a prefix holds a char that is no digit, so does every longer prefix.
proof fn lemma_none_extends(s: Seq<char>, k: int, radix: int)
    requires
        0 <= k <= s.len(),
        radix_digits_value(s.subrange(0, k), radix) is None,
    ensures
        radix_digits_value(s, radix) is None,
    decreases s.len() - k,
{
    if k < s.len() {
        assert(s.subrange(0, k + 1).drop_last() =~= s.subrange(0, k));
        lemma_none_extends(s, k + 1, radix);
    } else {
        assert(s.subrange(0, k) =~= s);
    }
}

/// Once a prefix is above `u32::MAX`, the whole text is too large or not digits.
proof fn lemma_overflow_extends(s: Seq<char>, k: int, radix: int)
    requires
        2 <= radix,
        0 <= k <= s.len(),
        match radix_digits_value(s.subrange(0, k), radix) {
            Some(v) => v > u32::MAX,
            None => true,
        },
    ensures
        match radix_digits_value(s, radix) {
            Some(v) => v > u32::MAX,
            None => true,
        },
    decreases s.len() - k,
{
    if k < s.len() {
        let t = s.subrange(0, k + 1);
        assert(t.drop_last() =~= s.subrange(0, k));
        lemma_radix_digits_nonneg(t.drop_last(), radix);
        if let Some(v) = radix_digits_value(t.drop_last(), radix) {
            if t.last() != '_' && radix_digit_value(t.last()) < radix {
                assert(v * radix >= v) by (nonlinear_arith)
                    requires
                        v >= 0,
                        radix >= 2,
                ;
                assert(radix_digit_value(t.last()) >= 0);
            }
        }
        lemma_overflow_extends(s, k + 1, radix);
    } else {
        assert(s.subrange(0, k) =~= s);
    }
}

/// The char an escape sequence of one char after the backslash stands for.
pub open spec fn simple_escape(c: char) -> Option<char> {
    if c == '\'' {
        Some('\'')
    } else if c == '"' {
        Some('"')
    } else if c == '\\' {
        Some('\\')
    } else if c == 'n' {
        Some('\n')
    } else if c == 'r' {
        Some('\r')
    } else if c == 't' {
        Some('\t')
    } else if c == '0' {
        Some('\0')
    } else if c == 'a' {
        Some('\x07')
    } else if c == 'b' {
        Some('\x08')
    } else if c == 'f' {
        Some('\x0C')
    } else if c == 'v' {
        Some('\x0B')
    } else {
        None
    }
}

fn simple_escape_char(c: char) -> (r: Option<char>)
    ensures
        r == simple_escape(c),
{
    if c == '\'' {
        Some('\'')
    } else if c == '"' {
        Some('"')
    } else if c == '\\' {
        Some('\\')
    } else if c == 'n' {
        Some('\n')
    } else if c == 'r' {
        Some('\r')
    } else if c == 't' {
        Some('\t')
    } else if c == '0' {
        Some('\0')
    } else if c == 'a' {
        Some('\x07')
    } else if c == 'b' {
        Some('\x08')
    } else if c == 'f' {
        Some('\x0C')
    } else if c == 'v' {
        Some('\x0B')
    } else {
        None
    }
}

fn escape_error(text: &str, line: usize, column: usize) -> (e: ErrorAt)
    ensures
        e.error matches Error::InvalidEscapeChars(m) && m@ == text@,
        e.line == Some(line),
        e.column == Some(column),
        e.file is None,
{
    let mut m: Vec<char> = Vec::new();
    push_str(&mut m, text);
    Error::InvalidEscapeChars(m).at(Some(line), Some(column), None)
}

/// The char with a code point given by digits of a radix, or the error for an invalid code point.
fn char_from_digits(digits: &Vec<char>, radix: u32, line: usize, column: usize) -> (r: Result<char, ErrorAt>)
    requires
        2 <= radix <= 36,
        forall|i: int| 0 <= i < digits@.len() ==> radix_digit_value(#[trigger] digits@[i]) < 36 && digits@[i] != '_' && digits@[i] != '+',
    ensures
        match spec_u32_from_digits(digits@, radix as int) {
            Some(v) => match scalar_char(v) {
                Some(c) => r == Ok::<char, ErrorAt>(c),
                None => r matches Err(e) && e.error is InvalidUnicodeCodePoint,
            },
            None => r matches Err(e) && e.error is InvalidUnicodeCodePoint,
        },
        r matches Err(e) ==> e.line == Some(line) && e.column == Some(column),
{
    match u32_from_digits(digits.as_slice(), radix) {
        Some(v) => match char_from_u32(v) {
            Some(c) => Ok(c),
            None => Err(Error::InvalidUnicodeCodePoint.at(Some(line), Some(column), None)),
        },
        None => Err(Error::InvalidUnicodeCodePoint.at(Some(line), Some(column), None)),
    }
}

/// Why an escape sequence is refused: its text is no escape (the text given), its code point is
/// no char, the bytes after it are no UTF-8 char, or a curly parenthesis is missing.
pub enum EscapeFailure {
    InvalidEscape(Seq<char>),
    InvalidCodePoint,
    ReadError,
    ExpectedCurly,
}

/// Whether an error is of the kind described.
pub open spec fn is_escape_failure(e: ErrorAt, f: EscapeFailure) -> bool {
    match f {
        EscapeFailure::InvalidEscape(text) => e.error matches Error::InvalidEscapeChars(m) && m@ == text,
        EscapeFailure::InvalidCodePoint => e.error is InvalidUnicodeCodePoint,
        EscapeFailure::ReadError => e.error matches Error::UnableToReadFile(m) && m@ == invalid_utf8_message(),
        EscapeFailure::ExpectedCurly => e.error is ExpectedCurlyOpeningParenthesis,
    }
}

/// The char with the code point of some digits of a radix, or why there is none.
pub open spec fn digits_char(digits: Seq<char>, radix: int) -> Result<char, EscapeFailure> {
    match spec_u32_from_digits(digits, radix) {
        Some(v) => match scalar_char(v) {
            Some(c) => Ok(c),
            None => Err(EscapeFailure::InvalidCodePoint),
        },
        None => Err(EscapeFailure::InvalidCodePoint),
    }
}

/// `n` hex digits read from byte `p`, with the position after them: `Err(true)` when bytes on
/// the way are no char, `Err(false)` when a char is no hex digit or the bytes end.
pub open spec fn hex_digits_from(b: Seq<u8>, p: int, n: nat) -> Result<(Seq<char>, int), bool>
    decreases n,
{
    if n == 0 {
        Ok((Seq::empty(), p))
    } else {
        match next_item(b, p) {
            None => Err(false),
            Some((None, _)) => Err(true),
            Some((Some(c), q)) => if CharClass::HexDigit.contains(c) {
                match hex_digits_from(b, q, (n - 1) as nat) {
                    Ok((rest, end)) => Ok((seq![c] + rest, end)),
                    Err(x) => Err(x),
                }
            } else {
                Err(false)
            },
        }
    }
}

/// Chars put before those of a reading of hex digits.
pub open spec fn prepend_digits(d: Seq<char>, r: Result<(Seq<char>, int), bool>) -> Result<(Seq<char>, int), bool> {
    match r {
        Ok((rest, end)) => Ok((d + rest, end)),
        Err(x) => Err(x),
    }
}

/// `n` hex digits read are `n` hex digits.
proof fn lemma_hex_digits_from(b: Seq<u8>, p: int, n: nat)
    ensures
        hex_digits_from(b, p, n) matches Ok((d, _)) ==> d.len() == n && forall|i: int| 0 <= i < d.len() ==> CharClass::HexDigit.contains(
            #[trigger] d[i],
        ),
    decreases n,
{
    if n > 0 {
        if let Some((Some(c), q)) = next_item(b, p) {
            lemma_hex_digits_from(b, q, (n - 1) as nat);
            if let Ok((rest, end)) = hex_digits_from(b, q, (n - 1) as nat) {
                if CharClass::HexDigit.contains(c) {
                    let d = seq![c] + rest;
                    assert forall|i: int| 0 <= i < d.len() implies CharClass::HexDigit.contains(#[trigger] d[i]) by {
                        if i > 0 {
                            assert(d[i] == rest[i - 1]);
                        }
                    }
                }
            }
        }
    }
}

/// Digits of a class (underscores skipped) read from byte `p` up to a closing curly parenthesis,
/// and the char of their code point, with the position after the parenthesis.
pub open spec fn digits_to_closing_curly(b: Seq<u8>, p: int, class: CharClass, radix: int) -> Result<(char, int), EscapeFailure> {
    let (digits, end) = class_run(b, p, class, CharClass::Underscore);
    match next_item(b, end) {
        Some((None, _)) => Err(EscapeFailure::ReadError),
        Some((Some(c), q)) => if c == '}' {
            match digits_char(digits, radix) {
                Ok(d) => Ok((d, q)),
                Err(f) => Err(f),
            }
        } else {
            Err(EscapeFailure::ExpectedCurly)
        },
        None => Err(EscapeFailure::ExpectedCurly),
    }
}

/// An opening curly parenthesis at byte `p`, then digits of a class up to the closing one.
pub open spec fn braced_digits(b: Seq<u8>, p: int, class: CharClass, radix: int) -> Result<(char, int), EscapeFailure> {
    match next_item(b, p) {
        Some((None, _)) => Err(EscapeFailure::ReadError),
        Some((Some(c), q)) => if c == '{' {
            digits_to_closing_curly(b, q, class, radix)
        } else {
            Err(EscapeFailure::ExpectedCurly)
        },
        None => Err(EscapeFailure::ExpectedCurly),
    }
}

/// The char of the two hex digits read from byte `p`, with the position after them. Both chars are
/// read before either is looked at.
pub open spec fn two_hex_digits_at(b: Seq<u8>, p: int) -> Result<(char, int), EscapeFailure> {
    match next_item(b, p) {
        Some((None, _)) => Err(EscapeFailure::ReadError),
        None => Err(EscapeFailure::InvalidEscape("\\x??"@)),
        Some((Some(h), q)) => match next_item(b, q) {
            Some((None, _)) => Err(EscapeFailure::ReadError),
            None => Err(EscapeFailure::InvalidEscape("\\x??"@)),
            Some((Some(l), end)) => if CharClass::HexDigit.contains(h) && CharClass::HexDigit.contains(l) {
                Ok((scalar_char((radix_digit_value(h) * 16 + radix_digit_value(l)) as u32).unwrap(), end))
            } else {
                Err(EscapeFailure::InvalidEscape("\\x??"@))
            },
        },
    }
}

/// The char that the escape sequence whose backslash is at byte `p` stands for, with the position
/// after it: `\` and one char of `simple_escape`; `\x` and two hex digits; `\o{..}`, `\d{..}` and
/// `\{..}` with octal, decimal and hex digits; `\u` and four, `\U` and six hex digits.
pub open spec fn escape_at(b: Seq<u8>, p: int) -> Result<(char, int), EscapeFailure> {
    match next_item(b, p) {
        Some((_, p1)) => match next_item(b, p1) {
            None => Err(EscapeFailure::InvalidEscape("\\"@)),
            Some((None, _)) => Err(EscapeFailure::ReadError),
            Some((Some(c), p2)) => if simple_escape(c) is Some {
                Ok((simple_escape(c).unwrap(), p2))
            } else if c == 'x' {
                two_hex_digits_at(b, p2)
            } else if c == 'o' {
                braced_digits(b, p2, CharClass::OctalDigit, 8)
            } else if c == 'd' {
                braced_digits(b, p2, CharClass::DecimalDigit, 10)
            } else if c == '{' {
                digits_to_closing_curly(b, p2, CharClass::HexDigit, 16)
            } else if c == 'u' || c == 'U' {
                match hex_digits_from(b, p2, if c == 'u' { 4 } else { 6 }) {
                    Ok((digits, end)) => match digits_char(digits, 16) {
                        Ok(d) => Ok((d, end)),
                        Err(f) => Err(f),
                    },
                    Err(true) => Err(EscapeFailure::ReadError),
                    Err(false) => Err(EscapeFailure::InvalidEscape(if c == 'u' { "\\u????"@ } else { "\\U??????"@ })),
                }
            } else {
                Err(EscapeFailure::InvalidEscape(seq!['\\', c]))
            },
        },
        None => Err(EscapeFailure::ReadError),
    }
}

/// The chars of a string literal's body read from byte `p` up to its closing double quote or the
/// end of the bytes (escape sequences read as the chars they stand for), with the position where
/// it stops; `None` when an escape sequence or the bytes are refused.
pub open spec fn string_body(b: Seq<u8>, p: int) -> Option<(Seq<char>, int)>
    decreases b.len() - p,
{
    match next_item(b, p) {
        None => Some((Seq::empty(), p)),
        Some((None, _)) => None,
        Some((Some(c), q)) => if c == '"' {
            Some((Seq::empty(), p))
        } else {
            let (d, next) = if c == '\\' {
                match escape_at(b, p) {
                    Ok((e, end)) => (Some(e), end),
                    Err(_) => (None, p),
                }
            } else {
                (Some(c), q)
            };
            if d is Some && p < next <= b.len() {
                match string_body(b, next) {
                    Some((rest, end)) => Some((seq![d.unwrap()] + rest, end)),
                    None => None,
                }
            } else {
                None
            }
        },
    }
}

/// Chars put before those of a reading of a string body.
pub open spec fn prepend_body(d: Seq<char>, r: Option<(Seq<char>, int)>) -> Option<(Seq<char>, int)> {
    match r {
        Some((rest, end)) => Some((d + rest, end)),
        None => None,
    }
}

/// Reads the chars of a string literal's body, up to its closing double quote or the end.
fn read_string_body(reader: &mut SourceFileReader) -> (r: Result<Vec<char>, ErrorAt>)
    requires
        old(reader).wf(),
    ensures
        final(reader).advanced_from(old(reader)),
        r matches Ok(s) ==> string_body(old(reader).spec_bytes(), old(reader).spec_position()) == Some::<(Seq<char>, int)>(
            (s@, final(reader).spec_position()),
        ),
        string_body(old(reader).spec_bytes(), old(reader).spec_position()) is Some ==> r is Ok,
{
    let mut string: Vec<char> = Vec::new();
    loop
        invariant
            reader.advanced_from(old(reader)),
            string_body(old(reader).spec_bytes(), old(reader).spec_position()) == prepend_body(
                string@,
                string_body(reader.spec_bytes(), reader.spec_position()),
            ),
        decreases reader.spec_bytes().len() - reader.spec_position(),
    {
        let ghost before = string@;
        let ghost here = reader.spec_position();
        match parse_literal_char(reader, false)? {
            Some(chr) => {
                let ghost rest = string_body(reader.spec_bytes(), reader.spec_position());
                proof {
                    assert(string_body(reader.spec_bytes(), here) == prepend_body(seq![chr], rest));
                }
                string.push(chr);
                proof {
                    if let Some((x, e)) = rest {
                        assert(before + (seq![chr] + x) =~= string@ + x);
                    }
                }
            },
            None => {
                proof {
                    assert(string@ + Seq::<char>::empty() =~= string@);
                }
                return Ok(string);
            },
        }
    }
}

/// Reads and parses a single escaped or unescaped char from the reader.
/// Returns `Ok(None)` at the end, and at a double quote when `is_char_literal` is false.
pub fn parse_literal_char(reader: &mut SourceFileReader, is_char_literal: bool) -> (r: Result<Option<char>, ErrorAt>)
    requires
        old(reader).wf(),
    ensures
        final(reader).advanced_from(old(reader)),
        r matches Ok(Some(_)) ==> old(reader).spec_position() < final(reader).spec_position(),
        r matches Ok(None) ==> *final(reader) == *old(reader),
        old(reader).spec_next() matches Some((Some(c), _)) && (is_char_literal || c != '"') ==> !(r matches Ok(None)),
        match old(reader).spec_next() {
            None => r == Ok::<Option<char>, ErrorAt>(None),
            Some((Some(c), q)) => if c == '"' && !is_char_literal {
                r == Ok::<Option<char>, ErrorAt>(None) && *final(reader) == *old(reader)
            } else if c != '\\' {
                r == Ok::<Option<char>, ErrorAt>(Some(c)) && old(reader).took(final(reader), c, q)
            } else {
                match escape_at(old(reader).spec_bytes(), old(reader).spec_position()) {
                    Ok((e, end)) => r == Ok::<Option<char>, ErrorAt>(Some(e)) && final(reader).spec_position() == end,
                    Err(f) => r matches Err(x) && is_escape_failure(x, f),
                }
            },
            Some((None, _)) => r is Err,
        },
        r matches Err(x) ==> ((x.error is InvalidEscapeChars || x.error is InvalidUnicodeCodePoint) ==> x.line == Some(
            old(reader).spec_line(),
        ) && x.column == Some(old(reader).spec_column())),
{
    let start_line = reader.get_line();
    let start_column = reader.get_column();
    let first_char = match reader.peek_char()? {
        None => return Ok(None),
        Some(first_char) => first_char,
    };
    if first_char == '"' && !is_char_literal {
        return Ok(None);
    }
    if first_char != '\\' {
        return reader.read_char();
    }
    match parse_escape(reader) {
        Ok(c) => Ok(Some(c)),
        Err(e) => Err(e),
    }
}

/// Reads `n` chars that must be hex digits: `Ok(None)` when one is not or the bytes end.
fn read_hex_digits(reader: &mut SourceFileReader, n: usize) -> (r: Result<Option<Vec<char>>, ErrorAt>)
    requires
        old(reader).wf(),
    ensures
        final(reader).advanced_from(old(reader)),
        match hex_digits_from(old(reader).spec_bytes(), old(reader).spec_position(), n as nat) {
            Ok((digits, end)) => r matches Ok(Some(v)) && v@ == digits && final(reader).spec_position() == end,
            Err(true) => r matches Err(e) && is_escape_failure(e, EscapeFailure::ReadError),
            Err(false) => r == Ok::<Option<Vec<char>>, ErrorAt>(None),
        },
{
    let mut digits: Vec<char> = Vec::new();
    let mut i: usize = 0;
    while i < n
        invariant
            reader.advanced_from(old(reader)),
            i <= n,
            hex_digits_from(old(reader).spec_bytes(), old(reader).spec_position(), n as nat) == prepend_digits(
                digits@,
                hex_digits_from(reader.spec_bytes(), reader.spec_position(), (n - i) as nat),
            ),
        decreases n - i,
    {
        let ghost before = digits@;
        let ghost rest = hex_digits_from(reader.spec_bytes(), reader.spec_next().unwrap().1, (n - i - 1) as nat);
        match reader.read_char() {
            Err(e) => return Err(e),
            Ok(None) => return Ok(None),
            Ok(Some(c)) => {
                if !CharClass::HexDigit.has(c) {
                    return Ok(None);
                }
                digits.push(c);
                proof {
                    if let Ok((x, e)) = rest {
                        assert(before + (seq![c] + x) =~= digits@ + x);
                    }
                }
            },
        }
        i = i + 1;
    }
    proof {
        assert(digits@ + Seq::<char>::empty() =~= digits@);
    }
    Ok(Some(digits))
}

/// Reads digits of a class (underscores skipped) up to a closing curly parenthesis and gives the
/// char of their code point.
fn read_digits_to_closing_curly(reader: &mut SourceFileReader, class: CharClass, radix: u32, line: usize, column: usize) -> (r: Result<char, ErrorAt>)
    requires
        old(reader).wf(),
        class == CharClass::OctalDigit || class == CharClass::DecimalDigit || class == CharClass::HexDigit,
        2 <= radix <= 36,
    ensures
        final(reader).advanced_from(old(reader)),
        match digits_to_closing_curly(old(reader).spec_bytes(), old(reader).spec_position(), class, radix as int) {
            Ok((c, end)) => r == Ok::<char, ErrorAt>(c) && final(reader).spec_position() == end,
            Err(f) => r matches Err(e) && is_escape_failure(e, f),
        },
        r matches Err(e) ==> (e.error is InvalidUnicodeCodePoint ==> e.line == Some(line) && e.column == Some(column)),
{
    let digits = reader.read_string_while_and_skip(class, CharClass::Underscore)?;
    expect_closing_curly_parenthesis(reader)?;
    char_from_digits(&digits, radix, line, column)
}

/// Reads the escape sequence whose backslash is next and gives the char it stands for.
fn parse_escape(reader: &mut SourceFileReader) -> (r: Result<char, ErrorAt>)
    requires
        old(reader).wf(),
        old(reader).spec_next() matches Some((Some(c), _)) && c == '\\',
    ensures
        final(reader).advanced_from(old(reader)),
        match escape_at(old(reader).spec_bytes(), old(reader).spec_position()) {
            Ok((c, end)) => r == Ok::<char, ErrorAt>(c) && final(reader).spec_position() == end,
            Err(f) => r matches Err(e) && is_escape_failure(e, f),
        },
        r is Ok ==> old(reader).spec_position() < final(reader).spec_position(),
        r matches Err(x) ==> ((x.error is InvalidEscapeChars || x.error is InvalidUnicodeCodePoint) ==> x.line == Some(
            old(reader).spec_line(),
        ) && x.column == Some(old(reader).spec_column())),
{
    let start_line = reader.get_line();
    let start_column = reader.get_column();
    let _ = reader.read_char();
    let char_after_backslash = match reader.read_char()? {
        Some(c) => c,
        None => return Err(escape_error("\\", start_line, start_column)),
    };
    if let Some(c) = simple_escape_char(char_after_backslash) {
        return Ok(c);
    }
    if char_after_backslash == 'x' {
        let high = reader.read_char()?;
        let low = reader.read_char()?;
        match (high, low) {
            (Some(h), Some(l)) => {
                if CharClass::HexDigit.has(h) && CharClass::HexDigit.has(l) {
                    let v: u32 = digit_value(h) * 16 + digit_value(l);
                    match char_from_u32(v) {
                        Some(c) => return Ok(c),
                        None => {},
                    }
                }
            },
            _ => {},
        }
        return Err(escape_error("\\x??", start_line, start_column));
    }
    if char_after_backslash == 'o' {
        expect_opening_curly_parenthesis(reader)?;
        return read_digits_to_closing_curly(reader, CharClass::OctalDigit, 8, start_line, start_column);
    }
    if char_after_backslash == 'd' {
        expect_opening_curly_parenthesis(reader)?;
        return read_digits_to_closing_curly(reader, CharClass::DecimalDigit, 10, start_line, start_column);
    }
    if char_after_backslash == '{' {
        return read_digits_to_closing_curly(reader, CharClass::HexDigit, 16, start_line, start_column);
    }
    if char_after_backslash == 'u' || char_after_backslash == 'U' {
        let count: usize = if char_after_backslash == 'u' { 4 } else { 6 };
        proof {
            lemma_hex_digits_from(reader.spec_bytes(), reader.spec_position(), count as nat);
        }
        let hex_digits = match read_hex_digits(reader, count)? {
            Some(digits) => digits,
            None => return Err(escape_error(if count == 4 { "\\u????" } else { "\\U??????" }, start_line, start_column)),
        };
        return char_from_digits(&hex_digits, 16, start_line, start_column);
    }
    let mut m: Vec<char> = Vec::new();
    m.push('\\');
    m.push(char_after_backslash);
    proof {
        assert(m@ =~= seq!['\\', char_after_backslash]);
    }
    Err(Error::InvalidEscapeChars(m).at(Some(start_line), Some(start_column), None))
}

/// Reads a single `{` char, returns an error if it is not said char.
pub fn expect_opening_curly_parenthesis(reader: &mut SourceFileReader) -> (r: Result<(), ErrorAt>)
    requires
        old(reader).wf(),
    ensures
        final(reader).advanced_from(old(reader)),
        match old(reader).spec_next() {
            Some((Some(c), q)) => if c == '{' {
                r is Ok && old(reader).took(final(reader), c, q)
            } else {
                r matches Err(e) && e.error is ExpectedCurlyOpeningParenthesis
                    && e.line == Some(old(reader).spec_line()) && e.column == Some(old(reader).spec_column())
            },
            None => r matches Err(e) && e.error is ExpectedCurlyOpeningParenthesis,
            Some((None, _)) => r matches Err(e) && old(reader).is_read_error(e),
        },
{
    match reader.read_and_expect_char('{')? {
        true => Ok(()),
        false => Err(Error::ExpectedCurlyOpeningParenthesis.at(Some(reader.get_line()), Some(reader.get_column()), None)),
    }
}

/// Reads a single `}` char, returns an error if it is not said char. The error names the opening parenthesis.
pub fn expect_closing_curly_parenthesis(reader: &mut SourceFileReader) -> (r: Result<(), ErrorAt>)
    requires
        old(reader).wf(),
    ensures
        final(reader).advanced_from(old(reader)),
        match old(reader).spec_next() {
            Some((Some(c), q)) => if c == '}' {
                r is Ok && old(reader).took(final(reader), c, q)
            } else {
                r matches Err(e) && e.error is ExpectedCurlyOpeningParenthesis
                    && e.line == Some(old(reader).spec_line()) && e.column == Some(old(reader).spec_column())
            },
            None => r matches Err(e) && e.error is ExpectedCurlyOpeningParenthesis,
            Some((None, _)) => r matches Err(e) && old(reader).is_read_error(e),
        },
{
    match reader.read_and_expect_char('}')? {
        true => Ok(()),
        false => Err(Error::ExpectedCurlyOpeningParenthesis.at(Some(reader.get_line()), Some(reader.get_column()), None)),
    }
}


/// The chars that operator symbols are made of.
pub open spec fn spec_is_operator_char(c: char) -> bool {
    c == '+' || c == '-' || c == '*' || c == '/' || c == '%' || c == '!' || c == '|' || c == '&' || c == '^' || c == '<'
        || c == '=' || c == '>' || c == ':' || c == '?' || c == '.'
}

fn is_operator_char(c: char) -> (r: bool)
    ensures
        r == spec_is_operator_char(c),
{
    c == '+' || c == '-' || c == '*' || c == '/' || c == '%' || c == '!' || c == '|' || c == '&' || c == '^' || c == '<'
        || c == '=' || c == '>' || c == ':' || c == '?' || c == '.'
}

/// Letters of the ASCII range.
pub open spec fn spec_is_ascii_letter(c: char) -> bool {
    ('A' <= c && c <= 'Z') || ('a' <= c && c <= 'z')
}

/// The symbols that end in `=` and still are no assignment.
pub open spec fn is_comparison_symbol(s: Seq<char>) -> bool {
    ||| s == "=="@
    ||| s == "!="@
    ||| s == "==="@
    ||| s == "!=="@
    ||| s == "<="@
    ||| s == ">="@
    ||| s == "..="@
}

/// Whether an operator symbol is an assignment: it ends in `=` and is no comparison.
pub open spec fn spec_is_assignment(s: Seq<char>) -> bool {
    s.len() > 0 && s.last() == '=' && !is_comparison_symbol(s)
}

/// The operator symbol with the `=` of an assignment taken off.
pub open spec fn without_assignment(s: Seq<char>) -> Seq<char> {
    if spec_is_assignment(s) {
        s.drop_last()
    } else {
        s
    }
}

/// Whether some kind of operator, or the colon, is written by a symbol.
pub open spec fn operator_symbol_known(s: Seq<char>) -> bool {
    let t = without_assignment(s);
    ||| TanukiPrefixUnaryOperator::spec_from_source(t) is Some
    ||| TanukiInfixBinaryOperator::spec_from_source(t) is Some
    ||| TanukiPostfixUnaryOperator::spec_from_source(t) is Some
    ||| TanukiInfixTernaryOperator::spec_from_source(t) is Some
    ||| TanukiNullaryOperator::spec_from_source(t) is Some
    ||| s == ":"@
}

/// The operator token variant read from a symbol.
pub open spec fn is_operator_variant_of(v: TanukiTokenVariant, s: Seq<char>) -> bool {
    let t = without_assignment(s);
    &&& v matches TanukiTokenVariant::Operator {
        prefix_unary_operator,
        infix_binary_operator,
        postfix_unary_operator,
        infix_ternary_operator,
        nullary_operator,
        is_colon,
        is_assignment,
        symbol,
    }
    &&& prefix_unary_operator == TanukiPrefixUnaryOperator::spec_from_source(t)
    &&& infix_binary_operator == TanukiInfixBinaryOperator::spec_from_source(t)
    &&& postfix_unary_operator == TanukiPostfixUnaryOperator::spec_from_source(t)
    &&& infix_ternary_operator == TanukiInfixTernaryOperator::spec_from_source(t)
    &&& nullary_operator == TanukiNullaryOperator::spec_from_source(t)
    &&& is_colon == (s == ":"@)
    &&& is_assignment == spec_is_assignment(s)
    &&& symbol@ == s
}

/// Reads an operator symbol: the variant with each way it can be read, or the error when nothing reads it.
pub fn operator_variant(symbol: Vec<char>) -> (r: Result<TanukiTokenVariant, Error>)
    ensures
        operator_symbol_known(symbol@) ==> (r matches Ok(v) && is_operator_variant_of(v, symbol@)),
        !operator_symbol_known(symbol@) ==> (r matches Err(Error::InvalidOperatorSymbol(m)) && m@ == symbol@),
{
    let is_colon = chars_eq_str(symbol.as_slice(), ":");
    let n = symbol.len();
    let is_comparison = chars_eq_str(symbol.as_slice(), "==") || chars_eq_str(symbol.as_slice(), "!=")
        || chars_eq_str(symbol.as_slice(), "===") || chars_eq_str(symbol.as_slice(), "!==")
        || chars_eq_str(symbol.as_slice(), "<=") || chars_eq_str(symbol.as_slice(), ">=")
        || chars_eq_str(symbol.as_slice(), "..=");
    let is_assignment = n > 0 && symbol[n - 1] == '=' && !is_comparison;
    let mut stripped: Vec<char> = Vec::new();
    push_chars(&mut stripped, symbol.as_slice());
    if is_assignment {
        stripped.pop();
    }
    proof {
        assert(stripped@ =~= without_assignment(symbol@));
    }
    let prefix_unary_operator = TanukiPrefixUnaryOperator::from_source_chars(stripped.as_slice());
    let infix_binary_operator = TanukiInfixBinaryOperator::from_source_chars(stripped.as_slice());
    let postfix_unary_operator = TanukiPostfixUnaryOperator::from_source_chars(stripped.as_slice());
    let infix_ternary_operator = TanukiInfixTernaryOperator::from_source_chars(stripped.as_slice());
    let nullary_operator = TanukiNullaryOperator::from_source_chars(stripped.as_slice());
    if prefix_unary_operator.is_none() && infix_binary_operator.is_none() && postfix_unary_operator.is_none()
        && infix_ternary_operator.is_none() && nullary_operator.is_none() && !is_colon {
        return Err(Error::InvalidOperatorSymbol(symbol));
    }
    Ok(TanukiTokenVariant::Operator {
        prefix_unary_operator,
        infix_binary_operator,
        postfix_unary_operator,
        infix_ternary_operator,
        nullary_operator,
        is_colon,
        is_assignment,
        symbol,
    })
}

/// The numeric literal variant of a literal's text read in a base, given what reading it as a
/// 64 bit float gave (its bits): the error when neither reading is valid.
pub fn numeric_literal_variant(text: Vec<char>, base: u32, as_float: Option<u64>) -> (r: Result<TanukiTokenVariant, Error>)
    requires
        2 <= base <= 36,
    ensures
        match unsigned_from_str_radix(text@, base as int) {
            Some(v) => r matches Ok(TanukiTokenVariant::NumericLiteral(Some(i), f)) && i@ == v && f == as_float,
            None => match as_float {
                Some(b) => r matches Ok(TanukiTokenVariant::NumericLiteral(None, Some(f))) && f == b,
                None => r matches Err(Error::InvalidNumericLiteral(m)) && m@ == text@,
            },
        },
{
    let as_integer = ct_unsigned_from_str_radix(text.as_slice(), base);
    if as_integer.is_none() && as_float.is_none() {
        return Err(Error::InvalidNumericLiteral(text));
    }
    Ok(TanukiTokenVariant::NumericLiteral(as_integer, as_float))
}


/// The operator chars from byte `p` on, up to the first char that is none, with the position
/// where they end.
pub open spec fn operator_run(b: Seq<u8>, p: int) -> (Seq<char>, int)
    decreases b.len() - p,
{
    match next_item(b, p) {
        Some((Some(c), q)) => if p < q <= b.len() && spec_is_operator_char(c) {
            let (rest, end) = operator_run(b, q);
            (seq![c] + rest, end)
        } else {
            (Seq::empty(), p)
        },
        _ => (Seq::empty(), p),
    }
}

/// The position of the end of the line that byte `p` is in: that of the next newline, or where
/// the chars end.
pub open spec fn line_end(b: Seq<u8>, p: int) -> int
    decreases b.len() - p,
{
    match next_item(b, p) {
        Some((Some(c), q)) => if c != '\n' && p < q <= b.len() {
            line_end(b, q)
        } else {
            p
        },
        _ => p,
    }
}

/// When a comment starts at byte `p` (with `//`), the position after the two slashes.
pub open spec fn comment_text_at(b: Seq<u8>, p: int) -> Option<int> {
    match next_item(b, p) {
        Some((Some(c), q)) => if c == '/' && p < q {
            match next_item(b, q) {
                Some((Some(d), r)) => if d == '/' && q < r <= b.len() {
                    Some(r)
                } else {
                    None
                },
                _ => None,
            }
        } else {
            None
        },
        _ => None,
    }
}

pub proof fn lemma_line_end_bounds(b: Seq<u8>, p: int)
    requires
        0 <= p <= b.len(),
    ensures
        p <= line_end(b, p) <= b.len(),
    decreases b.len() - p,
{
    if let Some((Some(c), q)) = next_item(b, p) {
        if c != '\n' && p < q <= b.len() {
            lemma_line_end_bounds(b, q);
        }
    }
}

pub proof fn lemma_whitespace_end_bounds(b: Seq<u8>, p: int)
    requires
        0 <= p <= b.len(),
    ensures
        p <= whitespace_end(b, p) <= b.len(),
        whitespace_end(b, whitespace_end(b, p)) == whitespace_end(b, p),
    decreases b.len() - p,
{
    if let Some((Some(c), q)) = next_item(b, p) {
        if spec_is_ascii_whitespace(c) && p < q <= b.len() {
            lemma_whitespace_end_bounds(b, q);
        }
    }
}

/// The position where the next token starts when reading from byte `p`: ASCII whitespace and
/// comments are passed over.
pub open spec fn token_start(b: Seq<u8>, p: int) -> int
    decreases b.len() - p,
{
    if 0 <= p <= b.len() {
        let w = whitespace_end(b, p);
        match comment_text_at(b, w) {
            Some(r) => {
                proof {
                    lemma_whitespace_end_bounds(b, p);
                    lemma_line_end_bounds(b, r);
                }
                token_start(b, line_end(b, r))
            },
            None => w,
        }
    } else {
        p
    }
}

/// Passing over whitespace first leaves the start of the next token where it is.
proof fn lemma_token_start_after_whitespace(b: Seq<u8>, p: int)
    requires
        0 <= p <= b.len(),
    ensures
        token_start(b, whitespace_end(b, p)) == token_start(b, p),
{
    lemma_whitespace_end_bounds(b, p);
}

/// Reads an operator symbol: the longest run of operator chars, starting with one.
/// When the run starts with `//` it is a comment instead: the rest of the line is skipped and
/// `Ok(None)` returned.
#[verifier::loop_isolation(false)]
pub fn read_operator_symbol(reader: &mut SourceFileReader) -> (r: Result<Option<Vec<char>>, ErrorAt>)
    requires
        old(reader).wf(),
        old(reader).spec_next() matches Some((Some(c), _)) && spec_is_operator_char(c),
    ensures
        final(reader).advanced_from(old(reader)),
        r is Ok ==> old(reader).spec_position() < final(reader).spec_position(),
        r matches Ok(Some(s)) ==> {
            &&& s@.len() > 0
            &&& forall|i: int| 0 <= i < s@.len() ==> spec_is_operator_char(#[trigger] s@[i])
            &&& !(s@.len() >= 2 && s@[0] == '/' && s@[1] == '/')
            &&& old(reader).spec_next() matches Some((Some(c), _)) && s@[0] == c
            &&& !(final(reader).spec_next() matches Some((Some(c), _)) && spec_is_operator_char(c))
        },
        r matches Ok(None) ==> !(final(reader).spec_next() matches Some((Some(c), _)) && c != '\n'),
        r matches Ok(None) ==> (old(reader).spec_next() matches Some((Some(c), _)) && c == '/'),
        r matches Ok(Some(s)) ==> s@ == operator_run(old(reader).spec_bytes(), old(reader).spec_position()).0
            && final(reader).spec_position() == operator_run(old(reader).spec_bytes(), old(reader).spec_position()).1,
        r matches Ok(Some(_)) ==> comment_text_at(old(reader).spec_bytes(), old(reader).spec_position()) is None,
        r matches Ok(None) ==> comment_text_at(old(reader).spec_bytes(), old(reader).spec_position()) matches Some(q)
            && final(reader).spec_position() == line_end(old(reader).spec_bytes(), q),
        comment_text_at(old(reader).spec_bytes(), old(reader).spec_position()) is None && !(next_item(
            old(reader).spec_bytes(),
            operator_run(old(reader).spec_bytes(), old(reader).spec_position()).1,
        ) matches Some((None, _))) ==> r matches Ok(Some(_)),
        comment_text_at(old(reader).spec_bytes(), old(reader).spec_position()) matches Some(q) && !(next_item(
            old(reader).spec_bytes(),
            line_end(old(reader).spec_bytes(), q),
        ) matches Some((None, _))) ==> r matches Ok(None),
{
    let mut name: Vec<char> = Vec::new();
    let ghost after_first = old(reader).spec_next().unwrap().1;
    loop
        invariant
            name@.len() == 1 ==> reader.spec_position() == after_first,
            name@.len() >= 2 ==> comment_text_at(old(reader).spec_bytes(), old(reader).spec_position()) is None,
            after_first == old(reader).spec_next().unwrap().1,
            name@ + operator_run(reader.spec_bytes(), reader.spec_position()).0 == operator_run(
                old(reader).spec_bytes(),
                old(reader).spec_position(),
            ).0,
            operator_run(reader.spec_bytes(), reader.spec_position()).1 == operator_run(
                old(reader).spec_bytes(),
                old(reader).spec_position(),
            ).1,
            reader.advanced_from(old(reader)),
            old(reader).spec_next() matches Some((Some(c), _)) && spec_is_operator_char(c),
            name@.len() == 0 ==> *reader == *old(reader),
            name@.len() > 0 ==> old(reader).spec_position() < reader.spec_position(),
            name@.len() > 0 ==> (old(reader).spec_next() matches Some((Some(c), _)) && name@[0] == c),
            forall|i: int| 0 <= i < name@.len() ==> spec_is_operator_char(#[trigger] name@[i]),
            !(name@.len() >= 2 && name@[0] == '/' && name@[1] == '/'),
        decreases reader.spec_bytes().len() - reader.spec_position(),
    {
        let c = match reader.peek_char()? {
            Some(c) => c,
            None => break,
        };
        if !is_operator_char(c) {
            break;
        }
        let ghost before = name@;
        let ghost rest = operator_run(reader.spec_bytes(), reader.spec_next().unwrap().1).0;
        name.push(c);
        reader.read_char()?;
        proof {
            assert(before + (seq![c] + rest) =~= name@ + rest);
        }
        if name.len() == 2 && name[0] == '/' && name[1] == '/' {
            let ghost text_start = reader.spec_position();
            assert(comment_text_at(old(reader).spec_bytes(), old(reader).spec_position()) == Some(text_start));
            loop
                invariant
                    reader.advanced_from(old(reader)),
                    old(reader).spec_position() < reader.spec_position(),
                    line_end(reader.spec_bytes(), reader.spec_position()) == line_end(old(reader).spec_bytes(), text_start),
                decreases reader.spec_bytes().len() - reader.spec_position(),
            {
                match reader.peek_char()? {
                    Some(c) => {
                        if c == '\n' {
                            break;
                        }
                    },
                    None => break,
                }
                reader.read_char()?;
            }
            return Ok(None);
        }
    }
    proof {
        assert(name@ + Seq::<char>::empty() =~= name@);
    }
    Ok(Some(name))
}

/// Whether a char goes on in a numeric literal: an ASCII letter or digit, `_` or `.`, or `+` or
/// `-` right after an `e` or `E` in base 10.
pub open spec fn continues_number(c: char, base: u32, last_was_e: bool) -> bool {
    ||| spec_is_ascii_letter(c) || c == '_' || ('0' <= c <= '9') || c == '.'
    ||| (c == '+' || c == '-') && last_was_e && base == 10
}

/// The chars of a numeric literal read from byte `p` on, underscores left out, with the position
/// where the reading stops.
pub open spec fn number_run(b: Seq<u8>, p: int, base: u32, last_was_e: bool) -> (Seq<char>, int)
    decreases b.len() - p,
{
    match next_item(b, p) {
        Some((Some(c), q)) => if p < q <= b.len() && continues_number(c, base, last_was_e) {
            let (rest, end) = number_run(b, q, base, if c == '_' { last_was_e } else { c == 'e' || c == 'E' });
            (
                if c == '_' {
                    rest
                } else {
                    seq![c] + rest
                },
                end,
            )
        } else {
            (Seq::empty(), p)
        },
        _ => (Seq::empty(), p),
    }
}

/// Why a numeric literal is refused: bytes that are no char, or a `0` followed by a letter that
/// names no base (the two chars given).
pub enum NumberFailure {
    ReadError,
    InvalidBase(Seq<char>),
}

/// Where the digits of a numeric literal that starts at byte `p` begin, and their base: after
/// `0b`, `0o` or `0x`, else at the literal's start in base 10.
pub open spec fn number_start(b: Seq<u8>, p: int) -> Result<(u32, int), NumberFailure> {
    match next_item(b, p) {
        Some((Some(first), q1)) => if first == '0' {
            match next_item(b, q1) {
                Some((None, _)) => Err(NumberFailure::ReadError),
                Some((Some(c), q2)) => if char_is_alphabetic(c) {
                    if c == 'b' {
                        Ok((2, q2))
                    } else if c == 'o' {
                        Ok((8, q2))
                    } else if c == 'x' {
                        Ok((16, q2))
                    } else {
                        Err(NumberFailure::InvalidBase(seq!['0', c]))
                    }
                } else {
                    Ok((10, q1))
                },
                None => Ok((10, q1)),
            }
        } else {
            Ok((10, p))
        },
        _ => Err(NumberFailure::ReadError),
    }
}

/// The text of the numeric literal that starts at byte `p`, which `read_numeric_literal` gives:
/// `0` and the chars of the literal after any base specifier, with the base and the position
/// after the literal.
pub open spec fn number_text_at(b: Seq<u8>, p: int) -> Result<(Seq<char>, u32, int), NumberFailure> {
    match number_start(b, p) {
        Ok((base, start)) => {
            let (text, end) = number_run(b, start, base, false);
            if next_item(b, end) matches Some((None, _)) {
                Err(NumberFailure::ReadError)
            } else {
                Ok((seq!['0'] + text, base, end))
            }
        },
        Err(f) => Err(f),
    }
}

/// Reads the chars of a numeric literal that starts with a decimal digit: an optional base
/// specifier (`0b`, `0o` or `0x`, given by a `0` and a letter), then the run of letters, digits,
/// `.`, and `+` or `-` right after an `e` or `E` in base 10; underscores are skipped.
/// Returns that run after a `0`, with the base.
#[verifier::loop_isolation(false)]
pub fn read_numeric_literal(reader: &mut SourceFileReader, start_line: usize, start_column: usize) -> (r: Result<(Vec<char>, u32), ErrorAt>)
    requires
        old(reader).wf(),
        old(reader).spec_next() matches Some((Some(c), _)) && '0' <= c <= '9',
    ensures
        final(reader).advanced_from(old(reader)),
        r is Ok ==> old(reader).spec_position() < final(reader).spec_position(),
        r matches Ok((text, base)) ==> {
            &&& base == 2 || base == 8 || base == 10 || base == 16
            &&& text@.len() > 0 && text@[0] == '0'
            &&& forall|i: int| 0 <= i < text@.len() ==> (spec_is_ascii_letter(#[trigger] text@[i]) || ('0' <= text@[i] <= '9')
                || text@[i] == '.' || text@[i] == '+' || text@[i] == '-')
        },
        r matches Err(e) ==> (e.error is InvalidBaseSpecifier ==> e.line == Some(start_line) && e.column == Some(start_column)),
        match number_text_at(old(reader).spec_bytes(), old(reader).spec_position()) {
            Ok((text, base, end)) => r matches Ok((t, b)) && t@ == text && b == base && final(reader).spec_position() == end,
            Err(NumberFailure::ReadError) => r matches Err(e) && e.error matches Error::UnableToReadFile(m) && m@
                == invalid_utf8_message(),
            Err(NumberFailure::InvalidBase(s)) => r matches Err(e) && e.error matches Error::InvalidBaseSpecifier(m) && m@ == s,
        },
{
    let first_char = match reader.peek_char()? {
        Some(c) => c,
        None => return Err(Error::ExpectedExpression.at(Some(start_line), Some(start_column), None)),
    };
    let mut base: u32 = 10;
    if first_char == '0' {
        reader.read_char()?;
        let next = reader.peek_char()?;
        let is_specifier = match next {
            Some(c) => is_alphabetic(c),
            None => false,
        };
        if is_specifier {
            let specifier = match reader.read_char()? {
                Some(c) => c,
                None => return Err(Error::ExpectedExpression.at(Some(start_line), Some(start_column), None)),
            };
            if specifier == 'b' {
                base = 2;
            } else if specifier == 'o' {
                base = 8;
            } else if specifier == 'x' {
                base = 16;
            } else {
                let mut m: Vec<char> = Vec::new();
                m.push('0');
                m.push(specifier);
                return Err(Error::InvalidBaseSpecifier(m).at(Some(start_line), Some(start_column), None));
            }
        }
    }
    let ghost p0 = old(reader).spec_position();
    let ghost start = reader.spec_position();
    let mut text: Vec<char> = Vec::new();
    text.push('0');
    let mut last_was_e = false;
    proof {
        assert(number_start(reader.spec_bytes(), p0) == Ok::<(u32, int), NumberFailure>((base, start)));
    }
    loop
        invariant
            number_start(reader.spec_bytes(), p0) == Ok::<(u32, int), NumberFailure>((base, start)),
            text@ + number_run(reader.spec_bytes(), reader.spec_position(), base, last_was_e).0 == seq!['0'] + number_run(
                reader.spec_bytes(),
                start,
                base,
                false,
            ).0,
            number_run(reader.spec_bytes(), reader.spec_position(), base, last_was_e).1 == number_run(
                reader.spec_bytes(),
                start,
                base,
                false,
            ).1,
            reader.advanced_from(old(reader)),
            first_char == '0' ==> p0 < reader.spec_position(),
            first_char != '0' ==> (text@.len() > 1 || *reader == *old(reader)),
            text@.len() > 1 ==> p0 < reader.spec_position(),
            old(reader).spec_next() matches Some((Some(c), _)) && c == first_char,
            p0 == old(reader).spec_position(),
            '0' <= first_char <= '9',
            base == 2 || base == 8 || base == 10 || base == 16,
            text@.len() > 0 && text@[0] == '0',
            forall|i: int| 0 <= i < text@.len() ==> (spec_is_ascii_letter(#[trigger] text@[i]) || ('0' <= text@[i] <= '9')
                || text@[i] == '.' || text@[i] == '+' || text@[i] == '-'),
        decreases reader.spec_bytes().len() - reader.spec_position(),
    {
        let c = match reader.peek_char()? {
            Some(c) => c,
            None => break,
        };
        let is_number_char = ('A' <= c && c <= 'Z') || ('a' <= c && c <= 'z') || c == '_' || ('0' <= c && c <= '9') || c == '.';
        let is_exponent_sign = (c == '+' || c == '-') && last_was_e && base == 10;
        if !(is_number_char || is_exponent_sign) {
            break;
        }
        let ghost before = text@;
        let ghost rest = number_run(
            reader.spec_bytes(),
            reader.spec_next().unwrap().1,
            base,
            if c == '_' { last_was_e } else { c == 'e' || c == 'E' },
        ).0;
        if c != '_' {
            last_was_e = c == 'e' || c == 'E';
            text.push(c);
        }
        reader.read_char()?;
        proof {
            if c != '_' {
                assert(before + (seq![c] + rest) =~= text@ + rest);
            }
        }
    }
    proof {
        assert(text@ + Seq::<char>::empty() =~= text@);
    }
    Ok((text, base))
}


/// Whether a char may be in an identifier: ASCII letters and digits, and `_`.
pub open spec fn spec_is_identifier_char(c: char) -> bool {
    CharClass::IdentifierChar.contains(c)
}

/// Whether a token variant is one that a token starting with a char is read as.
pub open spec fn variant_starts_with(v: TanukiTokenVariant, c: char) -> bool {
    match v {
        TanukiTokenVariant::LeftParenthesis => c == '(',
        TanukiTokenVariant::RightParenthesis => c == ')',
        TanukiTokenVariant::LeftCurlyParenthesis => c == '{',
        TanukiTokenVariant::RightCurlyParenthesis => c == '}',
        TanukiTokenVariant::LeftSquareParenthesis => c == '[',
        TanukiTokenVariant::RightSquareParenthesis => c == ']',
        TanukiTokenVariant::Comma => c == ',',
        TanukiTokenVariant::Semicolon => c == ';',
        TanukiTokenVariant::Identifier(s) => {
            &&& spec_is_ascii_letter(c) || c == '_'
            &&& s@.len() > 0 && s@[0] == c
            &&& forall|i: int| 0 <= i < s@.len() ==> spec_is_identifier_char(#[trigger] s@[i])
        },
        TanukiTokenVariant::Keyword(_) => c == '@',
        TanukiTokenVariant::BlockLabel(s) => {
            &&& c == '\''
            &&& s@.len() > 0
            &&& forall|i: int| 0 <= i < s@.len() ==> spec_is_identifier_char(#[trigger] s@[i])
        },
        TanukiTokenVariant::NumericLiteral(i, f) => '0' <= c <= '9' && (i is Some || f is Some),
        TanukiTokenVariant::StringLiteral(_) => c == '"',
        TanukiTokenVariant::CharacterLiteral(_) => c == '\'',
        TanukiTokenVariant::Operator { symbol, .. } => {
            &&& symbol@.len() > 0 && symbol@[0] == c
            &&& forall|i: int| 0 <= i < symbol@.len() ==> spec_is_operator_char(#[trigger] symbol@[i])
            &&& operator_symbol_known(symbol@)
            &&& is_operator_variant_of(v, symbol@)
        },
    }
}

/// The identifier chars from byte `p` on, up to the first char that is none.
pub open spec fn identifier_run(bytes: Seq<u8>, p: int) -> Seq<char> {
    class_run(bytes, p, CharClass::IdentifierChar, CharClass::Nothing).0
}

/// Whether the text of a token read at byte `p` is the one its variant holds: an identifier is
/// the whole run of identifier chars from its start, a keyword is named by the run after the
/// `@`, a block label is the run after the quote, a numeric literal holds the integer its text
/// reads as in its base (where there is one), an operator is the whole run of operator chars,
/// and a string or char literal holds the chars after its opening quote, with escape sequences
/// read as the chars they stand for.
pub open spec fn variant_text_at(v: TanukiTokenVariant, bytes: Seq<u8>, p: int) -> bool {
    match next_item(bytes, p) {
        Some((_, q)) => match v {
            TanukiTokenVariant::Identifier(s) => s@ == identifier_run(bytes, p),
            TanukiTokenVariant::Keyword(k) => TanukiKeyword::spec_from_name(identifier_run(bytes, q)) == Some(k),
            TanukiTokenVariant::BlockLabel(s) => s@ == identifier_run(bytes, q),
            TanukiTokenVariant::NumericLiteral(i, _) => number_text_at(bytes, p) matches Ok((text, base, _)) && match unsigned_from_str_radix(
                text,
                base as int,
            ) {
                Some(v) => i matches Some(x) && x@ == v,
                None => i is None,
            },
            TanukiTokenVariant::Operator { symbol, .. } => symbol@ == operator_run(bytes, p).0,
            TanukiTokenVariant::StringLiteral(s) => string_body(bytes, q) matches Some((body, _)) && s@ == body,
            TanukiTokenVariant::CharacterLiteral(ch) => match next_item(bytes, q) {
                Some((Some(f), _)) => if f == '\\' {
                    escape_at(bytes, q) matches Ok((e, _)) && ch == e
                } else {
                    ch == f
                },
                _ => false,
            },
            _ => true,
        },
        None => false,
    }
}

/// The position where a token read as a variant from byte `p` ends: after its closing quote for
/// a string or char literal, and after the whole run of chars its text is made of otherwise.
pub open spec fn variant_end(v: TanukiTokenVariant, bytes: Seq<u8>, p: int) -> int {
    match next_item(bytes, p) {
        Some((_, q)) => match v {
            TanukiTokenVariant::Identifier(_) => class_run(bytes, p, CharClass::IdentifierChar, CharClass::Nothing).1,
            TanukiTokenVariant::Keyword(_) => class_run(bytes, q, CharClass::IdentifierChar, CharClass::Nothing).1,
            TanukiTokenVariant::BlockLabel(_) => class_run(bytes, q, CharClass::IdentifierChar, CharClass::Nothing).1,
            TanukiTokenVariant::NumericLiteral(_, _) => match number_text_at(bytes, p) {
                Ok((_, _, end)) => end,
                Err(_) => p,
            },
            TanukiTokenVariant::Operator { .. } => operator_run(bytes, p).1,
            TanukiTokenVariant::StringLiteral(_) => match string_body(bytes, q) {
                Some((_, body_end)) => match next_item(bytes, body_end) {
                    Some((_, e)) => e,
                    None => body_end,
                },
                None => p,
            },
            TanukiTokenVariant::CharacterLiteral(_) => {
                let char_end = match next_item(bytes, q) {
                    Some((Some(f), r)) => if f == '\\' {
                        match escape_at(bytes, q) {
                            Ok((_, e)) => e,
                            Err(_) => q,
                        }
                    } else {
                        r
                    },
                    _ => q,
                };
                match next_item(bytes, char_end) {
                    Some((_, e)) => e,
                    None => char_end,
                }
            },
            _ => q,
        },
        None => p,
    }
}

/// Whether the char at a byte position begins a token read as a variant.
pub open spec fn token_starts_at(bytes: Seq<u8>, p: int, v: TanukiTokenVariant) -> bool {
    next_item(bytes, p) matches Some((Some(c), _)) && variant_starts_with(v, c) && variant_text_at(v, bytes, p)
}

/// Whether a token read as a variant starts at some byte position in a range.
pub open spec fn token_read_between(bytes: Seq<u8>, lo: int, hi: int, v: TanukiTokenVariant) -> bool {
    exists|p: int| lo <= p < hi && #[trigger] token_starts_at(bytes, p, v)
}

/// Whether a char can start a token (or a comment).
pub open spec fn starts_token(c: char) -> bool {
    ||| c == '(' || c == ')' || c == '{' || c == '}' || c == '[' || c == ']' || c == ',' || c == ';'
    ||| spec_is_ascii_letter(c) || c == '_'
    ||| c == '@'
    ||| '0' <= c <= '9'
    ||| c == '"' || c == '\''
    ||| spec_is_operator_char(c)
}

/// The token a punctuation char is read as by itself.
pub open spec fn punctuation_variant(c: char) -> Option<TanukiTokenVariant> {
    if c == '(' {
        Some(TanukiTokenVariant::LeftParenthesis)
    } else if c == ')' {
        Some(TanukiTokenVariant::RightParenthesis)
    } else if c == '{' {
        Some(TanukiTokenVariant::LeftCurlyParenthesis)
    } else if c == '}' {
        Some(TanukiTokenVariant::RightCurlyParenthesis)
    } else if c == '[' {
        Some(TanukiTokenVariant::LeftSquareParenthesis)
    } else if c == ']' {
        Some(TanukiTokenVariant::RightSquareParenthesis)
    } else if c == ',' {
        Some(TanukiTokenVariant::Comma)
    } else if c == ';' {
        Some(TanukiTokenVariant::Semicolon)
    } else {
        None
    }
}

/// The token of the punctuation char at a position, if one is there.
pub open spec fn punctuation_at(bytes: Seq<u8>, p: int) -> Option<TanukiTokenVariant> {
    match next_item(bytes, p) {
        Some((Some(c), _)) => punctuation_variant(c),
        _ => None,
    }
}

/// Whether an identifier starts at a position and its run of identifier chars ends at a char or at
/// the end of the bytes.
pub open spec fn identifier_readable_at(bytes: Seq<u8>, p: int) -> bool {
    &&& next_item(bytes, p) matches Some((Some(c), _)) && (spec_is_ascii_letter(c) || c == '_')
    &&& !invalid_at(bytes, class_run(bytes, p, CharClass::IdentifierChar, CharClass::Nothing).1)
}

/// Whether a token that is read without error starts at a position: a punctuation char, an
/// identifier, a known keyword, a numeric literal that reads as an integer, a known operator
/// symbol (no comment), or a string literal with its closing quote; each ending at a char or at
/// the end of the bytes.
pub open spec fn token_readable_at(bytes: Seq<u8>, p: int) -> bool {
    match next_item(bytes, p) {
        Some((Some(c), q)) => {
            ||| punctuation_variant(c) is Some
            ||| (spec_is_ascii_letter(c) || c == '_') && !invalid_at(
                bytes,
                class_run(bytes, p, CharClass::IdentifierChar, CharClass::Nothing).1,
            )
            ||| c == '@' && !invalid_at(bytes, class_run(bytes, q, CharClass::IdentifierChar, CharClass::Nothing).1)
                && TanukiKeyword::spec_from_name(identifier_run(bytes, q)) is Some
            ||| '0' <= c <= '9' && integer_literal_at(bytes, p)
            ||| spec_is_operator_char(c) && comment_text_at(bytes, p) is None && !invalid_at(bytes, operator_run(bytes, p).1)
                && operator_symbol_known(operator_run(bytes, p).0)
            ||| c == '"' && closed_string_at(bytes, q)
            ||| c == '\'' && plain_char_literal_at(bytes, q)
        },
        _ => false,
    }
}

/// Whether a numeric literal read at a position is an integer in its base.
pub open spec fn integer_literal_at(bytes: Seq<u8>, p: int) -> bool {
    match number_text_at(bytes, p) {
        Ok((text, base, _)) => unsigned_from_str_radix(text, base as int) is Some,
        Err(_) => false,
    }
}

/// Whether the body of a string literal read at a position is closed by a double quote.
pub open spec fn closed_string_at(bytes: Seq<u8>, q: int) -> bool {
    match string_body(bytes, q) {
        Some((_, e)) => next_item(bytes, e) matches Some((Some(d), _)) && d == '"',
        None => false,
    }
}

/// Whether a char literal's body at a position is one char that is no backslash, followed by the
/// closing quote.
pub open spec fn plain_char_literal_at(bytes: Seq<u8>, q: int) -> bool {
    match next_item(bytes, q) {
        Some((Some(f), q2)) => f != '\\' && (next_item(bytes, q2) matches Some((Some(d), _)) && d == '\''),
        _ => false,
    }
}

/// Whether an `@` at a position is followed by a name that is no keyword (the name ending at a
/// char or at the end of the bytes).
pub open spec fn invalid_keyword_at(bytes: Seq<u8>, p: int) -> bool {
    next_item(bytes, p) matches Some((Some(c), q)) && c == '@' && !invalid_at(
        bytes,
        class_run(bytes, q, CharClass::IdentifierChar, CharClass::Nothing).1,
    ) && TanukiKeyword::spec_from_name(identifier_run(bytes, q)) is None
}

/// The name after the `@` at a position.
pub open spec fn keyword_name_at(bytes: Seq<u8>, p: int) -> Seq<char> {
    match next_item(bytes, p) {
        Some((_, q)) => identifier_run(bytes, q),
        None => Seq::empty(),
    }
}

/// Whether the bytes at a position are no char.
pub open spec fn invalid_at(bytes: Seq<u8>, p: int) -> bool {
    next_item(bytes, p) matches Some((None, _))
}

/// Reads the token that starts with the next char, which is `first_char`.
/// Returns `Ok(None)` when it was a comment, which is then skipped.
#[verifier::loop_isolation(false)]
fn tokenize_variant<F: Fn(Vec<char>, u32) -> Option<u64>>(
    reader: &mut SourceFileReader,
    first_char: char,
    start_line: usize,
    start_column: usize,
    parse_float: &F,
) -> (r: Result<Option<TanukiTokenVariant>, ErrorAt>)
    requires
        old(reader).wf(),
        old(reader).spec_next() matches Some((Some(c), _)) && c == first_char,
        forall|t: Vec<char>, b: u32| parse_float.requires((t, b)),
    ensures
        final(reader).advanced_from(old(reader)),
        r is Ok ==> old(reader).spec_position() < final(reader).spec_position(),
        r matches Ok(Some(v)) ==> variant_starts_with(v, first_char),
        r matches Ok(Some(v)) ==> variant_text_at(v, old(reader).spec_bytes(), old(reader).spec_position()),
        r matches Ok(Some(v)) ==> final(reader).spec_position() == variant_end(v, old(reader).spec_bytes(), old(reader).spec_position()),
        r matches Ok(None) ==> first_char == '/',
        r matches Ok(Some(_)) ==> comment_text_at(old(reader).spec_bytes(), old(reader).spec_position()) is None,
        r matches Ok(None) ==> comment_text_at(old(reader).spec_bytes(), old(reader).spec_position()) matches Some(q)
            && final(reader).spec_position() == line_end(old(reader).spec_bytes(), q),
        !starts_token(first_char) ==> (r matches Err(e) && e.error == Error::InvalidCharStartingToken(first_char)
            && e.line == Some(start_line) && e.column == Some(start_column)),
        punctuation_variant(first_char) is Some ==> (r matches Ok(Some(v)) && Some(v) == punctuation_variant(first_char)),
        token_readable_at(old(reader).spec_bytes(), old(reader).spec_position()) ==> (r matches Ok(Some(_))
            && final(reader).spec_position() == readable_token_end(old(reader).spec_bytes(), old(reader).spec_position())),
        invalid_keyword_at(old(reader).spec_bytes(), old(reader).spec_position()) ==> (r matches Err(e) && e.error matches Error::InvalidKeyword(
            m,
        ) && m@ == seq!['@'] + keyword_name_at(old(reader).spec_bytes(), old(reader).spec_position()) && e.line == Some(start_line)
            && e.column == Some(start_column)),
        (spec_is_ascii_letter(first_char) || first_char == '_') && !invalid_at(
            old(reader).spec_bytes(),
            class_run(old(reader).spec_bytes(), old(reader).spec_position(), CharClass::IdentifierChar, CharClass::Nothing).1,
        ) ==> (r matches Ok(Some(v)) && v is Identifier),
        comment_text_at(old(reader).spec_bytes(), old(reader).spec_position()) matches Some(q) && !invalid_at(
            old(reader).spec_bytes(),
            line_end(old(reader).spec_bytes(), q),
        ) ==> (r matches Ok(None)),
{
    let c = first_char;
    if c == '(' || c == ')' || c == '{' || c == '}' || c == '[' || c == ']' || c == ',' || c == ';' {
        reader.read_char()?;
        let v = if c == '(' {
            TanukiTokenVariant::LeftParenthesis
        } else if c == ')' {
            TanukiTokenVariant::RightParenthesis
        } else if c == '{' {
            TanukiTokenVariant::LeftCurlyParenthesis
        } else if c == '}' {
            TanukiTokenVariant::RightCurlyParenthesis
        } else if c == '[' {
            TanukiTokenVariant::LeftSquareParenthesis
        } else if c == ']' {
            TanukiTokenVariant::RightSquareParenthesis
        } else if c == ',' {
            TanukiTokenVariant::Comma
        } else {
            TanukiTokenVariant::Semicolon
        };
        return Ok(Some(v));
    }
    if ('A' <= c && c <= 'Z') || ('a' <= c && c <= 'z') || c == '_' {
        let name = reader.read_string_while(CharClass::IdentifierChar)?;
        return Ok(Some(TanukiTokenVariant::Identifier(name)));
    }
    if c == '@' {
        reader.read_char()?;
        let name = reader.read_string_while(CharClass::IdentifierChar)?;
        return match TanukiKeyword::from_name_chars(name.as_slice()) {
            Some(keyword) => Ok(Some(TanukiTokenVariant::Keyword(keyword))),
            None => {
                let mut m: Vec<char> = Vec::new();
                m.push('@');
                push_chars(&mut m, name.as_slice());
                Err(Error::InvalidKeyword(m).at(Some(start_line), Some(start_column), None))
            },
        };
    }
    if '0' <= c && c <= '9' {
        let (text, base) = read_numeric_literal(reader, start_line, start_column)?;
        let as_float = parse_float(clone_chars(&text), base);
        return match numeric_literal_variant(text, base, as_float) {
            Ok(v) => Ok(Some(v)),
            Err(e) => Err(e.at(Some(start_line), Some(start_column), None)),
        };
    }
    if c == '"' {
        reader.read_char()?;
        let string = read_string_body(reader)?;
        let expected_quote_line = reader.get_line();
        let expected_quote_column = reader.get_column();
        let closing = reader.read_char()?;
        let closed = match closing {
            Some(q) => q == '"',
            None => false,
        };
        if !closed {
            return Err(Error::ExpectedClosingQuote.at(Some(expected_quote_line), Some(expected_quote_column), None));
        }
        return Ok(Some(TanukiTokenVariant::StringLiteral(string)));
    }
    if c == '\'' {
        reader.read_char()?;
        let first_source_char = match reader.peek_char()? {
            Some(f) => f,
            None => return Err(Error::ExpectedClosingQuote.at(Some(reader.get_line()), Some(reader.get_column()), None)),
        };
        let first_parsed_char = match parse_literal_char(reader, true)? {
            Some(p) => p,
            None => return Err(Error::ExpectedClosingQuote.at(Some(reader.get_line()), Some(reader.get_column()), None)),
        };
        let second_char = reader.peek_char()?;
        let is_quote = match second_char {
            Some(q) => q == '\'',
            None => false,
        };
        if CharClass::IdentifierChar.has(first_source_char) && !is_quote {
            let mut label_name: Vec<char> = Vec::new();
            label_name.push(first_source_char);
            let rest = reader.read_string_while(CharClass::IdentifierChar)?;
            push_chars(&mut label_name, rest.as_slice());
            return Ok(Some(TanukiTokenVariant::BlockLabel(label_name)));
        }
        if !is_quote {
            return Err(Error::ExpectedClosingQuote.at(Some(reader.get_line()), Some(reader.get_column()), None));
        }
        reader.read_char()?;
        return Ok(Some(TanukiTokenVariant::CharacterLiteral(first_parsed_char)));
    }
    if is_operator_char(c) {
        return match read_operator_symbol(reader)? {
            None => Ok(None),
            Some(name) => match operator_variant(name) {
                Ok(v) => Ok(Some(v)),
                Err(e) => Err(e.at(Some(start_line), Some(start_column), None)),
            },
        };
    }
    Err(Error::InvalidCharStartingToken(c).at(Some(start_line), Some(start_column), None))
}

/// Reads the next token, after skipping ASCII whitespace and comments (which run from `//` to the
/// end of the line). Returns `Ok(None)` at the end of the source. A numeric literal is read both
/// as an integer and, by `parse_float` (given the literal's text and base), as a float.
pub fn tokenize_token<F: Fn(Vec<char>, u32) -> Option<u64>>(reader: &mut SourceFileReader, parse_float: &F) -> (r: Result<Option<TanukiToken>, ErrorAt>)
    requires
        old(reader).wf(),
        forall|t: Vec<char>, b: u32| parse_float.requires((t, b)),
    ensures
        final(reader).advanced_from(old(reader)),
        r matches Ok(None) ==> final(reader).spec_next() is None,
        r matches Ok(None) ==> final(reader).spec_position() == token_start(old(reader).spec_bytes(), old(reader).spec_position()),
        r matches Ok(Some(t)) ==> {
            &&& old(reader).spec_position() < final(reader).spec_position()
            &&& t.end_line == final(reader).spec_line()
            &&& t.end_column == final(reader).spec_column()
            &&& token_starts_at(old(reader).spec_bytes(), token_start(old(reader).spec_bytes(), old(reader).spec_position()), t.variant)
            &&& token_start(old(reader).spec_bytes(), old(reader).spec_position()) < final(reader).spec_position()
            &&& place_at(old(reader).spec_bytes(), token_start(old(reader).spec_bytes(), old(reader).spec_position())) == Some(
                (t.start_line as int, t.start_column as int),
            )
            &&& final(reader).spec_position() == variant_end(
                t.variant,
                old(reader).spec_bytes(),
                token_start(old(reader).spec_bytes(), old(reader).spec_position()),
            )
            &&& token_read_between(final(reader).spec_bytes(), old(reader).spec_position(), final(reader).spec_position(), t.variant)
        },
        next_item(old(reader).spec_bytes(), token_start(old(reader).spec_bytes(), old(reader).spec_position())) is None ==> (
        r matches Ok(None)),
        token_readable_at(old(reader).spec_bytes(), token_start(old(reader).spec_bytes(), old(reader).spec_position())) ==> (r matches Ok(
            Some(_),
        ) && final(reader).spec_position() == readable_token_end(
            old(reader).spec_bytes(),
            token_start(old(reader).spec_bytes(), old(reader).spec_position()),
        )),
        invalid_keyword_at(old(reader).spec_bytes(), token_start(old(reader).spec_bytes(), old(reader).spec_position())) ==> (r matches Err(
            e,
        ) && e.error matches Error::InvalidKeyword(m) && m@ == seq!['@'] + keyword_name_at(
            old(reader).spec_bytes(),
            token_start(old(reader).spec_bytes(), old(reader).spec_position()),
        )),
        identifier_readable_at(old(reader).spec_bytes(), token_start(old(reader).spec_bytes(), old(reader).spec_position())) ==> (
        r matches Ok(Some(t)) && t.variant is Identifier),
        punctuation_at(old(reader).spec_bytes(), token_start(old(reader).spec_bytes(), old(reader).spec_position())) is Some ==> (
        r matches Ok(Some(t)) && Some(t.variant) == punctuation_at(
            old(reader).spec_bytes(),
            token_start(old(reader).spec_bytes(), old(reader).spec_position()),
        )),
{
    loop
        invariant
            reader.advanced_from(old(reader)),
            forall|t: Vec<char>, b: u32| parse_float.requires((t, b)),
            token_start(reader.spec_bytes(), reader.spec_position()) == token_start(old(reader).spec_bytes(), old(reader).spec_position()),
        decreases reader.spec_bytes().len() - reader.spec_position(),
    {
        let ghost before_whitespace = reader.spec_position();
        reader.skip_leading_ascii_whitespaces()?;
        proof {
            lemma_whitespace_end_bounds(reader.spec_bytes(), before_whitespace);
            lemma_token_start_after_whitespace(reader.spec_bytes(), before_whitespace);
        }
        let first_char = match reader.peek_char()? {
            Some(first_char) => first_char,
            None => return Ok(None),
        };
        let start_line = reader.get_line();
        let start_column = reader.get_column();
        let ghost start_position = reader.spec_position();
        let ghost bytes = reader.spec_bytes();
        let read = tokenize_variant(reader, first_char, start_line, start_column, parse_float);
        let found = match read {
            Ok(found) => found,
            Err(e) => {
                proof {
                    if let Some(q) = comment_text_at(bytes, start_position) {
                        lemma_line_end_bounds(bytes, q);
                        let end = line_end(bytes, q);
                        assert(invalid_at(bytes, end));
                        assert(whitespace_end(bytes, end) == end);
                        assert(comment_text_at(bytes, end) is None);
                        assert(token_start(bytes, end) == end);
                    } else {
                        assert(token_start(bytes, start_position) == start_position);
                    }
                }
                return Err(e);
            },
        };
        match found {
            None => {},
            Some(variant) => {
                proof {
                    assert(token_starts_at(reader.spec_bytes(), start_position, variant));
                }
                return Ok(Some(TanukiToken {
                    variant,
                    start_line,
                    start_column,
                    end_line: reader.get_line(),
                    end_column: reader.get_column(),
                }));
            },
        }
    }
}

/// Where a token that is read without error (`token_readable_at`) ends: after its char for
/// punctuation, after the run of its chars otherwise, after the closing quote for a string.
pub open spec fn readable_token_end(bytes: Seq<u8>, p: int) -> int {
    match next_item(bytes, p) {
        Some((Some(c), q)) => if punctuation_variant(c) is Some {
            q
        } else if spec_is_ascii_letter(c) || c == '_' {
            class_run(bytes, p, CharClass::IdentifierChar, CharClass::Nothing).1
        } else if c == '@' {
            class_run(bytes, q, CharClass::IdentifierChar, CharClass::Nothing).1
        } else if '0' <= c <= '9' {
            match number_text_at(bytes, p) {
                Ok((_, _, end)) => end,
                Err(_) => p,
            }
        } else if c == '"' {
            match string_body(bytes, q) {
                Some((_, e)) => match next_item(bytes, e) {
                    Some((_, f)) => f,
                    None => e,
                },
                None => p,
            }
        } else if c == '\'' {
            match next_item(bytes, q) {
                Some((_, q2)) => match next_item(bytes, q2) {
                    Some((_, e)) => e,
                    None => q2,
                },
                None => q,
            }
        } else {
            operator_run(bytes, p).1
        },
        _ => p,
    }
}

/// Whether, from byte `p` on, the source is made of tokens that are read without error (with
/// whitespace and comments between them).
pub open spec fn readable_source_from(bytes: Seq<u8>, p: int) -> bool
    decreases bytes.len() - p,
{
    let s = token_start(bytes, p);
    if next_item(bytes, s) is None {
        true
    } else if token_readable_at(bytes, s) {
        let e = readable_token_end(bytes, s);
        p < e <= bytes.len() && readable_source_from(bytes, e)
    } else {
        false
    }
}

/// The variants of a sequence of tokens.
pub open spec fn token_variants(ts: Seq<TanukiToken>) -> Seq<TanukiTokenVariant> {
    Seq::new(ts.len(), |i: int| ts[i].variant)
}

/// Where reading stops after the tokens read as the variants `vs`, one after the other, from byte
/// `p` on.
pub open spec fn tokens_end(b: Seq<u8>, p: int, vs: Seq<TanukiTokenVariant>) -> int
    decreases vs.len(),
{
    if vs.len() == 0 {
        p
    } else {
        variant_end(vs.last(), b, token_start(b, tokens_end(b, p, vs.drop_last())))
    }
}

/// Reads all tokens of a source, up to its end: each token starts where the one before it ends,
/// after whitespace and comments, and after the last one only whitespace and comments are left.
#[verifier::rlimit(100)]
pub fn tokenize<F: Fn(Vec<char>, u32) -> Option<u64>>(reader: &mut SourceFileReader, parse_float: &F) -> (r: Result<Vec<TanukiToken>, ErrorAt>)
    requires
        old(reader).wf(),
        forall|t: Vec<char>, b: u32| parse_float.requires((t, b)),
    ensures
        final(reader).advanced_from(old(reader)),
        r is Ok ==> final(reader).spec_next() is None,
        r matches Ok(tokens) ==> final(reader).spec_position() == token_start(
            old(reader).spec_bytes(),
            tokens_end(old(reader).spec_bytes(), old(reader).spec_position(), token_variants(tokens@)),
        ),
        r matches Ok(tokens) ==> forall|i: int| 0 <= i < tokens@.len() ==> token_starts_at(
            old(reader).spec_bytes(),
            token_start(old(reader).spec_bytes(), tokens_end(old(reader).spec_bytes(), old(reader).spec_position(), token_variants(tokens@).take(i))),
            #[trigger] tokens@[i].variant,
        ),
        r matches Ok(tokens) ==> forall|i: int| 0 <= i < tokens@.len() ==> place_at(
            old(reader).spec_bytes(),
            token_start(old(reader).spec_bytes(), tokens_end(old(reader).spec_bytes(), old(reader).spec_position(), token_variants(tokens@).take(i))),
        ) == Some(((#[trigger] tokens@[i]).start_line as int, tokens@[i].start_column as int)),
        next_item(old(reader).spec_bytes(), token_start(old(reader).spec_bytes(), old(reader).spec_position())) is None ==> (
        r matches Ok(tokens) && tokens@.len() == 0),
        readable_source_from(old(reader).spec_bytes(), old(reader).spec_position()) ==> r is Ok,
{
    let mut tokens: Vec<TanukiToken> = Vec::new();
    loop
        invariant
            reader.advanced_from(old(reader)),
            forall|t: Vec<char>, b: u32| parse_float.requires((t, b)),
            reader.spec_position() == tokens_end(old(reader).spec_bytes(), old(reader).spec_position(), token_variants(tokens@)),
            next_item(old(reader).spec_bytes(), token_start(old(reader).spec_bytes(), old(reader).spec_position())) is None ==> tokens@.len() == 0,
            readable_source_from(old(reader).spec_bytes(), old(reader).spec_position()) ==> readable_source_from(
                reader.spec_bytes(),
                reader.spec_position(),
            ),
            forall|i: int| 0 <= i < tokens@.len() ==> token_starts_at(
                old(reader).spec_bytes(),
                token_start(old(reader).spec_bytes(), tokens_end(old(reader).spec_bytes(), old(reader).spec_position(), token_variants(tokens@).take(i))),
                #[trigger] tokens@[i].variant,
            ),
            forall|i: int| 0 <= i < tokens@.len() ==> place_at(
                old(reader).spec_bytes(),
                token_start(old(reader).spec_bytes(), tokens_end(old(reader).spec_bytes(), old(reader).spec_position(), token_variants(tokens@).take(i))),
            ) == Some(((#[trigger] tokens@[i]).start_line as int, tokens@[i].start_column as int)),
        decreases reader.spec_bytes().len() - reader.spec_position(),
    {
        let ghost here = reader.spec_position();
        match tokenize_token(reader, parse_float)? {
            Some(token) => {
                let ghost before = tokens@;
                tokens.push(token);
                proof {
                    let vs = token_variants(tokens@);
                    assert(vs.drop_last() =~= token_variants(before));
                    assert forall|i: int| 0 <= i < before.len() implies vs.take(i) =~= token_variants(before).take(i) by {}
                    assert(vs.take(before.len() as int) =~= token_variants(before));
                }
            },
            None => return Ok(tokens),
        }
    }
}

} // verus!
