//! Branflakes, a language of eight one-char commands on a tape of bytes: its tokens, parser,
//! interpreter and compilation to C.
use vstd::prelude::*;

use crate::error::{Error, ErrorAt};
use crate::programming_languages::c::expression::{binary_text, CExpression};
use crate::programming_languages::c::l_value::CLValue;
use crate::programming_languages::c::module::CModule;
use crate::programming_languages::c::module_element::{CFunctionParameter, CModuleElement};
use crate::programming_languages::c::statement::{render_statement_lines, CCompoundStatement, CInitializer, CStatement};
use crate::programming_languages::c::types::CType;
use crate::text::{push_str, str_to_chars};
use crate::programming_languages::c::{concat, lemma_concat_take};
use crate::programming_languages::c::{block_body, join, tabs};
use crate::text::int_decimal;
use crate::source_file_reader::{next_item, SourceFileReader};
use crate::token_reader::TokenReader;
use crate::traits::ast_node::{deeper, node_line, push_node_line, AstNode};
use crate::traits::token::{position_text, push_position, Token};
use crate::traits::virtual_machine::VirtualMachine;

verus! {

/// The Branflakes language.
#[derive(Debug)]
pub struct Branflakes;

#[derive(Debug, Clone, Copy, PartialEq, Eq, Structural)]
pub enum BranflakesTokenVariant {
    /// Wrapping increment the byte pointed to by the data pointer.
    Increment,
    /// Wrapping decrement the byte pointed to by the data pointer.
    Decrement,
    /// Increment the data pointer.
    IncrementPointer,
    /// Decrement the data pointer.
    DecrementPointer,
    /// Print out the byte pointed to by the data pointer.
    Print,
    /// Get a single char from the input buffer, write it to the byte pointed to by the data pointer.
    Input,
    /// The start of a loop. Will jump to the matching loop end if the byte pointed to by the data pointer is zero.
    LoopStart,
    /// The end of a loop. Will jump to the matching loop start if the byte pointed to by the data pointer is non-zero.
    LoopEnd,
}

/// A single Branflakes token read from a single source char.
#[derive(Debug, Clone, Copy)]
pub struct BranflakesToken {
    pub variant: BranflakesTokenVariant,
    pub line: usize,
    pub column: usize,
}

impl Token for BranflakesToken {
    open spec fn spec_start_line(&self) -> Option<usize> {
        Some(self.line)
    }

    open spec fn spec_end_line(&self) -> Option<usize> {
        Some(self.line)
    }

    open spec fn spec_start_column(&self) -> Option<usize> {
        Some(self.column)
    }

    open spec fn spec_end_column(&self) -> Option<usize> {
        Some(if self.column < usize::MAX { (self.column + 1) as usize } else { self.column })
    }

    fn start_line(&self) -> (r: Option<usize>) {
        Some(self.line)
    }

    fn end_line(&self) -> (r: Option<usize>) {
        Some(self.line)
    }

    fn start_column(&self) -> (r: Option<usize>) {
        Some(self.column)
    }

    fn end_column(&self) -> (r: Option<usize>) {
        Some(self.column.saturating_add(1))
    }
}

impl BranflakesTokenVariant {
    /// The command char of a token: `+`, `-`, `>`, `<`, `.`, `,`, `[` and `]`.
    pub open spec fn command_char(&self) -> char {
        match self {
            BranflakesTokenVariant::Increment => '+',
            BranflakesTokenVariant::Decrement => '-',
            BranflakesTokenVariant::IncrementPointer => '>',
            BranflakesTokenVariant::DecrementPointer => '<',
            BranflakesTokenVariant::Print => '.',
            BranflakesTokenVariant::Input => ',',
            BranflakesTokenVariant::LoopStart => '[',
            BranflakesTokenVariant::LoopEnd => ']',
        }
    }

    /// Each command is read from exactly its own char: its command char is read as it, and a char
    /// read as a command is that command's char; every other char is skipped.
    pub proof fn law_commands_read_from_their_chars(self, c: char)
        ensures
            token_of_char(self.command_char()) == Some(self),
            token_of_char(c) == Some(self) ==> c == self.command_char(),
    {
    }
}

/// The token a source char is read as, if it is one of the eight command chars.
pub open spec fn token_of_char(c: char) -> Option<BranflakesTokenVariant> {
    if c == '+' {
        Some(BranflakesTokenVariant::Increment)
    } else if c == '-' {
        Some(BranflakesTokenVariant::Decrement)
    } else if c == '>' {
        Some(BranflakesTokenVariant::IncrementPointer)
    } else if c == '<' {
        Some(BranflakesTokenVariant::DecrementPointer)
    } else if c == '.' {
        Some(BranflakesTokenVariant::Print)
    } else if c == ',' {
        Some(BranflakesTokenVariant::Input)
    } else if c == '[' {
        Some(BranflakesTokenVariant::LoopStart)
    } else if c == ']' {
        Some(BranflakesTokenVariant::LoopEnd)
    } else {
        None
    }
}

fn token_variant_of_char(c: char) -> (r: Option<BranflakesTokenVariant>)
    ensures
        r == token_of_char(c),
{
    if c == '+' {
        Some(BranflakesTokenVariant::Increment)
    } else if c == '-' {
        Some(BranflakesTokenVariant::Decrement)
    } else if c == '>' {
        Some(BranflakesTokenVariant::IncrementPointer)
    } else if c == '<' {
        Some(BranflakesTokenVariant::DecrementPointer)
    } else if c == '.' {
        Some(BranflakesTokenVariant::Print)
    } else if c == ',' {
        Some(BranflakesTokenVariant::Input)
    } else if c == '[' {
        Some(BranflakesTokenVariant::LoopStart)
    } else if c == ']' {
        Some(BranflakesTokenVariant::LoopEnd)
    } else {
        None
    }
}

/// Whether the char at byte `p` is a command read as a token, the bytes after it starting at `end`.
pub open spec fn command_read_at(bytes: Seq<u8>, p: int, end: int, variant: BranflakesTokenVariant) -> bool {
    next_item(bytes, p) matches Some((Some(c), q)) && q == end && token_of_char(c) == Some(variant)
}

/// The next command read from byte `p` on, other chars skipped, with where reading stops after
/// it: `Ok(None)` where the chars end first, `Err` where bytes that are no char come first.
pub open spec fn command_scan(bytes: Seq<u8>, p: int) -> Result<Option<(BranflakesTokenVariant, int)>, ()>
    decreases bytes.len() - p,
{
    match next_item(bytes, p) {
        None => Ok(None),
        Some((None, _)) => Err(()),
        Some((Some(c), q)) => if p < q <= bytes.len() {
            match token_of_char(c) {
                Some(v) => Ok(Some((v, q))),
                None => command_scan(bytes, q),
            }
        } else {
            Err(())
        },
    }
}

/// The commands read from byte `p` to the end, or `None` where bytes that are no char come first.
pub open spec fn commands_from(bytes: Seq<u8>, p: int) -> Option<Seq<BranflakesTokenVariant>>
    decreases bytes.len() - p,
{
    match command_scan(bytes, p) {
        Ok(None) => Some(Seq::empty()),
        Ok(Some((v, e))) => if p < e <= bytes.len() {
            match commands_from(bytes, e) {
                Some(rest) => Some(seq![v] + rest),
                None => None,
            }
        } else {
            None
        },
        Err(_) => None,
    }
}

/// What a Branflakes statement does.
#[derive(Debug)]
pub enum BranflakesStatementVariant {
    /// Wrapping increment the byte pointed to by the data pointer.
    Increment,
    /// Wrapping decrement the byte pointed to by the data pointer.
    Decrement,
    /// Increment the data pointer.
    IncrementPointer,
    /// Decrement the data pointer.
    DecrementPointer,
    /// Print out the byte pointed to by the data pointer.
    Print,
    /// Get a single char from the input buffer, write it to the byte pointed to by the data pointer.
    Input,
    /// A loop. The loop's content will be executed repeatedly until the byte pointed to by the data pointer is zero.
    Loop(Vec<BranflakesStatement>),
}

/// A Branflakes statement with where it starts and ends in the source.
#[derive(Debug)]
pub struct BranflakesStatement {
    pub variant: BranflakesStatementVariant,
    pub start_line: usize,
    pub start_column: usize,
    pub end_line: usize,
    pub end_column: usize,
}

/// An entire parsed file.
#[derive(Debug)]
pub struct BranflakesModule {
    pub statements: Vec<BranflakesStatement>,
}

/// The variants of a sequence of tokens.
pub open spec fn token_variants(ts: Seq<BranflakesToken>) -> Seq<BranflakesTokenVariant> {
    Seq::new(ts.len(), |i: int| ts[i].variant)
}

/// Token sequences one after the other.
pub open spec fn flatten_tokens(parts: Seq<Seq<BranflakesTokenVariant>>) -> Seq<BranflakesTokenVariant>
    decreases parts.len(),
{
    if parts.len() == 0 {
        Seq::empty()
    } else {
        flatten_tokens(parts.drop_last()) + parts.last()
    }
}

impl BranflakesStatement {
    /// The tokens a statement is written with: its command, or a loop's brackets around its content's tokens.
    pub open spec fn tokens(&self) -> Seq<BranflakesTokenVariant>
        decreases self,
    {
        match &self.variant {
            BranflakesStatementVariant::Increment => seq![BranflakesTokenVariant::Increment],
            BranflakesStatementVariant::Decrement => seq![BranflakesTokenVariant::Decrement],
            BranflakesStatementVariant::IncrementPointer => seq![BranflakesTokenVariant::IncrementPointer],
            BranflakesStatementVariant::DecrementPointer => seq![BranflakesTokenVariant::DecrementPointer],
            BranflakesStatementVariant::Print => seq![BranflakesTokenVariant::Print],
            BranflakesStatementVariant::Input => seq![BranflakesTokenVariant::Input],
            BranflakesStatementVariant::Loop(sub_statements) => seq![BranflakesTokenVariant::LoopStart] + flatten_tokens(
                statements_token_parts(sub_statements@),
            ) + seq![BranflakesTokenVariant::LoopEnd],
        }
    }
}

/// The tokens of each of a sequence of statements.
pub open spec fn statements_token_parts(ss: Seq<BranflakesStatement>) -> Seq<Seq<BranflakesTokenVariant>>
    decreases ss,
{
    Seq::new(ss.len(), |i: int| if 0 <= i < ss.len() { ss[i].tokens() } else { Seq::empty() })
}

/// The tokens a sequence of statements is written with.
pub open spec fn statements_tokens(ss: Seq<BranflakesStatement>) -> Seq<BranflakesTokenVariant> {
    flatten_tokens(statements_token_parts(ss))
}

/// Whether the loop brackets of tokens match, read from an open depth: where `closing`, a loop
/// end at depth 0 comes (what follows it does not matter); else every loop end closes an open
/// loop and no loop is open at the end.
pub open spec fn brackets_match(ts: Seq<BranflakesTokenVariant>, depth: nat, closing: bool) -> bool
    decreases ts.len(),
{
    if ts.len() == 0 {
        !closing && depth == 0
    } else if ts[0] == BranflakesTokenVariant::LoopStart {
        brackets_match(ts.drop_first(), depth + 1, closing)
    } else if ts[0] == BranflakesTokenVariant::LoopEnd {
        if depth == 0 {
            closing
        } else {
            brackets_match(ts.drop_first(), (depth - 1) as nat, closing)
        }
    } else {
        brackets_match(ts.drop_first(), depth, closing)
    }
}

/// One more open loop makes brackets that match close at the depth below.
proof fn lemma_deeper_closes(ts: Seq<BranflakesTokenVariant>, depth: nat, closing: bool)
    requires
        brackets_match(ts, depth + 1, closing),
    ensures
        brackets_match(ts, depth, true),
    decreases ts.len(),
{
    if ts.len() > 0 {
        if ts[0] == BranflakesTokenVariant::LoopStart {
            lemma_deeper_closes(ts.drop_first(), depth + 1, closing);
        } else if ts[0] == BranflakesTokenVariant::LoopEnd {
            if depth > 0 {
                lemma_deeper_closes(ts.drop_first(), (depth - 1) as nat, closing);
            }
        } else {
            lemma_deeper_closes(ts.drop_first(), depth, closing);
        }
    }
}

/// The tokens of a statement leave the depth where it was.
proof fn lemma_statement_brackets(s: BranflakesStatement, rest: Seq<BranflakesTokenVariant>, depth: nat, closing: bool)
    ensures
        brackets_match(s.tokens() + rest, depth, closing) == brackets_match(rest, depth, closing),
    decreases s, 0nat,
{
    match &s.variant {
        BranflakesStatementVariant::Loop(sub_statements) => {
            let inner = statements_tokens(sub_statements@);
            let all = s.tokens() + rest;
            assert(decreases_to!(s => s.variant));
            assert(decreases_to!(s.variant => *sub_statements));
            assert(decreases_to!(*sub_statements => sub_statements@));
            lemma_statements_brackets(sub_statements@, seq![BranflakesTokenVariant::LoopEnd] + rest, depth + 1, closing);
            assert(all.drop_first() =~= inner + (seq![BranflakesTokenVariant::LoopEnd] + rest));
            let end_rest = seq![BranflakesTokenVariant::LoopEnd] + rest;
            assert(end_rest.drop_first() =~= rest);
        },
        _ => {
            assert((s.tokens() + rest).drop_first() =~= rest);
        },
    }
}

/// The tokens of statements leave the depth where it was.
proof fn lemma_statements_brackets(ss: Seq<BranflakesStatement>, rest: Seq<BranflakesTokenVariant>, depth: nat, closing: bool)
    ensures
        brackets_match(statements_tokens(ss) + rest, depth, closing) == brackets_match(rest, depth, closing),
    decreases ss, 1nat,
{
    if ss.len() == 0 {
        assert(statements_tokens(ss) + rest =~= rest);
    } else {
        let front = ss.subrange(0, ss.len() - 1);
        let last = ss[ss.len() - 1];
        let parts = statements_token_parts(ss);
        assert(parts.drop_last() =~= statements_token_parts(front));
        assert(statements_tokens(ss) == statements_tokens(front) + last.tokens());
        assert(statements_tokens(ss) + rest =~= statements_tokens(front) + (last.tokens() + rest));
        lemma_statements_brackets(front, last.tokens() + rest, depth, closing);
        lemma_statement_brackets(last, rest, depth, closing);
    }
}

impl Branflakes {
    /// Reads chars until one of the eight command chars and returns its token, with the line and
    /// column it was read at. Other chars are skipped. Returns `Ok(None)` at the end of the source.
    pub fn tokenize_next_token(reader: &mut SourceFileReader) -> (r: Result<Option<BranflakesToken>, ErrorAt>)
        requires
            old(reader).wf(),
        ensures
            final(reader).advanced_from(old(reader)),
            r matches Ok(None) ==> final(reader).spec_next() is None,
            r matches Ok(Some(t)) ==> {
                &&& old(reader).spec_position() < final(reader).spec_position()
                &&& exists|p: int| old(reader).spec_position() <= p < final(reader).spec_position()
                    && #[trigger] command_read_at(final(reader).spec_bytes(), p, final(reader).spec_position(), t.variant)
            },
            match command_scan(old(reader).spec_bytes(), old(reader).spec_position()) {
                Ok(None) => r matches Ok(None),
                Ok(Some((v, e))) => r matches Ok(Some(t)) && t.variant == v && final(reader).spec_position() == e,
                Err(_) => r is Err,
            },
    {
        loop
            invariant
                reader.advanced_from(old(reader)),
                command_scan(reader.spec_bytes(), reader.spec_position()) == command_scan(
                    old(reader).spec_bytes(),
                    old(reader).spec_position(),
                ),
            decreases reader.spec_bytes().len() - reader.spec_position(),
        {
            let line = reader.get_line();
            let column = reader.get_column();
            let ghost p = reader.spec_position();
            match reader.read_char()? {
                Some(c) => {
                    match token_variant_of_char(c) {
                        Some(variant) => {
                            assert(command_read_at(reader.spec_bytes(), p, reader.spec_position(), variant));
                            return Ok(Some(BranflakesToken { variant, line, column }));
                        },
                        None => {},
                    }
                },
                None => return Ok(None),
            }
        }
    }

    /// Reads all tokens of a source.
    pub fn tokenize(reader: &mut SourceFileReader) -> (r: Result<Vec<BranflakesToken>, ErrorAt>)
        requires
            old(reader).wf(),
        ensures
            final(reader).advanced_from(old(reader)),
            r is Ok ==> final(reader).spec_next() is None,
            match commands_from(old(reader).spec_bytes(), old(reader).spec_position()) {
                Some(commands) => r matches Ok(tokens) && token_variants(tokens@) == commands,
                None => r is Err,
            },
    {
        let mut tokens: Vec<BranflakesToken> = Vec::new();
        loop
            invariant
                reader.advanced_from(old(reader)),
                commands_from(old(reader).spec_bytes(), old(reader).spec_position()) == match commands_from(
                    reader.spec_bytes(),
                    reader.spec_position(),
                ) {
                    Some(rest) => Some(token_variants(tokens@) + rest),
                    None => None,
                },
            decreases reader.spec_bytes().len() - reader.spec_position(),
        {
            let ghost before = tokens@;
            let ghost here = reader.spec_position();
            match Branflakes::tokenize_next_token(reader)? {
                Some(token) => {
                    tokens.push(token);
                    proof {
                        assert(token_variants(tokens@) =~= token_variants(before) + seq![token.variant]);
                        if let Some(rest) = commands_from(reader.spec_bytes(), reader.spec_position()) {
                            assert(token_variants(before) + (seq![token.variant] + rest) =~= token_variants(tokens@) + rest);
                        }
                    }
                },
                None => {
                    proof {
                        assert(token_variants(tokens@) + Seq::<BranflakesTokenVariant>::empty() =~= token_variants(tokens@));
                    }
                    return Ok(tokens);
                },
            }
        }
    }

    /// Parses a single statement from tokens, a loop with the statements inside it included.
    /// Returns `Ok(None)` at a loop end (which is taken) when parsing inside a loop, and at the
    /// end of the tokens when not.
    pub fn parse_statement(token_reader: &mut TokenReader<BranflakesToken>, is_parenthesised: bool) -> (r: Result<
        Option<BranflakesStatement>,
        ErrorAt,
    >)
        requires
            old(token_reader).wf(),
        ensures
            final(token_reader).wf(),
            final(token_reader).remaining().len() <= old(token_reader).remaining().len(),
            r matches Ok(None) ==> if is_parenthesised {
                &&& old(token_reader).remaining().len() > 0
                &&& old(token_reader).remaining()[0].variant == BranflakesTokenVariant::LoopEnd
                &&& final(token_reader).remaining() == old(token_reader).remaining().drop_first()
            } else {
                old(token_reader).remaining().len() == 0
            },
            r matches Ok(Some(s)) ==> token_variants(old(token_reader).remaining()) == s.tokens() + token_variants(
                final(token_reader).remaining(),
            ),
            r matches Err(e) ==> (e.error is MoreOpeningParenthesesThanClosingParentheses || (
                e.error is MoreClosingParenthesesThanOpeningParentheses && !is_parenthesised
                    && token_variants(old(token_reader).remaining())[0] == BranflakesTokenVariant::LoopEnd)),
            r is Err ==> !brackets_match(token_variants(old(token_reader).remaining()), 0, is_parenthesised),
            r matches Ok(Some(st)) ==> st.start_line == old(token_reader).remaining()[0].line && st.start_column == old(
                token_reader,
            ).remaining()[0].column,
            r matches Err(e) ==> (e.error is MoreClosingParenthesesThanOpeningParentheses ==> e.line == Some(
                old(token_reader).remaining()[0].line,
            ) && e.column == Some(old(token_reader).remaining()[0].column)),
            r matches Ok(Some(st)) ==> st.end_line == (match final(token_reader).spec_last_end_line() {
                Some(l) => l,
                None => 1,
            }) && st.end_column == (match final(token_reader).spec_last_end_column() {
                Some(c) => c,
                None => 1,
            }),
            old(token_reader).remaining().len() == 0 && is_parenthesised ==> (r matches Err(e)
                && e.error is MoreOpeningParenthesesThanClosingParentheses && e.line == Some(
                match old(token_reader).spec_last_end_line() {
                    Some(l) => l,
                    None => 1,
                },
            ) && e.column == Some(
                match old(token_reader).spec_last_end_column() {
                    Some(c) => c,
                    None => 1,
                },
            )),
        decreases old(token_reader).remaining().len(), 0int,
    {
        let token = match token_reader.next() {
            None => {
                if is_parenthesised {
                    return Err(
                        Error::MoreOpeningParenthesesThanClosingParentheses.at(
                            Some(token_reader.last_token_end_line()),
                            Some(token_reader.last_token_end_column()),
                            None,
                        ),
                    );
                }
                return Ok(None);
            },
            Some(token) => *token,
        };
        let ghost after_token = token_reader.remaining();
        let variant = match token.variant {
            BranflakesTokenVariant::Increment => BranflakesStatementVariant::Increment,
            BranflakesTokenVariant::Decrement => BranflakesStatementVariant::Decrement,
            BranflakesTokenVariant::IncrementPointer => BranflakesStatementVariant::IncrementPointer,
            BranflakesTokenVariant::DecrementPointer => BranflakesStatementVariant::DecrementPointer,
            BranflakesTokenVariant::Print => BranflakesStatementVariant::Print,
            BranflakesTokenVariant::Input => BranflakesStatementVariant::Input,
            BranflakesTokenVariant::LoopStart => {
                let sub_statements = match Branflakes::parse_statements(token_reader, true) {
                    Ok(ss) => ss,
                    Err(e) => {
                        proof {
                            let old_ts = token_variants(old(token_reader).remaining());
                            assert(old_ts.drop_first() =~= token_variants(after_token));
                            if brackets_match(token_variants(after_token), 1, is_parenthesised) {
                                lemma_deeper_closes(token_variants(after_token), 0, is_parenthesised);
                            }
                        }
                        return Err(e);
                    },
                };
                BranflakesStatementVariant::Loop(sub_statements)
            },
            BranflakesTokenVariant::LoopEnd => {
                if !is_parenthesised {
                    return Err(Error::MoreClosingParenthesesThanOpeningParentheses.at(Some(token.line), Some(token.column), None));
                }
                return Ok(None);
            },
        };
        let statement = BranflakesStatement {
            variant,
            start_line: token.line,
            start_column: token.column,
            end_line: token_reader.last_token_end_line(),
            end_column: token_reader.last_token_end_column(),
        };
        proof {
            let old_ts = token_variants(old(token_reader).remaining());
            assert(old_ts =~= seq![token.variant] + token_variants(after_token));
            assert(old_ts =~= statement.tokens() + token_variants(token_reader.remaining()));
        }
        Ok(Some(statement))
    }

    /// Parses statements until a loop end (which is taken) when parsing inside a loop, or until
    /// the end of the tokens when not.
    pub fn parse_statements(token_reader: &mut TokenReader<BranflakesToken>, is_parenthesised: bool) -> (r: Result<
        Vec<BranflakesStatement>,
        ErrorAt,
    >)
        requires
            old(token_reader).wf(),
        ensures
            final(token_reader).wf(),
            final(token_reader).remaining().len() <= old(token_reader).remaining().len(),
            r matches Ok(ss) ==> if is_parenthesised {
                token_variants(old(token_reader).remaining()) == statements_tokens(ss@) + seq![BranflakesTokenVariant::LoopEnd]
                    + token_variants(final(token_reader).remaining())
            } else {
                &&& token_variants(old(token_reader).remaining()) == statements_tokens(ss@)
                &&& final(token_reader).remaining().len() == 0
            },
            r matches Err(e) ==> (e.error is MoreOpeningParenthesesThanClosingParentheses || (
                e.error is MoreClosingParenthesesThanOpeningParentheses && !is_parenthesised)),
            r is Err ==> !brackets_match(token_variants(old(token_reader).remaining()), 0, is_parenthesised),
        decreases old(token_reader).remaining().len(), 1int,
    {
        let mut statements: Vec<BranflakesStatement> = Vec::new();
        loop
            invariant
                token_reader.wf(),
                token_reader.remaining().len() <= old(token_reader).remaining().len(),
                token_variants(old(token_reader).remaining()) == statements_tokens(statements@) + token_variants(
                    token_reader.remaining(),
                ),
            decreases token_reader.remaining().len(),
        {
            let ghost before = token_reader.remaining();
            let parsed = match Branflakes::parse_statement(token_reader, is_parenthesised) {
                Ok(p) => p,
                Err(e) => {
                    proof {
                        lemma_statements_brackets(statements@, token_variants(before), 0, is_parenthesised);
                    }
                    return Err(e);
                },
            };
            match parsed {
                None => {
                    proof {
                        if is_parenthesised {
                            assert(token_variants(before) =~= seq![BranflakesTokenVariant::LoopEnd] + token_variants(
                                token_reader.remaining(),
                            ));
                        } else {
                            assert(token_variants(before) =~= Seq::<BranflakesTokenVariant>::empty());
                        }
                    }
                    return Ok(statements);
                },
                Some(statement) => {
                    proof {
                        let parts = statements_token_parts(statements@.push(statement));
                        assert(parts.drop_last() =~= statements_token_parts(statements@));
                        assert(parts.last() == statement.tokens());
                    }
                    statements.push(statement);
                },
            }
        }
    }

    /// Parses the tokens of a module.
    pub fn parse_tokens(token_reader: &mut TokenReader<BranflakesToken>) -> (r: Result<BranflakesModule, ErrorAt>)
        requires
            old(token_reader).wf(),
        ensures
            r matches Ok(m) ==> token_variants(old(token_reader).remaining()) == statements_tokens(m.statements@),
            r is Ok <==> brackets_match(token_variants(old(token_reader).remaining()), 0, false),
    {
        let statements = Branflakes::parse_statements(token_reader, false)?;
        proof {
            lemma_statements_brackets(statements@, Seq::empty(), 0, false);
            assert(statements_tokens(statements@) + Seq::<BranflakesTokenVariant>::empty() =~= statements_tokens(statements@));
        }
        Ok(BranflakesModule { statements })
    }
}


/// The byte at a place of a tape held as a sequence: 0 past its end.
pub open spec fn tape_cell(memory: Seq<u8>, i: int) -> u8 {
    if 0 <= i < memory.len() {
        memory[i]
    } else {
        0
    }
}

/// The machine that executes Branflakes code in interpreted mode.
#[derive(Debug)]
pub struct BranflakesVirtualMachine {
    /// The cells written so far; the cells after them hold 0.
    pub memory: Vec<u8>,
    /// The data pointer, an index into `memory`.
    pub data_pointer: usize,
    /// The input line not taken yet, with its chars reversed, or `None` when a line must be read.
    pub input: Option<Vec<char>>,
}

impl BranflakesVirtualMachine {
    /// The byte pointed to by the data pointer.
    pub open spec fn current(&self) -> u8 {
        tape_cell(self.memory@, self.data_pointer as int)
    }

    /// A machine with all cells 0, the data pointer at 0 and no input.
    pub fn new() -> (r: Self)
        ensures
            r.memory@ == Seq::<u8>::empty(),
            r.data_pointer == 0,
            r.input is None,
    {
        BranflakesVirtualMachine { memory: Vec::new(), data_pointer: 0, input: None }
    }

    /// Reads the byte pointed to by the data pointer: 0 when the memory does not reach it.
    pub fn read(&self) -> (r: u8)
        ensures
            r == self.current(),
    {
        if self.data_pointer < self.memory.len() {
            self.memory[self.data_pointer]
        } else {
            0
        }
    }

    /// Writes to the byte pointed to by the data pointer, first growing the memory with zero bytes
    /// when it does not reach it.
    pub fn write(&mut self, value: u8)
        requires
            old(self).data_pointer < usize::MAX,
        ensures
            final(self).data_pointer == old(self).data_pointer,
            final(self).input == old(self).input,
            final(self).memory@.len() == if old(self).memory@.len() <= old(self).data_pointer {
                old(self).data_pointer + 1
            } else {
                old(self).memory@.len() as int
            },
            forall|i: int| #[trigger] tape_cell(final(self).memory@, i) == if i == old(self).data_pointer {
                value
            } else {
                tape_cell(old(self).memory@, i)
            },
    {
        while self.memory.len() <= self.data_pointer
            invariant
                self.data_pointer == old(self).data_pointer,
                self.input == old(self).input,
                self.data_pointer < usize::MAX,
                old(self).memory@.len() <= self.memory@.len() <= if old(self).memory@.len() <= old(self).data_pointer {
                    old(self).data_pointer + 1
                } else {
                    old(self).memory@.len() as int
                },
                forall|i: int| 0 <= i < old(self).memory@.len() ==> #[trigger] self.memory@[i] == old(self).memory@[i],
                forall|i: int| old(self).memory@.len() <= i < self.memory@.len() ==> #[trigger] self.memory@[i] == 0,
            decreases self.data_pointer + 1 - self.memory@.len(),
        {
            self.memory.push(0);
        }
        self.memory.set(self.data_pointer, value);
        proof {
            assert forall|i: int| #[trigger] tape_cell(self.memory@, i) == if i == old(self).data_pointer {
                value
            } else {
                tape_cell(old(self).memory@, i)
            } by {
                if 0 <= i < old(self).memory@.len() && i != old(self).data_pointer {
                    assert(self.memory@[i] == old(self).memory@[i]);
                }
            }
        }
    }

    /// Takes a line of input; its chars are then read one per input command.
    pub fn set_input(&mut self, line: &Vec<char>)
        ensures
            final(self).memory == old(self).memory,
            final(self).data_pointer == old(self).data_pointer,
            final(self).input matches Some(v) && v@ == line@.reverse(),
    {
        let mut reversed: Vec<char> = Vec::new();
        let mut i: usize = line.len();
        while i > 0
            invariant
                i <= line@.len(),
                reversed@ == line@.subrange(i as int, line@.len() as int).reverse(),
            decreases i,
        {
            i = i - 1;
            reversed.push(line[i]);
            proof {
                assert(reversed@ =~= line@.subrange(i as int, line@.len() as int).reverse());
            }
        }
        proof {
            assert(line@.subrange(0, line@.len() as int) =~= line@);
        }
        self.input = Some(reversed);
    }
}

/// What one step of interpreted execution asks of its caller.
#[derive(Debug, Clone, Copy, PartialEq, Eq, Structural)]
pub enum BranflakesStep {
    /// Nothing: the next step can be run.
    Continue,
    /// Print the byte as an ASCII char, then run the next step.
    Print(u8),
    /// Read a line and give it to the machine with `set_input`, then run the next step.
    NeedInput,
    /// The program has ended.
    Finished,
}

/// The statements inside the loops that a path of positions leads to, or `None` when a position
/// on the path is no loop.
pub open spec fn statements_at(ss: Seq<BranflakesStatement>, path: Seq<usize>) -> Option<Seq<BranflakesStatement>>
    decreases path.len(),
{
    if path.len() == 0 {
        Some(ss)
    } else {
        match statements_at(ss, path.drop_last()) {
            Some(t) => loop_body(t, path.last() as int),
            None => None,
        }
    }
}

/// The statements inside the loop at a position, if a loop is there.
pub open spec fn loop_body(t: Seq<BranflakesStatement>, i: int) -> Option<Seq<BranflakesStatement>> {
    if 0 <= i < t.len() {
        match &t[i].variant {
            BranflakesStatementVariant::Loop(sub_statements) => Some(sub_statements@),
            _ => None,
        }
    } else {
        None
    }
}

/// Where interpreted execution of a program is: a position in the top level statements, then a
/// position inside each loop being run. A position may be one past the last statement.
#[derive(Debug)]
pub struct BranflakesExecution {
    pub cursor: Vec<usize>,
}

impl BranflakesExecution {
    /// The cursor leads through loops to a position within (or just after) their statements.
    pub open spec fn valid(&self, program: Seq<BranflakesStatement>) -> bool {
        &&& self.cursor@.len() > 0
        &&& statements_at(program, self.cursor@.drop_last()) matches Some(t) && self.cursor@.last() <= t.len()
    }

    /// The statements that the last position of the cursor is in.
    pub open spec fn current_statements(&self, program: Seq<BranflakesStatement>) -> Seq<BranflakesStatement> {
        statements_at(program, self.cursor@.drop_last()).unwrap()
    }

    /// Whether the cursor is just after the last of the statements it is in.
    pub open spec fn at_end(&self, program: Seq<BranflakesStatement>) -> bool {
        self.cursor@.last() == self.current_statements(program).len()
    }

    /// The statement the cursor is at.
    pub open spec fn current_statement(&self, program: Seq<BranflakesStatement>) -> BranflakesStatement {
        self.current_statements(program)[self.cursor@.last() as int]
    }

    /// The start of a program.
    pub fn new() -> (r: Self)
        ensures
            r.cursor@ == seq![0usize],
    {
        let mut cursor: Vec<usize> = Vec::new();
        cursor.push(0);
        BranflakesExecution { cursor }
    }

    /// The statements inside the loops that the first `k` positions of the cursor lead to.
    fn statements_on_path<'a>(program: &'a Vec<BranflakesStatement>, path: &Vec<usize>, k: usize) -> (r: Option<&'a Vec<BranflakesStatement>>)
        requires
            k <= path@.len(),
        ensures
            match statements_at(program@, path@.take(k as int)) {
                Some(t) => r matches Some(v) && v@ == t,
                None => r is None,
            },
    {
        let mut current: &'a Vec<BranflakesStatement> = program;
        let mut j: usize = 0;
        proof {
            assert(path@.take(0) =~= Seq::<usize>::empty());
        }
        while j < k
            invariant
                j <= k <= path@.len(),
                statements_at(program@, path@.take(j as int)) == Some(current@),
            decreases k - j,
        {
            let i = path[j];
            proof {
                assert(path@.take(j + 1).drop_last() =~= path@.take(j as int));
                assert(path@.take(j + 1).last() == i);
            }
            if i >= current.len() {
                proof {
                    lemma_statements_at_none_extends(program@, path@, j as int + 1, k as int);
                }
                return None;
            }
            match &current[i].variant {
                BranflakesStatementVariant::Loop(sub_statements) => {
                    current = sub_statements;
                },
                _ => {
                    proof {
                        lemma_statements_at_none_extends(program@, path@, j as int + 1, k as int);
                    }
                    return None;
                },
            }
            j = j + 1;
        }
        Some(current)
    }

    /// Runs one step of the program on the machine: a command, the test of a loop's condition on
    /// entering it or at the end of its statements, or a request to print or for input. An error
    /// comes when the data pointer would go below 0 or above the largest index, or when a printed
    /// byte is no ASCII char.
    pub fn step(&mut self, program: &Vec<BranflakesStatement>, vm: &mut BranflakesVirtualMachine) -> (r: Result<BranflakesStep, ErrorAt>)
        requires
            old(self).valid(program@),
        ensures
            r is Ok ==> final(self).valid(program@),
            r is Err ==> *final(vm) == *old(vm) && final(self).cursor@ == old(self).cursor@,
            old(self).at_end(program@) && old(self).cursor@.len() == 1 ==> r == Ok::<BranflakesStep, ErrorAt>(BranflakesStep::Finished)
                && final(self).cursor@ == old(self).cursor@ && *final(vm) == *old(vm),
            old(self).at_end(program@) && old(self).cursor@.len() > 1 && old(vm).current() != 0 ==> r == Ok::<BranflakesStep, ErrorAt>(
                BranflakesStep::Continue,
            ) && final(self).cursor@ == old(self).cursor@.update(old(self).cursor@.len() - 1, 0usize) && *final(vm) == *old(vm),
            old(self).at_end(program@) && old(self).cursor@.len() > 1 && old(vm).current() == 0 ==> r == Ok::<BranflakesStep, ErrorAt>(
                BranflakesStep::Continue,
            ) && final(self).cursor@ == advance_last(old(self).cursor@.drop_last()) && *final(vm) == *old(vm),
            !old(self).at_end(program@) ==> match &old(self).current_statement(program@).variant {
                BranflakesStatementVariant::IncrementPointer => if old(vm).data_pointer == usize::MAX {
                    r matches Err(e) && e.error is IntegerOverflow && old(self).current_statement(program@).is_place_of(e)
                } else {
                    r == Ok::<BranflakesStep, ErrorAt>(BranflakesStep::Continue) && final(self).cursor@ == advance_last(old(self).cursor@)
                        && final(vm).data_pointer == old(vm).data_pointer + 1 && final(vm).memory == old(vm).memory
                        && final(vm).input == old(vm).input
                },
                BranflakesStatementVariant::DecrementPointer => if old(vm).data_pointer == 0 {
                    r matches Err(e) && e.error is IntegerUnderflow && old(self).current_statement(program@).is_place_of(e)
                } else {
                    r == Ok::<BranflakesStep, ErrorAt>(BranflakesStep::Continue) && final(self).cursor@ == advance_last(old(self).cursor@)
                        && final(vm).data_pointer == old(vm).data_pointer - 1 && final(vm).memory == old(vm).memory
                        && final(vm).input == old(vm).input
                },
                BranflakesStatementVariant::Increment => old(vm).data_pointer < usize::MAX ==> (r == Ok::<BranflakesStep, ErrorAt>(
                    BranflakesStep::Continue,
                ) && final(self).cursor@ == advance_last(old(self).cursor@) && wrote(
                    *old(vm),
                    *final(vm),
                    (if old(vm).current() == 255 { 0 } else { old(vm).current() + 1 }) as u8,
                )),
                BranflakesStatementVariant::Decrement => old(vm).data_pointer < usize::MAX ==> (r == Ok::<BranflakesStep, ErrorAt>(
                    BranflakesStep::Continue,
                ) && final(self).cursor@ == advance_last(old(self).cursor@) && wrote(
                    *old(vm),
                    *final(vm),
                    (if old(vm).current() == 0 { 255 } else { old(vm).current() - 1 }) as u8,
                )),
                BranflakesStatementVariant::Print => if old(vm).current() > 127 {
                    r matches Err(e) && e.error is InvalidAsciiValue && old(self).current_statement(program@).is_place_of(e)
                } else {
                    r == Ok::<BranflakesStep, ErrorAt>(BranflakesStep::Print(old(vm).current())) && final(self).cursor@
                        == advance_last(old(self).cursor@) && *final(vm) == *old(vm)
                },
                BranflakesStatementVariant::Input => match &old(vm).input {
                    None => r == Ok::<BranflakesStep, ErrorAt>(BranflakesStep::NeedInput) && final(self).cursor@ == old(self).cursor@
                        && *final(vm) == *old(vm),
                    Some(line) => old(vm).data_pointer < usize::MAX ==> (r == Ok::<BranflakesStep, ErrorAt>(BranflakesStep::Continue)
                        && final(self).cursor@ == advance_last(old(self).cursor@) && if line@.len() == 0 {
                        final(vm).input is None && final(vm).data_pointer == old(vm).data_pointer
                            && wrote_cells(*old(vm), *final(vm), 255u8)
                    } else {
                        final(vm).input matches Some(rest) && rest@ == line@.drop_last() && final(vm).data_pointer
                            == old(vm).data_pointer && wrote_cells(*old(vm), *final(vm), input_byte(line@.last()))
                    }),
                },
                BranflakesStatementVariant::Loop(_) => if old(vm).current() != 0 {
                    r == Ok::<BranflakesStep, ErrorAt>(BranflakesStep::Continue) && final(self).cursor@ == old(self).cursor@.push(0usize)
                        && *final(vm) == *old(vm)
                } else {
                    r == Ok::<BranflakesStep, ErrorAt>(BranflakesStep::Continue) && final(self).cursor@ == advance_last(old(self).cursor@)
                        && *final(vm) == *old(vm)
                },
            },
    {
        let n = self.cursor.len();
        let i = self.cursor[n - 1];
        proof {
            assert(self.cursor@.take(n - 1) =~= self.cursor@.drop_last());
        }
        let current = match BranflakesExecution::statements_on_path(program, &self.cursor, n - 1) {
            Some(current) => current,
            None => return Ok(BranflakesStep::Finished),
        };
        if i >= current.len() {
            if n == 1 {
                return Ok(BranflakesStep::Finished);
            }
            if vm.read() != 0 {
                self.cursor.set(n - 1, 0);
                proof {
                    assert(self.cursor@.drop_last() =~= old(self).cursor@.drop_last());
                }
                return Ok(BranflakesStep::Continue);
            }
            let ghost outer = old(self).cursor@.drop_last();
            self.cursor.pop();
            let j = self.cursor[n - 2];
            proof {
                assert(outer.drop_last().push(outer.last()) =~= outer);
                assert(loop_body(statements_at(program@, outer.drop_last()).unwrap(), j as int) is Some);
                assert(self.cursor@.take(n - 2) =~= outer.drop_last());
            }
            let outer_statements = match BranflakesExecution::statements_on_path(program, &self.cursor, n - 2) {
                Some(outer_statements) => outer_statements,
                None => return Ok(BranflakesStep::Finished),
            };
            if j >= outer_statements.len() {
                return Ok(BranflakesStep::Finished);
            }
            self.cursor.set(n - 2, j + 1);
            proof {
                assert(self.cursor@.drop_last() =~= outer.drop_last());
            }
            return Ok(BranflakesStep::Continue);
        }
        let statement = &current[i];
        match &statement.variant {
            BranflakesStatementVariant::IncrementPointer => {
                if vm.data_pointer == usize::MAX {
                    return Err(Error::IntegerOverflow.at(Some(statement.start_line), Some(statement.start_column), None));
                }
                vm.data_pointer = vm.data_pointer + 1;
            },
            BranflakesStatementVariant::DecrementPointer => {
                if vm.data_pointer == 0 {
                    return Err(Error::IntegerUnderflow.at(Some(statement.start_line), Some(statement.start_column), None));
                }
                vm.data_pointer = vm.data_pointer - 1;
            },
            BranflakesStatementVariant::Increment => {
                if vm.data_pointer == usize::MAX {
                    return Err(Error::IntegerOverflow.at(Some(statement.start_line), Some(statement.start_column), None));
                }
                let value = vm.read();
                vm.write(value.wrapping_add(1));
            },
            BranflakesStatementVariant::Decrement => {
                if vm.data_pointer == usize::MAX {
                    return Err(Error::IntegerOverflow.at(Some(statement.start_line), Some(statement.start_column), None));
                }
                let value = vm.read();
                vm.write(value.wrapping_sub(1));
            },
            BranflakesStatementVariant::Print => {
                let value = vm.read();
                if value > 127 {
                    return Err(Error::InvalidAsciiValue.at(Some(statement.start_line), Some(statement.start_column), None));
                }
                self.cursor.set(n - 1, i + 1);
                proof {
                    assert(self.cursor@.drop_last() =~= old(self).cursor@.drop_last());
                }
                return Ok(BranflakesStep::Print(value));
            },
            BranflakesStatementVariant::Input => {
                if vm.input.is_none() {
                    return Ok(BranflakesStep::NeedInput);
                }
                if vm.data_pointer == usize::MAX {
                    return Err(Error::IntegerOverflow.at(Some(statement.start_line), Some(statement.start_column), None));
                }
                let popped = match &mut vm.input {
                    Some(line) => line.pop(),
                    None => None,
                };
                let value: u8 = match popped {
                    None => {
                        vm.input = None;
                        255
                    },
                    Some(c) => if (c as u32) < 128 {
                        c as u8
                    } else {
                        1
                    },
                };
                vm.write(value);
            },
            BranflakesStatementVariant::Loop(_) => {
                if vm.read() != 0 {
                    self.cursor.push(0);
                    proof {
                        assert(self.cursor@.drop_last() =~= old(self).cursor@);
                        assert(old(self).cursor@.drop_last().push(old(self).cursor@.last()) =~= old(self).cursor@);
                    }
                    return Ok(BranflakesStep::Continue);
                }
            },
        }
        self.cursor.set(n - 1, i + 1);
        proof {
            assert(self.cursor@.drop_last() =~= old(self).cursor@.drop_last());
        }
        Ok(BranflakesStep::Continue)
    }
}

/// A cursor moved to the next statement.
pub open spec fn advance_last(cursor: Seq<usize>) -> Seq<usize> {
    cursor.update(cursor.len() - 1, (cursor.last() + 1) as usize)
}

/// The byte an input char is read as: its code when it is ASCII, else 1.
pub open spec fn input_byte(c: char) -> u8 {
    if (c as u32) < 128 {
        c as u8
    } else {
        1
    }
}

impl BranflakesStatement {
    /// Whether an error is placed at the start of the statement.
    pub open spec fn is_place_of(&self, e: ErrorAt) -> bool {
        e.line == Some(self.start_line) && e.column == Some(self.start_column)
    }
}

/// Whether the cells of a machine are another's with a value written at its data pointer.
pub open spec fn wrote_cells(before: BranflakesVirtualMachine, after: BranflakesVirtualMachine, value: u8) -> bool {
    forall|i: int| #[trigger] tape_cell(after.memory@, i) == if i == before.data_pointer {
        value
    } else {
        tape_cell(before.memory@, i)
    }
}

impl VirtualMachine for BranflakesVirtualMachine {
    open spec fn is_initial(&self) -> bool {
        self.memory@.len() == 0 && self.data_pointer == 0 && self.input is None
    }

    fn new() -> (r: Self) {
        BranflakesVirtualMachine::new()
    }
}

impl AstNode for BranflakesStatement {
    open spec fn spec_start_line(&self) -> Option<usize> {
        Some(self.start_line)
    }

    open spec fn spec_end_line(&self) -> Option<usize> {
        Some(self.end_line)
    }

    open spec fn spec_start_column(&self) -> Option<usize> {
        Some(self.start_column)
    }

    open spec fn spec_end_column(&self) -> Option<usize> {
        Some(self.end_column)
    }

    fn start_line(&self) -> (r: Option<usize>) {
        Some(self.start_line)
    }

    fn end_line(&self) -> (r: Option<usize>) {
        Some(self.end_line)
    }

    fn start_column(&self) -> (r: Option<usize>) {
        Some(self.start_column)
    }

    fn end_column(&self) -> (r: Option<usize>) {
        Some(self.end_column)
    }
}

impl AstNode for BranflakesModule {
    /// The module starts where its first statement does, or at line 1 when it has none.
    open spec fn spec_start_line(&self) -> Option<usize> {
        if self.statements@.len() > 0 {
            Some(self.statements@[0].start_line)
        } else {
            Some(1)
        }
    }

    open spec fn spec_end_line(&self) -> Option<usize> {
        if self.statements@.len() > 0 {
            Some(self.statements@.last().end_line)
        } else {
            Some(1)
        }
    }

    open spec fn spec_start_column(&self) -> Option<usize> {
        if self.statements@.len() > 0 {
            Some(self.statements@[0].start_column)
        } else {
            Some(1)
        }
    }

    open spec fn spec_end_column(&self) -> Option<usize> {
        if self.statements@.len() > 0 {
            Some(self.statements@.last().end_column)
        } else {
            Some(1)
        }
    }

    fn start_line(&self) -> (r: Option<usize>) {
        if self.statements.len() > 0 {
            self.statements[0].start_line()
        } else {
            Some(1)
        }
    }

    fn end_line(&self) -> (r: Option<usize>) {
        if self.statements.len() > 0 {
            self.statements[self.statements.len() - 1].end_line()
        } else {
            Some(1)
        }
    }

    fn start_column(&self) -> (r: Option<usize>) {
        if self.statements.len() > 0 {
            self.statements[0].start_column()
        } else {
            Some(1)
        }
    }

    fn end_column(&self) -> (r: Option<usize>) {
        if self.statements.len() > 0 {
            self.statements[self.statements.len() - 1].end_column()
        } else {
            Some(1)
        }
    }
}

/// Whether a machine is another with a value written at its data pointer.
pub open spec fn wrote(before: BranflakesVirtualMachine, after: BranflakesVirtualMachine, value: u8) -> bool {
    &&& after.data_pointer == before.data_pointer
    &&& after.input == before.input
    &&& forall|i: int| #[trigger] tape_cell(after.memory@, i) == if i == before.data_pointer {
        value
    } else {
        tape_cell(before.memory@, i)
    }
}

proof fn lemma_statements_at_none_extends(program: Seq<BranflakesStatement>, path: Seq<usize>, j: int, k: int)
    requires
        0 <= j <= k <= path.len(),
        statements_at(program, path.take(j)) is None,
    ensures
        statements_at(program, path.take(k)) is None,
    decreases k - j,
{
    if j < k {
        assert(path.take(j + 1).drop_last() =~= path.take(j));
        lemma_statements_at_none_extends(program, path, j + 1, k);
    }
}


/// The C texts of a sequence of statements, each at an indentation.
pub open spec fn render_each(ss: Seq<CStatement>, indent: nat) -> Seq<Seq<char>> {
    Seq::new(ss.len(), |i: int| ss[i].render(indent))
}

/// Lists of texts one after the other.
pub open spec fn flatten_texts(parts: Seq<Seq<Seq<char>>>) -> Seq<Seq<char>>
    decreases parts.len(),
{
    if parts.len() == 0 {
        Seq::empty()
    } else {
        flatten_texts(parts.drop_last()) + parts.last()
    }
}

/// The text of a call of a C function.
pub open spec fn call_text(name: Seq<char>, args: Seq<Seq<char>>) -> Seq<char> {
    name + "("@ + join(args, ", "@) + ")"@
}

/// Texts as the lines of a block: each indented one level deeper and ended by a line break.
pub open spec fn indented_lines(texts: Seq<Seq<char>>, indent: nat) -> Seq<Seq<char>> {
    Seq::new(texts.len(), |i: int| tabs(indent + 1) + texts[i] + "\n"@)
}

/// The text of a C block holding statements with the given texts.
pub open spec fn block_text(texts: Seq<Seq<char>>, indent: nat) -> Seq<char> {
    "{"@ + block_body(indented_lines(texts, indent), indent) + "}"@
}

/// The text of the cell the data pointer points at.
pub open spec fn cell_text() -> Seq<char> {
    "memory_buffer"@ + "["@ + "data_pointer"@ + "]"@
}

/// The statement that grows the memory so that the data pointer points into it.
pub open spec fn expand_memory_text() -> Seq<char> {
    call_text(
        "expand_memory"@,
        seq!["(&"@ + "memory_buffer"@ + ")"@, "(&"@ + "memory_buffer_size"@ + ")"@, binary_text(int_decimal(1), " + "@, "data_pointer"@)],
    ) + ";"@
}

/// The block that prints a message and exits with status 1.
pub open spec fn error_block_text(message: Seq<char>, indent: nat) -> Seq<char> {
    block_text(seq![call_text("puts"@, seq!["\""@ + message + "\""@]) + ";"@, call_text("exit"@, seq![int_decimal(1)]) + ";"@], indent)
}

/// The statement that exits when the data pointer has wrapped around to 0.
pub open spec fn pointer_check_text(message: Seq<char>, indent: nat) -> Seq<char> {
    "if ("@ + binary_text(int_decimal(0), " == "@, "data_pointer"@) + ") "@ + error_block_text(message, indent)
}

impl BranflakesStatement {
    /// The texts of the C statements a Branflakes statement is compiled to, at an indentation.
    pub open spec fn c_text(&self, indent: nat) -> Seq<Seq<char>>
        decreases self,
    {
        match &self.variant {
            BranflakesStatementVariant::IncrementPointer => seq![
                "("@ + "data_pointer"@ + "++)"@ + ";"@,
                pointer_check_text("Error: Data pointer overflow."@, indent),
            ],
            BranflakesStatementVariant::DecrementPointer => seq![
                pointer_check_text("Error: Data pointer underflow."@, indent),
                "("@ + "data_pointer"@ + "--)"@ + ";"@,
            ],
            BranflakesStatementVariant::Increment => seq![expand_memory_text(), "("@ + cell_text() + "++)"@ + ";"@],
            BranflakesStatementVariant::Decrement => seq![expand_memory_text(), "("@ + cell_text() + "--)"@ + ";"@],
            BranflakesStatementVariant::Loop(sub_statements) => seq![
                expand_memory_text(),
                "while ("@ + binary_text(int_decimal(0), " != "@, cell_text()) + ") "@ + block_text(
                    flatten_texts(c_text_parts(sub_statements@, indent + 1)),
                    indent,
                ),
            ],
            BranflakesStatementVariant::Print => seq![expand_memory_text(), call_text("putchar"@, seq![cell_text()]) + ";"@],
            BranflakesStatementVariant::Input => seq![
                binary_text(cell_text(), " = "@, call_text("getchar"@, Seq::empty())) + ";"@,
                "if ("@ + binary_text(cell_text(), " == "@, "EOF"@) + ") "@ + binary_text(cell_text(), " = "@, int_decimal(-1)) + ";"@,
            ],
        }
    }
}

/// The C texts of each of a sequence of statements.
pub open spec fn c_text_parts(ss: Seq<BranflakesStatement>, indent: nat) -> Seq<Seq<Seq<char>>>
    decreases ss,
{
    Seq::new(ss.len(), |i: int| if 0 <= i < ss.len() { ss[i].c_text(indent) } else { Seq::empty() })
}

proof fn lemma_render_each_add(a: Seq<CStatement>, b: Seq<CStatement>, indent: nat)
    ensures
        render_each(a + b, indent) == render_each(a, indent) + render_each(b, indent),
{
    assert(render_each(a + b, indent) =~= render_each(a, indent) + render_each(b, indent));
}

proof fn lemma_flatten_texts_take(parts: Seq<Seq<Seq<char>>>, i: int)
    requires
        0 <= i < parts.len(),
    ensures
        flatten_texts(parts.take(i + 1)) == flatten_texts(parts.take(i)) + parts[i],
{
    assert(parts.take(i + 1).drop_last() =~= parts.take(i));
}

/// Whether an expression reads the variable with a name.
pub open spec fn reads_variable(e: CExpression, name: Seq<char>) -> bool {
    match e {
        CExpression::LValueRead(v) => match *v {
            CLValue::Variable(n) => n@ == name,
            _ => false,
        },
        _ => false,
    }
}

/// Whether an expression takes a reference to the variable with a name.
pub open spec fn references_variable(e: CExpression, name: Seq<char>) -> bool {
    match e {
        CExpression::TakeReference(v) => match *v {
            CLValue::Variable(n) => n@ == name,
            _ => false,
        },
        _ => false,
    }
}

/// Whether an l-value is the memory cell `memory_buffer[data_pointer]`.
pub open spec fn is_memory_cell(l: CLValue) -> bool {
    match l {
        CLValue::ArraySubscript(a, i) => reads_variable(*a, "memory_buffer"@) && reads_variable(*i, "data_pointer"@),
        _ => false,
    }
}

/// Whether an expression reads the memory cell.
pub open spec fn reads_memory_cell(e: CExpression) -> bool {
    match e {
        CExpression::LValueRead(v) => is_memory_cell(*v),
        _ => false,
    }
}

/// Whether a statement calls the function with a name on arguments.
pub open spec fn is_call_statement(st: CStatement, name: Seq<char>, arguments: Seq<CExpression>) -> bool {
    match st {
        CStatement::Expression(CExpression::FunctionCall(n, a)) => n@ == name && a@ == arguments,
        _ => false,
    }
}

/// Whether a statement is `expand_memory(&memory_buffer, &memory_buffer_size, 1 + data_pointer);`.
pub open spec fn is_expand_memory(st: CStatement) -> bool {
    match st {
        CStatement::Expression(CExpression::FunctionCall(n, a)) => {
            &&& n@ == "expand_memory"@
            &&& a@.len() == 3
            &&& references_variable(a@[0], "memory_buffer"@)
            &&& references_variable(a@[1], "memory_buffer_size"@)
            &&& match a@[2] {
                CExpression::Add(one, p) => *one == CExpression::IntConstant(1) && reads_variable(*p, "data_pointer"@),
                _ => false,
            }
        },
        _ => false,
    }
}

/// Whether a statement exits with a message when the data pointer is 0: `if (0 ==
/// data_pointer) { puts(message); exit(1); }`.
pub open spec fn is_pointer_check(st: CStatement, message: Seq<char>) -> bool {
    match st {
        CStatement::If(condition, body) => {
            &&& match *condition {
                CExpression::Equal(zero, p) => *zero == CExpression::IntConstant(0) && reads_variable(*p, "data_pointer"@),
                _ => false,
            }
            &&& match *body {
                CStatement::CompoundStatement(c) => {
                    &&& c@.len() == 2
                    &&& match c@[0] {
                        CStatement::Expression(CExpression::FunctionCall(n, a)) => n@ == "puts"@ && a@.len() == 1 && (
                        match a@[0] {
                            CExpression::StringConstant(m) => m@ == message,
                            _ => false,
                        }),
                        _ => false,
                    }
                    &&& is_call_statement(c@[1], "exit"@, seq![CExpression::IntConstant(1)])
                },
                _ => false,
            }
        },
        _ => false,
    }
}

/// Whether an l-value is the variable with a name.
pub open spec fn is_variable(l: CLValue, name: Seq<char>) -> bool {
    match l {
        CLValue::Variable(n) => n@ == name,
        _ => false,
    }
}

impl BranflakesStatement {
    /// Whether two C statements are what the statement is compiled to.
    pub open spec fn compiles_to(&self, first: CStatement, second: CStatement) -> bool
        decreases self,
    {
        match &self.variant {
            BranflakesStatementVariant::IncrementPointer => (match first {
                CStatement::Expression(CExpression::PostfixIncrement(v)) => is_variable(*v, "data_pointer"@),
                _ => false,
            }) && is_pointer_check(second, "Error: Data pointer overflow."@),
            BranflakesStatementVariant::DecrementPointer => is_pointer_check(first, "Error: Data pointer underflow."@) && (
            match second {
                CStatement::Expression(CExpression::PostfixDecrement(v)) => is_variable(*v, "data_pointer"@),
                _ => false,
            }),
            BranflakesStatementVariant::Increment => is_expand_memory(first) && (match second {
                CStatement::Expression(CExpression::PostfixIncrement(v)) => is_memory_cell(*v),
                _ => false,
            }),
            BranflakesStatementVariant::Decrement => is_expand_memory(first) && (match second {
                CStatement::Expression(CExpression::PostfixDecrement(v)) => is_memory_cell(*v),
                _ => false,
            }),
            BranflakesStatementVariant::Print => is_expand_memory(first) && (match second {
                CStatement::Expression(CExpression::FunctionCall(n, a)) => n@ == "putchar"@ && a@.len() == 1
                    && reads_memory_cell(a@[0]),
                _ => false,
            }),
            BranflakesStatementVariant::Input => (match first {
                CStatement::Expression(CExpression::Assignment(l, call)) => is_memory_cell(*l) && (match *call {
                    CExpression::FunctionCall(n, a) => n@ == "getchar"@ && a@.len() == 0,
                    _ => false,
                }),
                _ => false,
            }) && (match second {
                CStatement::If(condition, reset) => (match *condition {
                    CExpression::Equal(v, eof) => reads_memory_cell(*v) && reads_variable(*eof, "EOF"@),
                    _ => false,
                }) && (match *reset {
                    CStatement::Expression(CExpression::Assignment(l, minus_one)) => is_memory_cell(*l) && *minus_one
                        == CExpression::IntConstant(-1i128),
                    _ => false,
                }),
                _ => false,
            }),
            BranflakesStatementVariant::Loop(sub_statements) => is_expand_memory(first) && (match second {
                CStatement::While(condition, body) => (match *condition {
                    CExpression::NotEqual(zero, v) => *zero == CExpression::IntConstant(0) && reads_memory_cell(*v),
                    _ => false,
                }) && (match *body {
                    CStatement::CompoundStatement(c) => c@.len() == 2 * sub_statements@.len() && compiled_parts(
                        sub_statements@,
                        c@,
                    ) == all_hold(sub_statements@.len()),
                    _ => false,
                }),
                _ => false,
            }),
        }
    }
}

/// A sequence of `true`s.
pub open spec fn all_hold(n: nat) -> Seq<bool> {
    Seq::new(n, |i: int| true)
}

/// For each of a sequence of statements, whether the two C statements at its place are what it
/// is compiled to.
pub open spec fn compiled_parts(ss: Seq<BranflakesStatement>, cs: Seq<CStatement>) -> Seq<bool>
    decreases ss,
{
    Seq::new(ss.len(), |i: int| if 0 <= i < ss.len() { ss[i].compiles_to(cs[2 * i], cs[2 * i + 1]) } else { false })
}

/// The value of the variable with a name.
fn variable_read(name: &str) -> (r: CExpression)
    ensures
        forall|d: nat| #[trigger] r.render(d) == name@,
        reads_variable(r, name@),
{
    let v = CLValue::variable(name);
    proof {
        assert forall|d: nat| #[trigger] v.render(d) == name@ by {}
    }
    let r = v.read();
    proof {
        assert forall|d: nat| #[trigger] r.render(d) == name@ by {
            assert(r.render(d) == v.render(d));
        }
    }
    r
}

/// `memory_buffer[data_pointer]`.
fn memory_cell() -> (r: CLValue)
    ensures
        forall|d: nat| #[trigger] r.render(d) == cell_text(),
        is_memory_cell(r),
{
    let array = variable_read("memory_buffer");
    let index = variable_read("data_pointer");
    let r = CLValue::ArraySubscript(Box::new(array), Box::new(index));
    proof {
        assert forall|d: nat| #[trigger] r.render(d) == cell_text() by {
            assert(r.render(d) == array.render(d) + "["@ + index.render(d) + "]"@);
        }
    }
    r
}

/// The value of `memory_buffer[data_pointer]`.
fn memory_cell_read() -> (r: CExpression)
    ensures
        forall|d: nat| #[trigger] r.render(d) == cell_text(),
        reads_memory_cell(r),
{
    let cell = memory_cell();
    let r = cell.read();
    proof {
        assert forall|d: nat| #[trigger] r.render(d) == cell_text() by {
            assert(r.render(d) == cell.render(d));
        }
    }
    r
}

/// A reference to the variable with a name.
fn variable_reference(name: &str) -> (r: CExpression)
    ensures
        forall|d: nat| #[trigger] r.render(d) == "(&"@ + name@ + ")"@,
        references_variable(r, name@),
{
    let v = CLValue::variable(name);
    let r = v.take_reference();
    proof {
        assert forall|d: nat| #[trigger] r.render(d) == "(&"@ + name@ + ")"@ by {
            assert(r.render(d) == "(&"@ + v.render(d) + ")"@);
        }
    }
    r
}

/// A call statement of a function with arguments of known texts.
fn call_statement(name: &str, args: Vec<CExpression>, Ghost(texts): Ghost<Seq<Seq<char>>>) -> (r: CStatement)
    requires
        args@.len() == texts.len(),
        forall|d: nat, i: int| 0 <= i < texts.len() ==> #[trigger] args@[i].render(d) == texts[i],
    ensures
        forall|d: nat| #[trigger] r.render(d) == call_text(name@, texts) + ";"@,
        is_call_statement(r, name@, args@),
{
    let ghost a = args@;
    let r = CStatement::Expression(CExpression::function_call(name, args));
    proof {
        assert forall|d: nat| #[trigger] r.render(d) == call_text(name@, texts) + ";"@ by {
            assert forall|i: int| 0 <= i < texts.len() implies #[trigger] crate::programming_languages::c::expression::render_expressions(
                a,
                d,
            )[i] == texts[i] by {
                assert(a[i].render(d) == texts[i]);
            }
            assert(crate::programming_languages::c::expression::render_expressions(a, d) =~= texts);
        }
    }
    r
}

/// The statement that grows the memory so that the data pointer points into it.
fn expand_memory_statement() -> (r: CStatement)
    ensures
        forall|d: nat| #[trigger] r.render(d) == expand_memory_text(),
        is_expand_memory(r),
{
    let mut args: Vec<CExpression> = Vec::new();
    args.push(variable_reference("memory_buffer"));
    args.push(variable_reference("memory_buffer_size"));
    let one = CExpression::IntConstant(1);
    let pointer = variable_read("data_pointer");
    let sum = one.add(pointer);
    proof {
        assert forall|d: nat| #[trigger] sum.render(d) == binary_text(int_decimal(1), " + "@, "data_pointer"@) by {
            assert(sum.render(d) == binary_text(one.render(d), " + "@, pointer.render(d)));
        }
    }
    args.push(sum);
    let ghost texts = seq!["(&"@ + "memory_buffer"@ + ")"@, "(&"@ + "memory_buffer_size"@ + ")"@, binary_text(int_decimal(1), " + "@, "data_pointer"@)];
    call_statement("expand_memory", args, Ghost(texts))
}

/// The statement that exits with a message when the data pointer is 0.
fn pointer_check_statement(message: &str) -> (r: CStatement)
    ensures
        forall|d: nat| #[trigger] r.render(d) == pointer_check_text(message@, d),
        is_pointer_check(r, message@),
{
    let mut puts_args: Vec<CExpression> = Vec::new();
    let text = CExpression::string_constant(message);
    puts_args.push(text);
    let ghost puts_texts = seq!["\""@ + message@ + "\""@];
    let puts = call_statement("puts", puts_args, Ghost(puts_texts));
    let mut exit_args: Vec<CExpression> = Vec::new();
    exit_args.push(CExpression::IntConstant(1));
    let ghost exit_texts = seq![int_decimal(1)];
    let exit = call_statement("exit", exit_args, Ghost(exit_texts));
    let ghost g_puts = puts;
    let ghost g_exit = exit;
    let mut block = CCompoundStatement::new();
    block.push_statement(puts);
    block.push_statement(exit);
    let ghost block_statements = block@;
    assert(block_statements =~= seq![g_puts, g_exit]);
    let zero = CExpression::IntConstant(0);
    let pointer = variable_read("data_pointer");
    let condition = zero.equal(pointer);
    let ghost g_block = block;
    let body = CStatement::CompoundStatement(block);
    let r = condition.if_statement(body);
    proof {
        assert forall|d: nat| #[trigger] r.render(d) == pointer_check_text(message@, d) by {
            let texts = seq![call_text("puts"@, seq!["\""@ + message@ + "\""@]) + ";"@, call_text("exit"@, seq![int_decimal(1)]) + ";"@];
            assert(g_puts.render(d + 1) == texts[0]);
            assert(g_exit.render(d + 1) == texts[1]);
            assert(render_statement_lines(block_statements, d + 1) =~= indented_lines(texts, d));
            assert(zero.render(d) == int_decimal(0));
            assert(condition.render(d) == binary_text(zero.render(d), " == "@, pointer.render(d)));
            assert(body.render(d) == g_block.render(d));
            assert(g_block.render(d) == block_text(texts, d));
            assert(r.render(d) == "if ("@ + condition.render(d) + ") "@ + body.render(d));
        }
    }
    r
}

impl BranflakesStatement {
    /// Appends the C statements the statement is compiled to.
    pub fn to_c(&self, compound_statement: &mut CCompoundStatement) -> (r: Result<(), ErrorAt>)
        ensures
            r is Ok,
            old(compound_statement)@.len() <= final(compound_statement)@.len(),
            final(compound_statement)@.take(old(compound_statement)@.len() as int) == old(compound_statement)@,
            forall|d: nat| #[trigger] render_each(final(compound_statement)@.skip(old(compound_statement)@.len() as int), d)
                == self.c_text(d),
            final(compound_statement)@.len() == old(compound_statement)@.len() + 2,
            self.compiles_to(
                final(compound_statement)@[old(compound_statement)@.len() as int],
                final(compound_statement)@[old(compound_statement)@.len() + 1int],
            ),
        decreases self,
    {
        let ghost start = compound_statement@;
        let (first, second) = match &self.variant {
            BranflakesStatementVariant::IncrementPointer => {
                let v = CLValue::variable("data_pointer");
                let e = v.postfix_increment();
                let first = CStatement::Expression(e);
                proof {
                    assert forall|d: nat| #[trigger] first.render(d) == "("@ + "data_pointer"@ + "++)"@ + ";"@ by {
                        assert(e.render(d) == "("@ + v.render(d) + "++)"@);
                    }
                }
                (first, pointer_check_statement("Error: Data pointer overflow."))
            },
            BranflakesStatementVariant::DecrementPointer => {
                let first = pointer_check_statement("Error: Data pointer underflow.");
                let v = CLValue::variable("data_pointer");
                let e = v.postfix_decrement();
                let second = CStatement::Expression(e);
                proof {
                    assert forall|d: nat| #[trigger] second.render(d) == "("@ + "data_pointer"@ + "--)"@ + ";"@ by {
                        assert(e.render(d) == "("@ + v.render(d) + "--)"@);
                    }
                }
                (first, second)
            },
            BranflakesStatementVariant::Increment => {
                let cell = memory_cell();
                let e = cell.postfix_increment();
                let second = CStatement::Expression(e);
                proof {
                    assert forall|d: nat| #[trigger] second.render(d) == "("@ + cell_text() + "++)"@ + ";"@ by {
                        assert(e.render(d) == "("@ + cell.render(d) + "++)"@);
                    }
                }
                (expand_memory_statement(), second)
            },
            BranflakesStatementVariant::Decrement => {
                let cell = memory_cell();
                let e = cell.postfix_decrement();
                let second = CStatement::Expression(e);
                proof {
                    assert forall|d: nat| #[trigger] second.render(d) == "("@ + cell_text() + "--)"@ + ";"@ by {
                        assert(e.render(d) == "("@ + cell.render(d) + "--)"@);
                    }
                }
                (expand_memory_statement(), second)
            },
            BranflakesStatementVariant::Print => {
                let mut args: Vec<CExpression> = Vec::new();
                args.push(memory_cell_read());
                let ghost texts = seq![cell_text()];
                (expand_memory_statement(), call_statement("putchar", args, Ghost(texts)))
            },
            BranflakesStatementVariant::Input => {
                let no_args: Vec<CExpression> = Vec::new();
                let ghost na = no_args@;
                let call = CExpression::function_call("getchar", no_args);
                let cell = memory_cell();
                let assignment = cell.assign(call);
                let first = CStatement::Expression(assignment);
                proof {
                    assert forall|d: nat| #[trigger] first.render(d) == binary_text(cell_text(), " = "@, call_text("getchar"@, Seq::empty()))
                        + ";"@ by {
                        assert(crate::programming_languages::c::expression::render_expressions(na, d) =~= Seq::<Seq<char>>::empty());
                        assert(assignment.render(d) == binary_text(cell.render(d), " = "@, call.render(d)));
                    }
                }
                let value = memory_cell_read();
                let eof = variable_read("EOF");
                let eof_check = value.equal(eof);
                let target = memory_cell();
                let minus_one = CExpression::IntConstant(-1);
                let reset = target.assign(minus_one);
                let reset_statement = CStatement::Expression(reset);
                let second = eof_check.if_statement(reset_statement);
                proof {
                    assert forall|d: nat| #[trigger] second.render(d) == "if ("@ + binary_text(cell_text(), " == "@, "EOF"@) + ") "@
                        + binary_text(cell_text(), " = "@, int_decimal(-1)) + ";"@ by {
                        assert(eof_check.render(d) == binary_text(value.render(d), " == "@, eof.render(d)));
                        assert(reset.render(d) == binary_text(target.render(d), " = "@, minus_one.render(d)));
                        assert(second.render(d) == "if ("@ + eof_check.render(d) + ") "@ + reset_statement.render(d));
                    }
                }
                (first, second)
            },
            BranflakesStatementVariant::Loop(sub_statements) => {
                let mut body = CCompoundStatement::new();
                let mut k: usize = 0;
                while k < sub_statements.len()
                    invariant
                        k <= sub_statements@.len(),
                        self.variant matches BranflakesStatementVariant::Loop(v) && v == *sub_statements,
                        forall|d: nat| #[trigger] render_each(body@, d) == flatten_texts(
                            c_text_parts(sub_statements@, d).take(k as int),
                        ),
                        body@.len() == 2 * k,
                        forall|i: int| 0 <= i < k ==> #[trigger] compiled_parts(sub_statements@, body@)[i],
                    decreases sub_statements@.len() - k,
                {
                    let ghost before = body@;
                    proof {
                        vstd::std_specs::vec::axiom_vec_index_decreases(*sub_statements, k as int);
                    }
                    let _ = sub_statements[k].to_c(&mut body);
                    proof {
                        assert forall|i: int| 0 <= i < k + 1 implies #[trigger] compiled_parts(sub_statements@, body@)[i] by {
                            if i < k {
                                assert(compiled_parts(sub_statements@, before)[i]);
                                assert(body@[2 * i] == before[2 * i]);
                                assert(body@[2 * i + 1] == before[2 * i + 1]);
                            }
                        }
                        assert forall|d: nat| #[trigger] render_each(body@, d) == flatten_texts(
                            c_text_parts(sub_statements@, d).take(k + 1),
                        ) by {
                            assert(body@ =~= before + body@.skip(before.len() as int));
                            lemma_render_each_add(before, body@.skip(before.len() as int), d);
                            lemma_flatten_texts_take(c_text_parts(sub_statements@, d), k as int);
                            assert(render_each(body@.skip(before.len() as int), d) == sub_statements@[k as int].c_text(d));
                        }
                    }
                    k = k + 1;
                }
                let ghost body_statements = body@;
                proof {
                    assert forall|i: int| 0 <= i < sub_statements@.len() implies #[trigger] compiled_parts(
                        sub_statements@,
                        body_statements,
                    )[i] by {
                        assert(i < k);
                    }
                    assert forall|d: nat| #[trigger] render_statement_lines(body_statements, d + 1) == indented_lines(
                        flatten_texts(c_text_parts(sub_statements@, d + 1)),
                        d,
                    ) by {
                        assert(c_text_parts(sub_statements@, d + 1).take(sub_statements@.len() as int) =~= c_text_parts(
                            sub_statements@,
                            d + 1,
                        ));
                        assert(render_each(body_statements, d + 1) == flatten_texts(c_text_parts(sub_statements@, d + 1)));
                        assert(render_statement_lines(body_statements, d + 1) =~= indented_lines(
                            flatten_texts(c_text_parts(sub_statements@, d + 1)),
                            d,
                        ));
                    }
                }
                let ghost g_body = body;
                let zero = CExpression::IntConstant(0);
                let cell = memory_cell_read();
                let condition = zero.not_equal(cell);
                let body_statement = CStatement::CompoundStatement(body);
                let looped = condition.while_statement(body_statement);
                proof {
                    assert forall|d: nat| #[trigger] looped.render(d) == "while ("@ + binary_text(int_decimal(0), " != "@, cell_text()) + ") "@
                        + block_text(flatten_texts(c_text_parts(sub_statements@, d + 1)), d) by {
                        assert(zero.render(d) == int_decimal(0));
                        assert(condition.render(d) == binary_text(zero.render(d), " != "@, cell.render(d)));
                        assert(body_statement.render(d) == g_body.render(d));
                        assert(g_body@ == body_statements);
                        assert(render_statement_lines(body_statements, d + 1) == indented_lines(
                            flatten_texts(c_text_parts(sub_statements@, d + 1)),
                            d,
                        ));
                        assert(looped.render(d) == "while ("@ + condition.render(d) + ") "@ + body_statement.render(d));
                    }
                }
                let expand = expand_memory_statement();
                proof {
                    assert(g_body@ == body_statements);
                    assert(compiled_parts(sub_statements@, body_statements) =~= all_hold(sub_statements@.len()));
                }
                (expand, looped)
            },
        };
        let ghost g_first = first;
        let ghost g_second = second;
        compound_statement.push_statement(first);
        compound_statement.push_statement(second);
        proof {
            assert(compound_statement@.take(start.len() as int) =~= start);
            assert(compound_statement@.skip(start.len() as int) =~= seq![g_first, g_second]);
            assert forall|d: nat| #[trigger] render_each(compound_statement@.skip(start.len() as int), d) == self.c_text(d) by {
                assert(g_first.render(d) == self.c_text(d)[0]);
                assert(g_second.render(d) == self.c_text(d)[1]);
                assert(render_each(seq![g_first, g_second], d) =~= self.c_text(d));
            }
        }
        Ok(())
    }
}


/// The C text of what the pointer in the variable with a name points to.
pub open spec fn deref_text(name: Seq<char>) -> Seq<char> {
    "(*"@ + name + ")"@
}

/// The value pointed to by the pointer in the variable with a name.
fn dereference_read(name: &str) -> (r: CExpression)
    ensures
        forall|d: nat| #[trigger] r.render(d) == deref_text(name@),
{
    let l = dereference(name);
    let r = CExpression::LValueRead(Box::new(l));
    proof {
        assert forall|d: nat| #[trigger] r.render(d) == deref_text(name@) by {
            assert(r.render(d) == l.render(d));
        }
    }
    r
}

/// The place pointed to by the pointer in the variable with a name.
fn dereference(name: &str) -> (r: CLValue)
    ensures
        forall|d: nat| #[trigger] r.render(d) == deref_text(name@),
{
    let v = CLValue::variable(name);
    let e = v.read();
    let r = CLValue::Dereference(Box::new(e));
    proof {
        assert forall|d: nat| #[trigger] r.render(d) == deref_text(name@) by {
            assert(r.render(d) == "(*"@ + e.render(d) + ")"@);
            assert(e.render(d) == v.render(d));
        }
    }
    r
}

/// A call of a function with arguments of known texts.
fn call_expression(name: &str, args: Vec<CExpression>, Ghost(texts): Ghost<Seq<Seq<char>>>) -> (r: CExpression)
    requires
        args@.len() == texts.len(),
        forall|d: nat, i: int| 0 <= i < texts.len() ==> #[trigger] args@[i].render(d) == texts[i],
    ensures
        forall|d: nat| #[trigger] r.render(d) == call_text(name@, texts),
{
    let ghost a = args@;
    let r = CExpression::function_call(name, args);
    proof {
        assert forall|d: nat| #[trigger] r.render(d) == call_text(name@, texts) by {
            assert forall|i: int| 0 <= i < texts.len() implies #[trigger] crate::programming_languages::c::expression::render_expressions(
                a,
                d,
            )[i] == texts[i] by {
                assert(a[i].render(d) == texts[i]);
            }
            assert(crate::programming_languages::c::expression::render_expressions(a, d) =~= texts);
        }
    }
    r
}

/// The C text of the statements of the function that grows the memory: return when it is large
/// enough, else double the wanted size, reallocate, exit with a message when that fails, and fill
/// the new cells with zero bytes.
pub open spec fn expand_memory_body_text(d: nat) -> Seq<Seq<char>> {
    let size = deref_text("memory_buffer_size"@);
    let buffer = deref_text("memory_buffer"@);
    seq![
        "if ("@ + binary_text(size, " >= "@, "resize_to_at_least"@) + ") "@ + "return"@ + ";"@,
        CType::USize.render_with_name(d, "old_size"@) + " = "@ + size + ";"@,
        binary_text(size, " = "@, binary_text("resize_to_at_least"@, " * "@, int_decimal(2))) + ";"@,
        binary_text(buffer, " = "@, call_text("realloc"@, seq![buffer, size])) + ";"@,
        "if ("@ + binary_text(buffer, " == "@, "NULL"@) + ") "@ + "{"@ + block_body(
            seq![
                tabs(d + 1) + call_text("puts"@, seq!["\""@ + "Error: Out of memory."@ + "\""@]) + ";"@ + "\n"@,
                tabs(d + 1) + call_text("exit"@, seq![int_decimal(1)]) + ";"@ + "\n"@,
            ],
            d,
        ) + "}"@,
        call_text(
            "memset"@,
            seq![binary_text(buffer, " + "@, "old_size"@), int_decimal(0), binary_text(size, " - "@, "old_size"@)],
        ) + ";"@,
    ]
}

/// The body of the C function that grows the memory buffer so that it has at least a number of
/// cells, filling the new cells with zero bytes, and exits when memory runs out.
#[verifier::rlimit(40)]
fn expand_memory_body() -> (r: CCompoundStatement)
    ensures
        forall|d: nat| #[trigger] render_each(r@, d) == expand_memory_body_text(d),
{
    let ghost size = deref_text("memory_buffer_size"@);
    let ghost buffer = deref_text("memory_buffer"@);
    let mut body = CCompoundStatement::new();
    let size_read = dereference_read("memory_buffer_size");
    let wanted = variable_read("resize_to_at_least");
    let enough = CExpression::GreaterThanOrEqual(Box::new(size_read), Box::new(wanted));
    let done = CStatement::Return(None);
    let s1 = CStatement::If(Box::new(enough), Box::new(done));
    proof {
        assert forall|d: nat| #[trigger] s1.render(d) == expand_memory_body_text(d)[0] by {
            assert(enough.render(d) == binary_text(size_read.render(d), " >= "@, wanted.render(d)));
            assert(done.render(d) =~= "return"@ + ";"@);
        }
    }
    body.push_statement(s1);
    let old_value = dereference_read("memory_buffer_size");
    let s2 = CStatement::VariableDeclaration(
        CType::USize,
        str_to_chars("old_size"),
        Some(Box::new(CInitializer::Expression(old_value))),
    );
    proof {
        assert forall|d: nat| #[trigger] s2.render(d) == expand_memory_body_text(d)[1] by {}
    }
    body.push_statement(s2);
    let size_place = dereference("memory_buffer_size");
    let wanted2 = variable_read("resize_to_at_least");
    let two = CExpression::IntConstant(2);
    let doubled = CExpression::Multiply(Box::new(wanted2), Box::new(two));
    let grow = CExpression::Assignment(Box::new(size_place), Box::new(doubled));
    let s3 = CStatement::Expression(grow);
    proof {
        assert forall|d: nat| #[trigger] s3.render(d) == expand_memory_body_text(d)[2] by {
            assert(doubled.render(d) == binary_text(wanted2.render(d), " * "@, two.render(d)));
            assert(grow.render(d) == binary_text(size_place.render(d), " = "@, doubled.render(d)));
        }
    }
    body.push_statement(s3);
    let mut realloc_args: Vec<CExpression> = Vec::new();
    realloc_args.push(dereference_read("memory_buffer"));
    realloc_args.push(dereference_read("memory_buffer_size"));
    let ghost realloc_texts = seq![buffer, size];
    let realloc_call = call_expression("realloc", realloc_args, Ghost(realloc_texts));
    let buffer_place = dereference("memory_buffer");
    let reallocate = CExpression::Assignment(Box::new(buffer_place), Box::new(realloc_call));
    let s4 = CStatement::Expression(reallocate);
    proof {
        assert forall|d: nat| #[trigger] s4.render(d) == expand_memory_body_text(d)[3] by {
            assert(reallocate.render(d) == binary_text(buffer_place.render(d), " = "@, realloc_call.render(d)));
        }
    }
    body.push_statement(s4);
    let mut puts_args: Vec<CExpression> = Vec::new();
    puts_args.push(CExpression::string_constant("Error: Out of memory."));
    let ghost puts_texts = seq!["\""@ + "Error: Out of memory."@ + "\""@];
    let puts_call = call_statement("puts", puts_args, Ghost(puts_texts));
    let mut exit_args: Vec<CExpression> = Vec::new();
    exit_args.push(CExpression::IntConstant(1));
    let ghost exit_texts = seq![int_decimal(1)];
    let exit_call = call_statement("exit", exit_args, Ghost(exit_texts));
    let mut error_block = CCompoundStatement::new();
    error_block.push_statement(puts_call);
    error_block.push_statement(exit_call);
    let buffer_read = dereference_read("memory_buffer");
    let null = variable_read("NULL");
    let failed = CExpression::Equal(Box::new(buffer_read), Box::new(null));
    let handler = CStatement::CompoundStatement(error_block);
    let s5 = CStatement::If(Box::new(failed), Box::new(handler));
    proof {
        assert forall|d: nat| #[trigger] s5.render(d) == expand_memory_body_text(d)[4] by {
            assert(failed.render(d) == binary_text(buffer_read.render(d), " == "@, null.render(d)));
            assert(error_block@ =~= seq![puts_call, exit_call]);
            assert(puts_call.render(d + 1) == call_text("puts"@, puts_texts) + ";"@);
            assert(exit_call.render(d + 1) == call_text("exit"@, exit_texts) + ";"@);
            let lines = render_statement_lines(error_block@, (d + 1) as nat);
            assert(lines.len() == 2);
            assert(lines[0] == tabs((d + 1) as nat) + puts_call.render((d + 1) as nat) + "\n"@);
            assert(lines[1] == tabs((d + 1) as nat) + exit_call.render((d + 1) as nat) + "\n"@);
            assert(puts_texts == seq!["\""@ + "Error: Out of memory."@ + "\""@]);
            assert(exit_texts == seq![int_decimal(1)]);
            assert(lines[0] =~= tabs((d + 1) as nat) + call_text("puts"@, puts_texts) + ";"@ + "\n"@);
            assert(lines[1] =~= tabs((d + 1) as nat) + call_text("exit"@, exit_texts) + ";"@ + "\n"@);
            assert(lines =~= seq![
                tabs((d + 1) as nat) + call_text("puts"@, puts_texts) + ";"@ + "\n"@,
                tabs((d + 1) as nat) + call_text("exit"@, exit_texts) + ";"@ + "\n"@,
            ]);
            assert(handler.render(d) == error_block.render(d));
        }
    }
    body.push_statement(s5);
    let b1 = dereference_read("memory_buffer");
    let o1 = variable_read("old_size");
    let new_start = CExpression::Add(Box::new(b1), Box::new(o1));
    let s_read = dereference_read("memory_buffer_size");
    let o2 = variable_read("old_size");
    let new_count = CExpression::Subtract(Box::new(s_read), Box::new(o2));
    proof {
        assert forall|d: nat| #[trigger] new_start.render(d) == binary_text(buffer, " + "@, "old_size"@) by {
            assert(new_start.render(d) == binary_text(b1.render(d), " + "@, o1.render(d)));
        }
        assert forall|d: nat| #[trigger] new_count.render(d) == binary_text(size, " - "@, "old_size"@) by {
            assert(new_count.render(d) == binary_text(s_read.render(d), " - "@, o2.render(d)));
        }
    }
    let mut memset_args: Vec<CExpression> = Vec::new();
    memset_args.push(new_start);
    memset_args.push(CExpression::IntConstant(0));
    memset_args.push(new_count);
    let ghost memset_texts = seq![binary_text(buffer, " + "@, "old_size"@), int_decimal(0), binary_text(size, " - "@, "old_size"@)];
    let s6 = call_statement(
        "memset",
        memset_args,
        Ghost(memset_texts),
    );
    body.push_statement(s6);
    proof {
        assert forall|d: nat| #[trigger] render_each(body@, d) == expand_memory_body_text(d) by {
            assert(render_each(body@, d) =~= expand_memory_body_text(d));
        }
    }
    body
}

/// The texts of the statements that declare the memory of the program.
pub open spec fn memory_declarations_text() -> Seq<Seq<char>> {
    seq![
        "// "@ + "The BF memory state"@,
        "uint8_t"@ + " *"@ + "memory_buffer"@ + " = "@ + "NULL"@ + ";"@,
        "size_t"@ + " "@ + "memory_buffer_size"@ + " = "@ + int_decimal(0) + ";"@,
        "size_t"@ + " "@ + "data_pointer"@ + " = "@ + int_decimal(0) + ";"@,
    ]
}

/// The header text of the C function that grows the memory.
pub open spec fn expand_memory_header_text() -> Seq<char> {
    "void"@ + " "@ + "expand_memory"@ + "("@ + join(
        seq![
            "uint8_t"@ + " **"@ + "memory_buffer"@,
            "size_t"@ + " *"@ + "memory_buffer_size"@,
            "size_t"@ + " "@ + "resize_to_at_least"@,
        ],
        ", "@,
    ) + ");"@
}

/// A variable declaration with an initial value.
fn declaration(t: CType, name: &str, value: CExpression) -> (r: CStatement)
    ensures
        forall|d: nat| #[trigger] r.render(d) == t.render_with_name(d, name@) + " = "@ + value.render(d) + ";"@,
{
    let n = str_to_chars(name);
    let ghost gt = t;
    let ghost gv = value;
    let r = CStatement::VariableDeclaration(t, n, Some(Box::new(CInitializer::Expression(value))));
    proof {
        assert forall|d: nat| #[trigger] r.render(d) == gt.render_with_name(d, name@) + " = "@ + gv.render(d) + ";"@ by {}
    }
    r
}

impl BranflakesModule {
    /// Compiles the module to a C module with a `main` function that runs it. A module that is not
    /// the entrypoint has no C module: `Ok(None)`.
    pub fn to_c_module(&self, is_entrypoint: bool) -> (r: Result<Option<CModule>, ErrorAt>)
        ensures
            !is_entrypoint ==> r == Ok::<Option<CModule>, ErrorAt>(None),
            is_entrypoint ==> (r matches Ok(Some(m)) && {
                &&& m@.len() == 6
                &&& m@[0] matches CModuleElement::AngleIncludeInHeader(n) && n@ == "stdint.h"@
                &&& m@[1] matches CModuleElement::AngleIncludeInHeader(n) && n@ == "stdlib.h"@
                &&& m@[2] matches CModuleElement::AngleIncludeInHeader(n) && n@ == "stdio.h"@
                &&& m@[3] matches CModuleElement::AngleIncludeInHeader(n) && n@ == "string.h"@
                &&& m@[4] is FunctionDefinition
                &&& forall|d: nat| #[trigger] m@[4].render_header(d) == expand_memory_header_text()
                &&& m@[5] matches CModuleElement::FunctionDefinition { return_type, name, parameters, body } && {
                    &&& return_type == CType::Int
                    &&& name@ == "main"@
                    &&& parameters@.len() == 0
                    &&& forall|d: nat| #[trigger] render_each(body@, d) == memory_declarations_text() + flatten_texts(
                        c_text_parts(self.statements@, d),
                    )
                }
            }),
    {
        if !is_entrypoint {
            return Ok(None);
        }
        let mut c_module = CModule::new();
        c_module.push_element(CModuleElement::AngleIncludeInHeader(str_to_chars("stdint.h")));
        c_module.push_element(CModuleElement::AngleIncludeInHeader(str_to_chars("stdlib.h")));
        c_module.push_element(CModuleElement::AngleIncludeInHeader(str_to_chars("stdio.h")));
        c_module.push_element(CModuleElement::AngleIncludeInHeader(str_to_chars("string.h")));
        let mut parameters: Vec<CFunctionParameter> = Vec::new();
        parameters.push(CFunctionParameter::new(CType::PointerTo(Box::new(CType::PointerTo(Box::new(CType::U8)))), str_to_chars("memory_buffer")));
        parameters.push(CFunctionParameter::new(CType::PointerTo(Box::new(CType::USize)), str_to_chars("memory_buffer_size")));
        parameters.push(CFunctionParameter::new(CType::USize, str_to_chars("resize_to_at_least")));
        let ghost params = parameters@;
        let expand_memory = CModuleElement::FunctionDefinition {
            return_type: CType::Void,
            name: str_to_chars("expand_memory"),
            parameters,
            body: Box::new(expand_memory_body()),
        };
        proof {
            reveal_strlit("memory_buffer");
            reveal_strlit("memory_buffer_size");
            reveal_strlit("resize_to_at_least");
            assert forall|d: nat| #[trigger] expand_memory.render_header(d) == expand_memory_header_text() by {
                assert(crate::programming_languages::c::module_element::render_parameters(params, d) =~= seq![
                    "uint8_t"@ + " **"@ + "memory_buffer"@,
                    "size_t"@ + " *"@ + "memory_buffer_size"@,
                    "size_t"@ + " "@ + "resize_to_at_least"@,
                ]);
            }
        }
        c_module.push_element(expand_memory);
        let mut main_body = CCompoundStatement::new();
        let comment = CStatement::Comment(str_to_chars("The BF memory state"));
        let null = variable_read("NULL");
        let buffer = declaration(CType::PointerTo(Box::new(CType::U8)), "memory_buffer", null);
        let size = declaration(CType::USize, "memory_buffer_size", CExpression::IntConstant(0));
        let pointer = declaration(CType::USize, "data_pointer", CExpression::IntConstant(0));
        let ghost declarations = seq![comment, buffer, size, pointer];
        main_body.push_statement(comment);
        main_body.push_statement(buffer);
        main_body.push_statement(size);
        main_body.push_statement(pointer);
        proof {
            assert(main_body@ =~= declarations);
            assert forall|d: nat| #[trigger] render_each(main_body@, d) == memory_declarations_text() + flatten_texts(
                c_text_parts(self.statements@, d).take(0),
            ) by {
                assert(c_text_parts(self.statements@, d).take(0) =~= Seq::<Seq<Seq<char>>>::empty());
                assert(render_each(main_body@, d) =~= memory_declarations_text() + flatten_texts(
                    c_text_parts(self.statements@, d).take(0),
                ));
            }
        }
        let mut k: usize = 0;
        while k < self.statements.len()
            invariant
                k <= self.statements@.len(),
                forall|d: nat| #[trigger] render_each(main_body@, d) == memory_declarations_text() + flatten_texts(
                    c_text_parts(self.statements@, d).take(k as int),
                ),
            decreases self.statements@.len() - k,
        {
            let ghost before = main_body@;
            let _ = self.statements[k].to_c(&mut main_body);
            proof {
                assert forall|d: nat| #[trigger] render_each(main_body@, d) == memory_declarations_text() + flatten_texts(
                    c_text_parts(self.statements@, d).take(k + 1),
                ) by {
                    assert(main_body@ =~= before + main_body@.skip(before.len() as int));
                    lemma_render_each_add(before, main_body@.skip(before.len() as int), d);
                    lemma_flatten_texts_take(c_text_parts(self.statements@, d), k as int);
                    assert(render_each(main_body@.skip(before.len() as int), d) == self.statements@[k as int].c_text(d));
                }
            }
            k = k + 1;
        }
        proof {
            assert forall|d: nat| #[trigger] render_each(main_body@, d) == memory_declarations_text() + flatten_texts(
                c_text_parts(self.statements@, d),
            ) by {
                assert(c_text_parts(self.statements@, d).take(self.statements@.len() as int) =~= c_text_parts(self.statements@, d));
            }
        }
        let main_function = CModuleElement::FunctionDefinition {
            return_type: CType::Int,
            name: str_to_chars("main"),
            parameters: Vec::new(),
            body: Box::new(main_body),
        };
        c_module.push_element(main_function);
        Ok(Some(c_module))
    }
}


impl BranflakesTokenVariant {
    /// The name of the token as it is printed.
    pub open spec fn spec_print_name(&self) -> Seq<char> {
        match self {
            BranflakesTokenVariant::Increment => "Increment"@,
            BranflakesTokenVariant::Decrement => "Decrement"@,
            BranflakesTokenVariant::IncrementPointer => "Increment Pointer"@,
            BranflakesTokenVariant::DecrementPointer => "Decrement Pointer"@,
            BranflakesTokenVariant::Print => "Print"@,
            BranflakesTokenVariant::Input => "Input"@,
            BranflakesTokenVariant::LoopStart => "Loop Start"@,
            BranflakesTokenVariant::LoopEnd => "Loop End"@,
        }
    }
}

impl BranflakesToken {
    /// The name of the token as it is printed.
    pub fn print_name(&self) -> (r: &'static str)
        ensures
            r@ == self.variant.spec_print_name(),
    {
        match self.variant {
            BranflakesTokenVariant::Increment => "Increment",
            BranflakesTokenVariant::Decrement => "Decrement",
            BranflakesTokenVariant::IncrementPointer => "Increment Pointer",
            BranflakesTokenVariant::DecrementPointer => "Decrement Pointer",
            BranflakesTokenVariant::Print => "Print",
            BranflakesTokenVariant::Input => "Input",
            BranflakesTokenVariant::LoopStart => "Loop Start",
            BranflakesTokenVariant::LoopEnd => "Loop End",
        }
    }

    /// The token as it is printed: where it was read (its char spans one column), then its name.
    pub fn print(&self) -> (r: Vec<char>)
        ensures
            r@ == position_text(
                self.spec_start_line(),
                self.spec_end_line(),
                self.spec_start_column(),
                self.spec_end_column(),
            ).unwrap() + self.variant.spec_print_name(),
    {
        let mut out: Vec<char> = Vec::new();
        push_position(&mut out, self.start_line(), self.end_line(), self.start_column(), self.end_column());
        push_str(&mut out, self.print_name());
        out
    }
}

impl BranflakesStatement {
    /// The name of the statement as it is printed.
    pub open spec fn spec_print_name(&self) -> Seq<char> {
        match self.variant {
            BranflakesStatementVariant::Increment => "Increment"@,
            BranflakesStatementVariant::Decrement => "Decrement"@,
            BranflakesStatementVariant::IncrementPointer => "Increment Pointer"@,
            BranflakesStatementVariant::DecrementPointer => "Decrement Pointer"@,
            BranflakesStatementVariant::Print => "Print"@,
            BranflakesStatementVariant::Input => "Input"@,
            BranflakesStatementVariant::Loop(_) => "Loop"@,
        }
    }

    /// The name of the statement as it is printed.
    pub fn print_name(&self) -> (r: &'static str)
        ensures
            r@ == self.spec_print_name(),
    {
        match self.variant {
            BranflakesStatementVariant::Increment => "Increment",
            BranflakesStatementVariant::Decrement => "Decrement",
            BranflakesStatementVariant::IncrementPointer => "Increment Pointer",
            BranflakesStatementVariant::DecrementPointer => "Decrement Pointer",
            BranflakesStatementVariant::Print => "Print",
            BranflakesStatementVariant::Input => "Input",
            BranflakesStatementVariant::Loop(_) => "Loop",
        }
    }

    /// The printed tree of the statement: its line, then the trees of the statements of a loop.
    pub open spec fn tree(&self, dashes: Seq<char>) -> Seq<char>
        decreases self, 1nat,
    {
        node_line(dashes, Some((self.start_line, self.start_column)), self.spec_print_name()) + match &self.variant {
            BranflakesStatementVariant::Loop(body) => statement_trees(body@, dashes.push('-')),
            _ => Seq::empty(),
        }
    }

    /// Writes the printed tree of the statement.
    pub fn print_tree(&self, out: &mut Vec<char>, dashes: &Vec<char>)
        ensures
            final(out)@ == old(out)@ + self.tree(dashes@),
        decreases self,
    {
        let ghost start = out@;
        let name = str_to_chars(self.print_name());
        push_node_line(out, dashes, Some((self.start_line, self.start_column)), name.as_slice());
        match &self.variant {
            BranflakesStatementVariant::Loop(body) => {
                let below = deeper(dashes);
                print_statement_trees(body, out, &below);
            },
            _ => {},
        }
        proof {
            assert(out@ =~= start + self.tree(dashes@));
        }
    }
}

/// The printed tree of each statement.
pub open spec fn statement_tree_parts(ss: Seq<BranflakesStatement>, dashes: Seq<char>) -> Seq<Seq<char>>
    decreases ss, 0nat,
{
    Seq::new(ss.len(), |i: int| if 0 <= i < ss.len() { ss[i].tree(dashes) } else { Seq::empty() })
}

/// The printed trees of statements, one after the other.
pub open spec fn statement_trees(ss: Seq<BranflakesStatement>, dashes: Seq<char>) -> Seq<char>
    decreases ss, 1nat,
{
    concat(statement_tree_parts(ss, dashes))
}

/// Writes the printed trees of statements, one after the other.
pub fn print_statement_trees(ss: &Vec<BranflakesStatement>, out: &mut Vec<char>, dashes: &Vec<char>)
    ensures
        final(out)@ == old(out)@ + statement_trees(ss@, dashes@),
    decreases ss,
{
    let ghost start = out@;
    let ghost parts = statement_tree_parts(ss@, dashes@);
    let mut i: usize = 0;
    while i < ss.len()
        invariant
            i <= ss@.len(),
            parts == statement_tree_parts(ss@, dashes@),
            out@ == start + concat(parts.take(i as int)),
        decreases ss@.len() - i,
    {
        proof {
            lemma_concat_take(parts, i as int);
            assert(decreases_to!(ss => ss@));
            assert(decreases_to!(ss@ => ss@[i as int]));
        }
        ss[i].print_tree(out, dashes);
        i = i + 1;
    }
    proof {
        assert(parts.take(ss@.len() as int) =~= parts);
    }
}

impl BranflakesModule {
    /// The printed tree of the module: "BF Module" where its first statement starts (or at line 1,
    /// column 1), then the trees of its statements.
    pub open spec fn tree(&self) -> Seq<char> {
        node_line(
            Seq::empty(),
            Some(
                if self.statements@.len() > 0 {
                    (self.statements@[0].start_line, self.statements@[0].start_column)
                } else {
                    (1, 1)
                },
            ),
            "BF Module"@,
        ) + statement_trees(self.statements@, seq!['-'])
    }

    /// The printed tree of the module.
    pub fn print(&self) -> (r: Vec<char>)
        ensures
            r@ == self.tree(),
    {
        let mut out: Vec<char> = Vec::new();
        let place = if self.statements.len() > 0 {
            (self.statements[0].start_line, self.statements[0].start_column)
        } else {
            (1, 1)
        };
        let no_dashes: Vec<char> = Vec::new();
        let name = str_to_chars("BF Module");
        push_node_line(&mut out, &no_dashes, Some(place), name.as_slice());
        let below = deeper(&no_dashes);
        proof {
            assert(below@ =~= seq!['-']);
        }
        print_statement_trees(&self.statements, &mut out, &below);
        out
    }
}

} // verus!
