//! Parsing of Tanuki tokens into expressions.
use vstd::prelude::*;

use crate::big_int::{clone_ct, ct_to_u8};
use crate::error::{Error, ErrorAt};
use crate::main_state::{join_path, path_components, path_parent, path_pop, Main, Os};
use crate::maybe_parsed_token::MaybeParsedToken;
use crate::programming_languages::tanuki::compile_time_value::TanukiCompileTimeValue;
use crate::programming_languages::tanuki::expression::{TanukiExpression, TanukiExpressionVariant};
use crate::programming_languages::tanuki::global_constant::TanukiGlobalConstant;
use crate::programming_languages::tanuki::import::TanukiImport;
use crate::programming_languages::tanuki::post_parse::{TanukiExport, TanukiLink};
use crate::programming_languages::tanuki::t_type::TanukiType;
use crate::programming_languages::tanuki::token::{
    TanukiInfixBinaryOperator, TanukiInfixTernaryOperator, TanukiKeyword, TanukiPrefixUnaryOperator, TanukiToken,
    TanukiTokenVariant,
};
use crate::text::{chars_eq_str, clone_chars, str_to_chars};
use crate::token_reader::TokenReader;

verus! {

/// A part of an expression that has been read but not yet joined with its neighbours.
#[derive(Debug)]
pub struct TanukiPartiallyParsedToken {
    pub variant: TanukiPartiallyParsedTokenVariant,
    pub start_line: usize,
    pub start_column: usize,
    pub end_line: usize,
    pub end_column: usize,
}

#[derive(Debug)]
pub enum TanukiPartiallyParsedTokenVariant {
    /// Expressions between parentheses: the parameter or argument expressions and the return type
    /// expression, from `(expression, expression; return_type)`, `(expression, expression)`, `(;return_type)`, etc.
    FunctionArgumentsOrParameters(Vec<TanukiExpression>, Option<Box<TanukiExpression>>),
    /// An expression between square parentheses.
    SquareParenthesised(Box<TanukiExpression>),
    /// A ternary operator, the matching colon, and the expression in between.
    TernaryOperatorCenter(TanukiInfixTernaryOperator, Box<TanukiExpression>),
}

/// A token of an expression at some stage of parsing.
pub type MaybeParsed = MaybeParsedToken<TanukiExpression, TanukiPartiallyParsedToken, TanukiToken>;

/// A Tanuki module that has been parsed from a single file.
#[derive(Debug)]
pub struct TanukiModule {
    pub parsed_expressions: Vec<TanukiExpression>,
    /// The global constants of the module; one that is being const-compiled is taken out.
    pub global_constants: Vec<Option<TanukiGlobalConstant>>,
    /// The names the module exports, with where each export is written.
    pub exports: Vec<TanukiExport>,
    /// The constants imported from other modules.
    pub imports: Vec<TanukiImport>,
    /// The functions linked from libraries.
    pub links: Vec<TanukiLink>,
    pub entrypoint: Option<Vec<char>>,
}

/// Whether a token ends an expression: a closing parenthesis of any kind, a comma or a semicolon.
pub open spec fn ends_expression(v: TanukiTokenVariant) -> bool {
    v is RightParenthesis || v is RightCurlyParenthesis || v is RightSquareParenthesis || v is Comma || v is Semicolon
}

fn is_expression_end(v: &TanukiTokenVariant) -> (r: bool)
    ensures
        r == ends_expression(*v),
{
    match v {
        TanukiTokenVariant::RightParenthesis | TanukiTokenVariant::RightCurlyParenthesis | TanukiTokenVariant::RightSquareParenthesis
        | TanukiTokenVariant::Comma | TanukiTokenVariant::Semicolon => true,
        _ => false,
    }
}

/// An error at a place.
fn error_at(error: Error, line: usize, column: usize) -> (r: ErrorAt)
    ensures
        r.error == error && r.line == Some(line) && r.column == Some(column) && r.file is None,
{
    error.at(Some(line), Some(column), None)
}

/// The error for a feature that is not implemented, with a message.
fn unimplemented_at(message: &str, line: usize, column: usize) -> (r: ErrorAt)
    ensures
        r.error matches Error::Unimplemented(m) && m@ == message@,
        r.line == Some(line) && r.column == Some(column),
{
    Error::Unimplemented(str_to_chars(message)).at(Some(line), Some(column), None)
}

/// The error placed where the last taken token ended.
fn at_last_token(error: Error, token_reader: &TokenReader<TanukiToken>) -> (r: ErrorAt)
    ensures
        r.error == error,
{
    error.at(Some(token_reader.last_token_end_line()), Some(token_reader.last_token_end_column()), None)
}

/// An expression spanning a token.
fn expression_of(variant: TanukiExpressionVariant, token: &TanukiToken) -> (r: TanukiExpression)
    ensures
        r.variant == variant,
        r.start_line == token.start_line && r.start_column == token.start_column,
        r.end_line == token.end_line && r.end_column == token.end_column,
{
    TanukiExpression {
        variant,
        start_line: token.start_line,
        start_column: token.start_column,
        end_line: token.end_line,
        end_column: token.end_column,
    }
}

/// The expression a single token is read as, when it is one by itself: literals, identifiers, and
/// the keywords of types and constants.
fn single_token_expression(token: &TanukiToken) -> (r: Option<TanukiExpression>)
    ensures
        r matches Some(e) ==> e.start_line == token.start_line && e.start_column == token.start_column,
        token.variant is Identifier ==> (r matches Some(e) && e.variant matches TanukiExpressionVariant::Variable(n)
            && n@ == token.variant->Identifier_0@),
        token.variant is StringLiteral ==> (r matches Some(e) && e.variant matches TanukiExpressionVariant::Constant(
            TanukiCompileTimeValue::CompileTimeString(v),
        ) && v@ == token.variant->StringLiteral_0@),
        token.variant is Operator ==> r is None,
        r is Some ==> !ends_expression(token.variant) && !(token.variant is LeftParenthesis)
            && !(token.variant is LeftCurlyParenthesis) && !(token.variant is LeftSquareParenthesis),
        token.variant is CharacterLiteral ==> (r matches Some(e) && e.variant matches TanukiExpressionVariant::Constant(
            TanukiCompileTimeValue::CompileTimeChar(c),
        ) && token.variant->CharacterLiteral_0 == c),
        flat_token(*token) && !(token.variant is Operator) ==> (r matches Some(e) && stands_for(e, token.variant)),
{
    let variant = match &token.variant {
        TanukiTokenVariant::NumericLiteral(Some(int_value), _) => TanukiExpressionVariant::Constant(
            TanukiCompileTimeValue::CompileTimeInt(clone_ct(int_value)),
        ),
        TanukiTokenVariant::NumericLiteral(None, Some(float_value)) => TanukiExpressionVariant::Constant(
            TanukiCompileTimeValue::CompileTimeFloat(*float_value),
        ),
        TanukiTokenVariant::CharacterLiteral(value) => TanukiExpressionVariant::Constant(TanukiCompileTimeValue::CompileTimeChar(*value)),
        TanukiTokenVariant::StringLiteral(value) => TanukiExpressionVariant::Constant(
            TanukiCompileTimeValue::CompileTimeString(clone_chars(value)),
        ),
        TanukiTokenVariant::Identifier(name) => TanukiExpressionVariant::Variable(clone_chars(name)),
        TanukiTokenVariant::Keyword(TanukiKeyword::Bool) => TanukiExpressionVariant::Constant(TanukiCompileTimeValue::Type(TanukiType::Bool)),
        TanukiTokenVariant::Keyword(TanukiKeyword::Void) => TanukiExpressionVariant::Constant(TanukiCompileTimeValue::Void),
        TanukiTokenVariant::Keyword(TanukiKeyword::True) => TanukiExpressionVariant::Constant(TanukiCompileTimeValue::Bool(true)),
        TanukiTokenVariant::Keyword(TanukiKeyword::False) => TanukiExpressionVariant::Constant(TanukiCompileTimeValue::Bool(false)),
        TanukiTokenVariant::Keyword(TanukiKeyword::Int) => TanukiExpressionVariant::Constant(
            TanukiCompileTimeValue::Type(TanukiType::CompileTimeInt),
        ),
        TanukiTokenVariant::Keyword(TanukiKeyword::Type) => TanukiExpressionVariant::Constant(TanukiCompileTimeValue::Type(TanukiType::Type)),
        _ => return None,
    };
    Some(expression_of(variant, token))
}


/// Whether a keyword is written like a function call on arguments in parentheses.
pub open spec fn is_builtin_function(k: TanukiKeyword) -> bool {
    k is Import || k is ImportStd || k is Link || k is LinkIf || k is U || k is I || k is F || k is Info || k is Transmute
}

fn is_builtin_keyword(k: TanukiKeyword) -> (r: bool)
    ensures
        r == is_builtin_function(k),
{
    match k {
        TanukiKeyword::Import | TanukiKeyword::ImportStd | TanukiKeyword::Link | TanukiKeyword::LinkIf | TanukiKeyword::U
        | TanukiKeyword::I | TanukiKeyword::F | TanukiKeyword::Info | TanukiKeyword::Transmute => true,
        _ => false,
    }
}

/// The text of a compile time string constant expression, if it is one.
fn string_constant_of(e: &TanukiExpression) -> (r: Option<&Vec<char>>)
    ensures
        r is Some <==> e.variant matches TanukiExpressionVariant::Constant(TanukiCompileTimeValue::CompileTimeString(_)),
        r matches Some(s) ==> e.variant == TanukiExpressionVariant::Constant(TanukiCompileTimeValue::CompileTimeString(*s)),
{
    match &e.variant {
        TanukiExpressionVariant::Constant(TanukiCompileTimeValue::CompileTimeString(s)) => Some(s),
        _ => None,
    }
}

/// The path of a module imported from a directory: the argument joined to it, with each `..`
/// taking off the component before it. The module is added to those to compile.
fn import_joined_path(main: &mut Main, directory: &Vec<char>, argument: &Vec<char>) -> (r: Vec<char>)
    requires
        old(main).wf(),
    ensures
        final(main).wf(),
        final(main).compiled() == old(main).compiled(),
        final(main).to_compile() == if old(main).compiled().contains(r@) {
            old(main).to_compile()
        } else {
            old(main).to_compile().insert((r@, false))
        },
{
    let joined_path = join_path(directory, argument);
    let components = path_components(&joined_path);
    let mut new_path: Vec<char> = Vec::new();
    let mut i: usize = 0;
    while i < components.len()
        invariant
            i <= components@.len(),
        decreases components@.len() - i,
    {
        if chars_eq_str(components[i].as_slice(), "..") {
            new_path = path_pop(&new_path);
        } else {
            new_path = join_path(&new_path, &components[i]);
        }
        i = i + 1;
    }
    main.add_module_to_compile((clone_chars(&new_path), false));
    new_path
}

/// Parses a call of a builtin function written with a keyword: imports, links, transmutes, the
/// compile time information constants, and the integer and float type constructors.
fn parse_builtin_function(
    main: &mut Main,
    keyword: TanukiKeyword,
    arguments: Vec<TanukiExpression>,
    start_line: usize,
    start_column: usize,
    end_line: usize,
    end_column: usize,
) -> (r: Result<TanukiExpression, ErrorAt>)
    requires
        old(main).wf(),
        is_builtin_function(keyword),
    ensures
        final(main).wf(),
        r matches Ok(e) ==> e.start_line == start_line && e.start_column == start_column && e.end_line == end_line
            && e.end_column == end_column,
        is_type_builtin(keyword) ==> *final(main) == *old(main),
        keyword is U ==> (r matches Ok(e) && e.variant matches TanukiExpressionVariant::U(a) && a == arguments),
        keyword is I ==> (r matches Ok(e) && e.variant matches TanukiExpressionVariant::I(a) && a == arguments),
        keyword is F ==> (r matches Ok(e) && e.variant matches TanukiExpressionVariant::F(a) && a == arguments),
{
    let mut arguments = arguments;
    let variant = match keyword {
        TanukiKeyword::Import | TanukiKeyword::ImportStd => {
            if arguments.len() != 1 {
                return Err(unimplemented_at("Import with argument count that is not one", start_line, start_column));
            }
            let path = match string_constant_of(&arguments[0]) {
                Some(path) => clone_chars(path),
                None => return Err(
                    unimplemented_at("Import with argument that is not a string", arguments[0].start_line, arguments[0].start_column),
                ),
            };
            let directory = if let TanukiKeyword::Import = keyword {
                match path_parent(&main.module_being_processed) {
                    Some(parent) => parent,
                    None => return Err(Error::InvalidSourcePath(clone_chars(&main.module_being_processed)).at(
                        Some(start_line),
                        Some(start_column),
                        None,
                    )),
                }
            } else {
                clone_chars(&main.tnk_std_directory)
            };
            let module_file = import_joined_path(main, &directory, &path);
            TanukiExpressionVariant::ImportConstant { name: None, module_file }
        },
        TanukiKeyword::Link | TanukiKeyword::LinkIf => {
            let is_link_if = if let TanukiKeyword::LinkIf = keyword {
                true
            } else {
                false
            };
            let arguments_len = arguments.len();
            if !is_link_if && arguments_len < 2 {
                return Err(unimplemented_at("@link with argument count that is less than two", start_line, start_column));
            }
            if is_link_if && arguments_len < 3 {
                return Err(unimplemented_at("@link_if with argument count that is less than three", start_line, start_column));
            }
            let library_path = match string_constant_of(&arguments[0]) {
                Some(path) => clone_chars(path),
                None => return Err(
                    unimplemented_at(
                        "@link with library path argument that is not a string",
                        arguments[0].start_line,
                        arguments[0].start_column,
                    ),
                ),
            };
            let _ = arguments.remove(0);
            let link_if = if is_link_if {
                match arguments.pop() {
                    Some(condition) => Some(Box::new(condition)),
                    None => None,
                }
            } else {
                None
            };
            let return_type = match arguments.pop() {
                Some(return_type) => Some(Box::new(return_type)),
                None => None,
            };
            TanukiExpressionVariant::Link { name: None, library_path, parameter_types: arguments, return_type, link_if }
        },
        TanukiKeyword::Info => {
            if arguments.len() != 1 {
                return Err(unimplemented_at("@_info with argument count that is not one", start_line, start_column));
            }
            let number = match &arguments[0].variant {
                TanukiExpressionVariant::Constant(TanukiCompileTimeValue::CompileTimeInt(value)) => ct_to_u8(value),
                _ => return Err(
                    unimplemented_at("@_info with argument that is not an integer", arguments[0].start_line, arguments[0].start_column),
                ),
            };
            let value = match number {
                Some(0) => TanukiCompileTimeValue::Bool(main.os == Os::Windows),
                Some(1) => TanukiCompileTimeValue::Bool(main.os == Os::Unix),
                _ => return Err(unimplemented_at("This info constant", arguments[0].start_line, arguments[0].start_column)),
            };
            TanukiExpressionVariant::Constant(value)
        },
        TanukiKeyword::Transmute => {
            if arguments.len() != 2 {
                return Err(unimplemented_at("@transmute with argument count that is not two", start_line, start_column));
            }
            let transmute_to_type = arguments.remove(1);
            let to_transmute = arguments.remove(0);
            TanukiExpressionVariant::Transmute { to_transmute: Box::new(to_transmute), transmute_to_type: Box::new(transmute_to_type) }
        },
        TanukiKeyword::U => TanukiExpressionVariant::U(arguments),
        TanukiKeyword::I => TanukiExpressionVariant::I(arguments),
        _ => TanukiExpressionVariant::F(arguments),
    };
    Ok(TanukiExpression { variant, start_line, start_column, end_line, end_column })
}


/// What a token of an expression is, as far as the passes of parsing tell them apart.
pub enum TokenKind {
    /// An unparsed operator that is no assignment and can be read as a postfix operator.
    PostfixOperator,
    /// Arguments or parameters in parentheses.
    Arguments,
    /// An expression in square parentheses.
    Square,
    /// Anything else.
    Other,
}

/// The kind of a token for the pass of postfix operators and calls.
pub open spec fn token_kind(t: MaybeParsed) -> TokenKind {
    match t {
        MaybeParsedToken::Unparsed(tok) => match tok.variant {
            TanukiTokenVariant::Operator { postfix_unary_operator: Some(_), is_assignment: false, .. } => TokenKind::PostfixOperator,
            _ => TokenKind::Other,
        },
        MaybeParsedToken::PartiallyParsed(p) => match p.variant {
            TanukiPartiallyParsedTokenVariant::FunctionArgumentsOrParameters(..) => TokenKind::Arguments,
            TanukiPartiallyParsedTokenVariant::SquareParenthesised(..) => TokenKind::Square,
            _ => TokenKind::Other,
        },
        _ => TokenKind::Other,
    }
}

fn kind_of(t: &MaybeParsed) -> (r: TokenKind)
    ensures
        r == token_kind(*t),
{
    match t {
        MaybeParsedToken::Unparsed(tok) => match &tok.variant {
            TanukiTokenVariant::Operator { postfix_unary_operator: Some(_), is_assignment: false, .. } => TokenKind::PostfixOperator,
            _ => TokenKind::Other,
        },
        MaybeParsedToken::PartiallyParsed(p) => match &p.variant {
            TanukiPartiallyParsedTokenVariant::FunctionArgumentsOrParameters(..) => TokenKind::Arguments,
            TanukiPartiallyParsedTokenVariant::SquareParenthesised(..) => TokenKind::Square,
            _ => TokenKind::Other,
        },
        _ => TokenKind::Other,
    }
}

/// The keyword of an unparsed token, if it is one.
pub open spec fn keyword_of(t: MaybeParsed) -> Option<TanukiKeyword> {
    match t {
        MaybeParsedToken::Unparsed(tok) => match tok.variant {
            TanukiTokenVariant::Keyword(k) => Some(k),
            _ => None,
        },
        _ => None,
    }
}

fn keyword_at(t: &MaybeParsed) -> (r: Option<TanukiKeyword>)
    ensures
        r == keyword_of(*t),
{
    match t {
        MaybeParsedToken::Unparsed(tok) => match &tok.variant {
            TanukiTokenVariant::Keyword(k) => Some(*k),
            _ => None,
        },
        _ => None,
    }
}

/// Whether a token is an unparsed operator that is or is not an assignment.
pub open spec fn is_operator_token(t: MaybeParsed, assignment: bool) -> bool {
    t matches MaybeParsedToken::Unparsed(tok) && tok.variant matches TanukiTokenVariant::Operator { is_assignment, .. } && is_assignment
        == assignment
}

fn operator_token(t: &MaybeParsed, assignment: bool) -> (r: bool)
    ensures
        r == is_operator_token(*t, assignment),
{
    match t {
        MaybeParsedToken::Unparsed(tok) => match &tok.variant {
            TanukiTokenVariant::Operator { is_assignment, .. } => *is_assignment == assignment,
            _ => false,
        },
        _ => false,
    }
}

/// Whether a token is an unparsed colon.
pub open spec fn is_colon_token(t: MaybeParsed) -> bool {
    t matches MaybeParsedToken::Unparsed(tok) && tok.variant matches TanukiTokenVariant::Operator { is_colon, .. } && is_colon
}

fn colon_token(t: &MaybeParsed) -> (r: bool)
    ensures
        r == is_colon_token(*t),
{
    match t {
        MaybeParsedToken::Unparsed(tok) => match &tok.variant {
            TanukiTokenVariant::Operator { is_colon, .. } => *is_colon,
            _ => false,
        },
        _ => false,
    }
}

/// The ternary operator an unparsed operator token can be read as, if any.
pub open spec fn ternary_of(t: MaybeParsed) -> Option<TanukiInfixTernaryOperator> {
    match t {
        MaybeParsedToken::Unparsed(tok) => match tok.variant {
            TanukiTokenVariant::Operator { infix_ternary_operator, .. } => infix_ternary_operator,
            _ => None,
        },
        _ => None,
    }
}

fn ternary_at(t: &MaybeParsed) -> (r: Option<TanukiInfixTernaryOperator>)
    ensures
        r == ternary_of(*t),
{
    match t {
        MaybeParsedToken::Unparsed(tok) => match &tok.variant {
            TanukiTokenVariant::Operator { infix_ternary_operator, .. } => *infix_ternary_operator,
            _ => None,
        },
        _ => None,
    }
}

/// Whether a token is a partially parsed ternary operator with its middle operand.
pub open spec fn is_ternary_center(t: MaybeParsed) -> bool {
    t matches MaybeParsedToken::PartiallyParsed(p) && p.variant is TernaryOperatorCenter
}

fn ternary_center(t: &MaybeParsed) -> (r: bool)
    ensures
        r == is_ternary_center(*t),
{
    match t {
        MaybeParsedToken::PartiallyParsed(p) => match &p.variant {
            TanukiPartiallyParsedTokenVariant::TernaryOperatorCenter(..) => true,
            _ => false,
        },
        _ => false,
    }
}

/// Where a token of an expression starts.
pub open spec fn start_place(t: MaybeParsed) -> (usize, usize) {
    match t {
        MaybeParsedToken::Parsed(e) => (e.start_line, e.start_column),
        MaybeParsedToken::PartiallyParsed(p) => (p.start_line, p.start_column),
        MaybeParsedToken::Unparsed(tok) => (tok.start_line, tok.start_column),
    }
}

/// Where a token of an expression starts.
fn start_of(t: &MaybeParsed) -> (r: (usize, usize))
    ensures
        r == start_place(*t),
{
    match t {
        MaybeParsedToken::Parsed(e) => (e.start_line, e.start_column),
        MaybeParsedToken::PartiallyParsed(p) => (p.start_line, p.start_column),
        MaybeParsedToken::Unparsed(tok) => (tok.start_line, tok.start_column),
    }
}

/// Whether the tokens are a single parsed expression.
pub open spec fn is_single_expression(tokens: Seq<MaybeParsed>) -> bool {
    tokens.len() == 1 && tokens[0] is Parsed
}

/// Whether a builtin function keyword is one of the type constructors `u`, `i` and `f`, whose
/// calls depend on their arguments alone.
pub open spec fn is_type_builtin(k: TanukiKeyword) -> bool {
    k is U || k is I || k is F
}

/// Whether a token is the keyword of a builtin function other than a type constructor.
pub open spec fn is_other_builtin(t: MaybeParsed) -> bool {
    keyword_of(t) matches Some(k) && is_builtin_function(k) && !is_type_builtin(k)
}

/// Whether no token is the keyword of a builtin function other than a type constructor.
pub open spec fn only_type_builtins(tokens: Seq<MaybeParsed>) -> bool {
    forall|i: int| 0 <= i < tokens.len() ==> !is_other_builtin(#[trigger] tokens[i])
}

/// Whether the token at `x` is a type constructor keyword with arguments in parentheses after it.
pub open spec fn type_builtin_call(tokens: Seq<MaybeParsed>, x: int) -> bool {
    &&& keyword_of(tokens[x]) is Some
    &&& is_type_builtin(keyword_of(tokens[x])->Some_0)
    &&& token_kind(tokens[x + 1]) is Arguments
}

/// The type constructor expression a keyword makes with the arguments after it; `None` for
/// arguments with a return type.
pub open spec fn builtin_join(keyword: MaybeParsed, next: MaybeParsed) -> Option<TanukiExpression> {
    match next {
        MaybeParsedToken::PartiallyParsed(partial) => match partial.variant {
            TanukiPartiallyParsedTokenVariant::FunctionArgumentsOrParameters(arguments, return_type) => if return_type is Some {
                None
            } else {
                let variant = match keyword_of(keyword) {
                    Some(TanukiKeyword::U) => TanukiExpressionVariant::U(arguments),
                    Some(TanukiKeyword::I) => TanukiExpressionVariant::I(arguments),
                    _ => TanukiExpressionVariant::F(arguments),
                };
                Some(
                    TanukiExpression {
                        variant,
                        start_line: start_place(keyword).0,
                        start_column: start_place(keyword).1,
                        end_line: partial.end_line,
                        end_column: partial.end_column,
                    },
                )
            },
            _ => None,
        },
        _ => None,
    }
}

/// Whether the expression at `x` is joined with the token after it in the postfix pass: a postfix
/// operator that no expression follows, arguments in parentheses, or an index in square parentheses.
pub open spec fn joins_postfix(tokens: Seq<MaybeParsed>, x: int) -> bool {
    &&& tokens[x] is Parsed
    &&& {
        ||| token_kind(tokens[x + 1]) is PostfixOperator && !(x + 2 < tokens.len() && tokens[x + 2] is Parsed)
        ||| token_kind(tokens[x + 1]) is Arguments
        ||| token_kind(tokens[x + 1]) is Square
    }
}

/// The expression a postfix operator, arguments or an index make with the expression before
/// them; `None` for arguments with a return type.
pub open spec fn postfix_join(next: MaybeParsed, operand: TanukiExpression) -> Option<TanukiExpression> {
    match next {
        MaybeParsedToken::Unparsed(tok) => match tok.variant {
            TanukiTokenVariant::Operator { postfix_unary_operator: Some(operator), .. } => Some(
                TanukiExpression {
                    variant: TanukiExpressionVariant::PostfixUnaryOperator(operator, Box::new(operand)),
                    start_line: operand.start_line,
                    start_column: operand.start_column,
                    end_line: tok.end_line,
                    end_column: tok.end_column,
                },
            ),
            _ => None,
        },
        MaybeParsedToken::PartiallyParsed(partial) => match partial.variant {
            TanukiPartiallyParsedTokenVariant::FunctionArgumentsOrParameters(arguments, return_type) => if return_type is Some {
                None
            } else {
                Some(
                    TanukiExpression {
                        variant: TanukiExpressionVariant::FunctionCall { function_pointer: Box::new(operand), arguments },
                        start_line: operand.start_line,
                        start_column: operand.start_column,
                        end_line: partial.end_line,
                        end_column: partial.end_column,
                    },
                )
            },
            TanukiPartiallyParsedTokenVariant::SquareParenthesised(index) => Some(
                TanukiExpression {
                    variant: TanukiExpressionVariant::Index(Box::new(operand), index),
                    start_line: operand.start_line,
                    start_column: operand.start_column,
                    end_line: partial.end_line,
                    end_column: partial.end_column,
                },
            ),
            _ => None,
        },
        _ => None,
    }
}

/// The postfix pass from position `x` on, for tokens whose builtin function calls are type
/// constructors: a type constructor keyword is joined with the arguments after it, an expression
/// with the postfix operator, arguments or index after it, and the scan goes on from the joined
/// expression. `Err` holds arguments written with a return type.
pub open spec fn postfix_from(tokens: Seq<MaybeParsed>, x: int) -> Result<Seq<MaybeParsed>, MaybeParsed>
    decreases tokens.len() - x,
{
    if x < 0 || x >= tokens.len() - 1 {
        Ok(tokens)
    } else if type_builtin_call(tokens, x) {
        match builtin_join(tokens[x], tokens[x + 1]) {
            Some(e) => postfix_from(replace_two(tokens, x, MaybeParsedToken::Parsed(e)), x),
            None => Err(tokens[x + 1]),
        }
    } else if !joins_postfix(tokens, x) {
        postfix_from(tokens, x + 1)
    } else {
        match postfix_join(tokens[x + 1], tokens[x]->Parsed_0) {
            Some(e) => postfix_from(replace_two(tokens, x, MaybeParsedToken::Parsed(e)), x),
            None => Err(tokens[x + 1]),
        }
    }
}

/// Whether an error is the one for arguments written with a return type.
pub open spec fn is_return_type_error(e: ErrorAt, t: MaybeParsed) -> bool {
    let r = t->PartiallyParsed_0.variant->FunctionArgumentsOrParameters_1.unwrap();
    &&& e.error is UnexpectedReturnType
    &&& e.line == Some(r.start_line)
    &&& e.column == Some(r.start_column)
}

/// Joins postfix operators, calls, index operators and builtin function calls with what they apply to.
#[verifier::loop_isolation(false)]
#[verifier::rlimit(40)]
fn parse_postfix_operators_and_calls(main: &mut Main, tokens: &mut Vec<MaybeParsed>) -> (r: Result<(), ErrorAt>)
    requires
        old(main).wf(),
        old(tokens)@.len() >= 1,
    ensures
        final(main).wf(),
        r is Ok ==> 1 <= final(tokens)@.len() <= old(tokens)@.len(),
        is_single_expression(old(tokens)@) ==> r is Ok && final(tokens)@ == old(tokens)@,
        only_type_builtins(old(tokens)@) ==> {
            &&& r is Ok <==> postfix_from(old(tokens)@, 0) is Ok
            &&& r is Ok ==> final(tokens)@ == postfix_from(old(tokens)@, 0)->Ok_0
            &&& r matches Err(e) ==> is_return_type_error(e, postfix_from(old(tokens)@, 0)->Err_0)
            &&& *final(main) == *old(main)
        },
{
    let mut x: usize = 0;
    while x < tokens.len() - 1
        invariant
            main.wf(),
            x < tokens@.len(),
            1 <= tokens@.len() <= old(tokens)@.len(),
            is_single_expression(old(tokens)@) ==> tokens@ == old(tokens)@,
            only_type_builtins(old(tokens)@) ==> {
                &&& only_type_builtins(tokens@)
                &&& postfix_from(tokens@, x as int) == postfix_from(old(tokens)@, 0)
                &&& *main == *old(main)
            },
        decreases tokens@.len() - x,
    {
        let parsed_x = tokens[x].is_parsed();
        let next_kind = kind_of(&tokens[x + 1]);
        let after_parsed = x + 2 < tokens.len() && tokens[x + 2].is_parsed();
        let keyword = keyword_at(&tokens[x]);
        let builtin = match keyword {
            Some(k) => is_builtin_keyword(k),
            None => false,
        };
        let next_is_postfix = match next_kind {
            TokenKind::PostfixOperator => true,
            _ => false,
        };
        let next_is_arguments = match next_kind {
            TokenKind::Arguments => true,
            _ => false,
        };
        let next_is_square = match next_kind {
            TokenKind::Square => true,
            _ => false,
        };
        let skip_postfix = !parsed_x || (!next_is_postfix || after_parsed);
        let skip_call = !parsed_x || !(next_is_arguments || next_is_square);
        let skip_builtin = !builtin || !next_is_arguments;
        if skip_postfix && skip_call && skip_builtin {
            x = x + 1;
            continue;
        }
        if builtin {
            let ghost before = tokens@;
            let (start_line, start_column) = start_of(&tokens[x]);
            let arguments_token = tokens.remove(x + 1).unwrap_partially_parsed();
            let end_line = arguments_token.end_line;
            let end_column = arguments_token.end_column;
            let arguments = match arguments_token.variant {
                TanukiPartiallyParsedTokenVariant::FunctionArgumentsOrParameters(arguments, return_type) => {
                    if let Some(return_type) = return_type {
                        return Err(error_at(Error::UnexpectedReturnType, return_type.start_line, return_type.start_column));
                    }
                    arguments
                },
                _ => {
                    proof {
                        assert(false);
                    }
                    return Err(error_at(Error::ExpectedExpression, start_line, start_column));
                },
            };
            let k = match keyword {
                Some(k) => k,
                None => return Err(error_at(Error::ExpectedExpression, start_line, start_column)),
            };
            let expression = parse_builtin_function(main, k, arguments, start_line, start_column, end_line, end_column)?;
            let _ = tokens.remove(x);
            tokens.insert(x, MaybeParsedToken::Parsed(expression));
            proof {
                if only_type_builtins(old(tokens)@) {
                    assert(!is_other_builtin(before[x as int]));
                    assert(type_builtin_call(before, x as int));
                    assert(tokens@ =~= replace_two(
                        before,
                        x as int,
                        MaybeParsedToken::Parsed(builtin_join(before[x as int], before[x + 1]).unwrap()),
                    ));
                    assert forall|i: int| 0 <= i < tokens@.len() implies !is_other_builtin(#[trigger] tokens@[i]) by {
                        if i > x {
                            assert(tokens@[i] == before[i + 1]);
                        } else if i < x {
                            assert(tokens@[i] == before[i]);
                        }
                    }
                }
            }
            continue;
        }
        let ghost before = tokens@;
        let next = tokens.remove(x + 1);
        let operand = tokens.remove(x).unwrap_parsed();
        let operand_start_line = operand.start_line;
        let operand_start_column = operand.start_column;
        let expression = match next {
            MaybeParsedToken::Unparsed(token) => match token.variant {
                TanukiTokenVariant::Operator { postfix_unary_operator: Some(operator), .. } => TanukiExpression {
                    start_line: operand_start_line,
                    start_column: operand_start_column,
                    variant: TanukiExpressionVariant::PostfixUnaryOperator(operator, Box::new(operand)),
                    end_line: token.end_line,
                    end_column: token.end_column,
                },
                _ => {
                    proof {
                        assert(false);
                    }
                    return Err(error_at(Error::ExpectedExpression, operand_start_line, operand_start_column));
                },
            },
            MaybeParsedToken::PartiallyParsed(partial) => match partial.variant {
                TanukiPartiallyParsedTokenVariant::FunctionArgumentsOrParameters(arguments, return_type) => {
                    if let Some(return_type) = return_type {
                        return Err(error_at(Error::UnexpectedReturnType, return_type.start_line, return_type.start_column));
                    }
                    TanukiExpression {
                        start_line: operand_start_line,
                        start_column: operand_start_column,
                        variant: TanukiExpressionVariant::FunctionCall { function_pointer: Box::new(operand), arguments },
                        end_line: partial.end_line,
                        end_column: partial.end_column,
                    }
                },
                TanukiPartiallyParsedTokenVariant::SquareParenthesised(index) => TanukiExpression {
                    start_line: operand_start_line,
                    start_column: operand_start_column,
                    variant: TanukiExpressionVariant::Index(Box::new(operand), index),
                    end_line: partial.end_line,
                    end_column: partial.end_column,
                },
                _ => {
                    proof {
                        assert(false);
                    }
                    return Err(error_at(Error::ExpectedExpression, operand_start_line, operand_start_column));
                },
            },
            MaybeParsedToken::Parsed(_) => {
                proof {
                    assert(false);
                }
                return Err(error_at(Error::ExpectedExpression, operand_start_line, operand_start_column));
            },
        };
        tokens.insert(x, MaybeParsedToken::Parsed(expression));
        proof {
            assert(tokens@ =~= replace_two(
                before,
                x as int,
                MaybeParsedToken::Parsed(postfix_join(before[x + 1], before[x as int]->Parsed_0).unwrap()),
            ));
            if only_type_builtins(old(tokens)@) {
                assert forall|i: int| 0 <= i < tokens@.len() implies !is_other_builtin(#[trigger] tokens@[i]) by {
                    if i > x {
                        assert(tokens@[i] == before[i + 1]);
                    } else if i < x {
                        assert(tokens@[i] == before[i]);
                    }
                }
            }
        }
    }
    Ok(())
}


/// The place where an unparsed token starts and ends.
fn unparsed_span(t: &MaybeParsed) -> (r: (usize, usize, usize, usize))
    ensures
        (r.0, r.1) == start_place(*t),
        (r.2, r.3) == end_place(*t),
{
    match t {
        MaybeParsedToken::Unparsed(tok) => (tok.start_line, tok.start_column, tok.end_line, tok.end_column),
        MaybeParsedToken::Parsed(e) => (e.start_line, e.start_column, e.end_line, e.end_column),
        MaybeParsedToken::PartiallyParsed(p) => (p.start_line, p.start_column, p.end_line, p.end_column),
    }
}

/// Whether no token is an unparsed colon.
pub open spec fn no_colons(tokens: Seq<MaybeParsed>) -> bool {
    forall|i: int| 0 <= i < tokens.len() ==> !is_colon_token(#[trigger] tokens[i])
}

/// Pairs each ternary operator with its colon, from the last colon back, and parses what stands
/// between them into the middle operand.
#[verifier::loop_isolation(false)]
#[verifier::rlimit(60)]
fn parse_ternary_centers(main: &mut Main, tokens: &mut Vec<MaybeParsed>) -> (r: Result<(), ErrorAt>)
    requires
        old(main).wf(),
        old(tokens)@.len() >= 1,
    ensures
        final(main).wf(),
        r is Ok ==> 1 <= final(tokens)@.len() <= old(tokens)@.len(),
        is_single_expression(old(tokens)@) ==> r is Ok && final(tokens)@ == old(tokens)@,
        no_colons(old(tokens)@) ==> r is Ok && final(tokens)@ == old(tokens)@ && *final(main) == *old(main),
        r is Ok ==> no_colons(final(tokens)@),
        is_colon_token(old(tokens)@.last()) ==> (r matches Err(e) && e.error == Error::ColonAtExpressionEnd),
        only_type_builtins(old(tokens)@) ==> {
            &&& *final(main) == *old(main)
            &&& match centers_from(old(tokens)@, old(tokens)@.len() - 1) {
                Ok(u) => r is Ok && final(tokens)@ == u,
                Err(f) => r matches Err(e) && is_parse_failure(e, f),
            }
        },
    decreases old(tokens)@.len(), 0nat,
{
    let mut x: usize = tokens.len() - 1;
    loop
        invariant
            main.wf(),
            x < tokens@.len(),
            1 <= tokens@.len() <= old(tokens)@.len(),
            no_colons(tokens@.subrange(x + 1, tokens@.len() as int)),
            x + 1 == tokens@.len() ==> tokens@ == old(tokens)@,
            is_colon_token(old(tokens)@.last()) ==> x + 1 == tokens@.len(),
            is_single_expression(old(tokens)@) ==> tokens@ == old(tokens)@,
            no_colons(old(tokens)@) ==> tokens@ == old(tokens)@ && *main == *old(main),
            only_type_builtins(old(tokens)@) ==> {
                &&& only_type_builtins(tokens@)
                &&& centers_from(tokens@, x as int) == centers_from(old(tokens)@, old(tokens)@.len() - 1)
                &&& *main == *old(main)
            },
        decreases x,
    {
        if !colon_token(&tokens[x]) {
            if x == 0 {
                proof {
                    lemma_centers_step(tokens@, 0);
                    lemma_centers_step(tokens@, -1);
                    assert forall|i: int| 0 <= i < tokens@.len() implies !is_colon_token(#[trigger] tokens@[i]) by {
                        if i > 0 {
                            assert(tokens@[i] == tokens@.subrange(1, tokens@.len() as int)[i - 1]);
                        }
                    }
                }
                break;
            }
            proof {
                lemma_centers_step(tokens@, x as int);
                assert forall|i: int| 0 <= i < tokens@.subrange(x as int, tokens@.len() as int).len() implies !is_colon_token(
                    #[trigger] tokens@.subrange(x as int, tokens@.len() as int)[i],
                ) by {
                    if i > 0 {
                        assert(tokens@.subrange(x as int, tokens@.len() as int)[i] == tokens@.subrange(x + 1, tokens@.len() as int)[i
                            - 1]);
                    }
                }
            }
            x = x - 1;
            continue;
        }
        let ghost with_colon = tokens@;
        let colon = tokens.remove(x);
        let ghost t = tokens@;
        let ghost tail = tokens@.subrange(x as int, tokens@.len() as int);
        proof {
            lemma_centers_step(with_colon, x as int);
            assert(tail =~= with_colon.subrange(x + 1, with_colon.len() as int));
            assert(no_colons(tail));
        }
        let (colon_line, colon_column, colon_end_line, colon_end_column) = unparsed_span(&colon);
        if x == tokens.len() {
            return Err(error_at(Error::ColonAtExpressionEnd, colon_line, colon_column));
        }
        if x == 0 {
            return Err(error_at(Error::ColonWithoutMatchingTernaryOperator, colon_line, colon_column));
        }
        let mut y: usize = x - 1;
        let mut depth: usize = 0;
        let ghost outer_x = x;
        loop
            invariant
                main.wf(),
                tokens@ == t,
                t == with_colon.remove(outer_x as int),
                colon == with_colon[outer_x as int],
                with_colon.len() == t.len() + 1,
                only_type_builtins(old(tokens)@) ==> {
                    &&& only_type_builtins(with_colon)
                    &&& centers_from(with_colon, outer_x as int) == centers_from(old(tokens)@, old(tokens)@.len() - 1)
                    &&& *main == *old(main)
                    &&& matching_ternary(t, y as int, depth as nat) == matching_ternary(t, outer_x - 1, 0)
                },
                x == outer_x,
                y < x < tokens@.len(),
                tokens@.len() < old(tokens)@.len(),
                depth <= x - y,
                tokens@.subrange(x as int, tokens@.len() as int) == tail,
                !is_colon_token(old(tokens)@.last()),
                no_colons(tail),
            decreases y,
        {
            if colon_token(&tokens[y]) {
                depth = depth + 1;
            } else {
                match ternary_at(&tokens[y]) {
                    Some(operator) => {
                        if depth > 0 {
                            depth = depth - 1;
                        } else {
                            let (start_line, start_column) = start_of(&tokens[y]);
                            let mut middle: Vec<MaybeParsed> = Vec::new();
                            let mut k: usize = y + 1;
                            while k < x
                                invariant
                                    y + 1 <= k <= x,
                                    middle@ == t.subrange(y + 1, k as int),
                                    tokens@ == t.take(y + 1) + t.skip(k as int),
                                    x < tokens@.len() + (k - y - 1),
                                    middle@.len() == k - y - 1,
                                    tokens@.len() + middle@.len() < old(tokens)@.len(),
                                    tokens@.len() - tail.len() == y + 1 + (x - k),
                                    tokens@.subrange(tokens@.len() - tail.len(), tokens@.len() as int) == tail,
                                decreases x - k,
                            {
                                let ghost before_removal = tokens@;
                                middle.push(tokens.remove(y + 1));
                                proof {
                                    assert(middle@ =~= t.subrange(y + 1, k + 1));
                                    assert(tokens@ =~= t.take(y + 1) + t.skip(k + 1));
                                    assert(tokens@.subrange(tokens@.len() - tail.len(), tokens@.len() as int) =~= before_removal.subrange(
                                        before_removal.len() - tail.len(),
                                        before_removal.len() as int,
                                    ));
                                }
                                k = k + 1;
                            }
                            if middle.len() == 0 {
                                return Err(error_at(Error::ExpectedExpression, colon_line, colon_column));
                            }
                            proof {
                                if only_type_builtins(old(tokens)@) {
                                    assert forall|i: int| 0 <= i < middle@.len() implies plain_token(#[trigger] middle@[i]) by {
                                        assert(middle@[i] == t[y + 1 + i]);
                                        if y + 1 + i < outer_x {
                                            assert(t[y + 1 + i] == with_colon[y + 1 + i]);
                                        }
                                        assert(!is_other_builtin(with_colon[y + 1 + i]));
                                    }
                                }
                            }
                            let ghost middle_tokens = middle@;
                            let middle_expression = match parse_maybe_parsed_tokens(main, middle) {
                                Ok(e) => e,
                                Err(e) => return Err(e),
                            };
                            let ghost before_join = tokens@;
                            let _ = tokens.remove(y);
                            tokens.insert(
                                y,
                                MaybeParsedToken::PartiallyParsed(
                                    TanukiPartiallyParsedToken {
                                        variant: TanukiPartiallyParsedTokenVariant::TernaryOperatorCenter(
                                            operator,
                                            Box::new(middle_expression),
                                        ),
                                        start_line,
                                        start_column,
                                        end_line: colon_end_line,
                                        end_column: colon_end_column,
                                    },
                                ),
                            );
                            proof {
                                assert(tokens@.subrange(y + 1, tokens@.len() as int) =~= before_join.subrange(
                                    y + 1,
                                    before_join.len() as int,
                                ));
                                assert(before_join.subrange(y + 1, before_join.len() as int) == tail);
                                if only_type_builtins(old(tokens)@) {
                                    assert(tokens@ =~= t.take(y as int) + seq![center_token(t[y as int], middle_expression, colon)]
                                        + t.skip(outer_x as int));
                                    assert forall|i: int| 0 <= i < tokens@.len() implies !is_other_builtin(#[trigger] tokens@[i]) by {
                                        if i < y {
                                            assert(tokens@[i] == with_colon[i]);
                                        } else if i > y {
                                            assert(tokens@[i] == t[i - y + outer_x - 1]);
                                            assert(t[i - y + outer_x - 1] == with_colon[i - y + outer_x]);
                                        }
                                    }
                                }
                            }
                            x = y;
                            break;
                        }
                    },
                    None => {},
                }
            }
            if y == 0 {
                return Err(error_at(Error::ColonWithoutMatchingTernaryOperator, colon_line, colon_column));
            }
            y = y - 1;
        }
    }
    Ok(())
}

/// The infix binary operator an unparsed operator token can be read as, if any.
pub open spec fn infix_of(t: MaybeParsed) -> Option<TanukiInfixBinaryOperator> {
    match t {
        MaybeParsedToken::Unparsed(tok) => match tok.variant {
            TanukiTokenVariant::Operator { infix_binary_operator, .. } => infix_binary_operator,
            _ => None,
        },
        _ => None,
    }
}

fn infix_at(t: &MaybeParsed) -> (r: Option<TanukiInfixBinaryOperator>)
    ensures
        r == infix_of(*t),
{
    match t {
        MaybeParsedToken::Unparsed(tok) => match &tok.variant {
            TanukiTokenVariant::Operator { infix_binary_operator, .. } => *infix_binary_operator,
            _ => None,
        },
        _ => None,
    }
}

/// The symbol of an unparsed operator token; empty for any other token.
pub open spec fn symbol_of(t: MaybeParsed) -> Seq<char> {
    match t {
        MaybeParsedToken::Unparsed(tok) => match tok.variant {
            TanukiTokenVariant::Operator { symbol, .. } => symbol@,
            _ => Seq::empty(),
        },
        _ => Seq::empty(),
    }
}

/// The symbol of an unparsed operator token; empty for any other token.
fn symbol_at(t: &MaybeParsed) -> (r: Vec<char>)
    ensures
        r@ == symbol_of(*t),
{
    match t {
        MaybeParsedToken::Unparsed(tok) => match &tok.variant {
            TanukiTokenVariant::Operator { symbol, .. } => clone_chars(symbol),
            _ => Vec::new(),
        },
        _ => Vec::new(),
    }
}

/// Whether a token is a partially parsed list of arguments or parameters.
pub open spec fn is_arguments_token(t: MaybeParsed) -> bool {
    t matches MaybeParsedToken::PartiallyParsed(p) && p.variant is FunctionArgumentsOrParameters
}

fn arguments_token(t: &MaybeParsed) -> (r: bool)
    ensures
        r == is_arguments_token(*t),
{
    match t {
        MaybeParsedToken::PartiallyParsed(p) => match &p.variant {
            TanukiPartiallyParsedTokenVariant::FunctionArgumentsOrParameters(..) => true,
            _ => false,
        },
        _ => false,
    }
}

/// Whether the token at `x` joins the expression after it in the prefix pass: a prefix operator
/// at the start or after an unparsed token, an expression (a type before a value), or `@export`
/// or `@entrypoint`.
pub open spec fn joins_prefix(tokens: Seq<MaybeParsed>, x: int) -> bool {
    let next_parsed = x + 1 < tokens.len() && tokens[x + 1] is Parsed;
    ||| is_operator_token(tokens[x], false) && next_parsed && (x == 0 || tokens[x - 1] is Unparsed)
    ||| next_parsed && tokens[x] is Parsed
    ||| next_parsed && (keyword_of(tokens[x]) == Some(TanukiKeyword::Export) || keyword_of(tokens[x]) == Some(
        TanukiKeyword::Entrypoint,
    ))
}

/// The expression a token makes with the expression after it in the prefix pass; `None` for an
/// operator token with no prefix unary operator.
pub open spec fn prefix_join(current: MaybeParsed, operand: TanukiExpression) -> Option<TanukiExpression> {
    match current {
        MaybeParsedToken::Unparsed(tok) => {
            let variant = match tok.variant {
                TanukiTokenVariant::Operator { prefix_unary_operator, .. } => match prefix_unary_operator {
                    Some(operator) => Some(TanukiExpressionVariant::PrefixUnaryOperator(operator, Box::new(operand))),
                    None => None,
                },
                TanukiTokenVariant::Keyword(TanukiKeyword::Export) => Some(TanukiExpressionVariant::Export(Box::new(operand))),
                _ => Some(TanukiExpressionVariant::Entrypoint(Box::new(operand))),
            };
            match variant {
                Some(v) => Some(
                    TanukiExpression {
                        variant: v,
                        start_line: tok.start_line,
                        start_column: tok.start_column,
                        end_line: operand.end_line,
                        end_column: operand.end_column,
                    },
                ),
                None => None,
            }
        },
        MaybeParsedToken::Parsed(type_expression) => Some(
            TanukiExpression {
                variant: TanukiExpressionVariant::TypeAndValue(Box::new(type_expression), Box::new(operand)),
                start_line: operand.start_line,
                start_column: operand.start_column,
                end_line: operand.end_line,
                end_column: operand.end_column,
            },
        ),
        MaybeParsedToken::PartiallyParsed(_) => None,
    }
}

/// The prefix pass from position `x` back to the start: a token that joins the expression after
/// it is joined with it, and the scan goes on from the joined expression. `Err` holds an operator
/// token with no prefix unary operator.
pub open spec fn prefix_from(tokens: Seq<MaybeParsed>, x: int) -> Result<Seq<MaybeParsed>, MaybeParsed>
    decreases x, tokens.len(),
{
    if x < 0 || x >= tokens.len() {
        Ok(tokens)
    } else if !joins_prefix(tokens, x) {
        if x == 0 {
            Ok(tokens)
        } else {
            prefix_from(tokens, x - 1)
        }
    } else {
        match prefix_join(tokens[x], tokens[x + 1]->Parsed_0) {
            Some(e) => prefix_from(replace_two(tokens, x, MaybeParsedToken::Parsed(e)), x),
            None => Err(tokens[x]),
        }
    }
}

/// Whether an error is the one for an operator token with no prefix unary operator.
pub open spec fn is_invalid_prefix_error(e: ErrorAt, t: MaybeParsed) -> bool {
    &&& e.error matches Error::InvalidPrefixUnaryOperator(symbol) && symbol@ == symbol_of(t)
    &&& e.line == Some(start_place(t).0)
    &&& e.column == Some(start_place(t).1)
}

/// Joins prefix operators, `@export` and `@entrypoint`, and a type written before a value with
/// their operands, from the right.
#[verifier::loop_isolation(false)]
fn parse_prefix_operators(tokens: &mut Vec<MaybeParsed>) -> (r: Result<(), ErrorAt>)
    requires
        old(tokens)@.len() >= 1,
    ensures
        r is Ok ==> 1 <= final(tokens)@.len() <= old(tokens)@.len(),
        is_single_expression(old(tokens)@) ==> r is Ok && final(tokens)@ == old(tokens)@,
        r is Ok <==> prefix_from(old(tokens)@, last_but_one(old(tokens)@)) is Ok,
        r is Ok ==> final(tokens)@ == prefix_from(old(tokens)@, last_but_one(old(tokens)@))->Ok_0,
        r matches Err(e) ==> is_invalid_prefix_error(e, prefix_from(old(tokens)@, last_but_one(old(tokens)@))->Err_0),
{
    let mut x: usize = if tokens.len() >= 2 {
        tokens.len() - 2
    } else {
        0
    };
    loop
        invariant
            x < tokens@.len(),
            1 <= tokens@.len() <= old(tokens)@.len(),
            is_single_expression(old(tokens)@) ==> tokens@ == old(tokens)@,
            prefix_from(tokens@, x as int) == prefix_from(old(tokens)@, last_but_one(old(tokens)@)),
        decreases x, tokens@.len(),
    {
        let len = tokens.len();
        let next_parsed = x + 1 < len && tokens[x + 1].is_parsed();
        let prefix_case = operator_token(&tokens[x], false) && next_parsed && (x == 0 || tokens[x - 1].is_unparsed());
        let pair_case = next_parsed && tokens[x].is_parsed();
        let keyword_case = next_parsed && match keyword_at(&tokens[x]) {
            Some(TanukiKeyword::Export) | Some(TanukiKeyword::Entrypoint) => true,
            _ => false,
        };
        if !prefix_case && !pair_case && !keyword_case {
            if x == 0 {
                break;
            }
            x = x - 1;
            continue;
        }
        let ghost before = tokens@;
        let operand = tokens.remove(x + 1).unwrap_parsed();
        let operand_start_line = operand.start_line;
        let operand_start_column = operand.start_column;
        let operand_end_line = operand.end_line;
        let operand_end_column = operand.end_column;
        let current = tokens.remove(x);
        let expression = match current {
            MaybeParsedToken::Unparsed(token) => {
                let variant = match token.variant {
                    TanukiTokenVariant::Operator { prefix_unary_operator, symbol, .. } => match prefix_unary_operator {
                        Some(operator) => TanukiExpressionVariant::PrefixUnaryOperator(operator, Box::new(operand)),
                        None => return Err(error_at(Error::InvalidPrefixUnaryOperator(symbol), token.start_line, token.start_column)),
                    },
                    TanukiTokenVariant::Keyword(TanukiKeyword::Export) => TanukiExpressionVariant::Export(Box::new(operand)),
                    _ => TanukiExpressionVariant::Entrypoint(Box::new(operand)),
                };
                TanukiExpression {
                    variant,
                    start_line: token.start_line,
                    start_column: token.start_column,
                    end_line: operand_end_line,
                    end_column: operand_end_column,
                }
            },
            MaybeParsedToken::Parsed(type_expression) => TanukiExpression {
                variant: TanukiExpressionVariant::TypeAndValue(Box::new(type_expression), Box::new(operand)),
                start_line: operand_start_line,
                start_column: operand_start_column,
                end_line: operand_end_line,
                end_column: operand_end_column,
            },
            MaybeParsedToken::PartiallyParsed(p) => {
                proof {
                    assert(false);
                }
                return Err(error_at(Error::ExpectedExpression, p.start_line, p.start_column));
            },
        };
        tokens.insert(x, MaybeParsedToken::Parsed(expression));
        proof {
            assert(tokens@ =~= replace_two(
                before,
                x as int,
                MaybeParsedToken::Parsed(prefix_join(before[x as int], before[x + 1]->Parsed_0).unwrap()),
            ));
        }
    }
    Ok(())
}

/// The expression an infix binary operator makes of the expressions on either side of it.
pub open spec fn infix_expression(operator: TanukiInfixBinaryOperator, lhs: TanukiExpression, rhs: TanukiExpression) -> TanukiExpression {
    TanukiExpression {
        variant: TanukiExpressionVariant::InfixBinaryOperator(operator, Box::new(lhs), Box::new(rhs)),
        start_line: lhs.start_line,
        start_column: lhs.start_column,
        end_line: rhs.end_line,
        end_column: rhs.end_column,
    }
}

/// Tokens with the three at `x` replaced by one.
pub open spec fn replace_three(tokens: Seq<MaybeParsed>, x: int, t: MaybeParsed) -> Seq<MaybeParsed> {
    tokens.take(x) + seq![t] + tokens.skip(x + 3)
}

/// One precedence level of the infix pass, from position `x` on: an expression, an operator of
/// the level and an expression are joined into one, and the scan goes on from the joined
/// expression. `Err` holds an operator token that is no infix binary operator.
pub open spec fn infix_level_from(tokens: Seq<MaybeParsed>, level: int, x: int) -> Result<Seq<MaybeParsed>, MaybeParsed>
    decreases tokens.len() - x,
{
    if x < 0 || tokens.len() < 2 || x >= tokens.len() - 2 {
        Ok(tokens)
    } else if !(tokens[x] is Parsed) || !is_operator_token(tokens[x + 1], false) || !(tokens[x + 2] is Parsed) {
        infix_level_from(tokens, level, x + 1)
    } else {
        match infix_of(tokens[x + 1]) {
            None => Err(tokens[x + 1]),
            Some(operator) => if operator.spec_in_precedence_level(level) {
                infix_level_from(
                    replace_three(
                        tokens,
                        x,
                        MaybeParsedToken::Parsed(infix_expression(operator, tokens[x]->Parsed_0, tokens[x + 2]->Parsed_0)),
                    ),
                    level,
                    x,
                )
            } else {
                infix_level_from(tokens, level, x + 1)
            },
        }
    }
}

/// The infix pass from a precedence level on: each level in turn, the tightest first.
pub open spec fn infix_pass(tokens: Seq<MaybeParsed>, level: int) -> Result<Seq<MaybeParsed>, MaybeParsed>
    decreases TanukiInfixBinaryOperator::PRECEDENCE_LEVEL_COUNT - level,
{
    if level < 0 || level >= TanukiInfixBinaryOperator::PRECEDENCE_LEVEL_COUNT {
        Ok(tokens)
    } else {
        match infix_level_from(tokens, level, 0) {
            Ok(t) => infix_pass(t, level + 1),
            Err(e) => Err(e),
        }
    }
}

/// What is left of the infix pass at position `x` of a level.
pub open spec fn infix_rest(tokens: Seq<MaybeParsed>, level: int, x: int) -> Result<Seq<MaybeParsed>, MaybeParsed> {
    match infix_level_from(tokens, level, x) {
        Ok(t) => infix_pass(t, level + 1),
        Err(e) => Err(e),
    }
}

/// Whether an error is the one for an operator token that no infix binary operator has.
pub open spec fn is_invalid_infix_error(e: ErrorAt, t: MaybeParsed) -> bool {
    &&& e.error matches Error::InvalidInfixBinaryOperator(symbol) && symbol@ == symbol_of(t)
    &&& e.line == Some(start_place(t).0)
    &&& e.column == Some(start_place(t).1)
}

/// Joins infix binary operators with their operands, one precedence level after another,
/// from the left within each level.
#[verifier::loop_isolation(false)]
fn parse_infix_operators(tokens: &mut Vec<MaybeParsed>) -> (r: Result<(), ErrorAt>)
    requires
        old(tokens)@.len() >= 1,
    ensures
        r is Ok ==> 1 <= final(tokens)@.len() <= old(tokens)@.len(),
        is_single_expression(old(tokens)@) ==> r is Ok && final(tokens)@ == old(tokens)@,
        r is Ok <==> infix_pass(old(tokens)@, 0) is Ok,
        r is Ok ==> final(tokens)@ == infix_pass(old(tokens)@, 0)->Ok_0,
        r matches Err(e) ==> is_invalid_infix_error(e, infix_pass(old(tokens)@, 0)->Err_0),
{
    let mut level: usize = 0;
    while level < TanukiInfixBinaryOperator::PRECEDENCE_LEVEL_COUNT
        invariant
            1 <= tokens@.len() <= old(tokens)@.len(),
            is_single_expression(old(tokens)@) ==> tokens@ == old(tokens)@,
            level <= TanukiInfixBinaryOperator::PRECEDENCE_LEVEL_COUNT,
            infix_pass(tokens@, level as int) == infix_pass(old(tokens)@, 0),
        decreases TanukiInfixBinaryOperator::PRECEDENCE_LEVEL_COUNT - level,
    {
        let mut x: usize = 0;
        while tokens.len() >= 2 && x < tokens.len() - 2
            invariant
                1 <= tokens@.len() <= old(tokens)@.len(),
                is_single_expression(old(tokens)@) ==> tokens@ == old(tokens)@,
                level < TanukiInfixBinaryOperator::PRECEDENCE_LEVEL_COUNT,
                infix_rest(tokens@, level as int, x as int) == infix_pass(old(tokens)@, 0),
            decreases tokens@.len() - x,
        {
            if !tokens[x].is_parsed() || !operator_token(&tokens[x + 1], false) || !tokens[x + 2].is_parsed() {
                x = x + 1;
                continue;
            }
            let operator = match infix_at(&tokens[x + 1]) {
                Some(operator) => operator,
                None => {
                    let (line, column) = start_of(&tokens[x + 1]);
                    return Err(error_at(Error::InvalidInfixBinaryOperator(symbol_at(&tokens[x + 1])), line, column));
                },
            };
            if !operator.in_precedence_level(level) {
                x = x + 1;
                continue;
            }
            let ghost before = tokens@;
            let rhs = tokens.remove(x + 2).unwrap_parsed();
            let _ = tokens.remove(x + 1);
            let lhs = tokens.remove(x).unwrap_parsed();
            let start_line = lhs.start_line;
            let start_column = lhs.start_column;
            let end_line = rhs.end_line;
            let end_column = rhs.end_column;
            tokens.insert(
                x,
                MaybeParsedToken::Parsed(
                    TanukiExpression {
                        variant: TanukiExpressionVariant::InfixBinaryOperator(operator, Box::new(lhs), Box::new(rhs)),
                        start_line,
                        start_column,
                        end_line,
                        end_column,
                    },
                ),
            );
            proof {
                assert(tokens@ =~= replace_three(
                    before,
                    x as int,
                    MaybeParsedToken::Parsed(infix_expression(operator, before[x as int]->Parsed_0, before[x + 2]->Parsed_0)),
                ));
            }
        }
        level = level + 1;
    }
    Ok(())
}

/// Why a pass refuses the tokens, with the line and column it reports.
pub enum PassFailure {
    ColonAtExpressionEnd(usize, usize),
    ExpectedExpression(usize, usize),
}

/// Whether an error is the one described.
pub open spec fn is_pass_failure(e: ErrorAt, f: PassFailure) -> bool {
    match f {
        PassFailure::ColonAtExpressionEnd(l, c) => e.error is ColonAtExpressionEnd && e.line == Some(l) && e.column == Some(c),
        PassFailure::ExpectedExpression(l, c) => e.error is ExpectedExpression && e.line == Some(l) && e.column == Some(c),
    }
}

/// The expression a ternary operator, with its middle operand, makes of the expressions on
/// either side of it.
pub open spec fn ternary_expression(center: MaybeParsed, lhs: TanukiExpression, rhs: TanukiExpression) -> TanukiExpression {
    let p = center->PartiallyParsed_0;
    TanukiExpression {
        variant: TanukiExpressionVariant::InfixTernaryOperator(
            p.variant->TernaryOperatorCenter_0,
            Box::new(lhs),
            p.variant->TernaryOperatorCenter_1,
            Box::new(rhs),
        ),
        start_line: lhs.start_line,
        start_column: lhs.start_column,
        end_line: rhs.end_line,
        end_column: rhs.end_column,
    }
}

/// The ternary pass from position `x` back to the start: a ternary operator with its middle
/// operand is joined with the expressions on either side, and the scan goes on from the token
/// before; one without an expression on either side is refused.
pub open spec fn ternary_from(tokens: Seq<MaybeParsed>, x: int) -> Result<Seq<MaybeParsed>, PassFailure>
    decreases x,
{
    if x < 0 || x >= tokens.len() {
        Ok(tokens)
    } else if !is_ternary_center(tokens[x]) {
        if x == 0 {
            Ok(tokens)
        } else {
            ternary_from(tokens, x - 1)
        }
    } else if x == tokens.len() - 1 {
        Err(PassFailure::ColonAtExpressionEnd(end_place(tokens[x]).0, end_place(tokens[x]).1))
    } else if x == 0 || !(tokens[x - 1] is Parsed) {
        Err(PassFailure::ExpectedExpression(start_place(tokens[x]).0, start_place(tokens[x]).1))
    } else if !(tokens[x + 1] is Parsed) {
        Err(PassFailure::ExpectedExpression(end_place(tokens[x]).0, end_place(tokens[x]).1))
    } else {
        ternary_from(
            replace_three(
                tokens,
                x - 1,
                MaybeParsedToken::Parsed(ternary_expression(tokens[x], tokens[x - 1]->Parsed_0, tokens[x + 1]->Parsed_0)),
            ),
            x - 1,
        )
    }
}

/// Joins each ternary operator, with its middle operand, to the operands on either side, from the right.
#[verifier::loop_isolation(false)]
fn parse_ternary_operators(tokens: &mut Vec<MaybeParsed>) -> (r: Result<(), ErrorAt>)
    requires
        old(tokens)@.len() >= 1,
    ensures
        r is Ok ==> 1 <= final(tokens)@.len() <= old(tokens)@.len(),
        is_single_expression(old(tokens)@) ==> r is Ok && final(tokens)@ == old(tokens)@,
        r is Ok <==> ternary_from(old(tokens)@, old(tokens)@.len() - 1) is Ok,
        r is Ok ==> final(tokens)@ == ternary_from(old(tokens)@, old(tokens)@.len() - 1)->Ok_0,
        r matches Err(e) ==> is_pass_failure(e, ternary_from(old(tokens)@, old(tokens)@.len() - 1)->Err_0),
{
    let mut x: usize = tokens.len() - 1;
    loop
        invariant
            x < tokens@.len(),
            1 <= tokens@.len() <= old(tokens)@.len(),
            is_single_expression(old(tokens)@) ==> tokens@ == old(tokens)@,
            ternary_from(tokens@, x as int) == ternary_from(old(tokens)@, old(tokens)@.len() - 1),
        decreases x,
    {
        if !ternary_center(&tokens[x]) {
            if x == 0 {
                break;
            }
            x = x - 1;
            continue;
        }
        let ghost before = tokens@;
        let ghost at = x as int;
        let operator = tokens.remove(x).unwrap_partially_parsed();
        if x == tokens.len() {
            return Err(error_at(Error::ColonAtExpressionEnd, operator.end_line, operator.end_column));
        }
        let rhs = tokens.remove(x);
        if x == 0 {
            return Err(error_at(Error::ExpectedExpression, operator.start_line, operator.start_column));
        }
        x = x - 1;
        let lhs = tokens.remove(x);
        let lhs = match lhs {
            MaybeParsedToken::Parsed(lhs) => lhs,
            _ => return Err(error_at(Error::ExpectedExpression, operator.start_line, operator.start_column)),
        };
        let rhs = match rhs {
            MaybeParsedToken::Parsed(rhs) => rhs,
            _ => return Err(error_at(Error::ExpectedExpression, operator.end_line, operator.end_column)),
        };
        let start_line = lhs.start_line;
        let start_column = lhs.start_column;
        let end_line = rhs.end_line;
        let end_column = rhs.end_column;
        let variant = match operator.variant {
            TanukiPartiallyParsedTokenVariant::TernaryOperatorCenter(ternary_operator, middle) => TanukiExpressionVariant::InfixTernaryOperator(
                ternary_operator,
                Box::new(lhs),
                middle,
                Box::new(rhs),
            ),
            _ => {
                proof {
                    assert(false);
                }
                return Err(error_at(Error::ExpectedExpression, start_line, start_column));
            },
        };
        tokens.insert(x, MaybeParsedToken::Parsed(TanukiExpression { variant, start_line, start_column, end_line, end_column }));
        proof {
            assert(tokens@ =~= replace_three(
                before,
                at - 1,
                MaybeParsedToken::Parsed(ternary_expression(before[at], before[at - 1]->Parsed_0, before[at + 1]->Parsed_0)),
            ));
        }
    }
    Ok(())
}

/// Tokens with the two at `x` replaced by one.
pub open spec fn replace_two(tokens: Seq<MaybeParsed>, x: int, t: MaybeParsed) -> Seq<MaybeParsed> {
    tokens.take(x) + seq![t] + tokens.skip(x + 2)
}

/// The function definition that a list of parameters in parentheses makes with the body after it.
pub open spec fn function_definition(parameters_token: MaybeParsed, body: TanukiExpression) -> TanukiExpression {
    let p = parameters_token->PartiallyParsed_0;
    TanukiExpression {
        variant: TanukiExpressionVariant::FunctionDefinition {
            parameters: p.variant->FunctionArgumentsOrParameters_0,
            return_type: p.variant->FunctionArgumentsOrParameters_1,
            body_expression: Box::new(body),
        },
        start_line: p.start_line,
        start_column: p.start_column,
        end_line: body.end_line,
        end_column: body.end_column,
    }
}

/// The function definition pass from position `x` back to the start: parameters followed by an
/// expression are joined into a function definition, and the scan goes on from it.
pub open spec fn function_definitions_from(tokens: Seq<MaybeParsed>, x: int) -> Seq<MaybeParsed>
    decreases x, tokens.len(),
{
    if x < 0 {
        tokens
    } else if x + 1 >= tokens.len() || !is_arguments_token(tokens[x]) || !(tokens[x + 1] is Parsed) {
        if x == 0 {
            tokens
        } else {
            function_definitions_from(tokens, x - 1)
        }
    } else {
        function_definitions_from(
            replace_two(tokens, x, MaybeParsedToken::Parsed(function_definition(tokens[x], tokens[x + 1]->Parsed_0))),
            x,
        )
    }
}

/// Where the function definition pass starts: at the last token but one.
pub open spec fn last_but_one(tokens: Seq<MaybeParsed>) -> int {
    if tokens.len() >= 2 {
        tokens.len() - 2
    } else {
        0
    }
}

/// Joins parameters in parentheses with the body expression after them into function definitions, from the right.
#[verifier::loop_isolation(false)]
fn parse_function_definitions(tokens: &mut Vec<MaybeParsed>)
    requires
        old(tokens)@.len() >= 1,
    ensures
        1 <= final(tokens)@.len() <= old(tokens)@.len(),
        is_single_expression(old(tokens)@) ==> final(tokens)@ == old(tokens)@,
        final(tokens)@ == function_definitions_from(old(tokens)@, last_but_one(old(tokens)@)),
{
    let mut x: usize = if tokens.len() >= 2 {
        tokens.len() - 2
    } else {
        0
    };
    loop
        invariant
            x < tokens@.len(),
            1 <= tokens@.len() <= old(tokens)@.len(),
            is_single_expression(old(tokens)@) ==> tokens@ == old(tokens)@,
            function_definitions_from(tokens@, x as int) == function_definitions_from(old(tokens)@, last_but_one(old(tokens)@)),
        decreases x, tokens@.len(),
    {
        if x + 1 >= tokens.len() || !arguments_token(&tokens[x]) || !tokens[x + 1].is_parsed() {
            if x == 0 {
                break;
            }
            x = x - 1;
            continue;
        }
        let ghost before = tokens@;
        let body = tokens.remove(x + 1).unwrap_parsed();
        let parameters_token = tokens.remove(x).unwrap_partially_parsed();
        let end_line = body.end_line;
        let end_column = body.end_column;
        match parameters_token.variant {
            TanukiPartiallyParsedTokenVariant::FunctionArgumentsOrParameters(parameters, return_type) => {
                tokens.insert(
                    x,
                    MaybeParsedToken::Parsed(
                        TanukiExpression {
                            variant: TanukiExpressionVariant::FunctionDefinition { parameters, return_type, body_expression: Box::new(body) },
                            start_line: parameters_token.start_line,
                            start_column: parameters_token.start_column,
                            end_line,
                            end_column,
                        },
                    ),
                );
                proof {
                    assert(tokens@ =~= replace_two(
                        before,
                        x as int,
                        MaybeParsedToken::Parsed(function_definition(before[x as int], before[x + 1]->Parsed_0)),
                    ));
                }
            },
            _ => {
                proof {
                    assert(false);
                }
            },
        }
    }
}

/// Where a token of an expression ends.
pub open spec fn end_place(t: MaybeParsed) -> (usize, usize) {
    match t {
        MaybeParsedToken::Parsed(e) => (e.end_line, e.end_column),
        MaybeParsedToken::PartiallyParsed(p) => (p.end_line, p.end_column),
        MaybeParsedToken::Unparsed(tok) => (tok.end_line, tok.end_column),
    }
}

/// What an assignment operator token makes of the expressions on either side of it: `=` an
/// assignment, another operator the augmented assignment of its infix binary operator; `None`
/// where it has none.
pub open spec fn assignment_expression(operator: MaybeParsed, lhs: TanukiExpression, rhs: TanukiExpression) -> Option<TanukiExpression> {
    let variant = if symbol_of(operator) == "="@ {
        Some(TanukiExpressionVariant::Assignment(Box::new(lhs), Box::new(rhs)))
    } else {
        match infix_of(operator) {
            Some(b) => Some(TanukiExpressionVariant::AugmentedBinaryAssignment(b, Box::new(lhs), Box::new(rhs))),
            None => None,
        }
    };
    match variant {
        Some(v) => Some(
            TanukiExpression {
                variant: v,
                start_line: lhs.start_line,
                start_column: lhs.start_column,
                end_line: rhs.end_line,
                end_column: rhs.end_column,
            },
        ),
        None => None,
    }
}

/// The assignment pass from position `x` back to the start: an expression, an assignment operator
/// and an expression are joined into one, and the scan goes on from the token before. `Err`
/// holds an assignment operator token with no meaning.
pub open spec fn assignments_from(tokens: Seq<MaybeParsed>, x: int) -> Result<Seq<MaybeParsed>, MaybeParsed>
    decreases x,
{
    if x <= 0 || x >= tokens.len() {
        Ok(tokens)
    } else if !is_operator_token(tokens[x], true) || !(tokens[x - 1] is Parsed) || x == tokens.len() - 1 || !(
    tokens[x + 1] is Parsed) {
        assignments_from(tokens, x - 1)
    } else {
        match assignment_expression(tokens[x], tokens[x - 1]->Parsed_0, tokens[x + 1]->Parsed_0) {
            Some(e) => assignments_from(replace_three(tokens, x - 1, MaybeParsedToken::Parsed(e)), x - 1),
            None => Err(tokens[x]),
        }
    }
}

/// Whether an error is the one for an assignment operator token with no meaning.
pub open spec fn is_invalid_assignment_error(e: ErrorAt, t: MaybeParsed) -> bool {
    &&& e.error matches Error::InvalidAssignmentOperator(symbol) && symbol@ == symbol_of(t)
    &&& e.line == Some(end_place(t).0)
    &&& e.column == Some(end_place(t).1)
}

/// Joins assignment operators with their operands, from the right: `=` is an assignment and any
/// other assignment operator is the augmented form of its infix binary operator.
#[verifier::loop_isolation(false)]
fn parse_assignments(tokens: &mut Vec<MaybeParsed>) -> (r: Result<(), ErrorAt>)
    requires
        old(tokens)@.len() >= 1,
    ensures
        r is Ok ==> 1 <= final(tokens)@.len() <= old(tokens)@.len(),
        is_single_expression(old(tokens)@) ==> r is Ok && final(tokens)@ == old(tokens)@,
        r is Ok <==> assignments_from(old(tokens)@, old(tokens)@.len() - 1) is Ok,
        r is Ok ==> final(tokens)@ == assignments_from(old(tokens)@, old(tokens)@.len() - 1)->Ok_0,
        r matches Err(e) ==> is_invalid_assignment_error(e, assignments_from(old(tokens)@, old(tokens)@.len() - 1)->Err_0),
{
    let mut x: usize = tokens.len() - 1;
    loop
        invariant
            x < tokens@.len(),
            1 <= tokens@.len() <= old(tokens)@.len(),
            is_single_expression(old(tokens)@) ==> tokens@ == old(tokens)@,
            assignments_from(tokens@, x as int) == assignments_from(old(tokens)@, old(tokens)@.len() - 1),
        decreases x,
    {
        if !operator_token(&tokens[x], true) || x == 0 || !tokens[x - 1].is_parsed() || x == tokens.len() - 1
            || !tokens[x + 1].is_parsed() {
            if x == 0 {
                break;
            }
            x = x - 1;
            continue;
        }
        let ghost before = tokens@;
        let ghost at = x as int;
        let operator = tokens.remove(x).unwrap_unparsed();
        let rhs = tokens.remove(x).unwrap_parsed();
        x = x - 1;
        let lhs = tokens.remove(x).unwrap_parsed();
        let start_line = lhs.start_line;
        let start_column = lhs.start_column;
        let end_line = rhs.end_line;
        let end_column = rhs.end_column;
        let variant = match operator.variant {
            TanukiTokenVariant::Operator { infix_binary_operator, symbol, .. } => {
                if chars_eq_str(symbol.as_slice(), "=") {
                    TanukiExpressionVariant::Assignment(Box::new(lhs), Box::new(rhs))
                } else {
                    match infix_binary_operator {
                        Some(binary_operator) => TanukiExpressionVariant::AugmentedBinaryAssignment(
                            binary_operator,
                            Box::new(lhs),
                            Box::new(rhs),
                        ),
                        None => return Err(error_at(Error::InvalidAssignmentOperator(symbol), operator.end_line, operator.end_column)),
                    }
                }
            },
            _ => {
                proof {
                    assert(false);
                }
                return Err(error_at(Error::ExpectedExpression, start_line, start_column));
            },
        };
        tokens.insert(x, MaybeParsedToken::Parsed(TanukiExpression { variant, start_line, start_column, end_line, end_column }));
        proof {
            assert(tokens@ =~= replace_three(
                before,
                at - 1,
                MaybeParsedToken::Parsed(assignment_expression(before[at], before[at - 1]->Parsed_0, before[at + 1]->Parsed_0).unwrap()),
            ));
        }
    }
    Ok(())
}

/// Whether a token is not the keyword of a builtin function other than a type constructor.
pub open spec fn plain_token(t: MaybeParsed) -> bool {
    !is_other_builtin(t)
}

/// Whether no token is the keyword of a builtin function other than a type constructor: the
/// tokens of an expression without imports, links, transmutes or information constants.
pub open spec fn plain_tokens(tokens: Seq<MaybeParsed>) -> bool {
    forall|i: int| 0 <= i < tokens.len() ==> plain_token(#[trigger] tokens[i])
}

proof fn lemma_plain_parts(tokens: Seq<MaybeParsed>)
    requires
        plain_tokens(tokens),
    ensures
        only_type_builtins(tokens),
{
    assert forall|i: int| 0 <= i < tokens.len() implies !is_other_builtin(#[trigger] tokens[i]) by {
        assert(plain_token(tokens[i]));
    }
}

/// Replacing tokens by a parsed expression keeps the tokens plain.
proof fn lemma_replace_plain(tokens: Seq<MaybeParsed>, x: int, k: int, e: TanukiExpression)
    requires
        plain_tokens(tokens),
        0 <= x,
        x + k <= tokens.len(),
        k >= 0,
    ensures
        plain_tokens(tokens.take(x) + seq![MaybeParsedToken::Parsed(e)] + tokens.skip(x + k)),
{
    let u = tokens.take(x) + seq![MaybeParsedToken::Parsed(e)] + tokens.skip(x + k);
    assert forall|i: int| 0 <= i < u.len() implies plain_token(#[trigger] u[i]) by {
        if i < x {
            assert(u[i] == tokens[i]);
        } else if i > x {
            assert(u[i] == tokens[i - 1 + k]);
        }
    }
}

/// The postfix pass never makes the tokens more.
pub proof fn lemma_postfix_len(tokens: Seq<MaybeParsed>, x: int)
    ensures
        postfix_from(tokens, x) matches Ok(u) ==> u.len() <= tokens.len(),
    decreases tokens.len() - x,
{
    if x < 0 || x >= tokens.len() - 1 {
    } else if type_builtin_call(tokens, x) {
        if let Some(e) = builtin_join(tokens[x], tokens[x + 1]) {
            lemma_postfix_len(replace_two(tokens, x, MaybeParsedToken::Parsed(e)), x);
        }
    } else if !joins_postfix(tokens, x) {
        lemma_postfix_len(tokens, x + 1);
    } else if let Some(e) = postfix_join(tokens[x + 1], tokens[x]->Parsed_0) {
        lemma_postfix_len(replace_two(tokens, x, MaybeParsedToken::Parsed(e)), x);
    }
}

proof fn lemma_postfix_plain(tokens: Seq<MaybeParsed>, x: int)
    requires
        plain_tokens(tokens),
    ensures
        postfix_from(tokens, x) matches Ok(u) ==> plain_tokens(u),
    decreases tokens.len() - x,
{
    if x < 0 || x >= tokens.len() - 1 {
    } else if type_builtin_call(tokens, x) {
        if let Some(e) = builtin_join(tokens[x], tokens[x + 1]) {
            lemma_replace_plain(tokens, x, 2, e);
            lemma_postfix_plain(replace_two(tokens, x, MaybeParsedToken::Parsed(e)), x);
        }
    } else if !joins_postfix(tokens, x) {
        lemma_postfix_plain(tokens, x + 1);
    } else if let Some(e) = postfix_join(tokens[x + 1], tokens[x]->Parsed_0) {
        lemma_replace_plain(tokens, x, 2, e);
        lemma_postfix_plain(replace_two(tokens, x, MaybeParsedToken::Parsed(e)), x);
    }
}

proof fn lemma_centers_plain(tokens: Seq<MaybeParsed>, x: int)
    requires
        plain_tokens(tokens),
    ensures
        centers_from(tokens, x) matches Ok(u) ==> plain_tokens(u),
    decreases tokens.len(), x + 1,
{
    reveal(centers_from);
    if x < 0 || x >= tokens.len() {
    } else if !is_colon_token(tokens[x]) {
        lemma_centers_plain(tokens, x - 1);
    } else {
        let colon = tokens[x];
        let t = tokens.remove(x);
        if x != t.len() && x != 0 {
            if let Some(y) = matching_ternary(t, x - 1, 0) {
                if 0 <= y < x && y + 1 != x {
                    if let Ok(e) = parse_rounds(t.subrange(y + 1, x)) {
                        let u = t.take(y) + seq![center_token(t[y], e, colon)] + t.skip(x);
                        assert forall|i: int| 0 <= i < u.len() implies plain_token(#[trigger] u[i]) by {
                            if i < y {
                                assert(u[i] == tokens[i]);
                            } else if i > y {
                                assert(u[i] == t[i - y + x - 1]);
                                assert(t[i - y + x - 1] == tokens[i - y + x]);
                            }
                        }
                        lemma_centers_plain(u, y);
                    }
                }
            }
        }
    }
}

proof fn lemma_prefix_plain(tokens: Seq<MaybeParsed>, x: int)
    requires
        plain_tokens(tokens),
    ensures
        prefix_from(tokens, x) matches Ok(u) ==> plain_tokens(u),
    decreases x, tokens.len(),
{
    if x < 0 || x >= tokens.len() {
    } else if !joins_prefix(tokens, x) {
        if x != 0 {
            lemma_prefix_plain(tokens, x - 1);
        }
    } else if let Some(e) = prefix_join(tokens[x], tokens[x + 1]->Parsed_0) {
        lemma_replace_plain(tokens, x, 2, e);
        lemma_prefix_plain(replace_two(tokens, x, MaybeParsedToken::Parsed(e)), x);
    }
}

proof fn lemma_infix_level_plain(tokens: Seq<MaybeParsed>, level: int, x: int)
    requires
        plain_tokens(tokens),
    ensures
        infix_level_from(tokens, level, x) matches Ok(u) ==> plain_tokens(u),
    decreases tokens.len() - x,
{
    if x < 0 || tokens.len() < 2 || x >= tokens.len() - 2 {
    } else if !(tokens[x] is Parsed) || !is_operator_token(tokens[x + 1], false) || !(tokens[x + 2] is Parsed) {
        lemma_infix_level_plain(tokens, level, x + 1);
    } else if let Some(operator) = infix_of(tokens[x + 1]) {
        if operator.spec_in_precedence_level(level) {
            let e = infix_expression(operator, tokens[x]->Parsed_0, tokens[x + 2]->Parsed_0);
            lemma_replace_plain(tokens, x, 3, e);
            lemma_infix_level_plain(replace_three(tokens, x, MaybeParsedToken::Parsed(e)), level, x);
        } else {
            lemma_infix_level_plain(tokens, level, x + 1);
        }
    }
}

proof fn lemma_infix_plain(tokens: Seq<MaybeParsed>, level: int)
    requires
        plain_tokens(tokens),
    ensures
        infix_pass(tokens, level) matches Ok(u) ==> plain_tokens(u),
    decreases TanukiInfixBinaryOperator::PRECEDENCE_LEVEL_COUNT - level,
{
    if level < 0 || level >= TanukiInfixBinaryOperator::PRECEDENCE_LEVEL_COUNT {
    } else {
        lemma_infix_level_plain(tokens, level, 0);
        if let Ok(t) = infix_level_from(tokens, level, 0) {
            lemma_infix_plain(t, level + 1);
        }
    }
}

proof fn lemma_ternary_plain(tokens: Seq<MaybeParsed>, x: int)
    requires
        plain_tokens(tokens),
    ensures
        ternary_from(tokens, x) matches Ok(u) ==> plain_tokens(u),
    decreases x,
{
    if x < 0 || x >= tokens.len() {
    } else if !is_ternary_center(tokens[x]) {
        if x != 0 {
            lemma_ternary_plain(tokens, x - 1);
        }
    } else if x == tokens.len() - 1 || x == 0 || !(tokens[x - 1] is Parsed) || !(tokens[x + 1] is Parsed) {
    } else {
        let e = ternary_expression(tokens[x], tokens[x - 1]->Parsed_0, tokens[x + 1]->Parsed_0);
        lemma_replace_plain(tokens, x - 1, 3, e);
        lemma_ternary_plain(replace_three(tokens, x - 1, MaybeParsedToken::Parsed(e)), x - 1);
    }
}

proof fn lemma_function_definitions_plain(tokens: Seq<MaybeParsed>, x: int)
    requires
        plain_tokens(tokens),
    ensures
        plain_tokens(function_definitions_from(tokens, x)),
    decreases x, tokens.len(),
{
    if x < 0 {
    } else if x + 1 >= tokens.len() || !is_arguments_token(tokens[x]) || !(tokens[x + 1] is Parsed) {
        if x != 0 {
            lemma_function_definitions_plain(tokens, x - 1);
        }
    } else {
        let e = function_definition(tokens[x], tokens[x + 1]->Parsed_0);
        lemma_replace_plain(tokens, x, 2, e);
        lemma_function_definitions_plain(replace_two(tokens, x, MaybeParsedToken::Parsed(e)), x);
    }
}

proof fn lemma_assignments_plain(tokens: Seq<MaybeParsed>, x: int)
    requires
        plain_tokens(tokens),
    ensures
        assignments_from(tokens, x) matches Ok(u) ==> plain_tokens(u),
    decreases x,
{
    if x <= 0 || x >= tokens.len() {
    } else if !is_operator_token(tokens[x], true) || !(tokens[x - 1] is Parsed) || x == tokens.len() - 1 || !(
    tokens[x + 1] is Parsed) {
        lemma_assignments_plain(tokens, x - 1);
    } else if let Some(e) = assignment_expression(tokens[x], tokens[x - 1]->Parsed_0, tokens[x + 1]->Parsed_0) {
        lemma_replace_plain(tokens, x - 1, 3, e);
        lemma_assignments_plain(replace_three(tokens, x - 1, MaybeParsedToken::Parsed(e)), x - 1);
    }
}

/// Why the passes refuse the tokens of an expression.
pub enum ParseFailure {
    /// Arguments written with a return type after an expression.
    ReturnType(MaybeParsed),
    /// An operator with no prefix unary operator.
    InvalidPrefix(MaybeParsed),
    /// An operator with no infix binary operator.
    InvalidInfix(MaybeParsed),
    /// A ternary operator without an expression on one side.
    Ternary(PassFailure),
    /// An assignment operator with no meaning.
    InvalidAssignment(MaybeParsed),
    /// Tokens that the passes leave as more than one expression, or as no expression; the place of
    /// the first.
    Unfinished(usize, usize),
    /// A colon with nothing after it.
    ColonAtEnd(MaybeParsed),
    /// A colon with no ternary operator before it to pair with.
    UnmatchedColon(MaybeParsed),
    /// A colon right after the ternary operator it pairs with.
    EmptyMiddle(MaybeParsed),
}

/// Whether an error is the one described.
pub open spec fn is_parse_failure(e: ErrorAt, f: ParseFailure) -> bool {
    match f {
        ParseFailure::ReturnType(t) => is_return_type_error(e, t),
        ParseFailure::InvalidPrefix(t) => is_invalid_prefix_error(e, t),
        ParseFailure::InvalidInfix(t) => is_invalid_infix_error(e, t),
        ParseFailure::Ternary(p) => is_pass_failure(e, p),
        ParseFailure::InvalidAssignment(t) => is_invalid_assignment_error(e, t),
        ParseFailure::Unfinished(l, c) => e.error matches Error::NotYetImplemented(m) && m@ == "Parsing some expressions"@
            && e.line == Some(l) && e.column == Some(c),
        ParseFailure::ColonAtEnd(t) => e.error == Error::ColonAtExpressionEnd && (e.line, e.column) == (
            Some(start_place(t).0),
            Some(start_place(t).1),
        ),
        ParseFailure::UnmatchedColon(t) => e.error == Error::ColonWithoutMatchingTernaryOperator && (e.line, e.column) == (
            Some(start_place(t).0),
            Some(start_place(t).1),
        ),
        ParseFailure::EmptyMiddle(t) => e.error == Error::ExpectedExpression && (e.line, e.column) == (
            Some(start_place(t).0),
            Some(start_place(t).1),
        ),
    }
}

/// The ternary operator that the colon removed from before `y + 1` pairs with: scanning back
/// from `y`, each colon passed over must first be paired with a ternary operator of its own.
pub open spec fn matching_ternary(t: Seq<MaybeParsed>, y: int, depth: nat) -> Option<int>
    decreases y,
{
    if y < 0 || y >= t.len() {
        None
    } else if !is_colon_token(t[y]) && ternary_of(t[y]) is Some && depth == 0 {
        Some(y)
    } else if y == 0 {
        None
    } else if is_colon_token(t[y]) {
        matching_ternary(t, y - 1, depth + 1)
    } else if ternary_of(t[y]) is Some {
        matching_ternary(t, y - 1, (depth - 1) as nat)
    } else {
        matching_ternary(t, y - 1, depth)
    }
}

/// The token a ternary operator and its middle operand make, from the operator to the colon.
pub open spec fn center_token(operator: MaybeParsed, middle: TanukiExpression, colon: MaybeParsed) -> MaybeParsed {
    MaybeParsedToken::PartiallyParsed(
        TanukiPartiallyParsedToken {
            variant: TanukiPartiallyParsedTokenVariant::TernaryOperatorCenter(ternary_of(operator).unwrap(), Box::new(middle)),
            start_line: start_place(operator).0,
            start_column: start_place(operator).1,
            end_line: end_place(colon).0,
            end_column: end_place(colon).1,
        },
    )
}

/// The pass of ternary operators' middle operands, from position `x` back: each colon is paired
/// with its ternary operator, and what stands between them is parsed into the middle operand.
#[verifier::opaque]
pub open spec fn centers_from(tokens: Seq<MaybeParsed>, x: int) -> Result<Seq<MaybeParsed>, ParseFailure>
    decreases tokens.len(), 0int, x + 1,
{
    if x < 0 || x >= tokens.len() {
        Ok(tokens)
    } else if !is_colon_token(tokens[x]) {
        centers_from(tokens, x - 1)
    } else {
        let colon = tokens[x];
        let t = tokens.remove(x);
        if x == t.len() {
            Err(ParseFailure::ColonAtEnd(colon))
        } else if x == 0 {
            Err(ParseFailure::UnmatchedColon(colon))
        } else {
            match matching_ternary(t, x - 1, 0) {
                None => Err(ParseFailure::UnmatchedColon(colon)),
                Some(y) => if !(0 <= y < x) {
                    Err(ParseFailure::UnmatchedColon(colon))
                } else if y + 1 == x {
                    Err(ParseFailure::EmptyMiddle(colon))
                } else {
                    match parse_rounds(t.subrange(y + 1, x)) {
                        Err(f) => Err(f),
                        Ok(e) => centers_from(t.take(y) + seq![center_token(t[y], e, colon)] + t.skip(x), y),
                    }
                },
            }
        }
    }
}

/// The pass of middle operands, step by step: past the first token it leaves the tokens as they
/// are, a token that is no colon is passed over, and a colon is paired with its ternary operator
/// or refused.
pub proof fn lemma_centers_step(tokens: Seq<MaybeParsed>, x: int)
    ensures
        x < 0 ==> centers_from(tokens, x) == Ok::<Seq<MaybeParsed>, ParseFailure>(tokens),
        0 <= x < tokens.len() && !is_colon_token(tokens[x]) ==> centers_from(tokens, x) == centers_from(tokens, x - 1),
        0 <= x < tokens.len() && is_colon_token(tokens[x]) ==> {
            let colon = tokens[x];
            let t = tokens.remove(x);
            let y = matching_ternary(t, x - 1, 0)->Some_0;
            &&& x == t.len() ==> centers_from(tokens, x) == Err::<Seq<MaybeParsed>, ParseFailure>(ParseFailure::ColonAtEnd(colon))
            &&& x < t.len() && x == 0 ==> centers_from(tokens, x) == Err::<Seq<MaybeParsed>, ParseFailure>(
                ParseFailure::UnmatchedColon(colon),
            )
            &&& x < t.len() && x > 0 && matching_ternary(t, x - 1, 0) is None ==> centers_from(tokens, x) == Err::<
                Seq<MaybeParsed>,
                ParseFailure,
            >(ParseFailure::UnmatchedColon(colon))
            &&& x < t.len() && x > 0 && matching_ternary(t, x - 1, 0) == Some(x - 1) ==> centers_from(tokens, x) == Err::<
                Seq<MaybeParsed>,
                ParseFailure,
            >(ParseFailure::EmptyMiddle(colon))
            &&& x < t.len() && matching_ternary(t, x - 1, 0) is Some && 0 <= y && y + 1 < x ==> centers_from(tokens, x)
                == match parse_rounds(t.subrange(y + 1, x)) {
                Err(f) => Err(f),
                Ok(e) => centers_from(t.take(y) + seq![center_token(t[y], e, colon)] + t.skip(x), y),
            }
        },
{
    reveal(centers_from);
}

/// One round of the passes over tokens whose builtin function calls are type constructors:
/// postfix operators, calls, indexes and type constructors, the middle operands of ternary
/// operators, prefix operators, infix operators by precedence, ternary operators, function
/// definitions and assignments.
pub open spec fn parse_round(t: Seq<MaybeParsed>) -> Result<Seq<MaybeParsed>, ParseFailure>
    decreases t.len(), 1int, 0int
    via parse_round_decreases
{
    match postfix_from(t, 0) {
        Err(a) => Err(ParseFailure::ReturnType(a)),
        Ok(t1) => match centers_from(t1, t1.len() - 1) {
            Err(f) => Err(f),
            Ok(tc) => parse_round_rest(tc),
        },
    }
}

#[via_fn]
proof fn parse_round_decreases(t: Seq<MaybeParsed>) {
    lemma_postfix_len(t, 0);
}

/// The passes of a round after the middle operands of ternary operators: prefix operators, infix
/// operators by precedence, ternary operators, function definitions and assignments.
pub open spec fn parse_round_rest(t1: Seq<MaybeParsed>) -> Result<Seq<MaybeParsed>, ParseFailure> {
    match prefix_from(t1, last_but_one(t1)) {
        Err(p) => Err(ParseFailure::InvalidPrefix(p)),
        Ok(t2) => match infix_pass(t2, 0) {
            Err(o) => Err(ParseFailure::InvalidInfix(o)),
            Ok(t3) => match ternary_from(t3, t3.len() - 1) {
                Err(f) => Err(ParseFailure::Ternary(f)),
                Ok(t4) => {
                    let t5 = function_definitions_from(t4, last_but_one(t4));
                    match assignments_from(t5, t5.len() - 1) {
                        Err(a) => Err(ParseFailure::InvalidAssignment(a)),
                        Ok(t6) => Ok(t6),
                    }
                },
            },
        },
    }
}

/// The expression that tokens left by the rounds make: the one parsed expression they are, or
/// the failure.
pub open spec fn parse_finish(u: Seq<MaybeParsed>) -> Result<TanukiExpression, ParseFailure> {
    if u.len() == 1 && u[0] is Parsed {
        Ok(u[0]->Parsed_0)
    } else {
        Err(ParseFailure::Unfinished(start_place(u[0]).0, start_place(u[0]).1))
    }
}

/// Rounds of the passes, over and over until one token is left or a round joins nothing.
pub open spec fn parse_rounds(t: Seq<MaybeParsed>) -> Result<TanukiExpression, ParseFailure>
    decreases t.len(), 2int, 0int,
{
    match parse_round(t) {
        Err(f) => Err(f),
        Ok(u) => if u.len() <= 1 || u.len() >= t.len() {
            parse_finish(u)
        } else {
            parse_rounds(u)
        },
    }
}

/// A round of the passes, pass by pass.
proof fn lemma_round_unfold(t: Seq<MaybeParsed>)
    ensures
        postfix_from(t, 0) is Err ==> parse_round(t) == Err::<Seq<MaybeParsed>, ParseFailure>(
            ParseFailure::ReturnType(postfix_from(t, 0)->Err_0),
        ),
        postfix_from(t, 0) is Ok ==> parse_round(t) == match centers_from(
            postfix_from(t, 0)->Ok_0,
            postfix_from(t, 0)->Ok_0.len() - 1,
        ) {
            Err(f) => Err(f),
            Ok(tc) => parse_round_rest(tc),
        },
{
    reveal(centers_from);
}

/// The rounds of the passes, one round at a time.
proof fn lemma_rounds_unfold(t: Seq<MaybeParsed>)
    ensures
        parse_rounds(t) == match parse_round(t) {
            Err(f) => Err(f),
            Ok(u) => if u.len() <= 1 || u.len() >= t.len() {
                parse_finish(u)
            } else {
                parse_rounds(u)
            },
        },
{
}

/// Parses the tokens of an expression into one expression: postfix operators and calls first,
/// then ternary operators' middle operands, prefix operators, infix operators by precedence,
/// ternary operators, function definitions and assignments, over and over until one token is
/// left or nothing changes.
#[verifier::loop_isolation(false)]
pub fn parse_maybe_parsed_tokens(main: &mut Main, tokens: Vec<MaybeParsed>) -> (r: Result<TanukiExpression, ErrorAt>)
    requires
        old(main).wf(),
        tokens@.len() >= 1,
    ensures
        final(main).wf(),
        is_single_expression(tokens@) ==> r == Ok::<TanukiExpression, ErrorAt>(tokens@[0]->Parsed_0),
        plain_tokens(tokens@) ==> {
            &&& *final(main) == *old(main)
            &&& match parse_rounds(tokens@) {
                Ok(e) => r == Ok::<TanukiExpression, ErrorAt>(e),
                Err(f) => r matches Err(x) && is_parse_failure(x, f),
            }
        },
    decreases tokens@.len(), 1nat,
{
    let ghost given = tokens@;
    let mut tokens = tokens;
    loop
        invariant
            main.wf(),
            1 <= tokens@.len() <= given.len(),
            is_single_expression(given) ==> tokens@ == given,
            plain_tokens(given) ==> {
                &&& plain_tokens(tokens@)
                &&& parse_rounds(tokens@) == parse_rounds(given)
                &&& *main == *old(main)
            },
        decreases tokens@.len(),
    {
        let at_start = tokens.len();
        let ghost t0 = tokens@;
        proof {
            lemma_rounds_unfold(t0);
            lemma_round_unfold(t0);
            if plain_tokens(given) {
                lemma_plain_parts(t0);
            }
        }
        match parse_postfix_operators_and_calls(main, &mut tokens) {
            Ok(()) => {},
            Err(e) => return Err(e),
        }
        let ghost t1 = tokens@;
        proof {
            if plain_tokens(given) {
                lemma_postfix_plain(t0, 0);
                lemma_plain_parts(t1);
            }
        }
        match parse_ternary_centers(main, &mut tokens) {
            Ok(()) => {},
            Err(e) => return Err(e),
        }
        let ghost tc = tokens@;
        proof {
            if plain_tokens(given) {
                lemma_centers_plain(t1, t1.len() - 1);
            }
        }
        match parse_prefix_operators(&mut tokens) {
            Ok(()) => {},
            Err(e) => return Err(e),
        }
        let ghost t2 = tokens@;
        proof {
            if plain_tokens(given) {
                lemma_prefix_plain(tc, last_but_one(tc));
            }
        }
        match parse_infix_operators(&mut tokens) {
            Ok(()) => {},
            Err(e) => return Err(e),
        }
        let ghost t3 = tokens@;
        proof {
            if plain_tokens(given) {
                lemma_infix_plain(t2, 0);
            }
        }
        match parse_ternary_operators(&mut tokens) {
            Ok(()) => {},
            Err(e) => return Err(e),
        }
        let ghost t4 = tokens@;
        proof {
            if plain_tokens(given) {
                lemma_ternary_plain(t3, t3.len() - 1);
            }
        }
        parse_function_definitions(&mut tokens);
        let ghost t5 = tokens@;
        proof {
            if plain_tokens(given) {
                lemma_function_definitions_plain(t4, last_but_one(t4));
            }
        }
        match parse_assignments(&mut tokens) {
            Ok(()) => {},
            Err(e) => return Err(e),
        }
        proof {
            if plain_tokens(given) {
                lemma_assignments_plain(t5, t5.len() - 1);
                assert(parse_round(t0) == Ok::<Seq<MaybeParsed>, ParseFailure>(tokens@));
            }
        }
        if tokens.len() == 1 || at_start == tokens.len() {
            break;
        }
    }
    if tokens.len() == 1 && tokens[0].is_parsed() {
        let last = tokens.pop();
        match last {
            Some(t) => return Ok(t.unwrap_parsed()),
            None => {},
        }
    }
    let (line, column) = start_of(&tokens[0]);
    Err(error_at(Error::NotYetImplemented(str_to_chars("Parsing some expressions")), line, column))
}


/// Whether the first of the tokens stands alone as an expression: the token after it, if there
/// is one, ends the expression.
pub open spec fn stands_alone(tokens: Seq<TanukiToken>) -> bool {
    tokens.len() >= 1 && (tokens.len() == 1 || ends_expression(tokens[1].variant))
}

/// Whether the tokens start with an identifier followed by a token of a kind.
pub open spec fn identifier_then(tokens: Seq<TanukiToken>, next_is: spec_fn(TanukiTokenVariant) -> bool) -> bool {
    tokens.len() >= 2 && tokens[0].variant is Identifier && next_is(tokens[1].variant)
}

/// Whether a token closes a block.
pub open spec fn is_curly_close(v: TanukiTokenVariant) -> bool {
    v is RightCurlyParenthesis
}

/// Whether a token closes parentheses.
pub open spec fn is_parenthesis_close(v: TanukiTokenVariant) -> bool {
    v is RightParenthesis
}

/// Whether a token closes square parentheses.
pub open spec fn is_square_close(v: TanukiTokenVariant) -> bool {
    v is RightSquareParenthesis
}

/// Whether an expression is the variable of a name.
pub open spec fn is_variable_named(e: TanukiExpression, name: Seq<char>) -> bool {
    e.variant matches TanukiExpressionVariant::Variable(n) && n@ == name
}

impl TanukiExpression {
    /// Parses the tokens of a block after its `{`: expressions separated by `;`, then return
    /// expressions separated by `,`, up to the closing `}`. A return expression written
    /// `.name = value` is a named one.
    fn parse_block(main: &mut Main, token_reader: &mut TokenReader<TanukiToken>, start_line: usize, start_column: usize) -> (r: Result<
        TanukiExpression,
        ErrorAt,
    >)
        requires
            old(main).wf(),
            old(token_reader).wf(),
        ensures
            final(main).wf(),
            final(token_reader).wf(),
            final(token_reader).continues(old(token_reader)),
            final(token_reader).remaining().len() <= old(token_reader).remaining().len(),
            r matches Ok(e) ==> e.variant is Block && e.start_line == start_line && e.start_column == start_column,
            old(token_reader).remaining().len() == 0 ==> (r matches Err(e) && e.error == Error::ExpectedCurlyClosingParenthesis),
            old(token_reader).remaining().len() > 0 && old(token_reader).remaining()[0].variant is RightCurlyParenthesis ==> (
            r matches Err(e) && e.error == Error::ExpectedExpression),
            identifier_then(old(token_reader).remaining(), |v: TanukiTokenVariant| is_curly_close(v)) ==> (r matches Ok(e)
                && e.variant matches TanukiExpressionVariant::Block { sub_expressions, return_expressions }
                && sub_expressions@.len() == 0 && return_expressions@.len() == 1 && return_expressions@[0].0 is None
                && is_variable_named(return_expressions@[0].1, old(token_reader).remaining()[0].variant->Identifier_0@)
                && e.end_line == old(token_reader).remaining()[1].end_line && e.end_column == old(token_reader).remaining()[1].end_column),
        decreases old(token_reader).remaining().len(), 1nat,
    {
        let mut sub_expressions: Vec<TanukiExpression> = Vec::new();
        let mut return_expressions: Vec<(Option<Vec<char>>, TanukiExpression)> = Vec::new();
        let mut is_parsing_return_expressions = false;
        let ghost mut first = true;
        loop
            invariant
                main.wf(),
                token_reader.wf(),
                token_reader.continues(old(token_reader)),
                token_reader.remaining().len() <= old(token_reader).remaining().len(),
                first ==> *token_reader == *old(token_reader) && sub_expressions@.len() == 0 && return_expressions@.len() == 0
                    && !is_parsing_return_expressions,
                !first ==> old(token_reader).remaining().len() > 0 && !(old(token_reader).remaining()[0].variant is RightCurlyParenthesis)
                    && !identifier_then(old(token_reader).remaining(), |v: TanukiTokenVariant| is_curly_close(v)),
            decreases token_reader.remaining().len(),
        {
            let sub_expression = match Self::parse(main, token_reader) {
                Ok(e) => e,
                Err(e) => return Err(e),
            };
            let mut end_position: Option<(usize, usize)> = None;
            match token_reader.next() {
                Some(token) => match &token.variant {
                    TanukiTokenVariant::RightCurlyParenthesis => {
                        is_parsing_return_expressions = true;
                        end_position = Some((token.end_line, token.end_column));
                    },
                    TanukiTokenVariant::Comma => {
                        is_parsing_return_expressions = true;
                    },
                    TanukiTokenVariant::Semicolon => {
                        if is_parsing_return_expressions {
                            return Err(at_last_token(Error::ExpectedComma, token_reader));
                        }
                    },
                    _ => {
                        if !is_parsing_return_expressions {
                            return Err(error_at(Error::ExpectedSemicolon, token.start_column, token.end_column));
                        }
                        return Err(error_at(Error::ExpectedComma, token.start_column, token.end_column));
                    },
                },
                None => return Err(at_last_token(Error::ExpectedCurlyClosingParenthesis, token_reader)),
            }
            if is_parsing_return_expressions {
                let sub_expression = match sub_expression {
                    Some(sub_expression) => sub_expression,
                    None => return Err(at_last_token(Error::ExpectedExpression, token_reader)),
                };
                if is_member_assignment(&sub_expression) {
                    match sub_expression.variant {
                        TanukiExpressionVariant::Assignment(lhs, rhs) => match lhs.variant {
                            TanukiExpressionVariant::PrefixUnaryOperator(_, name_expression) => {
                                let name_line = name_expression.start_line;
                                let name_column = name_expression.start_column;
                                match name_expression.variant {
                                    TanukiExpressionVariant::Variable(name) => return_expressions.push((Some(name), *rhs)),
                                    _ => return Err(error_at(Error::ExpectedVariable, name_line, name_column)),
                                }
                            },
                            _ => {
                                proof {
                                    assert(false);
                                }
                            },
                        },
                        _ => {
                            proof {
                                assert(false);
                            }
                        },
                    }
                } else {
                    return_expressions.push((None, sub_expression));
                }
            } else {
                match sub_expression {
                    Some(sub_expression) => sub_expressions.push(sub_expression),
                    None => {},
                }
            }
            match end_position {
                Some((end_line, end_column)) => {
                    proof {
                        if first && identifier_then(old(token_reader).remaining(), |v: TanukiTokenVariant| is_curly_close(v)) {
                            assert(return_expressions@.len() == 1);
                        }
                    }
                    return Ok(
                        TanukiExpression {
                            variant: TanukiExpressionVariant::Block { sub_expressions, return_expressions },
                            start_line,
                            start_column,
                            end_line,
                            end_column,
                        },
                    );
                },
                None => {},
            }
            proof {
                first = false;
            }
        }
    }

    /// Parses the tokens in parentheses after the `(`: expressions separated by `,` and, after a
    /// `;`, a return type expression, up to the closing `)`.
    fn parse_parenthesised(main: &mut Main, token_reader: &mut TokenReader<TanukiToken>, start_line: usize, start_column: usize) -> (r:
        Result<TanukiPartiallyParsedToken, ErrorAt>)
        requires
            old(main).wf(),
            old(token_reader).wf(),
        ensures
            final(main).wf(),
            final(token_reader).wf(),
            final(token_reader).continues(old(token_reader)),
            final(token_reader).remaining().len() <= old(token_reader).remaining().len(),
            r matches Ok(p) ==> p.variant is FunctionArgumentsOrParameters && p.start_line == start_line && p.start_column
                == start_column,
            old(token_reader).remaining().len() == 0 ==> (r matches Err(e) && e.error == Error::ExpectedClosingParenthesis),
            old(token_reader).remaining().len() > 0 && old(token_reader).remaining()[0].variant is RightParenthesis ==> (r matches Ok(p)
                && p.variant matches TanukiPartiallyParsedTokenVariant::FunctionArgumentsOrParameters(arguments, return_type)
                && arguments@.len() == 0 && return_type is None && p.end_line == old(token_reader).remaining()[0].end_line
                && p.end_column == old(token_reader).remaining()[0].end_column),
            identifier_then(old(token_reader).remaining(), |v: TanukiTokenVariant| is_parenthesis_close(v)) ==> (r matches Ok(p)
                && p.variant matches TanukiPartiallyParsedTokenVariant::FunctionArgumentsOrParameters(arguments, return_type)
                && arguments@.len() == 1 && return_type is None && is_variable_named(
                arguments@[0],
                old(token_reader).remaining()[0].variant->Identifier_0@,
            )),
        decreases old(token_reader).remaining().len(), 1nat,
    {
        let mut sub_expressions: Vec<TanukiExpression> = Vec::new();
        let mut return_type: Option<Box<TanukiExpression>> = None;
        let mut is_return_type_expression = false;
        let ghost mut first = true;
        loop
            invariant
                main.wf(),
                token_reader.wf(),
                token_reader.continues(old(token_reader)),
                token_reader.remaining().len() <= old(token_reader).remaining().len(),
                first ==> *token_reader == *old(token_reader) && sub_expressions@.len() == 0 && return_type is None
                    && !is_return_type_expression,
                !first ==> old(token_reader).remaining().len() > 0 && !(old(token_reader).remaining()[0].variant is RightParenthesis)
                    && !identifier_then(old(token_reader).remaining(), |v: TanukiTokenVariant| is_parenthesis_close(v)),
            decreases token_reader.remaining().len(),
        {
            let mut expression_is_empty = false;
            match Self::parse(main, token_reader) {
                Ok(Some(sub_expression)) => {
                    if !is_return_type_expression {
                        sub_expressions.push(sub_expression);
                    } else {
                        return_type = Some(Box::new(sub_expression));
                    }
                },
                Ok(None) => {
                    if !is_return_type_expression {
                        expression_is_empty = true;
                    } else {
                        return Err(at_last_token(Error::ExpectedExpression, token_reader));
                    }
                },
                Err(e) => return Err(e),
            }
            match token_reader.next() {
                Some(token) => {
                    let is_closing = match &token.variant {
                        TanukiTokenVariant::RightParenthesis => true,
                        _ => false,
                    };
                    if is_return_type_expression && !is_closing {
                        return Err(error_at(Error::ExpectedClosingParenthesis, token.start_line, token.start_column));
                    }
                    match &token.variant {
                        TanukiTokenVariant::RightParenthesis => {
                            return Ok(
                                TanukiPartiallyParsedToken {
                                    variant: TanukiPartiallyParsedTokenVariant::FunctionArgumentsOrParameters(sub_expressions, return_type),
                                    start_line,
                                    start_column,
                                    end_line: token.end_line,
                                    end_column: token.end_column,
                                },
                            );
                        },
                        TanukiTokenVariant::Comma => {
                            if expression_is_empty {
                                return Err(error_at(Error::ExpectedExpression, token.start_line, token.start_column));
                            }
                        },
                        TanukiTokenVariant::Semicolon => {
                            if expression_is_empty && sub_expressions.len() != 0 {
                                return Err(error_at(Error::ExpectedExpression, token.start_line, token.start_column));
                            }
                            is_return_type_expression = true;
                        },
                        _ => return Err(error_at(Error::ExpectedComma, token.start_column, token.end_column)),
                    }
                },
                None => return Err(at_last_token(Error::ExpectedClosingParenthesis, token_reader)),
            }
            proof {
                first = false;
            }
        }
    }

    /// Parses the expression in square parentheses after the `[`, up to the closing `]`.
    fn parse_square_parenthesised(
        main: &mut Main,
        token_reader: &mut TokenReader<TanukiToken>,
        start_line: usize,
        opening_end_column: usize,
    ) -> (r: Result<TanukiPartiallyParsedToken, ErrorAt>)
        requires
            old(main).wf(),
            old(token_reader).wf(),
        ensures
            final(main).wf(),
            final(token_reader).wf(),
            final(token_reader).continues(old(token_reader)),
            final(token_reader).remaining().len() <= old(token_reader).remaining().len(),
            r matches Ok(p) ==> p.variant is SquareParenthesised && p.start_line == start_line,
            old(token_reader).remaining().len() == 0 || ends_expression(old(token_reader).remaining()[0].variant) ==> (r matches Err(
                e,
            ) && e.error == Error::ExpectedExpression),
            identifier_then(old(token_reader).remaining(), |v: TanukiTokenVariant| is_square_close(v)) ==> (r matches Ok(p)
                && p.variant matches TanukiPartiallyParsedTokenVariant::SquareParenthesised(e) && is_variable_named(
                *e,
                old(token_reader).remaining()[0].variant->Identifier_0@,
            )),
        decreases old(token_reader).remaining().len(), 3nat,
    {
        let sub_expression = match Self::parse_expected(main, token_reader) {
            Ok(e) => e,
            Err(e) => return Err(e),
        };
        match token_reader.next() {
            Some(token) => match &token.variant {
                TanukiTokenVariant::RightSquareParenthesis => {},
                _ => return Err(error_at(Error::ExpectedSquareClosingParenthesis, token.start_line, token.start_column)),
            },
            None => return Err(at_last_token(Error::ExpectedSquareClosingParenthesis, token_reader)),
        }
        Ok(
            TanukiPartiallyParsedToken {
                start_line,
                start_column: opening_end_column,
                end_line: token_reader.last_token_end_line(),
                end_column: token_reader.last_token_end_column(),
                variant: TanukiPartiallyParsedTokenVariant::SquareParenthesised(Box::new(sub_expression)),
            },
        )
    }

    /// Parses one expression from the tokens, up to the token that ends it (a closing
    /// parenthesis, a comma or a semicolon), which is left unread. Gives `None` where the
    /// expression is empty.
    #[verifier::loop_isolation(false)]
    pub fn parse(main: &mut Main, token_reader: &mut TokenReader<TanukiToken>) -> (r: Result<Option<TanukiExpression>, ErrorAt>)
        requires
            old(main).wf(),
            old(token_reader).wf(),
        ensures
            final(main).wf(),
            final(token_reader).wf(),
            final(token_reader).continues(old(token_reader)),
            final(token_reader).remaining().len() <= old(token_reader).remaining().len(),
            r matches Ok(Some(_)) ==> final(token_reader).remaining().len() < old(token_reader).remaining().len(),
            r matches Ok(None) ==> (old(token_reader).remaining().len() == 0 || ends_expression(old(token_reader).remaining()[0].variant))
                && *final(token_reader) == *old(token_reader),
            r is Ok ==> final(token_reader).remaining().len() == 0 || ends_expression(final(token_reader).remaining()[0].variant),
            old(token_reader).remaining().len() == 0 || ends_expression(old(token_reader).remaining()[0].variant) ==> r
                == Ok::<Option<TanukiExpression>, ErrorAt>(None) && *final(token_reader) == *old(token_reader),
            stands_alone(old(token_reader).remaining()) && old(token_reader).remaining()[0].variant is Identifier ==> (r matches Ok(
                Some(e),
            ) && e.variant matches TanukiExpressionVariant::Variable(n) && n@ == old(token_reader).remaining()[0].variant->Identifier_0@),
            stands_alone(old(token_reader).remaining()) && single_token_kind(old(token_reader).remaining()[0].variant) ==> final(token_reader).remaining()
                == old(token_reader).remaining().drop_first(),
            stands_alone(old(token_reader).remaining()) && old(token_reader).remaining()[0].variant is StringLiteral ==> (r matches Ok(
                Some(e),
            ) && e.variant matches TanukiExpressionVariant::Constant(TanukiCompileTimeValue::CompileTimeString(v))
                && v@ == old(token_reader).remaining()[0].variant->StringLiteral_0@),
            stands_alone(old(token_reader).remaining()) && old(token_reader).remaining()[0].variant is CharacterLiteral ==> (r matches Ok(
                Some(e),
            ) && e.variant == TanukiExpressionVariant::Constant(
                TanukiCompileTimeValue::CompileTimeChar(old(token_reader).remaining()[0].variant->CharacterLiteral_0),
            )),
            forall|n: int| flat_expression(old(token_reader).remaining(), n) ==> parses_flat(old(token_reader).remaining(), n, r)
                && *final(main) == *old(main),
        decreases old(token_reader).remaining().len(), 0nat,
    {
        let ghost initial = token_reader.remaining();
        let ghost mut first: Option<TanukiExpression> = None;
        let ghost n0 = choose|n: int| flat_expression(initial, n);
        let ghost is_flat = flat_expression(initial, n0);
        let mut tokens: Vec<MaybeParsed> = Vec::new();
        loop
            invariant
                main.wf(),
                token_reader.wf(),
                token_reader.continues(old(token_reader)),
                initial == old(token_reader).remaining(),
                is_flat == flat_expression(initial, n0),
                is_flat ==> {
                    &&& tokens@.len() <= n0
                    &&& token_reader.remaining() == initial.skip(tokens@.len() as int)
                    &&& forall|i: int| 0 <= i < tokens@.len() ==> wraps(#[trigger] tokens@[i], initial[i])
                    &&& *main == *old(main)
                },
                token_reader.remaining().len() + tokens@.len() <= initial.len(),
                tokens@.len() == 0 ==> *token_reader == *old(token_reader),
                tokens@.len() > 0 ==> initial.len() > 0 && !ends_expression(initial[0].variant),
                stands_alone(initial) && single_token_kind(initial[0].variant) && tokens@.len() >= 1 ==> tokens@.len() == 1
                    && first is Some && tokens@[0] == MaybeParsedToken::<TanukiExpression, TanukiPartiallyParsedToken, TanukiToken>::Parsed(
                    first->0,
                ) && token_reader.remaining() == initial.drop_first(),
                first matches Some(e) ==> (initial[0].variant is Identifier ==> (e.variant matches TanukiExpressionVariant::Variable(n)
                    && n@ == initial[0].variant->Identifier_0@)),
                first matches Some(e) ==> (initial[0].variant is StringLiteral ==> (e.variant matches TanukiExpressionVariant::Constant(
                    TanukiCompileTimeValue::CompileTimeString(v),
                ) && v@ == initial[0].variant->StringLiteral_0@)),
                first matches Some(e) ==> (initial[0].variant is CharacterLiteral ==> e.variant == TanukiExpressionVariant::Constant(
                    TanukiCompileTimeValue::CompileTimeChar(initial[0].variant->CharacterLiteral_0),
                )),
                first is Some ==> initial.len() > 0,
            decreases token_reader.remaining().len(),
        {
            let next = match token_reader.peek() {
                Some(token) => token,
                None => break,
            };
            if is_expression_end(&next.variant) {
                break;
            }
            let token = match token_reader.next() {
                Some(token) => token,
                None => break,
            };
            match single_token_expression(token) {
                Some(expression) => {
                    proof {
                        if tokens@.len() == 0 {
                            first = Some(expression);
                        }
                    }
                    tokens.push(MaybeParsedToken::Parsed(expression));
                },
                None => match &token.variant {
                    TanukiTokenVariant::LeftCurlyParenthesis => {
                        let block = match Self::parse_block(main, token_reader, token.start_line, token.start_column) {
                            Ok(block) => block,
                            Err(e) => return Err(e),
                        };
                        tokens.push(MaybeParsedToken::Parsed(block));
                    },
                    TanukiTokenVariant::LeftParenthesis => {
                        let arguments = match Self::parse_parenthesised(main, token_reader, token.start_line, token.start_column) {
                            Ok(arguments) => arguments,
                            Err(e) => return Err(e),
                        };
                        tokens.push(MaybeParsedToken::PartiallyParsed(arguments));
                    },
                    TanukiTokenVariant::LeftSquareParenthesis => {
                        let square = match Self::parse_square_parenthesised(main, token_reader, token.start_line, token.end_column) {
                            Ok(square) => square,
                            Err(e) => return Err(e),
                        };
                        tokens.push(MaybeParsedToken::PartiallyParsed(square));
                    },
                    _ => tokens.push(MaybeParsedToken::Unparsed(token.copy())),
                },
            }
        }
        if tokens.len() == 0 {
            return Ok(None);
        }
        match parse_maybe_parsed_tokens(main, tokens) {
            Ok(expression) => Ok(Some(expression)),
            Err(e) => Err(e),
        }
    }

    /// Parses an expression, or gives an error where there is none.
    pub fn parse_expected(main: &mut Main, token_reader: &mut TokenReader<TanukiToken>) -> (r: Result<TanukiExpression, ErrorAt>)
        requires
            old(main).wf(),
            old(token_reader).wf(),
        ensures
            final(main).wf(),
            final(token_reader).wf(),
            final(token_reader).continues(old(token_reader)),
            final(token_reader).remaining().len() <= old(token_reader).remaining().len(),
            r is Ok ==> final(token_reader).remaining().len() < old(token_reader).remaining().len(),
            old(token_reader).remaining().len() == 0 || ends_expression(old(token_reader).remaining()[0].variant) ==> (r matches Err(
                e,
            ) && e.error == Error::ExpectedExpression),
            stands_alone(old(token_reader).remaining()) && old(token_reader).remaining()[0].variant is Identifier ==> (r matches Ok(
                e,
            ) && e.variant matches TanukiExpressionVariant::Variable(n) && n@ == old(token_reader).remaining()[0].variant->Identifier_0@),
            stands_alone(old(token_reader).remaining()) && single_token_kind(old(token_reader).remaining()[0].variant) ==> final(token_reader).remaining()
                == old(token_reader).remaining().drop_first(),
        decreases old(token_reader).remaining().len(), 2nat,
    {
        match Self::parse(main, token_reader) {
            Ok(None) => Err(at_last_token(Error::ExpectedExpression, token_reader)),
            Ok(Some(expression)) => Ok(expression),
            Err(e) => Err(e),
        }
    }
}

/// Whether a token is one that stands as an expression by itself.
pub open spec fn single_token_kind(v: TanukiTokenVariant) -> bool {
    v is Identifier || v is StringLiteral || v is CharacterLiteral
}

/// The expression a token that stands by itself parses to: the variable of an identifier, the
/// constant of a string or char literal.
pub open spec fn stands_for(e: TanukiExpression, v: TanukiTokenVariant) -> bool {
    match v {
        TanukiTokenVariant::Identifier(n) => is_variable_named(e, n@),
        TanukiTokenVariant::StringLiteral(t) => e.variant matches TanukiExpressionVariant::Constant(
            TanukiCompileTimeValue::CompileTimeString(x),
        ) && x@ == t@,
        TanukiTokenVariant::CharacterLiteral(c) => e.variant == TanukiExpressionVariant::Constant(
            TanukiCompileTimeValue::CompileTimeChar(c),
        ),
        TanukiTokenVariant::NumericLiteral(Some(n), _) => e.variant matches TanukiExpressionVariant::Constant(
            TanukiCompileTimeValue::CompileTimeInt(x),
        ) && x@ == n@,
        TanukiTokenVariant::Keyword(k) => match keyword_constant(k) {
            Some(c) => e.variant == TanukiExpressionVariant::Constant(c),
            None => false,
        },
        _ => false,
    }
}

/// The constant a keyword stands for by itself: the booleans, void, and the types `bool`, `int`
/// and `type`.
pub open spec fn keyword_constant(k: TanukiKeyword) -> Option<TanukiCompileTimeValue> {
    match k {
        TanukiKeyword::Bool => Some(TanukiCompileTimeValue::Type(TanukiType::Bool)),
        TanukiKeyword::Void => Some(TanukiCompileTimeValue::Void),
        TanukiKeyword::True => Some(TanukiCompileTimeValue::Bool(true)),
        TanukiKeyword::False => Some(TanukiCompileTimeValue::Bool(false)),
        TanukiKeyword::Int => Some(TanukiCompileTimeValue::Type(TanukiType::CompileTimeInt)),
        TanukiKeyword::Type => Some(TanukiCompileTimeValue::Type(TanukiType::Type)),
        _ => None,
    }
}

/// The first token of the `i`th pair of tokens.
pub open spec fn pair_first(ts: Seq<TanukiToken>, i: int) -> TanukiToken {
    ts[2 * i]
}

/// The second token of the `i`th pair of tokens.
pub open spec fn pair_second(ts: Seq<TanukiToken>, i: int) -> TanukiToken {
    ts[2 * i + 1]
}

/// Whether the tokens are statements of one token each: an identifier, a string or a char
/// literal, each followed by a semicolon.
pub open spec fn simple_statements(ts: Seq<TanukiToken>) -> bool {
    &&& ts.len() % 2 == 0
    &&& forall|i: int| 0 <= i < ts.len() / 2 ==> single_token_kind(#[trigger] pair_first(ts, i).variant)
    &&& forall|i: int| 0 <= i < ts.len() / 2 ==> (#[trigger] pair_second(ts, i)).variant is Semicolon
}

/// Whether a token can be in a flat expression: an identifier, a string, char or integer literal,
/// a keyword that stands for a constant, or an operator (the colons of ternary operators among
/// them).
pub open spec fn flat_token(t: TanukiToken) -> bool {
    ||| t.variant is Identifier || t.variant is StringLiteral || t.variant is CharacterLiteral
    ||| t.variant matches TanukiTokenVariant::NumericLiteral(Some(_), _)
    ||| t.variant matches TanukiTokenVariant::Keyword(k) && keyword_constant(k) is Some
    ||| t.variant is Operator
}

/// Whether the first `n` tokens (one at least) are flat and the expression ends after them: at
/// the end of the tokens or at a token that ends an expression.
pub open spec fn flat_expression(ts: Seq<TanukiToken>, n: int) -> bool {
    &&& 1 <= n <= ts.len()
    &&& forall|i: int| 0 <= i < n ==> flat_token(#[trigger] ts[i])
    &&& n == ts.len() || ends_expression(ts[n].variant)
}

/// Whether a token of an expression stands for a flat token: an operator stays unparsed, the
/// same token; another token is the expression it stands for, at its place.
pub open spec fn wraps(m: MaybeParsed, t: TanukiToken) -> bool {
    if t.variant is Operator {
        m matches MaybeParsedToken::Unparsed(u) && u.same_as(&t)
    } else {
        m matches MaybeParsedToken::Parsed(e) && stands_for(e, t.variant) && e.start_line == t.start_line && e.start_column
            == t.start_column
    }
}

/// What parsing tokens that stand for a flat expression gives: the expression of the rounds of the
/// passes, or their failure.
pub open spec fn rounds_outcome(ts: Seq<MaybeParsed>, r: Result<Option<TanukiExpression>, ErrorAt>) -> bool {
    match parse_rounds(ts) {
        Ok(e) => r == Ok::<Option<TanukiExpression>, ErrorAt>(Some(e)),
        Err(f) => r matches Err(x) && is_parse_failure(x, f),
    }
}

/// Whether the result of parsing the flat expression of the first `n` tokens is what the rounds of
/// the passes give on tokens that stand for them.
pub open spec fn parses_flat(tokens: Seq<TanukiToken>, n: int, r: Result<Option<TanukiExpression>, ErrorAt>) -> bool {
    exists|ts: Seq<MaybeParsed>|
        ts.len() == n && (forall|i: int| 0 <= i < n ==> wraps(#[trigger] ts[i], tokens[i])) && rounds_outcome(ts, r)
}

/// Whether an expression is an assignment to a member access, `.name = value`.
fn is_member_assignment(e: &TanukiExpression) -> (r: bool)
    ensures
        r <==> (e.variant matches TanukiExpressionVariant::Assignment(lhs, _) && lhs.variant matches TanukiExpressionVariant::PrefixUnaryOperator(
            o,
            _,
        ) && o == TanukiPrefixUnaryOperator::MemberAccess),
{
    match &e.variant {
        TanukiExpressionVariant::Assignment(lhs, _) => match &lhs.variant {
            TanukiExpressionVariant::PrefixUnaryOperator(TanukiPrefixUnaryOperator::MemberAccess, _) => true,
            _ => false,
        },
        _ => false,
    }
}

impl TanukiModule {
    /// Parses the tokens of a file into a module: expressions, each followed by a semicolon.
    pub fn parse(main: &mut Main, token_reader: &mut TokenReader<TanukiToken>) -> (r: Result<TanukiModule, ErrorAt>)
        requires
            old(main).wf(),
            old(token_reader).wf(),
        ensures
            final(main).wf(),
            final(token_reader).wf(),
            final(token_reader).continues(old(token_reader)),
            r is Ok ==> final(token_reader).remaining().len() == 0,
            r matches Ok(m) ==> m.entrypoint is None && m.global_constants@.len() == 0 && m.exports@.len() == 0
                && m.imports@.len() == 0 && m.links@.len() == 0 && m.parsed_expressions@.len() <= old(
                token_reader,
            ).remaining().len(),
            old(token_reader).remaining().len() == 0 ==> (r matches Ok(m) && m.parsed_expressions@.len() == 0),
            simple_statements(old(token_reader).remaining()) ==> (r matches Ok(m) && m.parsed_expressions@.len()
                == old(token_reader).remaining().len() / 2 && forall|k: int|
                0 <= k < m.parsed_expressions@.len() ==> stands_for(
                    #[trigger] m.parsed_expressions@[k],
                    pair_first(old(token_reader).remaining(), k).variant,
                )),
            old(token_reader).remaining().len() > 0 && ends_expression(old(token_reader).remaining()[0].variant)
                && !(old(token_reader).remaining()[0].variant is Semicolon) ==> (r matches Err(e) && e.error == Error::ExpectedSemicolon),
    {
        let mut expressions: Vec<TanukiExpression> = Vec::new();
        let ghost initial = token_reader.remaining();
        let ghost mut first = true;
        while !token_reader.is_empty()
            invariant
                main.wf(),
                token_reader.wf(),
                token_reader.continues(old(token_reader)),
                initial == old(token_reader).remaining(),
                expressions@.len() + token_reader.remaining().len() <= old(token_reader).remaining().len(),
                simple_statements(initial) ==> 2 * expressions@.len() <= initial.len(),
                simple_statements(initial) ==> token_reader.remaining() == initial.skip(2 * (expressions@.len() as int)) && forall|j: int|
                    0 <= j < expressions@.len() ==> stands_for(#[trigger] expressions@[j], pair_first(initial, j).variant),
                first ==> *token_reader == *old(token_reader),
                !first ==> !(initial.len() > 0 && ends_expression(initial[0].variant) && !(initial[0].variant is Semicolon)),
            decreases token_reader.remaining().len(),
        {
            let ghost k = expressions@.len() as int;
            proof {
                if simple_statements(initial) {
                    assert(initial.skip(2 * k).len() == initial.len() - 2 * k);
                    assert(2 * k + 1 < initial.len()) by (nonlinear_arith)
                        requires
                            initial.len() % 2 == 0,
                            2 * k < initial.len(),
                    ;
                    assert(single_token_kind(pair_first(initial, k).variant));
                    assert(pair_second(initial, k).variant is Semicolon);
                    assert(token_reader.remaining()[0] == pair_first(initial, k));
                    assert(token_reader.remaining()[1] == pair_second(initial, k));
                }
            }
            match TanukiExpression::parse(main, token_reader) {
                Ok(Some(expression)) => expressions.push(expression),
                Ok(None) => {},
                Err(e) => return Err(e),
            }
            match token_reader.next() {
                Some(token) => match &token.variant {
                    TanukiTokenVariant::Semicolon => {},
                    _ => return Err(error_at(Error::ExpectedSemicolon, token.start_line, token.start_column)),
                },
                None => return Err(at_last_token(Error::ExpectedSemicolon, token_reader)),
            }
            proof {
                if simple_statements(initial) {
                    assert(token_reader.remaining() =~= initial.skip(2 * (expressions@.len() as int)));
                }
                first = false;
            }
        }
        proof {
            if simple_statements(initial) {
                assert(initial.skip(2 * (expressions@.len() as int)).len() == initial.len() - 2 * expressions@.len());
                assert(initial.len() - 2 * expressions@.len() == 0);
            }
        }
        Ok(
            TanukiModule {
                parsed_expressions: expressions,
                global_constants: Vec::new(),
                exports: Vec::new(),
                imports: Vec::new(),
                links: Vec::new(),
                entrypoint: None,
            },
        )
    }
}

} // verus!
