use tanuki_compiler::arguments::parse_arguments;
use tanuki_compiler::big_int::CtInt;
use tanuki_compiler::error::{Error, ErrorAt};
use tanuki_compiler::main_state::Main;
use tanuki_compiler::programming_languages::tanuki::compile_time_value::TanukiCompileTimeValue;
use tanuki_compiler::programming_languages::tanuki::expression::{TanukiExpression, TanukiExpressionVariant};
use tanuki_compiler::programming_languages::tanuki::parse::TanukiModule;
use tanuki_compiler::programming_languages::tanuki::token::{
    TanukiInfixBinaryOperator, TanukiInfixTernaryOperator, TanukiKeyword, TanukiPrefixUnaryOperator, TanukiToken,
    TanukiTokenVariant,
};
use tanuki_compiler::programming_languages::tanuki::tokenize::tokenize;
use tanuki_compiler::source_file_reader::SourceFileReader;
use tanuki_compiler::token_reader::TokenReader;

fn ct_to_i64(c: &CtInt) -> Option<i64> {
    let mut m: u128 = 0;
    for (i, limb) in c.magnitude.iter().enumerate() {
        if i >= 3 {
            if *limb != 0 {
                return None;
            }
        } else {
            m |= (*limb as u128) << (32 * i);
        }
    }
    let v: i128 = if c.negative { -(m as i128) } else { m as i128 };
    i64::try_from(v).ok()
}

fn chars(s: &str) -> Vec<char> {
    s.chars().collect()
}

fn text(v: &[char]) -> String {
    v.iter().collect()
}

fn no_float(_text: Vec<char>, _base: u32) -> Option<u64> {
    None
}

fn tokens_of(source: &str) -> Result<Vec<TanukiToken>, ErrorAt> {
    let mut reader = SourceFileReader::new(source.as_bytes().to_vec(), chars("test.tnk"));
    tokenize(&mut reader, &no_float)
}

fn main_state() -> Main {
    let mut a = parse_arguments(&Vec::new()).unwrap();
    Main::new(&mut a, Some(chars("/work"))).unwrap()
}

fn parse_module(source: &str) -> Result<TanukiModule, ErrorAt> {
    let tokens = tokens_of(source).unwrap();
    let mut main = main_state();
    let mut reader = TokenReader::new(&tokens);
    TanukiModule::parse(&mut main, &mut reader)
}

fn int_constant(e: &TanukiExpression) -> i64 {
    match &e.variant {
        TanukiExpressionVariant::Constant(TanukiCompileTimeValue::CompileTimeInt(v)) => ct_to_i64(v).unwrap(),
        other => panic!("not an integer constant: {:?}", other),
    }
}

fn variable_name(e: &TanukiExpression) -> String {
    match &e.variant {
        TanukiExpressionVariant::Variable(name) => text(name),
        other => panic!("not a variable: {:?}", other),
    }
}

#[test]
fn tokenize_simple_assignment() {
    let tokens = tokens_of("a = 5;").unwrap();
    assert_eq!(tokens.len(), 4);
    match &tokens[0].variant {
        TanukiTokenVariant::Identifier(name) => assert_eq!(text(name), "a"),
        other => panic!("unexpected {:?}", other),
    }
    match &tokens[1].variant {
        TanukiTokenVariant::Operator { is_assignment, symbol, .. } => {
            assert!(*is_assignment);
            assert_eq!(text(symbol), "=");
        },
        other => panic!("unexpected {:?}", other),
    }
    match &tokens[2].variant {
        TanukiTokenVariant::NumericLiteral(Some(v), None) => assert_eq!(ct_to_i64(v), Some(5)),
        other => panic!("unexpected {:?}", other),
    }
    assert!(matches!(tokens[3].variant, TanukiTokenVariant::Semicolon));
    assert_eq!((tokens[0].start_line, tokens[0].start_column), (1, 1));
    assert_eq!((tokens[2].start_line, tokens[2].start_column), (1, 5));
}

#[test]
fn tokenize_literals_and_keywords() {
    let tokens = tokens_of("@bool 'x' \"hi\\n\" 0x1F").unwrap();
    assert_eq!(tokens.len(), 4);
    assert!(matches!(tokens[0].variant, TanukiTokenVariant::Keyword(TanukiKeyword::Bool)));
    assert!(matches!(tokens[1].variant, TanukiTokenVariant::CharacterLiteral('x')));
    match &tokens[2].variant {
        TanukiTokenVariant::StringLiteral(s) => assert_eq!(text(s), "hi\n"),
        other => panic!("unexpected {:?}", other),
    }
    match &tokens[3].variant {
        TanukiTokenVariant::NumericLiteral(Some(v), _) => assert_eq!(ct_to_i64(v), Some(31)),
        other => panic!("unexpected {:?}", other),
    }
}

#[test]
fn tokenize_counts_lines() {
    let tokens = tokens_of("a\n  b").unwrap();
    assert_eq!(tokens.len(), 2);
    assert_eq!((tokens[1].start_line, tokens[1].start_column), (2, 3));
}

#[test]
fn tokenize_skips_comments() {
    let tokens = tokens_of("a // note\nb").unwrap();
    assert_eq!(tokens.len(), 2);
}

#[test]
fn tokenize_comment_right_after_an_operator() {
    let tokens = tokens_of("a+ // first\n// second\n  b // last").unwrap();
    assert_eq!(tokens.len(), 3);
    assert!(matches!(&tokens[0].variant, TanukiTokenVariant::Identifier(s) if text(s) == "a"));
    assert!(matches!(&tokens[1].variant, TanukiTokenVariant::Operator { symbol, .. } if text(symbol) == "+"));
    assert!(matches!(&tokens[2].variant, TanukiTokenVariant::Identifier(s) if text(s) == "b"));
    assert_eq!((tokens[2].start_line, tokens[2].start_column), (3, 3));
}

#[test]
fn tokenize_unknown_keyword_is_an_error() {
    match tokens_of("@nothing") {
        Err(e) => assert!(matches!(e.error, Error::InvalidKeyword(_))),
        Ok(t) => panic!("unexpected {:?}", t),
    }
}

#[test]
fn parse_respects_precedence() {
    let module = parse_module("x = 1 + 2 * 3;").unwrap();
    assert_eq!(module.parsed_expressions.len(), 1);
    match &module.parsed_expressions[0].variant {
        TanukiExpressionVariant::Assignment(lhs, rhs) => {
            assert_eq!(variable_name(lhs), "x");
            match &rhs.variant {
                TanukiExpressionVariant::InfixBinaryOperator(TanukiInfixBinaryOperator::Addition, a, b) => {
                    assert_eq!(int_constant(a), 1);
                    match &b.variant {
                        TanukiExpressionVariant::InfixBinaryOperator(TanukiInfixBinaryOperator::Multiplication, c, d) => {
                            assert_eq!(int_constant(c), 2);
                            assert_eq!(int_constant(d), 3);
                        },
                        other => panic!("unexpected {:?}", other),
                    }
                },
                other => panic!("unexpected {:?}", other),
            }
        },
        other => panic!("unexpected {:?}", other),
    }
}

#[test]
fn parse_same_level_is_left_to_right() {
    let module = parse_module("a - b - c;").unwrap();
    match &module.parsed_expressions[0].variant {
        TanukiExpressionVariant::InfixBinaryOperator(TanukiInfixBinaryOperator::Subtraction, lhs, rhs) => {
            assert_eq!(variable_name(rhs), "c");
            assert!(matches!(lhs.variant, TanukiExpressionVariant::InfixBinaryOperator(TanukiInfixBinaryOperator::Subtraction, _, _)));
        },
        other => panic!("unexpected {:?}", other),
    }
}

#[test]
fn parse_prefix_operator_and_call() {
    let module = parse_module("-f(a, b);").unwrap();
    match &module.parsed_expressions[0].variant {
        TanukiExpressionVariant::PrefixUnaryOperator(TanukiPrefixUnaryOperator::Negation, operand) => match &operand.variant {
            TanukiExpressionVariant::FunctionCall { function_pointer, arguments } => {
                assert_eq!(variable_name(function_pointer), "f");
                assert_eq!(arguments.len(), 2);
            },
            other => panic!("unexpected {:?}", other),
        },
        other => panic!("unexpected {:?}", other),
    }
}

#[test]
fn parse_block_with_return_expression() {
    let module = parse_module("{ a; b };").unwrap();
    match &module.parsed_expressions[0].variant {
        TanukiExpressionVariant::Block { sub_expressions, return_expressions } => {
            assert_eq!(sub_expressions.len(), 1);
            assert_eq!(return_expressions.len(), 1);
            assert!(return_expressions[0].0.is_none());
            assert_eq!(variable_name(&return_expressions[0].1), "b");
        },
        other => panic!("unexpected {:?}", other),
    }
}

#[test]
fn parse_function_definition() {
    let module = parse_module("f = (a) a;").unwrap();
    match &module.parsed_expressions[0].variant {
        TanukiExpressionVariant::Assignment(_, rhs) => match &rhs.variant {
            TanukiExpressionVariant::FunctionDefinition { parameters, return_type, body_expression } => {
                assert_eq!(parameters.len(), 1);
                assert!(return_type.is_none());
                assert_eq!(variable_name(body_expression), "a");
            },
            other => panic!("unexpected {:?}", other),
        },
        other => panic!("unexpected {:?}", other),
    }
}

#[test]
fn parse_builtin_integer_type() {
    let module = parse_module("@u(8);").unwrap();
    match &module.parsed_expressions[0].variant {
        TanukiExpressionVariant::U(arguments) => {
            assert_eq!(arguments.len(), 1);
            assert_eq!(int_constant(&arguments[0]), 8);
        },
        other => panic!("unexpected {:?}", other),
    }
}

#[test]
fn parse_empty_module() {
    let module = parse_module("").unwrap();
    assert!(module.parsed_expressions.is_empty());
    assert!(module.entrypoint.is_none());
    let module = parse_module(";;").unwrap();
    assert!(module.parsed_expressions.is_empty());
}

#[test]
fn parse_missing_semicolon_is_an_error() {
    match parse_module("a") {
        Err(e) => assert!(matches!(e.error, Error::ExpectedSemicolon)),
        Ok(m) => panic!("unexpected {:?}", m),
    }
}

#[test]
fn parse_unclosed_parenthesis_is_an_error() {
    match parse_module("f(a") {
        Err(e) => assert!(matches!(e.error, Error::ExpectedClosingParenthesis)),
        Ok(m) => panic!("unexpected {:?}", m),
    }
    match parse_module("f(a;") {
        Err(e) => assert!(matches!(e.error, Error::ExpectedExpression)),
        Ok(m) => panic!("unexpected {:?}", m),
    }
}

#[test]
fn parse_lone_colon_is_an_error() {
    match parse_module("a : b;") {
        Err(e) => assert!(matches!(e.error, Error::ColonWithoutMatchingTernaryOperator)),
        Ok(m) => panic!("unexpected {:?}", m),
    }
}

#[test]
fn parse_single_identifier_expression() {
    let tokens = tokens_of("abc;").unwrap();
    let mut main = main_state();
    let mut reader = TokenReader::new(&tokens);
    let e = TanukiExpression::parse(&mut main, &mut reader).unwrap().unwrap();
    assert_eq!(variable_name(&e), "abc");
    assert!(matches!(reader.peek().unwrap().variant, TanukiTokenVariant::Semicolon));
}

#[test]
fn parse_expected_gives_error_on_nothing() {
    let tokens = tokens_of(";").unwrap();
    let mut main = main_state();
    let mut reader = TokenReader::new(&tokens);
    match TanukiExpression::parse_expected(&mut main, &mut reader) {
        Err(e) => assert!(matches!(e.error, Error::ExpectedExpression)),
        Ok(e) => panic!("unexpected {:?}", e),
    }
}

#[test]
fn parse_assignments_group_from_the_right() {
    let module = parse_module("a = b = 1;").unwrap();
    match &module.parsed_expressions[0].variant {
        TanukiExpressionVariant::Assignment(lhs, rhs) => {
            assert_eq!(variable_name(lhs), "a");
            match &rhs.variant {
                TanukiExpressionVariant::Assignment(inner_lhs, inner_rhs) => {
                    assert_eq!(variable_name(inner_lhs), "b");
                    assert_eq!(int_constant(inner_rhs), 1);
                },
                other => panic!("unexpected {:?}", other),
            }
        },
        other => panic!("unexpected {:?}", other),
    }
}

#[test]
fn parse_augmented_assignment() {
    let module = parse_module("a += 2;").unwrap();
    match &module.parsed_expressions[0].variant {
        TanukiExpressionVariant::AugmentedBinaryAssignment(TanukiInfixBinaryOperator::Addition, lhs, rhs) => {
            assert_eq!(variable_name(lhs), "a");
            assert_eq!(int_constant(rhs), 2);
        },
        other => panic!("unexpected {:?}", other),
    }
}

#[test]
fn parse_ternary_operator() {
    let module = parse_module("c ? 1 : 2;").unwrap();
    let e = &module.parsed_expressions[0];
    assert_eq!((e.start_line, e.start_column), (1, 1));
    match &e.variant {
        TanukiExpressionVariant::InfixTernaryOperator(TanukiInfixTernaryOperator::NonShortCircuitingConditional, lhs, middle, rhs) => {
            assert_eq!(variable_name(lhs), "c");
            assert_eq!(int_constant(middle), 1);
            assert_eq!(int_constant(rhs), 2);
        },
        other => panic!("unexpected {:?}", other),
    }
}

#[test]
fn parse_type_before_value() {
    let module = parse_module("t x;").unwrap();
    let e = &module.parsed_expressions[0];
    assert_eq!((e.start_line, e.start_column), (1, 3));
    match &e.variant {
        TanukiExpressionVariant::TypeAndValue(t, v) => {
            assert_eq!(variable_name(t), "t");
            assert_eq!(variable_name(v), "x");
        },
        other => panic!("unexpected {:?}", other),
    }
}

#[test]
fn parse_export_keyword_joins_its_operand() {
    let module = parse_module("@export x;").unwrap();
    match &module.parsed_expressions[0].variant {
        TanukiExpressionVariant::Export(operand) => assert_eq!(variable_name(operand), "x"),
        other => panic!("unexpected {:?}", other),
    }
}

#[test]
fn parse_ternary_without_left_operand_is_an_error() {
    let error = parse_module("? 1 : 2;").err().unwrap();
    assert!(matches!(error.error, Error::ExpectedExpression));
}

#[test]
fn tokenize_string_escapes() {
    let tokens = tokens_of("\"\\x41\\n\\u0042\\o{101}\\d{67}\\{4_4}\"").unwrap();
    match &tokens[0].variant {
        TanukiTokenVariant::StringLiteral(s) => assert_eq!(text(s), "A\nBACD"),
        other => panic!("unexpected {:?}", other),
    }
}

#[test]
fn tokenize_unknown_escape_is_an_error() {
    let error = tokens_of("\"\\q\"").err().unwrap();
    match &error.error {
        Error::InvalidEscapeChars(m) => assert_eq!(text(m), "\\q"),
        other => panic!("unexpected {:?}", other),
    }
    assert_eq!((error.line, error.column), (Some(1), Some(2)));
}

#[test]
fn tokenize_short_unicode_escape_is_an_error() {
    let error = tokens_of("'\\u12'").err().unwrap();
    match &error.error {
        Error::InvalidEscapeChars(m) => assert_eq!(text(m), "\\u????"),
        other => panic!("unexpected {:?}", other),
    }
}

#[test]
fn tokenize_surrogate_escape_is_an_error() {
    let error = tokens_of("'\\{D800}'").err().unwrap();
    assert!(matches!(error.error, Error::InvalidUnicodeCodePoint));
}

#[test]
fn tokenize_identifier_takes_the_whole_run() {
    let tokens = tokens_of("ab_1+c").unwrap();
    match &tokens[0].variant {
        TanukiTokenVariant::Identifier(name) => assert_eq!(text(name), "ab_1"),
        other => panic!("unexpected {:?}", other),
    }
    assert_eq!(tokens.len(), 3);
}

#[test]
fn parse_try_subtraction_and_equality() {
    let module = parse_module("x = 5 -? 3 == 2;").unwrap();
    match &module.parsed_expressions[0].variant {
        TanukiExpressionVariant::Assignment(_, rhs) => match &rhs.variant {
            TanukiExpressionVariant::InfixBinaryOperator(TanukiInfixBinaryOperator::Equality, a, b) => {
                assert_eq!(int_constant(b), 2);
                match &a.variant {
                    TanukiExpressionVariant::InfixBinaryOperator(TanukiInfixBinaryOperator::TrySubtraction, c, d) => {
                        assert_eq!(int_constant(c), 5);
                        assert_eq!(int_constant(d), 3);
                    },
                    other => panic!("unexpected {:?}", other),
                }
            },
            other => panic!("unexpected {:?}", other),
        },
        other => panic!("unexpected {:?}", other),
    }
}

#[test]
fn parse_flat_expression_stops_at_the_terminator() {
    let tokens = tokens_of("a + b;").unwrap();
    let mut main = main_state();
    let mut reader = TokenReader::new(&tokens);
    let e = TanukiExpression::parse(&mut main, &mut reader).unwrap().unwrap();
    match &e.variant {
        TanukiExpressionVariant::InfixBinaryOperator(TanukiInfixBinaryOperator::Addition, a, b) => {
            assert_eq!(variable_name(a), "a");
            assert_eq!(variable_name(b), "b");
        },
        other => panic!("unexpected {:?}", other),
    }
    assert!(matches!(reader.peek().unwrap().variant, TanukiTokenVariant::Semicolon));
}

#[test]
fn parse_call_with_two_arguments() {
    let tokens = tokens_of("f(1, 2);").unwrap();
    let mut main = main_state();
    let mut reader = TokenReader::new(&tokens);
    let e = TanukiExpression::parse(&mut main, &mut reader).unwrap().unwrap();
    match &e.variant {
        TanukiExpressionVariant::FunctionCall { function_pointer, arguments } => {
            assert_eq!(variable_name(function_pointer), "f");
            assert_eq!(arguments.len(), 2);
            assert_eq!(int_constant(&arguments[0]), 1);
            assert_eq!(int_constant(&arguments[1]), 2);
        },
        other => panic!("unexpected {:?}", other),
    }
    assert!(matches!(reader.peek().unwrap().variant, TanukiTokenVariant::Semicolon));
}

#[test]
fn parse_type_constructor_inside_an_assignment() {
    let module = parse_module("t = @i(32);").unwrap();
    match &module.parsed_expressions[0].variant {
        TanukiExpressionVariant::Assignment(lhs, rhs) => {
            assert_eq!(variable_name(lhs), "t");
            match &rhs.variant {
                TanukiExpressionVariant::I(arguments) => {
                    assert_eq!(arguments.len(), 1);
                    assert_eq!(int_constant(&arguments[0]), 32);
                },
                other => panic!("unexpected {:?}", other),
            }
        },
        other => panic!("unexpected {:?}", other),
    }
}

#[test]
fn parse_flat_expression_with_literals_and_keywords() {
    let tokens = tokens_of("7 == @true;").unwrap();
    let mut main = main_state();
    let mut reader = TokenReader::new(&tokens);
    let e = TanukiExpression::parse(&mut main, &mut reader).unwrap().unwrap();
    match &e.variant {
        TanukiExpressionVariant::InfixBinaryOperator(TanukiInfixBinaryOperator::Equality, a, b) => {
            assert_eq!(int_constant(a), 7);
            assert!(matches!(b.variant, TanukiExpressionVariant::Constant(TanukiCompileTimeValue::Bool(true))));
        },
        other => panic!("unexpected {:?}", other),
    }
}

#[test]
fn parse_nested_ternary_pairs_each_colon_with_its_operator() {
    let tokens = tokens_of("a ? b ? 1 : 2 : 3;").unwrap();
    let mut main = main_state();
    let mut reader = TokenReader::new(&tokens);
    let e = TanukiExpression::parse(&mut main, &mut reader).unwrap().unwrap();
    match &e.variant {
        TanukiExpressionVariant::InfixTernaryOperator(_, lhs, middle, rhs) => {
            assert_eq!(variable_name(lhs), "a");
            assert_eq!(int_constant(rhs), 3);
            match &middle.variant {
                TanukiExpressionVariant::InfixTernaryOperator(_, l2, m2, r2) => {
                    assert_eq!(variable_name(l2), "b");
                    assert_eq!(int_constant(m2), 1);
                    assert_eq!(int_constant(r2), 2);
                },
                other => panic!("unexpected {:?}", other),
            }
        },
        other => panic!("unexpected {:?}", other),
    }
    assert!(matches!(reader.peek().unwrap().variant, TanukiTokenVariant::Semicolon));
}

#[test]
fn parse_question_mark_before_a_colon_is_taken_as_postfix() {
    match parse_module("c ? : 2;") {
        Err(e) => {
            assert!(matches!(e.error, Error::ColonWithoutMatchingTernaryOperator));
            assert_eq!((e.line, e.column), (Some(1), Some(5)));
        },
        Ok(m) => panic!("unexpected {:?}", m),
    }
}
