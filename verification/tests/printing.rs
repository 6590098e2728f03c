use tanuki_compiler::arguments::parse_arguments;
use tanuki_compiler::error::ErrorAt;
use tanuki_compiler::main_state::Main;
use tanuki_compiler::programming_languages::branflakes::{Branflakes, BranflakesModule};
use tanuki_compiler::programming_languages::c::expression::CExpression;
use tanuki_compiler::programming_languages::c::l_value::CLValue;
use tanuki_compiler::programming_languages::c::module::CModule;
use tanuki_compiler::programming_languages::c::module_element::{CFunctionParameter, CModuleElement};
use tanuki_compiler::programming_languages::c::statement::{CCompoundStatement, CStatement};
use tanuki_compiler::programming_languages::c::types::CType;
use tanuki_compiler::programming_languages::tanuki::compile_time_value::TanukiCompileTimeValue;
use tanuki_compiler::programming_languages::tanuki::parse::TanukiModule;
use tanuki_compiler::programming_languages::tanuki::t_type::TanukiType;
use tanuki_compiler::programming_languages::tanuki::token::TanukiToken;
use tanuki_compiler::programming_languages::tanuki::tokenize::tokenize;
use tanuki_compiler::source_file_reader::SourceFileReader;
use tanuki_compiler::token_reader::TokenReader;

fn chars(s: &str) -> Vec<char> {
    s.chars().collect()
}

fn text(v: &[char]) -> String {
    v.iter().collect()
}

fn bf_module(source: &str) -> Result<BranflakesModule, ErrorAt> {
    let mut reader = SourceFileReader::new(source.as_bytes().to_vec(), chars("test.bf"));
    let tokens = Branflakes::tokenize(&mut reader)?;
    let mut token_reader = TokenReader::new(&tokens);
    Branflakes::parse_tokens(&mut token_reader)
}

fn no_float(_text: Vec<char>, _base: u32) -> Option<u64> {
    None
}

fn one_and_a_half(_text: Vec<char>, _base: u32) -> Option<u64> {
    Some(1.5f64.to_bits())
}

fn tanuki_tokens<F: Fn(Vec<char>, u32) -> Option<u64>>(source: &str, float: &F) -> Vec<TanukiToken> {
    let mut reader = SourceFileReader::new(source.as_bytes().to_vec(), chars("test.tnk"));
    tokenize(&mut reader, float).unwrap()
}

fn tanuki_module(tokens: &[TanukiToken]) -> TanukiModule {
    let mut a = parse_arguments(&Vec::new()).unwrap();
    let mut main = Main::new(&mut a, Some(chars("/work"))).unwrap();
    let mut reader = TokenReader::new(tokens);
    TanukiModule::parse(&mut main, &mut reader).unwrap()
}

#[test]
fn branflakes_module_tree_nests_loop_bodies() {
    let module = bf_module("+[-]").unwrap();
    assert_eq!(
        text(&module.print()),
        "001:001: BF Module\n-001:001: Increment\n-001:002: Loop\n--001:003: Decrement\n"
    );
}

#[test]
fn empty_branflakes_module_starts_at_line_one() {
    let module = bf_module("no commands").unwrap();
    assert_eq!(text(&module.print()), "001:001: BF Module\n");
}

#[test]
fn branflakes_token_prints_its_column_span() {
    let mut reader = SourceFileReader::new(b"\n  >".to_vec(), chars("t.bf"));
    let tokens = Branflakes::tokenize(&mut reader).unwrap();
    assert_eq!(text(&tokens[0].print()), "002:003-004 Increment Pointer");
}

#[test]
fn tanuki_token_prints_its_place_and_name() {
    let tokens = tanuki_tokens("abc", &no_float);
    assert_eq!(text(&tokens[0].print()), "001:001-004 Identifier \"abc\"");
}

#[test]
fn tanuki_module_tree_shows_values_below_constants() {
    let tokens = tanuki_tokens("5;", &no_float);
    let module = tanuki_module(&tokens);
    assert_eq!(
        text(&module.print().unwrap()),
        "001:001: Tanuki Module\n-001:001: Constant\n--Compile Time Integer 5\n"
    );
}

#[test]
fn tanuki_module_tree_of_an_operator() {
    let tokens = tanuki_tokens("-x;", &no_float);
    let module = tanuki_module(&tokens);
    let tree = text(&module.print().unwrap());
    assert!(tree.starts_with("001:001: Tanuki Module\n-001:001: Prefix Unary Operator "));
    assert!(tree.ends_with("--001:002: Variable x\n"));
}

#[test]
fn tanuki_module_with_a_float_constant_is_not_printed() {
    let tokens = tanuki_tokens("1.5;", &one_and_a_half);
    let module = tanuki_module(&tokens);
    assert!(module.print().is_none());
}

#[test]
fn type_value_tree_shows_the_type() {
    let value = TanukiCompileTimeValue::Type(TanukiType::Pointer(Box::new(TanukiType::U(8))));
    let mut out = Vec::new();
    value.print_tree(&mut out, &chars("-"));
    assert_eq!(text(&out), "-Type\n--Pointer\n---U8\n");
}

#[test]
fn c_module_tree_lists_function_parts() {
    let mut body = CCompoundStatement::new();
    body.push_statement(CStatement::Return(Some(Box::new(CExpression::IntConstant(0)))));
    let mut module = CModule::new();
    module.push_element(CModuleElement::DoubleQuotesIncludeInHeader(chars("stdio.h")));
    module.push_element(CModuleElement::FunctionDefinition {
        return_type: CType::Int,
        name: chars("main"),
        parameters: vec![CFunctionParameter::new(CType::Int, chars("argc"))],
        body: Box::new(body),
    });
    assert_eq!(
        text(&module.print()),
        "C Module\n-Include \"stdio.h\" in Header\n-Function Definition \"main\"\n--Int\n\n--Function Parameter \"argc\"\n---Int\n--Compound Statement\n---Return\n----Int Constant 0\n"
    );
}

#[test]
fn c_expression_tree_shows_operands() {
    let e = CExpression::Add(
        Box::new(CExpression::LValueRead(Box::new(CLValue::Variable(chars("a"))))),
        Box::new(CExpression::IntConstant(-2)),
    );
    let mut out = Vec::new();
    e.print_tree(&mut out, &Vec::new());
    assert_eq!(text(&out), "Add\n-Read L-Value\n--Variable \"a\"\n-Int Constant -2\n");
}

#[test]
fn c_prefix_increment_prints_as_the_postfix_name() {
    let e = CExpression::PrefixIncrement(Box::new(CLValue::Variable(chars("i"))));
    assert_eq!(text(&e.print_name()), "Postfix Increment");
}
