use tanuki_compiler::programming_languages::c::expression::CExpression;
use tanuki_compiler::programming_languages::c::l_value::CLValue;
use tanuki_compiler::programming_languages::c::statement::{CCompoundStatement, CStatement};

fn text(v: &[char]) -> String {
    v.iter().collect()
}

fn expression_text(e: &CExpression) -> String {
    let mut out = Vec::new();
    e.write_to_file(&mut out, 0);
    text(&out)
}

#[test]
fn binary_expressions_are_parenthesised() {
    let e = CExpression::IntConstant(0).equal(CLValue::variable("data_pointer").read());
    assert_eq!(expression_text(&e), "(0 == data_pointer)");
    let e = CExpression::IntConstant(1).add(CLValue::variable("x").read());
    assert_eq!(expression_text(&e), "(1 + x)");
    let e = CExpression::IntConstant(-1).not_equal(CExpression::IntConstant(2));
    assert_eq!(expression_text(&e), "(-1 != 2)");
}

#[test]
fn calls_and_constants() {
    let e = CExpression::function_call("puts", vec![CExpression::string_constant("Hi")]);
    assert_eq!(expression_text(&e), "puts(\"Hi\")");
    let e = CExpression::function_call("f", vec![CExpression::IntConstant(1), CExpression::IntConstant(2)]);
    assert_eq!(expression_text(&e), "f(1, 2)");
    let e = CExpression::function_call("getchar", vec![]);
    assert_eq!(expression_text(&e), "getchar()");
}

#[test]
fn l_value_forms() {
    let e = CLValue::variable("a").array_subscript(CLValue::variable("i").read()).postfix_increment();
    assert_eq!(expression_text(&e), "(a[i]++)");
    let e = CLValue::variable("p").take_reference();
    assert_eq!(expression_text(&e), "(&p)");
    let e = CLValue::variable("v").assign(CExpression::IntConstant(3));
    assert_eq!(expression_text(&e), "(v = 3)");
    let e = CLValue::variable("n").postfix_decrement();
    assert_eq!(expression_text(&e), "(n--)");
}

#[test]
fn compound_statement_indents() {
    let mut block = CCompoundStatement::new();
    block.push_statement(CStatement::Expression(CExpression::function_call("f", vec![])));
    let statement = CExpression::IntConstant(1).if_statement(CStatement::CompoundStatement(block));
    let mut out = Vec::new();
    statement.write_to_file(&mut out, 0);
    assert_eq!(text(&out), "if (1) {\n\tf();\n}");
}

#[test]
fn empty_compound_statement() {
    let block = CCompoundStatement::new();
    let mut out = Vec::new();
    block.write_to_file(&mut out, 2);
    assert_eq!(text(&out), "{}");
}

#[test]
fn while_statement_is_written_as_while() {
    let statement = CExpression::IntConstant(1).while_statement(CStatement::Expression(CExpression::IntConstant(2)));
    let mut out = Vec::new();
    statement.write_to_file(&mut out, 0);
    assert_eq!(text(&out), "while (1) 2;");
}
