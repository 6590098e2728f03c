use tanuki_compiler::arguments::parse_arguments;
use tanuki_compiler::big_int::CtInt;
use tanuki_compiler::error::Error;
use tanuki_compiler::main_state::Main;
use tanuki_compiler::programming_languages::tanuki::compile_time_value::TanukiCompileTimeValue;
use tanuki_compiler::programming_languages::tanuki::expression::{TanukiExpression, TanukiExpressionVariant};
use tanuki_compiler::programming_languages::tanuki::expression_const_compile::{CompileTimeLValue, LocalVariable};
use tanuki_compiler::programming_languages::tanuki::global_constant::TanukiGlobalConstant;
use tanuki_compiler::programming_languages::tanuki::parse::TanukiModule;
use tanuki_compiler::programming_languages::tanuki::t_type::TanukiType;
use tanuki_compiler::programming_languages::tanuki::tokenize::tokenize;
use tanuki_compiler::source_file_reader::SourceFileReader;
use tanuki_compiler::token_reader::TokenReader;

fn ct_from_i64(v: i64) -> CtInt {
    let m = v.unsigned_abs();
    let mut magnitude = Vec::new();
    if m != 0 {
        magnitude.push(m as u32);
        if (m >> 32) != 0 {
            magnitude.push((m >> 32) as u32);
        }
    }
    CtInt { negative: v < 0, magnitude }
}

fn ct_to_i64(c: &CtInt) -> Option<i64> {
    let mut m: u128 = 0;
    for (i, limb) in c.magnitude.iter().enumerate() {
        if i >= 3 {
            if *limb != 0 {
                return None;
            }
        } else {
            m |= (*limb as u128) << (32 * i);
        }
    }
    let v: i128 = if c.negative { -(m as i128) } else { m as i128 };
    i64::try_from(v).ok()
}

fn chars(s: &str) -> Vec<char> {
    s.chars().collect()
}

fn text(v: &[char]) -> String {
    v.iter().collect()
}

fn no_float(_text: Vec<char>, _base: u32) -> Option<u64> {
    None
}

fn expression_of(source: &str) -> TanukiExpression {
    let mut reader = SourceFileReader::new(source.as_bytes().to_vec(), chars("test.tnk"));
    let tokens = tokenize(&mut reader, &no_float).unwrap();
    let mut a = parse_arguments(&Vec::new()).unwrap();
    let mut main = Main::new(&mut a, Some(chars("/work"))).unwrap();
    let mut token_reader = TokenReader::new(&tokens);
    let mut module = TanukiModule::parse(&mut main, &mut token_reader).unwrap();
    module.parsed_expressions.remove(0)
}

fn empty_module() -> TanukiModule {
    TanukiModule {
        parsed_expressions: Vec::new(),
        global_constants: Vec::new(),
        exports: Vec::new(),
        imports: Vec::new(),
        links: Vec::new(),
        entrypoint: None,
    }
}

fn one_scope() -> Vec<Vec<LocalVariable>> {
    vec![Vec::new()]
}

fn int_of(v: &TanukiCompileTimeValue) -> i64 {
    match v {
        TanukiCompileTimeValue::CompileTimeInt(c) => ct_to_i64(c).unwrap(),
        other => panic!("not an integer: {:?}", other),
    }
}

fn constant(v: TanukiCompileTimeValue) -> TanukiExpression {
    TanukiExpression { variant: TanukiExpressionVariant::Constant(v), start_line: 1, start_column: 1, end_line: 1, end_column: 2 }
}

#[test]
fn constant_of_the_wanted_type_is_left_alone() {
    let mut e = constant(TanukiCompileTimeValue::CompileTimeInt(ct_from_i64(4)));
    let mut was = false;
    let mut dependencies = false;
    let mut scopes = one_scope();
    let r = e.const_compile_r_value(&empty_module(), &mut was, &mut scopes, &TanukiType::Any, &mut dependencies).unwrap();
    assert_eq!(int_of(r.result_value.as_ref().unwrap()), 4);
    assert!(r.is_pure);
    assert!(matches!(r.result_type, Some(TanukiType::CompileTimeInt)));
    assert!(!was);
    assert!(!dependencies);
}

#[test]
fn arithmetic_is_folded_into_a_constant() {
    let mut e = expression_of("1 + 2 * 3;");
    let mut was = false;
    let mut dependencies = false;
    let mut scopes = one_scope();
    let r = e.const_compile_r_value(&empty_module(), &mut was, &mut scopes, &TanukiType::Any, &mut dependencies).unwrap();
    assert_eq!(int_of(r.result_value.as_ref().unwrap()), 7);
    assert!(was);
    match &e.variant {
        TanukiExpressionVariant::Constant(v) => assert_eq!(int_of(v), 7),
        other => panic!("not folded: {:?}", other),
    }
    let mut again = false;
    let r = e.const_compile_r_value(&empty_module(), &mut again, &mut scopes, &TanukiType::Any, &mut dependencies).unwrap();
    assert_eq!(int_of(r.result_value.as_ref().unwrap()), 7);
    assert!(!again);
}

#[test]
fn integer_cast_to_wanted_type() {
    let mut e = constant(TanukiCompileTimeValue::CompileTimeInt(ct_from_i64(200)));
    let mut was = false;
    let mut dependencies = false;
    let mut scopes = one_scope();
    let r = e.const_compile_r_value(&empty_module(), &mut was, &mut scopes, &TanukiType::U(8), &mut dependencies).unwrap();
    assert!(matches!(r.result_value, Some(TanukiCompileTimeValue::U(8, 200))));
    assert!(matches!(e.variant, TanukiExpressionVariant::Constant(TanukiCompileTimeValue::U(8, 200))));
    assert!(was);
    let mut e = constant(TanukiCompileTimeValue::CompileTimeInt(ct_from_i64(300)));
    match e.const_compile_r_value(&empty_module(), &mut was, &mut scopes, &TanukiType::U(8), &mut dependencies) {
        Err(err) => assert!(matches!(err.error, Error::IntegerTooLargeForType(_, _))),
        Ok(r) => panic!("unexpected {:?}", r),
    }
}

#[test]
fn bit_width_constructors() {
    let mut e = expression_of("@u(8);");
    let mut was = false;
    let mut dependencies = false;
    let mut scopes = one_scope();
    let r = e.const_compile_r_value(&empty_module(), &mut was, &mut scopes, &TanukiType::Type, &mut dependencies).unwrap();
    assert!(matches!(r.result_value, Some(TanukiCompileTimeValue::Type(TanukiType::U(8)))));
    let mut e = expression_of("@f(64);");
    let r = e.const_compile_r_value(&empty_module(), &mut was, &mut scopes, &TanukiType::Any, &mut dependencies).unwrap();
    assert!(matches!(r.result_value, Some(TanukiCompileTimeValue::Type(TanukiType::F(64)))));
}

#[test]
fn bad_bit_widths_are_errors() {
    let mut was = false;
    let mut dependencies = false;
    let mut scopes = one_scope();
    let mut e = expression_of("@i(12);");
    match e.const_compile_r_value(&empty_module(), &mut was, &mut scopes, &TanukiType::Any, &mut dependencies) {
        Err(err) => match err.error {
            Error::InvalidIntegerBitWidth(w) => assert_eq!(ct_to_i64(&w), Some(12)),
            other => panic!("unexpected {:?}", other),
        },
        Ok(r) => panic!("unexpected {:?}", r),
    }
    let mut e = expression_of("@f(16);");
    match e.const_compile_r_value(&empty_module(), &mut was, &mut scopes, &TanukiType::Any, &mut dependencies) {
        Err(err) => assert!(matches!(err.error, Error::InvalidFloatBitWidth(_))),
        Ok(r) => panic!("unexpected {:?}", r),
    }
    let mut e = expression_of("@u(8, 16);");
    match e.const_compile_r_value(&empty_module(), &mut was, &mut scopes, &TanukiType::Any, &mut dependencies) {
        Err(err) => match err.error {
            Error::UnexpectedBuiltinFunctionArgumentCount { expected_min, expected_max, got } => {
                assert_eq!((expected_min, expected_max, got), (Some(1), Some(1), 2));
            },
            other => panic!("unexpected {:?}", other),
        },
        Ok(r) => panic!("unexpected {:?}", r),
    }
}

#[test]
fn type_and_value_casts_the_value() {
    let mut e = expression_of("@u(8) 5;");
    let mut was = false;
    let mut dependencies = false;
    let mut scopes = one_scope();
    let r = e.const_compile_r_value(&empty_module(), &mut was, &mut scopes, &TanukiType::Any, &mut dependencies).unwrap();
    assert!(matches!(r.result_value, Some(TanukiCompileTimeValue::U(8, 5))));
    assert!(matches!(e.variant, TanukiExpressionVariant::Constant(TanukiCompileTimeValue::U(8, 5))));
}

#[test]
fn unknown_variable_is_an_error() {
    let mut e = expression_of("nothing;");
    let mut was = false;
    let mut dependencies = false;
    let mut scopes = one_scope();
    match e.const_compile_r_value(&empty_module(), &mut was, &mut scopes, &TanukiType::Any, &mut dependencies) {
        Err(err) => {
            assert!(matches!(err.error, Error::VariableNotFound));
            assert_eq!((err.line, err.column), (Some(1), Some(1)));
        },
        Ok(r) => panic!("unexpected {:?}", r),
    }
}

#[test]
fn variable_reads_a_global_constant() {
    let mut module = empty_module();
    module.global_constants.push(Some(TanukiGlobalConstant {
        value_expression: constant(TanukiCompileTimeValue::CompileTimeInt(ct_from_i64(3))),
        name: chars("k"),
        t_type: None,
        start_line: 1,
        start_column: 1,
        end_line: 1,
        end_column: 2,
        export: false,
    }));
    let mut e = expression_of("k + 1;");
    let mut was = false;
    let mut dependencies = false;
    let mut scopes = one_scope();
    let r = e.const_compile_r_value(&module, &mut was, &mut scopes, &TanukiType::Any, &mut dependencies).unwrap();
    assert_eq!(int_of(r.result_value.as_ref().unwrap()), 4);
    assert!(was);
}

#[test]
fn assignment_declares_a_local_variable() {
    let mut e = expression_of("x = 5;");
    let mut was = false;
    let mut dependencies = false;
    let mut scopes = one_scope();
    let r = e.const_compile_r_value(&empty_module(), &mut was, &mut scopes, &TanukiType::Any, &mut dependencies).unwrap();
    assert!(!r.is_pure);
    assert_eq!(int_of(r.result_value.as_ref().unwrap()), 5);
    assert_eq!(scopes.len(), 1);
    assert_eq!(scopes[0].len(), 1);
    assert_eq!(text(&scopes[0][0].name), "x");
    assert!(scopes[0][0].value.is_none());
}

#[test]
fn l_value_of_a_new_and_a_known_variable() {
    let mut scopes = one_scope();
    let mut was = false;
    let mut dependencies = false;
    let mut e = expression_of("y;");
    match e.const_compile_l_value(&empty_module(), &mut was, &mut scopes, &TanukiType::Bool, &mut dependencies).unwrap() {
        (Some(CompileTimeLValue::LocalVariable { name, block_level }), t) => {
            assert_eq!(text(&name), "y");
            assert_eq!(block_level, 1);
            assert!(matches!(t, TanukiType::Bool));
        },
        other => panic!("unexpected {:?}", other),
    }
    let mut e = expression_of("y;");
    match e.const_compile_l_value(&empty_module(), &mut was, &mut scopes, &TanukiType::Any, &mut dependencies).unwrap() {
        (Some(CompileTimeLValue::LocalVariable { block_level, .. }), t) => {
            assert_eq!(block_level, 0);
            assert!(matches!(t, TanukiType::Bool));
        },
        other => panic!("unexpected {:?}", other),
    }
    assert_eq!(scopes[0].len(), 1);
    let mut e = constant(TanukiCompileTimeValue::Void);
    match e.const_compile_l_value(&empty_module(), &mut was, &mut scopes, &TanukiType::Any, &mut dependencies) {
        Err(err) => match err.error {
            Error::Unimplemented(m) => assert_eq!(text(&m), "Using a constant as a l-value"),
            other => panic!("unexpected {:?}", other),
        },
        Ok(r) => panic!("unexpected {:?}", r),
    }
}

#[test]
fn block_gives_its_return_expression() {
    let mut e = expression_of("{ 2 + 3 };");
    let mut was = false;
    let mut dependencies = false;
    let mut scopes = one_scope();
    let r = e.const_compile_r_value(&empty_module(), &mut was, &mut scopes, &TanukiType::Any, &mut dependencies).unwrap();
    assert_eq!(int_of(r.result_value.as_ref().unwrap()), 5);
    let mut e = expression_of("{ 1; 2 };");
    let mut scopes = one_scope();
    let r = e.const_compile_r_value(&empty_module(), &mut was, &mut scopes, &TanukiType::Any, &mut dependencies).unwrap();
    assert_eq!(int_of(r.result_value.as_ref().unwrap()), 2);
    assert!(r.is_pure);
}

#[test]
fn global_constants_with_different_values_conflict() {
    let global = |value: i64| TanukiGlobalConstant {
        value_expression: constant(TanukiCompileTimeValue::CompileTimeInt(ct_from_i64(value))),
        name: chars("k"),
        t_type: None,
        start_line: 4,
        start_column: 2,
        end_line: 4,
        end_column: 3,
        export: false,
    };
    let mut module = empty_module();
    module.global_constants.push(Some(global(1)));
    module.global_constants.push(Some(global(1)));
    let mut was = false;
    assert!(module.const_compile_globals(&mut was).is_ok());
    module.global_constants.push(Some(global(2)));
    match module.const_compile_globals(&mut was) {
        Err(err) => {
            assert!(matches!(err.error, Error::DuplicateGlobalVariableWithDifferentValues));
            assert_eq!((err.line, err.column), (Some(4), Some(2)));
        },
        Ok(()) => panic!("expected a conflict"),
    }
}

#[test]
fn prefix_and_postfix_operators_are_folded() {
    for (source, expected) in [("-5;", -5i64), ("<=> 7;", 1), ("3!;", 6), ("250%;", 2)] {
        let mut e = expression_of(source);
        let mut was = false;
        let mut dependencies = false;
        let mut scopes = one_scope();
        let r = e.const_compile_r_value(&empty_module(), &mut was, &mut scopes, &TanukiType::Any, &mut dependencies).unwrap();
        assert_eq!(int_of(r.result_value.as_ref().unwrap()), expected, "{}", source);
        assert!(was);
        match &e.variant {
            TanukiExpressionVariant::Constant(v) => assert_eq!(int_of(v), expected),
            other => panic!("not folded: {:?}", other),
        }
    }
}
