use tanuki_compiler::big_int::CtInt;
use tanuki_compiler::error::Error;
use tanuki_compiler::programming_languages::tanuki::compile_time_value::TanukiCompileTimeValue;
use tanuki_compiler::programming_languages::tanuki::const_compile::RValueConstComplicationResult;
use tanuki_compiler::programming_languages::tanuki::t_type::TanukiType;
use tanuki_compiler::programming_languages::tanuki::token::{
    TanukiInfixBinaryOperator, TanukiPostfixUnaryOperator, TanukiPrefixUnaryOperator,
};

fn ct_from_i64(v: i64) -> CtInt {
    let m = v.unsigned_abs();
    let mut magnitude = Vec::new();
    if m != 0 {
        magnitude.push(m as u32);
        if (m >> 32) != 0 {
            magnitude.push((m >> 32) as u32);
        }
    }
    CtInt { negative: v < 0, magnitude }
}

fn ct_to_i64(c: &CtInt) -> Option<i64> {
    let mut m: u128 = 0;
    for (i, limb) in c.magnitude.iter().enumerate() {
        if i >= 3 {
            if *limb != 0 {
                return None;
            }
        } else {
            m |= (*limb as u128) << (32 * i);
        }
    }
    let v: i128 = if c.negative { -(m as i128) } else { m as i128 };
    i64::try_from(v).ok()
}

fn text(v: &[char]) -> String {
    v.iter().collect()
}

fn int_value(v: i64) -> TanukiCompileTimeValue {
    TanukiCompileTimeValue::CompileTimeInt(ct_from_i64(v))
}

fn int_of(v: &TanukiCompileTimeValue) -> i64 {
    match v {
        TanukiCompileTimeValue::CompileTimeInt(c) => ct_to_i64(c).unwrap(),
        other => panic!("not an integer: {:?}", other),
    }
}

#[test]
fn cast_integer_into_range() {
    match int_value(200).cast_to(&TanukiType::U(8), false) {
        Ok(TanukiCompileTimeValue::U(8, 200)) => {},
        other => panic!("unexpected {:?}", other),
    }
    match int_value(-1).cast_to(&TanukiType::I(8), false) {
        Ok(TanukiCompileTimeValue::I(8, -1)) => {},
        other => panic!("unexpected {:?}", other),
    }
}

#[test]
fn cast_integer_out_of_range() {
    match int_value(300).cast_to(&TanukiType::U(8), false) {
        Err(Error::IntegerTooLargeForType(v, t)) => {
            assert_eq!(ct_to_i64(&v), Some(300));
            assert_eq!(text(&t), "U8");
        },
        other => panic!("unexpected {:?}", other),
    }
    match int_value(-129).cast_to(&TanukiType::I(8), false) {
        Err(Error::IntegerTooSmallForType(v, t)) => {
            assert_eq!(ct_to_i64(&v), Some(-129));
            assert_eq!(text(&t), "I8");
        },
        other => panic!("unexpected {:?}", other),
    }
    match int_value(-1).cast_to(&TanukiType::U(16), false) {
        Err(Error::IntegerTooSmallForType(v, _)) => assert_eq!(ct_to_i64(&v), Some(-1)),
        other => panic!("unexpected {:?}", other),
    }
}

#[test]
fn cast_to_own_type_or_any_keeps_value() {
    assert_eq!(int_of(&int_value(42).cast_to(&TanukiType::CompileTimeInt, false).unwrap()), 42);
    assert_eq!(int_of(&int_value(42).cast_to(&TanukiType::Any, false).unwrap()), 42);
    match TanukiCompileTimeValue::Bool(true).cast_to(&TanukiType::Bool, false) {
        Ok(TanukiCompileTimeValue::Bool(true)) => {},
        other => panic!("unexpected {:?}", other),
    }
}

#[test]
fn infix_arithmetic_on_integers() {
    let sum = TanukiInfixBinaryOperator::Addition.evaluate(int_value(2), int_value(3), 1, 1).unwrap().unwrap();
    assert_eq!(int_of(&sum), 5);
    let product = TanukiInfixBinaryOperator::Multiplication.evaluate(int_value(-4), int_value(6), 1, 1).unwrap().unwrap();
    assert_eq!(int_of(&product), -24);
    let quotient = TanukiInfixBinaryOperator::Division.evaluate(int_value(-7), int_value(2), 1, 1).unwrap().unwrap();
    assert_eq!(int_of(&quotient), -3);
    let remainder = TanukiInfixBinaryOperator::Modulo.evaluate(int_value(-7), int_value(2), 1, 1).unwrap().unwrap();
    assert_eq!(int_of(&remainder), -1);
}

#[test]
fn infix_division_by_zero_is_an_error() {
    match TanukiInfixBinaryOperator::Division.evaluate(int_value(1), int_value(0), 4, 9) {
        Err(e) => {
            assert!(matches!(e.error, Error::DivisionByZero));
            assert_eq!(e.line, Some(4));
            assert_eq!(e.column, Some(9));
        },
        Ok(v) => panic!("unexpected {:?}", v),
    }
    match TanukiInfixBinaryOperator::Modulo.evaluate(int_value(1), int_value(0), 4, 9) {
        Err(e) => assert!(matches!(e.error, Error::ModuloByZero)),
        Ok(v) => panic!("unexpected {:?}", v),
    }
}

#[test]
fn infix_minimum_and_unevaluated_comparisons() {
    let minimum = TanukiInfixBinaryOperator::Minimum.evaluate(int_value(2), int_value(3), 1, 1).unwrap().unwrap();
    assert_eq!(int_of(&minimum), 2);
    assert!(TanukiInfixBinaryOperator::LessThan.evaluate(int_value(2), int_value(3), 1, 1).unwrap().is_none());
    assert!(TanukiInfixBinaryOperator::Equality.evaluate(int_value(2), int_value(3), 1, 1).unwrap().is_none());
}

#[test]
fn prefix_negation_of_integer() {
    let negated = TanukiPrefixUnaryOperator::Negation.evaluate(int_value(5)).unwrap();
    assert_eq!(int_of(&negated), -5);
    let inverted = TanukiPrefixUnaryOperator::Not.evaluate(int_value(5)).unwrap();
    assert_eq!(int_of(&inverted), -6);
    assert!(TanukiPrefixUnaryOperator::Not.evaluate(TanukiCompileTimeValue::Bool(true)).is_none());
}

#[test]
fn factorial_evaluates_to_the_product() {
    for (n, expected) in [(0i64, 1i64), (1, 1), (3, 6), (5, 120)] {
        let result = TanukiPostfixUnaryOperator::Factorial.evaluate(int_value(n), 1, 1).unwrap().unwrap();
        assert_eq!(int_of(&result), expected);
    }
}

#[test]
fn factorial_of_negative_is_an_error() {
    match TanukiPostfixUnaryOperator::Factorial.evaluate(int_value(-1), 2, 3) {
        Err(e) => assert!(matches!(e.error, Error::NegativeFactorial)),
        Ok(v) => panic!("unexpected {:?}", v),
    }
}

#[test]
fn const_compile_infix_needs_both_operands() {
    let known = RValueConstComplicationResult { result_value: Some(int_value(2)), result_type: None, is_pure: true };
    let unknown = RValueConstComplicationResult::unknown();
    let r = TanukiInfixBinaryOperator::Addition.const_compile_r_value(known, unknown, 1, 1).unwrap();
    assert!(r.result_value.is_none());
    let a = RValueConstComplicationResult { result_value: Some(int_value(2)), result_type: None, is_pure: true };
    let b = RValueConstComplicationResult { result_value: Some(int_value(40)), result_type: None, is_pure: false };
    let r = TanukiInfixBinaryOperator::Addition.const_compile_r_value(a, b, 1, 1).unwrap();
    assert_eq!(int_of(r.result_value.as_ref().unwrap()), 42);
    assert!(!r.is_pure);
}

#[test]
fn type_of_values() {
    assert!(matches!(int_value(1).get_type(), TanukiType::CompileTimeInt));
    assert!(matches!(TanukiCompileTimeValue::U(16, 3).get_type(), TanukiType::U(16)));
    assert!(int_value(1).is_of_type(&TanukiType::Any));
    assert!(!int_value(1).is_of_type(&TanukiType::Bool));
}

#[test]
fn print_name_of_values() {
    assert_eq!(text(&int_value(-12).print_name()), "Compile Time Integer -12");
    assert_eq!(text(&TanukiCompileTimeValue::U(8, 7).print_name()), "U8 7");
    assert_eq!(text(&TanukiCompileTimeValue::Bool(false).print_name()), "Bool false");
    assert_eq!(text(&TanukiCompileTimeValue::Void.print_name()), "Void");
}

#[test]
fn cast_into_the_widest_unsigned_type() {
    match int_value(1).cast_to(&TanukiType::U(64), false) {
        Ok(TanukiCompileTimeValue::U(64, 1)) => {},
        other => panic!("unexpected {:?}", other),
    }
    match TanukiCompileTimeValue::CompileTimeInt(CtInt { negative: false, magnitude: vec![u32::MAX, u32::MAX] })
        .cast_to(&TanukiType::U(64), false)
    {
        Ok(TanukiCompileTimeValue::U(64, v)) => assert_eq!(v, u64::MAX),
        other => panic!("unexpected {:?}", other),
    }
}

#[test]
fn cast_float_to_integer() {
    let value = TanukiCompileTimeValue::CompileTimeFloat(3.4f64.to_bits());
    match value.cast_to(&TanukiType::CompileTimeInt, true) {
        Ok(TanukiCompileTimeValue::CompileTimeInt(v)) => assert_eq!(ct_to_i64(&v), Some(3)),
        other => panic!("unexpected {:?}", other),
    }
    let value = TanukiCompileTimeValue::CompileTimeFloat(3.4f64.to_bits());
    assert!(matches!(value.cast_to(&TanukiType::CompileTimeInt, false), Err(Error::NotYetImplemented(_))));
    let value = TanukiCompileTimeValue::CompileTimeFloat((-12.0f64).to_bits());
    match value.cast_to(&TanukiType::I(8), false) {
        Ok(TanukiCompileTimeValue::I(8, -12)) => {},
        other => panic!("unexpected {:?}", other),
    }
    let value = TanukiCompileTimeValue::CompileTimeFloat(1e20f64.to_bits());
    match value.cast_to(&TanukiType::CompileTimeInt, false) {
        Ok(TanukiCompileTimeValue::CompileTimeInt(v)) => {
            assert_eq!(v.magnitude.len(), 3);
        },
        other => panic!("unexpected {:?}", other),
    }
}

#[test]
fn operator_tables_hold_signum_and_equality() {
    assert!(matches!(TanukiPrefixUnaryOperator::from_source("<=>"), Some(TanukiPrefixUnaryOperator::Signum)));
    assert!(matches!(TanukiInfixBinaryOperator::from_source("=="), Some(TanukiInfixBinaryOperator::Equality)));
    assert!(matches!(TanukiInfixBinaryOperator::from_source("!="), Some(TanukiInfixBinaryOperator::Inequality)));
    assert!(matches!(TanukiInfixBinaryOperator::from_source("==="), Some(TanukiInfixBinaryOperator::ReferenceEquality)));
    assert!(matches!(TanukiInfixBinaryOperator::from_source("!=="), Some(TanukiInfixBinaryOperator::ReferenceInequality)));
    assert!(TanukiInfixBinaryOperator::TrySubtraction.in_precedence_level(3));
}
