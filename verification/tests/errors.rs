use tanuki_compiler::big_int::CtInt;
use tanuki_compiler::error::{Error, ErrorAt};

fn ct_from_i64(v: i64) -> CtInt {
    let m = v.unsigned_abs();
    let mut magnitude = Vec::new();
    if m != 0 {
        magnitude.push(m as u32);
        if (m >> 32) != 0 {
            magnitude.push((m >> 32) as u32);
        }
    }
    CtInt { negative: v < 0, magnitude }
}

fn chars(s: &str) -> Vec<char> {
    s.chars().collect()
}

fn text(v: &[char]) -> String {
    v.iter().collect()
}

#[test]
fn message_of_plain_error() {
    assert_eq!(text(&Error::ExpectedSemicolon.message()), "Expected semicolon");
    assert_eq!(text(&Error::ExpectedExpression.message()), "Expected an expression");
    assert_eq!(text(&Error::VariableStartsWithTnk.message()), "Variable starts with \"_tnk_\"");
}

#[test]
fn message_with_text_argument() {
    assert_eq!(text(&Error::Unimplemented(chars("Import")).message()), "Import unimplemented");
    assert_eq!(text(&Error::NotYetImplemented(chars("Parsing")).message()), "Parsing not yet implemented");
    assert_eq!(text(&Error::InvalidOperatorSymbol(chars("$$")).message()), "Invalid operator symbol \"$$\"");
    assert_eq!(text(&Error::InvalidCharStartingToken('#').message()), "Invalid char '#' starting token");
    assert_eq!(
        text(&Error::UnableToOpenFile(chars("a.tnk"), chars("missing")).message()),
        "Unable to open file at \"a.tnk\": missing"
    );
}

#[test]
fn message_of_argument_counts() {
    let same = Error::UnexpectedBuiltinFunctionArgumentCount { expected_min: Some(1), expected_max: Some(1), got: 2 };
    assert_eq!(text(&same.message()), "Unexpected built-in function argument count of 2, expected: 1");
    let min_only = Error::UnexpectedBuiltinFunctionArgumentCount { expected_min: Some(1), expected_max: None, got: 0 };
    assert_eq!(text(&min_only.message()), "Unexpected built-in function argument count of 0, expected min: 1");
    let both = Error::UnexpectedBuiltinFunctionArgumentCount { expected_min: Some(1), expected_max: Some(3), got: 5 };
    assert_eq!(text(&both.message()), "Unexpected built-in function argument count of 5, expected min: 1, expected max: 3");
    let none = Error::UnexpectedBuiltinFunctionArgumentCount { expected_min: None, expected_max: None, got: 7 };
    assert_eq!(text(&none.message()), "Unexpected built-in function argument count of 7");
}

#[test]
fn message_with_numbers() {
    assert_eq!(
        text(&Error::InvalidIntegerBitWidth(ct_from_i64(12)).message()),
        "Invalid integer bit width 12, must be 8, 16, 32 or 64"
    );
    assert_eq!(
        text(&Error::IntegerTooSmallForType(ct_from_i64(-129), chars("I(8)")).message()),
        "Integer underflow, value -129 is too small for type I(8)"
    );
    assert_eq!(
        text(&Error::ArgumentCountMismatch((2, 3)).message()),
        "Argument count mismatch, got 2, expected 3"
    );
}

#[test]
fn message_with_place() {
    let at = |line: Option<usize>, column: Option<usize>, file: Option<&str>| ErrorAt {
        error: Error::ExpectedComma,
        line,
        column,
        file: file.map(chars),
    };
    assert_eq!(text(&at(Some(3), Some(7), None).message()), "Expected comma at 3:7");
    assert_eq!(text(&at(Some(3), Some(7), Some("a.tnk")).message()), "Expected comma at a.tnk:3:7");
    assert_eq!(text(&at(Some(3), None, Some("a.tnk")).message()), "Expected comma in a.tnk on line 3");
    assert_eq!(text(&at(None, None, Some("a.tnk")).message()), "Expected comma in a.tnk");
    assert_eq!(text(&at(Some(3), None, None).message()), "Expected comma on line 3");
    assert_eq!(text(&at(None, Some(7), None).message()), "Expected comma in column 7");
    assert_eq!(text(&at(None, Some(7), Some("a.tnk")).message()), "Expected comma in a.tnk in column 7");
    assert_eq!(text(&at(None, None, None).message()), "Expected comma");
}

#[test]
fn at_keeps_the_place() {
    let e = Error::DivisionByZero.at(Some(2), Some(9), None);
    assert_eq!(e.line, Some(2));
    assert_eq!(e.column, Some(9));
    assert!(e.file.is_none());
    assert!(matches!(e.error, Error::DivisionByZero));
}
