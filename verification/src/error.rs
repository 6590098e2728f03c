use vstd::prelude::*;

use crate::big_int::{ct_decimal, CtInt};
use crate::text::{int_decimal, nat_decimal, push_chars, push_str, push_usize_decimal};
use crate::programming_languages::tanuki::compile_time_value::TanukiCompileTimeValue;
use crate::programming_languages::tanuki::t_type::TanukiType;

verus! {

/// An error of the compiler. Texts are held as chars.
#[derive(Debug)]
pub enum Error {
    InvalidSourcePath(Vec<char>),
    InvalidCommandLineArgument(Vec<char>),
    NotYetImplemented(Vec<char>),
    Unimplemented(Vec<char>),
    MultipleSourcePaths,
    MultipleOutputPaths,
    MultipleHomePaths,
    MultipleOutputFiles,
    RepeatedArgument(Vec<char>),
    UnableToOpenFile(Vec<char>, Vec<char>),
    UnableToReadFile(Vec<char>),
    UnableToWriteToFile(Vec<char>),
    InvalidUtf8,
    NoHomePath,
    InvalidFileExtension(Vec<char>),
    MoreOpeningParenthesesThanClosingParentheses,
    MoreClosingParenthesesThanOpeningParentheses,
    IntegerOverflow,
    IntegerUnderflow,
    InvalidAsciiValue,
    InvalidOptimizationLevel,
    InvalidKeyword(Vec<char>),
    InvalidBaseSpecifier(Vec<char>),
    InvalidNumericLiteral(Vec<char>),
    ExpectedClosingQuote,
    ExpectedOpeningParenthesis,
    ExpectedClosingParenthesis,
    ExpectedCurlyOpeningParenthesis,
    ExpectedCurlyClosingParenthesis,
    ExpectedSquareOpeningParenthesis,
    ExpectedSquareClosingParenthesis,
    ExpectedSemicolon,
    ExpectedComma,
    ExpectedExpression,
    ExpectedVariable,
    InvalidEscapeChars(Vec<char>),
    InvalidUnicodeCodePoint,
    InvalidOperatorSymbol(Vec<char>),
    InvalidCharStartingToken(char),
    InvalidPostfixUnaryOperator(Vec<char>),
    InvalidPrefixUnaryOperator(Vec<char>),
    InvalidInfixBinaryOperator(Vec<char>),
    ColonAtExpressionEnd,
    ColonWithoutMatchingTernaryOperator,
    InvalidAssignmentOperator(Vec<char>),
    UnexpectedReturnType,
    AugmentedAssignmentUsedOnGlobalVariable,
    VariableStartsWithTnk,
    CannotBeInsideBlockOrFunction,
    ExpressionCannotBeLValue,
    ExpressionCannotBeRValue,
    DuplicateGlobalVariableWithDifferentValues,
    UnableToConstCompile,
    VariableNotFound,
    UnexpectedBuiltinFunctionArgumentCount { expected_min: Option<usize>, expected_max: Option<usize>, got: usize },
    UnexpectedValueType { value: TanukiCompileTimeValue, expected_type: Option<TanukiType> },
    InvalidIntegerBitWidth(CtInt),
    InvalidFloatBitWidth(CtInt),
    IntegerTooLargeForType(CtInt, Vec<char>),
    IntegerTooSmallForType(CtInt, Vec<char>),
    CannotUseUnaryOperatorForType { type_t: Vec<char>, operator: Vec<char> },
    CannotUseBinaryOperatorForType { lhs_type_t: Vec<char>, rhs_type_t: Vec<char>, operator: Vec<char> },
    DivisionByZero,
    ModuloByZero,
    MultipleEntrypoints,
    EntrypointOnNonFunction,
    NegativeFactorial,
    ExpectedType,
    TypeMismatch((Vec<char>, Vec<char>)),
    ArgumentCountMismatch((usize, usize)),
    UnknownName,
    GlobalConstantNotExported,
    GlobalConstantNotFound,
}

/// An error with the place in the source where it happened.
#[derive(Debug)]
pub struct ErrorAt {
    pub error: Error,
    pub line: Option<usize>,
    pub column: Option<usize>,
    pub file: Option<Vec<char>>,
}

impl Error {
    /// Attaches a place to the error.
    pub fn at(self, line: Option<usize>, column: Option<usize>, file: Option<Vec<char>>) -> (r: ErrorAt)
        ensures
            r.error == self,
            r.line == line,
            r.column == column,
            r.file == file,
    {
        ErrorAt { error: self, line, column, file }
    }
}


/// How the expected argument count of a builtin function is told: the one count when the least
/// and the most are the same, else each of them that is known.
pub open spec fn argument_count_expectation(expected_min: Option<usize>, expected_max: Option<usize>) -> Seq<char> {
    match expected_min {
        Some(min) if expected_min == expected_max => ", expected: "@ + nat_decimal(min as nat),
        _ => optional_count(", expected min: "@, expected_min) + optional_count(", expected max: "@, expected_max),
    }
}

/// A label and a count, where the count is known.
pub open spec fn optional_count(label: Seq<char>, count: Option<usize>) -> Seq<char> {
    match count {
        Some(n) => label + nat_decimal(n as nat),
        None => Seq::empty(),
    }
}

fn push_argument_count_expectation(out: &mut Vec<char>, expected_min: Option<usize>, expected_max: Option<usize>)
    ensures
        final(out)@ == old(out)@ + argument_count_expectation(expected_min, expected_max),
{
    let same = match (expected_min, expected_max) {
        (Some(a), Some(b)) => a == b,
        _ => false,
    };
    if same {
        match expected_min {
            Some(min) => {
                push_str(out, ", expected: ");
                push_usize_decimal(out, min);
            },
            None => {},
        }
        return;
    }
    let ghost start = out@;
    match expected_min {
        Some(min) => {
            push_str(out, ", expected min: ");
            push_usize_decimal(out, min);
        },
        None => {},
    }
    let ghost middle = out@;
    match expected_max {
        Some(max) => {
            push_str(out, ", expected max: ");
            push_usize_decimal(out, max);
        },
        None => {},
    }
    proof {
        assert(out@ =~= start + (middle.subrange(start.len() as int, middle.len() as int)) + out@.subrange(middle.len() as int, out@.len() as int));
    }
}

impl Error {
    /// The message that tells the error.
    pub open spec fn spec_message(&self) -> Seq<char> {
        match self {
            Error::MultipleSourcePaths => "Multiple source paths"@,
            Error::MultipleOutputPaths => "Multiple output paths"@,
            Error::MultipleHomePaths => "Multiple home paths"@,
            Error::MultipleOutputFiles => "Multiple output files"@,
            Error::InvalidUtf8 => "Invalid UTF-8"@,
            Error::NoHomePath => "No home directory specified and could not get the current working directory"@,
            Error::MoreClosingParenthesesThanOpeningParentheses => "More closing parentheses than opening parentheses"@,
            Error::MoreOpeningParenthesesThanClosingParentheses => "More opening parentheses than closing parentheses"@,
            Error::IntegerOverflow => "Integer overflow"@,
            Error::IntegerUnderflow => "Integer underflow"@,
            Error::InvalidAsciiValue => "Invalid ASCII value"@,
            Error::InvalidOptimizationLevel => "Invalid optimization level"@,
            Error::ExpectedClosingQuote => "Expected closing quote"@,
            Error::InvalidUnicodeCodePoint => "Invalid Unicode code point"@,
            Error::ExpectedOpeningParenthesis => "Expected opening parenthesis"@,
            Error::ExpectedClosingParenthesis => "Expected closing parenthesis"@,
            Error::ExpectedCurlyOpeningParenthesis => "Expected curly opening parenthesis"@,
            Error::ExpectedCurlyClosingParenthesis => "Expected curly closing parenthesis"@,
            Error::ExpectedSquareOpeningParenthesis => "Expected square opening parenthesis"@,
            Error::ExpectedSquareClosingParenthesis => "Expected square closing parenthesis"@,
            Error::ExpectedSemicolon => "Expected semicolon"@,
            Error::ExpectedComma => "Expected comma"@,
            Error::ExpectedExpression => "Expected an expression"@,
            Error::ExpectedVariable => "Expected a variable"@,
            Error::ColonAtExpressionEnd => "Colon at expression end, expected expression after colon"@,
            Error::ColonWithoutMatchingTernaryOperator => "Colon without matching ternary operator"@,
            Error::UnexpectedReturnType => "Unexpected return type"@,
            Error::AugmentedAssignmentUsedOnGlobalVariable => "Augmented assignment used on global"@,
            Error::VariableStartsWithTnk => "Variable starts with \"_tnk_\""@,
            Error::CannotBeInsideBlockOrFunction => "Cannot be inside block or function"@,
            Error::ExpressionCannotBeLValue => "Expression cannot be l-value"@,
            Error::ExpressionCannotBeRValue => "Expression cannot be r-value"@,
            Error::DuplicateGlobalVariableWithDifferentValues => "Duplicate global variable with different values"@,
            Error::UnableToConstCompile => "Unable to const-compile"@,
            Error::VariableNotFound => "Variable not found"@,
            Error::DivisionByZero => "Division by zero"@,
            Error::ModuloByZero => "Modulo by zero"@,
            Error::MultipleEntrypoints => "Multiple entrypoints"@,
            Error::EntrypointOnNonFunction => "@entrypoint used on non-function"@,
            Error::NegativeFactorial => "Factorial of negative"@,
            Error::ExpectedType => "Expected type"@,
            Error::UnknownName => "Unknown name"@,
            Error::GlobalConstantNotExported => "Global constant not exported"@,
            Error::GlobalConstantNotFound => "Global constant not found"@,
            Error::NotYetImplemented(a) => a@ + " not yet implemented"@,
            Error::Unimplemented(a) => a@ + " unimplemented"@,
            Error::InvalidSourcePath(a) => "Invalid source path: "@ + a@,
            Error::InvalidCommandLineArgument(a) => "Invalid command line argument: "@ + a@,
            Error::RepeatedArgument(a) => "Repeated argument "@ + a@,
            Error::UnableToReadFile(a) => "Unable to read file: "@ + a@,
            Error::UnableToWriteToFile(a) => "Unable to write to file: "@ + a@,
            Error::InvalidFileExtension(a) => "File "@ + a@ + " has an invalid file extension"@,
            Error::InvalidKeyword(a) => "Invalid keyword "@ + a@,
            Error::InvalidBaseSpecifier(a) => "Invalid base specifier "@ + a@,
            Error::InvalidNumericLiteral(a) => "Invalid numeric literal "@ + a@,
            Error::InvalidEscapeChars(a) => "Invalid escape chars \""@ + a@ + "\""@,
            Error::InvalidOperatorSymbol(a) => "Invalid operator symbol \""@ + a@ + "\""@,
            Error::InvalidPostfixUnaryOperator(a) => "Invalid postfix unary operator "@ + a@,
            Error::InvalidPrefixUnaryOperator(a) => "Invalid prefix unary operator "@ + a@,
            Error::InvalidInfixBinaryOperator(a) => "Invalid infix binary operator "@ + a@,
            Error::InvalidAssignmentOperator(a) => "Invalid assignment operator "@ + a@,
            Error::UnableToOpenFile(path, error) => "Unable to open file at \""@ + path@ + "\": "@ + error@,
            Error::InvalidCharStartingToken(c) => "Invalid char '"@ + seq![*c] + "' starting token"@,
            Error::UnexpectedBuiltinFunctionArgumentCount { expected_min, expected_max, got } => "Unexpected built-in function argument count of "@
                + nat_decimal(*got as nat) + argument_count_expectation(*expected_min, *expected_max),
            Error::UnexpectedValueType { value, expected_type } => "Unexpected value type for value: "@ + value.spec_print_name() + ", of type:"@
                + value.type_model().spec_print_name() + match expected_type {
                Some(t) => ", expected type:"@ + t.model().spec_print_name(),
                None => Seq::empty(),
            },
            Error::InvalidIntegerBitWidth(w) => "Invalid integer bit width "@ + int_decimal(w@) + ", must be 8, 16, 32 or 64"@,
            Error::InvalidFloatBitWidth(w) => "Invalid float bit width "@ + int_decimal(w@) + ", must be 32 or 64"@,
            Error::IntegerTooLargeForType(v, t) => "Integer overflow, value "@ + int_decimal(v@) + " is too large for type "@ + t@,
            Error::IntegerTooSmallForType(v, t) => "Integer underflow, value "@ + int_decimal(v@) + " is too small for type "@ + t@,
            Error::CannotUseUnaryOperatorForType { type_t, operator } => "Cannot use the unary "@ + operator@ + " operator on a value of type "@ + type_t@,
            Error::CannotUseBinaryOperatorForType { lhs_type_t, rhs_type_t, operator } => "Cannot use the binary "@ + operator@
                + " operator on values of type "@ + lhs_type_t@ + " and "@ + rhs_type_t@,
            Error::TypeMismatch((got, expected)) => "Type mismatch, got "@ + got@ + ", expected "@ + expected@,
            Error::ArgumentCountMismatch((got, expected)) => "Argument count mismatch, got "@ + nat_decimal(*got as nat) + ", expected "@
                + nat_decimal(*expected as nat),
        }
    }

    /// Whether the message of the error can be written here: it holds no float value, whose
    /// text is written where floats are.
    pub open spec fn has_message(&self) -> bool {
        !(self matches Error::UnexpectedValueType { value, .. } && value.is_float())
    }

    /// The message that tells the error.
    pub fn message(&self) -> (r: Vec<char>)
        requires
            self.has_message(),
        ensures
            r@ == self.spec_message(),
    {
        let mut out: Vec<char> = Vec::new();
        match self {
            Error::MultipleSourcePaths => push_str(&mut out, "Multiple source paths"),
            Error::MultipleOutputPaths => push_str(&mut out, "Multiple output paths"),
            Error::MultipleHomePaths => push_str(&mut out, "Multiple home paths"),
            Error::MultipleOutputFiles => push_str(&mut out, "Multiple output files"),
            Error::InvalidUtf8 => push_str(&mut out, "Invalid UTF-8"),
            Error::NoHomePath => push_str(&mut out, "No home directory specified and could not get the current working directory"),
            Error::MoreClosingParenthesesThanOpeningParentheses => push_str(&mut out, "More closing parentheses than opening parentheses"),
            Error::MoreOpeningParenthesesThanClosingParentheses => push_str(&mut out, "More opening parentheses than closing parentheses"),
            Error::IntegerOverflow => push_str(&mut out, "Integer overflow"),
            Error::IntegerUnderflow => push_str(&mut out, "Integer underflow"),
            Error::InvalidAsciiValue => push_str(&mut out, "Invalid ASCII value"),
            Error::InvalidOptimizationLevel => push_str(&mut out, "Invalid optimization level"),
            Error::ExpectedClosingQuote => push_str(&mut out, "Expected closing quote"),
            Error::InvalidUnicodeCodePoint => push_str(&mut out, "Invalid Unicode code point"),
            Error::ExpectedOpeningParenthesis => push_str(&mut out, "Expected opening parenthesis"),
            Error::ExpectedClosingParenthesis => push_str(&mut out, "Expected closing parenthesis"),
            Error::ExpectedCurlyOpeningParenthesis => push_str(&mut out, "Expected curly opening parenthesis"),
            Error::ExpectedCurlyClosingParenthesis => push_str(&mut out, "Expected curly closing parenthesis"),
            Error::ExpectedSquareOpeningParenthesis => push_str(&mut out, "Expected square opening parenthesis"),
            Error::ExpectedSquareClosingParenthesis => push_str(&mut out, "Expected square closing parenthesis"),
            Error::ExpectedSemicolon => push_str(&mut out, "Expected semicolon"),
            Error::ExpectedComma => push_str(&mut out, "Expected comma"),
            Error::ExpectedExpression => push_str(&mut out, "Expected an expression"),
            Error::ExpectedVariable => push_str(&mut out, "Expected a variable"),
            Error::ColonAtExpressionEnd => push_str(&mut out, "Colon at expression end, expected expression after colon"),
            Error::ColonWithoutMatchingTernaryOperator => push_str(&mut out, "Colon without matching ternary operator"),
            Error::UnexpectedReturnType => push_str(&mut out, "Unexpected return type"),
            Error::AugmentedAssignmentUsedOnGlobalVariable => push_str(&mut out, "Augmented assignment used on global"),
            Error::VariableStartsWithTnk => push_str(&mut out, "Variable starts with \"_tnk_\""),
            Error::CannotBeInsideBlockOrFunction => push_str(&mut out, "Cannot be inside block or function"),
            Error::ExpressionCannotBeLValue => push_str(&mut out, "Expression cannot be l-value"),
            Error::ExpressionCannotBeRValue => push_str(&mut out, "Expression cannot be r-value"),
            Error::DuplicateGlobalVariableWithDifferentValues => push_str(&mut out, "Duplicate global variable with different values"),
            Error::UnableToConstCompile => push_str(&mut out, "Unable to const-compile"),
            Error::VariableNotFound => push_str(&mut out, "Variable not found"),
            Error::DivisionByZero => push_str(&mut out, "Division by zero"),
            Error::ModuloByZero => push_str(&mut out, "Modulo by zero"),
            Error::MultipleEntrypoints => push_str(&mut out, "Multiple entrypoints"),
            Error::EntrypointOnNonFunction => push_str(&mut out, "@entrypoint used on non-function"),
            Error::NegativeFactorial => push_str(&mut out, "Factorial of negative"),
            Error::ExpectedType => push_str(&mut out, "Expected type"),
            Error::UnknownName => push_str(&mut out, "Unknown name"),
            Error::GlobalConstantNotExported => push_str(&mut out, "Global constant not exported"),
            Error::GlobalConstantNotFound => push_str(&mut out, "Global constant not found"),
            Error::NotYetImplemented(a) => {
                push_chars(&mut out, a.as_slice());
                push_str(&mut out, " not yet implemented");
            },
            Error::Unimplemented(a) => {
                push_chars(&mut out, a.as_slice());
                push_str(&mut out, " unimplemented");
            },
            Error::InvalidSourcePath(a) => {
                push_str(&mut out, "Invalid source path: ");
                push_chars(&mut out, a.as_slice());
            },
            Error::InvalidCommandLineArgument(a) => {
                push_str(&mut out, "Invalid command line argument: ");
                push_chars(&mut out, a.as_slice());
            },
            Error::RepeatedArgument(a) => {
                push_str(&mut out, "Repeated argument ");
                push_chars(&mut out, a.as_slice());
            },
            Error::UnableToReadFile(a) => {
                push_str(&mut out, "Unable to read file: ");
                push_chars(&mut out, a.as_slice());
            },
            Error::UnableToWriteToFile(a) => {
                push_str(&mut out, "Unable to write to file: ");
                push_chars(&mut out, a.as_slice());
            },
            Error::InvalidFileExtension(a) => {
                push_str(&mut out, "File ");
                push_chars(&mut out, a.as_slice());
                push_str(&mut out, " has an invalid file extension");
            },
            Error::InvalidKeyword(a) => {
                push_str(&mut out, "Invalid keyword ");
                push_chars(&mut out, a.as_slice());
            },
            Error::InvalidBaseSpecifier(a) => {
                push_str(&mut out, "Invalid base specifier ");
                push_chars(&mut out, a.as_slice());
            },
            Error::InvalidNumericLiteral(a) => {
                push_str(&mut out, "Invalid numeric literal ");
                push_chars(&mut out, a.as_slice());
            },
            Error::InvalidEscapeChars(a) => {
                push_str(&mut out, "Invalid escape chars \"");
                push_chars(&mut out, a.as_slice());
                push_str(&mut out, "\"");
            },
            Error::InvalidOperatorSymbol(a) => {
                push_str(&mut out, "Invalid operator symbol \"");
                push_chars(&mut out, a.as_slice());
                push_str(&mut out, "\"");
            },
            Error::InvalidPostfixUnaryOperator(a) => {
                push_str(&mut out, "Invalid postfix unary operator ");
                push_chars(&mut out, a.as_slice());
            },
            Error::InvalidPrefixUnaryOperator(a) => {
                push_str(&mut out, "Invalid prefix unary operator ");
                push_chars(&mut out, a.as_slice());
            },
            Error::InvalidInfixBinaryOperator(a) => {
                push_str(&mut out, "Invalid infix binary operator ");
                push_chars(&mut out, a.as_slice());
            },
            Error::InvalidAssignmentOperator(a) => {
                push_str(&mut out, "Invalid assignment operator ");
                push_chars(&mut out, a.as_slice());
            },
            Error::UnableToOpenFile(path, error) => {
                push_str(&mut out, "Unable to open file at \"");
                push_chars(&mut out, path.as_slice());
                push_str(&mut out, "\": ");
                push_chars(&mut out, error.as_slice());
            },
            Error::InvalidCharStartingToken(c) => {
                push_str(&mut out, "Invalid char '");
                out.push(*c);
                push_str(&mut out, "' starting token");
            },
            Error::UnexpectedBuiltinFunctionArgumentCount { expected_min, expected_max, got } => {
                push_str(&mut out, "Unexpected built-in function argument count of ");
                push_usize_decimal(&mut out, *got);
                push_argument_count_expectation(&mut out, *expected_min, *expected_max);
            },
            Error::UnexpectedValueType { value, expected_type } => {
                push_str(&mut out, "Unexpected value type for value: ");
                push_chars(&mut out, value.print_name().as_slice());
                push_str(&mut out, ", of type:");
                value.get_type().print_name(&mut out);
                match expected_type {
                    Some(t) => {
                        push_str(&mut out, ", expected type:");
                        t.print_name(&mut out);
                    },
                    None => {},
                }
            },
            Error::InvalidIntegerBitWidth(w) => {
                push_str(&mut out, "Invalid integer bit width ");
                push_chars(&mut out, ct_decimal(w).as_slice());
                push_str(&mut out, ", must be 8, 16, 32 or 64");
            },
            Error::InvalidFloatBitWidth(w) => {
                push_str(&mut out, "Invalid float bit width ");
                push_chars(&mut out, ct_decimal(w).as_slice());
                push_str(&mut out, ", must be 32 or 64");
            },
            Error::IntegerTooLargeForType(v, t) => {
                push_str(&mut out, "Integer overflow, value ");
                push_chars(&mut out, ct_decimal(v).as_slice());
                push_str(&mut out, " is too large for type ");
                push_chars(&mut out, t.as_slice());
            },
            Error::IntegerTooSmallForType(v, t) => {
                push_str(&mut out, "Integer underflow, value ");
                push_chars(&mut out, ct_decimal(v).as_slice());
                push_str(&mut out, " is too small for type ");
                push_chars(&mut out, t.as_slice());
            },
            Error::CannotUseUnaryOperatorForType { type_t, operator } => {
                push_str(&mut out, "Cannot use the unary ");
                push_chars(&mut out, operator.as_slice());
                push_str(&mut out, " operator on a value of type ");
                push_chars(&mut out, type_t.as_slice());
            },
            Error::CannotUseBinaryOperatorForType { lhs_type_t, rhs_type_t, operator } => {
                push_str(&mut out, "Cannot use the binary ");
                push_chars(&mut out, operator.as_slice());
                push_str(&mut out, " operator on values of type ");
                push_chars(&mut out, lhs_type_t.as_slice());
                push_str(&mut out, " and ");
                push_chars(&mut out, rhs_type_t.as_slice());
            },
            Error::TypeMismatch((got, expected)) => {
                push_str(&mut out, "Type mismatch, got ");
                push_chars(&mut out, got.as_slice());
                push_str(&mut out, ", expected ");
                push_chars(&mut out, expected.as_slice());
            },
            Error::ArgumentCountMismatch((got, expected)) => {
                push_str(&mut out, "Argument count mismatch, got ");
                push_usize_decimal(&mut out, *got);
                push_str(&mut out, ", expected ");
                push_usize_decimal(&mut out, *expected);
            },
        }
        out
    }
}

/// Where an error happened, as its message tells it: the file, line and column that are known.
pub open spec fn place_text(line: Option<usize>, column: Option<usize>, file: Option<Seq<char>>) -> Seq<char> {
    match (line, column, file) {
        (Some(l), Some(c), Some(f)) => " at "@ + f + ":"@ + nat_decimal(l as nat) + ":"@ + nat_decimal(c as nat),
        (Some(l), None, Some(f)) => " in "@ + f + " on line "@ + nat_decimal(l as nat),
        (None, None, Some(f)) => " in "@ + f,
        (Some(l), Some(c), None) => " at "@ + nat_decimal(l as nat) + ":"@ + nat_decimal(c as nat),
        (Some(l), None, None) => " on line "@ + nat_decimal(l as nat),
        (None, None, None) => Seq::empty(),
        (None, Some(c), Some(f)) => " in "@ + f + " in column "@ + nat_decimal(c as nat),
        (None, Some(c), None) => " in column "@ + nat_decimal(c as nat),
    }
}

impl ErrorAt {
    pub open spec fn spec_file(&self) -> Option<Seq<char>> {
        match self.file {
            Some(f) => Some(f@),
            None => None,
        }
    }

    /// The message that tells the error and where it happened.
    pub fn message(&self) -> (r: Vec<char>)
        requires
            self.error.has_message(),
        ensures
            r@ == self.error.spec_message() + place_text(self.line, self.column, self.spec_file()),
    {
        let mut out = self.error.message();
        push_place(&mut out, self.line, self.column, &self.file);
        out
    }
}

/// Writes where an error happened, as its message tells it.
pub fn push_place(out: &mut Vec<char>, line: Option<usize>, column: Option<usize>, file: &Option<Vec<char>>)
    ensures
        final(out)@ == old(out)@ + place_text(
            line,
            column,
            match file {
                Some(f) => Some(f@),
                None => None,
            },
        ),
{
    match (line, column, file) {
        (Some(l), Some(c), Some(f)) => {
            push_str(out, " at ");
            push_chars(out, f.as_slice());
            push_str(out, ":");
            push_usize_decimal(out, l);
            push_str(out, ":");
            push_usize_decimal(out, c);
        },
        (Some(l), None, Some(f)) => {
            push_str(out, " in ");
            push_chars(out, f.as_slice());
            push_str(out, " on line ");
            push_usize_decimal(out, l);
        },
        (None, None, Some(f)) => {
            push_str(out, " in ");
            push_chars(out, f.as_slice());
        },
        (Some(l), Some(c), None) => {
            push_str(out, " at ");
            push_usize_decimal(out, l);
            push_str(out, ":");
            push_usize_decimal(out, c);
        },
        (Some(l), None, None) => {
            push_str(out, " on line ");
            push_usize_decimal(out, l);
        },
        (None, None, None) => {},
        (None, Some(c), Some(f)) => {
            push_str(out, " in ");
            push_chars(out, f.as_slice());
            push_str(out, " in column ");
            push_usize_decimal(out, c);
        },
        (None, Some(c), None) => {
            push_str(out, " in column ");
            push_usize_decimal(out, c);
        },
    }
}

} // verus!
