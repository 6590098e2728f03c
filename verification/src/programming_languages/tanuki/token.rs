use vstd::prelude::*;

use crate::big_int::{clone_ct, ct_decimal, CtInt};
use crate::text::{char_debug, char_debug_text, clone_chars, int_decimal, push_chars, push_str, str_debug, str_debug_text, str_to_chars};
use crate::traits::token::{position_text, push_position, Token};

verus! {

/// A prefix unary operator.
#[derive(Debug, Clone, Copy, PartialEq, Eq, Structural)]
pub enum TanukiPrefixUnaryOperator {
    Read,
    Not,
    MemberAccess,
    Reciprocal,
    BitshiftRightOne,
    ComplexConjugate,
    Signum,
    Negation,
    SaturatingNegation,
    WrappingNegation,
    TryNegation,
    Square,
    SaturatingSquare,
    WrappingSquare,
    TrySquare,
    BitshiftLeftOne,
    SaturatingBitshiftLeftOne,
    WrappingBitshiftLeftOne,
    TryBitshiftLeftOne,
    Increment,
    SaturatingIncrement,
    WrappingIncrement,
    Decrement,
    SaturatingDecrement,
    WrappingDecrement,
    AddressOf,
    Dereference,
    NthToLast,
    RangeToExclusive,
    RangeToInclusive,
}

impl TanukiPrefixUnaryOperator {
    /// The name of the operator for printing.
    pub open spec fn spec_print_name(&self) -> Seq<char> {
        match self {
            Self::Read => "Read +"@,
            Self::Not => "Not !"@,
            Self::MemberAccess => "Member Access ."@,
            Self::Reciprocal => "Reciprocal /"@,
            Self::BitshiftRightOne => "Bitshift Right One >>"@,
            Self::ComplexConjugate => "Complex Conjugate |"@,
            Self::Signum => "Signum <=>"@,
            Self::Negation => "Negation -"@,
            Self::SaturatingNegation => "Saturating Negation -|"@,
            Self::WrappingNegation => "Wrapping Negation -%"@,
            Self::TryNegation => "Try Negation -?"@,
            Self::Square => "Square **"@,
            Self::SaturatingSquare => "Saturating Square **|"@,
            Self::WrappingSquare => "Wrapping Square **%"@,
            Self::TrySquare => "Try Square **?"@,
            Self::BitshiftLeftOne => "Bitshift Left One <<"@,
            Self::SaturatingBitshiftLeftOne => "Saturating Bitshift Left One <<|"@,
            Self::WrappingBitshiftLeftOne => "Wrapping Bitshift Left One <<%"@,
            Self::TryBitshiftLeftOne => "Try Bitshift Left One <<?"@,
            Self::Increment => "Increment ++"@,
            Self::SaturatingIncrement => "Saturating Increment ++|"@,
            Self::WrappingIncrement => "Wrapping Increment ++%"@,
            Self::Decrement => "Decrement --"@,
            Self::SaturatingDecrement => "Saturating Decrement --|"@,
            Self::WrappingDecrement => "Wrapping Decrement --%"@,
            Self::AddressOf => "Address of &"@,
            Self::Dereference => "Dereference *"@,
            Self::NthToLast => "Nth to Last ^"@,
            Self::RangeToExclusive => "Range to Exclusive .."@,
            Self::RangeToInclusive => "Range to Inclusive ..="@,
        }
    }

    /// The symbol the operator is written with, as its printed name ends with it.
    pub open spec fn spec_symbol(&self) -> Seq<char> {
        match self {
            Self::Read => seq!['+'],
            Self::Not => seq!['!'],
            Self::MemberAccess => seq!['.'],
            Self::Reciprocal => seq!['/'],
            Self::BitshiftRightOne => seq!['>', '>'],
            Self::ComplexConjugate => seq!['|'],
            Self::Signum => seq!['<', '=', '>'],
            Self::Negation => seq!['-'],
            Self::SaturatingNegation => seq!['-', '|'],
            Self::WrappingNegation => seq!['-', '%'],
            Self::TryNegation => seq!['-', '?'],
            Self::Square => seq!['*', '*'],
            Self::SaturatingSquare => seq!['*', '*', '|'],
            Self::WrappingSquare => seq!['*', '*', '%'],
            Self::TrySquare => seq!['*', '*', '?'],
            Self::BitshiftLeftOne => seq!['<', '<'],
            Self::SaturatingBitshiftLeftOne => seq!['<', '<', '|'],
            Self::WrappingBitshiftLeftOne => seq!['<', '<', '%'],
            Self::TryBitshiftLeftOne => seq!['<', '<', '?'],
            Self::Increment => seq!['+', '+'],
            Self::SaturatingIncrement => seq!['+', '+', '|'],
            Self::WrappingIncrement => seq!['+', '+', '%'],
            Self::Decrement => seq!['-', '-'],
            Self::SaturatingDecrement => seq!['-', '-', '|'],
            Self::WrappingDecrement => seq!['-', '-', '%'],
            Self::AddressOf => seq!['&'],
            Self::Dereference => seq!['*'],
            Self::NthToLast => seq!['^'],
            Self::RangeToExclusive => seq!['.', '.'],
            Self::RangeToInclusive => seq!['.', '.', '='],
        }
    }

    /// Each prefix operator is read from exactly its own symbol: reading an operator's symbol gives
    /// that operator, and whatever symbol is read as an operator is that operator's symbol.
    pub proof fn law_symbols_read_as_their_operators(self, s: Seq<char>)
        ensures
            Self::spec_from_source(self.spec_symbol()) == Some(self),
            Self::spec_from_source(s) == Some(self) ==> s == self.spec_symbol(),
    {
        if Self::spec_from_source(s) == Some(self) {
            assert(s =~= self.spec_symbol());
        }
    }

    pub fn print_name(&self) -> (r: &'static str)
        ensures
            r@ == self.spec_print_name(),
    {
        match self {
            Self::Read => "Read +",
            Self::Not => "Not !",
            Self::MemberAccess => "Member Access .",
            Self::Reciprocal => "Reciprocal /",
            Self::BitshiftRightOne => "Bitshift Right One >>",
            Self::ComplexConjugate => "Complex Conjugate |",
            Self::Signum => "Signum <=>",
            Self::Negation => "Negation -",
            Self::SaturatingNegation => "Saturating Negation -|",
            Self::WrappingNegation => "Wrapping Negation -%",
            Self::TryNegation => "Try Negation -?",
            Self::Square => "Square **",
            Self::SaturatingSquare => "Saturating Square **|",
            Self::WrappingSquare => "Wrapping Square **%",
            Self::TrySquare => "Try Square **?",
            Self::BitshiftLeftOne => "Bitshift Left One <<",
            Self::SaturatingBitshiftLeftOne => "Saturating Bitshift Left One <<|",
            Self::WrappingBitshiftLeftOne => "Wrapping Bitshift Left One <<%",
            Self::TryBitshiftLeftOne => "Try Bitshift Left One <<?",
            Self::Increment => "Increment ++",
            Self::SaturatingIncrement => "Saturating Increment ++|",
            Self::WrappingIncrement => "Wrapping Increment ++%",
            Self::Decrement => "Decrement --",
            Self::SaturatingDecrement => "Saturating Decrement --|",
            Self::WrappingDecrement => "Wrapping Decrement --%",
            Self::AddressOf => "Address of &",
            Self::Dereference => "Dereference *",
            Self::NthToLast => "Nth to Last ^",
            Self::RangeToExclusive => "Range to Exclusive ..",
            Self::RangeToInclusive => "Range to Inclusive ..=",
        }
    }

    /// The operator written by an operator symbol, if any.
    pub open spec fn spec_from_source(s: Seq<char>) -> Option<Self> {
        if s.len() == 1 && s[0] == '+' {
            Some(Self::Read)
        } else if s.len() == 1 && s[0] == '!' {
            Some(Self::Not)
        } else if s.len() == 1 && s[0] == '.' {
            Some(Self::MemberAccess)
        } else if s.len() == 1 && s[0] == '/' {
            Some(Self::Reciprocal)
        } else if s.len() == 2 && s[0] == '>' && s[1] == '>' {
            Some(Self::BitshiftRightOne)
        } else if s.len() == 1 && s[0] == '|' {
            Some(Self::ComplexConjugate)
        } else if s.len() == 3 && s[0] == '<' && s[1] == '=' && s[2] == '>' {
            Some(Self::Signum)
        } else if s.len() == 1 && s[0] == '-' {
            Some(Self::Negation)
        } else if s.len() == 2 && s[0] == '-' && s[1] == '|' {
            Some(Self::SaturatingNegation)
        } else if s.len() == 2 && s[0] == '-' && s[1] == '%' {
            Some(Self::WrappingNegation)
        } else if s.len() == 2 && s[0] == '-' && s[1] == '?' {
            Some(Self::TryNegation)
        } else if s.len() == 2 && s[0] == '*' && s[1] == '*' {
            Some(Self::Square)
        } else if s.len() == 3 && s[0] == '*' && s[1] == '*' && s[2] == '|' {
            Some(Self::SaturatingSquare)
        } else if s.len() == 3 && s[0] == '*' && s[1] == '*' && s[2] == '%' {
            Some(Self::WrappingSquare)
        } else if s.len() == 3 && s[0] == '*' && s[1] == '*' && s[2] == '?' {
            Some(Self::TrySquare)
        } else if s.len() == 2 && s[0] == '<' && s[1] == '<' {
            Some(Self::BitshiftLeftOne)
        } else if s.len() == 3 && s[0] == '<' && s[1] == '<' && s[2] == '|' {
            Some(Self::SaturatingBitshiftLeftOne)
        } else if s.len() == 3 && s[0] == '<' && s[1] == '<' && s[2] == '%' {
            Some(Self::WrappingBitshiftLeftOne)
        } else if s.len() == 3 && s[0] == '<' && s[1] == '<' && s[2] == '?' {
            Some(Self::TryBitshiftLeftOne)
        } else if s.len() == 2 && s[0] == '+' && s[1] == '+' {
            Some(Self::Increment)
        } else if s.len() == 3 && s[0] == '+' && s[1] == '+' && s[2] == '|' {
            Some(Self::SaturatingIncrement)
        } else if s.len() == 3 && s[0] == '+' && s[1] == '+' && s[2] == '%' {
            Some(Self::WrappingIncrement)
        } else if s.len() == 2 && s[0] == '-' && s[1] == '-' {
            Some(Self::Decrement)
        } else if s.len() == 3 && s[0] == '-' && s[1] == '-' && s[2] == '|' {
            Some(Self::SaturatingDecrement)
        } else if s.len() == 3 && s[0] == '-' && s[1] == '-' && s[2] == '%' {
            Some(Self::WrappingDecrement)
        } else if s.len() == 1 && s[0] == '&' {
            Some(Self::AddressOf)
        } else if s.len() == 1 && s[0] == '*' {
            Some(Self::Dereference)
        } else if s.len() == 1 && s[0] == '^' {
            Some(Self::NthToLast)
        } else if s.len() == 2 && s[0] == '.' && s[1] == '.' {
            Some(Self::RangeToExclusive)
        } else if s.len() == 3 && s[0] == '.' && s[1] == '.' && s[2] == '=' {
            Some(Self::RangeToInclusive)
        } else {
            None
        }
    }

    pub fn from_source_chars(s: &[char]) -> (r: Option<Self>)
        ensures
            r == Self::spec_from_source(s@),
    {
        let n = s.len();
        if n == 1 && s[0] == '+' {
            Some(Self::Read)
        } else if n == 1 && s[0] == '!' {
            Some(Self::Not)
        } else if n == 1 && s[0] == '.' {
            Some(Self::MemberAccess)
        } else if n == 1 && s[0] == '/' {
            Some(Self::Reciprocal)
        } else if n == 2 && s[0] == '>' && s[1] == '>' {
            Some(Self::BitshiftRightOne)
        } else if n == 1 && s[0] == '|' {
            Some(Self::ComplexConjugate)
        } else if n == 3 && s[0] == '<' && s[1] == '=' && s[2] == '>' {
            Some(Self::Signum)
        } else if n == 1 && s[0] == '-' {
            Some(Self::Negation)
        } else if n == 2 && s[0] == '-' && s[1] == '|' {
            Some(Self::SaturatingNegation)
        } else if n == 2 && s[0] == '-' && s[1] == '%' {
            Some(Self::WrappingNegation)
        } else if n == 2 && s[0] == '-' && s[1] == '?' {
            Some(Self::TryNegation)
        } else if n == 2 && s[0] == '*' && s[1] == '*' {
            Some(Self::Square)
        } else if n == 3 && s[0] == '*' && s[1] == '*' && s[2] == '|' {
            Some(Self::SaturatingSquare)
        } else if n == 3 && s[0] == '*' && s[1] == '*' && s[2] == '%' {
            Some(Self::WrappingSquare)
        } else if n == 3 && s[0] == '*' && s[1] == '*' && s[2] == '?' {
            Some(Self::TrySquare)
        } else if n == 2 && s[0] == '<' && s[1] == '<' {
            Some(Self::BitshiftLeftOne)
        } else if n == 3 && s[0] == '<' && s[1] == '<' && s[2] == '|' {
            Some(Self::SaturatingBitshiftLeftOne)
        } else if n == 3 && s[0] == '<' && s[1] == '<' && s[2] == '%' {
            Some(Self::WrappingBitshiftLeftOne)
        } else if n == 3 && s[0] == '<' && s[1] == '<' && s[2] == '?' {
            Some(Self::TryBitshiftLeftOne)
        } else if n == 2 && s[0] == '+' && s[1] == '+' {
            Some(Self::Increment)
        } else if n == 3 && s[0] == '+' && s[1] == '+' && s[2] == '|' {
            Some(Self::SaturatingIncrement)
        } else if n == 3 && s[0] == '+' && s[1] == '+' && s[2] == '%' {
            Some(Self::WrappingIncrement)
        } else if n == 2 && s[0] == '-' && s[1] == '-' {
            Some(Self::Decrement)
        } else if n == 3 && s[0] == '-' && s[1] == '-' && s[2] == '|' {
            Some(Self::SaturatingDecrement)
        } else if n == 3 && s[0] == '-' && s[1] == '-' && s[2] == '%' {
            Some(Self::WrappingDecrement)
        } else if n == 1 && s[0] == '&' {
            Some(Self::AddressOf)
        } else if n == 1 && s[0] == '*' {
            Some(Self::Dereference)
        } else if n == 1 && s[0] == '^' {
            Some(Self::NthToLast)
        } else if n == 2 && s[0] == '.' && s[1] == '.' {
            Some(Self::RangeToExclusive)
        } else if n == 3 && s[0] == '.' && s[1] == '.' && s[2] == '=' {
            Some(Self::RangeToInclusive)
        } else {
            None
        }
    }

    pub fn from_source(source: &str) -> (r: Option<Self>)
        ensures
            r == Self::spec_from_source(source@),
    {
        let chars = str_to_chars(source);
        Self::from_source_chars(chars.as_slice())
    }
}

/// An infix binary operator.
#[derive(Debug, Clone, Copy, PartialEq, Eq, Structural)]
pub enum TanukiInfixBinaryOperator {
    NoOperator,
    MemberAccess,
    As,
    SaturatingAs,
    WrappingAs,
    TryAs,
    Exponent,
    SaturatingExponent,
    WrappingExponent,
    TryExponent,
    Multiplication,
    SaturatingMultiplication,
    WrappingMultiplication,
    TryMultiplication,
    Division,
    SaturatingDivision,
    WrappingDivision,
    TryDivision,
    Modulo,
    SaturatingModulo,
    WrappingModulo,
    TryModulo,
    Addition,
    SaturatingAddition,
    WrappingAddition,
    TryAddition,
    Subtraction,
    SaturatingSubtraction,
    WrappingSubtraction,
    TrySubtraction,
    Append,
    BitshiftLeft,
    SaturatingBitshiftLeft,
    WrappingBitshiftLeft,
    TryBitshiftLeft,
    BitshiftRight,
    ThreeWayCompare,
    LessThan,
    LessThanOrEqualTo,
    GreaterThan,
    GreaterThanOrEqualTo,
    Equality,
    Inequality,
    ReferenceEquality,
    ReferenceInequality,
    NonShortCircuitAnd,
    NonShortCircuitNand,
    NonShortCircuitXor,
    NonShortCircuitXnor,
    NonShortCircuitOr,
    NonShortCircuitNor,
    Minimum,
    Maximum,
    Pipe,
    ShortCircuitAnd,
    ShortCircuitNand,
    ShortCircuitXor,
    ShortCircuitXnor,
    ShortCircuitOr,
    ShortCircuitNor,
    NonShortCircuitingNullCoalescing,
    ShortCircuitingNullCoalescing,
    ExclusiveRange,
    InclusiveRange,
}

impl TanukiInfixBinaryOperator {
    /// The name of the operator for printing.
    pub open spec fn spec_print_name(&self) -> Seq<char> {
        match self {
            Self::NoOperator => "None"@,
            Self::MemberAccess => "member Access ."@,
            Self::As => "As ->"@,
            Self::SaturatingAs => "Saturating As ->|"@,
            Self::WrappingAs => "Wrapping As ->%"@,
            Self::TryAs => "Try As ->?"@,
            Self::Exponent => "Exponent **"@,
            Self::SaturatingExponent => "Saturating Exponent **|"@,
            Self::WrappingExponent => "Wrapping Exponent **%"@,
            Self::TryExponent => "Try Exponent **?"@,
            Self::Multiplication => "Multiplication *"@,
            Self::SaturatingMultiplication => "Saturating Multiplication *|"@,
            Self::WrappingMultiplication => "Wrapping Multiplication *%"@,
            Self::TryMultiplication => "Try Multiplication *?"@,
            Self::Division => "Division /"@,
            Self::SaturatingDivision => "Saturating Division /|"@,
            Self::WrappingDivision => "Wrapping Division /%"@,
            Self::TryDivision => "Try Division /?"@,
            Self::Modulo => "Modulo %"@,
            Self::SaturatingModulo => "Saturating Modulo %|"@,
            Self::WrappingModulo => "Wrapping Modulo %%"@,
            Self::TryModulo => "Try Modulo %?"@,
            Self::Addition => "Addition +"@,
            Self::SaturatingAddition => "Saturating Addition +|"@,
            Self::WrappingAddition => "Wrapping Addition +%"@,
            Self::TryAddition => "Try Addition +?"@,
            Self::Subtraction => "Subtraction -"@,
            Self::SaturatingSubtraction => "Saturating Subtraction -|"@,
            Self::WrappingSubtraction => "Wrapping Subtraction -%"@,
            Self::TrySubtraction => "Try Subtraction -?"@,
            Self::Append => "Append +++"@,
            Self::BitshiftLeft => "Bitshift Left <<"@,
            Self::SaturatingBitshiftLeft => "Saturating Bitshift Left <<|"@,
            Self::WrappingBitshiftLeft => "Wrapping Bitshift Left <<%"@,
            Self::TryBitshiftLeft => "Try Bitshift Left <<?"@,
            Self::BitshiftRight => "Bitshift Left >>"@,
            Self::ThreeWayCompare => "Three Way Compare <=>"@,
            Self::LessThan => "Less than <"@,
            Self::LessThanOrEqualTo => "Less than or Equal to <="@,
            Self::GreaterThan => "Greater than >"@,
            Self::GreaterThanOrEqualTo => "Greater than or Equal to >="@,
            Self::Equality => "Equality =="@,
            Self::Inequality => "Inequality !="@,
            Self::ReferenceEquality => "Reference Equality ==="@,
            Self::ReferenceInequality => "Reference Inequality !=="@,
            Self::NonShortCircuitAnd => "Non-Short Circuit AND &"@,
            Self::NonShortCircuitNand => "Non-Short Circuit NAND !&"@,
            Self::NonShortCircuitXor => "Non-Short Circuit XOR ^"@,
            Self::NonShortCircuitXnor => "Non-Short Circuit NAND !^"@,
            Self::NonShortCircuitOr => "Non-Short Circuit OR |"@,
            Self::NonShortCircuitNor => "Non-Short Circuit NOR !|"@,
            Self::Minimum => "Minimum <<<"@,
            Self::Maximum => "Maximum >>>"@,
            Self::Pipe => "Pipe |>"@,
            Self::ShortCircuitAnd => "Short Circuit AND &&"@,
            Self::ShortCircuitNand => "Short Circuit NAND !&&"@,
            Self::ShortCircuitXor => "Short Circuit XOR ^^"@,
            Self::ShortCircuitXnor => "Short Circuit NAND !^^"@,
            Self::ShortCircuitOr => "Short Circuit OR ||"@,
            Self::ShortCircuitNor => "Short Circuit NOR !||"@,
            Self::NonShortCircuitingNullCoalescing => "Non-Short Circuiting Null Coalescing ?"@,
            Self::ShortCircuitingNullCoalescing => "Short Circuiting Null Coalescing ??"@,
            Self::ExclusiveRange => "Exclusive Range .."@,
            Self::InclusiveRange => "Inclusive Range ..="@,
        }
    }

    /// The symbol an operator is written with: `*` for multiplication, `/` for division, `%` for
    /// modulo and so on, as its printed name ends with it; nothing for no operator.
    pub open spec fn spec_symbol(&self) -> Seq<char> {
        match self {
            Self::NoOperator => seq![],
            Self::MemberAccess => seq!['.'],
            Self::As => seq!['-', '>'],
            Self::SaturatingAs => seq!['-', '>', '|'],
            Self::WrappingAs => seq!['-', '>', '%'],
            Self::TryAs => seq!['-', '>', '?'],
            Self::Exponent => seq!['*', '*'],
            Self::SaturatingExponent => seq!['*', '*', '|'],
            Self::WrappingExponent => seq!['*', '*', '%'],
            Self::TryExponent => seq!['*', '*', '?'],
            Self::Multiplication => seq!['*'],
            Self::SaturatingMultiplication => seq!['*', '|'],
            Self::WrappingMultiplication => seq!['*', '%'],
            Self::TryMultiplication => seq!['*', '?'],
            Self::Division => seq!['/'],
            Self::SaturatingDivision => seq!['/', '|'],
            Self::WrappingDivision => seq!['/', '%'],
            Self::TryDivision => seq!['/', '?'],
            Self::Modulo => seq!['%'],
            Self::SaturatingModulo => seq!['%', '|'],
            Self::WrappingModulo => seq!['%', '%'],
            Self::TryModulo => seq!['%', '?'],
            Self::Addition => seq!['+'],
            Self::SaturatingAddition => seq!['+', '|'],
            Self::WrappingAddition => seq!['+', '%'],
            Self::TryAddition => seq!['+', '?'],
            Self::Subtraction => seq!['-'],
            Self::SaturatingSubtraction => seq!['-', '|'],
            Self::WrappingSubtraction => seq!['-', '%'],
            Self::TrySubtraction => seq!['-', '?'],
            Self::Append => seq!['+', '+', '+'],
            Self::BitshiftLeft => seq!['<', '<'],
            Self::SaturatingBitshiftLeft => seq!['<', '<', '|'],
            Self::WrappingBitshiftLeft => seq!['<', '<', '%'],
            Self::TryBitshiftLeft => seq!['<', '<', '?'],
            Self::BitshiftRight => seq!['>', '>'],
            Self::ThreeWayCompare => seq!['<', '=', '>'],
            Self::LessThan => seq!['<'],
            Self::LessThanOrEqualTo => seq!['<', '='],
            Self::GreaterThan => seq!['>'],
            Self::GreaterThanOrEqualTo => seq!['>', '='],
            Self::Equality => seq!['=', '='],
            Self::Inequality => seq!['!', '='],
            Self::ReferenceEquality => seq!['=', '=', '='],
            Self::ReferenceInequality => seq!['!', '=', '='],
            Self::NonShortCircuitAnd => seq!['&'],
            Self::NonShortCircuitNand => seq!['!', '&'],
            Self::NonShortCircuitXor => seq!['^'],
            Self::NonShortCircuitXnor => seq!['!', '^'],
            Self::NonShortCircuitOr => seq!['|'],
            Self::NonShortCircuitNor => seq!['!', '|'],
            Self::Minimum => seq!['<', '<', '<'],
            Self::Maximum => seq!['>', '>', '>'],
            Self::Pipe => seq!['|', '>'],
            Self::ShortCircuitAnd => seq!['&', '&'],
            Self::ShortCircuitNand => seq!['!', '&', '&'],
            Self::ShortCircuitXor => seq!['^', '^'],
            Self::ShortCircuitXnor => seq!['!', '^', '^'],
            Self::ShortCircuitOr => seq!['|', '|'],
            Self::ShortCircuitNor => seq!['!', '|', '|'],
            Self::NonShortCircuitingNullCoalescing => seq!['?'],
            Self::ShortCircuitingNullCoalescing => seq!['?', '?'],
            Self::ExclusiveRange => seq!['.', '.'],
            Self::InclusiveRange => seq!['.', '.', '='],
        }
    }

    /// Each infix operator is read from exactly its own symbol: `/` is division, `%` is modulo, `+`
    /// is addition and so on. Reading an operator's symbol gives that operator, and whatever
    /// symbol is read as an operator is that operator's symbol.
    pub proof fn law_symbols_read_as_their_operators(self, s: Seq<char>)
        ensures
            Self::spec_from_source(self.spec_symbol()) == Some(self),
            Self::spec_from_source(s) == Some(self) ==> s == self.spec_symbol(),
    {
        if Self::spec_from_source(s) == Some(self) {
            assert(s =~= self.spec_symbol());
        }
    }

    pub fn print_name(&self) -> (r: &'static str)
        ensures
            r@ == self.spec_print_name(),
    {
        match self {
            Self::NoOperator => "None",
            Self::MemberAccess => "member Access .",
            Self::As => "As ->",
            Self::SaturatingAs => "Saturating As ->|",
            Self::WrappingAs => "Wrapping As ->%",
            Self::TryAs => "Try As ->?",
            Self::Exponent => "Exponent **",
            Self::SaturatingExponent => "Saturating Exponent **|",
            Self::WrappingExponent => "Wrapping Exponent **%",
            Self::TryExponent => "Try Exponent **?",
            Self::Multiplication => "Multiplication *",
            Self::SaturatingMultiplication => "Saturating Multiplication *|",
            Self::WrappingMultiplication => "Wrapping Multiplication *%",
            Self::TryMultiplication => "Try Multiplication *?",
            Self::Division => "Division /",
            Self::SaturatingDivision => "Saturating Division /|",
            Self::WrappingDivision => "Wrapping Division /%",
            Self::TryDivision => "Try Division /?",
            Self::Modulo => "Modulo %",
            Self::SaturatingModulo => "Saturating Modulo %|",
            Self::WrappingModulo => "Wrapping Modulo %%",
            Self::TryModulo => "Try Modulo %?",
            Self::Addition => "Addition +",
            Self::SaturatingAddition => "Saturating Addition +|",
            Self::WrappingAddition => "Wrapping Addition +%",
            Self::TryAddition => "Try Addition +?",
            Self::Subtraction => "Subtraction -",
            Self::SaturatingSubtraction => "Saturating Subtraction -|",
            Self::WrappingSubtraction => "Wrapping Subtraction -%",
            Self::TrySubtraction => "Try Subtraction -?",
            Self::Append => "Append +++",
            Self::BitshiftLeft => "Bitshift Left <<",
            Self::SaturatingBitshiftLeft => "Saturating Bitshift Left <<|",
            Self::WrappingBitshiftLeft => "Wrapping Bitshift Left <<%",
            Self::TryBitshiftLeft => "Try Bitshift Left <<?",
            Self::BitshiftRight => "Bitshift Left >>",
            Self::ThreeWayCompare => "Three Way Compare <=>",
            Self::LessThan => "Less than <",
            Self::LessThanOrEqualTo => "Less than or Equal to <=",
            Self::GreaterThan => "Greater than >",
            Self::GreaterThanOrEqualTo => "Greater than or Equal to >=",
            Self::Equality => "Equality ==",
            Self::Inequality => "Inequality !=",
            Self::ReferenceEquality => "Reference Equality ===",
            Self::ReferenceInequality => "Reference Inequality !==",
            Self::NonShortCircuitAnd => "Non-Short Circuit AND &",
            Self::NonShortCircuitNand => "Non-Short Circuit NAND !&",
            Self::NonShortCircuitXor => "Non-Short Circuit XOR ^",
            Self::NonShortCircuitXnor => "Non-Short Circuit NAND !^",
            Self::NonShortCircuitOr => "Non-Short Circuit OR |",
            Self::NonShortCircuitNor => "Non-Short Circuit NOR !|",
            Self::Minimum => "Minimum <<<",
            Self::Maximum => "Maximum >>>",
            Self::Pipe => "Pipe |>",
            Self::ShortCircuitAnd => "Short Circuit AND &&",
            Self::ShortCircuitNand => "Short Circuit NAND !&&",
            Self::ShortCircuitXor => "Short Circuit XOR ^^",
            Self::ShortCircuitXnor => "Short Circuit NAND !^^",
            Self::ShortCircuitOr => "Short Circuit OR ||",
            Self::ShortCircuitNor => "Short Circuit NOR !||",
            Self::NonShortCircuitingNullCoalescing => "Non-Short Circuiting Null Coalescing ?",
            Self::ShortCircuitingNullCoalescing => "Short Circuiting Null Coalescing ??",
            Self::ExclusiveRange => "Exclusive Range ..",
            Self::InclusiveRange => "Inclusive Range ..=",
        }
    }

    /// The operator written by an operator symbol, if any.
    pub open spec fn spec_from_source(s: Seq<char>) -> Option<Self> {
        if s.len() == 0 {
            Some(Self::NoOperator)
        } else if s.len() == 1 && s[0] == '.' {
            Some(Self::MemberAccess)
        } else if s.len() == 2 && s[0] == '-' && s[1] == '>' {
            Some(Self::As)
        } else if s.len() == 3 && s[0] == '-' && s[1] == '>' && s[2] == '|' {
            Some(Self::SaturatingAs)
        } else if s.len() == 3 && s[0] == '-' && s[1] == '>' && s[2] == '%' {
            Some(Self::WrappingAs)
        } else if s.len() == 3 && s[0] == '-' && s[1] == '>' && s[2] == '?' {
            Some(Self::TryAs)
        } else if s.len() == 2 && s[0] == '*' && s[1] == '*' {
            Some(Self::Exponent)
        } else if s.len() == 3 && s[0] == '*' && s[1] == '*' && s[2] == '|' {
            Some(Self::SaturatingExponent)
        } else if s.len() == 3 && s[0] == '*' && s[1] == '*' && s[2] == '%' {
            Some(Self::WrappingExponent)
        } else if s.len() == 3 && s[0] == '*' && s[1] == '*' && s[2] == '?' {
            Some(Self::TryExponent)
        } else if s.len() == 1 && s[0] == '*' {
            Some(Self::Multiplication)
        } else if s.len() == 2 && s[0] == '*' && s[1] == '|' {
            Some(Self::SaturatingMultiplication)
        } else if s.len() == 2 && s[0] == '*' && s[1] == '%' {
            Some(Self::WrappingMultiplication)
        } else if s.len() == 2 && s[0] == '*' && s[1] == '?' {
            Some(Self::TryMultiplication)
        } else if s.len() == 1 && s[0] == '/' {
            Some(Self::Division)
        } else if s.len() == 2 && s[0] == '/' && s[1] == '|' {
            Some(Self::SaturatingDivision)
        } else if s.len() == 2 && s[0] == '/' && s[1] == '%' {
            Some(Self::WrappingDivision)
        } else if s.len() == 2 && s[0] == '/' && s[1] == '?' {
            Some(Self::TryDivision)
        } else if s.len() == 1 && s[0] == '%' {
            Some(Self::Modulo)
        } else if s.len() == 2 && s[0] == '%' && s[1] == '|' {
            Some(Self::SaturatingModulo)
        } else if s.len() == 2 && s[0] == '%' && s[1] == '%' {
            Some(Self::WrappingModulo)
        } else if s.len() == 2 && s[0] == '%' && s[1] == '?' {
            Some(Self::TryModulo)
        } else if s.len() == 1 && s[0] == '+' {
            Some(Self::Addition)
        } else if s.len() == 2 && s[0] == '+' && s[1] == '|' {
            Some(Self::SaturatingAddition)
        } else if s.len() == 2 && s[0] == '+' && s[1] == '%' {
            Some(Self::WrappingAddition)
        } else if s.len() == 2 && s[0] == '+' && s[1] == '?' {
            Some(Self::TryAddition)
        } else if s.len() == 1 && s[0] == '-' {
            Some(Self::Subtraction)
        } else if s.len() == 2 && s[0] == '-' && s[1] == '|' {
            Some(Self::SaturatingSubtraction)
        } else if s.len() == 2 && s[0] == '-' && s[1] == '%' {
            Some(Self::WrappingSubtraction)
        } else if s.len() == 2 && s[0] == '-' && s[1] == '?' {
            Some(Self::TrySubtraction)
        } else if s.len() == 3 && s[0] == '+' && s[1] == '+' && s[2] == '+' {
            Some(Self::Append)
        } else if s.len() == 2 && s[0] == '<' && s[1] == '<' {
            Some(Self::BitshiftLeft)
        } else if s.len() == 3 && s[0] == '<' && s[1] == '<' && s[2] == '|' {
            Some(Self::SaturatingBitshiftLeft)
        } else if s.len() == 3 && s[0] == '<' && s[1] == '<' && s[2] == '%' {
            Some(Self::WrappingBitshiftLeft)
        } else if s.len() == 3 && s[0] == '<' && s[1] == '<' && s[2] == '?' {
            Some(Self::TryBitshiftLeft)
        } else if s.len() == 2 && s[0] == '>' && s[1] == '>' {
            Some(Self::BitshiftRight)
        } else if s.len() == 2 && s[0] == '=' && s[1] == '=' {
            Some(Self::Equality)
        } else if s.len() == 2 && s[0] == '!' && s[1] == '=' {
            Some(Self::Inequality)
        } else if s.len() == 3 && s[0] == '=' && s[1] == '=' && s[2] == '=' {
            Some(Self::ReferenceEquality)
        } else if s.len() == 3 && s[0] == '!' && s[1] == '=' && s[2] == '=' {
            Some(Self::ReferenceInequality)
        } else if s.len() == 3 && s[0] == '<' && s[1] == '=' && s[2] == '>' {
            Some(Self::ThreeWayCompare)
        } else if s.len() == 1 && s[0] == '<' {
            Some(Self::LessThan)
        } else if s.len() == 2 && s[0] == '<' && s[1] == '=' {
            Some(Self::LessThanOrEqualTo)
        } else if s.len() == 1 && s[0] == '>' {
            Some(Self::GreaterThan)
        } else if s.len() == 2 && s[0] == '>' && s[1] == '=' {
            Some(Self::GreaterThanOrEqualTo)
        } else if s.len() == 1 && s[0] == '&' {
            Some(Self::NonShortCircuitAnd)
        } else if s.len() == 2 && s[0] == '!' && s[1] == '&' {
            Some(Self::NonShortCircuitNand)
        } else if s.len() == 1 && s[0] == '^' {
            Some(Self::NonShortCircuitXor)
        } else if s.len() == 2 && s[0] == '!' && s[1] == '^' {
            Some(Self::NonShortCircuitXnor)
        } else if s.len() == 1 && s[0] == '|' {
            Some(Self::NonShortCircuitOr)
        } else if s.len() == 2 && s[0] == '!' && s[1] == '|' {
            Some(Self::NonShortCircuitNor)
        } else if s.len() == 3 && s[0] == '<' && s[1] == '<' && s[2] == '<' {
            Some(Self::Minimum)
        } else if s.len() == 3 && s[0] == '>' && s[1] == '>' && s[2] == '>' {
            Some(Self::Maximum)
        } else if s.len() == 2 && s[0] == '|' && s[1] == '>' {
            Some(Self::Pipe)
        } else if s.len() == 2 && s[0] == '&' && s[1] == '&' {
            Some(Self::ShortCircuitAnd)
        } else if s.len() == 3 && s[0] == '!' && s[1] == '&' && s[2] == '&' {
            Some(Self::ShortCircuitNand)
        } else if s.len() == 2 && s[0] == '^' && s[1] == '^' {
            Some(Self::ShortCircuitXor)
        } else if s.len() == 3 && s[0] == '!' && s[1] == '^' && s[2] == '^' {
            Some(Self::ShortCircuitXnor)
        } else if s.len() == 2 && s[0] == '|' && s[1] == '|' {
            Some(Self::ShortCircuitOr)
        } else if s.len() == 3 && s[0] == '!' && s[1] == '|' && s[2] == '|' {
            Some(Self::ShortCircuitNor)
        } else if s.len() == 1 && s[0] == '?' {
            Some(Self::NonShortCircuitingNullCoalescing)
        } else if s.len() == 2 && s[0] == '?' && s[1] == '?' {
            Some(Self::ShortCircuitingNullCoalescing)
        } else if s.len() == 2 && s[0] == '.' && s[1] == '.' {
            Some(Self::ExclusiveRange)
        } else if s.len() == 3 && s[0] == '.' && s[1] == '.' && s[2] == '=' {
            Some(Self::InclusiveRange)
        } else {
            None
        }
    }

    pub fn from_source_chars(s: &[char]) -> (r: Option<Self>)
        ensures
            r == Self::spec_from_source(s@),
    {
        let n = s.len();
        if n == 0 {
            Some(Self::NoOperator)
        } else if n == 1 && s[0] == '.' {
            Some(Self::MemberAccess)
        } else if n == 2 && s[0] == '-' && s[1] == '>' {
            Some(Self::As)
        } else if n == 3 && s[0] == '-' && s[1] == '>' && s[2] == '|' {
            Some(Self::SaturatingAs)
        } else if n == 3 && s[0] == '-' && s[1] == '>' && s[2] == '%' {
            Some(Self::WrappingAs)
        } else if n == 3 && s[0] == '-' && s[1] == '>' && s[2] == '?' {
            Some(Self::TryAs)
        } else if n == 2 && s[0] == '*' && s[1] == '*' {
            Some(Self::Exponent)
        } else if n == 3 && s[0] == '*' && s[1] == '*' && s[2] == '|' {
            Some(Self::SaturatingExponent)
        } else if n == 3 && s[0] == '*' && s[1] == '*' && s[2] == '%' {
            Some(Self::WrappingExponent)
        } else if n == 3 && s[0] == '*' && s[1] == '*' && s[2] == '?' {
            Some(Self::TryExponent)
        } else if n == 1 && s[0] == '*' {
            Some(Self::Multiplication)
        } else if n == 2 && s[0] == '*' && s[1] == '|' {
            Some(Self::SaturatingMultiplication)
        } else if n == 2 && s[0] == '*' && s[1] == '%' {
            Some(Self::WrappingMultiplication)
        } else if n == 2 && s[0] == '*' && s[1] == '?' {
            Some(Self::TryMultiplication)
        } else if n == 1 && s[0] == '/' {
            Some(Self::Division)
        } else if n == 2 && s[0] == '/' && s[1] == '|' {
            Some(Self::SaturatingDivision)
        } else if n == 2 && s[0] == '/' && s[1] == '%' {
            Some(Self::WrappingDivision)
        } else if n == 2 && s[0] == '/' && s[1] == '?' {
            Some(Self::TryDivision)
        } else if n == 1 && s[0] == '%' {
            Some(Self::Modulo)
        } else if n == 2 && s[0] == '%' && s[1] == '|' {
            Some(Self::SaturatingModulo)
        } else if n == 2 && s[0] == '%' && s[1] == '%' {
            Some(Self::WrappingModulo)
        } else if n == 2 && s[0] == '%' && s[1] == '?' {
            Some(Self::TryModulo)
        } else if n == 1 && s[0] == '+' {
            Some(Self::Addition)
        } else if n == 2 && s[0] == '+' && s[1] == '|' {
            Some(Self::SaturatingAddition)
        } else if n == 2 && s[0] == '+' && s[1] == '%' {
            Some(Self::WrappingAddition)
        } else if n == 2 && s[0] == '+' && s[1] == '?' {
            Some(Self::TryAddition)
        } else if n == 1 && s[0] == '-' {
            Some(Self::Subtraction)
        } else if n == 2 && s[0] == '-' && s[1] == '|' {
            Some(Self::SaturatingSubtraction)
        } else if n == 2 && s[0] == '-' && s[1] == '%' {
            Some(Self::WrappingSubtraction)
        } else if n == 2 && s[0] == '-' && s[1] == '?' {
            Some(Self::TrySubtraction)
        } else if n == 3 && s[0] == '+' && s[1] == '+' && s[2] == '+' {
            Some(Self::Append)
        } else if n == 2 && s[0] == '<' && s[1] == '<' {
            Some(Self::BitshiftLeft)
        } else if n == 3 && s[0] == '<' && s[1] == '<' && s[2] == '|' {
            Some(Self::SaturatingBitshiftLeft)
        } else if n == 3 && s[0] == '<' && s[1] == '<' && s[2] == '%' {
            Some(Self::WrappingBitshiftLeft)
        } else if n == 3 && s[0] == '<' && s[1] == '<' && s[2] == '?' {
            Some(Self::TryBitshiftLeft)
        } else if n == 2 && s[0] == '>' && s[1] == '>' {
            Some(Self::BitshiftRight)
        } else if n == 2 && s[0] == '=' && s[1] == '=' {
            Some(Self::Equality)
        } else if n == 2 && s[0] == '!' && s[1] == '=' {
            Some(Self::Inequality)
        } else if n == 3 && s[0] == '=' && s[1] == '=' && s[2] == '=' {
            Some(Self::ReferenceEquality)
        } else if n == 3 && s[0] == '!' && s[1] == '=' && s[2] == '=' {
            Some(Self::ReferenceInequality)
        } else if n == 3 && s[0] == '<' && s[1] == '=' && s[2] == '>' {
            Some(Self::ThreeWayCompare)
        } else if n == 1 && s[0] == '<' {
            Some(Self::LessThan)
        } else if n == 2 && s[0] == '<' && s[1] == '=' {
            Some(Self::LessThanOrEqualTo)
        } else if n == 1 && s[0] == '>' {
            Some(Self::GreaterThan)
        } else if n == 2 && s[0] == '>' && s[1] == '=' {
            Some(Self::GreaterThanOrEqualTo)
        } else if n == 1 && s[0] == '&' {
            Some(Self::NonShortCircuitAnd)
        } else if n == 2 && s[0] == '!' && s[1] == '&' {
            Some(Self::NonShortCircuitNand)
        } else if n == 1 && s[0] == '^' {
            Some(Self::NonShortCircuitXor)
        } else if n == 2 && s[0] == '!' && s[1] == '^' {
            Some(Self::NonShortCircuitXnor)
        } else if n == 1 && s[0] == '|' {
            Some(Self::NonShortCircuitOr)
        } else if n == 2 && s[0] == '!' && s[1] == '|' {
            Some(Self::NonShortCircuitNor)
        } else if n == 3 && s[0] == '<' && s[1] == '<' && s[2] == '<' {
            Some(Self::Minimum)
        } else if n == 3 && s[0] == '>' && s[1] == '>' && s[2] == '>' {
            Some(Self::Maximum)
        } else if n == 2 && s[0] == '|' && s[1] == '>' {
            Some(Self::Pipe)
        } else if n == 2 && s[0] == '&' && s[1] == '&' {
            Some(Self::ShortCircuitAnd)
        } else if n == 3 && s[0] == '!' && s[1] == '&' && s[2] == '&' {
            Some(Self::ShortCircuitNand)
        } else if n == 2 && s[0] == '^' && s[1] == '^' {
            Some(Self::ShortCircuitXor)
        } else if n == 3 && s[0] == '!' && s[1] == '^' && s[2] == '^' {
            Some(Self::ShortCircuitXnor)
        } else if n == 2 && s[0] == '|' && s[1] == '|' {
            Some(Self::ShortCircuitOr)
        } else if n == 3 && s[0] == '!' && s[1] == '|' && s[2] == '|' {
            Some(Self::ShortCircuitNor)
        } else if n == 1 && s[0] == '?' {
            Some(Self::NonShortCircuitingNullCoalescing)
        } else if n == 2 && s[0] == '?' && s[1] == '?' {
            Some(Self::ShortCircuitingNullCoalescing)
        } else if n == 2 && s[0] == '.' && s[1] == '.' {
            Some(Self::ExclusiveRange)
        } else if n == 3 && s[0] == '.' && s[1] == '.' && s[2] == '=' {
            Some(Self::InclusiveRange)
        } else {
            None
        }
    }

    pub fn from_source(source: &str) -> (r: Option<Self>)
        ensures
            r == Self::spec_from_source(source@),
    {
        let chars = str_to_chars(source);
        Self::from_source_chars(chars.as_slice())
    }
}

/// A postfix unary operator.
#[derive(Debug, Clone, Copy, PartialEq, Eq, Structural)]
pub enum TanukiPostfixUnaryOperator {
    Percent,
    Factorial,
    SaturatingFactorial,
    WrappingFactorial,
    TryFactorial,
    Increment,
    SaturatingIncrement,
    WrappingIncrement,
    Decrement,
    SaturatingDecrement,
    WrappingDecrement,
    TryPropagate,
    Unwrap,
}

impl TanukiPostfixUnaryOperator {
    /// The name of the operator for printing.
    pub open spec fn spec_print_name(&self) -> Seq<char> {
        match self {
            Self::Percent => "Percent %"@,
            Self::Factorial => "Factorial !"@,
            Self::SaturatingFactorial => "Saturating Factorial !|"@,
            Self::WrappingFactorial => "Wrapping Factorial !%"@,
            Self::TryFactorial => "Try Factorial !?"@,
            Self::Increment => "Increment ++"@,
            Self::SaturatingIncrement => "Saturating Increment ++|"@,
            Self::WrappingIncrement => "Wrapping Increment ++%"@,
            Self::Decrement => "Decrement --"@,
            Self::SaturatingDecrement => "Saturating Decrement --|"@,
            Self::WrappingDecrement => "Wrapping Decrement --%"@,
            Self::TryPropagate => "Try Propagate ?"@,
            Self::Unwrap => "Unwrap .?"@,
        }
    }

    /// The symbol the operator is written with, as its printed name ends with it.
    pub open spec fn spec_symbol(&self) -> Seq<char> {
        match self {
            Self::Percent => seq!['%'],
            Self::Factorial => seq!['!'],
            Self::SaturatingFactorial => seq!['!', '|'],
            Self::WrappingFactorial => seq!['!', '%'],
            Self::TryFactorial => seq!['!', '?'],
            Self::Increment => seq!['+', '+'],
            Self::SaturatingIncrement => seq!['+', '+', '|'],
            Self::WrappingIncrement => seq!['+', '+', '%'],
            Self::Decrement => seq!['-', '-'],
            Self::SaturatingDecrement => seq!['-', '-', '|'],
            Self::WrappingDecrement => seq!['-', '-', '%'],
            Self::TryPropagate => seq!['?'],
            Self::Unwrap => seq!['.', '?'],
        }
    }

    /// Each postfix operator is read from exactly its own symbol: reading an operator's symbol gives
    /// that operator, and whatever symbol is read as an operator is that operator's symbol.
    pub proof fn law_symbols_read_as_their_operators(self, s: Seq<char>)
        ensures
            Self::spec_from_source(self.spec_symbol()) == Some(self),
            Self::spec_from_source(s) == Some(self) ==> s == self.spec_symbol(),
    {
        if Self::spec_from_source(s) == Some(self) {
            assert(s =~= self.spec_symbol());
        }
    }

    pub fn print_name(&self) -> (r: &'static str)
        ensures
            r@ == self.spec_print_name(),
    {
        match self {
            Self::Percent => "Percent %",
            Self::Factorial => "Factorial !",
            Self::SaturatingFactorial => "Saturating Factorial !|",
            Self::WrappingFactorial => "Wrapping Factorial !%",
            Self::TryFactorial => "Try Factorial !?",
            Self::Increment => "Increment ++",
            Self::SaturatingIncrement => "Saturating Increment ++|",
            Self::WrappingIncrement => "Wrapping Increment ++%",
            Self::Decrement => "Decrement --",
            Self::SaturatingDecrement => "Saturating Decrement --|",
            Self::WrappingDecrement => "Wrapping Decrement --%",
            Self::TryPropagate => "Try Propagate ?",
            Self::Unwrap => "Unwrap .?",
        }
    }

    /// The operator written by an operator symbol, if any.
    pub open spec fn spec_from_source(s: Seq<char>) -> Option<Self> {
        if s.len() == 1 && s[0] == '%' {
            Some(Self::Percent)
        } else if s.len() == 1 && s[0] == '!' {
            Some(Self::Factorial)
        } else if s.len() == 2 && s[0] == '!' && s[1] == '|' {
            Some(Self::SaturatingFactorial)
        } else if s.len() == 2 && s[0] == '!' && s[1] == '%' {
            Some(Self::WrappingFactorial)
        } else if s.len() == 2 && s[0] == '!' && s[1] == '?' {
            Some(Self::TryFactorial)
        } else if s.len() == 2 && s[0] == '+' && s[1] == '+' {
            Some(Self::Increment)
        } else if s.len() == 3 && s[0] == '+' && s[1] == '+' && s[2] == '|' {
            Some(Self::SaturatingIncrement)
        } else if s.len() == 3 && s[0] == '+' && s[1] == '+' && s[2] == '%' {
            Some(Self::WrappingIncrement)
        } else if s.len() == 2 && s[0] == '-' && s[1] == '-' {
            Some(Self::Decrement)
        } else if s.len() == 3 && s[0] == '-' && s[1] == '-' && s[2] == '|' {
            Some(Self::SaturatingDecrement)
        } else if s.len() == 3 && s[0] == '-' && s[1] == '-' && s[2] == '%' {
            Some(Self::WrappingDecrement)
        } else if s.len() == 1 && s[0] == '?' {
            Some(Self::TryPropagate)
        } else if s.len() == 2 && s[0] == '.' && s[1] == '?' {
            Some(Self::Unwrap)
        } else {
            None
        }
    }

    pub fn from_source_chars(s: &[char]) -> (r: Option<Self>)
        ensures
            r == Self::spec_from_source(s@),
    {
        let n = s.len();
        if n == 1 && s[0] == '%' {
            Some(Self::Percent)
        } else if n == 1 && s[0] == '!' {
            Some(Self::Factorial)
        } else if n == 2 && s[0] == '!' && s[1] == '|' {
            Some(Self::SaturatingFactorial)
        } else if n == 2 && s[0] == '!' && s[1] == '%' {
            Some(Self::WrappingFactorial)
        } else if n == 2 && s[0] == '!' && s[1] == '?' {
            Some(Self::TryFactorial)
        } else if n == 2 && s[0] == '+' && s[1] == '+' {
            Some(Self::Increment)
        } else if n == 3 && s[0] == '+' && s[1] == '+' && s[2] == '|' {
            Some(Self::SaturatingIncrement)
        } else if n == 3 && s[0] == '+' && s[1] == '+' && s[2] == '%' {
            Some(Self::WrappingIncrement)
        } else if n == 2 && s[0] == '-' && s[1] == '-' {
            Some(Self::Decrement)
        } else if n == 3 && s[0] == '-' && s[1] == '-' && s[2] == '|' {
            Some(Self::SaturatingDecrement)
        } else if n == 3 && s[0] == '-' && s[1] == '-' && s[2] == '%' {
            Some(Self::WrappingDecrement)
        } else if n == 1 && s[0] == '?' {
            Some(Self::TryPropagate)
        } else if n == 2 && s[0] == '.' && s[1] == '?' {
            Some(Self::Unwrap)
        } else {
            None
        }
    }

    pub fn from_source(source: &str) -> (r: Option<Self>)
        ensures
            r == Self::spec_from_source(source@),
    {
        let chars = str_to_chars(source);
        Self::from_source_chars(chars.as_slice())
    }
}

/// An infix ternary operator, its middle operand ends at a colon.
#[derive(Debug, Clone, Copy, PartialEq, Eq, Structural)]
pub enum TanukiInfixTernaryOperator {
    NonShortCircuitingConditional,
    ShortCircuitingConditional,
}

impl TanukiInfixTernaryOperator {
    /// The name of the operator for printing.
    pub open spec fn spec_print_name(&self) -> Seq<char> {
        match self {
            Self::NonShortCircuitingConditional => "Non-Short Circuiting Conditional ?"@,
            Self::ShortCircuitingConditional => "Short Circuiting Conditional ??"@,
        }
    }

    /// The symbol the operator is written with, as its printed name ends with it.
    pub open spec fn spec_symbol(&self) -> Seq<char> {
        match self {
            Self::NonShortCircuitingConditional => seq!['?'],
            Self::ShortCircuitingConditional => seq!['?', '?'],
        }
    }

    /// Each ternary operator is read from exactly its own symbol: reading an operator's symbol gives
    /// that operator, and whatever symbol is read as an operator is that operator's symbol.
    pub proof fn law_symbols_read_as_their_operators(self, s: Seq<char>)
        ensures
            Self::spec_from_source(self.spec_symbol()) == Some(self),
            Self::spec_from_source(s) == Some(self) ==> s == self.spec_symbol(),
    {
        if Self::spec_from_source(s) == Some(self) {
            assert(s =~= self.spec_symbol());
        }
    }

    pub fn print_name(&self) -> (r: &'static str)
        ensures
            r@ == self.spec_print_name(),
    {
        match self {
            Self::NonShortCircuitingConditional => "Non-Short Circuiting Conditional ?",
            Self::ShortCircuitingConditional => "Short Circuiting Conditional ??",
        }
    }

    /// The operator written by an operator symbol, if any.
    pub open spec fn spec_from_source(s: Seq<char>) -> Option<Self> {
        if s.len() == 1 && s[0] == '?' {
            Some(Self::NonShortCircuitingConditional)
        } else if s.len() == 2 && s[0] == '?' && s[1] == '?' {
            Some(Self::ShortCircuitingConditional)
        } else {
            None
        }
    }

    pub fn from_source_chars(s: &[char]) -> (r: Option<Self>)
        ensures
            r == Self::spec_from_source(s@),
    {
        let n = s.len();
        if n == 1 && s[0] == '?' {
            Some(Self::NonShortCircuitingConditional)
        } else if n == 2 && s[0] == '?' && s[1] == '?' {
            Some(Self::ShortCircuitingConditional)
        } else {
            None
        }
    }

    pub fn from_source(source: &str) -> (r: Option<Self>)
        ensures
            r == Self::spec_from_source(source@),
    {
        let chars = str_to_chars(source);
        Self::from_source_chars(chars.as_slice())
    }
}

/// An operator without operands.
#[derive(Debug, Clone, Copy, PartialEq, Eq, Structural)]
pub enum TanukiNullaryOperator {
    Roll,
    Last,
    FullRange,
}

impl TanukiNullaryOperator {
    /// The name of the operator for printing.
    pub open spec fn spec_print_name(&self) -> Seq<char> {
        match self {
            Self::Roll => "Roll ?"@,
            Self::Last => "Last ^"@,
            Self::FullRange => "Full Range .."@,
        }
    }

    /// The symbol the operator is written with, as its printed name ends with it.
    pub open spec fn spec_symbol(&self) -> Seq<char> {
        match self {
            Self::Roll => seq!['?'],
            Self::Last => seq!['^'],
            Self::FullRange => seq!['.', '.'],
        }
    }

    /// Each nullary operator is read from exactly its own symbol: reading an operator's symbol gives
    /// that operator, and whatever symbol is read as an operator is that operator's symbol.
    pub proof fn law_symbols_read_as_their_operators(self, s: Seq<char>)
        ensures
            Self::spec_from_source(self.spec_symbol()) == Some(self),
            Self::spec_from_source(s) == Some(self) ==> s == self.spec_symbol(),
    {
        if Self::spec_from_source(s) == Some(self) {
            assert(s =~= self.spec_symbol());
        }
    }

    pub fn print_name(&self) -> (r: &'static str)
        ensures
            r@ == self.spec_print_name(),
    {
        match self {
            Self::Roll => "Roll ?",
            Self::Last => "Last ^",
            Self::FullRange => "Full Range ..",
        }
    }

    /// The operator written by an operator symbol, if any.
    pub open spec fn spec_from_source(s: Seq<char>) -> Option<Self> {
        if s.len() == 1 && s[0] == '?' {
            Some(Self::Roll)
        } else if s.len() == 1 && s[0] == '^' {
            Some(Self::Last)
        } else if s.len() == 2 && s[0] == '.' && s[1] == '.' {
            Some(Self::FullRange)
        } else {
            None
        }
    }

    pub fn from_source_chars(s: &[char]) -> (r: Option<Self>)
        ensures
            r == Self::spec_from_source(s@),
    {
        let n = s.len();
        if n == 1 && s[0] == '?' {
            Some(Self::Roll)
        } else if n == 1 && s[0] == '^' {
            Some(Self::Last)
        } else if n == 2 && s[0] == '.' && s[1] == '.' {
            Some(Self::FullRange)
        } else {
            None
        }
    }

    pub fn from_source(source: &str) -> (r: Option<Self>)
        ensures
            r == Self::spec_from_source(source@),
    {
        let chars = str_to_chars(source);
        Self::from_source_chars(chars.as_slice())
    }
}

/// A keyword, written with a leading `@`.
#[derive(Debug, Clone, Copy, PartialEq, Eq, Structural)]
pub enum TanukiKeyword {
    Import,
    ImportStd,
    Export,
    Link,
    LinkIf,
    U,
    I,
    F,
    True,
    False,
    Void,
    Break,
    Continue,
    Redo,
    Entrypoint,
    Bool,
    Int,
    Info,
    Transmute,
    Type,
}

impl TanukiKeyword {
    /// The name of the operator for printing.
    pub open spec fn spec_print_name(&self) -> Seq<char> {
        match self {
            Self::Import => "Import"@,
            Self::ImportStd => "Import STD"@,
            Self::Export => "Export"@,
            Self::Link => "Link"@,
            Self::LinkIf => "Link If"@,
            Self::U => "U"@,
            Self::I => "I"@,
            Self::F => "F"@,
            Self::True => "True"@,
            Self::False => "False"@,
            Self::Void => "Void"@,
            Self::Break => "Break"@,
            Self::Continue => "Continue"@,
            Self::Redo => "Redo"@,
            Self::Entrypoint => "Entrypoint"@,
            Self::Bool => "Bool"@,
            Self::Int => "Int"@,
            Self::Info => "Info"@,
            Self::Transmute => "Transmute"@,
            Self::Type => "Type"@,
        }
    }

    /// The name a keyword is written with after its `@`: `import`, `u`, `true`, `_info` and so on.
    pub open spec fn spec_name(&self) -> Seq<char> {
        match self {
            Self::Import => seq!['i', 'm', 'p', 'o', 'r', 't'],
            Self::ImportStd => seq!['i', 'm', 'p', 'o', 'r', 't', '_', 's', 't', 'd'],
            Self::Export => seq!['e', 'x', 'p', 'o', 'r', 't'],
            Self::Link => seq!['l', 'i', 'n', 'k'],
            Self::LinkIf => seq!['l', 'i', 'n', 'k', '_', 'i', 'f'],
            Self::U => seq!['u'],
            Self::I => seq!['i'],
            Self::F => seq!['f'],
            Self::True => seq!['t', 'r', 'u', 'e'],
            Self::False => seq!['f', 'a', 'l', 's', 'e'],
            Self::Void => seq!['v', 'o', 'i', 'd'],
            Self::Break => seq!['b', 'r', 'e', 'a', 'k'],
            Self::Continue => seq!['c', 'o', 'n', 't', 'i', 'n', 'u', 'e'],
            Self::Redo => seq!['r', 'e', 'd', 'o'],
            Self::Entrypoint => seq!['e', 'n', 't', 'r', 'y', 'p', 'o', 'i', 'n', 't'],
            Self::Bool => seq!['b', 'o', 'o', 'l'],
            Self::Int => seq!['i', 'n', 't'],
            Self::Info => seq!['_', 'i', 'n', 'f', 'o'],
            Self::Transmute => seq!['t', 'r', 'a', 'n', 's', 'm', 'u', 't', 'e'],
            Self::Type => seq!['t', 'y', 'p', 'e'],
        }
    }

    /// Each keyword is read from exactly its own name: reading a keyword's name gives that keyword,
    /// and whatever name is read as a keyword is that keyword's name.
    pub proof fn law_names_read_as_their_keywords(self, s: Seq<char>)
        ensures
            Self::spec_from_name(self.spec_name()) == Some(self),
            Self::spec_from_name(s) == Some(self) ==> s == self.spec_name(),
    {
        if Self::spec_from_name(s) == Some(self) {
            assert(s =~= self.spec_name());
        }
    }

    pub fn print_name(&self) -> (r: &'static str)
        ensures
            r@ == self.spec_print_name(),
    {
        match self {
            Self::Import => "Import",
            Self::ImportStd => "Import STD",
            Self::Export => "Export",
            Self::Link => "Link",
            Self::LinkIf => "Link If",
            Self::U => "U",
            Self::I => "I",
            Self::F => "F",
            Self::True => "True",
            Self::False => "False",
            Self::Void => "Void",
            Self::Break => "Break",
            Self::Continue => "Continue",
            Self::Redo => "Redo",
            Self::Entrypoint => "Entrypoint",
            Self::Bool => "Bool",
            Self::Int => "Int",
            Self::Info => "Info",
            Self::Transmute => "Transmute",
            Self::Type => "Type",
        }
    }

    /// The keyword with a name (without the leading `@`), if any.
    pub open spec fn spec_from_name(s: Seq<char>) -> Option<Self> {
        if s.len() == 6 && s[0] == 'i' && s[1] == 'm' && s[2] == 'p' && s[3] == 'o' && s[4] == 'r' && s[5] == 't' {
            Some(Self::Import)
        } else if s.len() == 10 && s[0] == 'i' && s[1] == 'm' && s[2] == 'p' && s[3] == 'o' && s[4] == 'r' && s[5] == 't' && s[6] == '_' && s[7] == 's' && s[8] == 't' && s[9] == 'd' {
            Some(Self::ImportStd)
        } else if s.len() == 6 && s[0] == 'e' && s[1] == 'x' && s[2] == 'p' && s[3] == 'o' && s[4] == 'r' && s[5] == 't' {
            Some(Self::Export)
        } else if s.len() == 4 && s[0] == 'l' && s[1] == 'i' && s[2] == 'n' && s[3] == 'k' {
            Some(Self::Link)
        } else if s.len() == 7 && s[0] == 'l' && s[1] == 'i' && s[2] == 'n' && s[3] == 'k' && s[4] == '_' && s[5] == 'i' && s[6] == 'f' {
            Some(Self::LinkIf)
        } else if s.len() == 1 && s[0] == 'u' {
            Some(Self::U)
        } else if s.len() == 1 && s[0] == 'i' {
            Some(Self::I)
        } else if s.len() == 1 && s[0] == 'f' {
            Some(Self::F)
        } else if s.len() == 4 && s[0] == 't' && s[1] == 'r' && s[2] == 'u' && s[3] == 'e' {
            Some(Self::True)
        } else if s.len() == 5 && s[0] == 'f' && s[1] == 'a' && s[2] == 'l' && s[3] == 's' && s[4] == 'e' {
            Some(Self::False)
        } else if s.len() == 4 && s[0] == 'v' && s[1] == 'o' && s[2] == 'i' && s[3] == 'd' {
            Some(Self::Void)
        } else if s.len() == 5 && s[0] == 'b' && s[1] == 'r' && s[2] == 'e' && s[3] == 'a' && s[4] == 'k' {
            Some(Self::Break)
        } else if s.len() == 8 && s[0] == 'c' && s[1] == 'o' && s[2] == 'n' && s[3] == 't' && s[4] == 'i' && s[5] == 'n' && s[6] == 'u' && s[7] == 'e' {
            Some(Self::Continue)
        } else if s.len() == 4 && s[0] == 'r' && s[1] == 'e' && s[2] == 'd' && s[3] == 'o' {
            Some(Self::Redo)
        } else if s.len() == 10 && s[0] == 'e' && s[1] == 'n' && s[2] == 't' && s[3] == 'r' && s[4] == 'y' && s[5] == 'p' && s[6] == 'o' && s[7] == 'i' && s[8] == 'n' && s[9] == 't' {
            Some(Self::Entrypoint)
        } else if s.len() == 4 && s[0] == 'b' && s[1] == 'o' && s[2] == 'o' && s[3] == 'l' {
            Some(Self::Bool)
        } else if s.len() == 3 && s[0] == 'i' && s[1] == 'n' && s[2] == 't' {
            Some(Self::Int)
        } else if s.len() == 5 && s[0] == '_' && s[1] == 'i' && s[2] == 'n' && s[3] == 'f' && s[4] == 'o' {
            Some(Self::Info)
        } else if s.len() == 9 && s[0] == 't' && s[1] == 'r' && s[2] == 'a' && s[3] == 'n' && s[4] == 's' && s[5] == 'm' && s[6] == 'u' && s[7] == 't' && s[8] == 'e' {
            Some(Self::Transmute)
        } else if s.len() == 4 && s[0] == 't' && s[1] == 'y' && s[2] == 'p' && s[3] == 'e' {
            Some(Self::Type)
        } else {
            None
        }
    }

    pub fn from_name_chars(s: &[char]) -> (r: Option<Self>)
        ensures
            r == Self::spec_from_name(s@),
    {
        let n = s.len();
        if n == 6 && s[0] == 'i' && s[1] == 'm' && s[2] == 'p' && s[3] == 'o' && s[4] == 'r' && s[5] == 't' {
            Some(Self::Import)
        } else if n == 10 && s[0] == 'i' && s[1] == 'm' && s[2] == 'p' && s[3] == 'o' && s[4] == 'r' && s[5] == 't' && s[6] == '_' && s[7] == 's' && s[8] == 't' && s[9] == 'd' {
            Some(Self::ImportStd)
        } else if n == 6 && s[0] == 'e' && s[1] == 'x' && s[2] == 'p' && s[3] == 'o' && s[4] == 'r' && s[5] == 't' {
            Some(Self::Export)
        } else if n == 4 && s[0] == 'l' && s[1] == 'i' && s[2] == 'n' && s[3] == 'k' {
            Some(Self::Link)
        } else if n == 7 && s[0] == 'l' && s[1] == 'i' && s[2] == 'n' && s[3] == 'k' && s[4] == '_' && s[5] == 'i' && s[6] == 'f' {
            Some(Self::LinkIf)
        } else if n == 1 && s[0] == 'u' {
            Some(Self::U)
        } else if n == 1 && s[0] == 'i' {
            Some(Self::I)
        } else if n == 1 && s[0] == 'f' {
            Some(Self::F)
        } else if n == 4 && s[0] == 't' && s[1] == 'r' && s[2] == 'u' && s[3] == 'e' {
            Some(Self::True)
        } else if n == 5 && s[0] == 'f' && s[1] == 'a' && s[2] == 'l' && s[3] == 's' && s[4] == 'e' {
            Some(Self::False)
        } else if n == 4 && s[0] == 'v' && s[1] == 'o' && s[2] == 'i' && s[3] == 'd' {
            Some(Self::Void)
        } else if n == 5 && s[0] == 'b' && s[1] == 'r' && s[2] == 'e' && s[3] == 'a' && s[4] == 'k' {
            Some(Self::Break)
        } else if n == 8 && s[0] == 'c' && s[1] == 'o' && s[2] == 'n' && s[3] == 't' && s[4] == 'i' && s[5] == 'n' && s[6] == 'u' && s[7] == 'e' {
            Some(Self::Continue)
        } else if n == 4 && s[0] == 'r' && s[1] == 'e' && s[2] == 'd' && s[3] == 'o' {
            Some(Self::Redo)
        } else if n == 10 && s[0] == 'e' && s[1] == 'n' && s[2] == 't' && s[3] == 'r' && s[4] == 'y' && s[5] == 'p' && s[6] == 'o' && s[7] == 'i' && s[8] == 'n' && s[9] == 't' {
            Some(Self::Entrypoint)
        } else if n == 4 && s[0] == 'b' && s[1] == 'o' && s[2] == 'o' && s[3] == 'l' {
            Some(Self::Bool)
        } else if n == 3 && s[0] == 'i' && s[1] == 'n' && s[2] == 't' {
            Some(Self::Int)
        } else if n == 5 && s[0] == '_' && s[1] == 'i' && s[2] == 'n' && s[3] == 'f' && s[4] == 'o' {
            Some(Self::Info)
        } else if n == 9 && s[0] == 't' && s[1] == 'r' && s[2] == 'a' && s[3] == 'n' && s[4] == 's' && s[5] == 'm' && s[6] == 'u' && s[7] == 't' && s[8] == 'e' {
            Some(Self::Transmute)
        } else if n == 4 && s[0] == 't' && s[1] == 'y' && s[2] == 'p' && s[3] == 'e' {
            Some(Self::Type)
        } else {
            None
        }
    }

    pub fn from_name(source: &str) -> (r: Option<Self>)
        ensures
            r == Self::spec_from_name(source@),
    {
        let chars = str_to_chars(source);
        Self::from_name_chars(chars.as_slice())
    }
}

impl TanukiInfixBinaryOperator {
    /// The number of precedence levels; operators of a lower level bind tighter.
    pub const PRECEDENCE_LEVEL_COUNT: usize = 19;

    /// Whether the operator belongs to a precedence level.
    pub open spec fn spec_in_precedence_level(self, level: int) -> bool {
        if level == 0 {
            self == Self::As || self == Self::SaturatingAs || self == Self::WrappingAs || self == Self::TryAs
        } else if level == 1 {
            self == Self::Exponent || self == Self::SaturatingExponent || self == Self::WrappingExponent || self == Self::TryExponent
        } else if level == 2 {
            self == Self::Multiplication || self == Self::SaturatingMultiplication || self == Self::WrappingMultiplication || self == Self::TryMultiplication || self == Self::Division || self == Self::SaturatingDivision || self == Self::WrappingDivision || self == Self::TryDivision || self == Self::Modulo || self == Self::SaturatingModulo || self == Self::WrappingModulo || self == Self::TryModulo
        } else if level == 3 {
            self == Self::Addition || self == Self::SaturatingAddition || self == Self::WrappingAddition || self == Self::TryAddition || self == Self::Subtraction || self == Self::SaturatingSubtraction || self == Self::WrappingSubtraction || self == Self::TrySubtraction
        } else if level == 4 {
            self == Self::Append
        } else if level == 5 {
            self == Self::BitshiftLeft || self == Self::SaturatingBitshiftLeft || self == Self::WrappingBitshiftLeft || self == Self::TryBitshiftLeft || self == Self::BitshiftRight
        } else if level == 6 {
            self == Self::ThreeWayCompare
        } else if level == 7 {
            self == Self::LessThan || self == Self::LessThanOrEqualTo || self == Self::GreaterThan || self == Self::GreaterThanOrEqualTo
        } else if level == 8 {
            self == Self::Minimum || self == Self::Maximum
        } else if level == 9 {
            self == Self::Pipe
        } else if level == 10 {
            self == Self::Equality || self == Self::Inequality || self == Self::ReferenceEquality || self == Self::ReferenceInequality
        } else if level == 11 {
            self == Self::NonShortCircuitAnd || self == Self::NonShortCircuitNand
        } else if level == 12 {
            self == Self::NonShortCircuitXor || self == Self::NonShortCircuitXnor
        } else if level == 13 {
            self == Self::NonShortCircuitOr || self == Self::NonShortCircuitNor
        } else if level == 14 {
            self == Self::ShortCircuitAnd || self == Self::ShortCircuitNand
        } else if level == 15 {
            self == Self::ShortCircuitXor || self == Self::ShortCircuitXnor
        } else if level == 16 {
            self == Self::ShortCircuitOr || self == Self::ShortCircuitNor
        } else if level == 17 {
            self == Self::NonShortCircuitingNullCoalescing || self == Self::ShortCircuitingNullCoalescing
        } else if level == 18 {
            self == Self::ExclusiveRange || self == Self::InclusiveRange
        } else {
            false
        }
    }

    /// The precedence levels, from the one that binds tightest: the casts `->` (0); exponents `**`
    /// (1); multiplication `*`, division `/` and modulo `%`, each with its saturating, wrapping and
    /// try forms (2); addition `+` and subtraction `-` with theirs (3); append `+++` (4); the
    /// shifts (5); the three-way comparison `<=>` (6); the orderings (7); minimum and maximum (8);
    /// the pipe (9); equalities (10); then the non-short-circuiting and short-circuiting logical
    /// operators (11 to 16), null coalescing (17) and ranges (18). Each operator is in exactly the
    /// level given here, so `a + b / c` groups as `a + (b / c)`.
    pub proof fn law_precedence_levels(self, level: int)
        ensures
            (self is As || self is SaturatingAs || self is WrappingAs || self is TryAs) ==> (self.spec_in_precedence_level(level)
                <==> level == 0),
            (self is Exponent || self is SaturatingExponent || self is WrappingExponent || self is TryExponent) ==> (
            self.spec_in_precedence_level(level) <==> level == 1),
            (self is Multiplication || self is SaturatingMultiplication || self is WrappingMultiplication || self is TryMultiplication
                || self is Division || self is SaturatingDivision || self is WrappingDivision || self is TryDivision || self is Modulo
                || self is SaturatingModulo || self is WrappingModulo || self is TryModulo) ==> (self.spec_in_precedence_level(level)
                <==> level == 2),
            (self is Addition || self is SaturatingAddition || self is WrappingAddition || self is TryAddition || self is Subtraction
                || self is SaturatingSubtraction || self is WrappingSubtraction || self is TrySubtraction) ==> (
            self.spec_in_precedence_level(level) <==> level == 3),
            self is Append ==> (self.spec_in_precedence_level(level) <==> level == 4),
            (self is BitshiftLeft || self is SaturatingBitshiftLeft || self is WrappingBitshiftLeft || self is TryBitshiftLeft
                || self is BitshiftRight) ==> (self.spec_in_precedence_level(level) <==> level == 5),
            self is ThreeWayCompare ==> (self.spec_in_precedence_level(level) <==> level == 6),
            (self is LessThan || self is LessThanOrEqualTo || self is GreaterThan || self is GreaterThanOrEqualTo) ==> (
            self.spec_in_precedence_level(level) <==> level == 7),
            (self is Minimum || self is Maximum) ==> (self.spec_in_precedence_level(level) <==> level == 8),
            self is Pipe ==> (self.spec_in_precedence_level(level) <==> level == 9),
            (self is Equality || self is Inequality || self is ReferenceEquality || self is ReferenceInequality) ==> (
            self.spec_in_precedence_level(level) <==> level == 10),
            (self is NonShortCircuitAnd || self is NonShortCircuitNand) ==> (self.spec_in_precedence_level(level) <==> level == 11),
            (self is NonShortCircuitXor || self is NonShortCircuitXnor) ==> (self.spec_in_precedence_level(level) <==> level == 12),
            (self is NonShortCircuitOr || self is NonShortCircuitNor) ==> (self.spec_in_precedence_level(level) <==> level == 13),
            (self is ShortCircuitAnd || self is ShortCircuitNand) ==> (self.spec_in_precedence_level(level) <==> level == 14),
            (self is ShortCircuitXor || self is ShortCircuitXnor) ==> (self.spec_in_precedence_level(level) <==> level == 15),
            (self is ShortCircuitOr || self is ShortCircuitNor) ==> (self.spec_in_precedence_level(level) <==> level == 16),
            (self is NonShortCircuitingNullCoalescing || self is ShortCircuitingNullCoalescing) ==> (self.spec_in_precedence_level(
                level,
            ) <==> level == 17),
            (self is ExclusiveRange || self is InclusiveRange) ==> (self.spec_in_precedence_level(level) <==> level == 18),
            (self is NoOperator || self is MemberAccess) ==> !self.spec_in_precedence_level(level),
    {
    }

    pub fn in_precedence_level(self, level: usize) -> (r: bool)
        ensures
            r == self.spec_in_precedence_level(level as int),
    {
        if level == 0 {
            matches!(self, Self::As | Self::SaturatingAs | Self::WrappingAs | Self::TryAs)
        } else if level == 1 {
            matches!(self, Self::Exponent | Self::SaturatingExponent | Self::WrappingExponent | Self::TryExponent)
        } else if level == 2 {
            matches!(self, Self::Multiplication | Self::SaturatingMultiplication | Self::WrappingMultiplication | Self::TryMultiplication | Self::Division | Self::SaturatingDivision | Self::WrappingDivision | Self::TryDivision | Self::Modulo | Self::SaturatingModulo | Self::WrappingModulo | Self::TryModulo)
        } else if level == 3 {
            matches!(self, Self::Addition | Self::SaturatingAddition | Self::WrappingAddition | Self::TryAddition | Self::Subtraction | Self::SaturatingSubtraction | Self::WrappingSubtraction | Self::TrySubtraction)
        } else if level == 4 {
            matches!(self, Self::Append)
        } else if level == 5 {
            matches!(self, Self::BitshiftLeft | Self::SaturatingBitshiftLeft | Self::WrappingBitshiftLeft | Self::TryBitshiftLeft | Self::BitshiftRight)
        } else if level == 6 {
            matches!(self, Self::ThreeWayCompare)
        } else if level == 7 {
            matches!(self, Self::LessThan | Self::LessThanOrEqualTo | Self::GreaterThan | Self::GreaterThanOrEqualTo)
        } else if level == 8 {
            matches!(self, Self::Minimum | Self::Maximum)
        } else if level == 9 {
            matches!(self, Self::Pipe)
        } else if level == 10 {
            matches!(self, Self::Equality | Self::Inequality | Self::ReferenceEquality | Self::ReferenceInequality)
        } else if level == 11 {
            matches!(self, Self::NonShortCircuitAnd | Self::NonShortCircuitNand)
        } else if level == 12 {
            matches!(self, Self::NonShortCircuitXor | Self::NonShortCircuitXnor)
        } else if level == 13 {
            matches!(self, Self::NonShortCircuitOr | Self::NonShortCircuitNor)
        } else if level == 14 {
            matches!(self, Self::ShortCircuitAnd | Self::ShortCircuitNand)
        } else if level == 15 {
            matches!(self, Self::ShortCircuitXor | Self::ShortCircuitXnor)
        } else if level == 16 {
            matches!(self, Self::ShortCircuitOr | Self::ShortCircuitNor)
        } else if level == 17 {
            matches!(self, Self::NonShortCircuitingNullCoalescing | Self::ShortCircuitingNullCoalescing)
        } else if level == 18 {
            matches!(self, Self::ExclusiveRange | Self::InclusiveRange)
        } else {
            false
        }
    }
}

/// A token read from Tanuki source code.
#[derive(Clone, Debug)]
pub struct TanukiToken {
    pub variant: TanukiTokenVariant,
    pub start_line: usize,
    pub start_column: usize,
    pub end_line: usize,
    pub end_column: usize,
}

#[derive(Clone, Debug)]
pub enum TanukiTokenVariant {
    /// Tokenized from a single `(` char.
    LeftParenthesis,
    /// Tokenized from a single `)` char.
    RightParenthesis,
    /// Tokenized from a single `{` char.
    LeftCurlyParenthesis,
    /// Tokenized from a single `}` char.
    RightCurlyParenthesis,
    /// Tokenized from a single `[` char.
    LeftSquareParenthesis,
    /// Tokenized from a single `]` char.
    RightSquareParenthesis,
    /// Tokenized from a single `,` char.
    Comma,
    /// Tokenized from a single `;` char.
    Semicolon,
    /// An identifier: letters, digits and underscores, not starting with a digit.
    Identifier(Vec<char>),
    /// A keyword that started with an `@` sign.
    Keyword(TanukiKeyword),
    /// A block label that started with a `'` char, without the leading `'`.
    BlockLabel(Vec<char>),
    /// A numeric literal: its value as an integer and the bits of its value as a 64 bit float, for each reading that is valid.
    NumericLiteral(Option<CtInt>, Option<u64>),
    /// A string literal's content with its escape sequences replaced.
    StringLiteral(Vec<char>),
    /// The char of a char literal.
    CharacterLiteral(char),
    /// An operator and each way it can be read.
    Operator {
        prefix_unary_operator: Option<TanukiPrefixUnaryOperator>,
        infix_binary_operator: Option<TanukiInfixBinaryOperator>,
        postfix_unary_operator: Option<TanukiPostfixUnaryOperator>,
        infix_ternary_operator: Option<TanukiInfixTernaryOperator>,
        nullary_operator: Option<TanukiNullaryOperator>,
        is_colon: bool,
        is_assignment: bool,
        symbol: Vec<char>,
    },
}

impl TanukiTokenVariant {
    /// Whether two token variants are the same: of one kind, holding the same chars, integers and
    /// operators.
    pub open spec fn same_as(&self, other: &Self) -> bool {
        match (self, other) {
            (TanukiTokenVariant::Identifier(a), TanukiTokenVariant::Identifier(b)) => a@ == b@,
            (TanukiTokenVariant::BlockLabel(a), TanukiTokenVariant::BlockLabel(b)) => a@ == b@,
            (TanukiTokenVariant::StringLiteral(a), TanukiTokenVariant::StringLiteral(b)) => a@ == b@,
            (TanukiTokenVariant::Keyword(a), TanukiTokenVariant::Keyword(b)) => a == b,
            (TanukiTokenVariant::CharacterLiteral(a), TanukiTokenVariant::CharacterLiteral(b)) => a == b,
            (TanukiTokenVariant::NumericLiteral(a, f), TanukiTokenVariant::NumericLiteral(b, g)) => f == g && match (a, b) {
                (Some(x), Some(y)) => x.negative == y.negative && x.magnitude@ == y.magnitude@,
                (None, None) => true,
                _ => false,
            },
            (
                TanukiTokenVariant::Operator {
                    prefix_unary_operator: p1,
                    infix_binary_operator: i1,
                    postfix_unary_operator: s1,
                    infix_ternary_operator: t1,
                    nullary_operator: n1,
                    is_colon: c1,
                    is_assignment: a1,
                    symbol: y1,
                },
                TanukiTokenVariant::Operator {
                    prefix_unary_operator: p2,
                    infix_binary_operator: i2,
                    postfix_unary_operator: s2,
                    infix_ternary_operator: t2,
                    nullary_operator: n2,
                    is_colon: c2,
                    is_assignment: a2,
                    symbol: y2,
                },
            ) => p1 == p2 && i1 == i2 && s1 == s2 && t1 == t2 && n1 == n2 && c1 == c2 && a1 == a2 && y1@ == y2@,
            (TanukiTokenVariant::LeftParenthesis, TanukiTokenVariant::LeftParenthesis) => true,
            (TanukiTokenVariant::RightParenthesis, TanukiTokenVariant::RightParenthesis) => true,
            (TanukiTokenVariant::LeftCurlyParenthesis, TanukiTokenVariant::LeftCurlyParenthesis) => true,
            (TanukiTokenVariant::RightCurlyParenthesis, TanukiTokenVariant::RightCurlyParenthesis) => true,
            (TanukiTokenVariant::LeftSquareParenthesis, TanukiTokenVariant::LeftSquareParenthesis) => true,
            (TanukiTokenVariant::RightSquareParenthesis, TanukiTokenVariant::RightSquareParenthesis) => true,
            (TanukiTokenVariant::Comma, TanukiTokenVariant::Comma) => true,
            (TanukiTokenVariant::Semicolon, TanukiTokenVariant::Semicolon) => true,
            _ => false,
        }
    }

    /// A copy of the token variant.
    pub fn copy(&self) -> (r: Self)
        ensures
            r.same_as(self),
    {
        match self {
            TanukiTokenVariant::LeftParenthesis => TanukiTokenVariant::LeftParenthesis,
            TanukiTokenVariant::RightParenthesis => TanukiTokenVariant::RightParenthesis,
            TanukiTokenVariant::LeftCurlyParenthesis => TanukiTokenVariant::LeftCurlyParenthesis,
            TanukiTokenVariant::RightCurlyParenthesis => TanukiTokenVariant::RightCurlyParenthesis,
            TanukiTokenVariant::LeftSquareParenthesis => TanukiTokenVariant::LeftSquareParenthesis,
            TanukiTokenVariant::RightSquareParenthesis => TanukiTokenVariant::RightSquareParenthesis,
            TanukiTokenVariant::Comma => TanukiTokenVariant::Comma,
            TanukiTokenVariant::Semicolon => TanukiTokenVariant::Semicolon,
            TanukiTokenVariant::Identifier(n) => TanukiTokenVariant::Identifier(clone_chars(n)),
            TanukiTokenVariant::Keyword(k) => TanukiTokenVariant::Keyword(*k),
            TanukiTokenVariant::BlockLabel(n) => TanukiTokenVariant::BlockLabel(clone_chars(n)),
            TanukiTokenVariant::NumericLiteral(i, f) => TanukiTokenVariant::NumericLiteral(
                match i {
                    Some(x) => Some(clone_ct(x)),
                    None => None,
                },
                *f,
            ),
            TanukiTokenVariant::StringLiteral(t) => TanukiTokenVariant::StringLiteral(clone_chars(t)),
            TanukiTokenVariant::CharacterLiteral(c) => TanukiTokenVariant::CharacterLiteral(*c),
            TanukiTokenVariant::Operator {
                prefix_unary_operator,
                infix_binary_operator,
                postfix_unary_operator,
                infix_ternary_operator,
                nullary_operator,
                is_colon,
                is_assignment,
                symbol,
            } => TanukiTokenVariant::Operator {
                prefix_unary_operator: *prefix_unary_operator,
                infix_binary_operator: *infix_binary_operator,
                postfix_unary_operator: *postfix_unary_operator,
                infix_ternary_operator: *infix_ternary_operator,
                nullary_operator: *nullary_operator,
                is_colon: *is_colon,
                is_assignment: *is_assignment,
                symbol: clone_chars(symbol),
            },
        }
    }
}

impl TanukiToken {
    /// Whether two tokens are the same: the same variant at the same place.
    pub open spec fn same_as(&self, other: &Self) -> bool {
        &&& self.variant.same_as(&other.variant)
        &&& self.start_line == other.start_line && self.start_column == other.start_column
        &&& self.end_line == other.end_line && self.end_column == other.end_column
    }

    /// A copy of the token.
    pub fn copy(&self) -> (r: Self)
        ensures
            r.same_as(self),
    {
        TanukiToken {
            variant: self.variant.copy(),
            start_line: self.start_line,
            start_column: self.start_column,
            end_line: self.end_line,
            end_column: self.end_column,
        }
    }
}

impl Token for TanukiToken {
    open spec fn spec_start_line(&self) -> Option<usize> {
        Some(self.start_line)
    }

    open spec fn spec_end_line(&self) -> Option<usize> {
        Some(self.end_line)
    }

    open spec fn spec_start_column(&self) -> Option<usize> {
        Some(self.start_column)
    }

    open spec fn spec_end_column(&self) -> Option<usize> {
        Some(self.end_column)
    }

    fn start_line(&self) -> (r: Option<usize>) {
        Some(self.start_line)
    }

    fn end_line(&self) -> (r: Option<usize>) {
        Some(self.end_line)
    }

    fn start_column(&self) -> (r: Option<usize>) {
        Some(self.start_column)
    }

    fn end_column(&self) -> (r: Option<usize>) {
        Some(self.end_column)
    }
}

impl TanukiTokenVariant {
    /// The name of the token as it is printed; a float reading of a numeric literal is printed
    /// where floats are.
    pub open spec fn spec_print_name(&self) -> Seq<char> {
        match self {
            TanukiTokenVariant::LeftParenthesis => "Left Parenthesis"@,
            TanukiTokenVariant::RightParenthesis => "Right Parenthesis"@,
            TanukiTokenVariant::LeftCurlyParenthesis => "Left Curly Parenthesis"@,
            TanukiTokenVariant::RightCurlyParenthesis => "Right Curly Parenthesis"@,
            TanukiTokenVariant::LeftSquareParenthesis => "Left Square Parenthesis"@,
            TanukiTokenVariant::RightSquareParenthesis => "Right Square Parenthesis"@,
            TanukiTokenVariant::Comma => "Comma"@,
            TanukiTokenVariant::Semicolon => "Semicolon"@,
            TanukiTokenVariant::Identifier(name) => "Identifier \""@ + name@ + "\""@,
            TanukiTokenVariant::Keyword(keyword) => "Keyword "@ + keyword.spec_print_name(),
            TanukiTokenVariant::BlockLabel(name) => "Block Label \""@ + name@ + "\""@,
            TanukiTokenVariant::NumericLiteral(int_value, _) => "Numeric Literal"@ + match int_value {
                Some(v) => " Integer "@ + int_decimal(v@),
                None => Seq::empty(),
            },
            TanukiTokenVariant::StringLiteral(value) => "String Literal "@ + str_debug_text(value@),
            TanukiTokenVariant::CharacterLiteral(value) => "Character Literal "@ + char_debug_text(*value),
            TanukiTokenVariant::Operator {
                prefix_unary_operator,
                infix_binary_operator,
                postfix_unary_operator,
                infix_ternary_operator,
                nullary_operator,
                is_colon,
                is_assignment,
                ..
            } => operator_token_name(
                *prefix_unary_operator,
                *infix_binary_operator,
                *postfix_unary_operator,
                *infix_ternary_operator,
                *nullary_operator,
                *is_colon,
                *is_assignment,
            ),
        }
    }
}

/// The printed name of an operator token: each way it can be read, then whether it is a colon
/// and an assignment.
pub open spec fn operator_token_name(
    prefix_unary_operator: Option<TanukiPrefixUnaryOperator>,
    infix_binary_operator: Option<TanukiInfixBinaryOperator>,
    postfix_unary_operator: Option<TanukiPostfixUnaryOperator>,
    infix_ternary_operator: Option<TanukiInfixTernaryOperator>,
    nullary_operator: Option<TanukiNullaryOperator>,
    is_colon: bool,
    is_assignment: bool,
) -> Seq<char> {
    "Operator"@ + prefix_label(prefix_unary_operator) + infix_label(infix_binary_operator) + postfix_label(postfix_unary_operator)
        + ternary_label(infix_ternary_operator) + nullary_label(nullary_operator) + (if is_colon {
        " Colon"@
    } else {
        Seq::empty()
    }) + (if is_assignment {
        " Assignment"@
    } else {
        Seq::empty()
    })
}

pub open spec fn prefix_label(o: Option<TanukiPrefixUnaryOperator>) -> Seq<char> {
    match o {
        Some(o) => " Prefix Unary "@ + o.spec_print_name(),
        None => Seq::empty(),
    }
}

pub open spec fn infix_label(o: Option<TanukiInfixBinaryOperator>) -> Seq<char> {
    match o {
        Some(o) => " Infix Binary "@ + o.spec_print_name(),
        None => Seq::empty(),
    }
}

pub open spec fn postfix_label(o: Option<TanukiPostfixUnaryOperator>) -> Seq<char> {
    match o {
        Some(o) => " Postfix Unary "@ + o.spec_print_name(),
        None => Seq::empty(),
    }
}

pub open spec fn ternary_label(o: Option<TanukiInfixTernaryOperator>) -> Seq<char> {
    match o {
        Some(o) => " Infix Ternary "@ + o.spec_print_name(),
        None => Seq::empty(),
    }
}

pub open spec fn nullary_label(o: Option<TanukiNullaryOperator>) -> Seq<char> {
    match o {
        Some(o) => " Nullary "@ + o.spec_print_name(),
        None => Seq::empty(),
    }
}

fn push_prefix_label(out: &mut Vec<char>, o: Option<TanukiPrefixUnaryOperator>)
    ensures
        final(out)@ == old(out)@ + prefix_label(o),
{
    match o {
        Some(o) => {
            push_str(out, " Prefix Unary ");
            push_str(out, o.print_name());
        },
        None => {},
    }
}

fn push_infix_label(out: &mut Vec<char>, o: Option<TanukiInfixBinaryOperator>)
    ensures
        final(out)@ == old(out)@ + infix_label(o),
{
    match o {
        Some(o) => {
            push_str(out, " Infix Binary ");
            push_str(out, o.print_name());
        },
        None => {},
    }
}

fn push_postfix_label(out: &mut Vec<char>, o: Option<TanukiPostfixUnaryOperator>)
    ensures
        final(out)@ == old(out)@ + postfix_label(o),
{
    match o {
        Some(o) => {
            push_str(out, " Postfix Unary ");
            push_str(out, o.print_name());
        },
        None => {},
    }
}

fn push_ternary_label(out: &mut Vec<char>, o: Option<TanukiInfixTernaryOperator>)
    ensures
        final(out)@ == old(out)@ + ternary_label(o),
{
    match o {
        Some(o) => {
            push_str(out, " Infix Ternary ");
            push_str(out, o.print_name());
        },
        None => {},
    }
}

fn push_nullary_label(out: &mut Vec<char>, o: Option<TanukiNullaryOperator>)
    ensures
        final(out)@ == old(out)@ + nullary_label(o),
{
    match o {
        Some(o) => {
            push_str(out, " Nullary ");
            push_str(out, o.print_name());
        },
        None => {},
    }
}

fn push_operator_token_name(
    out: &mut Vec<char>,
    prefix_unary_operator: Option<TanukiPrefixUnaryOperator>,
    infix_binary_operator: Option<TanukiInfixBinaryOperator>,
    postfix_unary_operator: Option<TanukiPostfixUnaryOperator>,
    infix_ternary_operator: Option<TanukiInfixTernaryOperator>,
    nullary_operator: Option<TanukiNullaryOperator>,
    is_colon: bool,
    is_assignment: bool,
)
    ensures
        final(out)@ == old(out)@ + operator_token_name(
            prefix_unary_operator,
            infix_binary_operator,
            postfix_unary_operator,
            infix_ternary_operator,
            nullary_operator,
            is_colon,
            is_assignment,
        ),
{
    let ghost start = out@;
    push_str(out, "Operator");
    push_prefix_label(out, prefix_unary_operator);
    push_infix_label(out, infix_binary_operator);
    push_postfix_label(out, postfix_unary_operator);
    push_ternary_label(out, infix_ternary_operator);
    push_nullary_label(out, nullary_operator);
    if is_colon {
        push_str(out, " Colon");
    }
    let ghost before_assignment = out@;
    if is_assignment {
        push_str(out, " Assignment");
    }
    proof {
        assert(out@ =~= start + operator_token_name(
            prefix_unary_operator,
            infix_binary_operator,
            postfix_unary_operator,
            infix_ternary_operator,
            nullary_operator,
            is_colon,
            is_assignment,
        ));
    }
}

impl TanukiToken {
    /// The name of the token as it is printed. A float reading of a numeric literal, which is
    /// printed after the rest, is left out.
    pub fn print_name(&self) -> (r: Vec<char>)
        ensures
            r@ == self.variant.spec_print_name(),
    {
        let mut out: Vec<char> = Vec::new();
        match &self.variant {
            TanukiTokenVariant::LeftParenthesis => push_str(&mut out, "Left Parenthesis"),
            TanukiTokenVariant::RightParenthesis => push_str(&mut out, "Right Parenthesis"),
            TanukiTokenVariant::LeftCurlyParenthesis => push_str(&mut out, "Left Curly Parenthesis"),
            TanukiTokenVariant::RightCurlyParenthesis => push_str(&mut out, "Right Curly Parenthesis"),
            TanukiTokenVariant::LeftSquareParenthesis => push_str(&mut out, "Left Square Parenthesis"),
            TanukiTokenVariant::RightSquareParenthesis => push_str(&mut out, "Right Square Parenthesis"),
            TanukiTokenVariant::Comma => push_str(&mut out, "Comma"),
            TanukiTokenVariant::Semicolon => push_str(&mut out, "Semicolon"),
            TanukiTokenVariant::Identifier(name) => {
                push_str(&mut out, "Identifier \"");
                push_chars(&mut out, name.as_slice());
                push_str(&mut out, "\"");
            },
            TanukiTokenVariant::Keyword(keyword) => {
                push_str(&mut out, "Keyword ");
                push_str(&mut out, keyword.print_name());
            },
            TanukiTokenVariant::BlockLabel(name) => {
                push_str(&mut out, "Block Label \"");
                push_chars(&mut out, name.as_slice());
                push_str(&mut out, "\"");
            },
            TanukiTokenVariant::NumericLiteral(int_value, _) => {
                push_str(&mut out, "Numeric Literal");
                match int_value {
                    Some(v) => {
                        push_str(&mut out, " Integer ");
                        push_chars(&mut out, ct_decimal(v).as_slice());
                    },
                    None => {},
                }
            },
            TanukiTokenVariant::StringLiteral(value) => {
                push_str(&mut out, "String Literal ");
                push_chars(&mut out, str_debug(value).as_slice());
            },
            TanukiTokenVariant::CharacterLiteral(value) => {
                push_str(&mut out, "Character Literal ");
                push_chars(&mut out, char_debug(*value).as_slice());
            },
            TanukiTokenVariant::Operator {
                prefix_unary_operator,
                infix_binary_operator,
                postfix_unary_operator,
                infix_ternary_operator,
                nullary_operator,
                is_colon,
                is_assignment,
                ..
            } => push_operator_token_name(
                &mut out,
                *prefix_unary_operator,
                *infix_binary_operator,
                *postfix_unary_operator,
                *infix_ternary_operator,
                *nullary_operator,
                *is_colon,
                *is_assignment,
            ),
        }
        out
    }

    /// The token as it is printed: where it was read, then its name. A float reading of a
    /// numeric literal, which is printed after the rest, is left out.
    pub fn print(&self) -> (r: Vec<char>)
        ensures
            r@ == position_text(
                Some(self.start_line),
                Some(self.end_line),
                Some(self.start_column),
                Some(self.end_column),
            ).unwrap() + self.variant.spec_print_name(),
    {
        let mut out: Vec<char> = Vec::new();
        push_position(&mut out, Some(self.start_line), Some(self.end_line), Some(self.start_column), Some(self.end_column));
        push_chars(&mut out, self.print_name().as_slice());
        out
    }
}

} // verus!
