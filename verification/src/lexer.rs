use vstd::prelude::*;
use vstd::string::*;
use crate::chars::{
    alphanumeric, digit, digit_to_u32, digit_value, is_alphanumeric, is_digit, is_space,
    is_word_char, is_word_start, space, word_char, word_start,
};

verus! {

/// What a number literal stands for: an integer, or the text of a literal with a
/// fraction or an exponent.
pub enum NumberView {
    Float(Seq<char>),
    Integer(int),
}

/// A number literal. A literal with a fraction or an exponent keeps its text as it
/// stands in the source; an integer literal keeps its value.
#[derive(Debug)]
pub enum Number {
    Float(String),
    Integer(i32),
}

impl View for Number {
    type V = NumberView;

    open spec fn view(&self) -> NumberView {
        match self {
            Number::Float(text) => NumberView::Float(text@),
            Number::Integer(value) => NumberView::Integer(*value as int),
        }
    }
}

impl Clone for Number {
    fn clone(&self) -> (r: Number)
        ensures
            r@ == self@,
    {
        match self {
            Number::Float(text) => Number::Float(text.clone()),
            Number::Integer(value) => Number::Integer(*value),
        }
    }
}

impl PartialEq for Number {
    fn eq(&self, other: &Number) -> (r: bool) {
        match self {
            Number::Float(a) => match other {
                Number::Float(b) => *a == *b,
                _ => false,
            },
            Number::Integer(a) => match other {
                Number::Integer(b) => *a == *b,
                _ => false,
            },
        }
    }
}

impl vstd::std_specs::cmp::PartialEqSpecImpl for Number {
    open spec fn obeys_eq_spec() -> bool {
        true
    }

    open spec fn eq_spec(&self, other: &Number) -> bool {
        self@ == other@
    }
}

impl Eq for Number {

}

/// The lexical categories, as mathematical values.
pub enum TokenView {
    Function,
    If,
    Else,
    Identifier(Seq<char>),
    Number(NumberView),
    String(Seq<char>),
    For,
    In,
    Loop,
    Let,
    Const,
    Return,
    Operator(Seq<char>),
    LogicalOperator(Seq<char>),
    Equal,
    LeftParen,
    RightParen,
    LeftBrace,
    RightBrace,
    LeftBracket,
    RightBracket,
    Comma,
    Semicolon,
    Colon,
    Dot,
    EOF,
    TypeInt,
    TypeString,
    TypeFloat,
    TypeBool,
    True,
    False,
    ArrowType,
    Range,
    RangeInclusive,
}

/// One token of the language.
#[derive(Debug)]
pub enum Token {
    Function,
    If,
    Else,
    Identifier(String),
    Number(Number),
    String(String),
    For,
    In,
    Loop,
    Let,
    Const,
    Return,
    /// `+ - * / % **`, and a lone `&`, `|` or `!`.
    Operator(String),
    /// `&& || == != < > <= >=`.
    LogicalOperator(String),
    Equal,
    LeftParen,
    RightParen,
    LeftBrace,
    RightBrace,
    LeftBracket,
    RightBracket,
    Comma,
    Semicolon,
    Colon,
    Dot,
    EOF,
    TypeInt,
    TypeString,
    TypeFloat,
    TypeBool,
    True,
    False,
    ArrowType,
    Range,
    RangeInclusive,
}

impl View for Token {
    type V = TokenView;

    open spec fn view(&self) -> TokenView {
        match self {
            Token::Function => TokenView::Function,
            Token::If => TokenView::If,
            Token::Else => TokenView::Else,
            Token::Identifier(name) => TokenView::Identifier(name@),
            Token::Number(number) => TokenView::Number(number@),
            Token::String(text) => TokenView::String(text@),
            Token::For => TokenView::For,
            Token::In => TokenView::In,
            Token::Loop => TokenView::Loop,
            Token::Let => TokenView::Let,
            Token::Const => TokenView::Const,
            Token::Return => TokenView::Return,
            Token::Operator(text) => TokenView::Operator(text@),
            Token::LogicalOperator(text) => TokenView::LogicalOperator(text@),
            Token::Equal => TokenView::Equal,
            Token::LeftParen => TokenView::LeftParen,
            Token::RightParen => TokenView::RightParen,
            Token::LeftBrace => TokenView::LeftBrace,
            Token::RightBrace => TokenView::RightBrace,
            Token::LeftBracket => TokenView::LeftBracket,
            Token::RightBracket => TokenView::RightBracket,
            Token::Comma => TokenView::Comma,
            Token::Semicolon => TokenView::Semicolon,
            Token::Colon => TokenView::Colon,
            Token::Dot => TokenView::Dot,
            Token::EOF => TokenView::EOF,
            Token::TypeInt => TokenView::TypeInt,
            Token::TypeString => TokenView::TypeString,
            Token::TypeFloat => TokenView::TypeFloat,
            Token::TypeBool => TokenView::TypeBool,
            Token::True => TokenView::True,
            Token::False => TokenView::False,
            Token::ArrowType => TokenView::ArrowType,
            Token::Range => TokenView::Range,
            Token::RangeInclusive => TokenView::RangeInclusive,
        }
    }
}

impl Clone for Token {
    fn clone(&self) -> (r: Token)
        ensures
            r@ == self@,
    {
        match self {
            Token::Function => Token::Function,
            Token::If => Token::If,
            Token::Else => Token::Else,
            Token::Identifier(name) => Token::Identifier(name.clone()),
            Token::Number(number) => Token::Number(number.clone()),
            Token::String(text) => Token::String(text.clone()),
            Token::For => Token::For,
            Token::In => Token::In,
            Token::Loop => Token::Loop,
            Token::Let => Token::Let,
            Token::Const => Token::Const,
            Token::Return => Token::Return,
            Token::Operator(text) => Token::Operator(text.clone()),
            Token::LogicalOperator(text) => Token::LogicalOperator(text.clone()),
            Token::Equal => Token::Equal,
            Token::LeftParen => Token::LeftParen,
            Token::RightParen => Token::RightParen,
            Token::LeftBrace => Token::LeftBrace,
            Token::RightBrace => Token::RightBrace,
            Token::LeftBracket => Token::LeftBracket,
            Token::RightBracket => Token::RightBracket,
            Token::Comma => Token::Comma,
            Token::Semicolon => Token::Semicolon,
            Token::Colon => Token::Colon,
            Token::Dot => Token::Dot,
            Token::EOF => Token::EOF,
            Token::TypeInt => Token::TypeInt,
            Token::TypeString => Token::TypeString,
            Token::TypeFloat => Token::TypeFloat,
            Token::TypeBool => Token::TypeBool,
            Token::True => Token::True,
            Token::False => Token::False,
            Token::ArrowType => Token::ArrowType,
            Token::Range => Token::Range,
            Token::RangeInclusive => Token::RangeInclusive,
        }
    }
}

impl PartialEq for Token {
    fn eq(&self, other: &Token) -> (r: bool) {
        match self {
            Token::Identifier(a) => match other {
                Token::Identifier(b) => *a == *b,
                _ => false,
            },
            Token::Number(a) => match other {
                Token::Number(b) => *a == *b,
                _ => false,
            },
            Token::String(a) => match other {
                Token::String(b) => *a == *b,
                _ => false,
            },
            Token::Operator(a) => match other {
                Token::Operator(b) => *a == *b,
                _ => false,
            },
            Token::LogicalOperator(a) => match other {
                Token::LogicalOperator(b) => *a == *b,
                _ => false,
            },
            Token::Function => matches!(other, Token::Function),
            Token::If => matches!(other, Token::If),
            Token::Else => matches!(other, Token::Else),
            Token::For => matches!(other, Token::For),
            Token::In => matches!(other, Token::In),
            Token::Loop => matches!(other, Token::Loop),
            Token::Let => matches!(other, Token::Let),
            Token::Const => matches!(other, Token::Const),
            Token::Return => matches!(other, Token::Return),
            Token::Equal => matches!(other, Token::Equal),
            Token::LeftParen => matches!(other, Token::LeftParen),
            Token::RightParen => matches!(other, Token::RightParen),
            Token::LeftBrace => matches!(other, Token::LeftBrace),
            Token::RightBrace => matches!(other, Token::RightBrace),
            Token::LeftBracket => matches!(other, Token::LeftBracket),
            Token::RightBracket => matches!(other, Token::RightBracket),
            Token::Comma => matches!(other, Token::Comma),
            Token::Semicolon => matches!(other, Token::Semicolon),
            Token::Colon => matches!(other, Token::Colon),
            Token::Dot => matches!(other, Token::Dot),
            Token::EOF => matches!(other, Token::EOF),
            Token::TypeInt => matches!(other, Token::TypeInt),
            Token::TypeString => matches!(other, Token::TypeString),
            Token::TypeFloat => matches!(other, Token::TypeFloat),
            Token::TypeBool => matches!(other, Token::TypeBool),
            Token::True => matches!(other, Token::True),
            Token::False => matches!(other, Token::False),
            Token::ArrowType => matches!(other, Token::ArrowType),
            Token::Range => matches!(other, Token::Range),
            Token::RangeInclusive => matches!(other, Token::RangeInclusive),
        }
    }
}

impl vstd::std_specs::cmp::PartialEqSpecImpl for Token {
    open spec fn obeys_eq_spec() -> bool {
        true
    }

    open spec fn eq_spec(&self, other: &Token) -> bool {
        self@ == other@
    }
}

impl Eq for Token {

}

/// Whether a string holds exactly the characters of `text`.
pub fn is_text(s: &String, text: &str) -> (r: bool)
    ensures
        r == (s@ == text@),
{
    let other = String::from_str(text);
    *s == other
}

impl Token {
    /// Whether the token is the arithmetic operator written `text`.
    pub fn is_operator(&self, text: &str) -> (r: bool)
        ensures
            r == (self@ == TokenView::Operator(text@)),
    {
        match self {
            Token::Operator(op) => is_text(op, text),
            _ => false,
        }
    }

    /// Whether the token is the logical or comparison operator written `text`.
    pub fn is_logical(&self, text: &str) -> (r: bool)
        ensures
            r == (self@ == TokenView::LogicalOperator(text@)),
    {
        match self {
            Token::LogicalOperator(op) => is_text(op, text),
            _ => false,
        }
    }
}

/// Why the scanner gave up.
#[derive(Debug, Clone, Copy, PartialEq, Eq, Structural)]
pub enum LexErrorKind {
    /// A string literal whose closing quote is missing.
    UnclosedString,
    /// A block comment whose `*/` is missing.
    UnclosedComment,
    /// A character that starts no token.
    UnexpectedCharacter,
    /// An exponent without digits, or an integer that does not fit 32 bits.
    InvalidNumber,
}

/// A lexical error and the place where the scanner stood when it found it.
#[derive(Debug, Clone, Copy, PartialEq, Eq, Structural)]
pub struct LexError {
    pub kind: LexErrorKind,
    pub line: usize,
    pub col: usize,
}

/// The outcome of scanning one token: the token and the place after it, or an
/// error and the place where the scanner stopped. Where the token is the zero that
/// stands for an invalid number literal, `invalid` is the place where the literal ran
/// into a letter.
pub enum Scan {
    Token { token: TokenView, next: int, invalid: Option<int> },
    Fail { kind: LexErrorKind, at: int },
}

/// The character at place `i`, if the text reaches that far.
pub open spec fn char_at(s: Seq<char>, i: int) -> Option<char> {
    if 0 <= i < s.len() {
        Some(s[i])
    } else {
        None
    }
}

/// The line of place `p`: one more than the number of line feeds at places `1..=p`.
pub open spec fn line_at(s: Seq<char>, p: int) -> int
    decreases p,
{
    if p <= 0 {
        1
    } else if char_at(s, p) == Some('\n') {
        line_at(s, p - 1) + 1
    } else {
        line_at(s, p - 1)
    }
}

/// The column of place `p`: a line feed stands in column 1, any other place one
/// column after the place before it.
pub open spec fn col_at(s: Seq<char>, p: int) -> int
    decreases p,
{
    if p <= 0 {
        1
    } else if char_at(s, p) == Some('\n') {
        1
    } else {
        col_at(s, p - 1) + 1
    }
}

/// The first place at or after `p` that holds no decimal digit.
pub open spec fn digits_end(s: Seq<char>, p: int) -> int
    decreases s.len() - p,
{
    if 0 <= p < s.len() && is_digit(s[p]) {
        digits_end(s, p + 1)
    } else {
        p
    }
}

/// The first place at or after `p` that holds no word character.
pub open spec fn word_end(s: Seq<char>, p: int) -> int
    decreases s.len() - p,
{
    if 0 <= p < s.len() && is_word_char(s[p]) {
        word_end(s, p + 1)
    } else {
        p
    }
}

/// The first place at or after `p` that holds neither a letter nor a number.
pub open spec fn alphanumeric_end(s: Seq<char>, p: int) -> int
    decreases s.len() - p,
{
    if 0 <= p < s.len() && is_alphanumeric(s[p]) {
        alphanumeric_end(s, p + 1)
    } else {
        p
    }
}

/// The first place at or after `p` that holds `stop`, or the end of the text.
pub open spec fn find_char(s: Seq<char>, p: int, stop: char) -> int
    decreases s.len() - p,
{
    if 0 <= p < s.len() && s[p] != stop {
        find_char(s, p + 1, stop)
    } else {
        p
    }
}

/// The first place at or after `p` where `*/` starts, or the end of the text where
/// there is none.
pub open spec fn comment_close(s: Seq<char>, p: int) -> int
    decreases s.len() - p,
{
    if p < 0 || p + 1 >= s.len() {
        if p < s.len() { s.len() as int } else { p }
    } else if s[p] == '*' && s[p + 1] == '/' {
        p
    } else {
        comment_close(s, p + 1)
    }
}

/// A run of digits ends inside the text, holds digits only, and is not followed by a
/// digit.
pub proof fn lemma_digits_end(s: Seq<char>, p: int)
    requires
        0 <= p <= s.len(),
    ensures
        p <= digits_end(s, p) <= s.len(),
        forall|k: int| p <= k < digits_end(s, p) ==> is_digit(#[trigger] s[k]),
        char_at(s, digits_end(s, p)) is Some ==> !is_digit(s[digits_end(s, p)]),
    decreases s.len() - p,
{
    if p < s.len() && is_digit(s[p]) {
        lemma_digits_end(s, p + 1);
    }
}

/// A run of word characters ends inside the text.
pub proof fn lemma_word_end(s: Seq<char>, p: int)
    requires
        0 <= p <= s.len(),
    ensures
        p <= word_end(s, p) <= s.len(),
    decreases s.len() - p,
{
    if p < s.len() && is_word_char(s[p]) {
        lemma_word_end(s, p + 1);
    }
}

/// A run of letters and numbers ends inside the text.
pub proof fn lemma_alphanumeric_end(s: Seq<char>, p: int)
    requires
        0 <= p <= s.len(),
    ensures
        p <= alphanumeric_end(s, p) <= s.len(),
    decreases s.len() - p,
{
    if p < s.len() && is_alphanumeric(s[p]) {
        lemma_alphanumeric_end(s, p + 1);
    }
}

/// A search for a character ends inside the text, and on that character if it ends
/// before the end of the text.
pub proof fn lemma_find_char(s: Seq<char>, p: int, stop: char)
    requires
        0 <= p <= s.len(),
    ensures
        p <= find_char(s, p, stop) <= s.len(),
        char_at(s, find_char(s, p, stop)) is Some ==> s[find_char(s, p, stop)] == stop,
    decreases s.len() - p,
{
    if p < s.len() && s[p] != stop {
        lemma_find_char(s, p + 1, stop);
    }
}

/// A search for `*/` ends inside the text, and with both characters before the end
/// of the text if it finds them.
pub proof fn lemma_comment_close(s: Seq<char>, p: int)
    requires
        0 <= p <= s.len(),
    ensures
        p <= comment_close(s, p) <= s.len(),
        comment_close(s, p) < s.len() ==> comment_close(s, p) + 2 <= s.len(),
    decreases s.len() - p,
{
    if p + 1 < s.len() && !(s[p] == '*' && s[p + 1] == '/') {
        lemma_comment_close(s, p + 1);
    }
}

/// The number that a run of decimal digits writes.
pub open spec fn digits_value(digits: Seq<char>) -> nat
    decreases digits.len(),
{
    if digits.len() == 0 {
        0
    } else {
        digits_value(digits.drop_last()) * 10 + digit_value(digits.last())
    }
}

/// The token that a word stands for: one of the keywords, or an identifier.
pub open spec fn word_token(word: Seq<char>) -> TokenView {
    if word == "fn"@ {
        TokenView::Function
    } else if word == "if"@ {
        TokenView::If
    } else if word == "for"@ {
        TokenView::For
    } else if word == "let"@ {
        TokenView::Let
    } else if word == "return"@ {
        TokenView::Return
    } else if word == "loop"@ {
        TokenView::Loop
    } else if word == "in"@ {
        TokenView::In
    } else if word == "int"@ {
        TokenView::TypeInt
    } else if word == "string"@ {
        TokenView::TypeString
    } else if word == "float"@ {
        TokenView::TypeFloat
    } else if word == "bool"@ {
        TokenView::TypeBool
    } else if word == "const"@ {
        TokenView::Const
    } else if word == "else"@ {
        TokenView::Else
    } else if word == "true"@ {
        TokenView::True
    } else if word == "false"@ {
        TokenView::False
    } else {
        TokenView::Identifier(word)
    }
}

/// The text of the operator that a single character writes.
pub open spec fn operator_text(c: char) -> Seq<char> {
    if c == '+' {
        "+"@
    } else if c == '-' {
        "-"@
    } else if c == '*' {
        "*"@
    } else if c == '/' {
        "/"@
    } else if c == '%' {
        "%"@
    } else if c == '&' {
        "&"@
    } else if c == '|' {
        "|"@
    } else {
        "!"@
    }
}

/// The place after the number literal whose first digit is at `digits`, whether the
/// literal is valid or not.
pub open spec fn number_end(s: Seq<char>, digits: int) -> int {
    let mantissa = mantissa_end(s, digits);
    if has_exponent(s, digits) {
        digits_end(s, exponent_digits(s, digits))
    } else {
        mantissa
    }
}

/// The place after the integer part of the literal whose first digit is at `digits`.
pub open spec fn integer_end(s: Seq<char>, digits: int) -> int {
    digits_end(s, digits)
}

/// Whether the literal has a fraction: a point after the integer part that is not
/// the start of a range operator.
pub open spec fn has_fraction(s: Seq<char>, digits: int) -> bool {
    let d = integer_end(s, digits);
    char_at(s, d) == Some('.') && char_at(s, d + 1) != Some('.')
}

/// The place after the integer part and the fraction.
pub open spec fn mantissa_end(s: Seq<char>, digits: int) -> int {
    if has_fraction(s, digits) {
        digits_end(s, integer_end(s, digits) + 1)
    } else {
        integer_end(s, digits)
    }
}

/// Whether an exponent marker follows the mantissa.
pub open spec fn has_exponent(s: Seq<char>, digits: int) -> bool {
    let m = mantissa_end(s, digits);
    char_at(s, m) == Some('e') || char_at(s, m) == Some('E')
}

/// The place of the exponent's first digit, after the marker and an optional sign.
pub open spec fn exponent_digits(s: Seq<char>, digits: int) -> int {
    let m = mantissa_end(s, digits);
    if char_at(s, m + 1) == Some('-') || char_at(s, m + 1) == Some('+') {
        m + 2
    } else {
        m + 1
    }
}

/// The number literal at `p`, which holds a digit, or a minus sign and then a digit.
///
/// A literal that runs into a letter or a number of another script is taken for the
/// integer zero, and the scanner goes on after the run. A literal with a fraction or
/// an exponent is a float and keeps its text; its exponent needs a digit. Any other
/// literal is an integer, which must fit 32 bits.
pub open spec fn number_at(s: Seq<char>, p: int) -> Scan {
    let negative = char_at(s, p) == Some('-');
    let digits = if negative { p + 1 } else { p };
    let end = number_end(s, digits);
    if char_at(s, end) is Some && is_alphanumeric(s[end]) {
        Scan::Token {
            token: TokenView::Number(NumberView::Integer(0)),
            next: alphanumeric_end(s, end),
            invalid: Some(end),
        }
    } else if has_fraction(s, digits) || has_exponent(s, digits) {
        if has_exponent(s, digits) && end == exponent_digits(s, digits) {
            Scan::Fail { kind: LexErrorKind::InvalidNumber, at: end }
        } else {
            Scan::Token { token: TokenView::Number(NumberView::Float(s.subrange(p, end))), next: end, invalid: None }
        }
    } else {
        let magnitude = digits_value(s.subrange(digits, end)) as int;
        let value = if negative { -magnitude } else { magnitude };
        if i32::MIN <= value <= i32::MAX {
            Scan::Token { token: TokenView::Number(NumberView::Integer(value)), next: end, invalid: None }
        } else {
            Scan::Fail { kind: LexErrorKind::InvalidNumber, at: end }
        }
    }
}

/// The string literal whose opening quote is at `p`: everything up to the next quote.
pub open spec fn string_at(s: Seq<char>, p: int) -> Scan {
    let close = find_char(s, p + 1, '"');
    if close >= s.len() {
        Scan::Fail { kind: LexErrorKind::UnclosedString, at: s.len() as int }
    } else {
        Scan::Token { token: TokenView::String(s.subrange(p + 1, close)), next: close + 1, invalid: None }
    }
}

/// The token that starts at `p`, a place that holds neither white space nor the
/// start of a comment.
pub open spec fn token_at(s: Seq<char>, p: int) -> Scan
    recommends
        0 <= p < s.len(),
{
    let c = s[p];
    let ahead = char_at(s, p + 1);
    if c == '(' {
        Scan::Token { token: TokenView::LeftParen, next: p + 1, invalid: None }
    } else if c == ')' {
        Scan::Token { token: TokenView::RightParen, next: p + 1, invalid: None }
    } else if c == '{' {
        Scan::Token { token: TokenView::LeftBrace, next: p + 1, invalid: None }
    } else if c == '}' {
        Scan::Token { token: TokenView::RightBrace, next: p + 1, invalid: None }
    } else if c == '[' {
        Scan::Token { token: TokenView::LeftBracket, next: p + 1, invalid: None }
    } else if c == ']' {
        Scan::Token { token: TokenView::RightBracket, next: p + 1, invalid: None }
    } else if c == ',' {
        Scan::Token { token: TokenView::Comma, next: p + 1, invalid: None }
    } else if c == ':' {
        Scan::Token { token: TokenView::Colon, next: p + 1, invalid: None }
    } else if c == ';' {
        Scan::Token { token: TokenView::Semicolon, next: p + 1, invalid: None }
    } else if c == '.' {
        if ahead == Some('.') {
            if char_at(s, p + 2) == Some('=') {
                Scan::Token { token: TokenView::RangeInclusive, next: p + 3, invalid: None }
            } else {
                Scan::Token { token: TokenView::Range, next: p + 2, invalid: None }
            }
        } else {
            Scan::Token { token: TokenView::Dot, next: p + 1, invalid: None }
        }
    } else if c == '+' || c == '-' || c == '*' || c == '/' || c == '%' {
        if c == '-' && ahead is Some && is_digit(ahead->0) {
            number_at(s, p)
        } else if c == '*' && ahead == Some('*') {
            Scan::Token { token: TokenView::Operator("**"@), next: p + 2, invalid: None }
        } else if c == '-' && ahead == Some('>') {
            Scan::Token { token: TokenView::ArrowType, next: p + 2, invalid: None }
        } else {
            Scan::Token { token: TokenView::Operator(operator_text(c)), next: p + 1, invalid: None }
        }
    } else if c == '&' || c == '|' || c == '!' || c == '=' {
        if c == '&' && ahead == Some('&') {
            Scan::Token { token: TokenView::LogicalOperator("&&"@), next: p + 2, invalid: None }
        } else if c == '|' && ahead == Some('|') {
            Scan::Token { token: TokenView::LogicalOperator("||"@), next: p + 2, invalid: None }
        } else if c == '=' && ahead == Some('=') {
            Scan::Token { token: TokenView::LogicalOperator("=="@), next: p + 2, invalid: None }
        } else if c == '!' && ahead == Some('=') {
            Scan::Token { token: TokenView::LogicalOperator("!="@), next: p + 2, invalid: None }
        } else if c == '=' {
            Scan::Token { token: TokenView::Equal, next: p + 1, invalid: None }
        } else {
            Scan::Token { token: TokenView::Operator(operator_text(c)), next: p + 1, invalid: None }
        }
    } else if c == '<' {
        if ahead == Some('=') {
            Scan::Token { token: TokenView::LogicalOperator("<="@), next: p + 2, invalid: None }
        } else {
            Scan::Token { token: TokenView::LogicalOperator("<"@), next: p + 1, invalid: None }
        }
    } else if c == '>' {
        if ahead == Some('=') {
            Scan::Token { token: TokenView::LogicalOperator(">="@), next: p + 2, invalid: None }
        } else {
            Scan::Token { token: TokenView::LogicalOperator(">"@), next: p + 1, invalid: None }
        }
    } else if c == '"' {
        string_at(s, p)
    } else if is_digit(c) {
        number_at(s, p)
    } else if is_word_start(c) {
        let end = word_end(s, p);
        Scan::Token { token: word_token(s.subrange(p, end)), next: end, invalid: None }
    } else {
        Scan::Fail { kind: LexErrorKind::UnexpectedCharacter, at: p }
    }
}

/// The next token at or after `p`, after any white space, line comments and block
/// comments. At the end of the text it is `EOF`, and the place stays.
#[verifier::opaque]
pub open spec fn scan(s: Seq<char>, p: int) -> Scan
    decreases s.len() - p,
{
    if p < 0 || p >= s.len() {
        Scan::Token { token: TokenView::EOF, next: p, invalid: None }
    } else if is_space(s[p]) {
        scan(s, p + 1)
    } else if s[p] == '/' && char_at(s, p + 1) == Some('/') {
        proof {
            lemma_find_char(s, p + 2, '\n');
        }
        scan(s, find_char(s, p + 2, '\n'))
    } else if s[p] == '/' && char_at(s, p + 1) == Some('*') {
        proof {
            lemma_comment_close(s, p + 2);
        }
        let close = comment_close(s, p + 2);
        if close >= s.len() {
            Scan::Fail { kind: LexErrorKind::UnclosedComment, at: s.len() as int }
        } else {
            scan(s, close + 2)
        }
    } else {
        token_at(s, p)
    }
}

/// The complaint about a token that is the zero which stands for an invalid number
/// literal: the line and the column of the place where the literal ran into a
/// letter.
pub open spec fn warning_of(s: Seq<char>, expected: Scan) -> Option<LexError> {
    match expected {
        Scan::Token { token, next, invalid } => match invalid {
            Some(at) => Some(
                LexError {
                    kind: LexErrorKind::InvalidNumber,
                    line: line_at(s, at) as usize,
                    col: col_at(s, at) as usize,
                },
            ),
            None => None,
        },
        Scan::Fail { kind, at } => None,
    }
}

/// The complaints about the invalid number literals among the tokens from `p` on, up
/// to the end of the text or to the first lexical error, in the order of the tokens.
pub open spec fn warnings_from(s: Seq<char>, p: int) -> Seq<LexError>
    decreases s.len() - p,
{
    match scan(s, p) {
        Scan::Token { token, next, invalid } => {
            if token == TokenView::EOF || next <= p || next > s.len() {
                Seq::empty()
            } else {
                let first = match warning_of(s, scan(s, p)) {
                    Some(w) => seq![w],
                    None => Seq::empty(),
                };
                first + warnings_from(s, next)
            }
        },
        Scan::Fail { kind, at } => Seq::empty(),
    }
}

/// The tokens from `p` on, up to the end of the text or to the first lexical error.
pub open spec fn tokens_from(s: Seq<char>, p: int) -> Seq<TokenView>
    decreases s.len() - p,
{
    match scan(s, p) {
        Scan::Token { token, next, invalid } => {
            if token == TokenView::EOF || next <= p || next > s.len() {
                Seq::empty()
            } else {
                seq![token] + tokens_from(s, next)
            }
        },
        Scan::Fail { kind, at } => Seq::empty(),
    }
}

/// The first lexical error among the tokens from `p` on, if there is one.
pub open spec fn failure_from(s: Seq<char>, p: int) -> Option<LexError>
    decreases s.len() - p,
{
    match scan(s, p) {
        Scan::Token { token, next, invalid } => {
            if token == TokenView::EOF || next <= p || next > s.len() {
                None
            } else {
                failure_from(s, next)
            }
        },
        Scan::Fail { kind, at } => Some(
            LexError { kind, line: line_at(s, at) as usize, col: col_at(s, at) as usize },
        ),
    }
}

/// The meanings of a list of tokens, in order.
pub open spec fn token_views(tokens: Seq<Token>) -> Seq<TokenView> {
    Seq::new(tokens.len(), |i: int| tokens[i]@)
}

/// A token as it was read, and the complaint about it where it is the zero that
/// stands for an invalid number literal.
#[derive(Debug)]
pub struct Reading {
    pub token: Token,
    pub warning: Option<LexError>,
}

/// The token of a reading, or the error in its place.
pub open spec fn token_of(r: Result<Reading, LexError>) -> Result<Token, LexError> {
    match r {
        Ok(reading) => Ok(reading.token),
        Err(e) => Err(e),
    }
}

/// Whether what a scanning function returned, and the place where it left the
/// scanner, are what `expected` says. An error carries the line and column of the
/// place where the scanner stopped.
pub open spec fn scan_matches(
    s: Seq<char>,
    expected: Scan,
    got: Result<Token, LexError>,
    position: int,
) -> bool {
    match expected {
        Scan::Token { token, next, invalid } => got is Ok && got->Ok_0@ == token && position == next,
        Scan::Fail { kind, at } => got == Err::<Token, LexError>(
            LexError { kind, line: line_at(s, at) as usize, col: col_at(s, at) as usize },
        ) && position == at,
    }
}

/// Whether scanning from `p` stays inside the text, does not go back, and takes at
/// least one character for any token but `EOF`.
pub open spec fn advances(s: Seq<char>, p: int) -> bool {
    &&& 0 <= p <= s.len()
    &&& match scan(s, p) {
        Scan::Token { token, next, invalid } => p <= next <= s.len() && (token != TokenView::EOF ==> p < next),
        Scan::Fail { kind, at } => p <= at <= s.len(),
    }
}

/// What a call of `get_next_token` returns, and where it leaves the scanner.
pub open spec fn next_token_post(before: Lexer, after: Lexer, got: Result<Token, LexError>) -> bool {
    &&& after.text() == before.text()
    &&& scan_matches(before.text(), scan(before.text(), before.position()), got, after.position())
    &&& advances(before.text(), before.position())
}

/// What a call of `peek_token` returns: the outcome of scanning from where the
/// scanner stands, while the scanner stays there.
pub open spec fn peek_token_post(before: Lexer, after: Lexer, got: Result<Token, LexError>) -> bool {
    &&& after.text() == before.text()
    &&& after.position() == before.position()
    &&& exists|reached: int|
        scan_matches(before.text(), scan(before.text(), before.position()), got, reached)
    &&& advances(before.text(), before.position())
}

/// What is to be compared of two scanning results: the token's meaning, or the error.
pub open spec fn outcome(got: Result<Token, LexError>) -> Result<TokenView, LexError> {
    match got {
        Ok(token) => Ok(token@),
        Err(e) => Err(e),
    }
}

/// A peek followed by a read gives the same token twice, or the same error twice.
pub proof fn peek_then_next_agree(
    start: Lexer,
    peeked: Result<Token, LexError>,
    between: Lexer,
    read: Result<Token, LexError>,
    end: Lexer,
)
    requires
        peek_token_post(start, between, peeked),
        next_token_post(between, end, read),
    ensures
        outcome(peeked) == outcome(read),
{
}

/// A scanner over a source text, with a cursor that can be saved and put back.
#[derive(Debug)]
pub struct Lexer {
    source: String,
    length: usize,
    current: usize,
}

impl Clone for Lexer {
    fn clone(&self) -> (copy: Lexer)
        ensures
            copy.text() == self.text(),
            copy.position() == self.position(),
    {
        self.duplicate()
    }
}

/// The largest magnitude that the scanner tells apart: any integer literal beyond it
/// is out of range whatever its sign.
pub const MAGNITUDE_LIMIT: u64 = 2147483649;

impl Lexer {
    #[verifier::type_invariant]
    spec fn inv(&self) -> bool {
        &&& self.length == self.source@.len()
        &&& self.current <= self.length
        &&& self.length < usize::MAX
    }

    /// The source text.
    pub closed spec fn text(&self) -> Seq<char> {
        self.source@
    }

    /// The place of the cursor: the number of characters before it.
    pub closed spec fn position(&self) -> int {
        self.current as int
    }

    /// The number of characters from the cursor to the end of the text. The cursor
    /// never leaves the text.
    pub fn remaining(&self) -> (left: usize)
        ensures
            left == self.text().len() - self.position(),
            0 <= self.position() <= self.text().len() < usize::MAX,
    {
        proof {
            use_type_invariant(self);
        }
        self.length - self.current
    }

    /// A scanner of its own over the same text, with its cursor at the same place.
    pub fn duplicate(&self) -> (copy: Lexer)
        ensures
            copy.text() == self.text(),
            copy.position() == self.position(),
    {
        proof {
            use_type_invariant(self);
        }
        Lexer { source: self.source.clone(), length: self.length, current: self.current }
    }

    pub fn new(source: String) -> (lexer: Lexer)
        requires
            source@.len() < usize::MAX,
        ensures
            lexer.text() == source@,
            lexer.position() == 0,
    {
        let length = source.as_str().unicode_len();
        Lexer { source, length, current: 0 }
    }

    /// The line and the column of the cursor, both counted from 1.
    pub fn get_current_position(&self) -> (r: (usize, usize))
        ensures
            r.0 == line_at(self.text(), self.position()),
            r.1 == col_at(self.text(), self.position()),
    {
        proof {
            use_type_invariant(self);
        }
        let mut line: usize = 1;
        let mut col: usize = 1;
        let mut i: usize = 0;
        while i < self.current
            invariant
                i <= self.current <= self.length,
                self.length == self.source@.len(),
                self.length < usize::MAX,
                line == line_at(self.source@, i as int),
                col == col_at(self.source@, i as int),
                line <= i + 1,
                col <= i + 1,
            decreases self.current - i,
        {
            i += 1;
            if i < self.length && self.source.as_str().get_char(i) == '\n' {
                line += 1;
                col = 1;
            } else {
                col += 1;
            }
        }
        (line, col)
    }

    pub fn save_position(&self) -> (mark: usize)
        ensures
            mark == self.position(),
    {
        self.current
    }

    /// Puts the cursor at `position`, or at the end of the text if `position` lies
    /// beyond it.
    pub fn restore_position(&mut self, position: usize)
        ensures
            final(self).text() == old(self).text(),
            final(self).position() == if position <= old(self).text().len() {
                position as int
            } else {
                old(self).text().len() as int
            },
    {
        proof {
            use_type_invariant(&*self);
        }
        if position <= self.length {
            self.current = position;
        } else {
            self.current = self.length;
        }
    }

    /// The character `k` places after the cursor.
    fn char_ahead(&self, k: usize) -> (r: Option<char>)
        ensures
            r == char_at(self.text(), self.position() + k),
    {
        proof {
            use_type_invariant(self);
        }
        if k < self.length - self.current {
            Some(self.source.as_str().get_char(self.current + k))
        } else {
            None
        }
    }

    pub fn current_char(&self) -> (r: Option<char>)
        ensures
            r == char_at(self.text(), self.position()),
    {
        self.char_ahead(0)
    }

    pub fn peek(&self) -> (r: Option<char>)
        ensures
            r == char_at(self.text(), self.position() + 1),
    {
        self.char_ahead(1)
    }

    /// Moves the cursor one place on, unless it stands at the end, and returns the
    /// character that it then stands on.
    pub fn advance(&mut self) -> (r: Option<char>)
        ensures
            final(self).text() == old(self).text(),
            final(self).position() == if old(self).position() < old(self).text().len() {
                old(self).position() + 1
            } else {
                old(self).position()
            },
            r == char_at(final(self).text(), final(self).position()),
    {
        proof {
            use_type_invariant(&*self);
        }
        if self.current < self.length {
            self.current += 1;
        }
        self.current_char()
    }

    fn at_char(&self, c: char) -> (r: bool)
        ensures
            r == (char_at(self.text(), self.position()) == Some(c)),
    {
        match self.current_char() {
            Some(here) => here == c,
            None => false,
        }
    }

    fn ahead_is(&self, c: char) -> (r: bool)
        ensures
            r == (char_at(self.text(), self.position() + 1) == Some(c)),
    {
        match self.peek() {
            Some(next) => next == c,
            None => false,
        }
    }

    fn at_digit(&self) -> (r: bool)
        ensures
            r == (char_at(self.text(), self.position()) is Some && is_digit(
                self.text()[self.position()],
            )),
    {
        match self.current_char() {
            Some(here) => digit(here),
            None => false,
        }
    }

    fn at_alphanumeric(&self) -> (r: bool)
        ensures
            r == (char_at(self.text(), self.position()) is Some && is_alphanumeric(
                self.text()[self.position()],
            )),
    {
        match self.current_char() {
            Some(here) => alphanumeric(here),
            None => false,
        }
    }

    fn at_word_char(&self) -> (r: bool)
        ensures
            r == (char_at(self.text(), self.position()) is Some && is_word_char(
                self.text()[self.position()],
            )),
    {
        match self.current_char() {
            Some(here) => word_char(here),
            None => false,
        }
    }

    /// The error of kind `kind` at the cursor.
    fn fail(&self, kind: LexErrorKind) -> (e: LexError)
        ensures
            e == (LexError {
                kind,
                line: line_at(self.text(), self.position()) as usize,
                col: col_at(self.text(), self.position()) as usize,
            }),
    {
        let (line, col) = self.get_current_position();
        LexError { kind, line, col }
    }

    /// The text between two places, as a string of its own.
    fn slice(&self, from: usize, to: usize) -> (r: String)
        requires
            from <= to <= self.text().len(),
        ensures
            r@ == self.text().subrange(from as int, to as int),
    {
        String::from_str(self.source.as_str().substring_char(from, to))
    }

    /// Moves after the decimal digits at the cursor and returns the number that
    /// they write, or `MAGNITUDE_LIMIT` if that is smaller.
    fn skip_digits(&mut self) -> (value: u64)
        ensures
            final(self).text() == old(self).text(),
            final(self).position() == digits_end(old(self).text(), old(self).position()),
            old(self).position() <= final(self).position() <= old(self).text().len(),
            value == vstd::math::min(
                digits_value(
                    old(self).text().subrange(old(self).position(), final(self).position()),
                ) as int,
                MAGNITUDE_LIMIT as int,
            ),
    {
        proof {
            use_type_invariant(&*self);
            lemma_digits_end(self.source@, self.current as int);
        }
        let ghost text = self.source@;
        let ghost start = self.current as int;
        let mut value: u64 = 0;
        assert(text.subrange(start, start) =~= Seq::<char>::empty());
        while self.at_digit()
            invariant
                self.source@ == text,
                self.length == text.len(),
                self.length < usize::MAX,
                0 <= start <= self.current <= self.length,
                digits_end(text, self.current as int) == digits_end(text, start),
                value == vstd::math::min(
                    digits_value(text.subrange(start, self.current as int)) as int,
                    MAGNITUDE_LIMIT as int,
                ),
            decreases self.length - self.current,
        {
            let c = self.source.as_str().get_char(self.current);
            let d = digit_to_u32(c) as u64;
            proof {
                let longer = text.subrange(start, self.current as int + 1);
                assert(longer.drop_last() =~= text.subrange(start, self.current as int));
                assert(longer.last() == c);
            }
            let next = value * 10 + d;
            value = if next < MAGNITUDE_LIMIT { next } else { MAGNITUDE_LIMIT };
            self.current += 1;
        }
        value
    }

    fn skip_alphanumeric(&mut self)
        ensures
            final(self).text() == old(self).text(),
            final(self).position() == alphanumeric_end(old(self).text(), old(self).position()),
            old(self).position() <= final(self).position() <= old(self).text().len(),
    {
        proof {
            use_type_invariant(&*self);
        }
        let ghost text = self.source@;
        let ghost start = self.current as int;
        while self.at_alphanumeric()
            invariant
                self.source@ == text,
                self.length == text.len(),
                self.length < usize::MAX,
                0 <= start <= self.current <= self.length,
                alphanumeric_end(text, self.current as int) == alphanumeric_end(text, start),
            decreases self.length - self.current,
        {
            self.current += 1;
        }
    }

    /// Moves to the next `stop`, or to the end of the text.
    fn skip_to(&mut self, stop: char)
        ensures
            final(self).text() == old(self).text(),
            final(self).position() == find_char(old(self).text(), old(self).position(), stop),
            old(self).position() <= final(self).position() <= old(self).text().len(),
    {
        proof {
            use_type_invariant(&*self);
        }
        let ghost text = self.source@;
        let ghost start = self.current as int;
        while self.current < self.length && !self.at_char(stop)
            invariant
                self.source@ == text,
                self.length == text.len(),
                self.length < usize::MAX,
                0 <= start <= self.current <= self.length,
                find_char(text, self.current as int, stop) == find_char(text, start, stop),
            decreases self.length - self.current,
        {
            self.current += 1;
        }
    }

    /// Moves to the next `*/`, or to the end of the text.
    fn skip_to_comment_close(&mut self)
        ensures
            final(self).text() == old(self).text(),
            final(self).position() == comment_close(old(self).text(), old(self).position()),
            old(self).position() <= final(self).position() <= old(self).text().len(),
    {
        proof {
            use_type_invariant(&*self);
        }
        let ghost text = self.source@;
        let ghost start = self.current as int;
        while self.current < self.length && !(self.at_char('*') && self.ahead_is('/'))
            invariant
                self.source@ == text,
                self.length == text.len(),
                self.length < usize::MAX,
                0 <= start <= self.current <= self.length,
                comment_close(text, self.current as int) == comment_close(text, start),
            decreases self.length - self.current,
        {
            self.current += 1;
        }
    }

    /// Scans the number literal at the cursor.
    fn scan_number(&mut self) -> (r: Result<(Number, Option<LexError>), LexError>)
        requires
            ({
                let s = old(self).text();
                let p = old(self).position();
                ||| char_at(s, p) is Some && is_digit(s[p])
                ||| char_at(s, p) == Some('-') && char_at(s, p + 1) is Some && is_digit(s[p + 1])
            }),
        ensures
            final(self).text() == old(self).text(),
            match number_at(old(self).text(), old(self).position()) {
                Scan::Token { token, next, invalid } => r is Ok && TokenView::Number(r->Ok_0.0@)
                    == token && final(self).position() == next && r->Ok_0.1 == warning_of(
                    old(self).text(),
                    number_at(old(self).text(), old(self).position()),
                ),
                Scan::Fail { kind, at } => r == Err::<(Number, Option<LexError>), LexError>(
                    LexError {
                        kind,
                        line: line_at(old(self).text(), at) as usize,
                        col: col_at(old(self).text(), at) as usize,
                    },
                ) && final(self).position() == at,
            },
    {
        proof {
            use_type_invariant(&*self);
        }
        let ghost text = self.source@;
        let start = self.current;
        let negative = self.at_char('-');
        if negative {
            self.advance();
        }
        let ghost digits = self.current as int;
        let magnitude = self.skip_digits();
        let mut is_float = false;
        if self.at_char('.') && !self.ahead_is('.') {
            is_float = true;
            self.advance();
            self.skip_digits();
        }
        let mut exponent_ok = true;
        if self.at_char('e') || self.at_char('E') {
            is_float = true;
            self.advance();
            if self.at_char('-') || self.at_char('+') {
                self.advance();
            }
            let exponent = self.current;
            self.skip_digits();
            exponent_ok = self.current > exponent;
        }
        proof {
            use_type_invariant(&*self);
            assert(self.current as int == number_end(text, digits));
        }
        if self.at_alphanumeric() {
            let warning = self.fail(LexErrorKind::InvalidNumber);
            self.skip_alphanumeric();
            return Ok((Number::Integer(0), Some(warning)));
        }
        if is_float {
            if !exponent_ok {
                return Err(self.fail(LexErrorKind::InvalidNumber));
            }
            return Ok((Number::Float(self.slice(start, self.current)), None));
        }
        if negative {
            if magnitude <= 2147483648 {
                Ok((Number::Integer((0 - (magnitude as i64)) as i32), None))
            } else {
                Err(self.fail(LexErrorKind::InvalidNumber))
            }
        } else {
            if magnitude <= 2147483647 {
                Ok((Number::Integer(magnitude as i32), None))
            } else {
                Err(self.fail(LexErrorKind::InvalidNumber))
            }
        }
    }

    /// Scans the string literal whose opening quote is at the cursor.
    fn scan_string(&mut self) -> (r: Result<String, LexError>)
        requires
            char_at(old(self).text(), old(self).position()) == Some('"'),
        ensures
            final(self).text() == old(self).text(),
            match string_at(old(self).text(), old(self).position()) {
                Scan::Token { token, next, invalid } => r is Ok && TokenView::String(r->Ok_0@) == token
                    && final(self).position() == next,
                Scan::Fail { kind, at } => r == Err::<String, LexError>(
                    LexError {
                        kind,
                        line: line_at(old(self).text(), at) as usize,
                        col: col_at(old(self).text(), at) as usize,
                    },
                ) && final(self).position() == at,
            },
    {
        proof {
            use_type_invariant(&*self);
            lemma_find_char(self.source@, self.current as int + 1, '"');
        }
        self.advance();
        let start = self.current;
        self.skip_to('"');
        proof {
            use_type_invariant(&*self);
        }
        if self.current < self.length {
            let text = self.slice(start, self.current);
            self.advance();
            Ok(text)
        } else {
            Err(self.fail(LexErrorKind::UnclosedString))
        }
    }

    /// Scans the word at the cursor: the longest run of letters, numbers and
    /// underscores.
    pub fn scan_identifier_keyword(&mut self) -> (word: String)
        ensures
            final(self).text() == old(self).text(),
            final(self).position() == word_end(old(self).text(), old(self).position()),
            word@ == old(self).text().subrange(old(self).position(), final(self).position()),
    {
        proof {
            use_type_invariant(&*self);
        }
        let ghost text = self.source@;
        let start = self.current;
        while self.at_word_char()
            invariant
                self.source@ == text,
                self.length == text.len(),
                self.length < usize::MAX,
                0 <= start <= self.current <= self.length,
                word_end(text, self.current as int) == word_end(text, start as int),
            decreases self.length - self.current,
        {
            self.current += 1;
        }
        self.slice(start, self.current)
    }
}

/// The arithmetic operator that a single character writes.
fn operator_of(c: char) -> (r: Token)
    ensures
        r@ == TokenView::Operator(operator_text(c)),
{
    let text = if c == '+' {
        "+"
    } else if c == '-' {
        "-"
    } else if c == '*' {
        "*"
    } else if c == '/' {
        "/"
    } else if c == '%' {
        "%"
    } else if c == '&' {
        "&"
    } else if c == '|' {
        "|"
    } else {
        "!"
    };
    Token::Operator(String::from_str(text))
}

/// The keyword that a word writes, or the identifier that it is.
fn token_of_word(word: String) -> (r: Token)
    ensures
        r@ == word_token(word@),
{
    if is_text(&word, "fn") {
        Token::Function
    } else if is_text(&word, "if") {
        Token::If
    } else if is_text(&word, "for") {
        Token::For
    } else if is_text(&word, "let") {
        Token::Let
    } else if is_text(&word, "return") {
        Token::Return
    } else if is_text(&word, "loop") {
        Token::Loop
    } else if is_text(&word, "in") {
        Token::In
    } else if is_text(&word, "int") {
        Token::TypeInt
    } else if is_text(&word, "string") {
        Token::TypeString
    } else if is_text(&word, "float") {
        Token::TypeFloat
    } else if is_text(&word, "bool") {
        Token::TypeBool
    } else if is_text(&word, "const") {
        Token::Const
    } else if is_text(&word, "else") {
        Token::Else
    } else if is_text(&word, "true") {
        Token::True
    } else if is_text(&word, "false") {
        Token::False
    } else {
        Token::Identifier(word)
    }
}

impl Lexer {
    /// Reads the next token, as `get_next_token` does, and tells whether the token is
    /// the zero that stands for an invalid number literal.
    pub fn read_token(&mut self) -> (r: Result<Reading, LexError>)
        ensures
            next_token_post(*old(self), *final(self), token_of(r)),
            r is Ok ==> r->Ok_0.warning == warning_of(
                old(self).text(),
                scan(old(self).text(), old(self).position()),
            ),
    {
        proof {
            use_type_invariant(&*self);
        }
        let ghost text = self.source@;
        let ghost start = self.current as int;
        proof {
            lemma_scan_advances(text, start);
        }
        loop
            invariant
                self.source@ == text,
                self.length == text.len(),
                self.length < usize::MAX,
                0 <= start <= self.current <= self.length,
                scan(text, self.current as int) == scan(text, start),
                advances(text, start),
                text == old(self).text(),
                start == old(self).position(),
            decreases self.length - self.current,
        {
            proof {
                reveal_with_fuel(scan, 1);
            }
            let c = match self.current_char() {
                Some(c) => c,
                None => {
                    return Ok(Reading { token: Token::EOF, warning: None });
                },
            };
            let ahead = self.peek();
            if space(c) {
                self.advance();
                proof {
                    use_type_invariant(&*self);
                }
                continue ;
            }
            if c == '/' && ahead == Some('/') {
                self.advance();
                self.advance();
                self.skip_to('\n');
                proof {
                    use_type_invariant(&*self);
                }
                continue ;
            }
            if c == '/' && ahead == Some('*') {
                self.advance();
                self.advance();
                let ghost body = self.current as int;
                self.skip_to_comment_close();
                proof {
                    use_type_invariant(&*self);
                    lemma_comment_close(text, body);
                }
                if self.current >= self.length {
                    return Err(self.fail(LexErrorKind::UnclosedComment));
                }
                self.advance();
                self.advance();
                proof {
                    use_type_invariant(&*self);
                }
                continue ;
            }
            assert(scan(text, start) == token_at(text, self.current as int));
            if c == '(' {
                self.advance();
                return Ok(Reading { token: Token::LeftParen, warning: None });
            } else if c == ')' {
                self.advance();
                return Ok(Reading { token: Token::RightParen, warning: None });
            } else if c == '{' {
                self.advance();
                return Ok(Reading { token: Token::LeftBrace, warning: None });
            } else if c == '}' {
                self.advance();
                return Ok(Reading { token: Token::RightBrace, warning: None });
            } else if c == '[' {
                self.advance();
                return Ok(Reading { token: Token::LeftBracket, warning: None });
            } else if c == ']' {
                self.advance();
                return Ok(Reading { token: Token::RightBracket, warning: None });
            } else if c == ',' {
                self.advance();
                return Ok(Reading { token: Token::Comma, warning: None });
            } else if c == ':' {
                self.advance();
                return Ok(Reading { token: Token::Colon, warning: None });
            } else if c == ';' {
                self.advance();
                return Ok(Reading { token: Token::Semicolon, warning: None });
            } else if c == '.' {
                if ahead == Some('.') {
                    self.advance();
                    if self.ahead_is('=') {
                        self.advance();
                        self.advance();
                        return Ok(Reading { token: Token::RangeInclusive, warning: None });
                    }
                    self.advance();
                    return Ok(Reading { token: Token::Range, warning: None });
                }
                self.advance();
                return Ok(Reading { token: Token::Dot, warning: None });
            } else if c == '+' || c == '-' || c == '*' || c == '/' || c == '%' {
                let digit_ahead = match ahead {
                    Some(d) => digit(d),
                    None => false,
                };
                if c == '-' && digit_ahead {
                    return match self.scan_number() {
                        Ok(number) => Ok(
                            Reading { token: Token::Number(number.0), warning: number.1 },
                        ),
                        Err(e) => Err(e),
                    };
                }
                if c == '*' && ahead == Some('*') {
                    self.advance();
                    self.advance();
                    return Ok(Reading { token: Token::Operator(String::from_str("**")), warning: None });
                }
                if c == '-' && ahead == Some('>') {
                    self.advance();
                    self.advance();
                    return Ok(Reading { token: Token::ArrowType, warning: None });
                }
                self.advance();
                return Ok(Reading { token: operator_of(c), warning: None });
            } else if c == '&' || c == '|' || c == '!' || c == '=' {
                self.advance();
                if c == '&' && ahead == Some('&') {
                    self.advance();
                    return Ok(Reading { token: Token::LogicalOperator(String::from_str("&&")), warning: None });
                } else if c == '|' && ahead == Some('|') {
                    self.advance();
                    return Ok(Reading { token: Token::LogicalOperator(String::from_str("||")), warning: None });
                } else if c == '=' && ahead == Some('=') {
                    self.advance();
                    return Ok(Reading { token: Token::LogicalOperator(String::from_str("==")), warning: None });
                } else if c == '!' && ahead == Some('=') {
                    self.advance();
                    return Ok(Reading { token: Token::LogicalOperator(String::from_str("!=")), warning: None });
                } else if c == '=' {
                    return Ok(Reading { token: Token::Equal, warning: None });
                } else {
                    return Ok(Reading { token: operator_of(c), warning: None });
                }
            } else if c == '<' {
                self.advance();
                if ahead == Some('=') {
                    self.advance();
                    return Ok(Reading { token: Token::LogicalOperator(String::from_str("<=")), warning: None });
                }
                return Ok(Reading { token: Token::LogicalOperator(String::from_str("<")), warning: None });
            } else if c == '>' {
                self.advance();
                if ahead == Some('=') {
                    self.advance();
                    return Ok(Reading { token: Token::LogicalOperator(String::from_str(">=")), warning: None });
                }
                return Ok(Reading { token: Token::LogicalOperator(String::from_str(">")), warning: None });
            } else if c == '"' {
                return match self.scan_string() {
                    Ok(text) => Ok(Reading { token: Token::String(text), warning: None }),
                    Err(e) => Err(e),
                };
            } else if digit(c) {
                return match self.scan_number() {
                    Ok(number) => Ok(Reading { token: Token::Number(number.0), warning: number.1 }),
                    Err(e) => Err(e),
                };
            } else if word_start(c) {
                let word = self.scan_identifier_keyword();
                return Ok(Reading { token: token_of_word(word), warning: None });
            } else {
                return Err(self.fail(LexErrorKind::UnexpectedCharacter));
            }
        }
    }

    /// Reads the next token and moves the cursor after it. White space and comments
    /// before the token are passed over. At the end of the text the token is `EOF`.
    pub fn get_next_token(&mut self) -> (r: Result<Token, LexError>)
        ensures
            next_token_post(*old(self), *final(self), r),
    {
        match self.read_token() {
            Ok(reading) => Ok(reading.token),
            Err(e) => Err(e),
        }
    }

    /// Reads the tokens up to the end of the text and returns them, without the `EOF`
    /// at their end; or returns the first lexical error.
    pub fn all_tokens(&mut self) -> (r: Result<Vec<Token>, LexError>)
        ensures
            final(self).text() == old(self).text(),
            match failure_from(old(self).text(), old(self).position()) {
                Some(e) => r == Err::<Vec<Token>, LexError>(e),
                None => r is Ok && token_views(r->Ok_0@) == tokens_from(
                    old(self).text(),
                    old(self).position(),
                ),
            },
    {
        proof {
            use_type_invariant(&*self);
        }
        let ghost text = self.source@;
        let ghost start = self.current as int;
        let mut tokens: Vec<Token> = Vec::new();
        assert(token_views(tokens@) =~= Seq::<TokenView>::empty());
        loop
            invariant
                self.source@ == text,
                self.length == text.len(),
                0 <= self.current <= self.length,
                text == old(self).text(),
                start == old(self).position(),
                token_views(tokens@) + tokens_from(text, self.current as int) == tokens_from(
                    text,
                    start,
                ),
                failure_from(text, self.current as int) == failure_from(text, start),
            decreases self.length - self.current,
        {
            let ghost before = self.current as int;
            let ghost found = token_views(tokens@);
            proof {
                reveal_with_fuel(tokens_from, 1);
                reveal_with_fuel(failure_from, 1);
            }
            match self.get_next_token() {
                Ok(token) => {
                    proof {
                        use_type_invariant(&*self);
                    }
                    if matches!(token, Token::EOF) {
                        assert(token_views(tokens@) =~= found + tokens_from(text, before));
                        return Ok(tokens);
                    }
                    let ghost view = token@;
                    tokens.push(token);
                    proof {
                        assert(token_views(tokens@) =~= found + seq![view]);
                        assert(token_views(tokens@) + tokens_from(text, self.current as int)
                            =~= found + tokens_from(text, before));
                    }
                },
                Err(e) => {
                    return Err(e);
                },
            }
        }
    }

    /// Reads the tokens up to the end of the text, or to the first lexical error, and
    /// returns the complaints about the invalid number literals among them.
    pub fn invalid_numbers(&mut self) -> (warnings: Vec<LexError>)
        ensures
            final(self).text() == old(self).text(),
            warnings@ == warnings_from(old(self).text(), old(self).position()),
    {
        proof {
            use_type_invariant(&*self);
        }
        let ghost text = self.source@;
        let ghost start = self.current as int;
        let mut warnings: Vec<LexError> = Vec::new();
        loop
            invariant
                self.source@ == text,
                self.length == text.len(),
                0 <= self.current <= self.length,
                text == old(self).text(),
                start == old(self).position(),
                warnings@ + warnings_from(text, self.current as int) == warnings_from(text, start),
            decreases self.length - self.current,
        {
            let ghost before = self.current as int;
            let ghost found = warnings@;
            proof {
                reveal_with_fuel(warnings_from, 1);
            }
            match self.read_token() {
                Ok(reading) => {
                    proof {
                        use_type_invariant(&*self);
                    }
                    if matches!(reading.token, Token::EOF) {
                        assert(warnings@ =~= found + warnings_from(text, before));
                        return warnings;
                    }
                    match reading.warning {
                        Some(w) => {
                            warnings.push(w);
                        },
                        None => {},
                    }
                    proof {
                        let first: Seq<LexError> = match warning_of(text, scan(text, before)) {
                            Some(w) => seq![w],
                            None => Seq::empty(),
                        };
                        assert(warnings@ =~= found + first);
                        assert(warnings_from(text, before) == first + warnings_from(
                            text,
                            self.current as int,
                        ));
                        assert(warnings@ + warnings_from(text, self.current as int) =~= found
                            + warnings_from(text, before));
                    }
                },
                Err(e) => {
                    assert(warnings@ =~= found + warnings_from(text, before));
                    return warnings;
                },
            }
        }
    }

    /// Reads the next token and leaves the cursor where it was.
    pub fn peek_token(&mut self) -> (r: Result<Token, LexError>)
        ensures
            peek_token_post(*old(self), *final(self), r),
    {
        proof {
            use_type_invariant(&*self);
        }
        let mark = self.current;
        let r = self.get_next_token();
        proof {
            use_type_invariant(&*self);
        }
        self.current = mark;
        r
    }
}

/// Where the number literal at `p` ends: after at least one character, inside the
/// text.
pub proof fn lemma_number_advances(s: Seq<char>, p: int)
    requires
        0 <= p < s.len(),
        is_digit(s[p]) || (s[p] == '-' && char_at(s, p + 1) is Some && is_digit(s[p + 1])),
    ensures
        match number_at(s, p) {
            Scan::Token { token, next, invalid } => p < next <= s.len() && token is Number,
            Scan::Fail { kind, at } => p < at <= s.len(),
        },
{
    let digits = if s[p] == '-' { p + 1 } else { p };
    lemma_digits_end(s, digits);
    let d = integer_end(s, digits);
    assert(d > digits);
    if has_fraction(s, digits) {
        lemma_digits_end(s, d + 1);
    }
    let m = mantissa_end(s, digits);
    if has_exponent(s, digits) {
        lemma_digits_end(s, exponent_digits(s, digits));
    }
    let end = number_end(s, digits);
    assert(p < end <= s.len());
    lemma_alphanumeric_end(s, end);
}

/// Scanning never moves the cursor back nor out of the text, and every token but
/// `EOF` takes at least one character. `EOF` is found at the end of the text only.
pub proof fn lemma_scan_advances(s: Seq<char>, p: int)
    requires
        0 <= p <= s.len(),
    ensures
        match scan(s, p) {
            Scan::Token { token, next, invalid } => {
                &&& p <= next <= s.len()
                &&& token != TokenView::EOF ==> p < next
                &&& token == TokenView::EOF ==> next == s.len()
            },
            Scan::Fail { kind, at } => p <= at <= s.len(),
        },
    decreases s.len() - p,
{
    reveal_with_fuel(scan, 1);
    if p >= s.len() {
    } else if is_space(s[p]) {
        lemma_scan_advances(s, p + 1);
    } else if s[p] == '/' && char_at(s, p + 1) == Some('/') {
        lemma_find_char(s, p + 2, '\n');
        lemma_scan_advances(s, find_char(s, p + 2, '\n'));
    } else if s[p] == '/' && char_at(s, p + 1) == Some('*') {
        lemma_comment_close(s, p + 2);
        let close = comment_close(s, p + 2);
        if close < s.len() {
            lemma_scan_advances(s, close + 2);
        }
    } else {
        let c = s[p];
        if c == '"' {
            lemma_find_char(s, p + 1, '"');
        } else if is_digit(c) || (c == '-' && char_at(s, p + 1) is Some && is_digit(s[p + 1])) {
            lemma_number_advances(s, p);
        } else if is_word_start(c) {
            lemma_word_end(s, p + 1);
        }
    }
}

/// Reads the decimal digits of `text` from `from` on: the place after them, and the
/// number that they write, or `limit` if that is smaller.
pub(crate) fn read_digits(text: &str, length: usize, from: usize, limit: u128) -> (r: (usize, u128))
    requires
        length == text@.len(),
        from <= length,
        limit <= 0x1_0000_0000_0000_0000,
    ensures
        r.0 == digits_end(text@, from as int),
        from <= r.0 <= length,
        r.1 == vstd::math::min(
            digits_value(text@.subrange(from as int, r.0 as int)) as int,
            limit as int,
        ),
{
    let mut at = from;
    let mut value: u128 = 0;
    assert(text@.subrange(from as int, from as int) =~= Seq::<char>::empty());
    while at < length && digit(text.get_char(at))
        invariant
            length == text@.len(),
            from <= at <= length,
            limit <= 0x1_0000_0000_0000_0000,
            digits_end(text@, at as int) == digits_end(text@, from as int),
            value == vstd::math::min(
                digits_value(text@.subrange(from as int, at as int)) as int,
                limit as int,
            ),
        decreases length - at,
    {
        let c = text.get_char(at);
        let d = digit_to_u32(c) as u128;
        proof {
            let longer = text@.subrange(from as int, at as int + 1);
            assert(longer.drop_last() =~= text@.subrange(from as int, at as int));
            assert(longer.last() == c);
        }
        let next = value * 10 + d;
        value = if next < limit { next } else { limit };
        at += 1;
    }
    (at, value)
}

} // verus!
