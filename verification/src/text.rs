use vstd::prelude::*;
use vstd::string::*;
use crate::chars::{digit_value, is_digit};
use crate::grammar::{SyntaxError, SyntaxErrorKind};
use crate::lexer::{digits_value, LexError, LexErrorKind, Number, NumberView, Token, TokenView};
use crate::sintax::{name_views, type_views, DataType, DataTypeView};
use crate::table::{SymbolKind, SymbolKindView};

verus! {

/// The character that writes the digit `d`.
pub open spec fn digit_char(d: int) -> char
    recommends
        0 <= d <= 9,
{
    (48 + d) as char
}

/// The decimal digits of a natural number, without leading zeros.
pub open spec fn decimal_digits(n: nat) -> Seq<char>
    decreases n,
{
    if n < 10 {
        seq![digit_char(n as int)]
    } else {
        decimal_digits(n / 10).push(digit_char((n % 10) as int))
    }
}

/// The decimal text of an integer: a minus sign before the digits of a negative one.
pub open spec fn decimal(v: int) -> Seq<char> {
    if v < 0 {
        seq!['-'] + decimal_digits((-v) as nat)
    } else {
        decimal_digits(v as nat)
    }
}

/// Reading the decimal digits of a number gives the number back.
pub proof fn decimal_digits_read_back(n: nat)
    ensures
        digits_value(decimal_digits(n)) == n,
        decimal_digits(n).len() > 0,
        forall|i: int| 0 <= i < decimal_digits(n).len() ==> is_digit(#[trigger] decimal_digits(n)[i]),
    decreases n,
{
    if n < 10 {
        let one = decimal_digits(n);
        assert(one.drop_last() =~= Seq::<char>::empty());
        assert(digits_value(one.drop_last()) == 0);
        assert(digit_value(one.last()) == n);
    } else {
        decimal_digits_read_back(n / 10);
        let all = decimal_digits(n);
        assert(all.drop_last() =~= decimal_digits(n / 10));
        assert(digit_value(all.last()) == n % 10);
    }
}

/// The text that a token is written as. A string has no quotes around it, a float
/// has its text as it stood in the source, and the end of the text is `EOF`.
pub open spec fn token_text(token: TokenView) -> Seq<char> {
    match token {
        TokenView::Function => "fn"@,
        TokenView::If => "if"@,
        TokenView::Else => "else"@,
        TokenView::Identifier(name) => name,
        TokenView::Number(number) => number_text(number),
        TokenView::String(text) => text,
        TokenView::For => "for"@,
        TokenView::In => "in"@,
        TokenView::Loop => "loop"@,
        TokenView::Let => "let"@,
        TokenView::Const => "const"@,
        TokenView::Return => "return"@,
        TokenView::Operator(text) => text,
        TokenView::LogicalOperator(text) => text,
        TokenView::Equal => "="@,
        TokenView::LeftParen => "("@,
        TokenView::RightParen => ")"@,
        TokenView::LeftBrace => "{"@,
        TokenView::RightBrace => "}"@,
        TokenView::LeftBracket => "["@,
        TokenView::RightBracket => "]"@,
        TokenView::Comma => ","@,
        TokenView::Semicolon => ";"@,
        TokenView::Colon => ":"@,
        TokenView::Dot => "."@,
        TokenView::EOF => "EOF"@,
        TokenView::TypeInt => "int"@,
        TokenView::TypeString => "string"@,
        TokenView::TypeFloat => "float"@,
        TokenView::TypeBool => "bool"@,
        TokenView::True => "true"@,
        TokenView::False => "false"@,
        TokenView::ArrowType => "->"@,
        TokenView::Range => ".."@,
        TokenView::RangeInclusive => "..="@,
    }
}

/// The text that a number is written as.
pub open spec fn number_text(number: NumberView) -> Seq<char> {
    match number {
        NumberView::Float(text) => text,
        NumberView::Integer(value) => decimal(value),
    }
}

/// The text of one digit.
fn digit_text(d: u64) -> (r: &'static str)
    requires
        d <= 9,
    ensures
        r@ == seq![digit_char(d as int)],
{
    proof {
        reveal_strlit("0");
        reveal_strlit("1");
        reveal_strlit("2");
        reveal_strlit("3");
        reveal_strlit("4");
        reveal_strlit("5");
        reveal_strlit("6");
        reveal_strlit("7");
        reveal_strlit("8");
        reveal_strlit("9");
    }
    let r = if d == 0 {
        "0"
    } else if d == 1 {
        "1"
    } else if d == 2 {
        "2"
    } else if d == 3 {
        "3"
    } else if d == 4 {
        "4"
    } else if d == 5 {
        "5"
    } else if d == 6 {
        "6"
    } else if d == 7 {
        "7"
    } else if d == 8 {
        "8"
    } else {
        "9"
    };
    assert(r@ =~= seq![digit_char(d as int)]);
    r
}

/// The decimal digits of a number.
pub fn digits_text(n: u64) -> (r: String)
    ensures
        r@ == decimal_digits(n as nat),
    decreases n,
{
    if n < 10 {
        String::from_str(digit_text(n))
    } else {
        let mut text = digits_text(n / 10);
        text.append(digit_text(n % 10));
        assert(text@ =~= decimal_digits((n / 10) as nat).push(digit_char((n % 10) as int)));
        text
    }
}

/// The decimal text of an integer.
pub fn decimal_text(v: i32) -> (r: String)
    ensures
        r@ == decimal(v as int),
{
    if v < 0 {
        let magnitude: u64 = (0 - (v as i64)) as u64;
        let digits = digits_text(magnitude);
        let mut text = String::from_str("-");
        text.append(digits.as_str());
        proof {
            reveal_strlit("-");
            assert(text@ =~= seq!['-'] + decimal_digits((-v) as nat));
        }
        text
    } else {
        digits_text(v as u64)
    }
}

impl Number {
    /// The text that the number is written as.
    pub fn text(&self) -> (r: String)
        ensures
            r@ == number_text(self@),
    {
        match self {
            Number::Float(text) => text.clone(),
            Number::Integer(value) => decimal_text(*value),
        }
    }
}

impl Token {
    /// The text that the token is written as.
    pub fn text(&self) -> (r: String)
        ensures
            r@ == token_text(self@),
    {
        match self {
            Token::Function => String::from_str("fn"),
            Token::If => String::from_str("if"),
            Token::Else => String::from_str("else"),
            Token::Identifier(name) => name.clone(),
            Token::Number(number) => number.text(),
            Token::String(text) => text.clone(),
            Token::For => String::from_str("for"),
            Token::In => String::from_str("in"),
            Token::Loop => String::from_str("loop"),
            Token::Let => String::from_str("let"),
            Token::Const => String::from_str("const"),
            Token::Return => String::from_str("return"),
            Token::Operator(text) => text.clone(),
            Token::LogicalOperator(text) => text.clone(),
            Token::Equal => String::from_str("="),
            Token::LeftParen => String::from_str("("),
            Token::RightParen => String::from_str(")"),
            Token::LeftBrace => String::from_str("{"),
            Token::RightBrace => String::from_str("}"),
            Token::LeftBracket => String::from_str("["),
            Token::RightBracket => String::from_str("]"),
            Token::Comma => String::from_str(","),
            Token::Semicolon => String::from_str(";"),
            Token::Colon => String::from_str(":"),
            Token::Dot => String::from_str("."),
            Token::EOF => String::from_str("EOF"),
            Token::TypeInt => String::from_str("int"),
            Token::TypeString => String::from_str("string"),
            Token::TypeFloat => String::from_str("float"),
            Token::TypeBool => String::from_str("bool"),
            Token::True => String::from_str("true"),
            Token::False => String::from_str("false"),
            Token::ArrowType => String::from_str("->"),
            Token::Range => String::from_str(".."),
            Token::RangeInclusive => String::from_str("..="),
        }
    }
}


/// The name of a token's kind. A number is named with the kind of number that it is.
pub open spec fn token_kind(token: TokenView) -> Seq<char> {
    match token {
        TokenView::Function => "Function"@,
        TokenView::If => "If"@,
        TokenView::Else => "Else"@,
        TokenView::Identifier(_) => "Identifier"@,
        TokenView::Number(NumberView::Integer(_)) => "Number:Integer"@,
        TokenView::Number(NumberView::Float(_)) => "Number:Float"@,
        TokenView::String(_) => "String"@,
        TokenView::For => "For"@,
        TokenView::In => "In"@,
        TokenView::Loop => "Loop"@,
        TokenView::Let => "Let"@,
        TokenView::Const => "Const"@,
        TokenView::Return => "Return"@,
        TokenView::Operator(_) => "Operator"@,
        TokenView::LogicalOperator(_) => "LogicalOperator"@,
        TokenView::Equal => "Equal"@,
        TokenView::LeftParen => "LeftParen"@,
        TokenView::RightParen => "RightParen"@,
        TokenView::LeftBrace => "LeftBrace"@,
        TokenView::RightBrace => "RightBrace"@,
        TokenView::LeftBracket => "LeftBracket"@,
        TokenView::RightBracket => "RightBracket"@,
        TokenView::Comma => "Comma"@,
        TokenView::Semicolon => "Semicolon"@,
        TokenView::Colon => "Colon"@,
        TokenView::Dot => "Dot"@,
        TokenView::EOF => "EOF"@,
        TokenView::TypeInt => "TypeInt"@,
        TokenView::TypeString => "TypeString"@,
        TokenView::TypeFloat => "TypeFloat"@,
        TokenView::TypeBool => "TypeBool"@,
        TokenView::True => "True"@,
        TokenView::False => "False"@,
        TokenView::ArrowType => "ArrowType"@,
        TokenView::Range => "Range"@,
        TokenView::RangeInclusive => "RangeInclusive"@,
    }
}

/// The value that a token is listed with: its text, and nothing for the end of the
/// text.
pub open spec fn token_value(token: TokenView) -> Seq<char> {
    if token == TokenView::EOF {
        ""@
    } else {
        token_text(token)
    }
}

/// The name of a token's kind and the value that the token is listed with.
pub fn get_type_and_value(token: &Token) -> (r: (&'static str, String))
    ensures
        r.0@ == token_kind(token@),
        r.1@ == token_value(token@),
{
    let kind = match token {
        Token::Function => "Function",
        Token::If => "If",
        Token::Else => "Else",
        Token::Identifier(_) => "Identifier",
        Token::Number(Number::Integer(_)) => "Number:Integer",
        Token::Number(Number::Float(_)) => "Number:Float",
        Token::String(_) => "String",
        Token::For => "For",
        Token::In => "In",
        Token::Loop => "Loop",
        Token::Let => "Let",
        Token::Const => "Const",
        Token::Return => "Return",
        Token::Operator(_) => "Operator",
        Token::LogicalOperator(_) => "LogicalOperator",
        Token::Equal => "Equal",
        Token::LeftParen => "LeftParen",
        Token::RightParen => "RightParen",
        Token::LeftBrace => "LeftBrace",
        Token::RightBrace => "RightBrace",
        Token::LeftBracket => "LeftBracket",
        Token::RightBracket => "RightBracket",
        Token::Comma => "Comma",
        Token::Semicolon => "Semicolon",
        Token::Colon => "Colon",
        Token::Dot => "Dot",
        Token::EOF => "EOF",
        Token::TypeInt => "TypeInt",
        Token::TypeString => "TypeString",
        Token::TypeFloat => "TypeFloat",
        Token::TypeBool => "TypeBool",
        Token::True => "True",
        Token::False => "False",
        Token::ArrowType => "ArrowType",
        Token::Range => "Range",
        Token::RangeInclusive => "RangeInclusive",
    };
    let value = match token {
        Token::EOF => String::from_str(""),
        _ => token.text(),
    };
    (kind, value)
}

/// The first `n` types of a list with their names, separated by a comma and a space.
pub open spec fn types_debug(types: Seq<DataTypeView>, n: int) -> Seq<char>
    decreases types, n,
{
    if n <= 0 || n > types.len() {
        Seq::empty()
    } else if n == 1 {
        type_debug(types[0])
    } else {
        types_debug(types, n - 1) + ", "@ + type_debug(types[n - 1])
    }
}

/// A type with its name: an array with its element type and its length, a tuple
/// with its slots.
pub open spec fn type_debug(t: DataTypeView) -> Seq<char>
    decreases t, 0int,
{
    match t {
        DataTypeView::Integer => "Integer"@,
        DataTypeView::Float => "Float"@,
        DataTypeView::String => "String"@,
        DataTypeView::Boolean => "Boolean"@,
        DataTypeView::Void => "Void"@,
        DataTypeView::Undefined => "Undefined"@,
        DataTypeView::Array(element, size) => "Array("@ + type_debug(*element) + ", "@ + decimal(
            size,
        ) + ")"@,
        DataTypeView::Tuple(slots) => "Tuple(["@ + types_debug(slots, slots.len() as int) + "])"@,
        DataTypeView::Identifier(name) => "Identifier(\""@ + name + "\")"@,
    }
}

/// A type that may be absent, with its name.
pub open spec fn optional_type_debug(t: Option<DataTypeView>) -> Seq<char> {
    match t {
        Some(t) => "Some("@ + type_debug(t) + ")"@,
        None => "None"@,
    }
}

/// The first `n` parameters of a function, each as a pair of its name and its type.
pub open spec fn parameters_debug(
    names: Seq<Seq<char>>,
    types: Seq<DataTypeView>,
    n: int,
) -> Seq<char>
    decreases n,
{
    if n <= 0 || n > names.len() || n > types.len() {
        Seq::empty()
    } else if n == 1 {
        "(\""@ + names[0] + "\", "@ + type_debug(types[0]) + ")"@
    } else {
        parameters_debug(names, types, n - 1) + ", (\""@ + names[n - 1] + "\", "@ + type_debug(
            types[n - 1],
        ) + ")"@
    }
}

/// The smaller of two lengths.
pub open spec fn shorter(a: int, b: int) -> int {
    if a <= b {
        a
    } else {
        b
    }
}

/// What a symbol is, in words: a variable with its type and whether it has a value,
/// or `no defined` where it has no type; a function with its return type and its
/// parameters, as many as have both a name and a type.
pub open spec fn symbol_kind_text(kind: SymbolKindView) -> Seq<char> {
    match kind {
        SymbolKindView::Variable { data_type, assigned } => match data_type {
            Some(t) => type_debug(t) + " - Assigned: "@ + (if assigned {
                "true"@
            } else {
                "false"@
            }),
            None => "no defined"@,
        },
        SymbolKindView::Function { data_type, parameters, param_types } => "Function: "@
            + optional_type_debug(data_type) + " with parameters ["@ + parameters_debug(
            parameters,
            param_types,
            shorter(parameters.len() as int, param_types.len() as int),
        ) + "]"@,
    }
}

/// The types of a list with their names, separated by a comma and a space.
pub fn types_debug_text(types: &Vec<DataType>) -> (r: String)
    ensures
        r@ == types_debug(type_views(types@), types.len() as int),
    decreases types, 1int,
{
    let ghost views = type_views(types@);
    let mut out = String::new();
    let mut i: usize = 0;
    while i < types.len()
        invariant
            i <= types.len(),
            views == type_views(types@),
            out@ == types_debug(views, i as int),
        decreases types.len() - i,
    {
        proof {
            vstd::std_specs::vec::axiom_vec_index_decreases(*types, i as int);
            assert(views[i as int] == types@[i as int]@);
        }
        if i > 0 {
            out.append(", ");
        }
        out.append(type_debug_text(&types[i]).as_str());
        proof {
            if i == 0 {
                assert(out@ =~= type_debug(views[0]));
            }
        }
        i += 1;
    }
    out
}

/// A type with its name.
pub fn type_debug_text(t: &DataType) -> (r: String)
    ensures
        r@ == type_debug(t@),
    decreases t, 0int,
{
    match t {
        DataType::Integer => String::from_str("Integer"),
        DataType::Float => String::from_str("Float"),
        DataType::String => String::from_str("String"),
        DataType::Boolean => String::from_str("Boolean"),
        DataType::Void => String::from_str("Void"),
        DataType::Undefined => String::from_str("Undefined"),
        DataType::Array(element, size) => {
            let mut out = String::from_str("Array(");
            out.append(type_debug_text(element).as_str());
            out.append(", ");
            out.append(decimal_text(*size).as_str());
            out.append(")");
            out
        },
        DataType::Tuple(slots) => {
            let mut out = String::from_str("Tuple([");
            out.append(types_debug_text(slots).as_str());
            out.append("])");
            assert(t@->Tuple_0 =~= type_views(slots@));
            out
        },
        DataType::Identifier(name) => {
            let mut out = String::from_str("Identifier(\"");
            out.append(name.as_str());
            out.append("\")");
            out
        },
    }
}

impl SymbolKind {
    /// What the symbol is, in words.
    pub fn text(&self) -> (r: String)
        ensures
            r@ == symbol_kind_text(self@),
    {
        match self {
            SymbolKind::Variable { data_type, assigned } => match data_type {
                Some(t) => {
                    let mut out = type_debug_text(t);
                    out.append(" - Assigned: ");
                    if *assigned {
                        out.append("true");
                    } else {
                        out.append("false");
                    }
                    out
                },
                None => String::from_str("no defined"),
            },
            SymbolKind::Function { data_type, parameters, param_types } => {
                let mut out = String::from_str("Function: ");
                match data_type {
                    Some(t) => {
                        out.append("Some(");
                        out.append(type_debug_text(t).as_str());
                        out.append(")");
                    },
                    None => {
                        out.append("None");
                    },
                }
                out.append(" with parameters [");
                let ghost head = out@;
                let ghost names = name_views(parameters@);
                let ghost types = type_views(param_types@);
                let mut list = String::new();
                let mut i: usize = 0;
                while i < parameters.len() && i < param_types.len()
                    invariant
                        i <= parameters.len(),
                        i <= param_types.len(),
                        names == name_views(parameters@),
                        types == type_views(param_types@),
                        list@ == parameters_debug(names, types, i as int),
                    decreases parameters.len() - i,
                {
                    assert(names[i as int] == parameters@[i as int]@);
                    assert(types[i as int] == param_types@[i as int]@);
                    if i > 0 {
                        list.append(", (\"");
                    } else {
                        list.append("(\"");
                    }
                    list.append(parameters[i].as_str());
                    list.append("\", ");
                    list.append(type_debug_text(&param_types[i]).as_str());
                    list.append(")");
                    proof {
                        if i == 0 {
                            assert(list@ =~= "(\""@ + names[0] + "\", "@ + type_debug(types[0])
                                + ")"@);
                        } else {
                            assert(list@ =~= parameters_debug(names, types, i as int) + ", (\""@
                                + names[i as int] + "\", "@ + type_debug(types[i as int]) + ")"@);
                        }
                    }
                    i += 1;
                }
                out.append(list.as_str());
                out.append("]");
                out
            },
        }
    }
}


/// What is said of a lexical error of a kind.
pub open spec fn lexical_message(kind: LexErrorKind) -> Seq<char> {
    match kind {
        LexErrorKind::UnclosedString => "Unclosed string"@,
        LexErrorKind::UnclosedComment => "Unclosed comment block"@,
        LexErrorKind::UnexpectedCharacter => "Unexpected character"@,
        LexErrorKind::InvalidNumber => "Invalid number format"@,
    }
}

/// The line that reports a lexical error.
pub open spec fn lexical_error_text(e: LexError) -> Seq<char> {
    "Error: "@ + lexical_message(e.kind) + " at line: "@ + decimal_digits(e.line as nat)
        + ", col: "@ + decimal_digits(e.col as nat)
}

/// What is said of a syntax error of a kind that the parser itself finds.
pub open spec fn syntax_message(kind: SyntaxErrorKind) -> Seq<char> {
    match kind {
        SyntaxErrorKind::Lexical(_) => "Lexical error"@,
        SyntaxErrorKind::ExpectedSemicolon => "Expected semicolon"@,
        SyntaxErrorKind::ExpectedEqual => "Expected '='"@,
        SyntaxErrorKind::ExpectedIdentifier => "Expected identifier"@,
        SyntaxErrorKind::ExpectedType => "Expected data type"@,
        SyntaxErrorKind::ExpectedReturnType => "Expected '-> type'"@,
        SyntaxErrorKind::ExpectedArraySize => "Expected array size"@,
        SyntaxErrorKind::ExpectedLeftParen => "Expected '('"@,
        SyntaxErrorKind::ExpectedRightParen => "Expected ')'"@,
        SyntaxErrorKind::ExpectedRightBracket => "Expected ']'"@,
        SyntaxErrorKind::ExpectedLeftBrace => "Expected '{'"@,
        SyntaxErrorKind::ExpectedRightBrace => "Expected '}'"@,
        SyntaxErrorKind::ExpectedCommaOrRightParen => "Expected ',' or ')'"@,
        SyntaxErrorKind::ExpectedCommaOrRightBracket => "Expected ',' or ']'"@,
        SyntaxErrorKind::ExpectedIn => "Expected 'in'"@,
        SyntaxErrorKind::ExpectedExpression => "Expected an expression"@,
        SyntaxErrorKind::ExpectedIndexOrMember => "Expected tuple index or member"@,
        SyntaxErrorKind::BadCall => "Bad function call"@,
        SyntaxErrorKind::ConstIncomplete =>
            "Const declarations must include both a type annotation and an initial value"@,
        SyntaxErrorKind::TooManyScopes => "Too many scopes"@,
        SyntaxErrorKind::Stalled => "No progress"@,
    }
}

/// The line that reports a syntax error; for a lexical error, the line that reports
/// that.
pub open spec fn syntax_error_text(e: SyntaxError) -> Seq<char> {
    match e.kind {
        SyntaxErrorKind::Lexical(kind) => lexical_error_text(
            LexError { kind, line: e.line, col: e.col },
        ),
        _ => syntax_message(e.kind) + " at line "@ + decimal_digits(e.line as nat) + " col "@
            + decimal_digits(e.col as nat),
    }
}

impl LexError {
    /// The line that reports the error.
    pub fn message(&self) -> (r: String)
        ensures
            r@ == lexical_error_text(*self),
    {
        let mut out = String::from_str("Error: ");
        out.append(
            match self.kind {
                LexErrorKind::UnclosedString => "Unclosed string",
                LexErrorKind::UnclosedComment => "Unclosed comment block",
                LexErrorKind::UnexpectedCharacter => "Unexpected character",
                LexErrorKind::InvalidNumber => "Invalid number format",
            },
        );
        out.append(" at line: ");
        out.append(digits_text(self.line as u64).as_str());
        out.append(", col: ");
        out.append(digits_text(self.col as u64).as_str());
        out
    }
}

impl SyntaxError {
    /// The line that reports the error.
    pub fn message(&self) -> (r: String)
        ensures
            r@ == syntax_error_text(*self),
    {
        let text = match self.kind {
            SyntaxErrorKind::Lexical(kind) => {
                let inner = LexError { kind, line: self.line, col: self.col };
                return inner.message();
            },
            SyntaxErrorKind::ExpectedSemicolon => "Expected semicolon",
            SyntaxErrorKind::ExpectedEqual => "Expected '='",
            SyntaxErrorKind::ExpectedIdentifier => "Expected identifier",
            SyntaxErrorKind::ExpectedType => "Expected data type",
            SyntaxErrorKind::ExpectedReturnType => "Expected '-> type'",
            SyntaxErrorKind::ExpectedArraySize => "Expected array size",
            SyntaxErrorKind::ExpectedLeftParen => "Expected '('",
            SyntaxErrorKind::ExpectedRightParen => "Expected ')'",
            SyntaxErrorKind::ExpectedRightBracket => "Expected ']'",
            SyntaxErrorKind::ExpectedLeftBrace => "Expected '{'",
            SyntaxErrorKind::ExpectedRightBrace => "Expected '}'",
            SyntaxErrorKind::ExpectedCommaOrRightParen => "Expected ',' or ')'",
            SyntaxErrorKind::ExpectedCommaOrRightBracket => "Expected ',' or ']'",
            SyntaxErrorKind::ExpectedIn => "Expected 'in'",
            SyntaxErrorKind::ExpectedExpression => "Expected an expression",
            SyntaxErrorKind::ExpectedIndexOrMember => "Expected tuple index or member",
            SyntaxErrorKind::BadCall => "Bad function call",
            SyntaxErrorKind::ConstIncomplete =>
                "Const declarations must include both a type annotation and an initial value",
            SyntaxErrorKind::TooManyScopes => "Too many scopes",
            SyntaxErrorKind::Stalled => "No progress",
        };
        let mut out = String::from_str(text);
        out.append(" at line ");
        out.append(digits_text(self.line as u64).as_str());
        out.append(" col ");
        out.append(digits_text(self.col as u64).as_str());
        out
    }
}

} // verus!
