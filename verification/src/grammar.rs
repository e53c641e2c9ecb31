use vstd::prelude::*;
use crate::lexer::{
    col_at, digits_end, digits_value, line_at, scan, LexErrorKind, NumberView, Scan, TokenView,
};
use crate::sintax::{DataTypeView, ExpresionView, LiteralView, StatementView};
use crate::table::{SymbolKindView, SymbolView, TableView, UseType};

verus! {

/// Why the parser gave up.
#[derive(Debug, Clone, Copy, PartialEq, Eq, Structural)]
pub enum SyntaxErrorKind {
    /// The scanner gave up.
    Lexical(LexErrorKind),
    ExpectedSemicolon,
    ExpectedEqual,
    ExpectedIdentifier,
    /// A type was to follow: after a colon, an arrow, or inside an array or tuple type.
    ExpectedType,
    /// A function's parameter list was not followed by `->` and a type.
    ExpectedReturnType,
    /// An array type lacks its length.
    ExpectedArraySize,
    ExpectedLeftParen,
    ExpectedRightParen,
    ExpectedRightBracket,
    ExpectedLeftBrace,
    ExpectedRightBrace,
    ExpectedCommaOrRightParen,
    ExpectedCommaOrRightBracket,
    ExpectedIn,
    /// A token that starts no expression.
    ExpectedExpression,
    /// After a dot: neither a field name nor the position of a tuple's slot.
    ExpectedIndexOrMember,
    /// The arguments of a call are neither separated by a comma nor closed.
    BadCall,
    /// A `const` without a type annotation or without an initial value.
    ConstIncomplete,
    /// More blocks than scope ids.
    TooManyScopes,
    /// A step of the grammar that took no input where it had to. The grammar guards
    /// its repetitions with it; the parser never returns it.
    Stalled,
}

/// A syntax error and the line and column where the parser stood when it found it.
#[derive(Debug, Clone, Copy, PartialEq, Eq, Structural)]
pub struct SyntaxError {
    pub kind: SyntaxErrorKind,
    pub line: usize,
    pub col: usize,
}

/// The error of kind `kind` found at place `at` of `source`.
pub open spec fn error_at(source: Seq<char>, kind: SyntaxErrorKind, at: int) -> SyntaxError {
    SyntaxError { kind, line: line_at(source, at) as usize, col: col_at(source, at) as usize }
}

/// What parsing goes on from: the text, the place of the cursor, the symbol table and
/// the last scope id that was given out.
pub struct ParserView {
    pub source: Seq<char>,
    pub position: int,
    pub table: TableView,
    pub scope_id: int,
}

impl ParserView {
    /// The same state with the cursor at `position`.
    pub open spec fn at(self, position: int) -> ParserView {
        ParserView { position, ..self }
    }

    /// The same state with another table.
    pub open spec fn with_table(self, table: TableView) -> ParserView {
        ParserView { table, ..self }
    }
}

/// The outcome of a step of the grammar: what was parsed and the state after it, or
/// the kind of the error and the place where it was found.
pub enum Parsed<T> {
    Done { value: T, state: ParserView },
    Fail { kind: SyntaxErrorKind, at: int },
}

/// The outcome `r` of a step that started at `before`, which must not have moved the
/// cursor back nor out of the text.
pub open spec fn forward<T>(before: ParserView, r: Parsed<T>) -> Parsed<T> {
    match r {
        Parsed::Done { value, state } => {
            if state.source == before.source && before.position <= state.position
                <= state.source.len() {
                r
            } else {
                Parsed::Fail { kind: SyntaxErrorKind::Stalled, at: before.position }
            }
        },
        Parsed::Fail { kind, at } => r,
    }
}

/// The outcome `r` of a step that started at `before`, which must have moved the
/// cursor on.
pub open spec fn onward<T>(before: ParserView, r: Parsed<T>) -> Parsed<T> {
    match r {
        Parsed::Done { value, state } => {
            if state.source == before.source && before.position < state.position
                <= state.source.len() {
                r
            } else {
                Parsed::Fail { kind: SyntaxErrorKind::Stalled, at: before.position }
            }
        },
        Parsed::Fail { kind, at } => r,
    }
}

/// Reads the next token and moves after it.
pub open spec fn take(s: ParserView) -> Parsed<TokenView> {
    match scan(s.source, s.position) {
        Scan::Token { token, next, invalid } => {
            if s.position <= next <= s.source.len() && (token == TokenView::EOF || s.position
                < next) {
                Parsed::Done { value: token, state: s.at(next) }
            } else {
                Parsed::Fail { kind: SyntaxErrorKind::Stalled, at: s.position }
            }
        },
        Scan::Fail { kind, at } => Parsed::Fail { kind: SyntaxErrorKind::Lexical(kind), at },
    }
}

/// Reads the next token and stays.
pub open spec fn peek(s: ParserView) -> Parsed<TokenView> {
    match take(s) {
        Parsed::Done { value, state } => Parsed::Done { value, state: s },
        Parsed::Fail { kind, at } => Parsed::Fail { kind, at },
    }
}

/// Reads the next token, which must be `token`; the error is found after the token
/// that stands in its place.
pub open spec fn expect(s: ParserView, token: TokenView, kind: SyntaxErrorKind) -> Parsed<()> {
    match take(s) {
        Parsed::Done { value, state } => {
            if value == token {
                Parsed::Done { value: (), state }
            } else {
                Parsed::Fail { kind, at: state.position }
            }
        },
        Parsed::Fail { kind, at } => Parsed::Fail { kind, at },
    }
}

/// The level of a binary operator, from 1 for the one that binds tightest, `**`, to
/// 6 for the one that binds loosest, `||`; 0 for any other token.
pub open spec fn operator_level(token: TokenView) -> int {
    if token == TokenView::Operator("**"@) {
        1
    } else if token == TokenView::Operator("*"@) || token == TokenView::Operator("/"@) || token
        == TokenView::Operator("%"@) {
        2
    } else if token == TokenView::Operator("+"@) || token == TokenView::Operator("-"@) {
        3
    } else if token == TokenView::LogicalOperator("<"@) || token == TokenView::LogicalOperator(
        ">"@,
    ) || token == TokenView::LogicalOperator("<="@) || token == TokenView::LogicalOperator(">="@)
        || token == TokenView::LogicalOperator("=="@) || token == TokenView::LogicalOperator(
        "!="@,
    ) {
        4
    } else if token == TokenView::LogicalOperator("&&"@) {
        5
    } else if token == TokenView::LogicalOperator("||"@) {
        6
    } else {
        0
    }
}

/// Whether a token is one of the two unary operators.
pub open spec fn is_unary_operator(token: TokenView) -> bool {
    token == TokenView::Operator("-"@) || token == TokenView::Operator("!"@)
}

/// Whether a token opens a group.
pub open spec fn is_opener(token: TokenView) -> bool {
    token == TokenView::LeftParen || token == TokenView::LeftBracket || token
        == TokenView::LeftBrace
}

/// Whether a token closes a group.
pub open spec fn is_closer(token: TokenView) -> bool {
    token == TokenView::RightParen || token == TokenView::RightBracket || token
        == TokenView::RightBrace
}

/// Whether a comma stands outside any group before the group that was open at `s` is
/// closed, or the text ends. `depth` counts the groups opened since. The state that
/// comes back is `s`.
#[verifier::opaque]
pub open spec fn tuple_ahead(s: ParserView, depth: int) -> Parsed<bool>
    decreases s.source.len() - s.position,
{
    match take(s) {
        Parsed::Done { value, state } => {
            if value == TokenView::EOF {
                Parsed::Done { value: false, state: s }
            } else if value == TokenView::Comma && depth <= 0 {
                Parsed::Done { value: true, state: s }
            } else if is_closer(value) {
                if depth <= 0 {
                    Parsed::Done { value: false, state: s }
                } else {
                    match tuple_ahead(state, depth - 1) {
                        Parsed::Done { value, state } => Parsed::Done { value, state: s },
                        Parsed::Fail { kind, at } => Parsed::Fail { kind, at },
                    }
                }
            } else if is_opener(value) {
                match tuple_ahead(state, depth + 1) {
                    Parsed::Done { value, state } => Parsed::Done { value, state: s },
                    Parsed::Fail { kind, at } => Parsed::Fail { kind, at },
                }
            } else {
                match tuple_ahead(state, depth) {
                    Parsed::Done { value, state } => Parsed::Done { value, state: s },
                    Parsed::Fail { kind, at } => Parsed::Fail { kind, at },
                }
            }
        },
        Parsed::Fail { kind, at } => Parsed::Fail { kind, at },
    }
}

/// The two positions that the text of a float literal writes after a dot: digits, a
/// point, digits, and nothing else, each number small enough for a position.
pub open spec fn float_indices(text: Seq<char>) -> Option<(int, int)> {
    let point = digits_end(text, 0);
    let first = digits_value(text.subrange(0, point)) as int;
    let second = digits_value(text.subrange(point + 1, text.len() as int)) as int;
    if 0 < point && point + 1 < text.len() && text[point] == '.' && digits_end(text, point + 1)
        == text.len() && first <= usize::MAX && second <= usize::MAX {
        Some((first, second))
    } else {
        None
    }
}

/// A type: one of the four type words, an array type `[T; N]`, or a tuple type
/// `(T1, T2, ...)`.
#[verifier::opaque]
pub open spec fn p_unit_type(s: ParserView) -> Parsed<DataTypeView>
    decreases s.source.len() - s.position, 0int,
{
    match take(s) {
        Parsed::Done { value: token, state: s1 } => match token {
            TokenView::TypeInt => Parsed::Done { value: DataTypeView::Integer, state: s1 },
            TokenView::TypeFloat => Parsed::Done { value: DataTypeView::Float, state: s1 },
            TokenView::TypeString => Parsed::Done { value: DataTypeView::String, state: s1 },
            TokenView::TypeBool => Parsed::Done { value: DataTypeView::Boolean, state: s1 },
            TokenView::LeftBracket => match forward(s1, p_unit_type(s1)) {
                Parsed::Done { value: element, state: s2 } => match expect(
                    s2,
                    TokenView::Semicolon,
                    SyntaxErrorKind::ExpectedSemicolon,
                ) {
                    Parsed::Done { value: _, state: s3 } => match take(s3) {
                        Parsed::Done { value: size, state: s4 } => match size {
                            TokenView::Number(NumberView::Integer(n)) => match expect(
                                s4,
                                TokenView::RightBracket,
                                SyntaxErrorKind::ExpectedRightBracket,
                            ) {
                                Parsed::Done { value: _, state: s5 } => Parsed::Done {
                                    value: DataTypeView::Array(Box::new(element), n),
                                    state: s5,
                                },
                                Parsed::Fail { kind, at } => Parsed::Fail { kind, at },
                            },
                            _ => Parsed::Fail {
                                kind: SyntaxErrorKind::ExpectedArraySize,
                                at: s4.position,
                            },
                        },
                        Parsed::Fail { kind, at } => Parsed::Fail { kind, at },
                    },
                    Parsed::Fail { kind, at } => Parsed::Fail { kind, at },
                },
                Parsed::Fail { kind, at } => Parsed::Fail { kind, at },
            },
            TokenView::LeftParen => p_type_items(s1, Seq::empty()),
            _ => Parsed::Fail { kind: SyntaxErrorKind::ExpectedType, at: s1.position },
        },
        Parsed::Fail { kind, at } => Parsed::Fail { kind, at },
    }
}

/// The rest of a tuple type, after the slots `slots`: types, each of which a comma
/// may follow, up to the closing parenthesis.
#[verifier::opaque]
pub open spec fn p_type_items(s: ParserView, slots: Seq<DataTypeView>) -> Parsed<DataTypeView>
    decreases s.source.len() - s.position, 1int,
{
    match peek(s) {
        Parsed::Done { value: token, state: _ } => {
            if token == TokenView::RightParen {
                match take(s) {
                    Parsed::Done { value: _, state: s1 } => Parsed::Done {
                        value: DataTypeView::Tuple(slots),
                        state: s1,
                    },
                    Parsed::Fail { kind, at } => Parsed::Fail { kind, at },
                }
            } else {
                match onward(s, p_unit_type(s)) {
                    Parsed::Done { value: slot, state: s1 } => match peek(s1) {
                        Parsed::Done { value: separator, state: _ } => {
                            if separator == TokenView::Comma {
                                match take(s1) {
                                    Parsed::Done { value: _, state: s2 } => p_type_items(
                                        s2,
                                        slots.push(slot),
                                    ),
                                    Parsed::Fail { kind, at } => Parsed::Fail { kind, at },
                                }
                            } else {
                                p_type_items(s1, slots.push(slot))
                            }
                        },
                        Parsed::Fail { kind, at } => Parsed::Fail { kind, at },
                    },
                    Parsed::Fail { kind, at } => Parsed::Fail { kind, at },
                }
            }
        },
        Parsed::Fail { kind, at } => Parsed::Fail { kind, at },
    }
}

/// A type annotation, if one stands here: a colon and a type.
pub open spec fn p_type(s: ParserView) -> Parsed<Option<DataTypeView>> {
    match peek(s) {
        Parsed::Done { value: token, state: _ } => {
            if token == TokenView::Colon {
                match take(s) {
                    Parsed::Done { value: _, state: s1 } => match forward(s1, p_unit_type(s1)) {
                        Parsed::Done { value, state } => Parsed::Done { value: Some(value), state },
                        Parsed::Fail { kind, at } => Parsed::Fail { kind, at },
                    },
                    Parsed::Fail { kind, at } => Parsed::Fail { kind, at },
                }
            } else {
                Parsed::Done { value: None, state: s }
            }
        },
        Parsed::Fail { kind, at } => Parsed::Fail { kind, at },
    }
}

/// A return type, if one stands here: an arrow and one of the four type words.
pub open spec fn p_return_type(s: ParserView) -> Parsed<Option<DataTypeView>> {
    match peek(s) {
        Parsed::Done { value: token, state: _ } => {
            if token == TokenView::ArrowType {
                match take(s) {
                    Parsed::Done { value: _, state: s1 } => match take(s1) {
                        Parsed::Done { value: word, state: s2 } => match word {
                            TokenView::TypeInt => Parsed::Done {
                                value: Some(DataTypeView::Integer),
                                state: s2,
                            },
                            TokenView::TypeFloat => Parsed::Done {
                                value: Some(DataTypeView::Float),
                                state: s2,
                            },
                            TokenView::TypeString => Parsed::Done {
                                value: Some(DataTypeView::String),
                                state: s2,
                            },
                            TokenView::TypeBool => Parsed::Done {
                                value: Some(DataTypeView::Boolean),
                                state: s2,
                            },
                            _ => Parsed::Fail {
                                kind: SyntaxErrorKind::ExpectedType,
                                at: s2.position,
                            },
                        },
                        Parsed::Fail { kind, at } => Parsed::Fail { kind, at },
                    },
                    Parsed::Fail { kind, at } => Parsed::Fail { kind, at },
                }
            } else {
                Parsed::Done { value: None, state: s }
            }
        },
        Parsed::Fail { kind, at } => Parsed::Fail { kind, at },
    }
}

/// The names and the types of a function's parameters.
pub struct ParametersView {
    pub names: Seq<Seq<char>>,
    pub types: Seq<DataTypeView>,
}

/// The rest of a parameter list, after the parameters `found`: a name with its type
/// annotation, then a comma and more, or the closing parenthesis.
#[verifier::opaque]
pub open spec fn p_params(s: ParserView, found: ParametersView) -> Parsed<ParametersView>
    decreases s.source.len() - s.position,
{
    match take(s) {
        Parsed::Done { value: name, state: s1 } => match name {
            TokenView::Identifier(id) => match forward(s1, p_type(s1)) {
                Parsed::Done { value: annotation, state: s2 } => match annotation {
                    Some(t) => {
                        let all = ParametersView {
                            names: found.names.push(id),
                            types: found.types.push(t),
                        };
                        match peek(s2) {
                            Parsed::Done { value: separator, state: _ } => {
                                if separator == TokenView::Comma {
                                    match take(s2) {
                                        Parsed::Done { value: _, state: s3 } => p_params(s3, all),
                                        Parsed::Fail { kind, at } => Parsed::Fail { kind, at },
                                    }
                                } else if separator == TokenView::RightParen {
                                    match take(s2) {
                                        Parsed::Done { value: _, state: s3 } => Parsed::Done {
                                            value: all,
                                            state: s3,
                                        },
                                        Parsed::Fail { kind, at } => Parsed::Fail { kind, at },
                                    }
                                } else {
                                    Parsed::Fail {
                                        kind: SyntaxErrorKind::ExpectedCommaOrRightParen,
                                        at: s2.position,
                                    }
                                }
                            },
                            Parsed::Fail { kind, at } => Parsed::Fail { kind, at },
                        }
                    },
                    None => Parsed::Fail { kind: SyntaxErrorKind::ExpectedType, at: s2.position },
                },
                Parsed::Fail { kind, at } => Parsed::Fail { kind, at },
            },
            _ => Parsed::Fail { kind: SyntaxErrorKind::ExpectedIdentifier, at: s1.position },
        },
        Parsed::Fail { kind, at } => Parsed::Fail { kind, at },
    }
}

/// The symbol that a declaration of the variable `id` on line `line` puts into the
/// scope `scope`.
pub open spec fn variable_symbol(
    id: Seq<char>,
    line: int,
    scope: u32,
    data_type: Option<DataTypeView>,
) -> SymbolView {
    SymbolView {
        value: id,
        occurrence: line,
        scope: scope as int,
        use_type: UseType::Declaration,
        kind: SymbolKindView::Variable { data_type, assigned: false },
    }
}

/// The symbol that a declaration of the function `id` on line `line` puts into the
/// scope `scope`.
pub open spec fn function_symbol(
    id: Seq<char>,
    line: int,
    scope: u32,
    data_type: Option<DataTypeView>,
    parameters: ParametersView,
) -> SymbolView {
    SymbolView {
        value: id,
        occurrence: line,
        scope: scope as int,
        use_type: UseType::Declaration,
        kind: SymbolKindView::Function {
            data_type,
            parameters: parameters.names,
            param_types: parameters.types,
        },
    }
}

/// The rank of a level of binary operators among the steps of the grammar.
pub open spec fn level_rank(level: int) -> int {
    if level <= 0 {
        2
    } else {
        2 + 2 * level
    }
}

/// A primary expression: a literal, which may start a range; a name, which may start
/// a call or a chain of accesses; an array literal; a tuple, or an expression in
/// parentheses.
#[verifier::opaque]
pub open spec fn p_literal(s: ParserView) -> Parsed<ExpresionView>
    decreases s.source.len() - s.position, 0int,
{
    match take(s) {
        Parsed::Done { value: token, state: s1 } => match token {
            TokenView::Number(number) => {
                let start = ExpresionView::Literal(LiteralView::Number(number));
                match peek(s1) {
                    Parsed::Done { value: next, state: _ } => {
                        if next == TokenView::Range || next == TokenView::RangeInclusive {
                            match take(s1) {
                                Parsed::Done { value: _, state: s2 } => match forward(
                                    s2,
                                    p_expression(s2),
                                ) {
                                    Parsed::Done { value: end, state: s3 } => Parsed::Done {
                                        value: ExpresionView::Range(
                                            Box::new(start),
                                            Box::new(end),
                                            next == TokenView::RangeInclusive,
                                        ),
                                        state: s3,
                                    },
                                    Parsed::Fail { kind, at } => Parsed::Fail { kind, at },
                                },
                                Parsed::Fail { kind, at } => Parsed::Fail { kind, at },
                            }
                        } else {
                            Parsed::Done { value: start, state: s1 }
                        }
                    },
                    Parsed::Fail { kind, at } => Parsed::Fail { kind, at },
                }
            },
            TokenView::String(text) => Parsed::Done {
                value: ExpresionView::Literal(LiteralView::String(text)),
                state: s1,
            },
            TokenView::True => Parsed::Done {
                value: ExpresionView::Literal(LiteralView::Boolean(true)),
                state: s1,
            },
            TokenView::False => Parsed::Done {
                value: ExpresionView::Literal(LiteralView::Boolean(false)),
                state: s1,
            },
            TokenView::Identifier(id) => match peek(s1) {
                Parsed::Done { value: next, state: _ } => {
                    if next == TokenView::LeftParen {
                        p_fncall(id, s1)
                    } else if next == TokenView::Dot || next == TokenView::LeftBracket {
                        p_index_chain(ExpresionView::Identifier(id), s1)
                    } else {
                        Parsed::Done { value: ExpresionView::Identifier(id), state: s1 }
                    }
                },
                Parsed::Fail { kind, at } => Parsed::Fail { kind, at },
            },
            TokenView::LeftBracket => p_array(s1),
            TokenView::LeftParen => match tuple_ahead(s1, 0) {
                Parsed::Done { value: is_tuple, state: _ } => {
                    if is_tuple {
                        p_tuple(s1)
                    } else {
                        match forward(s1, p_expression(s1)) {
                            Parsed::Done { value: inner, state: s2 } => match expect(
                                s2,
                                TokenView::RightParen,
                                SyntaxErrorKind::ExpectedRightParen,
                            ) {
                                Parsed::Done { value: _, state: s3 } => Parsed::Done {
                                    value: inner,
                                    state: s3,
                                },
                                Parsed::Fail { kind, at } => Parsed::Fail { kind, at },
                            },
                            Parsed::Fail { kind, at } => Parsed::Fail { kind, at },
                        }
                    }
                },
                Parsed::Fail { kind, at } => Parsed::Fail { kind, at },
            },
            _ => Parsed::Fail { kind: SyntaxErrorKind::ExpectedExpression, at: s1.position },
        },
        Parsed::Fail { kind, at } => Parsed::Fail { kind, at },
    }
}

/// The rest of an array literal, after the opening bracket: expressions separated
/// by commas, up to the closing bracket.
#[verifier::opaque]
pub open spec fn p_array(s: ParserView) -> Parsed<ExpresionView>
    decreases s.source.len() - s.position, 17int,
{
    match p_items(
        s,
        TokenView::RightBracket,
        true,
        SyntaxErrorKind::ExpectedCommaOrRightBracket,
        Seq::empty(),
    ) {
        Parsed::Done { value: items, state } => Parsed::Done {
            value: ExpresionView::Array(items),
            state,
        },
        Parsed::Fail { kind, at } => Parsed::Fail { kind, at },
    }
}

/// The rest of a tuple, after the opening parenthesis: expressions separated by
/// commas, up to the closing parenthesis.
#[verifier::opaque]
pub open spec fn p_tuple(s: ParserView) -> Parsed<ExpresionView>
    decreases s.source.len() - s.position, 17int,
{
    match p_items(
        s,
        TokenView::RightParen,
        true,
        SyntaxErrorKind::ExpectedCommaOrRightParen,
        Seq::empty(),
    ) {
        Parsed::Done { value: items, state } => Parsed::Done {
            value: ExpresionView::Tuple(items),
            state,
        },
        Parsed::Fail { kind, at } => Parsed::Fail { kind, at },
    }
}

/// The call of `name`, whose opening parenthesis stands here: the arguments,
/// separated by commas, and the closing parenthesis.
#[verifier::opaque]
pub open spec fn p_fncall(name: Seq<char>, s: ParserView) -> Parsed<ExpresionView>
    decreases s.source.len() - s.position, 17int,
{
    match take(s) {
        Parsed::Done { value: _, state: s1 } => match peek(s1) {
            Parsed::Done { value: next, state: _ } => {
                if next == TokenView::RightParen {
                    match take(s1) {
                        Parsed::Done { value: _, state: s2 } => Parsed::Done {
                            value: ExpresionView::FnCall(name, Seq::empty()),
                            state: s2,
                        },
                        Parsed::Fail { kind, at } => Parsed::Fail { kind, at },
                    }
                } else {
                    match p_items(
                        s1,
                        TokenView::RightParen,
                        false,
                        SyntaxErrorKind::BadCall,
                        Seq::empty(),
                    ) {
                        Parsed::Done { value: arguments, state: s2 } => Parsed::Done {
                            value: ExpresionView::FnCall(name, arguments),
                            state: s2,
                        },
                        Parsed::Fail { kind, at } => Parsed::Fail { kind, at },
                    }
                }
            },
            Parsed::Fail { kind, at } => Parsed::Fail { kind, at },
        },
        Parsed::Fail { kind, at } => Parsed::Fail { kind, at },
    }
}

/// The rest of a list of expressions, after the items `found`: an expression, then a
/// comma and more, or `closer`. Where `trailing` is set, `closer` may also stand in
/// the place of an expression. Any other token after an expression is the error
/// `otherwise`, found before that token.
#[verifier::opaque]
pub open spec fn p_items(
    s: ParserView,
    closer: TokenView,
    trailing: bool,
    otherwise: SyntaxErrorKind,
    found: Seq<ExpresionView>,
) -> Parsed<Seq<ExpresionView>>
    decreases s.source.len() - s.position, 16int,
{
    match peek(s) {
        Parsed::Done { value: token, state: _ } => {
            if trailing && token == closer {
                match take(s) {
                    Parsed::Done { value: _, state: s1 } => Parsed::Done { value: found, state: s1 },
                    Parsed::Fail { kind, at } => Parsed::Fail { kind, at },
                }
            } else {
                match forward(s, p_expression(s)) {
                    Parsed::Done { value: item, state: s1 } => match peek(s1) {
                        Parsed::Done { value: separator, state: _ } => {
                            if separator == TokenView::Comma {
                                match take(s1) {
                                    Parsed::Done { value: _, state: s2 } => p_items(
                                        s2,
                                        closer,
                                        trailing,
                                        otherwise,
                                        found.push(item),
                                    ),
                                    Parsed::Fail { kind, at } => Parsed::Fail { kind, at },
                                }
                            } else if separator == closer {
                                match take(s1) {
                                    Parsed::Done { value: _, state: s2 } => Parsed::Done {
                                        value: found.push(item),
                                        state: s2,
                                    },
                                    Parsed::Fail { kind, at } => Parsed::Fail { kind, at },
                                }
                            } else {
                                Parsed::Fail { kind: otherwise, at: s1.position }
                            }
                        },
                        Parsed::Fail { kind, at } => Parsed::Fail { kind, at },
                    },
                    Parsed::Fail { kind, at } => Parsed::Fail { kind, at },
                }
            }
        },
        Parsed::Fail { kind, at } => Parsed::Fail { kind, at },
    }
}

/// The accesses that follow `base`, applied to it from left to right: `.field`, `.N`,
/// `.N.M` and `[index]`.
#[verifier::opaque]
pub open spec fn p_index_chain(base: ExpresionView, s: ParserView) -> Parsed<ExpresionView>
    decreases s.source.len() - s.position, 16int,
{
    match peek(s) {
        Parsed::Done { value: token, state: _ } => {
            if token == TokenView::Dot {
                match take(s) {
                    Parsed::Done { value: _, state: s1 } => match take(s1) {
                        Parsed::Done { value: selector, state: s2 } => match selector {
                            TokenView::Number(NumberView::Integer(slot)) => {
                                if 0 <= slot {
                                    p_index_chain(
                                        ExpresionView::TupleIndex(Box::new(base), slot),
                                        s2,
                                    )
                                } else {
                                    Parsed::Fail {
                                        kind: SyntaxErrorKind::ExpectedIndexOrMember,
                                        at: s2.position,
                                    }
                                }
                            },
                            TokenView::Identifier(field) => p_index_chain(
                                ExpresionView::Member(Box::new(base), field),
                                s2,
                            ),
                            TokenView::Number(NumberView::Float(text)) => match float_indices(text) {
                                Some(slots) => p_index_chain(
                                    ExpresionView::TupleIndex(
                                        Box::new(ExpresionView::TupleIndex(Box::new(base), slots.0)),
                                        slots.1,
                                    ),
                                    s2,
                                ),
                                None => Parsed::Fail {
                                    kind: SyntaxErrorKind::ExpectedIndexOrMember,
                                    at: s2.position,
                                },
                            },
                            _ => Parsed::Fail {
                                kind: SyntaxErrorKind::ExpectedIndexOrMember,
                                at: s2.position,
                            },
                        },
                        Parsed::Fail { kind, at } => Parsed::Fail { kind, at },
                    },
                    Parsed::Fail { kind, at } => Parsed::Fail { kind, at },
                }
            } else if token == TokenView::LeftBracket {
                match take(s) {
                    Parsed::Done { value: _, state: s1 } => match forward(s1, p_expression(s1)) {
                        Parsed::Done { value: index, state: s2 } => match expect(
                            s2,
                            TokenView::RightBracket,
                            SyntaxErrorKind::ExpectedRightBracket,
                        ) {
                            Parsed::Done { value: _, state: s3 } => p_index_chain(
                                ExpresionView::Index(Box::new(base), Box::new(index)),
                                s3,
                            ),
                            Parsed::Fail { kind, at } => Parsed::Fail { kind, at },
                        },
                        Parsed::Fail { kind, at } => Parsed::Fail { kind, at },
                    },
                    Parsed::Fail { kind, at } => Parsed::Fail { kind, at },
                }
            } else {
                Parsed::Done { value: base, state: s }
            }
        },
        Parsed::Fail { kind, at } => Parsed::Fail { kind, at },
    }
}

/// A unary expression: `-` or `!` before a unary expression, or a primary expression.
#[verifier::opaque]
pub open spec fn p_unary(s: ParserView) -> Parsed<ExpresionView>
    decreases s.source.len() - s.position, 1int,
{
    match peek(s) {
        Parsed::Done { value: token, state: _ } => {
            if is_unary_operator(token) {
                match take(s) {
                    Parsed::Done { value: operator, state: s1 } => match forward(s1, p_unary(s1)) {
                        Parsed::Done { value: operand, state: s2 } => Parsed::Done {
                            value: ExpresionView::Unary(operator, Box::new(operand)),
                            state: s2,
                        },
                        Parsed::Fail { kind, at } => Parsed::Fail { kind, at },
                    },
                    Parsed::Fail { kind, at } => Parsed::Fail { kind, at },
                }
            } else {
                p_literal(s)
            }
        },
        Parsed::Fail { kind, at } => Parsed::Fail { kind, at },
    }
}

/// An expression of level `level`: operands of the next tighter level, joined from
/// left to right by the operators of this level. Level 0 is the unary expression.
#[verifier::opaque]
pub open spec fn p_level(level: int, s: ParserView) -> Parsed<ExpresionView>
    decreases s.source.len() - s.position, level_rank(level),
{
    if level <= 0 {
        p_unary(s)
    } else {
        match forward(s, p_level(level - 1, s)) {
            Parsed::Done { value: left, state: s1 } => p_level_rest(level, left, s1),
            Parsed::Fail { kind, at } => Parsed::Fail { kind, at },
        }
    }
}

/// The rest of an expression of level `level`, after the operand `left`.
#[verifier::opaque]
pub open spec fn p_level_rest(level: int, left: ExpresionView, s: ParserView) -> Parsed<
    ExpresionView,
>
    decreases s.source.len() - s.position, level_rank(level) - 1,
{
    match peek(s) {
        Parsed::Done { value: token, state: _ } => {
            if level >= 1 && operator_level(token) == level {
                match take(s) {
                    Parsed::Done { value: operator, state: s1 } => match forward(
                        s1,
                        p_level(level - 1, s1),
                    ) {
                        Parsed::Done { value: right, state: s2 } => p_level_rest(
                            level,
                            ExpresionView::Binary(Box::new(left), operator, Box::new(right)),
                            s2,
                        ),
                        Parsed::Fail { kind, at } => Parsed::Fail { kind, at },
                    },
                    Parsed::Fail { kind, at } => Parsed::Fail { kind, at },
                }
            } else {
                Parsed::Done { value: left, state: s }
            }
        },
        Parsed::Fail { kind, at } => Parsed::Fail { kind, at },
    }
}

/// An expression: the level that binds loosest.
#[verifier::opaque]
pub open spec fn p_expression(s: ParserView) -> Parsed<ExpresionView>
    decreases s.source.len() - s.position, 15int,
{
    p_level(6, s)
}

/// An initializer, if one stands here: `=` and an expression.
#[verifier::opaque]
pub open spec fn p_initializer(s: ParserView) -> Parsed<Option<ExpresionView>>
    decreases s.source.len() - s.position, 16int,
{
    match peek(s) {
        Parsed::Done { value: token, state: _ } => {
            if token == TokenView::Equal {
                match take(s) {
                    Parsed::Done { value: _, state: s1 } => match forward(s1, p_expression(s1)) {
                        Parsed::Done { value, state } => Parsed::Done { value: Some(value), state },
                        Parsed::Fail { kind, at } => Parsed::Fail { kind, at },
                    },
                    Parsed::Fail { kind, at } => Parsed::Fail { kind, at },
                }
            } else {
                Parsed::Done { value: None, state: s }
            }
        },
        Parsed::Fail { kind, at } => Parsed::Fail { kind, at },
    }
}

/// The semicolon that ends the statement `value`.
pub open spec fn p_end(s: ParserView, value: StatementView) -> Parsed<StatementView> {
    match expect(s, TokenView::Semicolon, SyntaxErrorKind::ExpectedSemicolon) {
        Parsed::Done { value: _, state } => Parsed::Done { value, state },
        Parsed::Fail { kind, at } => Parsed::Fail { kind, at },
    }
}

/// A declaration: `let` or `const`, a name, a type annotation and an initializer,
/// each of which `let` may lack, and a semicolon. The variable is put into the
/// innermost active scope, with the id of that scope and the line on which the
/// semicolon was to stand.
#[verifier::opaque]
pub open spec fn p_declaration(s: ParserView) -> Parsed<StatementView>
    decreases s.source.len() - s.position, 20int,
{
    match take(s) {
        Parsed::Done { value: keyword, state: s1 } => match take(s1) {
            Parsed::Done { value: name, state: s2 } => match name {
                TokenView::Identifier(id) => match forward(s2, p_type(s2)) {
                    Parsed::Done { value: data_type, state: s3 } => match forward(
                        s3,
                        p_initializer(s3),
                    ) {
                        Parsed::Done { value, state: s4 } => {
                            if keyword == TokenView::Const && (value is None || data_type is None) {
                                Parsed::Fail {
                                    kind: SyntaxErrorKind::ConstIncomplete,
                                    at: s4.position,
                                }
                            } else {
                                match take(s4) {
                                    Parsed::Done { value: end, state: s5 } => {
                                        if end == TokenView::Semicolon {
                                            Parsed::Done {
                                                value: StatementView::Declaration(id, value),
                                                state: s5.with_table(
                                                    s5.table.insert(
                                                        variable_symbol(
                                                            id,
                                                            line_at(s.source, s4.position),
                                                            s5.table.current_scope(),
                                                            data_type,
                                                        ),
                                                    ),
                                                ),
                                            }
                                        } else {
                                            Parsed::Fail {
                                                kind: SyntaxErrorKind::ExpectedSemicolon,
                                                at: s4.position,
                                            }
                                        }
                                    },
                                    Parsed::Fail { kind, at } => Parsed::Fail { kind, at },
                                }
                            }
                        },
                        Parsed::Fail { kind, at } => Parsed::Fail { kind, at },
                    },
                    Parsed::Fail { kind, at } => Parsed::Fail { kind, at },
                },
                _ => Parsed::Fail { kind: SyntaxErrorKind::ExpectedIdentifier, at: s2.position },
            },
            Parsed::Fail { kind, at } => Parsed::Fail { kind, at },
        },
        Parsed::Fail { kind, at } => Parsed::Fail { kind, at },
    }
}

/// An assignment to a name: the name, `=`, an expression and a semicolon.
#[verifier::opaque]
pub open spec fn p_assignment(s: ParserView) -> Parsed<StatementView>
    decreases s.source.len() - s.position, 20int,
{
    match take(s) {
        Parsed::Done { value: name, state: s1 } => match name {
            TokenView::Identifier(id) => match expect(
                s1,
                TokenView::Equal,
                SyntaxErrorKind::ExpectedEqual,
            ) {
                Parsed::Done { value: _, state: s2 } => match forward(s2, p_expression(s2)) {
                    Parsed::Done { value, state: s3 } => p_end(
                        s3,
                        StatementView::Assignment(ExpresionView::Identifier(id), value),
                    ),
                    Parsed::Fail { kind, at } => Parsed::Fail { kind, at },
                },
                Parsed::Fail { kind, at } => Parsed::Fail { kind, at },
            },
            _ => Parsed::Fail { kind: SyntaxErrorKind::ExpectedIdentifier, at: s1.position },
        },
        Parsed::Fail { kind, at } => Parsed::Fail { kind, at },
    }
}

/// An assignment through a chain of accesses: an expression, `=`, an expression and a
/// semicolon.
#[verifier::opaque]
pub open spec fn p_access_assignment(s: ParserView) -> Parsed<StatementView>
    decreases s.source.len() - s.position, 20int,
{
    match forward(s, p_expression(s)) {
        Parsed::Done { value: target, state: s1 } => match peek(s1) {
            Parsed::Done { value: token, state: _ } => {
                if token == TokenView::Equal {
                    match take(s1) {
                        Parsed::Done { value: _, state: s2 } => match forward(s2, p_expression(s2)) {
                            Parsed::Done { value, state: s3 } => p_end(
                                s3,
                                StatementView::Assignment(target, value),
                            ),
                            Parsed::Fail { kind, at } => Parsed::Fail { kind, at },
                        },
                        Parsed::Fail { kind, at } => Parsed::Fail { kind, at },
                    }
                } else {
                    Parsed::Fail { kind: SyntaxErrorKind::ExpectedEqual, at: s1.position }
                }
            },
            Parsed::Fail { kind, at } => Parsed::Fail { kind, at },
        },
        Parsed::Fail { kind, at } => Parsed::Fail { kind, at },
    }
}

/// An expression statement: an expression and a semicolon.
#[verifier::opaque]
pub open spec fn p_expression_statement(s: ParserView) -> Parsed<StatementView>
    decreases s.source.len() - s.position, 20int,
{
    match forward(s, p_expression(s)) {
        Parsed::Done { value, state: s1 } => p_end(s1, StatementView::ExpressionStatement(value)),
        Parsed::Fail { kind, at } => Parsed::Fail { kind, at },
    }
}

/// A `return`: the keyword, an expression unless a semicolon follows at once, and a
/// semicolon.
#[verifier::opaque]
pub open spec fn p_return(s: ParserView) -> Parsed<StatementView>
    decreases s.source.len() - s.position, 20int,
{
    match take(s) {
        Parsed::Done { value: _, state: s1 } => match peek(s1) {
            Parsed::Done { value: token, state: _ } => {
                if token == TokenView::Semicolon {
                    p_end(s1, StatementView::Return(None))
                } else {
                    match forward(s1, p_expression(s1)) {
                        Parsed::Done { value, state: s2 } => p_end(
                            s2,
                            StatementView::Return(Some(value)),
                        ),
                        Parsed::Fail { kind, at } => Parsed::Fail { kind, at },
                    }
                }
            },
            Parsed::Fail { kind, at } => Parsed::Fail { kind, at },
        },
        Parsed::Fail { kind, at } => Parsed::Fail { kind, at },
    }
}

/// The statements of a block and the id of its scope.
pub struct BlockView {
    pub body: Seq<StatementView>,
    pub scope: int,
}

/// A block in a scope of its own: the next scope id is given out, the scope is made
/// and entered, the block is parsed, and the scope is left.
#[verifier::opaque]
pub open spec fn p_scoped_block(s: ParserView) -> Parsed<BlockView>
    decreases s.source.len() - s.position, 11int,
{
    if s.scope_id >= u32::MAX || s.scope_id < 0 {
        Parsed::Fail { kind: SyntaxErrorKind::TooManyScopes, at: s.position }
    } else {
        let scope = s.scope_id + 1;
        let inside = ParserView {
            table: s.table.create_scope(scope as u32).enter_scope(scope as u32),
            scope_id: scope,
            ..s
        };
        match forward(inside, p_block(inside)) {
            Parsed::Done { value: body, state } => Parsed::Done {
                value: BlockView { body, scope },
                state: state.with_table(state.table.exit_scope()),
            },
            Parsed::Fail { kind, at } => Parsed::Fail { kind, at },
        }
    }
}

/// A block in the scope `scope`, which exists: the scope is entered, the block is
/// parsed, and the scope is left.
#[verifier::opaque]
pub open spec fn p_block_in(s: ParserView, scope: int) -> Parsed<Seq<StatementView>>
    decreases s.source.len() - s.position, 11int,
{
    let inside = s.with_table(s.table.enter_scope(scope as u32));
    match forward(inside, p_block(inside)) {
        Parsed::Done { value, state } => Parsed::Done {
            value,
            state: state.with_table(state.table.exit_scope()),
        },
        Parsed::Fail { kind, at } => Parsed::Fail { kind, at },
    }
}

/// A block: statements between braces.
#[verifier::opaque]
pub open spec fn p_block(s: ParserView) -> Parsed<Seq<StatementView>>
    decreases s.source.len() - s.position, 10int,
{
    match expect(s, TokenView::LeftBrace, SyntaxErrorKind::ExpectedLeftBrace) {
        Parsed::Done { value: _, state: s1 } => match p_block_items(s1, Seq::empty()) {
            Parsed::Done { value, state: s2 } => match expect(
                s2,
                TokenView::RightBrace,
                SyntaxErrorKind::ExpectedRightBrace,
            ) {
                Parsed::Done { value: _, state: s3 } => Parsed::Done { value, state: s3 },
                Parsed::Fail { kind, at } => Parsed::Fail { kind, at },
            },
            Parsed::Fail { kind, at } => Parsed::Fail { kind, at },
        },
        Parsed::Fail { kind, at } => Parsed::Fail { kind, at },
    }
}

/// The rest of the statements of a block, after the statements `found`, up to a
/// closing brace or the end of the text.
#[verifier::opaque]
pub open spec fn p_block_items(s: ParserView, found: Seq<StatementView>) -> Parsed<
    Seq<StatementView>,
>
    decreases s.source.len() - s.position, 35int,
{
    match peek(s) {
        Parsed::Done { value: token, state: _ } => {
            if token == TokenView::RightBrace || token == TokenView::EOF {
                Parsed::Done { value: found, state: s }
            } else {
                match onward(s, p_statement(s)) {
                    Parsed::Done { value, state: s1 } => p_block_items(s1, found.push(value)),
                    Parsed::Fail { kind, at } => Parsed::Fail { kind, at },
                }
            }
        },
        Parsed::Fail { kind, at } => Parsed::Fail { kind, at },
    }
}

/// A `loop`: the keyword and a block in a scope of its own.
#[verifier::opaque]
pub open spec fn p_loop(s: ParserView) -> Parsed<StatementView>
    decreases s.source.len() - s.position, 20int,
{
    match take(s) {
        Parsed::Done { value: _, state: s1 } => match p_scoped_block(s1) {
            Parsed::Done { value: block, state: s2 } => Parsed::Done {
                value: StatementView::Loop(block.body, block.scope),
                state: s2,
            },
            Parsed::Fail { kind, at } => Parsed::Fail { kind, at },
        },
        Parsed::Fail { kind, at } => Parsed::Fail { kind, at },
    }
}

/// A `for`: the keyword, `(`, a name, `in`, an expression, `)`, and a block in a
/// scope of its own.
#[verifier::opaque]
pub open spec fn p_for(s: ParserView) -> Parsed<StatementView>
    decreases s.source.len() - s.position, 20int,
{
    match take(s) {
        Parsed::Done { value: _, state: s1 } => match expect(
            s1,
            TokenView::LeftParen,
            SyntaxErrorKind::ExpectedLeftParen,
        ) {
            Parsed::Done { value: _, state: s2 } => match take(s2) {
                Parsed::Done { value: name, state: s3 } => match name {
                    TokenView::Identifier(id) => match expect(
                        s3,
                        TokenView::In,
                        SyntaxErrorKind::ExpectedIn,
                    ) {
                        Parsed::Done { value: _, state: s4 } => match forward(s4, p_expression(s4)) {
                            Parsed::Done { value: iterable, state: s5 } => match expect(
                                s5,
                                TokenView::RightParen,
                                SyntaxErrorKind::ExpectedRightParen,
                            ) {
                                Parsed::Done { value: _, state: s6 } => match p_scoped_block(s6) {
                                    Parsed::Done { value: block, state: s7 } => Parsed::Done {
                                        value: StatementView::For(
                                            id,
                                            iterable,
                                            block.body,
                                            block.scope,
                                        ),
                                        state: s7,
                                    },
                                    Parsed::Fail { kind, at } => Parsed::Fail { kind, at },
                                },
                                Parsed::Fail { kind, at } => Parsed::Fail { kind, at },
                            },
                            Parsed::Fail { kind, at } => Parsed::Fail { kind, at },
                        },
                        Parsed::Fail { kind, at } => Parsed::Fail { kind, at },
                    },
                    _ => Parsed::Fail { kind: SyntaxErrorKind::ExpectedIdentifier, at: s3.position },
                },
                Parsed::Fail { kind, at } => Parsed::Fail { kind, at },
            },
            Parsed::Fail { kind, at } => Parsed::Fail { kind, at },
        },
        Parsed::Fail { kind, at } => Parsed::Fail { kind, at },
    }
}

/// What follows the block of an `if`: nothing; `else` and another `if`; or `else` and
/// a block, which is parsed in the scope of the `if` and becomes an `if` of its own on
/// the condition `true`.
#[verifier::opaque]
pub open spec fn p_else(s: ParserView, scope: int) -> Parsed<Option<Box<StatementView>>>
    decreases s.source.len() - s.position, 21int,
{
    match peek(s) {
        Parsed::Done { value: token, state: _ } => {
            if token == TokenView::Else {
                match take(s) {
                    Parsed::Done { value: _, state: s1 } => match peek(s1) {
                        Parsed::Done { value: next, state: _ } => {
                            if next == TokenView::If {
                                match forward(s1, p_if(s1)) {
                                    Parsed::Done { value, state } => Parsed::Done {
                                        value: Some(Box::new(value)),
                                        state,
                                    },
                                    Parsed::Fail { kind, at } => Parsed::Fail { kind, at },
                                }
                            } else {
                                match p_block_in(s1, scope) {
                                    Parsed::Done { value, state } => Parsed::Done {
                                        value: Some(
                                            Box::new(
                                                StatementView::If(
                                                    ExpresionView::Literal(
                                                        LiteralView::Boolean(true),
                                                    ),
                                                    value,
                                                    None,
                                                    scope,
                                                ),
                                            ),
                                        ),
                                        state,
                                    },
                                    Parsed::Fail { kind, at } => Parsed::Fail { kind, at },
                                }
                            }
                        },
                        Parsed::Fail { kind, at } => Parsed::Fail { kind, at },
                    },
                    Parsed::Fail { kind, at } => Parsed::Fail { kind, at },
                }
            } else {
                Parsed::Done { value: None, state: s }
            }
        },
        Parsed::Fail { kind, at } => Parsed::Fail { kind, at },
    }
}

/// An `if`: the keyword, a condition in parentheses, a block in a scope of its own,
/// and what may follow it.
#[verifier::opaque]
pub open spec fn p_if(s: ParserView) -> Parsed<StatementView>
    decreases s.source.len() - s.position, 20int,
{
    match take(s) {
        Parsed::Done { value: _, state: s1 } => match expect(
            s1,
            TokenView::LeftParen,
            SyntaxErrorKind::ExpectedLeftParen,
        ) {
            Parsed::Done { value: _, state: s2 } => match forward(s2, p_expression(s2)) {
                Parsed::Done { value: condition, state: s3 } => match expect(
                    s3,
                    TokenView::RightParen,
                    SyntaxErrorKind::ExpectedRightParen,
                ) {
                    Parsed::Done { value: _, state: s4 } => match forward(s4, p_scoped_block(s4)) {
                        Parsed::Done { value: block, state: s5 } => match p_else(s5, block.scope) {
                            Parsed::Done { value: otherwise, state: s6 } => Parsed::Done {
                                value: StatementView::If(
                                    condition,
                                    block.body,
                                    otherwise,
                                    block.scope,
                                ),
                                state: s6,
                            },
                            Parsed::Fail { kind, at } => Parsed::Fail { kind, at },
                        },
                        Parsed::Fail { kind, at } => Parsed::Fail { kind, at },
                    },
                    Parsed::Fail { kind, at } => Parsed::Fail { kind, at },
                },
                Parsed::Fail { kind, at } => Parsed::Fail { kind, at },
            },
            Parsed::Fail { kind, at } => Parsed::Fail { kind, at },
        },
        Parsed::Fail { kind, at } => Parsed::Fail { kind, at },
    }
}

/// The parameters of a function, after the opening parenthesis.
pub open spec fn p_parameter_list(s: ParserView) -> Parsed<ParametersView> {
    let none = ParametersView { names: Seq::empty(), types: Seq::empty() };
    match peek(s) {
        Parsed::Done { value: token, state: _ } => {
            if token == TokenView::RightParen {
                match take(s) {
                    Parsed::Done { value: _, state: s1 } => Parsed::Done { value: none, state: s1 },
                    Parsed::Fail { kind, at } => Parsed::Fail { kind, at },
                }
            } else {
                p_params(s, none)
            }
        },
        Parsed::Fail { kind, at } => Parsed::Fail { kind, at },
    }
}

/// A function declaration: `fn`, a name, the parameters in parentheses, `->` and the
/// return type, and the body, a block in a scope of its own. The function is put into
/// the enclosing scope before its body is parsed.
#[verifier::opaque]
pub open spec fn p_function(s: ParserView) -> Parsed<StatementView>
    decreases s.source.len() - s.position, 20int,
{
    match take(s) {
        Parsed::Done { value: _, state: s1 } => match take(s1) {
            Parsed::Done { value: name, state: s2 } => match name {
                TokenView::Identifier(id) => match expect(
                    s2,
                    TokenView::LeftParen,
                    SyntaxErrorKind::ExpectedLeftParen,
                ) {
                    Parsed::Done { value: _, state: s3 } => match forward(s3, p_parameter_list(s3)) {
                        Parsed::Done { value: parameters, state: s4 } => match forward(
                            s4,
                            p_return_type(s4),
                        ) {
                            Parsed::Done { value: returned, state: s5 } => match returned {
                                Some(t) => {
                                    let declared = s5.with_table(
                                        s5.table.insert(
                                            function_symbol(
                                                id,
                                                line_at(s.source, s5.position),
                                                s5.table.current_scope(),
                                                returned,
                                                parameters,
                                            ),
                                        ),
                                    );
                                    match p_scoped_block(declared) {
                                        Parsed::Done { value: block, state: s6 } => Parsed::Done {
                                            value: StatementView::FnDeclaration(
                                                id,
                                                parameters.names,
                                                block.body,
                                                block.scope,
                                            ),
                                            state: s6,
                                        },
                                        Parsed::Fail { kind, at } => Parsed::Fail { kind, at },
                                    }
                                },
                                None => Parsed::Fail {
                                    kind: SyntaxErrorKind::ExpectedReturnType,
                                    at: s5.position,
                                },
                            },
                            Parsed::Fail { kind, at } => Parsed::Fail { kind, at },
                        },
                        Parsed::Fail { kind, at } => Parsed::Fail { kind, at },
                    },
                    Parsed::Fail { kind, at } => Parsed::Fail { kind, at },
                },
                _ => Parsed::Fail { kind: SyntaxErrorKind::ExpectedIdentifier, at: s2.position },
            },
            Parsed::Fail { kind, at } => Parsed::Fail { kind, at },
        },
        Parsed::Fail { kind, at } => Parsed::Fail { kind, at },
    }
}

/// A statement, told by its first token. A name starts an assignment if `=` follows
/// it, an assignment through a chain of accesses if `.` or `[` follows it, and an
/// expression statement otherwise.
#[verifier::opaque]
pub open spec fn p_statement(s: ParserView) -> Parsed<StatementView>
    decreases s.source.len() - s.position, 30int,
{
    match peek(s) {
        Parsed::Done { value: token, state: _ } => match token {
            TokenView::Let => p_declaration(s),
            TokenView::Const => p_declaration(s),
            TokenView::If => p_if(s),
            TokenView::Loop => p_loop(s),
            TokenView::For => p_for(s),
            TokenView::Function => p_function(s),
            TokenView::Return => p_return(s),
            TokenView::Identifier(_) => match take(s) {
                Parsed::Done { value: _, state: s1 } => match peek(s1) {
                    Parsed::Done { value: next, state: _ } => {
                        if next == TokenView::Equal {
                            p_assignment(s)
                        } else if next == TokenView::Dot || next == TokenView::LeftBracket {
                            p_access_assignment(s)
                        } else {
                            p_expression_statement(s)
                        }
                    },
                    Parsed::Fail { kind, at } => Parsed::Fail { kind, at },
                },
                Parsed::Fail { kind, at } => Parsed::Fail { kind, at },
            },
            _ => p_expression_statement(s),
        },
        Parsed::Fail { kind, at } => Parsed::Fail { kind, at },
    }
}

/// The rest of a program, after the statements `found`, up to the end of the text.
#[verifier::opaque]
pub open spec fn p_program(s: ParserView, found: Seq<StatementView>) -> Parsed<Seq<StatementView>>
    decreases s.source.len() - s.position,
{
    match peek(s) {
        Parsed::Done { value: token, state: _ } => {
            if token == TokenView::EOF {
                Parsed::Done { value: found, state: s }
            } else {
                match onward(s, p_statement(s)) {
                    Parsed::Done { value, state: s1 } => p_program(s1, found.push(value)),
                    Parsed::Fail { kind, at } => Parsed::Fail { kind, at },
                }
            }
        },
        Parsed::Fail { kind, at } => Parsed::Fail { kind, at },
    }
}

/// A `const` must have both a type annotation and an initial value: where the
/// keyword, the name, what stands for the annotation and what stands for the
/// initializer were read, and either is missing, the declaration is rejected at the
/// place after them, whatever follows; a `const` that is accepted has both.
pub proof fn const_needs_type_and_value(s: ParserView)
    requires
        take(s) is Done,
        take(s)->Done_value == TokenView::Const,
        take(take(s)->Done_state) is Done,
        take(take(s)->Done_state)->Done_value is Identifier,
        ({
            let named = take(take(s)->Done_state)->Done_state;
            &&& forward(named, p_type(named)) is Done
            &&& forward(
                forward(named, p_type(named))->Done_state,
                p_initializer(forward(named, p_type(named))->Done_state),
            ) is Done
        }),
    ensures
        ({
            let named = take(take(s)->Done_state)->Done_state;
            let annotated = forward(named, p_type(named));
            let initialized = forward(annotated->Done_state, p_initializer(annotated->Done_state));
            &&& (annotated->Done_value is None || initialized->Done_value is None) ==> p_declaration(
                s,
            ) == Parsed::<StatementView>::Fail {
                kind: SyntaxErrorKind::ConstIncomplete,
                at: initialized->Done_state.position,
            }
            &&& p_declaration(s) is Done ==> annotated->Done_value is Some
                && initialized->Done_value is Some
        }),
{
    reveal_with_fuel(p_declaration, 1);
}

} // verus!
