use vstd::prelude::*;
use vstd::string::*;
use crate::grammar::{
    error_at, expect, float_indices, operator_level, peek, take, BlockView, ParametersView,
    Parsed, ParserView, SyntaxError, SyntaxErrorKind,
};
use crate::lexer::{Lexer, Number, NumberView, Token, TokenView};
use crate::table::{optional_type_view, SymbolTable, TableView};
use crate::table_laws::{scopes_kept, table_wf};

verus! {

/// The types of the language, as mathematical values.
pub enum DataTypeView {
    Integer,
    Float,
    String,
    Boolean,
    Void,
    Undefined,
    Array(Box<DataTypeView>, int),
    Tuple(Seq<DataTypeView>),
    Identifier(Seq<char>),
}

/// A type of the language. `Void` stands for "no coherent type", `Undefined` for a
/// name that was not found. An array carries its length.
#[derive(Debug)]
pub enum DataType {
    Integer,
    Float,
    String,
    Boolean,
    Void,
    Undefined,
    Array(Box<DataType>, i32),
    Tuple(Vec<DataType>),
    Identifier(String),
}

impl DataType {
    pub open spec fn model(&self) -> DataTypeView
        decreases self,
    {
        match self {
            DataType::Integer => DataTypeView::Integer,
            DataType::Float => DataTypeView::Float,
            DataType::String => DataTypeView::String,
            DataType::Boolean => DataTypeView::Boolean,
            DataType::Void => DataTypeView::Void,
            DataType::Undefined => DataTypeView::Undefined,
            DataType::Array(element, size) => DataTypeView::Array(
                Box::new(element.model()),
                *size as int,
            ),
            DataType::Tuple(items) => DataTypeView::Tuple(
                Seq::new(
                    items@.len(),
                    |i: int|
                        if 0 <= i < items@.len() {
                            items@[i].model()
                        } else {
                            DataTypeView::Void
                        },
                ),
            ),
            DataType::Identifier(name) => DataTypeView::Identifier(name@),
        }
    }

    /// A copy with the same meaning.
    pub fn duplicate(&self) -> (r: DataType)
        ensures
            r@ == self@,
        decreases self,
    {
        match self {
            DataType::Integer => DataType::Integer,
            DataType::Float => DataType::Float,
            DataType::String => DataType::String,
            DataType::Boolean => DataType::Boolean,
            DataType::Void => DataType::Void,
            DataType::Undefined => DataType::Undefined,
            DataType::Array(element, size) => DataType::Array(Box::new(element.duplicate()), *size),
            DataType::Tuple(items) => {
                let mut out: Vec<DataType> = Vec::new();
                let mut i: usize = 0;
                while i < items.len()
                    invariant
                        i <= items.len(),
                        out.len() == i,
                        self == DataType::Tuple(*items),
                        forall|j: int| 0 <= j < i ==> out@[j]@ == items@[j]@,
                    decreases items.len() - i,
                {
                    let item = &items[i];
                    assert(self->Tuple_0 == *items);
                    assert(decreases_to!(self => self->Tuple_0));
                    assert(decreases_to!(self->Tuple_0 => self->Tuple_0[i as int]));
                    let copy = item.duplicate();
                    out.push(copy);
                    i += 1;
                }
                let r = DataType::Tuple(out);
                assert(r@->Tuple_0 =~= self@->Tuple_0);
                r
            },
            DataType::Identifier(name) => DataType::Identifier(name.clone()),
        }
    }

    /// Whether two types mean the same.
    pub fn same(&self, other: &DataType) -> (r: bool)
        ensures
            r == (self@ == other@),
        decreases self,
    {
        match (self, other) {
            (DataType::Integer, DataType::Integer) => true,
            (DataType::Float, DataType::Float) => true,
            (DataType::String, DataType::String) => true,
            (DataType::Boolean, DataType::Boolean) => true,
            (DataType::Void, DataType::Void) => true,
            (DataType::Undefined, DataType::Undefined) => true,
            (DataType::Array(ea, na), DataType::Array(eb, nb)) => *na == *nb && ea.same(eb),
            (DataType::Tuple(xs), DataType::Tuple(ys)) => {
                if xs.len() != ys.len() {
                    assert(self@->Tuple_0.len() != other@->Tuple_0.len());
                    return false;
                }
                let mut i: usize = 0;
                while i < xs.len()
                    invariant
                        i <= xs.len(),
                        xs.len() == ys.len(),
                        self == DataType::Tuple(*xs),
                        other == DataType::Tuple(*ys),
                        forall|j: int| 0 <= j < i ==> xs@[j]@ == ys@[j]@,
                    decreases xs.len() - i,
                {
                    assert(self->Tuple_0 == *xs);
                    assert(decreases_to!(self => self->Tuple_0));
                    assert(decreases_to!(self->Tuple_0 => self->Tuple_0[i as int]));
                    if !xs[i].same(&ys[i]) {
                        assert(self@->Tuple_0[i as int] != other@->Tuple_0[i as int]);
                        return false;
                    }
                    i += 1;
                }
                assert(self@->Tuple_0 =~= other@->Tuple_0);
                true
            },
            (DataType::Identifier(x), DataType::Identifier(y)) => *x == *y,
            _ => false,
        }
    }
}

impl View for DataType {
    type V = DataTypeView;

    open spec fn view(&self) -> DataTypeView {
        self.model()
    }
}

impl Clone for DataType {
    fn clone(&self) -> (r: DataType)
        ensures
            r@ == self@,
    {
        self.duplicate()
    }
}

impl PartialEq for DataType {
    fn eq(&self, other: &DataType) -> (r: bool) {
        self.same(other)
    }
}

impl vstd::std_specs::cmp::PartialEqSpecImpl for DataType {
    open spec fn obeys_eq_spec() -> bool {
        true
    }

    open spec fn eq_spec(&self, other: &DataType) -> bool {
        self@ == other@
    }
}

/// The meanings of a list of types, in order.
pub open spec fn type_views(types: Seq<DataType>) -> Seq<DataTypeView> {
    Seq::new(types.len(), |i: int| types[i]@)
}

/// A copy of a list of types.
pub fn duplicate_types(types: &Vec<DataType>) -> (out: Vec<DataType>)
    ensures
        type_views(out@) == type_views(types@),
{
    let mut out: Vec<DataType> = Vec::new();
    let mut i: usize = 0;
    while i < types.len()
        invariant
            i <= types.len(),
            out.len() == i,
            forall|j: int| 0 <= j < i ==> out@[j]@ == types@[j]@,
        decreases types.len() - i,
    {
        out.push(types[i].duplicate());
        i += 1;
    }
    assert(type_views(out@) =~= type_views(types@));
    out
}

/// The meanings of a list of names, in order.
pub open spec fn name_views(names: Seq<String>) -> Seq<Seq<char>> {
    Seq::new(names.len(), |i: int| names[i]@)
}

/// A copy of a list of names.
pub fn duplicate_names(names: &Vec<String>) -> (out: Vec<String>)
    ensures
        name_views(out@) == name_views(names@),
{
    let mut out: Vec<String> = Vec::new();
    let mut i: usize = 0;
    while i < names.len()
        invariant
            i <= names.len(),
            out.len() == i,
            forall|j: int| 0 <= j < i ==> out@[j]@ == names@[j]@,
        decreases names.len() - i,
    {
        out.push(names[i].clone());
        i += 1;
    }
    assert(name_views(out@) =~= name_views(names@));
    out
}

/// A literal, as a mathematical value.
pub enum LiteralView {
    Number(NumberView),
    String(Seq<char>),
    Boolean(bool),
}

/// A literal of the language.
#[derive(Debug)]
pub enum Literal {
    Number(Number),
    String(String),
    Boolean(bool),
}

impl View for Literal {
    type V = LiteralView;

    open spec fn view(&self) -> LiteralView {
        match self {
            Literal::Number(number) => LiteralView::Number(number@),
            Literal::String(text) => LiteralView::String(text@),
            Literal::Boolean(value) => LiteralView::Boolean(*value),
        }
    }
}

impl Clone for Literal {
    fn clone(&self) -> (r: Literal)
        ensures
            r@ == self@,
    {
        match self {
            Literal::Number(number) => Literal::Number(number.clone()),
            Literal::String(text) => Literal::String(text.clone()),
            Literal::Boolean(value) => Literal::Boolean(*value),
        }
    }
}

/// An expression, as a mathematical value.
pub enum ExpresionView {
    Literal(LiteralView),
    Identifier(Seq<char>),
    Binary(Box<ExpresionView>, TokenView, Box<ExpresionView>),
    FnCall(Seq<char>, Seq<ExpresionView>),
    Tuple(Seq<ExpresionView>),
    Array(Seq<ExpresionView>),
    Index(Box<ExpresionView>, Box<ExpresionView>),
    Member(Box<ExpresionView>, Seq<char>),
    TupleIndex(Box<ExpresionView>, int),
    Unary(TokenView, Box<ExpresionView>),
    Range(Box<ExpresionView>, Box<ExpresionView>, bool),
}

/// An expression of the language.
#[derive(Debug)]
pub enum Expresion {
    Literal(Literal),
    Identifier(String),
    Binary(Box<Expresion>, Token, Box<Expresion>),
    FnCall(String, Vec<Expresion>),
    Tuple(Vec<Expresion>),
    Array(Vec<Expresion>),
    Index(Box<Expresion>, Box<Expresion>),
    Member(Box<Expresion>, String),
    TupleIndex(Box<Expresion>, usize),
    Unary(Token, Box<Expresion>),
    /// The two bounds, and whether the upper one belongs to the range.
    Range(Box<Expresion>, Box<Expresion>, bool),
}

/// The meanings of a list of expressions, in order.
pub open spec fn expresion_views(items: Seq<Expresion>) -> Seq<ExpresionView>
    decreases items,
{
    Seq::new(
        items.len(),
        |i: int|
            if 0 <= i < items.len() {
                items[i].model()
            } else {
                ExpresionView::Tuple(Seq::empty())
            },
    )
}

impl Expresion {
    pub open spec fn model(&self) -> ExpresionView
        decreases self,
    {
        match self {
            Expresion::Literal(literal) => ExpresionView::Literal(literal@),
            Expresion::Identifier(name) => ExpresionView::Identifier(name@),
            Expresion::Binary(left, operator, right) => ExpresionView::Binary(
                Box::new(left.model()),
                operator@,
                Box::new(right.model()),
            ),
            Expresion::FnCall(name, arguments) => ExpresionView::FnCall(
                name@,
                expresion_views(arguments@),
            ),
            Expresion::Tuple(items) => ExpresionView::Tuple(expresion_views(items@)),
            Expresion::Array(items) => ExpresionView::Array(expresion_views(items@)),
            Expresion::Index(base, index) => ExpresionView::Index(
                Box::new(base.model()),
                Box::new(index.model()),
            ),
            Expresion::Member(base, field) => ExpresionView::Member(Box::new(base.model()), field@),
            Expresion::TupleIndex(base, position) => ExpresionView::TupleIndex(
                Box::new(base.model()),
                *position as int,
            ),
            Expresion::Unary(operator, operand) => ExpresionView::Unary(
                operator@,
                Box::new(operand.model()),
            ),
            Expresion::Range(start, end, inclusive) => ExpresionView::Range(
                Box::new(start.model()),
                Box::new(end.model()),
                *inclusive,
            ),
        }
    }

    /// The literal that a token writes, if it writes one.
    pub fn get_literal(token: Token) -> (r: Option<Literal>)
        ensures
            match token@ {
                TokenView::Number(number) => r is Some && r->0@ == LiteralView::Number(number),
                TokenView::String(text) => r is Some && r->0@ == LiteralView::String(text),
                TokenView::True => r is Some && r->0@ == LiteralView::Boolean(true),
                TokenView::False => r is Some && r->0@ == LiteralView::Boolean(false),
                _ => r is None,
            },
    {
        match token {
            Token::Number(value) => Some(Literal::Number(value)),
            Token::String(value) => Some(Literal::String(value)),
            Token::True => Some(Literal::Boolean(true)),
            Token::False => Some(Literal::Boolean(false)),
            _ => None,
        }
    }
}

/// A copy of a list of expressions.
pub fn duplicate_expresions(items: &Vec<Expresion>) -> (out: Vec<Expresion>)
    ensures
        expresion_views(out@) == expresion_views(items@),
    decreases items,
{
    let mut out: Vec<Expresion> = Vec::new();
    let mut i: usize = 0;
    while i < items.len()
        invariant
            i <= items.len(),
            out.len() == i,
            forall|j: int| 0 <= j < i ==> out@[j]@ == items@[j]@,
        decreases items.len() - i,
    {
        proof {
            vstd::std_specs::vec::axiom_vec_index_decreases(*items, i as int);
        }
        out.push(items[i].duplicate());
        i += 1;
    }
    assert(expresion_views(out@) =~= expresion_views(items@));
    out
}

impl Expresion {
    /// A copy with the same meaning.
    pub fn duplicate(&self) -> (r: Expresion)
        ensures
            r@ == self@,
        decreases self,
    {
        match self {
            Expresion::Literal(literal) => Expresion::Literal(literal.clone()),
            Expresion::Identifier(name) => Expresion::Identifier(name.clone()),
            Expresion::Binary(left, operator, right) => Expresion::Binary(
                Box::new(left.duplicate()),
                operator.clone(),
                Box::new(right.duplicate()),
            ),
            Expresion::FnCall(name, arguments) => Expresion::FnCall(
                name.clone(),
                duplicate_expresions(arguments),
            ),
            Expresion::Tuple(items) => Expresion::Tuple(duplicate_expresions(items)),
            Expresion::Array(items) => Expresion::Array(duplicate_expresions(items)),
            Expresion::Index(base, index) => Expresion::Index(
                Box::new(base.duplicate()),
                Box::new(index.duplicate()),
            ),
            Expresion::Member(base, field) => Expresion::Member(
                Box::new(base.duplicate()),
                field.clone(),
            ),
            Expresion::TupleIndex(base, position) => Expresion::TupleIndex(
                Box::new(base.duplicate()),
                *position,
            ),
            Expresion::Unary(operator, operand) => Expresion::Unary(
                operator.clone(),
                Box::new(operand.duplicate()),
            ),
            Expresion::Range(start, end, inclusive) => Expresion::Range(
                Box::new(start.duplicate()),
                Box::new(end.duplicate()),
                *inclusive,
            ),
        }
    }
}

impl Clone for Expresion {
    fn clone(&self) -> (r: Expresion)
        ensures
            r@ == self@,
    {
        self.duplicate()
    }
}

impl View for Expresion {
    type V = ExpresionView;

    open spec fn view(&self) -> ExpresionView {
        self.model()
    }
}

/// A statement, as a mathematical value.
pub enum StatementView {
    ExpressionStatement(ExpresionView),
    Declaration(Seq<char>, Option<ExpresionView>),
    Assignment(ExpresionView, ExpresionView),
    If(ExpresionView, Seq<StatementView>, Option<Box<StatementView>>, int),
    Loop(Seq<StatementView>, int),
    For(Seq<char>, ExpresionView, Seq<StatementView>, int),
    FnDeclaration(Seq<char>, Seq<Seq<char>>, Seq<StatementView>, int),
    Return(Option<ExpresionView>),
}

/// A statement of the language. A statement that opens a scope carries the scope's
/// id as its last field.
#[derive(Debug)]
pub enum Statement {
    ExpressionStatement(Expresion),
    Declaration(String, Option<Expresion>),
    Assignment(Expresion, Expresion),
    If(Expresion, Vec<Statement>, Option<Box<Statement>>, u32),
    Loop(Vec<Statement>, u32),
    For(String, Expresion, Vec<Statement>, u32),
    FnDeclaration(String, Vec<String>, Vec<Statement>, u32),
    Return(Option<Expresion>),
}

/// The meanings of a list of statements, in order.
pub open spec fn statement_views(items: Seq<Statement>) -> Seq<StatementView>
    decreases items,
{
    Seq::new(
        items.len(),
        |i: int|
            if 0 <= i < items.len() {
                items[i].model()
            } else {
                StatementView::Return(None)
            },
    )
}

/// The meaning of an expression that may be absent.
pub open spec fn optional_view(e: Option<Expresion>) -> Option<ExpresionView> {
    match e {
        Some(e) => Some(e@),
        None => None,
    }
}

impl Statement {
    pub open spec fn model(&self) -> StatementView
        decreases self,
    {
        match self {
            Statement::ExpressionStatement(e) => StatementView::ExpressionStatement(e@),
            Statement::Declaration(name, value) => StatementView::Declaration(
                name@,
                optional_view(*value),
            ),
            Statement::Assignment(target, value) => StatementView::Assignment(target@, value@),
            Statement::If(condition, body, otherwise, scope) => StatementView::If(
                condition@,
                statement_views(body@),
                match otherwise {
                    Some(statement) => Some(Box::new(statement.model())),
                    None => None,
                },
                *scope as int,
            ),
            Statement::Loop(body, scope) => StatementView::Loop(statement_views(body@), *scope as int),
            Statement::For(variable, iterable, body, scope) => StatementView::For(
                variable@,
                iterable@,
                statement_views(body@),
                *scope as int,
            ),
            Statement::FnDeclaration(name, parameters, body, scope) => StatementView::FnDeclaration(
                name@,
                name_views(parameters@),
                statement_views(body@),
                *scope as int,
            ),
            Statement::Return(value) => StatementView::Return(optional_view(*value)),
        }
    }
}

/// A copy of a list of statements.
pub fn duplicate_statements(items: &Vec<Statement>) -> (out: Vec<Statement>)
    ensures
        statement_views(out@) == statement_views(items@),
    decreases items,
{
    let mut out: Vec<Statement> = Vec::new();
    let mut i: usize = 0;
    while i < items.len()
        invariant
            i <= items.len(),
            out.len() == i,
            forall|j: int| 0 <= j < i ==> out@[j]@ == items@[j]@,
        decreases items.len() - i,
    {
        proof {
            vstd::std_specs::vec::axiom_vec_index_decreases(*items, i as int);
        }
        out.push(items[i].duplicate());
        i += 1;
    }
    assert(statement_views(out@) =~= statement_views(items@));
    out
}

/// A copy of an expression that may be absent.
pub fn duplicate_optional(e: &Option<Expresion>) -> (r: Option<Expresion>)
    ensures
        optional_view(r) == optional_view(*e),
{
    match e {
        Some(e) => Some(e.duplicate()),
        None => None,
    }
}

impl Statement {
    /// A copy with the same meaning.
    pub fn duplicate(&self) -> (r: Statement)
        ensures
            r@ == self@,
        decreases self,
    {
        match self {
            Statement::ExpressionStatement(e) => Statement::ExpressionStatement(e.duplicate()),
            Statement::Declaration(name, value) => Statement::Declaration(
                name.clone(),
                duplicate_optional(value),
            ),
            Statement::Assignment(target, value) => Statement::Assignment(
                target.duplicate(),
                value.duplicate(),
            ),
            Statement::If(condition, body, otherwise, scope) => {
                let other = match otherwise {
                    Some(statement) => Some(Box::new(statement.duplicate())),
                    None => None,
                };
                Statement::If(condition.duplicate(), duplicate_statements(body), other, *scope)
            },
            Statement::Loop(body, scope) => Statement::Loop(duplicate_statements(body), *scope),
            Statement::For(variable, iterable, body, scope) => Statement::For(
                variable.clone(),
                iterable.duplicate(),
                duplicate_statements(body),
                *scope,
            ),
            Statement::FnDeclaration(name, parameters, body, scope) => Statement::FnDeclaration(
                name.clone(),
                duplicate_names(parameters),
                duplicate_statements(body),
                *scope,
            ),
            Statement::Return(value) => Statement::Return(duplicate_optional(value)),
        }
    }
}

impl Clone for Statement {
    fn clone(&self) -> (r: Statement)
        ensures
            r@ == self@,
    {
        self.duplicate()
    }
}

impl View for Statement {
    type V = StatementView;

    open spec fn view(&self) -> StatementView {
        self.model()
    }
}

/// What a value that the parser hands out stands for in the grammar.
pub trait Meaning {
    type M;

    spec fn meaning(&self) -> Self::M;
}

impl Meaning for () {
    type M = ();

    open spec fn meaning(&self) -> () {
        ()
    }
}

impl Meaning for bool {
    type M = bool;

    open spec fn meaning(&self) -> bool {
        *self
    }
}

impl Meaning for Token {
    type M = TokenView;

    open spec fn meaning(&self) -> TokenView {
        self@
    }
}

impl Meaning for DataType {
    type M = DataTypeView;

    open spec fn meaning(&self) -> DataTypeView {
        self@
    }
}

impl Meaning for Option<DataType> {
    type M = Option<DataTypeView>;

    open spec fn meaning(&self) -> Option<DataTypeView> {
        optional_type_view(*self)
    }
}

impl Meaning for Expresion {
    type M = ExpresionView;

    open spec fn meaning(&self) -> ExpresionView {
        self@
    }
}

impl Meaning for Option<Expresion> {
    type M = Option<ExpresionView>;

    open spec fn meaning(&self) -> Option<ExpresionView> {
        optional_view(*self)
    }
}

impl Meaning for Vec<Expresion> {
    type M = Seq<ExpresionView>;

    open spec fn meaning(&self) -> Seq<ExpresionView> {
        expresion_views(self@)
    }
}

impl Meaning for Statement {
    type M = StatementView;

    open spec fn meaning(&self) -> StatementView {
        self@
    }
}

impl Meaning for Option<Box<Statement>> {
    type M = Option<Box<StatementView>>;

    open spec fn meaning(&self) -> Option<Box<StatementView>> {
        match self {
            Some(statement) => Some(Box::new(statement.model())),
            None => None,
        }
    }
}

impl Meaning for Vec<Statement> {
    type M = Seq<StatementView>;

    open spec fn meaning(&self) -> Seq<StatementView> {
        statement_views(self@)
    }
}

/// The statements of a block and the id of its scope.
#[derive(Debug)]
pub struct Block {
    pub body: Vec<Statement>,
    pub scope: u32,
}

impl Meaning for Block {
    type M = BlockView;

    open spec fn meaning(&self) -> BlockView {
        BlockView { body: statement_views(self.body@), scope: self.scope as int }
    }
}

/// The names and the types of a function's parameters.
#[derive(Debug)]
pub struct Parameters {
    pub names: Vec<String>,
    pub types: Vec<DataType>,
}

impl Meaning for Parameters {
    type M = ParametersView;

    open spec fn meaning(&self) -> ParametersView {
        ParametersView { names: name_views(self.names@), types: type_views(self.types@) }
    }
}

/// Whether a step of the parser did what the grammar says of it. Where the grammar
/// gives a value, the step returned a value that means the same, and left the parser
/// in the state that the grammar gives, which is not before the state that it started
/// from. Where the grammar gives an error, the step returned that error, with the
/// line and the column of the place where it was found.
pub open spec fn parsed_as<T: Meaning>(
    before: ParserView,
    expected: Parsed<T::M>,
    got: Result<T, SyntaxError>,
    after: ParserView,
) -> bool {
    match expected {
        Parsed::Done { value, state } => {
            &&& got is Ok
            &&& got->Ok_0.meaning() == value
            &&& after == state
            &&& state.source == before.source
            &&& before.position <= state.position <= state.source.len()
        },
        Parsed::Fail { kind, at } => {
            &&& got is Err
            &&& got->Err_0 == error_at(before.source, kind, at)
            &&& kind != SyntaxErrorKind::Stalled
        },
    }
}

/// Whether a step that went well left the scopes nested as they were: with a scope
/// active before the step, the same scopes are active after it, every scope that
/// existed still exists, and no scope id was given back; and a table that was well
/// formed still is.
pub open spec fn scopes_nest<T>(
    before: ParserView,
    got: Result<T, SyntaxError>,
    after: ParserView,
) -> bool {
    &&& got is Ok && before.table.active.len() > 0 ==> scopes_kept(before.table, after.table)
        && before.scope_id <= after.scope_id
    &&& got is Ok && table_wf(before.table) ==> table_wf(after.table)
}

/// The parser: the scanner that it reads from, the program that it has parsed, the
/// symbol table that it fills, and the last scope id that it gave out.
#[derive(Debug)]
pub struct Sintax {
    pub lexer: Lexer,
    pub program: Vec<Statement>,
    pub table: SymbolTable,
    pub current_scope_id: u32,
}

impl View for Sintax {
    type V = ParserView;

    open spec fn view(&self) -> ParserView {
        ParserView {
            source: self.lexer.text(),
            position: self.lexer.position(),
            table: self.table@,
            scope_id: self.current_scope_id as int,
        }
    }
}

/// The level of a binary operator.
pub(crate) fn level_of(token: &Token) -> (level: u8)
    ensures
        level == operator_level(token@),
{
    if token.is_operator("**") {
        1
    } else if token.is_operator("*") || token.is_operator("/") || token.is_operator("%") {
        2
    } else if token.is_operator("+") || token.is_operator("-") {
        3
    } else if token.is_logical("<") || token.is_logical(">") || token.is_logical("<=")
        || token.is_logical(">=") || token.is_logical("==") || token.is_logical("!=") {
        4
    } else if token.is_logical("&&") {
        5
    } else if token.is_logical("||") {
        6
    } else {
        0
    }
}

impl Sintax {
    pub fn new(lexer: Lexer) -> (parser: Sintax)
        ensures
            parser@ == (ParserView {
                source: lexer.text(),
                position: lexer.position(),
                table: TableView::initial(),
                scope_id: 0,
            }),
            parser.program@.len() == 0,
    {
        Sintax { lexer, program: Vec::new(), table: SymbolTable::new(), current_scope_id: 0 }
    }

    /// The error of kind `kind` at the cursor.
    pub(crate) fn error(&self, kind: SyntaxErrorKind) -> (e: SyntaxError)
        ensures
            e == error_at(self@.source, kind, self@.position),
    {
        let (line, col) = self.lexer.get_current_position();
        SyntaxError { kind, line, col }
    }

    /// Reads the next token.
    pub(crate) fn next(&mut self) -> (r: Result<Token, SyntaxError>)
        ensures
            parsed_as(old(self)@, take(old(self)@), r, final(self)@),
            scopes_nest(old(self)@, r, final(self)@),
    {
        match self.lexer.get_next_token() {
            Ok(token) => Ok(token),
            Err(e) => Err(
                SyntaxError { kind: SyntaxErrorKind::Lexical(e.kind), line: e.line, col: e.col },
            ),
        }
    }

    /// Reads the next token and leaves the cursor where it was.
    pub(crate) fn peek(&mut self) -> (r: Result<Token, SyntaxError>)
        ensures
            parsed_as(old(self)@, peek(old(self)@), r, final(self)@),
            scopes_nest(old(self)@, r, final(self)@),
            final(self)@ == old(self)@,
            0 <= old(self)@.position <= old(self)@.source.len(),
    {
        match self.lexer.peek_token() {
            Ok(token) => Ok(token),
            Err(e) => Err(
                SyntaxError { kind: SyntaxErrorKind::Lexical(e.kind), line: e.line, col: e.col },
            ),
        }
    }

    /// Reads the next token, which must be `token`.
    pub(crate) fn expect(&mut self, token: Token, kind: SyntaxErrorKind) -> (r: Result<(), SyntaxError>)
        requires
            kind != SyntaxErrorKind::Stalled,
        ensures
            parsed_as(old(self)@, expect(old(self)@, token@, kind), r, final(self)@),
            scopes_nest(old(self)@, r, final(self)@),
    {
        let found = self.next()?;
        if found == token {
            Ok(())
        } else {
            Err(self.error(kind))
        }
    }
}

/// Puts an expression after a list of expressions.
pub(crate) fn push_expresion(items: &mut Vec<Expresion>, e: Expresion)
    ensures
        expresion_views(final(items)@) == expresion_views(old(items)@).push(e@),
{
    items.push(e);
    assert(expresion_views(items@) =~= expresion_views(old(items)@).push(e@));
}

/// Puts a statement after a list of statements.
pub(crate) fn push_statement(items: &mut Vec<Statement>, statement: Statement)
    ensures
        statement_views(final(items)@) == statement_views(old(items)@).push(statement@),
{
    items.push(statement);
    assert(statement_views(items@) =~= statement_views(old(items)@).push(statement@));
}

/// The two positions that the text of a float literal writes after a dot.
pub fn float_slots(text: &String) -> (r: Option<(usize, usize)>)
    ensures
        match float_indices(text@) {
            Some(slots) => r == Some((slots.0 as usize, slots.1 as usize)) && slots.0 <= usize::MAX
                && slots.1 <= usize::MAX,
            None => r is None,
        },
{
    let length = text.as_str().unicode_len();
    let limit: u128 = 0x1_0000_0000_0000_0000;
    let (point, first) = crate::lexer::read_digits(text.as_str(), length, 0, limit);
    if point == 0 || point >= length || length - point < 2 {
        return None;
    }
    if text.as_str().get_char(point) != '.' {
        return None;
    }
    let (end, second) = crate::lexer::read_digits(text.as_str(), length, point + 1, limit);
    if end != length {
        return None;
    }
    if first > usize::MAX as u128 || second > usize::MAX as u128 {
        return None;
    }
    Some((first as usize, second as usize))
}

} // verus!
