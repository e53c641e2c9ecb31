use vstd::prelude::*;
use vstd::string::*;
use crate::lexer::{is_text, Number, NumberView, Token, TokenView};
use crate::sintax::{
    expresion_views, name_views, statement_views, type_views, DataType, DataTypeView, Expresion,
    ExpresionView, Literal, LiteralView, Statement, StatementView,
};
use crate::table::{
    duplicate_optional_type, optional_type_view, Symbol, SymbolKind, SymbolKindView,
    SymbolTable, SymbolView, TableView,
};
use crate::table_laws::{table_wf, update_var_assigned_keeps_wf, update_var_type_keeps_wf};

verus! {

/// Whether a type is one of the two number types.
pub open spec fn is_numeric(t: DataTypeView) -> bool {
    t == DataTypeView::Integer || t == DataTypeView::Float
}

/// Whether a list of collected types is coherent: every type in it is the first one,
/// and that one is not `Void`. The empty list is coherent.
pub open spec fn unified(types: Seq<DataTypeView>) -> bool {
    types.len() == 0 || (types[0] != DataTypeView::Void && forall|i: int|
        0 <= i < types.len() ==> #[trigger] types[i] == types[0])
}

/// The one type that a coherent, non-empty list stands for; `Void` for any other list.
pub open spec fn sole_type(types: Seq<DataTypeView>) -> DataTypeView {
    if types.len() > 0 && unified(types) {
        types[0]
    } else {
        DataTypeView::Void
    }
}

/// The type of a literal.
pub open spec fn literal_type(literal: LiteralView) -> DataTypeView {
    match literal {
        LiteralView::Number(NumberView::Integer(_)) => DataTypeView::Integer,
        LiteralView::Number(NumberView::Float(_)) => DataTypeView::Float,
        LiteralView::String(_) => DataTypeView::String,
        LiteralView::Boolean(_) => DataTypeView::Boolean,
    }
}

/// The type on record for a name: a variable's type, or `Void` where it has none; a
/// function's return type; `Undefined` for a function without one and for a name that
/// no scope binds.
pub open spec fn id_type(table: TableView, id: Seq<char>) -> DataTypeView {
    match table.read_symbol(id) {
        Some(symbol) => match symbol.kind {
            SymbolKindView::Variable { data_type, assigned } => match data_type {
                Some(t) => t,
                None => DataTypeView::Void,
            },
            SymbolKindView::Function { data_type, parameters, param_types } => match data_type {
                Some(t) => t,
                None => DataTypeView::Undefined,
            },
        },
        None => DataTypeView::Undefined,
    }
}

/// Whether a name is bound to a variable that has a value.
pub open spec fn is_assigned(table: TableView, id: Seq<char>) -> bool {
    match table.read_symbol(id) {
        Some(symbol) => match symbol.kind {
            SymbolKindView::Variable { data_type, assigned } => assigned,
            _ => false,
        },
        None => false,
    }
}

/// Whether a name is bound to a variable.
pub open spec fn is_variable(table: TableView, id: Seq<char>) -> bool {
    match table.read_symbol(id) {
        Some(symbol) => symbol.kind is Variable,
        None => false,
    }
}

/// The type of the first parameter at or after `from` that is called `id` and has a
/// type.
pub open spec fn param_type_in(
    parameters: Seq<Seq<char>>,
    types: Seq<DataTypeView>,
    id: Seq<char>,
    from: int,
) -> Option<DataTypeView>
    decreases parameters.len() - from,
{
    if from < 0 || from >= parameters.len() || from >= types.len() {
        None
    } else if parameters[from] == id {
        Some(types[from])
    } else {
        param_type_in(parameters, types, id, from + 1)
    }
}

/// The type of the parameter called `id` of the first function, among the symbols at
/// and after `from`, that has such a parameter; `Undefined` where none has.
pub open spec fn param_type_from(symbols: Seq<SymbolView>, id: Seq<char>, from: int) -> DataTypeView
    decreases symbols.len() - from,
{
    if from < 0 || from >= symbols.len() {
        DataTypeView::Undefined
    } else {
        match symbols[from].kind {
            SymbolKindView::Function { data_type, parameters, param_types } => match param_type_in(
                parameters,
                param_types,
                id,
                0,
            ) {
                Some(t) => t,
                None => param_type_from(symbols, id, from + 1),
            },
            _ => param_type_from(symbols, id, from + 1),
        }
    }
}

/// The type of `id` as a parameter of any function of the table.
pub open spec fn param_type(table: TableView, id: Seq<char>) -> DataTypeView {
    param_type_from(table.all_symbols(), id, 0)
}

/// The type of a name that is read. A variable has its type on record if it has a
/// value, and `Void` if it has none. A name that is no variable has its type as a
/// parameter, and `Void` if it is no parameter either.
pub open spec fn identifier_type(table: TableView, id: Seq<char>) -> DataTypeView {
    if is_variable(table, id) {
        if is_assigned(table, id) {
            id_type(table, id)
        } else {
            DataTypeView::Void
        }
    } else if param_type(table, id) == DataTypeView::Undefined {
        DataTypeView::Void
    } else {
        param_type(table, id)
    }
}

/// The types that a binary operation yields from the types of its operands.
///
/// An arithmetic operator takes two numbers and yields `Float` if either is one, else
/// `Integer`. `&&` and `||` take two booleans and yield `Boolean`. Any other logical
/// operator compares two numbers of one type and yields `Boolean`. Operands that do
/// not fit yield `Void`. A token that is no operator yields nothing.
pub open spec fn binary_types(
    operator: TokenView,
    left: DataTypeView,
    right: DataTypeView,
) -> Seq<DataTypeView> {
    match operator {
        TokenView::Operator(_) => {
            if is_numeric(left) && is_numeric(right) {
                if left == DataTypeView::Float || right == DataTypeView::Float {
                    seq![DataTypeView::Float]
                } else {
                    seq![DataTypeView::Integer]
                }
            } else {
                seq![DataTypeView::Void]
            }
        },
        TokenView::LogicalOperator(text) => {
            if text == "||"@ || text == "&&"@ {
                if left == DataTypeView::Boolean && right == DataTypeView::Boolean {
                    seq![DataTypeView::Boolean]
                } else {
                    seq![DataTypeView::Void]
                }
            } else if is_numeric(left) && left == right {
                seq![DataTypeView::Boolean]
            } else {
                seq![DataTypeView::Void]
            }
        },
        _ => Seq::empty(),
    }
}

/// The types that a unary operation yields from the types collected of its operand:
/// those types, and `Void` after them if one of them does not fit the operator. `-`
/// takes numbers, `!` takes booleans, and any other operator yields `Void` alone.
pub open spec fn unary_types(operator: TokenView, operand: Seq<DataTypeView>) -> Seq<DataTypeView> {
    if operator == TokenView::Operator("-"@) {
        if forall|i: int| 0 <= i < operand.len() ==> is_numeric(operand[i]) {
            operand
        } else {
            operand.push(DataTypeView::Void)
        }
    } else if operator == TokenView::Operator("!"@) {
        if forall|i: int| 0 <= i < operand.len() ==> operand[i] == DataTypeView::Boolean {
            operand
        } else {
            operand.push(DataTypeView::Void)
        }
    } else {
        seq![DataTypeView::Void]
    }
}

/// The types that a range yields from the types collected of its bounds: those types,
/// and `Void` after them if one of them is not `Integer`.
pub open spec fn range_types(bounds: Seq<DataTypeView>) -> Seq<DataTypeView> {
    if forall|i: int| 0 <= i < bounds.len() ==> bounds[i] == DataTypeView::Integer {
        bounds
    } else {
        bounds.push(DataTypeView::Void)
    }
}

/// The type of an array literal from the types of its elements: they must be one
/// type, and there must be at least one element and no more than a length can count.
pub open spec fn array_type(elements: Seq<DataTypeView>) -> DataTypeView {
    if elements.len() > 0 && unified(elements) && elements.len() <= i32::MAX {
        DataTypeView::Array(Box::new(elements[0]), elements.len() as int)
    } else {
        DataTypeView::Void
    }
}

/// The type of a tuple literal from the types of its elements, none of which may be
/// `Void`.
pub open spec fn tuple_type(elements: Seq<DataTypeView>) -> DataTypeView {
    if forall|i: int| 0 <= i < elements.len() ==> elements[i] != DataTypeView::Void {
        DataTypeView::Tuple(elements)
    } else {
        DataTypeView::Void
    }
}

/// The type of a call from the callee's return type and parameter types, as the table
/// has them, and the types of the arguments: every argument must have a type, and the
/// arguments' types must be the parameters' types, one by one.
pub open spec fn call_type(
    table: TableView,
    name: Seq<char>,
    arguments: Seq<DataTypeView>,
) -> DataTypeView {
    match table.get_params(name) {
        Some(parameters) => {
            if id_type(table, name) != DataTypeView::Undefined && arguments == parameters && (
            forall|i: int| 0 <= i < arguments.len() ==> arguments[i] != DataTypeView::Void) {
                id_type(table, name)
            } else {
                DataTypeView::Void
            }
        },
        None => DataTypeView::Void,
    }
}

/// The type of an element of the array that `base` names, where the index has the
/// types `index`.
pub open spec fn index_type(
    table: TableView,
    base: ExpresionView,
    index: Seq<DataTypeView>,
) -> DataTypeView {
    if index == seq![DataTypeView::Integer] {
        match base {
            ExpresionView::Identifier(id) => match id_type(table, id) {
                DataTypeView::Array(element, size) => *element,
                _ => DataTypeView::Void,
            },
            _ => DataTypeView::Void,
        }
    } else {
        DataTypeView::Void
    }
}

/// The type of slot `position` of the tuple that `base` names.
pub open spec fn tuple_index_type(
    table: TableView,
    base: ExpresionView,
    position: int,
) -> DataTypeView {
    match base {
        ExpresionView::Identifier(id) => match id_type(table, id) {
            DataTypeView::Tuple(slots) => if 0 <= position < slots.len() {
                slots[position]
            } else {
                DataTypeView::Void
            },
            _ => DataTypeView::Void,
        },
        _ => DataTypeView::Void,
    }
}

/// The type of each expression of a list, as `sole_type` gives it.
pub open spec fn element_types(table: TableView, items: Seq<ExpresionView>) -> Seq<DataTypeView>
    decreases items, 1int,
{
    Seq::new(
        items.len(),
        |i: int|
            if 0 <= i < items.len() {
                sole_type(types_of(table, items[i]))
            } else {
                DataTypeView::Void
            },
    )
}

/// The types that checking an expression collects: what is appended to the list of
/// the types seen so far.
pub open spec fn types_of(table: TableView, e: ExpresionView) -> Seq<DataTypeView>
    decreases e, 0int,
{
    match e {
        ExpresionView::Literal(literal) => seq![literal_type(literal)],
        ExpresionView::Identifier(id) => seq![identifier_type(table, id)],
        ExpresionView::Binary(left, operator, right) => binary_types(
            operator,
            sole_type(types_of(table, *left)),
            sole_type(types_of(table, *right)),
        ),
        ExpresionView::FnCall(name, arguments) => seq![
            call_type(table, name, element_types(table, arguments)),
        ],
        ExpresionView::Tuple(items) => seq![tuple_type(element_types(table, items))],
        ExpresionView::Array(items) => seq![array_type(element_types(table, items))],
        ExpresionView::Index(base, index) => seq![
            index_type(table, *base, types_of(table, *index)),
        ],
        ExpresionView::Member(base, field) => Seq::empty(),
        ExpresionView::TupleIndex(base, position) => seq![
            tuple_index_type(table, *base, position),
        ],
        ExpresionView::Unary(operator, operand) => unary_types(operator, types_of(table, *operand)),
        ExpresionView::Range(start, end, inclusive) => range_types(
            types_of(table, *start) + types_of(table, *end),
        ),
    }
}

/// The outcome of checking statements: whether they passed, and the table as the
/// check left it.
pub struct Verdict {
    pub ok: bool,
    pub table: TableView,
}

/// The type that a `return` must have inside the body of the function `name`.
pub open spec fn return_type(table: TableView, name: Seq<char>) -> Option<DataTypeView> {
    match table.read_symbol(name) {
        Some(symbol) => match symbol.kind {
            SymbolKindView::Function { data_type, parameters, param_types } => data_type,
            _ => None,
        },
        None => None,
    }
}

/// Whether the iterable of a `for` is accepted: a range whose bounds are integers, or
/// an array literal of integers. Any other iterable is refused.
pub open spec fn iterable_ok(table: TableView, iterable: ExpresionView) -> bool {
    let types = types_of(table, iterable);
    match iterable {
        ExpresionView::Range(start, end, inclusive) => types.len() > 0 && unified(types),
        ExpresionView::Array(items) => types.len() == 1 && types[0] is Array && *types[0]->Array_0
            == DataTypeView::Integer,
        _ => false,
    }
}

/// The types to unify for a declaration with an initializer: the type on record for
/// the name, unless it is `Void`, and the types of the initializer.
pub open spec fn declaration_types(
    table: TableView,
    id: Seq<char>,
    value: ExpresionView,
) -> Seq<DataTypeView> {
    let declared = id_type(table, id);
    let start = if declared != DataTypeView::Void {
        seq![declared]
    } else {
        Seq::empty()
    };
    start + types_of(table, value)
}

/// The table after a declaration with an initializer was looked at: a name without a
/// type on record adopts the initializer's type, if that is a single one.
pub open spec fn declaration_inferred(
    table: TableView,
    id: Seq<char>,
    value: ExpresionView,
) -> TableView {
    let types = declaration_types(table, id, value);
    if id_type(table, id) == DataTypeView::Void && types.len() == 1 {
        table.update_var_type(id, types[0])
    } else {
        table
    }
}

/// The types to unify for a `return` with a value: the type that the enclosing
/// function returns, if there is one, and the types of the value.
pub open spec fn return_types(
    table: TableView,
    value: ExpresionView,
    expected: Option<DataTypeView>,
) -> Seq<DataTypeView> {
    let start = match expected {
        Some(t) => seq![t],
        None => Seq::empty(),
    };
    start + types_of(table, value)
}

/// The outcome of checking a declaration with an initializer: the types must be
/// coherent, and the variable then has a value.
pub open spec fn declaration_verdict(table: TableView, id: Seq<char>, value: ExpresionView) -> Verdict {
    let inferred = declaration_inferred(table, id, value);
    if unified(declaration_types(table, id, value)) {
        Verdict { ok: true, table: inferred.update_var_assigned(id) }
    } else {
        Verdict { ok: false, table: inferred }
    }
}

/// The outcome of checking an assignment. A target that is a name must be a
/// variable; its type on record and the types of the value must be coherent, and the
/// variable then has a value. For any other target, the types that it collects and
/// those of the value must be coherent.
pub open spec fn assignment_verdict(
    table: TableView,
    target: ExpresionView,
    value: ExpresionView,
) -> Verdict {
    match target {
        ExpresionView::Identifier(id) => {
            if is_variable(table, id) && unified(seq![id_type(table, id)] + types_of(table, value)) {
                Verdict { ok: true, table: table.update_var_assigned(id) }
            } else {
                Verdict { ok: false, table }
            }
        },
        _ => Verdict { ok: unified(types_of(table, target) + types_of(table, value)), table },
    }
}

/// The outcome of checking the statements of `block` from `from` on, in order, up to
/// the first that fails.
pub open spec fn check_block(
    table: TableView,
    block: Seq<StatementView>,
    expected: Option<DataTypeView>,
    from: int,
) -> Verdict
    decreases block, block.len() - from,
{
    if from < 0 || from >= block.len() {
        Verdict { ok: true, table }
    } else {
        let first = check_statement(table, block[from], expected);
        if first.ok {
            check_block(first.table, block, expected, from + 1)
        } else {
            first
        }
    }
}

/// The outcome of checking one statement. `expected` is the return type of the
/// function whose body the statement stands in, if it stands in one.
pub open spec fn check_statement(
    table: TableView,
    statement: StatementView,
    expected: Option<DataTypeView>,
) -> Verdict
    decreases statement, 0int,
{
    match statement {
        StatementView::ExpressionStatement(e) => Verdict { ok: unified(types_of(table, e)), table },
        StatementView::Return(value) => match value {
            Some(e) => Verdict { ok: unified(return_types(table, e, expected)), table },
            None => Verdict { ok: true, table },
        },
        StatementView::Declaration(id, value) => match value {
            Some(e) => declaration_verdict(table, id, e),
            None => Verdict { ok: true, table },
        },
        StatementView::Assignment(target, value) => assignment_verdict(table, target, value),
        StatementView::If(condition, body, otherwise, scope) => {
            if sole_type(types_of(table, condition)) == DataTypeView::Boolean {
                let then = check_block(table, body, expected, 0);
                if then.ok {
                    match otherwise {
                        Some(other) => check_statement(then.table, *other, expected),
                        None => then,
                    }
                } else {
                    then
                }
            } else {
                Verdict { ok: false, table }
            }
        },
        StatementView::Loop(body, scope) => check_block(table, body, expected, 0),
        StatementView::For(variable, iterable, body, scope) => {
            if iterable_ok(table, iterable) {
                check_block(table, body, expected, 0)
            } else {
                Verdict { ok: false, table }
            }
        },
        StatementView::FnDeclaration(name, parameters, body, scope) => check_block(
            table,
            body,
            return_type(table, name),
            0,
        ),
    }
}

/// The place of the first statement of `block`, from `from` on, that fails the check.
pub open spec fn first_failure(
    table: TableView,
    block: Seq<StatementView>,
    expected: Option<DataTypeView>,
    from: int,
) -> Option<int>
    decreases block.len() - from,
{
    if from < 0 || from >= block.len() {
        None
    } else {
        let first = check_statement(table, block[from], expected);
        if first.ok {
            first_failure(first.table, block, expected, from + 1)
        } else {
            Some(from)
        }
    }
}

/// A block passes the check if and only if none of its statements is the first to
/// fail; the first to fail stands in the block.
pub proof fn failure_means_not_ok(
    table: TableView,
    block: Seq<StatementView>,
    expected: Option<DataTypeView>,
    from: int,
)
    requires
        0 <= from,
    ensures
        check_block(table, block, expected, from).ok == (first_failure(
            table,
            block,
            expected,
            from,
        ) is None),
        first_failure(table, block, expected, from) is Some ==> from <= first_failure(
            table,
            block,
            expected,
            from,
        )->0 < block.len(),
    decreases block.len() - from,
{
    if from < block.len() {
        let first = check_statement(table, block[from], expected);
        if first.ok {
            failure_means_not_ok(first.table, block, expected, from + 1);
        }
    }
}

/// Puts a type after the types collected so far.
fn push_type(types: &mut Vec<DataType>, t: DataType)
    ensures
        type_views(final(types)@) == type_views(old(types)@) + seq![t@],
{
    types.push(t);
    assert(type_views(types@) =~= type_views(old(types)@) + seq![t@]);
}

/// Puts a list of types after the types collected so far.
fn push_types(types: &mut Vec<DataType>, more: Vec<DataType>)
    ensures
        type_views(final(types)@) == type_views(old(types)@) + type_views(more@),
{
    let ghost added = more@;
    let mut more = more;
    types.append(&mut more);
    assert(type_views(types@) =~= type_views(old(types)@) + type_views(added));
}

/// A list of one type.
fn one_type(t: DataType) -> (types: Vec<DataType>)
    ensures
        type_views(types@) == seq![t@],
{
    let mut types: Vec<DataType> = Vec::new();
    types.push(t);
    assert(type_views(types@) =~= seq![t@]);
    types
}

/// A list of no type.
fn no_type() -> (types: Vec<DataType>)
    ensures
        type_views(types@) == Seq::<DataTypeView>::empty(),
{
    let types: Vec<DataType> = Vec::new();
    assert(type_views(types@) =~= Seq::<DataTypeView>::empty());
    types
}

fn numeric(t: &DataType) -> (r: bool)
    ensures
        r == is_numeric(t@),
{
    matches!(t, DataType::Integer) || matches!(t, DataType::Float)
}

/// Whether every type of a list is a number type, where `numbers` is set, or is
/// `Boolean`, where it is not.
fn all_fit(types: &Vec<DataType>, numbers: bool) -> (fits: bool)
    ensures
        numbers ==> fits == (forall|k: int|
            0 <= k < types.len() ==> is_numeric(#[trigger] type_views(types@)[k])),
        !numbers ==> fits == (forall|k: int|
            0 <= k < types.len() ==> (#[trigger] type_views(types@)[k]) == DataTypeView::Boolean),
{
    let mut i: usize = 0;
    while i < types.len()
        invariant
            i <= types.len(),
            numbers ==> forall|k: int| 0 <= k < i ==> is_numeric(#[trigger] type_views(types@)[k]),
            !numbers ==> forall|k: int|
                0 <= k < i ==> (#[trigger] type_views(types@)[k]) == DataTypeView::Boolean,
        decreases types.len() - i,
    {
        let good = if numbers {
            numeric(&types[i])
        } else {
            matches!(types[i], DataType::Boolean)
        };
        if !good {
            assert(numbers ==> !is_numeric(type_views(types@)[i as int]));
            assert(!numbers ==> type_views(types@)[i as int] != DataTypeView::Boolean);
            return false;
        }
        i += 1;
    }
    true
}

/// Whether every type of a list is `Integer`.
fn all_integer(types: &Vec<DataType>) -> (fits: bool)
    ensures
        fits == (forall|k: int|
            0 <= k < types.len() ==> (#[trigger] type_views(types@)[k]) == DataTypeView::Integer),
{
    let mut i: usize = 0;
    while i < types.len()
        invariant
            i <= types.len(),
            forall|k: int| 0 <= k < i ==> (#[trigger] type_views(types@)[k]) == DataTypeView::Integer,
        decreases types.len() - i,
    {
        if !matches!(types[i], DataType::Integer) {
            assert(type_views(types@)[i as int] != DataTypeView::Integer);
            return false;
        }
        i += 1;
    }
    true
}

/// Whether no type of a list is `Void`.
fn none_void(types: &Vec<DataType>) -> (fits: bool)
    ensures
        fits == (forall|k: int|
            0 <= k < types.len() ==> (#[trigger] type_views(types@)[k]) != DataTypeView::Void),
{
    let mut i: usize = 0;
    while i < types.len()
        invariant
            i <= types.len(),
            forall|k: int| 0 <= k < i ==> (#[trigger] type_views(types@)[k]) != DataTypeView::Void,
        decreases types.len() - i,
    {
        if matches!(types[i], DataType::Void) {
            assert(type_views(types@)[i as int] == DataTypeView::Void);
            return false;
        }
        i += 1;
    }
    true
}

/// Whether two lists hold the same types in the same order.
fn same_types(a: &Vec<DataType>, b: &Vec<DataType>) -> (same: bool)
    ensures
        same == (type_views(a@) == type_views(b@)),
{
    if a.len() != b.len() {
        assert(type_views(a@).len() != type_views(b@).len());
        return false;
    }
    let mut i: usize = 0;
    while i < a.len()
        invariant
            i <= a.len(),
            a.len() == b.len(),
            forall|k: int| 0 <= k < i ==> (#[trigger] type_views(a@)[k]) == type_views(b@)[k],
        decreases a.len() - i,
    {
        if !a[i].same(&b[i]) {
            assert(type_views(a@)[i as int] != type_views(b@)[i as int]);
            return false;
        }
        i += 1;
    }
    assert(type_views(a@) =~= type_views(b@));
    true
}

/// The type of the first parameter called `id`.
fn param_in(parameters: &Vec<String>, param_types: &Vec<DataType>, id: &String) -> (r: Option<
    DataType,
>)
    ensures
        match param_type_in(name_views(parameters@), type_views(param_types@), id@, 0) {
            Some(t) => r is Some && r->0@ == t,
            None => r is None,
        },
{
    let mut i: usize = 0;
    while i < parameters.len() && i < param_types.len()
        invariant
            i <= parameters.len(),
            i <= param_types.len(),
            param_type_in(name_views(parameters@), type_views(param_types@), id@, i as int)
                == param_type_in(name_views(parameters@), type_views(param_types@), id@, 0),
        decreases parameters.len() - i,
    {
        if parameters[i] == *id {
            return Some(param_types[i].duplicate());
        }
        i += 1;
    }
    None
}

/// The checker of a parsed program: the statements, and the table that the parser
/// made for them.
#[derive(Debug)]
pub struct Semantic {
    pub program: Vec<Statement>,
    pub table: SymbolTable,
}

impl Semantic {
    pub fn new(program: Vec<Statement>, table: SymbolTable) -> (checker: Semantic)
        ensures
            checker.program == program,
            checker.table == table,
    {
        Semantic { program, table }
    }

    /// Checks the statements of the program in order, up to the first that fails.
    /// The table is left as the check made it: variables that were given a value are
    /// marked, and a variable without a type has that of its initializer.
    pub fn semantic_check(&mut self) -> (ok: bool)
        ensures
            final(self).program == old(self).program,
            (Verdict { ok, table: final(self).table@ }) == check_block(
                old(self).table@,
                statement_views(old(self).program@),
                None,
                0,
            ),
    {
        let expected: Option<DataType> = None;
        Semantic::check_block(&mut self.table, &self.program, &expected)
    }

    /// Checks the statements of the program in order and returns the place of the
    /// first that fails, if one does. The table is left as `semantic_check` leaves it.
    pub fn failing_statement(&mut self) -> (failed: Option<usize>)
        ensures
            final(self).program == old(self).program,
            final(self).table@ == check_block(
                old(self).table@,
                statement_views(old(self).program@),
                None,
                0,
            ).table,
            match first_failure(old(self).table@, statement_views(old(self).program@), None, 0) {
                Some(place) => failed == Some(place as usize) && place < old(self).program.len(),
                None => failed is None,
            },
    {
        let expected: Option<DataType> = None;
        let ghost views = statement_views(self.program@);
        let ghost start = self.table@;
        let mut i: usize = 0;
        while i < self.program.len()
            invariant
                i <= self.program.len(),
                self.program == old(self).program,
                views == statement_views(self.program@),
                start == old(self).table@,
                expected is None,
                check_block(self.table@, views, None, i as int) == check_block(start, views, None, 0),
                first_failure(self.table@, views, None, i as int) == first_failure(
                    start,
                    views,
                    None,
                    0,
                ),
            decreases self.program.len() - i,
        {
            assert(views[i as int] == self.program@[i as int]@);
            let ok = Semantic::check_type(&mut self.table, &self.program[i], &expected);
            if !ok {
                return Some(i);
            }
            i += 1;
        }
        None
    }

    /// Checks the statements of a block in order, up to the first that fails.
    pub fn check_block(
        table: &mut SymbolTable,
        block: &Vec<Statement>,
        expected: &Option<DataType>,
    ) -> (ok: bool)
        ensures
            (Verdict { ok, table: final(table)@ }) == check_block(
                old(table)@,
                statement_views(block@),
                optional_type_view(*expected),
                0,
            ),
        decreases block, 1int,
    {
        let ghost views = statement_views(block@);
        let ghost goal = check_block(old(table)@, views, optional_type_view(*expected), 0);
        let mut i: usize = 0;
        while i < block.len()
            invariant
                i <= block.len(),
                views == statement_views(block@),
                goal == check_block(old(table)@, views, optional_type_view(*expected), 0),
                check_block(table@, views, optional_type_view(*expected), i as int) == goal,
            decreases block.len() - i,
        {
            proof {
                vstd::std_specs::vec::axiom_vec_index_decreases(*block, i as int);
                assert(views[i as int] == block@[i as int]@);
            }
            let ghost before = table@;
            let ok = Semantic::check_type(table, &block[i], expected);
            proof {
                let first = check_statement(before, views[i as int], optional_type_view(*expected));
                assert(first == Verdict { ok, table: table@ });
                assert(check_block(before, views, optional_type_view(*expected), i as int) == if ok {
                    check_block(table@, views, optional_type_view(*expected), i as int + 1)
                } else {
                    first
                });
            }
            if !ok {
                return false;
            }
            i += 1;
        }
        true
    }

    /// Checks a declaration with an initializer.
    pub fn check_declaration(table: &mut SymbolTable, id: &String, value: &Expresion) -> (ok: bool)
        ensures
            (Verdict { ok, table: final(table)@ }) == declaration_verdict(old(table)@, id@, value@),
    {
        let declared = Semantic::collect_id_type(table, id);
        let untyped = matches!(declared, DataType::Void);
        let types = if untyped {
            no_type()
        } else {
            one_type(declared)
        };
        let types = Semantic::collect_types(table, value, types);
        if untyped && types.len() == 1 {
            table.update_var_type(id.as_str(), types[0].duplicate());
        }
        if !Semantic::check_collection(&types) {
            return false;
        }
        table.update_var_assigned(id.as_str());
        true
    }

    /// Checks an assignment.
    pub fn check_assign(table: &mut SymbolTable, target: &Expresion, value: &Expresion) -> (ok:
        bool)
        ensures
            (Verdict { ok, table: final(table)@ }) == assignment_verdict(
                old(table)@,
                target@,
                value@,
            ),
    {
        match target {
            Expresion::Identifier(id) => {
                let variable = match table.read_symbol(id.as_str()) {
                    Some(symbol) => matches!(symbol.kind, SymbolKind::Variable { .. }),
                    None => false,
                };
                if !variable {
                    return false;
                }
                let types = one_type(Semantic::collect_id_type(table, id));
                let types = Semantic::collect_types(table, value, types);
                if !Semantic::check_collection(&types) {
                    return false;
                }
                table.update_var_assigned(id.as_str());
                true
            },
            _ => {
                let types = Semantic::collect_types(table, target, no_type());
                let types = Semantic::collect_types(table, value, types);
                Semantic::check_collection(&types)
            },
        }
    }

    /// Whether the value of a `return` fits the function that it stands in.
    pub fn check_return(table: &SymbolTable, value: &Expresion, expected: &Option<DataType>) -> (ok:
        bool)
        ensures
            ok == unified(return_types(table@, value@, optional_type_view(*expected))),
    {
        let types = match expected {
            Some(t) => one_type(t.duplicate()),
            None => no_type(),
        };
        let types = Semantic::collect_types(table, value, types);
        Semantic::check_collection(&types)
    }

    /// Whether the iterable of a `for` is accepted.
    pub fn check_iterable(table: &SymbolTable, iterable: &Expresion) -> (ok: bool)
        ensures
            ok == iterable_ok(table@, iterable@),
    {
        let types = Semantic::collect_types(table, iterable, no_type());
        assert(type_views(types@) =~= types_of(table@, iterable@));
        assert(types.len() > 0 ==> type_views(types@)[0] == types@[0]@);
        proof {
            reveal_with_fuel(DataType::model, 2);
        }
        match iterable {
            Expresion::Range(_, _, _) => types.len() > 0 && Semantic::check_collection(&types),
            Expresion::Array(_) => types.len() == 1 && match &types[0] {
                DataType::Array(element, _) => matches!(**element, DataType::Integer),
                _ => false,
            },
            _ => false,
        }
    }

    /// The return type that the table has for the function `name`.
    pub fn declared_return(table: &SymbolTable, name: &String) -> (r: Option<DataType>)
        ensures
            optional_type_view(r) == return_type(table@, name@),
    {
        match table.read_symbol(name.as_str()) {
            Some(symbol) => match &symbol.kind {
                SymbolKind::Function { data_type, .. } => duplicate_optional_type(data_type),
                _ => None,
            },
            None => None,
        }
    }

    /// Whether a condition is a boolean.
    pub fn check_condition(table: &SymbolTable, condition: &Expresion) -> (ok: bool)
        ensures
            ok == (sole_type(types_of(table@, condition@)) == DataTypeView::Boolean),
    {
        let types = Semantic::collect_types(table, condition, no_type());
        assert(type_views(types@) =~= types_of(table@, condition@));
        let t = Semantic::sole_type(&types);
        matches!(t, DataType::Boolean)
    }

    /// Checks one statement. `expected` is the return type of the function whose body
    /// the statement stands in, if it stands in one.
    pub fn check_type(
        table: &mut SymbolTable,
        statement: &Statement,
        expected: &Option<DataType>,
    ) -> (ok: bool)
        ensures
            (Verdict { ok, table: final(table)@ }) == check_statement(
                old(table)@,
                statement@,
                optional_type_view(*expected),
            ),
        decreases statement, 0int,
    {
        match statement {
            Statement::FnDeclaration(name, _, body, _) => {
                let returned = Semantic::declared_return(table, name);
                Semantic::check_block(table, body, &returned)
            },
            Statement::If(condition, body, otherwise, _) => {
                if !Semantic::check_condition(table, condition) {
                    return false;
                }
                if !Semantic::check_block(table, body, expected) {
                    return false;
                }
                match otherwise {
                    Some(other) => Semantic::check_type(table, other, expected),
                    None => true,
                }
            },
            Statement::Loop(body, _) => Semantic::check_block(table, body, expected),
            Statement::For(_, iterable, body, _) => {
                if !Semantic::check_iterable(table, iterable) {
                    return false;
                }
                Semantic::check_block(table, body, expected)
            },
            Statement::Return(value) => match value {
                Some(e) => Semantic::check_return(table, e, expected),
                None => true,
            },
            Statement::Declaration(id, value) => match value {
                Some(e) => Semantic::check_declaration(table, id, e),
                None => true,
            },
            Statement::Assignment(target, value) => Semantic::check_assign(table, target, value),
            Statement::ExpressionStatement(e) => {
                let types = Semantic::collect_types(table, e, no_type());
                assert(type_views(types@) =~= types_of(table@, e@));
                Semantic::check_collection(&types)
            },
        }
    }

    /// The type of each expression of a list: the one type that the expression
    /// collects, or `Void`.
    pub fn element_types(table: &SymbolTable, items: &Vec<Expresion>) -> (types: Vec<DataType>)
        ensures
            type_views(types@) == element_types(table@, expresion_views(items@)),
        decreases items, 3int,
    {
        let mut types: Vec<DataType> = Vec::new();
        let mut i: usize = 0;
        while i < items.len()
            invariant
                i <= items.len(),
                types.len() == i,
                forall|k: int|
                    0 <= k < i ==> (#[trigger] types@[k])@ == sole_type(
                        types_of(table@, items@[k]@),
                    ),
            decreases items.len() - i,
        {
            proof {
                vstd::std_specs::vec::axiom_vec_index_decreases(*items, i as int);
            }
            let collected = Semantic::collect_types(table, &items[i], no_type());
            assert(type_views(collected@) =~= types_of(table@, items@[i as int]@));
            types.push(Semantic::sole_type(&collected));
            i += 1;
        }
        assert(type_views(types@) =~= element_types(table@, expresion_views(items@)));
        types
    }

    /// The one type that an expression collects, or `Void`.
    fn sole_type_of(table: &SymbolTable, expr: &Expresion) -> (t: DataType)
        ensures
            t@ == sole_type(types_of(table@, expr@)),
        decreases expr, 2int,
    {
        let collected = Semantic::collect_types(table, expr, no_type());
        assert(type_views(collected@) =~= types_of(table@, expr@));
        Semantic::sole_type(&collected)
    }

    /// The types that an expression collects.
    fn types_of(table: &SymbolTable, expr: &Expresion) -> (types: Vec<DataType>)
        ensures
            type_views(types@) == types_of(table@, expr@),
        decreases expr, 0int,
    {
        match expr {
            Expresion::Binary(left, operator, right) => {
                let l = Semantic::sole_type_of(table, left);
                let r = Semantic::sole_type_of(table, right);
                Semantic::binary_result(operator, &l, &r)
            },
            Expresion::Array(items) => {
                let elements = Semantic::element_types(table, items);
                one_type(Semantic::array_result(&elements))
            },
            Expresion::Tuple(items) => {
                let elements = Semantic::element_types(table, items);
                one_type(Semantic::tuple_result(elements))
            },
            Expresion::Unary(operator, operand) => {
                let collected = Semantic::types_of(table, operand);
                Semantic::unary_result(operator, collected)
            },
            Expresion::Range(start, end, _) => {
                let mut bounds = Semantic::types_of(table, start);
                let upper = Semantic::types_of(table, end);
                push_types(&mut bounds, upper);
                Semantic::range_result(bounds)
            },
            Expresion::Literal(literal) => one_type(Semantic::literal_result(literal)),
            Expresion::Identifier(id) => one_type(Semantic::identifier_result(table, id)),
            Expresion::FnCall(name, arguments) => {
                let given = Semantic::element_types(table, arguments);
                one_type(Semantic::call_result(table, name, &given))
            },
            Expresion::Index(base, index) => {
                let index_types = Semantic::types_of(table, index);
                one_type(Semantic::index_result(table, base, &index_types))
            },
            Expresion::TupleIndex(base, position) => one_type(
                Semantic::tuple_index_result(table, base, *position),
            ),
            Expresion::Member(_, _) => no_type(),
        }
    }

    /// Puts the types that an expression collects after `type_collection`.
    pub fn collect_types(
        table: &SymbolTable,
        expr: &Expresion,
        type_collection: Vec<DataType>,
    ) -> (types: Vec<DataType>)
        ensures
            type_views(types@) == type_views(type_collection@) + types_of(table@, expr@),
        decreases expr, 1int,
    {
        let mut types = type_collection;
        let more = Semantic::types_of(table, expr);
        push_types(&mut types, more);
        types
    }

    /// The types that a binary operation yields from the types of its operands.
    pub fn binary_result(operator: &Token, left: &DataType, right: &DataType) -> (types: Vec<
        DataType,
    >)
        ensures
            type_views(types@) == binary_types(operator@, left@, right@),
    {
        match operator {
            Token::Operator(_) => {
                if numeric(left) && numeric(right) {
                    if matches!(left, DataType::Float) || matches!(right, DataType::Float) {
                        one_type(DataType::Float)
                    } else {
                        one_type(DataType::Integer)
                    }
                } else {
                    one_type(DataType::Void)
                }
            },
            Token::LogicalOperator(text) => {
                if is_text(text, "||") || is_text(text, "&&") {
                    if matches!(left, DataType::Boolean) && matches!(right, DataType::Boolean) {
                        one_type(DataType::Boolean)
                    } else {
                        one_type(DataType::Void)
                    }
                } else if numeric(left) && left.same(right) {
                    one_type(DataType::Boolean)
                } else {
                    one_type(DataType::Void)
                }
            },
            _ => no_type(),
        }
    }

    /// The types that a unary operation yields from the types of its operand.
    pub fn unary_result(operator: &Token, operand: Vec<DataType>) -> (types: Vec<DataType>)
        ensures
            type_views(types@) == unary_types(operator@, type_views(operand@)),
    {
        let minus = operator.is_operator("-");
        let not = operator.is_operator("!");
        if minus || not {
            let fits = all_fit(&operand, minus);
            let mut types = operand;
            if !fits {
                push_type(&mut types, DataType::Void);
                assert(type_views(types@) =~= type_views(operand@).push(DataTypeView::Void));
            }
            types
        } else {
            one_type(DataType::Void)
        }
    }

    /// The types that a range yields from the types of its bounds.
    pub fn range_result(bounds: Vec<DataType>) -> (types: Vec<DataType>)
        ensures
            type_views(types@) == range_types(type_views(bounds@)),
    {
        let fits = all_integer(&bounds);
        let mut types = bounds;
        if !fits {
            push_type(&mut types, DataType::Void);
            assert(type_views(types@) =~= type_views(bounds@).push(DataTypeView::Void));
        }
        types
    }

    /// The type of an array literal from the types of its elements.
    pub fn array_result(elements: &Vec<DataType>) -> (t: DataType)
        ensures
            t@ == array_type(type_views(elements@)),
    {
        if elements.len() > 0 && elements.len() <= 2147483647 && Semantic::check_collection(
            elements,
        ) {
            let size = elements.len() as i32;
            DataType::Array(Box::new(elements[0].duplicate()), size)
        } else {
            DataType::Void
        }
    }

    /// The type of a tuple literal from the types of its elements.
    pub fn tuple_result(elements: Vec<DataType>) -> (t: DataType)
        ensures
            t@ == tuple_type(type_views(elements@)),
    {
        if none_void(&elements) {
            let whole = DataType::Tuple(elements);
            assert(whole@->Tuple_0 =~= type_views(elements@));
            whole
        } else {
            DataType::Void
        }
    }

    /// The type of a literal.
    pub fn literal_result(literal: &Literal) -> (t: DataType)
        ensures
            t@ == literal_type(literal@),
    {
        match literal {
            Literal::Number(Number::Integer(_)) => DataType::Integer,
            Literal::Number(Number::Float(_)) => DataType::Float,
            Literal::String(_) => DataType::String,
            Literal::Boolean(_) => DataType::Boolean,
        }
    }

    /// The type of a name that is read.
    pub fn identifier_result(table: &SymbolTable, id: &String) -> (t: DataType)
        ensures
            t@ == identifier_type(table@, id@),
    {
        let variable = match table.read_symbol(id.as_str()) {
            Some(symbol) => matches!(symbol.kind, SymbolKind::Variable { .. }),
            None => false,
        };
        if variable {
            if Semantic::check_assignment(table, id) {
                Semantic::collect_id_type(table, id)
            } else {
                DataType::Void
            }
        } else {
            let t = Semantic::collect_param_type(table, id);
            if matches!(t, DataType::Undefined) {
                DataType::Void
            } else {
                t
            }
        }
    }

    /// The type of a call from the types of its arguments.
    pub fn call_result(table: &SymbolTable, name: &String, arguments: &Vec<DataType>) -> (t:
        DataType)
        ensures
            t@ == call_type(table@, name@, type_views(arguments@)),
    {
        let returned = Semantic::collect_id_type(table, name);
        match table.get_params(name.as_str()) {
            Some(parameters) => {
                if !matches!(returned, DataType::Undefined) && same_types(arguments, parameters)
                    && none_void(arguments) {
                    returned
                } else {
                    DataType::Void
                }
            },
            None => DataType::Void,
        }
    }

    /// The type of an element of the array that `base` names.
    pub fn index_result(table: &SymbolTable, base: &Expresion, index: &Vec<DataType>) -> (t:
        DataType)
        ensures
            t@ == index_type(table@, base@, type_views(index@)),
    {
        if index.len() == 1 && matches!(index[0], DataType::Integer) {
            assert(type_views(index@) =~= seq![DataTypeView::Integer]);
            match base {
                Expresion::Identifier(id) => match Semantic::collect_id_type(table, id) {
                    DataType::Array(element, _) => *element,
                    _ => DataType::Void,
                },
                _ => DataType::Void,
            }
        } else {
            assert(type_views(index@) != seq![DataTypeView::Integer]) by {
                if type_views(index@) == seq![DataTypeView::Integer] {
                    assert(type_views(index@).len() == 1);
                    assert(type_views(index@)[0] == DataTypeView::Integer);
                }
            }
            DataType::Void
        }
    }

    /// The type of slot `position` of the tuple that `base` names.
    pub fn tuple_index_result(table: &SymbolTable, base: &Expresion, position: usize) -> (t:
        DataType)
        ensures
            t@ == tuple_index_type(table@, base@, position as int),
    {
        match base {
            Expresion::Identifier(id) => match Semantic::collect_id_type(table, id) {
                DataType::Tuple(slots) => {
                    if position < slots.len() {
                        slots[position].duplicate()
                    } else {
                        DataType::Void
                    }
                },
                _ => DataType::Void,
            },
            _ => DataType::Void,
        }
    }

    /// The type on record for a name.
    pub fn collect_id_type(table: &SymbolTable, id: &String) -> (t: DataType)
        ensures
            t@ == id_type(table@, id@),
    {
        match table.read_symbol(id.as_str()) {
            Some(symbol) => match &symbol.kind {
                SymbolKind::Variable { data_type, .. } => match data_type {
                    Some(t) => t.duplicate(),
                    None => DataType::Void,
                },
                SymbolKind::Function { data_type, .. } => match data_type {
                    Some(t) => t.duplicate(),
                    None => DataType::Undefined,
                },
            },
            None => DataType::Undefined,
        }
    }

    /// Whether a name is bound to a variable that has a value.
    pub fn check_assignment(table: &SymbolTable, id: &String) -> (r: bool)
        ensures
            r == is_assigned(table@, id@),
    {
        match table.read_symbol(id.as_str()) {
            Some(symbol) => match &symbol.kind {
                SymbolKind::Variable { assigned, .. } => *assigned,
                _ => false,
            },
            None => false,
        }
    }

    /// The type of a name as a parameter of any function of the table; `Undefined`
    /// where no function has such a parameter.
    pub fn collect_param_type(table: &SymbolTable, id: &String) -> (t: DataType)
        ensures
            t@ == param_type(table@, id@),
    {
        let symbols = table.get_all_symbols();
        let ghost all = table@.all_symbols();
        let mut k: usize = 0;
        while k < symbols.len()
            invariant
                k <= symbols.len(),
                symbols@.len() == all.len(),
                forall|n: int| 0 <= n < symbols@.len() ==> (#[trigger] symbols@[n])@ == all[n],
                param_type_from(all, id@, k as int) == param_type_from(all, id@, 0),
                all == table@.all_symbols(),
            decreases symbols.len() - k,
        {
            let symbol: &Symbol = symbols[k];
            assert(symbol@ == all[k as int]);
            match &symbol.kind {
                SymbolKind::Function { parameters, param_types, .. } => {
                    match param_in(parameters, param_types, id) {
                        Some(t) => {
                            return t;
                        },
                        None => {},
                    }
                },
                _ => {},
            }
            k += 1;
        }
        DataType::Undefined
    }

    /// Whether a list of collected types is coherent.
    pub fn check_collection(type_collection: &Vec<DataType>) -> (r: bool)
        ensures
            r == unified(type_views(type_collection@)),
    {
        if type_collection.len() == 0 {
            return true;
        }
        let mut i: usize = 1;
        while i < type_collection.len()
            invariant
                1 <= i <= type_collection.len(),
                forall|k: int|
                    0 <= k < i ==> (#[trigger] type_views(type_collection@)[k]) == type_views(
                        type_collection@,
                    )[0],
            decreases type_collection.len() - i,
        {
            if !type_collection[0].same(&type_collection[i]) {
                assert(type_views(type_collection@)[i as int] != type_views(type_collection@)[0]);
                return false;
            }
            i += 1;
        }
        !matches!(type_collection[0], DataType::Void)
    }

    /// The one type that a coherent, non-empty list stands for; `Void` for any other
    /// list.
    pub fn sole_type(types: &Vec<DataType>) -> (t: DataType)
        ensures
            t@ == sole_type(type_views(types@)),
    {
        if types.len() > 0 && Semantic::check_collection(types) {
            types[0].duplicate()
        } else {
            DataType::Void
        }
    }
}

/// An expression made of number literals and arithmetic operators alone.
pub open spec fn is_arithmetic(e: ExpresionView) -> bool
    decreases e,
{
    match e {
        ExpresionView::Literal(LiteralView::Number(_)) => true,
        ExpresionView::Binary(left, TokenView::Operator(_), right) => is_arithmetic(*left)
            && is_arithmetic(*right),
        _ => false,
    }
}

/// Whether a float literal stands anywhere in an arithmetic expression.
pub open spec fn has_float(e: ExpresionView) -> bool
    decreases e,
{
    match e {
        ExpresionView::Literal(LiteralView::Number(NumberView::Float(_))) => true,
        ExpresionView::Binary(left, _, right) => has_float(*left) || has_float(*right),
        _ => false,
    }
}

/// An arithmetic expression over integer literals alone has the type `Integer`; with
/// a float literal anywhere in it, it has the type `Float`.
pub proof fn arithmetic_is_integer_unless_float(table: TableView, e: ExpresionView)
    requires
        is_arithmetic(e),
    ensures
        types_of(table, e) == seq![
            if has_float(e) {
                DataTypeView::Float
            } else {
                DataTypeView::Integer
            },
        ],
    decreases e,
{
    match e {
        ExpresionView::Binary(left, operator, right) => {
            arithmetic_is_integer_unless_float(table, *left);
            arithmetic_is_integer_unless_float(table, *right);
        },
        _ => {},
    }
}

/// An array literal whose elements have one type, which is not `Void`, has the array
/// type of that element type and of its length; one in which two elements differ in
/// type fails every check.
pub proof fn array_literal_needs_one_type(table: TableView, items: Seq<ExpresionView>)
    ensures
        ({
            let elements = element_types(table, items);
            let collected = types_of(table, ExpresionView::Array(items));
            &&& (0 < items.len() <= i32::MAX && elements[0] != DataTypeView::Void && (forall|i: int|
                0 <= i < elements.len() ==> #[trigger] elements[i] == elements[0])) ==> collected == seq![
                DataTypeView::Array(Box::new(elements[0]), items.len() as int),
            ]
            &&& (exists|i: int, j: int|
                0 <= i < elements.len() && 0 <= j < elements.len() && elements[i] != elements[j])
                ==> collected == seq![DataTypeView::Void] && !unified(collected)
        }),
{
    let elements = element_types(table, items);
    if exists|i: int, j: int|
        0 <= i < elements.len() && 0 <= j < elements.len() && elements[i] != elements[j] {
        let (i, j) = choose|i: int, j: int|
            0 <= i < elements.len() && 0 <= j < elements.len() && elements[i] != elements[j];
        assert(elements[i] != elements[0] || elements[j] != elements[0]);
        assert(!unified(elements));
    }
}

/// A `for` over a range passes only if every type collected of the bounds is
/// `Integer`; a `for` over an array literal passes only if the elements are integers.
pub proof fn for_needs_integers(
    table: TableView,
    variable: Seq<char>,
    iterable: ExpresionView,
    body: Seq<StatementView>,
    scope: int,
    expected: Option<DataTypeView>,
)
    requires
        check_statement(
            table,
            StatementView::For(variable, iterable, body, scope),
            expected,
        ).ok,
    ensures
        match iterable {
            ExpresionView::Range(start, end, inclusive) => {
                let bounds = types_of(table, *start) + types_of(table, *end);
                bounds.len() > 0 && forall|i: int|
                    0 <= i < bounds.len() ==> bounds[i] == DataTypeView::Integer
            },
            ExpresionView::Array(items) => {
                let elements = element_types(table, items);
                items.len() > 0 && forall|i: int|
                    0 <= i < elements.len() ==> elements[i] == DataTypeView::Integer
            },
            _ => false,
        },
{
    match iterable {
        ExpresionView::Range(start, end, inclusive) => {
            let bounds = types_of(table, *start) + types_of(table, *end);
            let collected = types_of(table, iterable);
            if !(forall|i: int| 0 <= i < bounds.len() ==> bounds[i] == DataTypeView::Integer) {
                assert(collected == bounds.push(DataTypeView::Void));
                assert(collected[bounds.len() as int] == DataTypeView::Void);
                assert(collected[0] == DataTypeView::Void);
            }
        },
        ExpresionView::Array(items) => {},
        _ => {},
    }
}

/// Reading a variable that has no value yields `Void`, so that an expression
/// statement or a `return` that reads it fails.
pub proof fn unassigned_variable_fails(
    table: TableView,
    id: Seq<char>,
    expected: Option<DataTypeView>,
)
    requires
        is_variable(table, id),
        !is_assigned(table, id),
    ensures
        types_of(table, ExpresionView::Identifier(id)) == seq![DataTypeView::Void],
        !check_statement(
            table,
            StatementView::ExpressionStatement(ExpresionView::Identifier(id)),
            expected,
        ).ok,
        !check_statement(
            table,
            StatementView::Return(Some(ExpresionView::Identifier(id))),
            expected,
        ).ok,
{
    let collected = return_types(table, ExpresionView::Identifier(id), expected);
    assert(collected[collected.len() - 1] == DataTypeView::Void);
    assert(collected[0] == DataTypeView::Void || collected[collected.len() - 1] != collected[0]);
}

/// A call of a known function whose arguments have the parameters' types, one by one,
/// has the function's return type; a call in which an argument's type differs from
/// its parameter's, or whose arguments are too few or too many, has the type `Void`.
pub proof fn call_needs_matching_arguments(
    table: TableView,
    name: Seq<char>,
    arguments: Seq<ExpresionView>,
)
    requires
        table.get_params(name) is Some,
        id_type(table, name) != DataTypeView::Undefined,
    ensures
        ({
            let given = element_types(table, arguments);
            let parameters = table.get_params(name)->0;
            let collected = types_of(table, ExpresionView::FnCall(name, arguments));
            &&& (given == parameters && forall|i: int|
                0 <= i < given.len() ==> given[i] != DataTypeView::Void) ==> collected == seq![
                id_type(table, name),
            ]
            &&& given.len() != parameters.len() ==> collected == seq![DataTypeView::Void]
            &&& (exists|i: int| 0 <= i < given.len() && i < parameters.len() && given[i] != parameters[i])
                ==> collected == seq![DataTypeView::Void]
        }),
{
}


/// Checking the statements of a block leaves a well-formed table well formed.
pub proof fn check_block_keeps_wf(
    table: TableView,
    block: Seq<StatementView>,
    expected: Option<DataTypeView>,
    from: int,
)
    requires
        table_wf(table),
    ensures
        table_wf(check_block(table, block, expected, from).table),
    decreases block, block.len() - from,
{
    if 0 <= from < block.len() {
        check_statement_keeps_wf(table, block[from], expected);
        let first = check_statement(table, block[from], expected);
        if first.ok {
            check_block_keeps_wf(first.table, block, expected, from + 1);
        }
    }
}

/// Checking a statement leaves a well-formed table well formed.
pub proof fn check_statement_keeps_wf(
    table: TableView,
    statement: StatementView,
    expected: Option<DataTypeView>,
)
    requires
        table_wf(table),
    ensures
        table_wf(check_statement(table, statement, expected).table),
    decreases statement, 0int,
{
    match statement {
        StatementView::Declaration(id, value) => match value {
            Some(e) => {
                let types = declaration_types(table, id, e);
                if id_type(table, id) == DataTypeView::Void && types.len() == 1 {
                    update_var_type_keeps_wf(table, id, types[0]);
                }
                update_var_assigned_keeps_wf(declaration_inferred(table, id, e), id);
            },
            None => {},
        },
        StatementView::Assignment(target, value) => match target {
            ExpresionView::Identifier(id) => {
                update_var_assigned_keeps_wf(table, id);
            },
            _ => {},
        },
        StatementView::If(condition, body, otherwise, scope) => {
            check_block_keeps_wf(table, body, expected, 0);
            let then = check_block(table, body, expected, 0);
            match otherwise {
                Some(other) => {
                    check_statement_keeps_wf(then.table, *other, expected);
                },
                None => {},
            }
        },
        StatementView::Loop(body, scope) => {
            check_block_keeps_wf(table, body, expected, 0);
        },
        StatementView::For(variable, iterable, body, scope) => {
            check_block_keeps_wf(table, body, expected, 0);
        },
        StatementView::FnDeclaration(name, parameters, body, scope) => {
            check_block_keeps_wf(table, body, return_type(table, name), 0);
        },
        _ => {},
    }
}

} // verus!
