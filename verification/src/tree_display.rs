use vstd::prelude::*;
use vstd::string::*;
use crate::lexer::{Number, NumberView, Token, TokenView};
use crate::sintax::{
    expresion_views, name_views, statement_views, Expresion, ExpresionView, Literal,
    LiteralView, Statement, StatementView,
};
use crate::text::{decimal, decimal_digits, decimal_text, digits_text, number_text, token_text};

verus! {

/// The mark before a node of the tree: one for the last child, one for any other.
pub open spec fn branch(last: bool) -> Seq<char> {
    if last {
        "└── "@
    } else {
        "├── "@
    }
}

/// A text between quotes, as it is.
pub open spec fn quoted(text: Seq<char>) -> Seq<char> {
    "\""@ + text + "\""@
}

/// A number with the name of its kind.
pub open spec fn number_debug(number: NumberView) -> Seq<char> {
    match number {
        NumberView::Float(text) => "Float("@ + quoted(text) + ")"@,
        NumberView::Integer(value) => "Integer("@ + decimal(value) + ")"@,
    }
}

/// A literal with the name of its kind.
pub open spec fn literal_debug(literal: LiteralView) -> Seq<char> {
    match literal {
        LiteralView::Number(number) => "Number("@ + number_debug(number) + ")"@,
        LiteralView::String(text) => "String("@ + quoted(text) + ")"@,
        LiteralView::Boolean(value) => if value {
            "Boolean(true)"@
        } else {
            "Boolean(false)"@
        },
    }
}

/// A token with the name of its kind.
pub open spec fn token_debug(token: TokenView) -> Seq<char> {
    match token {
        TokenView::Function => "Function"@,
        TokenView::If => "If"@,
        TokenView::Else => "Else"@,
        TokenView::Identifier(name) => "Identifier("@ + quoted(name) + ")"@,
        TokenView::Number(number) => "Number("@ + number_debug(number) + ")"@,
        TokenView::String(text) => "String("@ + quoted(text) + ")"@,
        TokenView::For => "For"@,
        TokenView::In => "In"@,
        TokenView::Loop => "Loop"@,
        TokenView::Let => "Let"@,
        TokenView::Const => "Const"@,
        TokenView::Return => "Return"@,
        TokenView::Operator(text) => "Operator("@ + quoted(text) + ")"@,
        TokenView::LogicalOperator(text) => "LogicalOperator("@ + quoted(text) + ")"@,
        TokenView::Equal => "Equal"@,
        TokenView::LeftParen => "LeftParen"@,
        TokenView::RightParen => "RightParen"@,
        TokenView::LeftBrace => "LeftBrace"@,
        TokenView::RightBrace => "RightBrace"@,
        TokenView::LeftBracket => "LeftBracket"@,
        TokenView::RightBracket => "RightBracket"@,
        TokenView::Comma => "Comma"@,
        TokenView::Semicolon => "Semicolon"@,
        TokenView::Colon => "Colon"@,
        TokenView::Dot => "Dot"@,
        TokenView::EOF => "EOF"@,
        TokenView::TypeInt => "TypeInt"@,
        TokenView::TypeString => "TypeString"@,
        TokenView::TypeFloat => "TypeFloat"@,
        TokenView::TypeBool => "TypeBool"@,
        TokenView::True => "True"@,
        TokenView::False => "False"@,
        TokenView::ArrowType => "ArrowType"@,
        TokenView::Range => "Range"@,
        TokenView::RangeInclusive => "RangeInclusive"@,
    }
}

/// The first `n` names of a list between quotes, separated by a comma and a space.
pub open spec fn names_debug(names: Seq<Seq<char>>, n: int) -> Seq<char>
    decreases n,
{
    if n <= 0 || n > names.len() {
        Seq::empty()
    } else if n == 1 {
        quoted(names[0])
    } else {
        names_debug(names, n - 1) + ", "@ + quoted(names[n - 1])
    }
}

/// The trees of the first `n` expressions of a list, the last expression of the
/// list marked as the last child.
pub open spec fn tree_expressions(items: Seq<ExpresionView>, indent: Seq<char>, n: int) -> Seq<char>
    decreases items, n,
{
    if n <= 0 || n > items.len() {
        Seq::empty()
    } else {
        tree_expressions(items, indent, n - 1) + tree_expression(
            items[n - 1],
            indent,
            n == items.len(),
        )
    }
}

/// The tree of an expression: a line for the expression, after the indentation
/// `indent` and the mark of a child, and the trees of its parts four spaces further
/// in.
pub open spec fn tree_expression(e: ExpresionView, indent: Seq<char>, last: bool) -> Seq<char>
    decreases e, 0int,
{
    let inner = indent + "    "@;
    let head = indent + branch(last);
    match e {
        ExpresionView::Literal(literal) => head + "Literal: "@ + literal_debug(literal) + "\n"@,
        ExpresionView::Identifier(name) => head + "Identifier: "@ + name + "\n"@,
        ExpresionView::Binary(left, operator, right) => head + "Binary Expression:\n"@
            + tree_expression(*left, inner, false) + indent + "    Operator: "@ + token_debug(
            operator,
        ) + "\n"@ + tree_expression(*right, inner, true),
        ExpresionView::FnCall(name, arguments) => head + "Function Call: "@ + name + "\n"@
            + tree_expressions(arguments, inner, arguments.len() as int),
        ExpresionView::Tuple(items) => head + "Tuple:\n"@ + tree_expressions(
            items,
            inner,
            items.len() as int,
        ),
        ExpresionView::Array(items) => head + "Array:\n"@ + tree_expressions(
            items,
            inner,
            items.len() as int,
        ),
        ExpresionView::Index(base, index) => head + "Index:\n"@ + tree_expression(
            *base,
            inner,
            false,
        ) + tree_expression(*index, inner, true),
        ExpresionView::Member(base, field) => head + "Member Access: "@ + field + "\n"@
            + tree_expression(*base, inner, true),
        ExpresionView::TupleIndex(base, position) => head + "Tuple Index: "@ + decimal_digits(
            position as nat,
        ) + "\n"@ + tree_expression(*base, inner, true),
        ExpresionView::Unary(operator, operand) => head + "Unary Expression:\n"@ + indent
            + "    Operator: "@ + token_debug(operator) + "\n"@ + tree_expression(
            *operand,
            inner,
            true,
        ),
        ExpresionView::Range(start, end, inclusive) => head + "Range:\n"@ + tree_expression(
            *start,
            inner,
            false,
        ) + tree_expression(*end, inner, false) + indent + "    Inclusive: "@ + (if inclusive {
            "true"@
        } else {
            "false"@
        }) + "\n"@,
    }
}

/// The trees of the first `n` statements of a block, the last statement of the block
/// marked as the last child.
pub open spec fn tree_statements(body: Seq<StatementView>, indent: Seq<char>, n: int) -> Seq<char>
    decreases body, n,
{
    if n <= 0 || n > body.len() {
        Seq::empty()
    } else {
        tree_statements(body, indent, n - 1) + tree_statement(body[n - 1], indent, n == body.len())
    }
}

/// The tree of a statement: a line for the statement, after the indentation `indent`
/// and the mark of a child, and the trees of its parts further in.
pub open spec fn tree_statement(statement: StatementView, indent: Seq<char>, last: bool) -> Seq<char>
    decreases statement, 0int,
{
    let inner = indent + "    "@;
    let deep = indent + "        "@;
    let head = indent + branch(last);
    match statement {
        StatementView::ExpressionStatement(e) => head + "ExpressionStatement:\n"@
            + tree_expression(e, inner, true),
        StatementView::Declaration(name, value) => match value {
            Some(e) => head + "Declaration: "@ + name + "\n"@ + tree_expression(e, inner, true),
            None => head + "Declaration: "@ + name + "\n"@,
        },
        StatementView::Assignment(target, value) => head + "Assignment:\n"@ + tree_expression(
            target,
            inner,
            false,
        ) + tree_expression(value, inner, true),
        StatementView::If(condition, body, otherwise, scope) => {
            let first = head + "If:\n"@ + tree_expression(condition, inner, false) + indent
                + "    Body:\n"@ + tree_statements(body, deep, body.len() as int);
            match otherwise {
                Some(other) => first + indent + "    Else:\n"@ + tree_statement(*other, inner, true),
                None => first,
            }
        },
        StatementView::Loop(body, scope) => head + "Loop:\n"@ + tree_statements(
            body,
            inner,
            body.len() as int,
        ),
        StatementView::For(variable, iterable, body, scope) => head + "For: "@ + variable + "\n"@
            + tree_expression(iterable, inner, false) + tree_statements(
            body,
            deep,
            body.len() as int,
        ),
        StatementView::FnDeclaration(name, parameters, body, scope) => head
            + "Function Declaration: "@ + name + "\n"@ + indent + "    Parameters: ["@
            + names_debug(parameters, parameters.len() as int) + "]\n"@ + tree_statements(
            body,
            deep,
            body.len() as int,
        ),
        StatementView::Return(value) => match value {
            Some(e) => head + "Return:\n"@ + tree_expression(e, inner, true),
            None => head + "Return:\n"@,
        },
    }
}

/// The trees of the first `n` statements of a program, each marked as a last child.
pub open spec fn tree_roots(program: Seq<StatementView>, n: int) -> Seq<char>
    decreases n,
{
    if n <= 0 || n > program.len() {
        Seq::empty()
    } else {
        tree_roots(program, n - 1) + tree_statement(program[n - 1], Seq::empty(), true)
    }
}

/// The tree of a program: a heading and the trees of its statements.
pub open spec fn tree_program(program: Seq<StatementView>) -> Seq<char> {
    "Program:\n"@ + tree_roots(program, program.len() as int)
}

/// The first `n` expressions of a list on one line, each followed by `after`.
pub open spec fn line_expressions(items: Seq<ExpresionView>, after: Seq<char>, n: int) -> Seq<char>
    decreases items, n,
{
    if n <= 0 || n > items.len() {
        Seq::empty()
    } else {
        line_expressions(items, after, n - 1) + line_expression(items[n - 1]) + after
    }
}

/// An expression on one line, its parts separated by spaces.
pub open spec fn line_expression(e: ExpresionView) -> Seq<char>
    decreases e, 0int,
{
    match e {
        ExpresionView::Literal(literal) => match literal {
            LiteralView::Number(number) => number_text(number) + " "@,
            LiteralView::String(text) => text + " "@,
            LiteralView::Boolean(value) => if value {
                "true "@
            } else {
                "false "@
            },
        },
        ExpresionView::Identifier(name) => name + " "@,
        ExpresionView::Binary(left, operator, right) => line_expression(*left) + token_text(
            operator,
        ) + " "@ + line_expression(*right),
        ExpresionView::FnCall(name, arguments) => name + " "@ + line_expressions(
            arguments,
            ""@,
            arguments.len() as int,
        ),
        ExpresionView::Tuple(items) => "("@ + line_expressions(items, ", "@, items.len() as int)
            + ") "@,
        ExpresionView::Array(items) => "["@ + line_expressions(items, ", "@, items.len() as int)
            + "] "@,
        ExpresionView::Index(base, index) => line_expression(*base) + line_expression(*index),
        ExpresionView::Member(base, field) => line_expression(*base) + "."@ + field + " "@,
        ExpresionView::TupleIndex(base, position) => line_expression(*base) + "["@
            + decimal_digits(position as nat) + "] "@,
        ExpresionView::Unary(operator, operand) => token_text(operator) + " "@ + line_expression(
            *operand,
        ),
        ExpresionView::Range(start, end, inclusive) => line_expression(*start) + (if inclusive {
            "..="@
        } else {
            ".."@
        }) + line_expression(*end),
    }
}

fn branch_text(last: bool) -> (r: &'static str)
    ensures
        r@ == branch(last),
{
    if last {
        "└── "
    } else {
        "├── "
    }
}

fn truth_text(value: bool) -> (r: &'static str)
    ensures
        r@ == (if value {
            "true"@
        } else {
            "false"@
        }),
{
    if value {
        "true"
    } else {
        "false"
    }
}

fn quoted_text(text: &String) -> (r: String)
    ensures
        r@ == quoted(text@),
{
    let mut out = String::from_str("\"");
    out.append(text.as_str());
    out.append("\"");
    out
}

fn number_debug_text(number: &Number) -> (r: String)
    ensures
        r@ == number_debug(number@),
{
    match number {
        Number::Float(text) => {
            let mut out = String::from_str("Float(");
            out.append(quoted_text(text).as_str());
            out.append(")");
            out
        },
        Number::Integer(value) => {
            let mut out = String::from_str("Integer(");
            out.append(decimal_text(*value).as_str());
            out.append(")");
            out
        },
    }
}

/// A literal with the name of its kind.
pub fn literal_debug_text(literal: &Literal) -> (r: String)
    ensures
        r@ == literal_debug(literal@),
{
    match literal {
        Literal::Number(number) => {
            let mut out = String::from_str("Number(");
            out.append(number_debug_text(number).as_str());
            out.append(")");
            out
        },
        Literal::String(text) => {
            let mut out = String::from_str("String(");
            out.append(quoted_text(text).as_str());
            out.append(")");
            out
        },
        Literal::Boolean(value) => if *value {
            String::from_str("Boolean(true)")
        } else {
            String::from_str("Boolean(false)")
        },
    }
}

/// A token with the name of its kind.
pub fn token_debug_text(token: &Token) -> (r: String)
    ensures
        r@ == token_debug(token@),
{
    match token {
        Token::Function => String::from_str("Function"),
        Token::If => String::from_str("If"),
        Token::Else => String::from_str("Else"),
        Token::Identifier(name) => {
            let mut out = String::from_str("Identifier(");
            out.append(quoted_text(name).as_str());
            out.append(")");
            out
        },
        Token::Number(number) => {
            let mut out = String::from_str("Number(");
            out.append(number_debug_text(number).as_str());
            out.append(")");
            out
        },
        Token::String(text) => {
            let mut out = String::from_str("String(");
            out.append(quoted_text(text).as_str());
            out.append(")");
            out
        },
        Token::For => String::from_str("For"),
        Token::In => String::from_str("In"),
        Token::Loop => String::from_str("Loop"),
        Token::Let => String::from_str("Let"),
        Token::Const => String::from_str("Const"),
        Token::Return => String::from_str("Return"),
        Token::Operator(text) => {
            let mut out = String::from_str("Operator(");
            out.append(quoted_text(text).as_str());
            out.append(")");
            out
        },
        Token::LogicalOperator(text) => {
            let mut out = String::from_str("LogicalOperator(");
            out.append(quoted_text(text).as_str());
            out.append(")");
            out
        },
        Token::Equal => String::from_str("Equal"),
        Token::LeftParen => String::from_str("LeftParen"),
        Token::RightParen => String::from_str("RightParen"),
        Token::LeftBrace => String::from_str("LeftBrace"),
        Token::RightBrace => String::from_str("RightBrace"),
        Token::LeftBracket => String::from_str("LeftBracket"),
        Token::RightBracket => String::from_str("RightBracket"),
        Token::Comma => String::from_str("Comma"),
        Token::Semicolon => String::from_str("Semicolon"),
        Token::Colon => String::from_str("Colon"),
        Token::Dot => String::from_str("Dot"),
        Token::EOF => String::from_str("EOF"),
        Token::TypeInt => String::from_str("TypeInt"),
        Token::TypeString => String::from_str("TypeString"),
        Token::TypeFloat => String::from_str("TypeFloat"),
        Token::TypeBool => String::from_str("TypeBool"),
        Token::True => String::from_str("True"),
        Token::False => String::from_str("False"),
        Token::ArrowType => String::from_str("ArrowType"),
        Token::Range => String::from_str("Range"),
        Token::RangeInclusive => String::from_str("RangeInclusive"),
    }
}

fn names_debug_text(names: &Vec<String>) -> (r: String)
    ensures
        r@ == names_debug(name_views(names@), names.len() as int),
{
    let mut out = String::new();
    let mut i: usize = 0;
    while i < names.len()
        invariant
            i <= names.len(),
            out@ == names_debug(name_views(names@), i as int),
        decreases names.len() - i,
    {
        assert(name_views(names@)[i as int] == names@[i as int]@);
        if i > 0 {
            out.append(", ");
        }
        out.append(quoted_text(&names[i]).as_str());
        proof {
            if i == 0 {
                assert(out@ =~= quoted(names@[0]@));
            }
        }
        i += 1;
    }
    out
}

/// The trees of the expressions of a list.
pub fn display_expressions(items: &Vec<Expresion>, indent: &String) -> (r: String)
    ensures
        r@ == tree_expressions(expresion_views(items@), indent@, items.len() as int),
    decreases items, 1int,
{
    let ghost views = expresion_views(items@);
    let mut out = String::new();
    let mut i: usize = 0;
    while i < items.len()
        invariant
            i <= items.len(),
            views == expresion_views(items@),
            views.len() == items.len(),
            out@ == tree_expressions(views, indent@, i as int),
        decreases items.len() - i,
    {
        proof {
            vstd::std_specs::vec::axiom_vec_index_decreases(*items, i as int);
            assert(views[i as int] == items@[i as int]@);
        }
        let item = display_expression(&items[i], indent, i + 1 == items.len());
        out.append(item.as_str());
        i += 1;
    }
    out
}

/// The tree of an expression.
pub fn display_expression(e: &Expresion, indent: &String, is_last: bool) -> (r: String)
    ensures
        r@ == tree_expression(e@, indent@, is_last),
    decreases e, 0int,
{
    let mut inner = indent.clone();
    inner.append("    ");
    let mut out = indent.clone();
    out.append(branch_text(is_last));
    match e {
        Expresion::Literal(literal) => {
            out.append("Literal: ");
            out.append(literal_debug_text(literal).as_str());
            out.append("\n");
        },
        Expresion::Identifier(name) => {
            out.append("Identifier: ");
            out.append(name.as_str());
            out.append("\n");
        },
        Expresion::Binary(left, operator, right) => {
            out.append("Binary Expression:\n");
            out.append(display_expression(left, &inner, false).as_str());
            out.append(indent.as_str());
            out.append("    Operator: ");
            out.append(token_debug_text(operator).as_str());
            out.append("\n");
            out.append(display_expression(right, &inner, true).as_str());
        },
        Expresion::FnCall(name, arguments) => {
            out.append("Function Call: ");
            out.append(name.as_str());
            out.append("\n");
            out.append(display_expressions(arguments, &inner).as_str());
        },
        Expresion::Tuple(items) => {
            out.append("Tuple:\n");
            out.append(display_expressions(items, &inner).as_str());
        },
        Expresion::Array(items) => {
            out.append("Array:\n");
            out.append(display_expressions(items, &inner).as_str());
        },
        Expresion::Index(base, index) => {
            out.append("Index:\n");
            out.append(display_expression(base, &inner, false).as_str());
            out.append(display_expression(index, &inner, true).as_str());
        },
        Expresion::Member(base, field) => {
            out.append("Member Access: ");
            out.append(field.as_str());
            out.append("\n");
            out.append(display_expression(base, &inner, true).as_str());
        },
        Expresion::TupleIndex(base, position) => {
            out.append("Tuple Index: ");
            out.append(digits_text(*position as u64).as_str());
            out.append("\n");
            out.append(display_expression(base, &inner, true).as_str());
        },
        Expresion::Unary(operator, operand) => {
            out.append("Unary Expression:\n");
            out.append(indent.as_str());
            out.append("    Operator: ");
            out.append(token_debug_text(operator).as_str());
            out.append("\n");
            out.append(display_expression(operand, &inner, true).as_str());
        },
        Expresion::Range(start, end, inclusive) => {
            out.append("Range:\n");
            out.append(display_expression(start, &inner, false).as_str());
            out.append(display_expression(end, &inner, false).as_str());
            out.append(indent.as_str());
            out.append("    Inclusive: ");
            out.append(truth_text(*inclusive));
            out.append("\n");
        },
    }
    out
}

/// The trees of the statements of a block.
pub fn display_statements(body: &Vec<Statement>, indent: &String) -> (r: String)
    ensures
        r@ == tree_statements(statement_views(body@), indent@, body.len() as int),
    decreases body, 1int,
{
    let ghost views = statement_views(body@);
    let mut out = String::new();
    let mut i: usize = 0;
    while i < body.len()
        invariant
            i <= body.len(),
            views == statement_views(body@),
            views.len() == body.len(),
            out@ == tree_statements(views, indent@, i as int),
        decreases body.len() - i,
    {
        proof {
            vstd::std_specs::vec::axiom_vec_index_decreases(*body, i as int);
            assert(views[i as int] == body@[i as int]@);
        }
        let item = display_statement(&body[i], indent, i + 1 == body.len());
        out.append(item.as_str());
        i += 1;
    }
    out
}

/// The tree of a statement.
pub fn display_statement(statement: &Statement, indent: &String, is_last: bool) -> (r: String)
    ensures
        r@ == tree_statement(statement@, indent@, is_last),
    decreases statement, 0int,
{
    let mut inner = indent.clone();
    inner.append("    ");
    let mut deep = indent.clone();
    deep.append("        ");
    let mut out = indent.clone();
    out.append(branch_text(is_last));
    match statement {
        Statement::ExpressionStatement(e) => {
            out.append("ExpressionStatement:\n");
            out.append(display_expression(e, &inner, true).as_str());
        },
        Statement::Declaration(name, value) => {
            out.append("Declaration: ");
            out.append(name.as_str());
            out.append("\n");
            match value {
                Some(e) => {
                    out.append(display_expression(e, &inner, true).as_str());
                },
                None => {},
            }
        },
        Statement::Assignment(target, value) => {
            out.append("Assignment:\n");
            out.append(display_expression(target, &inner, false).as_str());
            out.append(display_expression(value, &inner, true).as_str());
        },
        Statement::If(condition, body, otherwise, _) => {
            out.append("If:\n");
            out.append(display_expression(condition, &inner, false).as_str());
            out.append(indent.as_str());
            out.append("    Body:\n");
            out.append(display_statements(body, &deep).as_str());
            match otherwise {
                Some(other) => {
                    out.append(indent.as_str());
                    out.append("    Else:\n");
                    out.append(display_statement(other, &inner, true).as_str());
                },
                None => {},
            }
        },
        Statement::Loop(body, _) => {
            out.append("Loop:\n");
            out.append(display_statements(body, &inner).as_str());
        },
        Statement::For(variable, iterable, body, _) => {
            out.append("For: ");
            out.append(variable.as_str());
            out.append("\n");
            out.append(display_expression(iterable, &inner, false).as_str());
            out.append(display_statements(body, &deep).as_str());
        },
        Statement::FnDeclaration(name, parameters, body, _) => {
            out.append("Function Declaration: ");
            out.append(name.as_str());
            out.append("\n");
            out.append(indent.as_str());
            out.append("    Parameters: [");
            out.append(names_debug_text(parameters).as_str());
            out.append("]\n");
            out.append(display_statements(body, &deep).as_str());
        },
        Statement::Return(value) => {
            out.append("Return:\n");
            match value {
                Some(e) => {
                    out.append(display_expression(e, &inner, true).as_str());
                },
                None => {},
            }
        },
    }
    out
}

/// The tree of a program: a heading and the trees of its statements.
pub fn display_tree(program: &Vec<Statement>) -> (r: String)
    ensures
        r@ == tree_program(statement_views(program@)),
{
    let ghost views = statement_views(program@);
    let mut out = String::from_str("Program:\n");
    let indent = String::new();
    let mut i: usize = 0;
    while i < program.len()
        invariant
            i <= program.len(),
            views == statement_views(program@),
            indent@ == Seq::<char>::empty(),
            out@ == "Program:\n"@ + tree_roots(views, i as int),
        decreases program.len() - i,
    {
        assert(views[i as int] == program@[i as int]@);
        let item = display_statement(&program[i], &indent, true);
        let ghost before = tree_roots(views, i as int);
        out.append(item.as_str());
        assert(out@ =~= "Program:\n"@ + (before + item@));
        i += 1;
    }
    out
}

/// The expressions of a list on one line, each followed by `after`.
pub fn print_expressions(items: &Vec<Expresion>, after: &str) -> (r: String)
    ensures
        r@ == line_expressions(expresion_views(items@), after@, items.len() as int),
    decreases items, 1int,
{
    let ghost views = expresion_views(items@);
    let mut out = String::new();
    let mut i: usize = 0;
    while i < items.len()
        invariant
            i <= items.len(),
            views == expresion_views(items@),
            out@ == line_expressions(views, after@, i as int),
        decreases items.len() - i,
    {
        proof {
            vstd::std_specs::vec::axiom_vec_index_decreases(*items, i as int);
            assert(views[i as int] == items@[i as int]@);
        }
        out.append(print_expression(&items[i]).as_str());
        out.append(after);
        i += 1;
    }
    out
}

/// An expression on one line, its parts separated by spaces.
pub fn print_expression(e: &Expresion) -> (r: String)
    ensures
        r@ == line_expression(e@),
    decreases e, 0int,
{
    match e {
        Expresion::Literal(literal) => match literal {
            Literal::Number(number) => {
                let mut out = number.text();
                out.append(" ");
                out
            },
            Literal::String(text) => {
                let mut out = text.clone();
                out.append(" ");
                out
            },
            Literal::Boolean(value) => if *value {
                String::from_str("true ")
            } else {
                String::from_str("false ")
            },
        },
        Expresion::Identifier(name) => {
            let mut out = name.clone();
            out.append(" ");
            out
        },
        Expresion::Binary(left, operator, right) => {
            let mut out = print_expression(left);
            out.append(operator.text().as_str());
            out.append(" ");
            out.append(print_expression(right).as_str());
            out
        },
        Expresion::FnCall(name, arguments) => {
            let mut out = name.clone();
            out.append(" ");
            out.append(print_expressions(arguments, "").as_str());
            out
        },
        Expresion::Tuple(items) => {
            let mut out = String::from_str("(");
            out.append(print_expressions(items, ", ").as_str());
            out.append(") ");
            out
        },
        Expresion::Array(items) => {
            let mut out = String::from_str("[");
            out.append(print_expressions(items, ", ").as_str());
            out.append("] ");
            out
        },
        Expresion::Index(base, index) => {
            let mut out = print_expression(base);
            out.append(print_expression(index).as_str());
            out
        },
        Expresion::Member(base, field) => {
            let mut out = print_expression(base);
            out.append(".");
            out.append(field.as_str());
            out.append(" ");
            out
        },
        Expresion::TupleIndex(base, position) => {
            let mut out = print_expression(base);
            out.append("[");
            out.append(digits_text(*position as u64).as_str());
            out.append("] ");
            out
        },
        Expresion::Unary(operator, operand) => {
            let mut out = operator.text();
            out.append(" ");
            out.append(print_expression(operand).as_str());
            out
        },
        Expresion::Range(start, end, inclusive) => {
            let mut out = print_expression(start);
            if *inclusive {
                out.append("..=");
            } else {
                out.append("..");
            }
            out.append(print_expression(end).as_str());
            out
        },
    }
}

} // verus!
