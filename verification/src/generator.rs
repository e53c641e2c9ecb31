use vstd::prelude::*;
use vstd::string::*;
use crate::lexer::{is_text, Number, Token, TokenView};
use crate::sintax::{
    expresion_views, name_views, statement_views, Expresion, ExpresionView, Literal,
    LiteralView, Statement, StatementView,
};
use crate::table::SymbolTable;
use crate::text::{decimal_digits, digits_text, number_text, token_text};

verus! {

/// A run of `n` spaces.
pub open spec fn spaces(n: nat) -> Seq<char>
    decreases n,
{
    if n == 0 {
        Seq::empty()
    } else {
        spaces((n - 1) as nat) + " "@
    }
}

/// The operator of the target language that an operator of the source language is
/// written as: `and`, `or` and `not` for the logical ones, its own text for any other.
pub open spec fn python_operator(token: TokenView) -> Seq<char> {
    let text = token_text(token);
    if text == "&&"@ {
        "and"@
    } else if text == "||"@ {
        "or"@
    } else if text == "!"@ {
        "not "@
    } else {
        text
    }
}

/// The first `n` names of a list, separated by a comma and a space.
pub open spec fn python_names(names: Seq<Seq<char>>, n: int) -> Seq<char>
    decreases n,
{
    if n <= 0 || n > names.len() {
        Seq::empty()
    } else if n == 1 {
        names[0]
    } else {
        python_names(names, n - 1) + ", "@ + names[n - 1]
    }
}

/// The first `n` expressions of a list, separated by a comma and a space.
pub open spec fn python_list(items: Seq<ExpresionView>, n: int) -> Seq<char>
    decreases items, n,
{
    if n <= 0 || n > items.len() {
        Seq::empty()
    } else if n == 1 {
        python_expression(items[0])
    } else {
        python_list(items, n - 1) + ", "@ + python_expression(items[n - 1])
    }
}

/// An expression in the target language.
pub open spec fn python_expression(e: ExpresionView) -> Seq<char>
    decreases e, 0int,
{
    match e {
        ExpresionView::Literal(literal) => match literal {
            LiteralView::Number(number) => number_text(number),
            LiteralView::String(text) => "\""@ + text + "\""@,
            LiteralView::Boolean(value) => if value {
                "true"@
            } else {
                "false"@
            },
        },
        ExpresionView::Identifier(name) => name,
        ExpresionView::Binary(left, operator, right) => "("@ + python_expression(*left) + " "@
            + python_operator(operator) + " "@ + python_expression(*right) + ")"@,
        ExpresionView::FnCall(name, arguments) => name + "("@ + python_list(
            arguments,
            arguments.len() as int,
        ) + ")"@,
        ExpresionView::Tuple(items) => "("@ + python_list(items, items.len() as int) + ")"@,
        ExpresionView::Array(items) => "["@ + python_list(items, items.len() as int) + "]"@,
        ExpresionView::Index(base, index) => python_expression(*base) + "["@ + python_expression(
            *index,
        ) + "]"@,
        ExpresionView::Member(base, field) => python_expression(*base) + "."@ + field,
        ExpresionView::TupleIndex(base, position) => python_expression(*base) + "["@
            + decimal_digits(position as nat) + "]"@,
        ExpresionView::Unary(operator, operand) => python_operator(operator) + python_expression(
            *operand,
        ),
        ExpresionView::Range(start, end, inclusive) => if inclusive {
            "range("@ + python_expression(*start) + ", "@ + python_expression(*end) + " + 1)"@
        } else {
            "range("@ + python_expression(*start) + ", "@ + python_expression(*end) + ")"@
        },
    }
}

/// The first `n` statements of a block in the target language, each on lines of its
/// own, behind the indentation `indent`.
pub open spec fn python_block(body: Seq<StatementView>, indent: Seq<char>, n: int) -> Seq<char>
    decreases body, n,
{
    if n <= 0 || n > body.len() {
        Seq::empty()
    } else {
        python_block(body, indent, n - 1) + python_statement(body[n - 1], indent) + "\n"@
    }
}

/// A statement in the target language, behind the indentation `indent`. The
/// statements of a nested block stand four spaces further in.
pub open spec fn python_statement(statement: StatementView, indent: Seq<char>) -> Seq<char>
    decreases statement, 0int,
{
    let inner = indent + "    "@;
    match statement {
        StatementView::ExpressionStatement(e) => indent + python_expression(e),
        StatementView::Declaration(name, value) => match value {
            Some(e) => indent + name + " = "@ + python_expression(e),
            None => indent + name + " = None"@,
        },
        StatementView::Assignment(target, value) => indent + python_expression(target) + " = "@
            + python_expression(value),
        StatementView::If(condition, body, otherwise, scope) => {
            let head = indent + "if "@ + python_expression(condition) + ":\n"@ + python_block(
                body,
                inner,
                body.len() as int,
            );
            match otherwise {
                Some(other) => head + indent + "else:\n"@ + python_statement(*other, inner),
                None => head,
            }
        },
        StatementView::Loop(body, scope) => indent + "while True:\n"@ + python_block(
            body,
            inner,
            body.len() as int,
        ),
        StatementView::For(variable, iterable, body, scope) => indent + "for "@ + variable
            + " in "@ + python_expression(iterable) + ":\n"@ + python_block(
            body,
            inner,
            body.len() as int,
        ),
        StatementView::FnDeclaration(name, parameters, body, scope) => indent + "def "@ + name
            + "("@ + python_names(parameters, parameters.len() as int) + "):\n"@ + python_block(
            body,
            inner,
            body.len() as int,
        ),
        StatementView::Return(value) => match value {
            Some(e) => indent + "return "@ + python_expression(e),
            None => indent + "return"@,
        },
    }
}

/// A run of `n` spaces.
pub fn spaces_text(n: usize) -> (r: String)
    ensures
        r@ == spaces(n as nat),
{
    let mut out = String::new();
    let mut i: usize = 0;
    while i < n
        invariant
            i <= n,
            out@ == spaces(i as nat),
        decreases n - i,
    {
        out.append(" ");
        i += 1;
    }
    out
}

/// The operator of the target language that a token is written as.
pub fn to_python_operator(operator: &Token) -> (r: String)
    ensures
        r@ == python_operator(operator@),
{
    let text = operator.text();
    if is_text(&text, "&&") {
        String::from_str("and")
    } else if is_text(&text, "||") {
        String::from_str("or")
    } else if is_text(&text, "!") {
        String::from_str("not ")
    } else {
        text
    }
}

/// The names of a list, separated by a comma and a space.
fn names_text(names: &Vec<String>) -> (r: String)
    ensures
        r@ == python_names(name_views(names@), names.len() as int),
{
    let mut out = String::new();
    let mut i: usize = 0;
    while i < names.len()
        invariant
            i <= names.len(),
            out@ == python_names(name_views(names@), i as int),
        decreases names.len() - i,
    {
        assert(name_views(names@)[i as int] == names@[i as int]@);
        if i > 0 {
            out.append(", ");
        }
        out.append(names[i].as_str());
        proof {
            if i == 0 {
                assert(out@ =~= names@[0]@);
            }
        }
        i += 1;
    }
    out
}

/// Renders statements in the target language. `indent` is the number of spaces
/// before the outermost statements.
#[derive(Debug, Clone, Copy)]
pub struct PythonVisitor {
    pub indent: usize,
}

impl PythonVisitor {
    pub fn new(indent: usize) -> (r: PythonVisitor)
        ensures
            r.indent == indent,
    {
        PythonVisitor { indent }
    }

    /// Moves the outermost statements four spaces further in.
    pub fn increment_indent(&mut self)
        requires
            old(self).indent <= usize::MAX - 4,
        ensures
            final(self).indent == old(self).indent + 4,
    {
        self.indent += 4;
    }

    /// Moves the outermost statements four spaces further out.
    pub fn decrement_indent(&mut self)
        requires
            old(self).indent >= 4,
        ensures
            final(self).indent == old(self).indent - 4,
    {
        self.indent -= 4;
    }

    /// The expressions of a list, separated by a comma and a space.
    pub fn visit_list(items: &Vec<Expresion>) -> (r: String)
        ensures
            r@ == python_list(expresion_views(items@), items.len() as int),
        decreases items, 1int,
    {
        let ghost views = expresion_views(items@);
        let mut out = String::new();
        let mut i: usize = 0;
        while i < items.len()
            invariant
                i <= items.len(),
                views == expresion_views(items@),
                out@ == python_list(views, i as int),
            decreases items.len() - i,
        {
            proof {
                vstd::std_specs::vec::axiom_vec_index_decreases(*items, i as int);
                assert(views[i as int] == items@[i as int]@);
            }
            if i > 0 {
                out.append(", ");
            }
            let item = PythonVisitor::visit_expression(&items[i]);
            out.append(item.as_str());
            proof {
                if i == 0 {
                    assert(out@ =~= python_expression(views[0]));
                }
            }
            i += 1;
        }
        out
    }

    /// An expression in the target language.
    pub fn visit_expression(e: &Expresion) -> (r: String)
        ensures
            r@ == python_expression(e@),
        decreases e, 0int,
    {
        match e {
            Expresion::Literal(literal) => match literal {
                Literal::Number(number) => number.text(),
                Literal::String(text) => {
                    let mut out = String::from_str("\"");
                    out.append(text.as_str());
                    out.append("\"");
                    out
                },
                Literal::Boolean(value) => if *value {
                    String::from_str("true")
                } else {
                    String::from_str("false")
                },
            },
            Expresion::Identifier(name) => name.clone(),
            Expresion::Binary(left, operator, right) => {
                let mut out = String::from_str("(");
                out.append(PythonVisitor::visit_expression(left).as_str());
                out.append(" ");
                out.append(to_python_operator(operator).as_str());
                out.append(" ");
                out.append(PythonVisitor::visit_expression(right).as_str());
                out.append(")");
                out
            },
            Expresion::FnCall(name, arguments) => {
                let mut out = name.clone();
                out.append("(");
                out.append(PythonVisitor::visit_list(arguments).as_str());
                out.append(")");
                out
            },
            Expresion::Tuple(items) => {
                let mut out = String::from_str("(");
                out.append(PythonVisitor::visit_list(items).as_str());
                out.append(")");
                out
            },
            Expresion::Array(items) => {
                let mut out = String::from_str("[");
                out.append(PythonVisitor::visit_list(items).as_str());
                out.append("]");
                out
            },
            Expresion::Index(base, index) => {
                let mut out = PythonVisitor::visit_expression(base);
                out.append("[");
                out.append(PythonVisitor::visit_expression(index).as_str());
                out.append("]");
                out
            },
            Expresion::Member(base, field) => {
                let mut out = PythonVisitor::visit_expression(base);
                out.append(".");
                out.append(field.as_str());
                out
            },
            Expresion::TupleIndex(base, position) => {
                let mut out = PythonVisitor::visit_expression(base);
                out.append("[");
                out.append(digits_text(*position as u64).as_str());
                out.append("]");
                out
            },
            Expresion::Unary(operator, operand) => {
                let mut out = to_python_operator(operator);
                out.append(PythonVisitor::visit_expression(operand).as_str());
                out
            },
            Expresion::Range(start, end, inclusive) => {
                let mut out = String::from_str("range(");
                out.append(PythonVisitor::visit_expression(start).as_str());
                out.append(", ");
                out.append(PythonVisitor::visit_expression(end).as_str());
                if *inclusive {
                    out.append(" + 1)");
                } else {
                    out.append(")");
                }
                out
            },
        }
    }

    /// The statements of a block in the target language, each on lines of its own.
    pub fn visit_block(body: &Vec<Statement>, indent: &String) -> (r: String)
        ensures
            r@ == python_block(statement_views(body@), indent@, body.len() as int),
        decreases body, 1int,
    {
        let ghost views = statement_views(body@);
        let mut out = String::new();
        let mut i: usize = 0;
        while i < body.len()
            invariant
                i <= body.len(),
                views == statement_views(body@),
                out@ == python_block(views, indent@, i as int),
            decreases body.len() - i,
        {
            proof {
                vstd::std_specs::vec::axiom_vec_index_decreases(*body, i as int);
                assert(views[i as int] == body@[i as int]@);
            }
            let line = PythonVisitor::visit_statement(&body[i], indent);
            out.append(line.as_str());
            out.append("\n");
            i += 1;
        }
        out
    }

    /// A statement in the target language, behind the indentation `indent`.
    pub fn visit_statement(statement: &Statement, indent: &String) -> (r: String)
        ensures
            r@ == python_statement(statement@, indent@),
        decreases statement, 0int,
    {
        let mut out = indent.clone();
        let mut inner = indent.clone();
        inner.append("    ");
        match statement {
            Statement::ExpressionStatement(e) => {
                out.append(PythonVisitor::visit_expression(e).as_str());
            },
            Statement::Declaration(name, value) => {
                out.append(name.as_str());
                match value {
                    Some(e) => {
                        out.append(" = ");
                        out.append(PythonVisitor::visit_expression(e).as_str());
                    },
                    None => {
                        out.append(" = None");
                    },
                }
            },
            Statement::Assignment(target, value) => {
                out.append(PythonVisitor::visit_expression(target).as_str());
                out.append(" = ");
                out.append(PythonVisitor::visit_expression(value).as_str());
            },
            Statement::If(condition, body, otherwise, _) => {
                out.append("if ");
                out.append(PythonVisitor::visit_expression(condition).as_str());
                out.append(":\n");
                out.append(PythonVisitor::visit_block(body, &inner).as_str());
                match otherwise {
                    Some(other) => {
                        out.append(indent.as_str());
                        out.append("else:\n");
                        out.append(PythonVisitor::visit_statement(other, &inner).as_str());
                    },
                    None => {},
                }
            },
            Statement::Loop(body, _) => {
                out.append("while True:\n");
                out.append(PythonVisitor::visit_block(body, &inner).as_str());
            },
            Statement::For(variable, iterable, body, _) => {
                out.append("for ");
                out.append(variable.as_str());
                out.append(" in ");
                out.append(PythonVisitor::visit_expression(iterable).as_str());
                out.append(":\n");
                out.append(PythonVisitor::visit_block(body, &inner).as_str());
            },
            Statement::FnDeclaration(name, parameters, body, _) => {
                out.append("def ");
                out.append(name.as_str());
                out.append("(");
                out.append(names_text(parameters).as_str());
                out.append("):\n");
                out.append(PythonVisitor::visit_block(body, &inner).as_str());
            },
            Statement::Return(value) => match value {
                Some(e) => {
                    out.append("return ");
                    out.append(PythonVisitor::visit_expression(e).as_str());
                },
                None => {
                    out.append("return");
                },
            },
        }
        out
    }
}

/// The generator of target-language text for a parsed program.
#[derive(Debug)]
pub struct PythonGenerator {
    pub program: Vec<Statement>,
    pub indent: usize,
    pub symbol_table: SymbolTable,
}

impl PythonGenerator {
    pub fn new(program: Vec<Statement>, symbol_table: SymbolTable) -> (r: PythonGenerator)
        ensures
            r.program == program,
            r.symbol_table == symbol_table,
            r.indent == 0,
    {
        PythonGenerator { program, indent: 0, symbol_table }
    }

    /// The program in the target language: every statement on lines of its own.
    pub fn generate(&mut self) -> (code: String)
        ensures
            final(self).program == old(self).program,
            final(self).symbol_table == old(self).symbol_table,
            final(self).indent == old(self).indent,
            code@ == python_block(
                statement_views(old(self).program@),
                spaces(old(self).indent as nat),
                old(self).program.len() as int,
            ),
    {
        let visitor = PythonVisitor::new(self.indent);
        let indent = spaces_text(visitor.indent);
        PythonVisitor::visit_block(&self.program, &indent)
    }
}

} // verus!
