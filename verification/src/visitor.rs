use vstd::prelude::*;
use crate::generator::{python_expression, python_statement, spaces, spaces_text, PythonVisitor};
use crate::lexer::{Number, Token};
use crate::sintax::{
    duplicate_expresions, duplicate_names, duplicate_optional, duplicate_statements,
    expresion_views, name_views, optional_view, statement_views, Expresion, ExpresionView,
    Literal, LiteralView, Statement, StatementView,
};

verus! {

/// The meaning of a statement that may be absent.
pub open spec fn optional_statement_view(s: Option<Box<Statement>>) -> Option<Box<StatementView>> {
    match s {
        Some(statement) => Some(Box::new(statement@)),
        None => None,
    }
}

/// What renders the nodes of the syntax tree, kind by kind. A visitor says what text
/// it makes of an expression and of a statement; each of its methods takes the parts
/// of a node of one kind and returns the text that the visitor, as it is when the
/// method is called, makes of the node with these parts.
pub trait Visitor {
    /// The text that the visitor makes of an expression.
    spec fn expression_rendering(&self, e: ExpresionView) -> Seq<char>;

    /// The text that the visitor makes of a statement.
    spec fn statement_rendering(&self, s: StatementView) -> Seq<char>;

    fn visit_expression_statement(&mut self, expression: &Expresion) -> (r: String)
        ensures
            r@ == old(self).statement_rendering(StatementView::ExpressionStatement(expression@)),
    ;

    fn visit_declaration(&mut self, name: &String, value: &Option<Expresion>) -> (r: String)
        ensures
            r@ == old(self).statement_rendering(
                StatementView::Declaration(name@, optional_view(*value)),
            ),
    ;

    fn visit_assignment(&mut self, left: &Expresion, right: &Expresion) -> (r: String)
        ensures
            r@ == old(self).statement_rendering(StatementView::Assignment(left@, right@)),
    ;

    fn visit_if(
        &mut self,
        condition: &Expresion,
        then_branch: &Vec<Statement>,
        else_branch: &Option<Box<Statement>>,
        scope_id: u32,
    ) -> (r: String)
        ensures
            r@ == old(self).statement_rendering(
                StatementView::If(
                    condition@,
                    statement_views(then_branch@),
                    optional_statement_view(*else_branch),
                    scope_id as int,
                ),
            ),
    ;

    fn visit_loop(&mut self, body: &Vec<Statement>, scope_id: u32) -> (r: String)
        ensures
            r@ == old(self).statement_rendering(
                StatementView::Loop(statement_views(body@), scope_id as int),
            ),
    ;

    fn visit_for(
        &mut self,
        variable: &String,
        iterable: &Expresion,
        body: &Vec<Statement>,
        scope_id: u32,
    ) -> (r: String)
        ensures
            r@ == old(self).statement_rendering(
                StatementView::For(variable@, iterable@, statement_views(body@), scope_id as int),
            ),
    ;

    fn visit_fn_declaration(
        &mut self,
        name: &String,
        params: &Vec<String>,
        body: &Vec<Statement>,
        scope_id: u32,
    ) -> (r: String)
        ensures
            r@ == old(self).statement_rendering(
                StatementView::FnDeclaration(
                    name@,
                    name_views(params@),
                    statement_views(body@),
                    scope_id as int,
                ),
            ),
    ;

    fn visit_return(&mut self, value: &Option<Expresion>) -> (r: String)
        ensures
            r@ == old(self).statement_rendering(StatementView::Return(optional_view(*value))),
    ;

    fn visit_literal(&mut self, literal: &Literal) -> (r: String)
        ensures
            r@ == old(self).expression_rendering(ExpresionView::Literal(literal@)),
    ;

    fn visit_identifier(&mut self, identifier: &String) -> (r: String)
        ensures
            r@ == old(self).expression_rendering(ExpresionView::Identifier(identifier@)),
    ;

    fn visit_binary(&mut self, left: &Expresion, operator: &Token, right: &Expresion) -> (r: String)
        ensures
            r@ == old(self).expression_rendering(
                ExpresionView::Binary(Box::new(left@), operator@, Box::new(right@)),
            ),
    ;

    fn visit_fn_call(&mut self, name: &String, args: &Vec<Expresion>) -> (r: String)
        ensures
            r@ == old(self).expression_rendering(
                ExpresionView::FnCall(name@, expresion_views(args@)),
            ),
    ;

    fn visit_array(&mut self, elements: &Vec<Expresion>) -> (r: String)
        ensures
            r@ == old(self).expression_rendering(ExpresionView::Array(expresion_views(elements@))),
    ;

    fn visit_unary(&mut self, operator: &Token, operand: &Expresion) -> (r: String)
        ensures
            r@ == old(self).expression_rendering(
                ExpresionView::Unary(operator@, Box::new(operand@)),
            ),
    ;

    fn visit_range(&mut self, start: &Expresion, end: &Expresion, inclusive: bool) -> (r: String)
        ensures
            r@ == old(self).expression_rendering(
                ExpresionView::Range(Box::new(start@), Box::new(end@), inclusive),
            ),
    ;

    fn visit_tuple(&mut self, elements: &Vec<Expresion>) -> (r: String)
        ensures
            r@ == old(self).expression_rendering(ExpresionView::Tuple(expresion_views(elements@))),
    ;

    fn visit_index(&mut self, array: &Expresion, index: &Expresion) -> (r: String)
        ensures
            r@ == old(self).expression_rendering(
                ExpresionView::Index(Box::new(array@), Box::new(index@)),
            ),
    ;

    fn visit_member(&mut self, object: &Expresion, member: &String) -> (r: String)
        ensures
            r@ == old(self).expression_rendering(
                ExpresionView::Member(Box::new(object@), member@),
            ),
    ;

    fn visit_tuple_index(&mut self, tuple: &Expresion, index: usize) -> (r: String)
        ensures
            r@ == old(self).expression_rendering(
                ExpresionView::TupleIndex(Box::new(tuple@), index as int),
            ),
    ;

    fn visit_number(&mut self, number: &Number) -> (r: String)
        ensures
            r@ == old(self).expression_rendering(
                ExpresionView::Literal(LiteralView::Number(number@)),
            ),
    ;

    fn visit_string(&mut self, string: &String) -> (r: String)
        ensures
            r@ == old(self).expression_rendering(
                ExpresionView::Literal(LiteralView::String(string@)),
            ),
    ;

    fn visit_boolean(&mut self, boolean: &bool) -> (r: String)
        ensures
            r@ == old(self).expression_rendering(
                ExpresionView::Literal(LiteralView::Boolean(*boolean)),
            ),
    ;
}

/// What hands itself to a visitor: its parts go to the method of the visitor that
/// is for nodes of its kind, and the text that comes back is the text that the
/// visitor makes of it.
pub trait Visitable {
    fn accept(&self, visitor: &mut dyn Visitor) -> (r: String);
}

impl Visitable for Literal {
    fn accept(&self, visitor: &mut dyn Visitor) -> (r: String)
        ensures
            r@ == old(visitor).expression_rendering(ExpresionView::Literal(self@)),
    {
        match self {
            Literal::Number(number) => visitor.visit_number(number),
            Literal::String(string) => visitor.visit_string(string),
            Literal::Boolean(boolean) => visitor.visit_boolean(boolean),
        }
    }
}

impl Visitable for Expresion {
    fn accept(&self, visitor: &mut dyn Visitor) -> (r: String)
        ensures
            r@ == old(visitor).expression_rendering(self@),
    {
        match self {
            Expresion::Literal(literal) => visitor.visit_literal(literal),
            Expresion::Identifier(identifier) => visitor.visit_identifier(identifier),
            Expresion::Binary(left, operator, right) => visitor.visit_binary(left, operator, right),
            Expresion::FnCall(name, args) => visitor.visit_fn_call(name, args),
            Expresion::Array(elements) => visitor.visit_array(elements),
            Expresion::Unary(operator, operand) => visitor.visit_unary(operator, operand),
            Expresion::Range(start, end, inclusive) => visitor.visit_range(start, end, *inclusive),
            Expresion::Tuple(elements) => visitor.visit_tuple(elements),
            Expresion::Index(array, index) => visitor.visit_index(array, index),
            Expresion::Member(object, member) => visitor.visit_member(object, member),
            Expresion::TupleIndex(tuple, index) => visitor.visit_tuple_index(tuple, *index),
        }
    }
}

impl Visitable for Statement {
    fn accept(&self, visitor: &mut dyn Visitor) -> (r: String)
        ensures
            r@ == old(visitor).statement_rendering(self@),
    {
        match self {
            Statement::ExpressionStatement(expression) => visitor.visit_expression_statement(
                expression,
            ),
            Statement::Declaration(id, expression) => visitor.visit_declaration(id, expression),
            Statement::Assignment(left, right) => visitor.visit_assignment(left, right),
            Statement::If(condition, block, else_block, scope_id) => visitor.visit_if(
                condition,
                block,
                else_block,
                *scope_id,
            ),
            Statement::Loop(block, scope_id) => visitor.visit_loop(block, *scope_id),
            Statement::For(id, exp, block, scope_id) => visitor.visit_for(id, exp, block, *scope_id),
            Statement::FnDeclaration(id, params, block, scope_id) => visitor.visit_fn_declaration(
                id,
                params,
                block,
                *scope_id,
            ),
            Statement::Return(exp) => visitor.visit_return(exp),
        }
    }
}

impl PythonVisitor {
    /// A statement in the target language, after as many spaces as the visitor's
    /// indent.
    pub fn statement_text(&self, statement: &Statement) -> (r: String)
        ensures
            r@ == python_statement(statement@, spaces(self.indent as nat)),
    {
        PythonVisitor::visit_statement(statement, &spaces_text(self.indent))
    }
}

/// The visitor for the target language makes of an expression its text in that
/// language, and of a statement its text in that language after as many spaces as
/// the visitor's indent. A visit leaves the indent as it was.
impl Visitor for PythonVisitor {
    open spec fn expression_rendering(&self, e: ExpresionView) -> Seq<char> {
        python_expression(e)
    }

    open spec fn statement_rendering(&self, s: StatementView) -> Seq<char> {
        python_statement(s, spaces(self.indent as nat))
    }

    fn visit_expression_statement(&mut self, expression: &Expresion) -> (r: String)
        ensures
            final(self).indent == old(self).indent,
    {
        self.statement_text(&Statement::ExpressionStatement(expression.duplicate()))
    }

    fn visit_declaration(&mut self, name: &String, value: &Option<Expresion>) -> (r: String)
        ensures
            final(self).indent == old(self).indent,
    {
        self.statement_text(&Statement::Declaration(name.clone(), duplicate_optional(value)))
    }

    fn visit_assignment(&mut self, left: &Expresion, right: &Expresion) -> (r: String)
        ensures
            final(self).indent == old(self).indent,
    {
        self.statement_text(&Statement::Assignment(left.duplicate(), right.duplicate()))
    }

    fn visit_if(
        &mut self,
        condition: &Expresion,
        then_branch: &Vec<Statement>,
        else_branch: &Option<Box<Statement>>,
        scope_id: u32,
    ) -> (r: String)
        ensures
            final(self).indent == old(self).indent,
    {
        let other = match else_branch {
            Some(statement) => Some(Box::new(statement.duplicate())),
            None => None,
        };
        self.statement_text(
            &Statement::If(
                condition.duplicate(),
                duplicate_statements(then_branch),
                other,
                scope_id,
            ),
        )
    }

    fn visit_loop(&mut self, body: &Vec<Statement>, scope_id: u32) -> (r: String)
        ensures
            final(self).indent == old(self).indent,
    {
        self.statement_text(&Statement::Loop(duplicate_statements(body), scope_id))
    }

    fn visit_for(
        &mut self,
        variable: &String,
        iterable: &Expresion,
        body: &Vec<Statement>,
        scope_id: u32,
    ) -> (r: String)
        ensures
            final(self).indent == old(self).indent,
    {
        self.statement_text(
            &Statement::For(
                variable.clone(),
                iterable.duplicate(),
                duplicate_statements(body),
                scope_id,
            ),
        )
    }

    fn visit_fn_declaration(
        &mut self,
        name: &String,
        params: &Vec<String>,
        body: &Vec<Statement>,
        scope_id: u32,
    ) -> (r: String)
        ensures
            final(self).indent == old(self).indent,
    {
        self.statement_text(
            &Statement::FnDeclaration(
                name.clone(),
                duplicate_names(params),
                duplicate_statements(body),
                scope_id,
            ),
        )
    }

    fn visit_return(&mut self, value: &Option<Expresion>) -> (r: String)
        ensures
            final(self).indent == old(self).indent,
    {
        self.statement_text(&Statement::Return(duplicate_optional(value)))
    }

    fn visit_literal(&mut self, literal: &Literal) -> (r: String)
        ensures
            final(self).indent == old(self).indent,
    {
        PythonVisitor::visit_expression(&Expresion::Literal(literal.clone()))
    }

    fn visit_identifier(&mut self, identifier: &String) -> (r: String)
        ensures
            final(self).indent == old(self).indent,
    {
        PythonVisitor::visit_expression(&Expresion::Identifier(identifier.clone()))
    }

    fn visit_binary(&mut self, left: &Expresion, operator: &Token, right: &Expresion) -> (r: String)
        ensures
            final(self).indent == old(self).indent,
    {
        PythonVisitor::visit_expression(
            &Expresion::Binary(
                Box::new(left.duplicate()),
                operator.clone(),
                Box::new(right.duplicate()),
            ),
        )
    }

    fn visit_fn_call(&mut self, name: &String, args: &Vec<Expresion>) -> (r: String)
        ensures
            final(self).indent == old(self).indent,
    {
        PythonVisitor::visit_expression(&Expresion::FnCall(name.clone(), duplicate_expresions(args)))
    }

    fn visit_array(&mut self, elements: &Vec<Expresion>) -> (r: String)
        ensures
            final(self).indent == old(self).indent,
    {
        PythonVisitor::visit_expression(&Expresion::Array(duplicate_expresions(elements)))
    }

    fn visit_unary(&mut self, operator: &Token, operand: &Expresion) -> (r: String)
        ensures
            final(self).indent == old(self).indent,
    {
        PythonVisitor::visit_expression(
            &Expresion::Unary(operator.clone(), Box::new(operand.duplicate())),
        )
    }

    fn visit_range(&mut self, start: &Expresion, end: &Expresion, inclusive: bool) -> (r: String)
        ensures
            final(self).indent == old(self).indent,
    {
        PythonVisitor::visit_expression(
            &Expresion::Range(Box::new(start.duplicate()), Box::new(end.duplicate()), inclusive),
        )
    }

    fn visit_tuple(&mut self, elements: &Vec<Expresion>) -> (r: String)
        ensures
            final(self).indent == old(self).indent,
    {
        PythonVisitor::visit_expression(&Expresion::Tuple(duplicate_expresions(elements)))
    }

    fn visit_index(&mut self, array: &Expresion, index: &Expresion) -> (r: String)
        ensures
            final(self).indent == old(self).indent,
    {
        PythonVisitor::visit_expression(
            &Expresion::Index(Box::new(array.duplicate()), Box::new(index.duplicate())),
        )
    }

    fn visit_member(&mut self, object: &Expresion, member: &String) -> (r: String)
        ensures
            final(self).indent == old(self).indent,
    {
        PythonVisitor::visit_expression(
            &Expresion::Member(Box::new(object.duplicate()), member.clone()),
        )
    }

    fn visit_tuple_index(&mut self, tuple: &Expresion, index: usize) -> (r: String)
        ensures
            final(self).indent == old(self).indent,
    {
        PythonVisitor::visit_expression(&Expresion::TupleIndex(Box::new(tuple.duplicate()), index))
    }

    fn visit_number(&mut self, number: &Number) -> (r: String)
        ensures
            final(self).indent == old(self).indent,
    {
        PythonVisitor::visit_expression(&Expresion::Literal(Literal::Number(number.clone())))
    }

    fn visit_string(&mut self, string: &String) -> (r: String)
        ensures
            final(self).indent == old(self).indent,
    {
        PythonVisitor::visit_expression(&Expresion::Literal(Literal::String(string.clone())))
    }

    fn visit_boolean(&mut self, boolean: &bool) -> (r: String)
        ensures
            final(self).indent == old(self).indent,
    {
        PythonVisitor::visit_expression(&Expresion::Literal(Literal::Boolean(*boolean)))
    }
}

} // verus!
