use vstd::prelude::*;
use vstd::string::*;
use crate::grammar::{
    error_at, expect, p_access_assignment, p_assignment, p_block, p_block_in, p_block_items,
    p_declaration, p_else, p_end, p_expression, p_expression_statement, p_for, p_function, p_if,
    p_initializer, p_loop, p_program, p_return, p_scoped_block, p_statement, peek, Parsed,
    SyntaxError, SyntaxErrorKind,
};
use crate::lexer::{Token, TokenView};
use crate::sintax::{
    duplicate_names, parsed_as, push_statement, scopes_nest, statement_views, Block, Expresion,
    Literal, Sintax, Statement, StatementView,
};
use crate::table::{Symbol, UseType};
use crate::table_laws::{
    close_scope_pops, create_scope_keeps_wf, enter_scope_keeps_wf, enter_scope_pushes,
    exit_scope_keeps_wf, insert_keeps_scopes, insert_keeps_wf, open_scope_pushes, scopes_kept,
    table_wf,
};

verus! {

impl Sintax {
    /// Parses the text from the cursor to its end. The statements become the
    /// program, and the table holds what they declare.
    pub fn parse(&mut self) -> (r: Result<(), SyntaxError>)
        ensures
            match p_program(old(self)@, Seq::empty()) {
                Parsed::Done { value, state } => {
                    &&& r is Ok
                    &&& statement_views(final(self).program@) == value
                    &&& final(self)@ == state
                },
                Parsed::Fail { kind, at } => {
                    &&& r is Err
                    &&& r->Err_0 == error_at(old(self)@.source, kind, at)
                    &&& kind != SyntaxErrorKind::Stalled
                },
            },
            scopes_nest(old(self)@, r, final(self)@),
    {
        proof {
            reveal_with_fuel(p_program, 1);
        }
        let mut found: Vec<Statement> = Vec::new();
        let ghost goal = p_program(old(self)@, Seq::empty());
        assert(statement_views(found@) =~= Seq::<StatementView>::empty());
        loop
            invariant
                p_program(self@, statement_views(found@)) == goal,
                goal == p_program(old(self)@, Seq::empty()),
                self@.source == old(self)@.source,
                old(self)@.table.active.len() > 0 ==> scopes_kept(
                    old(self)@.table,
                    self@.table,
                ) && old(self)@.scope_id <= self@.scope_id,
                table_wf(old(self)@.table) ==> table_wf(self@.table),
            decreases self@.source.len() - self@.position,
        {
            proof {
                reveal_with_fuel(p_program, 1);
            }
            let token = self.peek()?;
            if matches!(token, Token::EOF) {
                self.program = found;
                return Ok(());
            }
            let statement = self.parse_statement()?;
            push_statement(&mut found, statement);
        }
    }

    /// A statement.
    pub fn parse_statement(&mut self) -> (r: Result<Statement, SyntaxError>)
        ensures
            parsed_as(old(self)@, p_statement(old(self)@), r, final(self)@),
            scopes_nest(old(self)@, r, final(self)@),
            r is Ok ==> old(self)@.position < final(self)@.position,
        decreases old(self)@.source.len() - old(self)@.position, 30int,
    {
        proof {
            reveal_with_fuel(p_statement, 1);
            reveal_with_fuel(p_declaration, 1);
            reveal_with_fuel(p_if, 1);
            reveal_with_fuel(p_loop, 1);
            reveal_with_fuel(p_for, 1);
            reveal_with_fuel(p_function, 1);
            reveal_with_fuel(p_return, 1);
            reveal_with_fuel(p_assignment, 1);
            reveal_with_fuel(p_access_assignment, 1);
            reveal_with_fuel(p_expression_statement, 1);
        }
        let token = self.peek()?;
        match token {
            Token::Let => self.parse_declaration(),
            Token::Const => self.parse_declaration(),
            Token::If => self.parse_if(),
            Token::Loop => self.parse_loop(),
            Token::For => self.parse_for_loop(),
            Token::Function => self.func_declaration(),
            Token::Return => self.parse_return(),
            Token::Identifier(_) => {
                let mark = self.lexer.save_position();
                let _ = self.next()?;
                let ahead = self.peek();
                self.lexer.restore_position(mark);
                let next = ahead?;
                match next {
                    Token::Equal => self.parse_assignment(),
                    Token::Dot => self.parse_access_assignment(),
                    Token::LeftBracket => self.parse_access_assignment(),
                    _ => self.parse_expresion_statement(),
                }
            },
            _ => self.parse_expresion_statement(),
        }
    }

    /// A `return`.
    pub fn parse_return(&mut self) -> (r: Result<Statement, SyntaxError>)
        ensures
            parsed_as(old(self)@, p_return(old(self)@), r, final(self)@),
            scopes_nest(old(self)@, r, final(self)@),
            r is Ok ==> old(self)@.position < final(self)@.position,
        decreases old(self)@.source.len() - old(self)@.position, 20int,
    {
        proof {
            reveal_with_fuel(p_return, 1);
            reveal_with_fuel(p_expression, 1);
        }
        let _ = self.next()?;
        let token = self.peek()?;
        if matches!(token, Token::Semicolon) {
            self.end_statement(Statement::Return(None))
        } else {
            let value = self.parse_expresion()?;
            self.end_statement(Statement::Return(Some(value)))
        }
    }

    /// The semicolon that ends a statement.
    pub(crate) fn end_statement(&mut self, statement: Statement) -> (r: Result<Statement, SyntaxError>)
        ensures
            parsed_as(old(self)@, p_end(old(self)@, statement@), r, final(self)@),
            scopes_nest(old(self)@, r, final(self)@),
            r is Ok ==> old(self)@.position < final(self)@.position,
    {
        self.expect(Token::Semicolon, SyntaxErrorKind::ExpectedSemicolon)?;
        Ok(statement)
    }

    /// A function declaration.
    pub fn func_declaration(&mut self) -> (r: Result<Statement, SyntaxError>)
        ensures
            parsed_as(old(self)@, p_function(old(self)@), r, final(self)@),
            scopes_nest(old(self)@, r, final(self)@),
            r is Ok ==> old(self)@.position < final(self)@.position,
        decreases old(self)@.source.len() - old(self)@.position, 20int,
    {
        proof {
            reveal_with_fuel(p_function, 1);
            reveal_with_fuel(p_scoped_block, 1);
        }
        let _ = self.next()?;
        let name = self.next()?;
        let id = match name {
            Token::Identifier(id) => id,
            _ => {
                return Err(self.error(SyntaxErrorKind::ExpectedIdentifier));
            },
        };
        self.expect(Token::LeftParen, SyntaxErrorKind::ExpectedLeftParen)?;
        let parameters = self.parse_parameter_list()?;
        let returned = self.parse_return_type()?;
        if returned.is_none() {
            return Err(self.error(SyntaxErrorKind::ExpectedReturnType));
        }
        let (line, _) = self.lexer.get_current_position();
        let names = duplicate_names(&parameters.names);
        let scope = self.table.current_scope();
        let symbol = Symbol::function(
            id.clone(),
            line,
            scope,
            UseType::Declaration,
            returned,
            names,
            parameters.types,
        );
        proof {
            insert_keeps_scopes(self.table@, symbol@);
            if table_wf(self.table@) {
                insert_keeps_wf(self.table@, symbol@);
            }
        }
        self.table.insert(symbol);
        let block = self.parse_scoped_block()?;
        Ok(Statement::FnDeclaration(id, parameters.names, block.body, block.scope))
    }

    /// A `for`.
    pub fn parse_for_loop(&mut self) -> (r: Result<Statement, SyntaxError>)
        ensures
            parsed_as(old(self)@, p_for(old(self)@), r, final(self)@),
            scopes_nest(old(self)@, r, final(self)@),
            r is Ok ==> old(self)@.position < final(self)@.position,
        decreases old(self)@.source.len() - old(self)@.position, 20int,
    {
        proof {
            reveal_with_fuel(p_for, 1);
            reveal_with_fuel(p_expression, 1);
            reveal_with_fuel(p_scoped_block, 1);
        }
        let _ = self.next()?;
        self.expect(Token::LeftParen, SyntaxErrorKind::ExpectedLeftParen)?;
        let name = self.next()?;
        let id = match name {
            Token::Identifier(id) => id,
            _ => {
                return Err(self.error(SyntaxErrorKind::ExpectedIdentifier));
            },
        };
        self.expect(Token::In, SyntaxErrorKind::ExpectedIn)?;
        let iterable = self.parse_expresion()?;
        self.expect(Token::RightParen, SyntaxErrorKind::ExpectedRightParen)?;
        let block = self.parse_scoped_block()?;
        Ok(Statement::For(id, iterable, block.body, block.scope))
    }

    /// A `loop`.
    pub fn parse_loop(&mut self) -> (r: Result<Statement, SyntaxError>)
        ensures
            parsed_as(old(self)@, p_loop(old(self)@), r, final(self)@),
            scopes_nest(old(self)@, r, final(self)@),
            r is Ok ==> old(self)@.position < final(self)@.position,
        decreases old(self)@.source.len() - old(self)@.position, 20int,
    {
        proof {
            reveal_with_fuel(p_loop, 1);
            reveal_with_fuel(p_scoped_block, 1);
        }
        let _ = self.next()?;
        let block = self.parse_scoped_block()?;
        Ok(Statement::Loop(block.body, block.scope))
    }

    /// An `if`.
    pub fn parse_if(&mut self) -> (r: Result<Statement, SyntaxError>)
        ensures
            parsed_as(old(self)@, p_if(old(self)@), r, final(self)@),
            scopes_nest(old(self)@, r, final(self)@),
            r is Ok ==> old(self)@.position < final(self)@.position,
        decreases old(self)@.source.len() - old(self)@.position, 20int,
    {
        proof {
            reveal_with_fuel(p_if, 1);
            reveal_with_fuel(p_expression, 1);
            reveal_with_fuel(p_scoped_block, 1);
            reveal_with_fuel(p_else, 1);
        }
        let _ = self.next()?;
        self.expect(Token::LeftParen, SyntaxErrorKind::ExpectedLeftParen)?;
        let condition = self.parse_expresion()?;
        self.expect(Token::RightParen, SyntaxErrorKind::ExpectedRightParen)?;
        let block = self.parse_scoped_block()?;
        let otherwise = self.parse_else(block.scope)?;
        Ok(Statement::If(condition, block.body, otherwise, block.scope))
    }

    /// What follows the block of an `if`.
    pub(crate) fn parse_else(&mut self, scope: u32) -> (r: Result<Option<Box<Statement>>, SyntaxError>)
        ensures
            parsed_as(old(self)@, p_else(old(self)@, scope as int), r, final(self)@),
            old(self)@.table.has_scope(scope) ==> scopes_nest(old(self)@, r, final(self)@),
            r is Ok && table_wf(old(self)@.table) ==> table_wf(final(self)@.table),
        decreases old(self)@.source.len() - old(self)@.position, 21int,
    {
        proof {
            reveal_with_fuel(p_else, 1);
            reveal_with_fuel(p_if, 1);
            reveal_with_fuel(p_block_in, 1);
            reveal_with_fuel(p_block, 1);
        }
        let token = self.peek()?;
        if !matches!(token, Token::Else) {
            return Ok(None);
        }
        let _ = self.next()?;
        let next = self.peek()?;
        if matches!(next, Token::If) {
            let other = self.parse_if()?;
            Ok(Some(Box::new(other)))
        } else {
            let ghost before = self.table@;
            self.table.enter_scope(scope);
            proof {
                if before.has_scope(scope) {
                    enter_scope_pushes(before, scope);
                }
                if table_wf(before) {
                    enter_scope_keeps_wf(before, scope);
                }
            }
            let body = self.parse_block()?;
            let ghost inside = self.table@;
            self.table.exit_scope();
            proof {
                if before.has_scope(scope) && before.active.len() > 0 {
                    close_scope_pops(before, scope, inside);
                }
                if table_wf(inside) {
                    exit_scope_keeps_wf(inside);
                }
            }
            Ok(
                Some(
                    Box::new(
                        Statement::If(
                            Expresion::Literal(Literal::Boolean(true)),
                            body,
                            None,
                            scope,
                        ),
                    ),
                ),
            )
        }
    }

    /// The next scope id.
    pub fn generate_scope_id(&mut self) -> (r: Result<u32, SyntaxError>)
        ensures
            final(self).lexer == old(self).lexer,
            final(self).table == old(self).table,
            final(self).program == old(self).program,
            old(self).current_scope_id < u32::MAX ==> r == Ok::<u32, SyntaxError>(
                (old(self).current_scope_id + 1) as u32,
            ) && final(self).current_scope_id == old(self).current_scope_id + 1,
            old(self).current_scope_id == u32::MAX ==> r == Err::<u32, SyntaxError>(
                error_at(old(self)@.source, SyntaxErrorKind::TooManyScopes, old(self)@.position),
            ) && final(self).current_scope_id == old(self).current_scope_id,
    {
        if self.current_scope_id == u32::MAX {
            return Err(self.error(SyntaxErrorKind::TooManyScopes));
        }
        self.current_scope_id += 1;
        Ok(self.current_scope_id)
    }

    /// A block in a scope of its own.
    pub(crate) fn parse_scoped_block(&mut self) -> (r: Result<Block, SyntaxError>)
        ensures
            parsed_as(old(self)@, p_scoped_block(old(self)@), r, final(self)@),
            scopes_nest(old(self)@, r, final(self)@),
            r is Ok ==> final(self)@.table.has_scope(r->Ok_0.scope),
        decreases old(self)@.source.len() - old(self)@.position, 11int,
    {
        proof {
            reveal_with_fuel(p_scoped_block, 1);
            reveal_with_fuel(p_block, 1);
        }
        let scope = self.generate_scope_id()?;
        let ghost before = self.table@;
        self.table.create_scope(scope);
        self.table.enter_scope(scope);
        proof {
            open_scope_pushes(before, scope);
            if table_wf(before) {
                create_scope_keeps_wf(before, scope);
                enter_scope_keeps_wf(before.create_scope(scope), scope);
            }
        }
        let body = self.parse_block()?;
        let ghost inside = self.table@;
        self.table.exit_scope();
        proof {
            assert(inside.has_scope(scope));
            if before.active.len() > 0 {
                close_scope_pops(before, scope, inside);
            }
            if table_wf(inside) {
                exit_scope_keeps_wf(inside);
            }
            assert(self.table@.scopes == inside.scopes);
        }
        Ok(Block { body, scope })
    }

    /// A block.
    pub fn parse_block(&mut self) -> (r: Result<Vec<Statement>, SyntaxError>)
        ensures
            parsed_as(old(self)@, p_block(old(self)@), r, final(self)@),
            scopes_nest(old(self)@, r, final(self)@),
            r is Ok ==> old(self)@.position < final(self)@.position,
        decreases old(self)@.source.len() - old(self)@.position, 10int,
    {
        proof {
            reveal_with_fuel(p_block, 1);
            reveal_with_fuel(p_block_items, 1);
            reveal_with_fuel(p_statement, 1);
        }
        self.expect(Token::LeftBrace, SyntaxErrorKind::ExpectedLeftBrace)?;
        let mut found: Vec<Statement> = Vec::new();
        let ghost inside = self@;
        let ghost goal = p_block_items(inside, Seq::empty());
        assert(statement_views(found@) =~= Seq::<StatementView>::empty());
        loop
            invariant
                p_block_items(self@, statement_views(found@)) == goal,
                goal == p_block_items(inside, Seq::empty()),
                p_block(old(self)@) == match goal {
                    Parsed::Done { value, state: s2 } => match expect(
                        s2,
                        TokenView::RightBrace,
                        SyntaxErrorKind::ExpectedRightBrace,
                    ) {
                        Parsed::Done { value: _, state: s3 } => Parsed::Done { value, state: s3 },
                        Parsed::Fail { kind, at } => Parsed::Fail { kind, at },
                    },
                    Parsed::Fail { kind, at } => Parsed::Fail { kind, at },
                },
                self@.source == old(self)@.source,
                old(self)@.table.active.len() > 0 ==> scopes_kept(
                    old(self)@.table,
                    self@.table,
                ) && old(self)@.scope_id <= self@.scope_id,
                table_wf(old(self)@.table) ==> table_wf(self@.table),
                old(self)@.position < self@.position,
            decreases self@.source.len() - self@.position,
        {
            proof {
                reveal_with_fuel(p_block, 1);
                reveal_with_fuel(p_block_items, 1);
                reveal_with_fuel(p_statement, 1);
            }
            let token = self.peek()?;
            if matches!(token, Token::RightBrace) || matches!(token, Token::EOF) {
                self.expect(Token::RightBrace, SyntaxErrorKind::ExpectedRightBrace)?;
                return Ok(found);
            }
            let statement = self.parse_statement()?;
            push_statement(&mut found, statement);
        }
    }

    /// An assignment to a name.
    pub fn parse_assignment(&mut self) -> (r: Result<Statement, SyntaxError>)
        ensures
            parsed_as(old(self)@, p_assignment(old(self)@), r, final(self)@),
            scopes_nest(old(self)@, r, final(self)@),
            r is Ok ==> old(self)@.position < final(self)@.position,
        decreases old(self)@.source.len() - old(self)@.position, 20int,
    {
        proof {
            reveal_with_fuel(p_assignment, 1);
            reveal_with_fuel(p_expression, 1);
        }
        let name = self.next()?;
        let id = match name {
            Token::Identifier(id) => id,
            _ => {
                return Err(self.error(SyntaxErrorKind::ExpectedIdentifier));
            },
        };
        self.expect(Token::Equal, SyntaxErrorKind::ExpectedEqual)?;
        let value = self.parse_expresion()?;
        self.end_statement(Statement::Assignment(Expresion::Identifier(id), value))
    }

    /// An assignment through a chain of accesses.
    pub(crate) fn parse_access_assignment(&mut self) -> (r: Result<Statement, SyntaxError>)
        ensures
            parsed_as(old(self)@, p_access_assignment(old(self)@), r, final(self)@),
            scopes_nest(old(self)@, r, final(self)@),
            r is Ok ==> old(self)@.position < final(self)@.position,
        decreases old(self)@.source.len() - old(self)@.position, 20int,
    {
        proof {
            reveal_with_fuel(p_access_assignment, 1);
            reveal_with_fuel(p_expression, 1);
        }
        let target = self.parse_expresion()?;
        let token = self.peek()?;
        if !matches!(token, Token::Equal) {
            return Err(self.error(SyntaxErrorKind::ExpectedEqual));
        }
        let _ = self.next()?;
        let value = self.parse_expresion()?;
        self.end_statement(Statement::Assignment(target, value))
    }

    /// A declaration.
    pub fn parse_declaration(&mut self) -> (r: Result<Statement, SyntaxError>)
        ensures
            parsed_as(old(self)@, p_declaration(old(self)@), r, final(self)@),
            scopes_nest(old(self)@, r, final(self)@),
            r is Ok ==> old(self)@.position < final(self)@.position,
        decreases old(self)@.source.len() - old(self)@.position, 20int,
    {
        proof {
            reveal_with_fuel(p_declaration, 1);
            reveal_with_fuel(p_initializer, 1);
        }
        let keyword = self.next()?;
        let is_const = matches!(keyword, Token::Const);
        let name = self.next()?;
        let id = match name {
            Token::Identifier(id) => id,
            _ => {
                return Err(self.error(SyntaxErrorKind::ExpectedIdentifier));
            },
        };
        let data_type = self.parse_type()?;
        let value = self.parse_initializer()?;
        if is_const && (value.is_none() || data_type.is_none()) {
            return Err(self.error(SyntaxErrorKind::ConstIncomplete));
        }
        let (line, col) = self.lexer.get_current_position();
        let end = self.next()?;
        if !matches!(end, Token::Semicolon) {
            return Err(SyntaxError { kind: SyntaxErrorKind::ExpectedSemicolon, line, col });
        }
        let scope = self.table.current_scope();
        let symbol = Symbol::variable(id.clone(), line, scope, UseType::Declaration, data_type);
        proof {
            insert_keeps_scopes(self.table@, symbol@);
            if table_wf(self.table@) {
                insert_keeps_wf(self.table@, symbol@);
            }
        }
        self.table.insert(symbol);
        Ok(Statement::Declaration(id, value))
    }

    /// An initializer, if one stands here.
    pub(crate) fn parse_initializer(&mut self) -> (r: Result<Option<Expresion>, SyntaxError>)
        ensures
            parsed_as(old(self)@, p_initializer(old(self)@), r, final(self)@),
            scopes_nest(old(self)@, r, final(self)@),
        decreases old(self)@.source.len() - old(self)@.position, 16int,
    {
        proof {
            reveal_with_fuel(p_initializer, 1);
            reveal_with_fuel(p_expression, 1);
        }
        let token = self.peek()?;
        if matches!(token, Token::Equal) {
            let _ = self.next()?;
            let value = self.parse_expresion()?;
            Ok(Some(value))
        } else {
            Ok(None)
        }
    }

    /// An expression statement.
    pub fn parse_expresion_statement(&mut self) -> (r: Result<Statement, SyntaxError>)
        ensures
            parsed_as(old(self)@, p_expression_statement(old(self)@), r, final(self)@),
            scopes_nest(old(self)@, r, final(self)@),
            r is Ok ==> old(self)@.position < final(self)@.position,
        decreases old(self)@.source.len() - old(self)@.position, 20int,
    {
        proof {
            reveal_with_fuel(p_expression_statement, 1);
            reveal_with_fuel(p_expression, 1);
        }
        let value = self.parse_expresion()?;
        self.end_statement(Statement::ExpressionStatement(value))
    }
}

} // verus!
