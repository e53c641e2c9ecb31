use vstd::prelude::*;
use vstd::string::*;
use crate::grammar::{
    expect, level_rank, p_array, p_expression, p_fncall, p_index_chain, p_items, p_level,
    p_level_rest, p_literal, p_tuple, p_unary, peek, tuple_ahead, Parsed, SyntaxError,
    SyntaxErrorKind,
};
use crate::lexer::{Number, Token};
use crate::sintax::{
    expresion_views, float_slots, level_of, parsed_as, push_expresion, scopes_nest, Expresion,
    ExpresionView, Literal, Sintax,
};
use crate::table_laws::{scopes_kept, table_wf};

verus! {

impl Sintax {
    /// The rest of a tuple, after the opening parenthesis.
    pub fn parse_tuple(&mut self) -> (r: Result<Expresion, SyntaxError>)
        ensures
            parsed_as(old(self)@, p_tuple(old(self)@), r, final(self)@),
            scopes_nest(old(self)@, r, final(self)@),
        decreases old(self)@.source.len() - old(self)@.position, 17int,
    {
        proof {
            reveal_with_fuel(p_tuple, 1);
            reveal_with_fuel(p_items, 1);
        }
        let items = self.parse_items(
            Token::RightParen,
            true,
            SyntaxErrorKind::ExpectedCommaOrRightParen,
        )?;
        Ok(Expresion::Tuple(items))
    }

    /// The rest of an array literal, after the opening bracket.
    pub fn parse_array(&mut self) -> (r: Result<Expresion, SyntaxError>)
        ensures
            parsed_as(old(self)@, p_array(old(self)@), r, final(self)@),
            scopes_nest(old(self)@, r, final(self)@),
        decreases old(self)@.source.len() - old(self)@.position, 17int,
    {
        proof {
            reveal_with_fuel(p_array, 1);
            reveal_with_fuel(p_items, 1);
        }
        let items = self.parse_items(
            Token::RightBracket,
            true,
            SyntaxErrorKind::ExpectedCommaOrRightBracket,
        )?;
        Ok(Expresion::Array(items))
    }

    /// A list of expressions up to `closer`.
    pub(crate) fn parse_items(&mut self, closer: Token, trailing: bool, otherwise: SyntaxErrorKind) -> (r:
        Result<Vec<Expresion>, SyntaxError>)
        requires
            otherwise != SyntaxErrorKind::Stalled,
        ensures
            parsed_as(
                old(self)@,
                p_items(old(self)@, closer@, trailing, otherwise, Seq::empty()),
                r,
                final(self)@,
            ),
            scopes_nest(old(self)@, r, final(self)@),
        decreases old(self)@.source.len() - old(self)@.position, 16int,
    {
        proof {
            reveal_with_fuel(p_items, 1);
            reveal_with_fuel(p_expression, 1);
        }
        let mut found: Vec<Expresion> = Vec::new();
        let ghost goal = p_items(old(self)@, closer@, trailing, otherwise, Seq::empty());
        assert(expresion_views(found@) =~= Seq::<ExpresionView>::empty());
        loop
            invariant
                p_items(self@, closer@, trailing, otherwise, expresion_views(found@)) == goal,
                goal == p_items(old(self)@, closer@, trailing, otherwise, Seq::empty()),
                self@.source == old(self)@.source,
                old(self)@.table.active.len() > 0 ==> scopes_kept(
                    old(self)@.table,
                    self@.table,
                ) && old(self)@.scope_id <= self@.scope_id,
                table_wf(old(self)@.table) ==> table_wf(self@.table),
                old(self)@.position <= self@.position,
                otherwise != SyntaxErrorKind::Stalled,
            decreases self@.source.len() - self@.position,
        {
            proof {
                reveal_with_fuel(p_items, 1);
                reveal_with_fuel(p_expression, 1);
            }
            let token = self.peek()?;
            if trailing && token == closer {
                let _ = self.next()?;
                return Ok(found);
            }
            let item = self.parse_expresion()?;
            let separator = self.peek()?;
            if matches!(separator, Token::Comma) {
                let _ = self.next()?;
                push_expresion(&mut found, item);
            } else if separator == closer {
                let _ = self.next()?;
                push_expresion(&mut found, item);
                return Ok(found);
            } else {
                return Err(self.error(otherwise));
            }
        }
    }

    /// An expression.
    pub fn parse_expresion(&mut self) -> (r: Result<Expresion, SyntaxError>)
        ensures
            parsed_as(old(self)@, p_expression(old(self)@), r, final(self)@),
            scopes_nest(old(self)@, r, final(self)@),
        decreases old(self)@.source.len() - old(self)@.position, 15int,
    {
        proof {
            reveal_with_fuel(p_expression, 1);
            reveal_with_fuel(p_level, 1);
        }
        self.parse_level(6)
    }

    /// Operands joined by `||`.
    pub fn parse_logical_or(&mut self) -> (r: Result<Expresion, SyntaxError>)
        ensures
            parsed_as(old(self)@, p_level(6, old(self)@), r, final(self)@),
            scopes_nest(old(self)@, r, final(self)@),
    {
        self.parse_level(6)
    }

    /// Operands joined by `&&`.
    pub fn parse_logical_and(&mut self) -> (r: Result<Expresion, SyntaxError>)
        ensures
            parsed_as(old(self)@, p_level(5, old(self)@), r, final(self)@),
            scopes_nest(old(self)@, r, final(self)@),
    {
        self.parse_level(5)
    }

    /// Operands joined by the comparison operators.
    pub fn parse_comparison(&mut self) -> (r: Result<Expresion, SyntaxError>)
        ensures
            parsed_as(old(self)@, p_level(4, old(self)@), r, final(self)@),
            scopes_nest(old(self)@, r, final(self)@),
    {
        self.parse_level(4)
    }

    /// Operands joined by `+` and `-`.
    pub fn parse_term(&mut self) -> (r: Result<Expresion, SyntaxError>)
        ensures
            parsed_as(old(self)@, p_level(3, old(self)@), r, final(self)@),
            scopes_nest(old(self)@, r, final(self)@),
    {
        self.parse_level(3)
    }

    /// Operands joined by `*`, `/` and `%`.
    pub fn parse_factor(&mut self) -> (r: Result<Expresion, SyntaxError>)
        ensures
            parsed_as(old(self)@, p_level(2, old(self)@), r, final(self)@),
            scopes_nest(old(self)@, r, final(self)@),
    {
        self.parse_level(2)
    }

    /// Operands joined by `**`.
    pub fn parse_expoperator(&mut self) -> (r: Result<Expresion, SyntaxError>)
        ensures
            parsed_as(old(self)@, p_level(1, old(self)@), r, final(self)@),
            scopes_nest(old(self)@, r, final(self)@),
    {
        self.parse_level(1)
    }

    /// An expression of level `level`.
    pub fn parse_level(&mut self, level: u8) -> (r: Result<Expresion, SyntaxError>)
        ensures
            parsed_as(old(self)@, p_level(level as int, old(self)@), r, final(self)@),
            scopes_nest(old(self)@, r, final(self)@),
        decreases old(self)@.source.len() - old(self)@.position, level_rank(level as int),
    {
        proof {
            reveal_with_fuel(p_level, 1);
            reveal_with_fuel(p_level_rest, 1);
            reveal_with_fuel(p_unary, 1);
        }
        if level == 0 {
            return self.parse_unary();
        }
        let mut left = self.parse_level(level - 1)?;
        let ghost goal = p_level(level as int, old(self)@);
        loop
            invariant
                1 <= level,
                p_level_rest(level as int, left@, self@) == goal,
                goal == p_level(level as int, old(self)@),
                self@.source == old(self)@.source,
                old(self)@.table.active.len() > 0 ==> scopes_kept(
                    old(self)@.table,
                    self@.table,
                ) && old(self)@.scope_id <= self@.scope_id,
                table_wf(old(self)@.table) ==> table_wf(self@.table),
                old(self)@.position <= self@.position,
            decreases self@.source.len() - self@.position,
        {
            proof {
                reveal_with_fuel(p_level, 1);
                reveal_with_fuel(p_level_rest, 1);
                reveal_with_fuel(p_unary, 1);
            }
            let token = self.peek()?;
            if level_of(&token) != level {
                return Ok(left);
            }
            let operator = self.next()?;
            let right = self.parse_level(level - 1)?;
            left = Expresion::Binary(Box::new(left), operator, Box::new(right));
        }
    }

    /// A unary expression.
    pub fn parse_unary(&mut self) -> (r: Result<Expresion, SyntaxError>)
        ensures
            parsed_as(old(self)@, p_unary(old(self)@), r, final(self)@),
            scopes_nest(old(self)@, r, final(self)@),
        decreases old(self)@.source.len() - old(self)@.position, 1int,
    {
        proof {
            reveal_with_fuel(p_unary, 1);
            reveal_with_fuel(p_literal, 1);
        }
        let token = self.peek()?;
        if token.is_operator("-") || token.is_operator("!") {
            let operator = self.next()?;
            let operand = self.parse_unary()?;
            Ok(Expresion::Unary(operator, Box::new(operand)))
        } else {
            self.parse_literal()
        }
    }

    /// Whether what follows an opening parenthesis is a tuple: whether a comma stands
    /// outside any inner group before the parenthesis is closed.
    pub(crate) fn tuple_ahead(&mut self) -> (r: Result<bool, SyntaxError>)
        ensures
            parsed_as(old(self)@, tuple_ahead(old(self)@, 0), r, final(self)@),
            scopes_nest(old(self)@, r, final(self)@),
            r is Ok ==> final(self)@ == old(self)@,
    {
        proof {
            reveal_with_fuel(tuple_ahead, 1);
        }
        let mark = self.lexer.save_position();
        let mut depth: usize = 0;
        let ghost start = self@;
        let _ = self.lexer.remaining();
        loop
            invariant
                start == old(self)@,
                self@ == start.at(self@.position),
                mark == start.position,
                start.position <= self@.position <= self@.source.len(),
                depth <= self@.position - start.position,
                self@.source.len() < usize::MAX,
                match tuple_ahead(self@, depth as int) {
                    Parsed::Done { value, state } => tuple_ahead(start, 0) == (Parsed::Done {
                        value,
                        state: start,
                    }),
                    Parsed::Fail { kind, at } => tuple_ahead(start, 0) == Parsed::<bool>::Fail {
                        kind,
                        at,
                    },
                },
            decreases self@.source.len() - self@.position,
        {
            proof {
                reveal_with_fuel(tuple_ahead, 1);
            }
            let token = self.next()?;
            if matches!(token, Token::EOF) {
                self.lexer.restore_position(mark);
                return Ok(false);
            } else if matches!(token, Token::Comma) && depth == 0 {
                self.lexer.restore_position(mark);
                return Ok(true);
            } else if matches!(token, Token::RightParen) || matches!(token, Token::RightBracket)
                || matches!(token, Token::RightBrace) {
                if depth == 0 {
                    self.lexer.restore_position(mark);
                    return Ok(false);
                }
                depth -= 1;
            } else if matches!(token, Token::LeftParen) || matches!(token, Token::LeftBracket)
                || matches!(token, Token::LeftBrace) {
                depth += 1;
            }
        }
    }

    /// A primary expression.
    pub fn parse_literal(&mut self) -> (r: Result<Expresion, SyntaxError>)
        ensures
            parsed_as(old(self)@, p_literal(old(self)@), r, final(self)@),
            scopes_nest(old(self)@, r, final(self)@),
        decreases old(self)@.source.len() - old(self)@.position, 0int,
    {
        proof {
            reveal_with_fuel(p_literal, 1);
            reveal_with_fuel(p_expression, 1);
            reveal_with_fuel(p_fncall, 1);
            reveal_with_fuel(p_index_chain, 1);
            reveal_with_fuel(p_array, 1);
            reveal_with_fuel(p_tuple, 1);
        }
        let token = self.next()?;
        match token {
            Token::Number(number) => {
                let start = Expresion::Literal(Literal::Number(number));
                assert(start@ == ExpresionView::Literal(crate::sintax::LiteralView::Number(number@)));
                let next = self.peek()?;
                let inclusive = matches!(next, Token::RangeInclusive);
                if inclusive || matches!(next, Token::Range) {
                    let _ = self.next()?;
                    let end = self.parse_expresion()?;
                    Ok(Expresion::Range(Box::new(start), Box::new(end), inclusive))
                } else {
                    Ok(start)
                }
            },
            Token::String(text) => Ok(Expresion::Literal(Literal::String(text))),
            Token::True => Ok(Expresion::Literal(Literal::Boolean(true))),
            Token::False => Ok(Expresion::Literal(Literal::Boolean(false))),
            Token::Identifier(id) => {
                let next = self.peek()?;
                match next {
                    Token::LeftParen => self.parse_fncall(id),
                    Token::Dot => self.parse_index_arr_tupla(Expresion::Identifier(id)),
                    Token::LeftBracket => self.parse_index_arr_tupla(Expresion::Identifier(id)),
                    _ => Ok(Expresion::Identifier(id)),
                }
            },
            Token::LeftBracket => self.parse_array(),
            Token::LeftParen => {
                let is_tuple = self.tuple_ahead()?;
                if is_tuple {
                    self.parse_tuple()
                } else {
                    let inner = self.parse_expresion()?;
                    self.expect(Token::RightParen, SyntaxErrorKind::ExpectedRightParen)?;
                    Ok(inner)
                }
            },
            _ => Err(self.error(SyntaxErrorKind::ExpectedExpression)),
        }
    }

    /// The call of `name`, whose opening parenthesis stands at the cursor.
    pub fn parse_fncall(&mut self, name: String) -> (r: Result<Expresion, SyntaxError>)
        ensures
            parsed_as(old(self)@, p_fncall(name@, old(self)@), r, final(self)@),
            scopes_nest(old(self)@, r, final(self)@),
        decreases old(self)@.source.len() - old(self)@.position, 17int,
    {
        proof {
            reveal_with_fuel(p_fncall, 1);
            reveal_with_fuel(p_items, 1);
        }
        let _ = self.next()?;
        let next = self.peek()?;
        if matches!(next, Token::RightParen) {
            let _ = self.next()?;
            let arguments: Vec<Expresion> = Vec::new();
            assert(expresion_views(arguments@) =~= Seq::<ExpresionView>::empty());
            Ok(Expresion::FnCall(name, arguments))
        } else {
            let arguments = self.parse_items(Token::RightParen, false, SyntaxErrorKind::BadCall)?;
            Ok(Expresion::FnCall(name, arguments))
        }
    }

    /// The accesses that follow `expr`, applied to it from left to right.
    pub fn parse_index_arr_tupla(&mut self, expr: Expresion) -> (r: Result<Expresion, SyntaxError>)
        ensures
            parsed_as(old(self)@, p_index_chain(expr@, old(self)@), r, final(self)@),
            scopes_nest(old(self)@, r, final(self)@),
        decreases old(self)@.source.len() - old(self)@.position, 16int,
    {
        proof {
            reveal_with_fuel(p_index_chain, 1);
            reveal_with_fuel(p_expression, 1);
        }
        let mut base = expr;
        let ghost goal = p_index_chain(expr@, old(self)@);
        loop
            invariant
                p_index_chain(base@, self@) == goal,
                goal == p_index_chain(expr@, old(self)@),
                self@.source == old(self)@.source,
                old(self)@.table.active.len() > 0 ==> scopes_kept(
                    old(self)@.table,
                    self@.table,
                ) && old(self)@.scope_id <= self@.scope_id,
                table_wf(old(self)@.table) ==> table_wf(self@.table),
                old(self)@.position <= self@.position,
            decreases self@.source.len() - self@.position,
        {
            proof {
                reveal_with_fuel(p_index_chain, 1);
                reveal_with_fuel(p_expression, 1);
            }
            let token = self.peek()?;
            match token {
                Token::Dot => {
                    let _ = self.next()?;
                    let selector = self.next()?;
                    match selector {
                        Token::Number(Number::Integer(slot)) => {
                            if slot < 0 {
                                return Err(self.error(SyntaxErrorKind::ExpectedIndexOrMember));
                            }
                            let ghost inner = base@;
                            base = Expresion::TupleIndex(Box::new(base), slot as usize);
                            assert(base@ == ExpresionView::TupleIndex(Box::new(inner), slot as int));
                        },
                        Token::Identifier(field) => {
                            let ghost inner = base@;
                            base = Expresion::Member(Box::new(base), field);
                            assert(base@ == ExpresionView::Member(Box::new(inner), field@));
                        },
                        Token::Number(Number::Float(text)) => {
                            match float_slots(&text) {
                                Some(slots) => {
                                    let ghost inner = base@;
                                    let first = Expresion::TupleIndex(Box::new(base), slots.0);
                                    assert(first@ == ExpresionView::TupleIndex(
                                        Box::new(inner),
                                        slots.0 as int,
                                    ));
                                    base = Expresion::TupleIndex(Box::new(first), slots.1);
                                    assert(base@ == ExpresionView::TupleIndex(
                                        Box::new(first@),
                                        slots.1 as int,
                                    ));
                                },
                                None => {
                                    return Err(self.error(SyntaxErrorKind::ExpectedIndexOrMember));
                                },
                            }
                        },
                        _ => {
                            return Err(self.error(SyntaxErrorKind::ExpectedIndexOrMember));
                        },
                    }
                },
                Token::LeftBracket => {
                    let _ = self.next()?;
                    let index = self.parse_expresion()?;
                    self.expect(Token::RightBracket, SyntaxErrorKind::ExpectedRightBracket)?;
                    let ghost inner = base@;
                    base = Expresion::Index(Box::new(base), Box::new(index));
                    assert(base@ == ExpresionView::Index(Box::new(inner), Box::new(index@)));
                },
                _ => {
                    return Ok(base);
                },
            }
        }
    }
}

} // verus!
