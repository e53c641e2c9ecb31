use vstd::prelude::*;
use vstd::string::*;
use crate::grammar::{
    expect, p_parameter_list, p_params, p_return_type, p_type, p_type_items, p_unit_type, peek,
    SyntaxError, SyntaxErrorKind,
};
use crate::lexer::{Number, Token};
use crate::sintax::{
    name_views, parsed_as, scopes_nest, type_views, DataType, DataTypeView, Meaning, Parameters,
    Sintax,
};
use crate::table_laws::{scopes_kept, table_wf};

verus! {

impl Sintax {
    /// A type annotation, if one stands at the cursor.
    pub fn parse_type(&mut self) -> (r: Result<Option<DataType>, SyntaxError>)
        ensures
            parsed_as(old(self)@, p_type(old(self)@), r, final(self)@),
            scopes_nest(old(self)@, r, final(self)@),
    {
        let token = self.peek()?;
        if matches!(token, Token::Colon) {
            let _ = self.next()?;
            let t = self.get_unit_type()?;
            Ok(Some(t))
        } else {
            Ok(None)
        }
    }

    /// A return type, if one stands at the cursor.
    pub fn parse_return_type(&mut self) -> (r: Result<Option<DataType>, SyntaxError>)
        ensures
            parsed_as(old(self)@, p_return_type(old(self)@), r, final(self)@),
            scopes_nest(old(self)@, r, final(self)@),
    {
        let token = self.peek()?;
        if !matches!(token, Token::ArrowType) {
            return Ok(None);
        }
        let _ = self.next()?;
        let word = self.next()?;
        match word {
            Token::TypeInt => Ok(Some(DataType::Integer)),
            Token::TypeFloat => Ok(Some(DataType::Float)),
            Token::TypeString => Ok(Some(DataType::String)),
            Token::TypeBool => Ok(Some(DataType::Boolean)),
            _ => Err(self.error(SyntaxErrorKind::ExpectedType)),
        }
    }

    /// A type.
    pub fn get_unit_type(&mut self) -> (r: Result<DataType, SyntaxError>)
        ensures
            parsed_as(old(self)@, p_unit_type(old(self)@), r, final(self)@),
            scopes_nest(old(self)@, r, final(self)@),
            r is Ok ==> old(self)@.position < final(self)@.position,
        decreases old(self)@.source.len() - old(self)@.position, 0int,
    {
        proof {
            reveal_with_fuel(p_unit_type, 1);
            reveal_with_fuel(p_type_items, 1);
        }
        let token = self.next()?;
        match token {
            Token::TypeInt => Ok(DataType::Integer),
            Token::TypeFloat => Ok(DataType::Float),
            Token::TypeString => Ok(DataType::String),
            Token::TypeBool => Ok(DataType::Boolean),
            Token::LeftBracket => {
                let element = self.get_unit_type()?;
                self.expect(Token::Semicolon, SyntaxErrorKind::ExpectedSemicolon)?;
                let size = self.next()?;
                match size {
                    Token::Number(Number::Integer(n)) => {
                        self.expect(Token::RightBracket, SyntaxErrorKind::ExpectedRightBracket)?;
                        Ok(DataType::Array(Box::new(element), n))
                    },
                    _ => Err(self.error(SyntaxErrorKind::ExpectedArraySize)),
                }
            },
            Token::LeftParen => {
                let mut slots: Vec<DataType> = Vec::new();
                let ghost inside = self@;
                let ghost goal = p_type_items(inside, Seq::empty());
                assert(type_views(slots@) =~= Seq::<DataTypeView>::empty());
                loop
                    invariant
                        p_type_items(self@, type_views(slots@)) == goal,
                        goal == p_unit_type(old(self)@),
                        self@.source == old(self)@.source,
                        old(self)@.table.active.len() > 0 ==> scopes_kept(
                            old(self)@.table,
                            self@.table,
                        ) && old(self)@.scope_id <= self@.scope_id,
                table_wf(old(self)@.table) ==> table_wf(self@.table),
                old(self)@.table.active.len() > 0 ==> scopes_kept(
                    old(self)@.table,
                    self@.table,
                ) && old(self)@.scope_id <= self@.scope_id,
                table_wf(old(self)@.table) ==> table_wf(self@.table),
                        old(self)@.position < self@.position,
                    decreases self@.source.len() - self@.position,
                {
                    proof {
                        reveal_with_fuel(p_unit_type, 1);
                        reveal_with_fuel(p_type_items, 1);
                    }
                    let next = self.peek()?;
                    if matches!(next, Token::RightParen) {
                        let _ = self.next()?;
                        let whole = DataType::Tuple(slots);
                        assert(whole@->Tuple_0 =~= type_views(slots@));
                        return Ok(whole);
                    }
                    let slot = self.get_unit_type()?;
                    let ghost before = type_views(slots@);
                    slots.push(slot);
                    assert(type_views(slots@) =~= before.push(slot@));
                    let separator = self.peek()?;
                    if matches!(separator, Token::Comma) {
                        let _ = self.next()?;
                    }
                }
            },
            _ => Err(self.error(SyntaxErrorKind::ExpectedType)),
        }
    }

    /// The parameters of a function, after the opening parenthesis.
    pub(crate) fn parse_parameter_list(&mut self) -> (r: Result<Parameters, SyntaxError>)
        ensures
            parsed_as(old(self)@, p_parameter_list(old(self)@), r, final(self)@),
            scopes_nest(old(self)@, r, final(self)@),
    {
        proof {
            reveal_with_fuel(p_params, 1);
        }
        let mut found = Parameters { names: Vec::new(), types: Vec::new() };
        assert(name_views(found.names@) =~= Seq::<Seq<char>>::empty());
        assert(type_views(found.types@) =~= Seq::<DataTypeView>::empty());
        let token = self.peek()?;
        if matches!(token, Token::RightParen) {
            let _ = self.next()?;
            return Ok(found);
        }
        let ghost goal = p_params(old(self)@, found.meaning());
        loop
            invariant
                p_params(self@, found.meaning()) == goal,
                goal == p_parameter_list(old(self)@),
                self@.source == old(self)@.source,
                old(self)@.table.active.len() > 0 ==> scopes_kept(
                    old(self)@.table,
                    self@.table,
                ) && old(self)@.scope_id <= self@.scope_id,
                table_wf(old(self)@.table) ==> table_wf(self@.table),
                old(self)@.position <= self@.position,
            decreases self@.source.len() - self@.position,
        {
            proof {
                reveal_with_fuel(p_params, 1);
            }
            let name = self.next()?;
            let id = match name {
                Token::Identifier(id) => id,
                _ => {
                    return Err(self.error(SyntaxErrorKind::ExpectedIdentifier));
                },
            };
            let annotation = self.parse_type()?;
            let data_type = match annotation {
                Some(t) => t,
                None => {
                    return Err(self.error(SyntaxErrorKind::ExpectedType));
                },
            };
            let ghost before = found.meaning();
            found.names.push(id);
            found.types.push(data_type);
            assert(found.meaning().names =~= before.names.push(id@));
            assert(found.meaning().types =~= before.types.push(data_type@));
            let separator = self.peek()?;
            if matches!(separator, Token::Comma) {
                let _ = self.next()?;
            } else if matches!(separator, Token::RightParen) {
                let _ = self.next()?;
                return Ok(found);
            } else {
                return Err(self.error(SyntaxErrorKind::ExpectedCommaOrRightParen));
            }
        }
    }
}

} // verus!
