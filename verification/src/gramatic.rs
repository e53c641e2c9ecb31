use vstd::prelude::*;
use vstd::string::*;
use crate::lexer::{is_text, Number, NumberView, Token, TokenView};
use crate::sintax::{
    expresion_views, type_views, DataType, DataTypeView, Expresion, ExpresionView, Literal,
    LiteralView, Statement,
};
use crate::table::SymbolTable;

verus! {

/// Why no type could be inferred.
#[derive(Debug, Clone, Copy, PartialEq, Eq, Structural)]
pub enum TypeErr {
    /// Operands or elements whose types do not fit each other.
    TypeMismatch,
    /// An expression of a form that has no inferred type: a name, a call, an
    /// access, a unary operation, a range, an array literal without elements or with
    /// more than a length can count, or a binary operation whose operator is none.
    Unsupported,
}

/// The type of an arithmetic operation, from the types of its operands: `Float` if
/// either is one, `Integer` if both are.
pub open spec fn arithmetic_type(left: DataTypeView, right: DataTypeView) -> Result<
    DataTypeView,
    TypeErr,
> {
    if left == DataTypeView::Float || right == DataTypeView::Float {
        Ok(DataTypeView::Float)
    } else if left == DataTypeView::Integer && right == DataTypeView::Integer {
        Ok(DataTypeView::Integer)
    } else {
        Err(TypeErr::TypeMismatch)
    }
}

/// The type of a logical operation, from the types of its operands: `&&` and `||`
/// take two booleans, any other operator two operands of one type.
pub open spec fn logical_type(text: Seq<char>, left: DataTypeView, right: DataTypeView) -> Result<
    DataTypeView,
    TypeErr,
> {
    if text == "&&"@ || text == "||"@ {
        if left == DataTypeView::Boolean && right == DataTypeView::Boolean {
            Ok(DataTypeView::Boolean)
        } else {
            Err(TypeErr::TypeMismatch)
        }
    } else if left == right {
        Ok(DataTypeView::Boolean)
    } else {
        Err(TypeErr::TypeMismatch)
    }
}

/// The type of a literal.
pub open spec fn literal_kind(literal: LiteralView) -> DataTypeView {
    match literal {
        LiteralView::Number(NumberView::Integer(_)) => DataTypeView::Integer,
        LiteralView::Number(NumberView::Float(_)) => DataTypeView::Float,
        LiteralView::String(_) => DataTypeView::String,
        LiteralView::Boolean(_) => DataTypeView::Boolean,
    }
}

/// The types of the first `n` expressions of a list, or the first error that
/// inferring them in order meets.
pub open spec fn inferred_all(items: Seq<ExpresionView>, n: int) -> Result<
    Seq<DataTypeView>,
    TypeErr,
>
    decreases items, n,
{
    if n <= 0 || n > items.len() {
        Ok(Seq::empty())
    } else {
        match inferred_all(items, n - 1) {
            Ok(types) => match inferred(items[n - 1]) {
                Ok(t) => Ok(types.push(t)),
                Err(e) => Err(e),
            },
            Err(e) => Err(e),
        }
    }
}

/// The one type of the first `n` elements of an array literal, if `n` is not 0, or
/// the first error that inferring and comparing them in order meets.
pub open spec fn inferred_element(items: Seq<ExpresionView>, n: int) -> Result<
    Option<DataTypeView>,
    TypeErr,
>
    decreases items, n,
{
    if n <= 0 || n > items.len() {
        Ok(None)
    } else {
        match inferred_element(items, n - 1) {
            Ok(before) => match inferred(items[n - 1]) {
                Ok(t) => {
                    if before is Some && before != Some(t) {
                        Err(TypeErr::TypeMismatch)
                    } else {
                        Ok(Some(t))
                    }
                },
                Err(e) => Err(e),
            },
            Err(e) => Err(e),
        }
    }
}

/// The type inferred of an expression made of literals, binary operations, array
/// literals and tuples.
pub open spec fn inferred(e: ExpresionView) -> Result<DataTypeView, TypeErr>
    decreases e, 0int,
{
    match e {
        ExpresionView::Binary(left, operator, right) => match inferred(*left) {
            Ok(l) => match inferred(*right) {
                Ok(r) => match operator {
                    TokenView::Operator(_) => arithmetic_type(l, r),
                    TokenView::LogicalOperator(text) => logical_type(text, l, r),
                    _ => Err(TypeErr::Unsupported),
                },
                Err(e) => Err(e),
            },
            Err(e) => Err(e),
        },
        ExpresionView::Literal(literal) => Ok(literal_kind(literal)),
        ExpresionView::Array(items) => match inferred_element(items, items.len() as int) {
            Ok(element) => match element {
                Some(t) => if items.len() <= i32::MAX {
                    Ok(DataTypeView::Array(Box::new(t), items.len() as int))
                } else {
                    Err(TypeErr::Unsupported)
                },
                None => Err(TypeErr::Unsupported),
            },
            Err(e) => Err(e),
        },
        ExpresionView::Tuple(items) => match inferred_all(items, items.len() as int) {
            Ok(types) => Ok(DataTypeView::Tuple(types)),
            Err(e) => Err(e),
        },
        _ => Err(TypeErr::Unsupported),
    }
}

/// What `infer_type` returns for an expression that means `e`.
pub open spec fn inferred_as(e: ExpresionView, got: Result<DataType, TypeErr>) -> bool {
    match inferred(e) {
        Ok(t) => got is Ok && got->Ok_0@ == t,
        Err(err) => got == Err::<DataType, TypeErr>(err),
    }
}

/// Type inference over expressions that need no symbol table: literals, binary
/// operations, array literals and tuples.
#[derive(Debug)]
pub struct Gramatic {
    pub table: SymbolTable,
    pub program: Vec<Statement>,
}

impl Gramatic {
    pub fn new(table: SymbolTable, program: Vec<Statement>) -> (r: Gramatic)
        ensures
            r.table == table,
            r.program == program,
    {
        Gramatic { table, program }
    }

    /// The type of an arithmetic operation.
    pub fn arithmetic(left: &DataType, right: &DataType) -> (r: Result<DataType, TypeErr>)
        ensures
            match arithmetic_type(left@, right@) {
                Ok(t) => r is Ok && r->Ok_0@ == t,
                Err(e) => r == Err::<DataType, TypeErr>(e),
            },
    {
        if matches!(left, DataType::Float) || matches!(right, DataType::Float) {
            Ok(DataType::Float)
        } else if matches!(left, DataType::Integer) && matches!(right, DataType::Integer) {
            Ok(DataType::Integer)
        } else {
            Err(TypeErr::TypeMismatch)
        }
    }

    /// The type of a logical operation.
    pub fn logical(text: &String, left: &DataType, right: &DataType) -> (r: Result<
        DataType,
        TypeErr,
    >)
        ensures
            match logical_type(text@, left@, right@) {
                Ok(t) => r is Ok && r->Ok_0@ == t,
                Err(e) => r == Err::<DataType, TypeErr>(e),
            },
    {
        if is_text(text, "&&") || is_text(text, "||") {
            if matches!(left, DataType::Boolean) && matches!(right, DataType::Boolean) {
                Ok(DataType::Boolean)
            } else {
                Err(TypeErr::TypeMismatch)
            }
        } else if left.same(right) {
            Ok(DataType::Boolean)
        } else {
            Err(TypeErr::TypeMismatch)
        }
    }

    /// The type of an expression, or why it has none.
    pub fn infer_type(&mut self, exp: &Expresion) -> (r: Result<DataType, TypeErr>)
        ensures
            inferred_as(exp@, r),
            final(self).table == old(self).table,
            final(self).program == old(self).program,
    {
        Gramatic::infer(exp)
    }

    /// The type of an expression, or why it has none.
    pub fn infer(exp: &Expresion) -> (r: Result<DataType, TypeErr>)
        ensures
            inferred_as(exp@, r),
        decreases exp,
    {
        match exp {
            Expresion::Binary(left, operator, right) => {
                let l = Gramatic::infer(left)?;
                let r = Gramatic::infer(right)?;
                match operator {
                    Token::Operator(_) => Gramatic::arithmetic(&l, &r),
                    Token::LogicalOperator(text) => Gramatic::logical(text, &l, &r),
                    _ => Err(TypeErr::Unsupported),
                }
            },
            Expresion::Literal(literal) => match literal {
                Literal::Number(Number::Integer(_)) => Ok(DataType::Integer),
                Literal::Number(Number::Float(_)) => Ok(DataType::Float),
                Literal::String(_) => Ok(DataType::String),
                Literal::Boolean(_) => Ok(DataType::Boolean),
            },
            Expresion::Array(items) => {
                let ghost views = expresion_views(items@);
                let mut element: Option<DataType> = None;
                let mut i: usize = 0;
                while i < items.len()
                    invariant
                        i <= items.len(),
                        views == expresion_views(items@),
                        exp == Expresion::Array(*items),
                        match inferred_element(views, i as int) {
                            Ok(t) => crate::table::optional_type_view(element) == t,
                            Err(e) => false,
                        },
                    decreases items.len() - i,
                {
                    proof {
                        assert(exp->Array_0 == *items);
                        assert(decreases_to!(exp => exp->Array_0));
                        assert(decreases_to!(exp->Array_0 => exp->Array_0[i as int]));
                        assert(views[i as int] == items@[i as int]@);
                    }
                    let t = match Gramatic::infer(&items[i]) {
                        Ok(t) => t,
                        Err(e) => {
                            proof {
                                lemma_element_error_stays(views, i as int + 1, views.len() as int);
                            }
                            return Err(e);
                        },
                    };
                    let differs = match &element {
                        Some(before) => !before.same(&t),
                        None => false,
                    };
                    if differs {
                        proof {
                            lemma_element_error_stays(views, i as int + 1, views.len() as int);
                        }
                        return Err(TypeErr::TypeMismatch);
                    }
                    element = Some(t);
                    i += 1;
                }
                match element {
                    Some(t) => {
                        if items.len() <= 2147483647 {
                            Ok(DataType::Array(Box::new(t), items.len() as i32))
                        } else {
                            Err(TypeErr::Unsupported)
                        }
                    },
                    None => Err(TypeErr::Unsupported),
                }
            },
            Expresion::Tuple(items) => {
                let ghost views = expresion_views(items@);
                let mut types: Vec<DataType> = Vec::new();
                let mut i: usize = 0;
                assert(type_views(types@) =~= Seq::<DataTypeView>::empty());
                while i < items.len()
                    invariant
                        i <= items.len(),
                        views == expresion_views(items@),
                        exp == Expresion::Tuple(*items),
                        inferred_all(views, i as int) == Ok::<Seq<DataTypeView>, TypeErr>(
                            type_views(types@),
                        ),
                    decreases items.len() - i,
                {
                    proof {
                        assert(exp->Tuple_0 == *items);
                        assert(decreases_to!(exp => exp->Tuple_0));
                        assert(decreases_to!(exp->Tuple_0 => exp->Tuple_0[i as int]));
                        assert(views[i as int] == items@[i as int]@);
                    }
                    let t = match Gramatic::infer(&items[i]) {
                        Ok(t) => t,
                        Err(e) => {
                            proof {
                                lemma_all_error_stays(views, i as int + 1, views.len() as int);
                            }
                            return Err(e);
                        },
                    };
                    let ghost before = type_views(types@);
                    types.push(t);
                    assert(type_views(types@) =~= before.push(t@));
                    i += 1;
                }
                let whole = DataType::Tuple(types);
                assert(whole@->Tuple_0 =~= type_views(types@));
                Ok(whole)
            },
            _ => Err(TypeErr::Unsupported),
        }
    }
}

/// An error met among the first `n` elements of an array literal is the error of any
/// longer run of its elements.
pub proof fn lemma_element_error_stays(items: Seq<ExpresionView>, n: int, m: int)
    requires
        0 <= n <= m <= items.len(),
        inferred_element(items, n) is Err,
    ensures
        inferred_element(items, m) == inferred_element(items, n),
    decreases m - n,
{
    if n < m {
        lemma_element_error_stays(items, n, m - 1);
    }
}

/// An error met among the first `n` items of a tuple is the error of any longer run
/// of its items.
pub proof fn lemma_all_error_stays(items: Seq<ExpresionView>, n: int, m: int)
    requires
        0 <= n <= m <= items.len(),
        inferred_all(items, n) is Err,
    ensures
        inferred_all(items, m) == inferred_all(items, n),
    decreases m - n,
{
    if n < m {
        lemma_all_error_stays(items, n, m - 1);
    }
}

/// An expression made of number literals and arithmetic operators alone.
pub open spec fn only_numbers(e: ExpresionView) -> bool
    decreases e,
{
    match e {
        ExpresionView::Literal(LiteralView::Number(_)) => true,
        ExpresionView::Binary(left, TokenView::Operator(_), right) => only_numbers(*left)
            && only_numbers(*right),
        _ => false,
    }
}

/// Whether a float literal stands anywhere in an expression of number literals and
/// arithmetic operators.
pub open spec fn any_float(e: ExpresionView) -> bool
    decreases e,
{
    match e {
        ExpresionView::Literal(LiteralView::Number(NumberView::Float(_))) => true,
        ExpresionView::Binary(left, _, right) => any_float(*left) || any_float(*right),
        _ => false,
    }
}

/// An arithmetic expression over integer literals alone is inferred to be an
/// `Integer`; with a float literal anywhere in it, it is inferred to be a `Float`.
pub proof fn numbers_infer_integer_unless_float(e: ExpresionView)
    requires
        only_numbers(e),
    ensures
        inferred(e) == Ok::<DataTypeView, TypeErr>(
            if any_float(e) {
                DataTypeView::Float
            } else {
                DataTypeView::Integer
            },
        ),
    decreases e,
{
    match e {
        ExpresionView::Binary(left, operator, right) => {
            numbers_infer_integer_unless_float(*left);
            numbers_infer_integer_unless_float(*right);
        },
        _ => {},
    }
}

} // verus!
