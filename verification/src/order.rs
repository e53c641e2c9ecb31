use vstd::prelude::*;
use crate::lexer::{Number, NumberView};

verus! {

/// How one value stands to another.
#[derive(Debug, Clone, Copy, PartialEq, Eq, Structural)]
pub enum Order {
    Less,
    Equal,
    Greater,
}

/// How one number stands to another, as far as integers decide it: integers by
/// their values, and any integer before any float. Two floats stand as their values
/// do, which their texts alone do not tell.
pub open spec fn number_order(a: NumberView, b: NumberView) -> Option<Order> {
    match (a, b) {
        (NumberView::Integer(x), NumberView::Integer(y)) => Some(
            if x < y {
                Order::Less
            } else if x == y {
                Order::Equal
            } else {
                Order::Greater
            },
        ),
        (NumberView::Float(_), NumberView::Integer(_)) => Some(Order::Greater),
        (NumberView::Integer(_), NumberView::Float(_)) => Some(Order::Less),
        (NumberView::Float(_), NumberView::Float(_)) => None,
    }
}

impl Number {
    /// How this number stands to `other`; `None` for two floats.
    pub fn order(&self, other: &Number) -> (r: Option<Order>)
        ensures
            r == number_order(self@, other@),
    {
        match self {
            Number::Integer(x) => match other {
                Number::Integer(y) => Some(
                    if *x < *y {
                        Order::Less
                    } else if *x == *y {
                        Order::Equal
                    } else {
                        Order::Greater
                    },
                ),
                Number::Float(_) => Some(Order::Less),
            },
            Number::Float(_) => match other {
                Number::Integer(_) => Some(Order::Greater),
                Number::Float(_) => None,
            },
        }
    }
}

/// Floats sort after integers: a float never stands before an integer.
pub proof fn floats_sort_after_integers(a: NumberView, b: NumberView)
    requires
        a is Integer,
        b is Float,
    ensures
        number_order(a, b) == Some(Order::Less),
        number_order(b, a) == Some(Order::Greater),
{
}

} // verus!
