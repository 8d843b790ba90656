use vstd::prelude::*;

use crate::token::{BinaryToken, UnaryToken};

verus! {

/// A literal embedded in the syntax tree. `S` is the representation of
/// string content: executable code uses `Literal<Vec<u8>>`, specifications
/// `Literal<Seq<u8>>`. Numbers are IEEE-754 binary64 bit patterns.
#[derive(Debug, PartialEq)]
pub enum Literal<S> {
    Nil,
    Boolean(bool),
    Number(u64),
    String(S),
}

/// One expression: a recursive, exclusively-owned tree with four shapes.
/// A binary or unary node can only hold an operator legal at its position,
/// so an invalid operator/position combination is unrepresentable.
#[derive(Debug, PartialEq)]
pub enum Expr<S> {
    Binary(Box<Expr<S>>, BinaryToken, Box<Expr<S>>),
    Grouping(Box<Expr<S>>),
    Literal(Literal<S>),
    Unary(UnaryToken, Box<Expr<S>>),
}

/// The specification-level form of a literal.
pub open spec fn lit_model(l: Literal<Vec<u8>>) -> Literal<Seq<u8>> {
    match l {
        Literal::Nil => Literal::Nil,
        Literal::Boolean(b) => Literal::Boolean(b),
        Literal::Number(bits) => Literal::Number(bits),
        Literal::String(s) => Literal::String(s@),
    }
}

/// The specification-level form of an expression tree.
pub open spec fn expr_model(e: Expr<Vec<u8>>) -> Expr<Seq<u8>>
    decreases e,
{
    match e {
        Expr::Binary(left, op, right) => Expr::Binary(
            Box::new(expr_model(*left)),
            op,
            Box::new(expr_model(*right)),
        ),
        Expr::Grouping(inner) => Expr::Grouping(Box::new(expr_model(*inner))),
        Expr::Literal(l) => Expr::Literal(lit_model(l)),
        Expr::Unary(op, operand) => Expr::Unary(op, Box::new(expr_model(*operand))),
    }
}

} // verus!
