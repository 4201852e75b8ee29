use crate::syntax::literal::Literal;
use crate::syntax::position::Position;
use crate::syntax::token::Token;
use vstd::prelude::*;

verus! {

/// An expression. Each node owns its operands and records the position of
/// the token that was read last when the node was made.
#[derive(Debug, PartialEq)]
pub enum Expr {
    Binary(Box<Expr>, Token, Box<Expr>, Position),
    Grouping(Box<Expr>, Position),
    Unary(Token, Box<Expr>, Position),
    Literal(Literal, Position),
    Variable(String, Position),
}

impl Expr {
    pub fn into_boxed(self) -> (boxed: Box<Expr>)
        ensures
            *boxed == self,
    {
        Box::new(self)
    }
}

} // verus!
