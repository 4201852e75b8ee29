use crate::syntax::expr::Expr;
use crate::syntax::position::Position;
use vstd::prelude::*;

verus! {

/// A statement: an expression evaluated for its own sake, an expression
/// whose value is printed, or the declaration of a variable with an
/// optional initializer.
#[derive(Debug, PartialEq)]
pub enum Stmt {
    Expr(Box<Expr>, Position),
    Print(Box<Expr>, Position),
    Var(String, Option<Box<Expr>>, Position),
}

impl Stmt {
    /// The position that the parser recorded for this statement.
    pub open spec fn place(self) -> Position {
        match self {
            Stmt::Expr(_, position) => position,
            Stmt::Print(_, position) => position,
            Stmt::Var(_, _, position) => position,
        }
    }

    pub fn position(&self) -> (position: Position)
        ensures
            position == self.place(),
    {
        match self {
            Stmt::Expr(_, position) => *position,
            Stmt::Print(_, position) => *position,
            Stmt::Var(_, _, position) => *position,
        }
    }
}

} // verus!
