use crate::syntax::expr::Expr;
use crate::syntax::position::Position;
use crate::syntax::stmt::Stmt;
use vstd::prelude::*;

verus! {

/// The length of an expression: the length recorded at its node and the
/// lengths of its operands.
pub open spec fn expr_length(expr: Expr) -> int
    decreases expr,
{
    match expr {
        Expr::Binary(left, _, right, position) => position.length + expr_length(*left)
            + expr_length(*right),
        Expr::Grouping(inner, position) => position.length + expr_length(*inner),
        Expr::Unary(_, right, position) => position.length + expr_length(*right),
        Expr::Variable(_, position) => position.length as int,
        Expr::Literal(_, position) => position.length as int,
    }
}

/// No expression has a negative length.
pub proof fn lemma_expr_length_is_natural(expr: Expr)
    ensures
        expr_length(expr) >= 0,
    decreases expr,
{
    match expr {
        Expr::Binary(left, _, right, _) => {
            lemma_expr_length_is_natural(*left);
            lemma_expr_length_is_natural(*right);
        },
        Expr::Grouping(inner, _) => {
            lemma_expr_length_is_natural(*inner);
        },
        Expr::Unary(_, right, _) => {
            lemma_expr_length_is_natural(*right);
        },
        _ => {},
    }
}

/// The offset recorded at the node of an expression.
pub open spec fn expr_offset(expr: Expr) -> usize {
    match expr {
        Expr::Binary(_, _, _, position) => position.offset,
        Expr::Grouping(_, position) => position.offset,
        Expr::Unary(_, _, position) => position.offset,
        Expr::Variable(_, position) => position.offset,
        Expr::Literal(_, position) => position.offset,
    }
}

/// The length of a statement: the length recorded for it and the length of
/// its expression, if it has one.
pub open spec fn stmt_length(stmt: Stmt) -> int {
    match stmt {
        Stmt::Expr(expr, position) => position.length + expr_length(*expr),
        Stmt::Print(expr, position) => position.length + expr_length(*expr),
        Stmt::Var(_, Some(expr), position) => position.length + expr_length(*expr),
        Stmt::Var(_, None, position) => position.length as int,
    }
}

/// Computes the position of a whole statement or expression from the
/// positions recorded at its nodes.
pub struct AstPosition;

impl AstPosition {
    pub fn new() -> AstPosition {
        AstPosition {  }
    }

    /// The position of `s`: it keeps the offset recorded for the statement
    /// and is as long as the statement with its expression.
    pub fn get_stmt_position(&self, s: &Stmt) -> (position: Position)
        requires
            stmt_length(*s) <= usize::MAX,
        ensures
            position.length == stmt_length(*s),
            position.offset == s.place().offset,
    {
        self.visit_stmt(s)
    }

    /// The position of `e`: it keeps the offset recorded at the node and
    /// is as long as the node with its operands.
    pub fn get_expr_position(&self, e: &Expr) -> (position: Position)
        requires
            expr_length(*e) <= usize::MAX,
        ensures
            position.length == expr_length(*e),
            position.offset == expr_offset(*e),
    {
        self.visit_expr(e)
    }

    pub fn visit_stmt(&self, s: &Stmt) -> (position: Position)
        requires
            stmt_length(*s) <= usize::MAX,
        ensures
            position.length == stmt_length(*s),
            position.offset == s.place().offset,
    {
        match s {
            Stmt::Expr(expression, position) => {
                Position::new(
                    position.length + self.visit_expr(expression).length,
                    position.offset,
                )
            },
            Stmt::Print(expression, position) => {
                Position::new(
                    position.length + self.visit_expr(expression).length,
                    position.offset,
                )
            },
            Stmt::Var(_name, initializer, position) => {
                match initializer {
                    Some(expr) => Position::new(
                        position.length + self.visit_expr(expr).length,
                        position.offset,
                    ),
                    None => *position,
                }
            },
        }
    }

    pub fn visit_expr(&self, e: &Expr) -> (position: Position)
        requires
            expr_length(*e) <= usize::MAX,
        ensures
            position.length == expr_length(*e),
            position.offset == expr_offset(*e),
        decreases e,
    {
        match e {
            Expr::Binary(left, _, right, position) => {
                proof {
                    lemma_expr_length_is_natural(**left);
                    lemma_expr_length_is_natural(**right);
                }
                Position::new(
                    position.length + self.visit_expr(left).length + self.visit_expr(
                        right,
                    ).length,
                    position.offset,
                )
            },
            Expr::Grouping(expression, position) => {
                Position::new(
                    position.length + self.visit_expr(expression).length,
                    position.offset,
                )
            },
            Expr::Unary(_, right, position) => {
                Position::new(position.length + self.visit_expr(right).length, position.offset)
            },
            Expr::Variable(_, position) => *position,
            Expr::Literal(_, position) => *position,
        }
    }
}

} // verus!
