use crate::syntax::ast_printer::{expr_text, stmt_text, write_expr, write_stmt};
use crate::syntax::expr::Expr;
use crate::syntax::stmt::Stmt;
use vstd::prelude::*;

verus! {

/// Writes syntax trees in prefix notation, with string literals as they
/// are.
pub struct Printer;

impl Printer {
    pub fn new() -> Printer {
        Printer {  }
    }

    /// The line that shows `s`.
    pub fn print(&self, s: &Stmt) -> (line: String)
        ensures
            line@ == stmt_text(*s, false),
    {
        self.visit_stmt(s)
    }

    pub fn visit_stmt(&self, s: &Stmt) -> (text: String)
        ensures
            text@ == stmt_text(*s, false),
    {
        write_stmt(s, false)
    }

    pub fn visit_expr(&self, e: &Expr) -> (text: String)
        ensures
            text@ == expr_text(*e, false),
    {
        write_expr(e, false)
    }
}

} // verus!
