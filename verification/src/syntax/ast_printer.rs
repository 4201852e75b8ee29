use crate::syntax::expr::Expr;
use crate::syntax::literal::Literal;
use crate::syntax::stmt::Stmt;
use crate::syntax::token::shown;
use crate::text::{debug_quoted, quoted};
use vstd::prelude::*;
use vstd::string::StringExecFns;

verus! {

/// An expression in prefix notation: an operator in parentheses with its
/// operands behind it, a grouping in parentheses, a number as it is
/// written, a variable by its name, and a string in quotes and escaped
/// where `quotes` is set, else as it is.
pub open spec fn expr_text(expr: Expr, quotes: bool) -> Seq<char>
    decreases expr,
{
    match expr {
        Expr::Binary(left, operator, right, _) => "("@ + shown(operator.ty) + " "@ + expr_text(
            *left,
            quotes,
        ) + " "@ + expr_text(*right, quotes) + ")"@,
        Expr::Grouping(inner, _) => "("@ + expr_text(*inner, quotes) + ")"@,
        Expr::Literal(literal, _) => match literal {
            Literal::Number(numeral) => numeral@,
            Literal::String(contents) => if quotes {
                debug_quoted(contents@)
            } else {
                contents@
            },
            Literal::Boolean(v) => if v {
                "true"@
            } else {
                "false"@
            },
            Literal::Nil => "nil"@,
        },
        Expr::Unary(operator, right, _) => "("@ + shown(operator.ty) + " "@ + expr_text(
            *right,
            quotes,
        ) + ")"@,
        Expr::Variable(name, _) => name@,
    }
}

/// A statement in prefix notation: an expression statement as its
/// expression, the others in parentheses behind `print` or `var`.
pub open spec fn stmt_text(stmt: Stmt, quotes: bool) -> Seq<char> {
    match stmt {
        Stmt::Expr(expr, _) => expr_text(*expr, quotes),
        Stmt::Print(expr, _) => "(print "@ + expr_text(*expr, quotes) + ")"@,
        Stmt::Var(name, Some(expr), _) => "(var "@ + name@ + " "@ + expr_text(*expr, quotes)
            + ")"@,
        Stmt::Var(name, None, _) => "(var "@ + name@ + ")"@,
    }
}

/// Writes a statement in prefix notation.
pub(crate) fn write_stmt(s: &Stmt, quotes: bool) -> (text: String)
    ensures
        text@ == stmt_text(*s, quotes),
{
    match s {
        Stmt::Expr(expression, _) => write_expr(expression, quotes),
        Stmt::Print(expression, _) => {
            let mut text = "(print ".to_owned();
            text.append(write_expr(expression, quotes).as_str());
            text.append(")");
            text
        },
        Stmt::Var(name, initializer, _) => match initializer {
            Some(expr) => {
                let mut text = "(var ".to_owned();
                text.append(name.as_str());
                text.append(" ");
                text.append(write_expr(expr, quotes).as_str());
                text.append(")");
                text
            },
            None => {
                let mut text = "(var ".to_owned();
                text.append(name.as_str());
                text.append(")");
                text
            },
        },
    }
}

/// Writes an expression in prefix notation.
pub(crate) fn write_expr(e: &Expr, quotes: bool) -> (text: String)
    ensures
        text@ == expr_text(*e, quotes),
    decreases e,
{
    match e {
        Expr::Binary(left, operator, right, _) => {
            let mut text = "(".to_owned();
            text.append(operator.to_string().as_str());
            text.append(" ");
            text.append(write_expr(left, quotes).as_str());
            text.append(" ");
            text.append(write_expr(right, quotes).as_str());
            text.append(")");
            text
        },
        Expr::Grouping(expression, _) => {
            let mut text = "(".to_owned();
            text.append(write_expr(expression, quotes).as_str());
            text.append(")");
            text
        },
        Expr::Literal(value, _) => match value {
            Literal::Number(v) => v.clone(),
            Literal::String(v) => if quotes {
                quoted(v.as_str())
            } else {
                v.clone()
            },
            Literal::Boolean(v) => if *v {
                "true".to_owned()
            } else {
                "false".to_owned()
            },
            Literal::Nil => "nil".to_owned(),
        },
        Expr::Unary(operator, right, _) => {
            let mut text = "(".to_owned();
            text.append(operator.to_string().as_str());
            text.append(" ");
            text.append(write_expr(right, quotes).as_str());
            text.append(")");
            text
        },
        Expr::Variable(name, _) => name.clone(),
    }
}

/// Writes syntax trees in prefix notation, with string literals in quotes.
pub struct AstPrinter;

impl AstPrinter {
    pub fn new() -> AstPrinter {
        AstPrinter {  }
    }

    /// The line that shows `s`.
    pub fn print_stmt(&self, s: &Stmt) -> (line: String)
        ensures
            line@ == stmt_text(*s, true),
    {
        self.visit_stmt(s)
    }

    /// The line that shows `e`.
    pub fn print_expr(&self, e: &Expr) -> (line: String)
        ensures
            line@ == expr_text(*e, true),
    {
        self.visit_expr(e)
    }

    pub fn visit_stmt(&self, s: &Stmt) -> (text: String)
        ensures
            text@ == stmt_text(*s, true),
    {
        write_stmt(s, true)
    }

    pub fn visit_expr(&self, e: &Expr) -> (text: String)
        ensures
            text@ == expr_text(*e, true),
    {
        write_expr(e, true)
    }
}

} // verus!
