//! Tokens, positions, the scanner, the syntax tree and the parser.

pub mod ast_position;
pub mod ast_printer;
pub mod expr;
pub mod literal;
pub mod parser;
pub mod position;
pub mod printer;
pub mod scanner;
pub mod stmt;
pub mod syntax_error;
pub mod token;

pub use self::ast_position::AstPosition;
pub use self::ast_printer::AstPrinter;
pub use self::expr::Expr;
pub use self::literal::Literal;
pub use self::parser::Parser;
pub use self::position::Position;
pub use self::printer::Printer;
pub use self::scanner::Scanner;
pub use self::stmt::Stmt;
pub use self::syntax_error::SyntaxError;
pub use self::token::{Token, TokenTy, TokenType, TokenView};
