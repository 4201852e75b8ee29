//! The error model shared by the scanner, the parser and the interpreter,
//! and the three passes put together.

pub mod lox;
pub mod lox_error;
pub mod lox_error_ty;
pub mod paint;

pub use self::lox::Lox;
pub use self::lox_error::{Excerpt, LoxError, Markers};
pub use self::lox_error_ty::LoxErrorTy;
pub use self::paint::Tint;
