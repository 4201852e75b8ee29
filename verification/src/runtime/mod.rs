//! Values, the environment that binds names to them, and the interpreter.

pub mod environment;
pub mod interpreter;
pub mod lox_object;
pub mod numeric;
pub mod runtime_error;

pub use self::environment::Environment;
pub use self::interpreter::Interpreter;
pub use self::lox_object::{LoxObject, Value};
pub use self::numeric::Numeric;
pub use self::runtime_error::RuntimeError;
