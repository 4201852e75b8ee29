use rlox::lox::{LoxError, LoxErrorTy};
use rlox::runtime::RuntimeError;
use rlox::syntax::Position;

#[test]
fn an_error_is_shown_without_colours_where_painting_is_off() {
    yansi::Paint::disable();
    let error = LoxError::new(
        LoxErrorTy::Runtime,
        "Undefined variable `b`.",
        "var a = 1;\nprint b;\n",
        &None,
        Position::new(1, 18),
    );
    assert_eq!(error.to_string(), error.plain());
    assert_eq!(
        error.to_string(),
        "RuntimeError: Undefined variable `b`.\n--> 2:8\n  | var a = 1;\n2 | print b;\n-----------^"
    );
}

#[test]
fn a_runtime_error_is_shown_without_colours_where_painting_is_off() {
    yansi::Paint::disable();
    assert_eq!(RuntimeError::new("m").to_string(), "RuntimeError: m");
}
