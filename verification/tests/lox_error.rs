use rlox::lox::lox_error::{Excerpt, Markers};
use rlox::lox::{LoxError, LoxErrorTy};
use rlox::syntax::Position;
use rlox::text::{char_is_digit, chars_of, decimal_of, end_of_line, repeat, string_of};

const SOURCE: &str = "var a = 1;\nprint b;\n";

fn undefined() -> LoxError {
    LoxError::new(
        LoxErrorTy::Runtime,
        "Undefined variable `b`.",
        SOURCE,
        &None,
        Position::new(1, 18),
    )
}

#[test]
fn an_error_holds_what_it_was_made_of() {
    let error = undefined();
    assert_eq!(error.ty, LoxErrorTy::Runtime);
    assert_eq!(error.message, "Undefined variable `b`.");
    assert_eq!(error.source, SOURCE);
    assert_eq!(error.source_file, None);
    assert_eq!(error.position, Position::new(1, 18));
}

#[test]
fn the_kinds_have_their_headings() {
    assert_eq!(LoxErrorTy::Runtime.to_string(), "RuntimeError");
    assert_eq!(LoxErrorTy::Syntax.to_string(), "SyntaxError");
}

#[test]
fn the_excerpt_counts_lines_and_columns_from_one() {
    assert_eq!(
        undefined().excerpt(),
        Excerpt {
            line: 2,
            column: 8,
            previous_line: "var a = 1;".to_string(),
            current_line: "print b;".to_string(),
        }
    );
}

fn excerpt_at(source: &str, offset: usize) -> Excerpt {
    LoxError::new(LoxErrorTy::Syntax, "", source, &None, Position::new(1, offset)).excerpt()
}

#[test]
fn the_first_line_has_no_line_before_it() {
    assert_eq!(
        excerpt_at("print 1", 6),
        Excerpt {
            line: 1,
            column: 7,
            previous_line: String::new(),
            current_line: "print 1".to_string(),
        }
    );
    assert_eq!(
        excerpt_at("", 0),
        Excerpt { line: 1, column: 1, previous_line: String::new(), current_line: String::new() }
    );
}

#[test]
fn a_place_behind_a_line_feed_is_on_the_next_line() {
    assert_eq!(
        excerpt_at("a\n@\nb", 2),
        Excerpt {
            line: 2,
            column: 1,
            previous_line: "a".to_string(),
            current_line: "@".to_string(),
        }
    );
    assert_eq!(
        excerpt_at("a\n\n\nb", 3),
        Excerpt { line: 3, column: 1, previous_line: String::new(), current_line: String::new() }
    );
    assert_eq!(
        excerpt_at("a\nb\n", 4),
        Excerpt { line: 3, column: 1, previous_line: "b".to_string(), current_line: String::new() }
    );
}

#[test]
fn a_place_behind_the_source_is_looked_up_at_its_beginning() {
    assert_eq!(
        excerpt_at("one\ntwo", 8),
        Excerpt {
            line: 1,
            column: 1,
            previous_line: String::new(),
            current_line: "one".to_string(),
        }
    );
    assert_eq!(
        excerpt_at("one\ntwo", 7),
        Excerpt {
            line: 2,
            column: 4,
            previous_line: "one".to_string(),
            current_line: "two".to_string(),
        }
    );
}

#[test]
fn the_markers_are_as_wide_as_the_line_number() {
    assert_eq!(
        undefined().excerpt().markers(LoxErrorTy::Runtime),
        Markers {
            heading: "RuntimeError".to_string(),
            file: "--> ".to_string(),
            previous: "  | ".to_string(),
            current: "2 | ".to_string(),
            pointer: "-----------^".to_string(),
        }
    );
    let far = Excerpt {
        line: 120,
        column: 1,
        previous_line: String::new(),
        current_line: String::new(),
    };
    assert_eq!(
        far.markers(LoxErrorTy::Syntax),
        Markers {
            heading: "SyntaxError".to_string(),
            file: "----> ".to_string(),
            previous: "    | ".to_string(),
            current: "120 | ".to_string(),
            pointer: "------^".to_string(),
        }
    );
}

#[test]
fn an_error_is_shown_in_five_lines() {
    assert_eq!(
        undefined().plain(),
        "RuntimeError: Undefined variable `b`.\n\
         --> 2:8\n\
         \x20 | var a = 1;\n\
         2 | print b;\n\
         -----------^"
    );
}

#[test]
fn the_file_name_stands_before_line_and_column() {
    let error = LoxError::new(
        LoxErrorTy::Syntax,
        "Expected `;` after expression.",
        "print 1",
        &Some("main.lox".to_string()),
        Position::new(1, 6),
    );
    assert_eq!(
        error.plain(),
        "SyntaxError: Expected `;` after expression.\n\
         --> main.lox:1:7\n\
         \x20 | \n\
         1 | print 1\n\
         ----------^"
    );
}

#[test]
fn the_parts_are_put_together_as_they_are_given() {
    let error = undefined();
    let excerpt = Excerpt {
        line: 7,
        column: 3,
        previous_line: "before".to_string(),
        current_line: "here".to_string(),
    };
    let markers = Markers {
        heading: "H".to_string(),
        file: "F ".to_string(),
        previous: "P ".to_string(),
        current: "C ".to_string(),
        pointer: "^".to_string(),
    };
    assert_eq!(
        error.compose(&excerpt, &markers),
        "H: Undefined variable `b`.\nF 7:3\nP before\nC here\n^"
    );
}

#[test]
fn an_error_is_shown_in_colours() {
    assert_eq!(
        undefined().to_string(),
        "\x1B[31mRuntimeError\x1B[0m: Undefined variable `b`.\n\
         \x1B[34m--> \x1B[0m2:8\n\
         \x1B[34m  | \x1B[0mvar a = 1;\n\
         \x1B[34m2 | \x1B[0mprint b;\n\
         \x1B[31m-----------^\x1B[0m"
    );
}

#[test]
fn numbers_are_written_in_decimal() {
    assert_eq!(decimal_of(0), "0");
    assert_eq!(decimal_of(7), "7");
    assert_eq!(decimal_of(10), "10");
    assert_eq!(decimal_of(1234567890), "1234567890");
    assert_eq!(decimal_of(u128::MAX), u128::MAX.to_string());
}

#[test]
fn characters_are_repeated() {
    assert_eq!(repeat('-', 0), "");
    assert_eq!(repeat('-', 3), "---");
    assert_eq!(repeat(' ', 1), " ");
}

#[test]
fn texts_are_taken_apart_and_put_together() {
    let chars = chars_of("aé\nb");
    assert_eq!(chars, vec!['a', 'é', '\n', 'b']);
    assert_eq!(string_of(&chars, 0, 4), "aé\nb");
    assert_eq!(string_of(&chars, 1, 2), "é");
    assert_eq!(string_of(&chars, 2, 2), "");
    assert_eq!(end_of_line(&chars, 0), 2);
    assert_eq!(end_of_line(&chars, 2), 2);
    assert_eq!(end_of_line(&chars, 3), 4);
    assert_eq!(end_of_line(&chars, 4), 4);
}

#[test]
fn only_the_ten_digits_are_digits() {
    for c in '0'..='9' {
        assert!(char_is_digit(c));
        assert_eq!(char_is_digit(c), c.is_digit(10));
    }
    for c in ['a', '/', ':', ' ', '٣', 'Ⅷ'] {
        assert!(!char_is_digit(c));
        assert_eq!(char_is_digit(c), c.is_digit(10));
    }
}
