use rlox::lox::{LoxError, LoxErrorTy};
use rlox::syntax::{
    AstPosition, AstPrinter, Expr, Literal, Parser, Position, Printer, Scanner, Stmt, SyntaxError,
    Token, TokenTy,
};

fn parse_ok(source: &str) {
    let mut parser = Parser::new(Scanner::new(source).scan_tokens().expect(""), source);
    parser.parse().expect("");
}

#[test]
fn it_parses_empty_grouping() {
    parse_ok("();");
}

fn parse(source: &str) -> Result<Vec<Box<Stmt>>, LoxError> {
    let tokens = Scanner::new(source).scan_tokens().expect("the source scans");
    Parser::new(tokens, source).parse()
}

/// The statements of `source` in prefix notation.
fn shape(source: &str) -> Vec<String> {
    let printer = AstPrinter::new();
    parse(source)
        .expect("the source parses")
        .iter()
        .map(|statement| printer.print_stmt(statement))
        .collect()
}

fn fault(source: &str) -> (String, Position) {
    let error = parse(source).expect_err("the source does not parse");
    assert_eq!(error.ty, LoxErrorTy::Syntax);
    assert_eq!(error.source, source);
    assert_eq!(error.source_file, None);
    (error.message, error.position)
}

#[test]
fn an_empty_grouping_holds_nil() {
    assert_eq!(
        parse("();"),
        Ok(vec![Box::new(Stmt::Expr(
            Box::new(Expr::Grouping(
                Box::new(Expr::Literal(Literal::Nil, Position::new(1, 0))),
                Position::new(1, 1)
            )),
            Position::new(1, 2)
        ))])
    );
}

#[test]
fn an_expression_may_be_empty() {
    assert_eq!(shape(";"), vec!["nil"]);
    assert_eq!(shape("print;"), vec!["(print nil)"]);
    assert_eq!(shape("1 + ;"), vec!["(+ 1 nil)"]);
    assert_eq!(shape("-;"), vec!["(- nil)"]);
}

#[test]
fn an_empty_program_has_no_statements() {
    assert_eq!(parse(""), Ok(vec![]));
    assert_eq!(parse("  // nothing\n"), Ok(vec![]));
    assert_eq!(Parser::new(vec![], "").parse(), Ok(vec![]));
}

#[test]
fn tighter_operators_are_nested_deeper() {
    assert_eq!(shape("print 1 + 2 * 3;"), vec!["(print (+ 1 (* 2 3)))"]);
    assert_eq!(shape("1 * 2 + 3;"), vec!["(+ (* 1 2) 3)"]);
    assert_eq!(
        shape("1 + 2 == 3 < 4;"),
        vec!["(EqualEqual (+ 1 2) (Less 3 4))"]
    );
    assert_eq!(
        shape("!a != -b / c;"),
        vec!["(BangEqual (Bang a) (Slash (- b) c))"]
    );
    assert_eq!(
        shape("a >= b > c <= d;"),
        vec!["(LessEqual (Greater (GreaterEqual a b) c) d)"]
    );
}

#[test]
fn binary_operators_fold_from_the_left() {
    assert_eq!(shape("1 - 2 - 3;"), vec!["(- (- 1 2) 3)"]);
    assert_eq!(shape("1 / 2 * 3 / 4;"), vec!["(Slash (* (Slash 1 2) 3) 4)"]);
    assert_eq!(shape("a == b != c;"), vec!["(BangEqual (EqualEqual a b) c)"]);
}

#[test]
fn unary_operators_nest_to_the_right() {
    assert_eq!(shape("!!true;"), vec!["(Bang (Bang true))"]);
    assert_eq!(shape("-!-1;"), vec!["(- (Bang (- 1)))"]);
}

#[test]
fn grouping_is_kept_in_the_tree() {
    assert_eq!(shape("print (1 + 2) * 3;"), vec!["(print (* ((+ 1 2)) 3))"]);
    assert_eq!(shape("((a));"), vec!["((a))"]);
}

#[test]
fn literals_and_variables() {
    assert_eq!(
        shape("1.50; \"a \\ b\"; true; false; nil; name;"),
        vec!["1.50", "\"a \\\\ b\"", "true", "false", "nil", "name"]
    );
}

#[test]
fn declarations_and_statements() {
    assert_eq!(
        shape("var a; var b = a + 1; print b; b;"),
        vec!["(var a)", "(var b (+ a 1))", "(print b)", "b"]
    );
}

#[test]
fn nodes_record_the_token_read_last() {
    assert_eq!(
        parse("var a = -b;"),
        Ok(vec![Box::new(Stmt::Var(
            "a".to_string(),
            Some(Box::new(Expr::Unary(
                Token::new(TokenTy::Minus, Position::new(1, 8)),
                Box::new(Expr::Variable("b".to_string(), Position::new(1, 9))),
                Position::new(1, 9)
            ))),
            Position::new(1, 10)
        ))])
    );
    assert_eq!(
        parse("print 1 + 20;"),
        Ok(vec![Box::new(Stmt::Print(
            Box::new(Expr::Binary(
                Box::new(Expr::Literal(Literal::Number("1".to_string()), Position::new(1, 6))),
                Token::new(TokenTy::Plus, Position::new(1, 8)),
                Box::new(Expr::Literal(Literal::Number("20".to_string()), Position::new(2, 10))),
                Position::new(2, 10)
            )),
            Position::new(1, 12)
        ))])
    );
}

#[test]
fn a_missing_semicolon_is_a_fault() {
    assert_eq!(
        fault("print 1"),
        ("Expected `;` after expression.".to_string(), Position::new(1, 6))
    );
    assert_eq!(
        fault("1 + 2\nprint 3;"),
        ("Expected `;` after expression.".to_string(), Position::new(1, 4))
    );
    assert_eq!(
        fault("var a = 1"),
        ("Expected `;` after variable declaration.".to_string(), Position::new(1, 8))
    );
    assert_eq!(
        fault("var a 1;"),
        ("Expected `;` after variable declaration.".to_string(), Position::new(1, 4))
    );
}

#[test]
fn a_missing_parenthesis_is_a_fault() {
    assert_eq!(
        fault("(1 + 2;"),
        ("Expected `)` after expression.".to_string(), Position::new(1, 5))
    );
    assert_eq!(
        fault("print (;"),
        ("Expected `)` after expression.".to_string(), Position::new(1, 6))
    );
}

#[test]
fn a_missing_variable_name_is_a_fault() {
    assert_eq!(
        fault("var 1;"),
        ("Expected variable name.".to_string(), Position::new(3, 0))
    );
    assert_eq!(
        fault("var;"),
        ("Expected variable name.".to_string(), Position::new(3, 0))
    );
    assert_eq!(
        fault("var"),
        ("Expected variable name.".to_string(), Position::new(3, 0))
    );
}

#[test]
fn a_stray_token_is_a_fault() {
    assert_eq!(
        fault(")"),
        ("Expected `;` after expression.".to_string(), Position::new(1, 0))
    );
    assert_eq!(
        fault("1 2;"),
        ("Expected `;` after expression.".to_string(), Position::new(1, 0))
    );
    assert_eq!(
        fault("print 1; else"),
        ("Expected `;` after expression.".to_string(), Position::new(1, 7))
    );
}

#[test]
fn only_the_first_fault_is_reported() {
    assert_eq!(
        fault("print (1;\nvar 2;"),
        ("Expected `)` after expression.".to_string(), Position::new(1, 7))
    );
}

#[test]
fn parsing_again_starts_from_the_first_token() {
    let source = "print 1; print 2;";
    let mut parser = Parser::new(Scanner::new(source).scan_tokens().unwrap(), source);
    let first = parser.parse();
    let second = parser.parse();
    assert_eq!(first, second);
    assert_eq!(first.unwrap().len(), 2);
}

#[test]
fn the_file_name_goes_into_the_error() {
    let source = "print 1";
    let mut parser = Parser::new(Scanner::new(source).scan_tokens().unwrap(), source);
    parser.source_file = Some("main.lox".to_string());
    assert_eq!(
        parser.parse(),
        Err(LoxError::new(
            LoxErrorTy::Syntax,
            "Expected `;` after expression.",
            source,
            &Some("main.lox".to_string()),
            Position::new(1, 6)
        ))
    );

    let mut scanner = Scanner::new("@");
    scanner.source_file = Some("main.lox".to_string());
    assert_eq!(
        scanner.scan_tokens(),
        Err(LoxError::new(
            LoxErrorTy::Syntax,
            "Unexpected character `@`.",
            "@",
            &Some("main.lox".to_string()),
            Position::new(1, 0)
        ))
    );
}

#[test]
fn tokens_behind_an_eof_are_not_read() {
    let tokens = vec![
        Token::new(TokenTy::Number("1".to_string()), Position::new(1, 0)),
        Token::new(TokenTy::Semicolon, Position::new(1, 1)),
        Token::new(TokenTy::Eof, Position::new(0, 2)),
        Token::new(TokenTy::Print, Position::new(5, 2)),
    ];
    assert_eq!(Parser::new(tokens, "1;").parse().map(|statements| statements.len()), Ok(1));

    let unfinished = vec![Token::new(TokenTy::Number("1".to_string()), Position::new(1, 0))];
    let error = Parser::new(unfinished, "1").parse().expect_err("no semicolon");
    assert_eq!(error.message, "Expected `;` after expression.");
    assert_eq!(error.position, Position::new(1, 0));
}

#[test]
fn a_syntax_error_holds_its_message() {
    assert_eq!(
        SyntaxError::new("Expected variable name.".to_string()).message,
        "Expected variable name."
    );
    assert_eq!(
        SyntaxError::new("Expected variable name.".to_string()).to_string(),
        "Expected variable name."
    );
}

#[test]
fn the_position_of_a_tree_adds_up_its_lengths() {
    let positions = AstPosition::new();
    let program = parse("1 + 20;\nvar a;\nprint (a);").unwrap();
    // the node of `1 + 20` records `20`, its operands `1` and `20`
    match &*program[0] {
        Stmt::Expr(expr, _) => {
            assert_eq!(positions.get_expr_position(expr), Position::new(5, 4));
        }
        _ => panic!("not an expression statement"),
    }
    assert_eq!(positions.get_stmt_position(&program[0]), Position::new(6, 6));
    assert_eq!(positions.get_stmt_position(&program[1]), Position::new(1, 13));
    assert_eq!(positions.get_stmt_position(&program[2]), Position::new(3, 24));
    assert_eq!(program[2].position(), Position::new(1, 24));
}

#[test]
fn expressions_are_printed_in_prefix_notation() {
    let printer = AstPrinter::new();
    let one = Position::new(1, 0);
    let sum = Expr::Binary(
        Box::new(Expr::Literal(Literal::Number("1".to_string()), one)),
        Token::new(TokenTy::Plus, one),
        Box::new(Expr::Unary(
            Token::new(TokenTy::Bang, one),
            Box::new(Expr::Literal(Literal::String("two".to_string()), one)),
            one,
        )),
        one,
    );
    assert_eq!(printer.print_expr(&sum), "(+ 1 (Bang \"two\"))");
    assert_eq!(printer.visit_expr(&sum), "(+ 1 (Bang \"two\"))");
    assert_eq!(
        printer.visit_stmt(&Stmt::Var("a".to_string(), Some(Box::new(sum)), one)),
        "(var a (+ 1 (Bang \"two\")))"
    );
}

#[test]
fn the_plain_printer_leaves_strings_as_they_are() {
    let printer = Printer::new();
    let program = parse("print \"a \\ b\" + 1; var s = \"t\";").unwrap();
    assert_eq!(printer.print(&program[0]), "(print (+ a \\ b 1))");
    assert_eq!(printer.visit_stmt(&program[1]), "(var s t)");
    assert_eq!(AstPrinter::new().print_stmt(&program[1]), "(var s \"t\")");
    match &*program[0] {
        Stmt::Print(expr, _) => assert_eq!(printer.visit_expr(expr), "(+ a \\ b 1)"),
        _ => panic!("not a print statement"),
    }
}

#[test]
fn an_expression_is_boxed() {
    let nil = Expr::Literal(Literal::Nil, Position::new(0, 0));
    assert_eq!(
        Expr::Literal(Literal::Nil, Position::new(0, 0)).into_boxed(),
        Box::new(nil)
    );
}
