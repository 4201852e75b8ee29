use rlox::lox::LoxErrorTy;
use rlox::syntax::{Position, Scanner, Token, TokenTy, TokenType};

#[test]
fn it_scans_delimeters() {
    let mut scanner = Scanner::new("(){},.;");

    assert_eq!(scanner.scan_tokens(), Ok(vec![
        Token::new(TokenTy::LeftParen, Position::new(1, 0)),
        Token::new(TokenTy::RightParen, Position::new(1, 1)),
        Token::new(TokenTy::LeftBrace, Position::new(1,  2)),
        Token::new(TokenTy::RightBrace, Position::new(1, 3)),
        Token::new(TokenTy::Comma, Position::new(1, 4)),
        Token::new(TokenTy::Dot, Position::new(1, 5)),
        Token::new(TokenTy::Semicolon, Position::new(1, 6)),
        Token::new(TokenTy::Eof, Position::new(0, 7))
    ]));
}

#[test]
fn it_scans_arithmetic_operators() {
    let mut scanner = Scanner::new("+-*/");

    assert_eq!(scanner.scan_tokens(), Ok(vec![
        Token::new(TokenTy::Plus, Position::new(1, 0)),
        Token::new(TokenTy::Minus, Position::new(1, 1)),
        Token::new(TokenTy::Star, Position::new(1, 2)),
        Token::new(TokenTy::Slash, Position::new(1, 3)),
        Token::new(TokenTy::Eof, Position::new(0, 4))
    ]));
}

#[test]
fn it_scans_logical_operators() {
    let mut scanner = Scanner::new("! != = == > >= <=");

    assert_eq!(scanner.scan_tokens(), Ok(vec![
        Token::new(TokenTy::Bang, Position::new(1, 0)),
        Token::new(TokenTy::BangEqual, Position::new(2, 2)),
        Token::new(TokenTy::Equal, Position::new(1, 5)),
        Token::new(TokenTy::EqualEqual, Position::new(2, 7)),
        Token::new(TokenTy::Greater, Position::new(1, 10)),
        Token::new(TokenTy::GreaterEqual, Position::new(2, 12)),
        Token::new(TokenTy::LessEqual, Position::new(2, 15)),
        Token::new(TokenTy::Eof, Position::new(0, 17))
    ]));
}

#[test]
fn it_scans_booleans() {
    let mut scanner = Scanner::new("true false");

    assert_eq!(scanner.scan_tokens(), Ok(vec![
        Token::new(TokenTy::True, Position::new(4, 0)),
        Token::new(TokenTy::False, Position::new(5, 5)),
        Token::new(TokenTy::Eof, Position::new(0, 10))
    ]));
}

#[test]
fn it_scans_numbers() {
    let mut scanner = Scanner::new("1 2.0");
    let tokens = scanner.scan_tokens();

    assert_eq!(tokens, Ok(vec![
        Token::new(TokenTy::Number("1".to_string()), Position::new(1, 0)),
        Token::new(TokenTy::Number("2.0".to_string()), Position::new(3, 2)),
        Token::new(TokenTy::Eof, Position::new(0, 5))
    ]));

    let values: Vec<f64> = tokens
        .unwrap()
        .iter()
        .filter_map(|token| match &token.ty {
            TokenTy::Number(numeral) => numeral.parse::<f64>().ok(),
            _ => None,
        })
        .collect();
    assert_eq!(values, vec![1.0, 2.0]);
}

#[test]
fn it_scans_strings() {
    let mut scanner = Scanner::new("\"string\"");

    assert_eq!(scanner.scan_tokens(), Ok(vec![
        Token::new(TokenTy::String("string".to_string()), Position::new(8, 0)),
        Token::new(TokenTy::Eof, Position::new(0, 8))
    ]));
}

#[test]
fn it_scans_comments() {
    let source = "
            // single-line comment
            /*
             * multi-line comment
             * */
        ";
    let mut scanner = Scanner::new(source);

    assert_eq!(scanner.scan_tokens(), Ok(vec![
        Token::new(TokenTy::Eof, Position::new(0, source.len()))
    ]));
}

#[test]
fn it_scans_identifiers() {
    let mut scanner = Scanner::new("a a0 a_0");

    assert_eq!(scanner.scan_tokens(), Ok(vec![
        Token::new(TokenTy::Identifier("a".to_string()), Position::new(1, 0)),
        Token::new(TokenTy::Identifier("a0".to_string()), Position::new(2, 2)),
        Token::new(TokenTy::Identifier("a_0".to_string()), Position::new(3, 5)),
        Token::new(TokenTy::Eof, Position::new(0, 8))
    ]));
}

#[test]
fn it_scans_keywords() {
    let mut scanner = Scanner::new("
            and
            class
            else
            false
            for
            fun
            if
            nil
            or
            print
            return
            super
            this
            true
            var
            while
        ");

    assert_eq!(scanner.scan_tokens(), Ok(vec![
        Token::new(TokenTy::And, Position::new(3, 13)),
        Token::new(TokenTy::Class, Position::new(5, 29)),
        Token::new(TokenTy::Else, Position::new(4, 47)),
        Token::new(TokenTy::False, Position::new(5, 64)),
        Token::new(TokenTy::For, Position::new(3, 82)),
        Token::new(TokenTy::Fun, Position::new(3, 98)),
        Token::new(TokenTy::If, Position::new(2, 114)),
        Token::new(TokenTy::Nil, Position::new(3, 129)),
        Token::new(TokenTy::Or, Position::new(2, 145)),
        Token::new(TokenTy::Print, Position::new(5, 160)),
        Token::new(TokenTy::Return, Position::new(6, 178)),
        Token::new(TokenTy::Super, Position::new(5, 197)),
        Token::new(TokenTy::This, Position::new(4, 215)),
        Token::new(TokenTy::True, Position::new(4, 232)),
        Token::new(TokenTy::Var, Position::new(3, 249)),
        Token::new(TokenTy::While, Position::new(5, 265)),
        Token::new(TokenTy::Eof, Position::new(0, 279))
    ]));
}

fn scan(source: &str) -> Vec<Token> {
    Scanner::new(source).scan_tokens().expect("the source scans")
}

fn fault(source: &str) -> (String, Position) {
    let error = Scanner::new(source).scan_tokens().expect_err("the source does not scan");
    assert_eq!(error.ty, LoxErrorTy::Syntax);
    assert_eq!(error.source, source);
    assert_eq!(error.source_file, None);
    (error.message, error.position)
}

#[test]
fn scanning_twice_gives_the_same_tokens() {
    let source = "var answer = (40 + 2) / 1.5; // done\nprint \"it is\" + answer;";
    assert_eq!(scan(source), scan(source));

    let mut scanner = Scanner::new(source);
    let first = scanner.scan_tokens();
    let second = scanner.scan_tokens();
    assert_eq!(first, second);
    assert_eq!(first.unwrap(), scan(source));
}

#[test]
fn a_scan_ends_with_one_eof_behind_the_source() {
    for source in ["", " ", "1", "a + b", "// only a comment", "print \"x\";\n"] {
        let tokens = scan(source);
        let last = tokens.last().expect("at least one token");
        assert_eq!(last, &Token::new(TokenTy::Eof, Position::new(0, source.chars().count())));
        let eofs = tokens.iter().filter(|token| token.ty == TokenTy::Eof).count();
        assert_eq!(eofs, 1);
    }
}

#[test]
fn an_empty_source_is_one_eof() {
    assert_eq!(scan(""), vec![Token::new(TokenTy::Eof, Position::new(0, 0))]);
}

#[test]
fn an_unterminated_string_is_a_fault() {
    assert_eq!(
        fault("\"abc"),
        ("Unterminated string. Expected `\"`".to_string(), Position::new(1, 3))
    );
    assert_eq!(
        fault("print \"abc;\n1 + 2"),
        ("Unterminated string. Expected `\"`".to_string(), Position::new(1, 16))
    );
}

#[test]
fn an_unterminated_block_comment_is_a_fault() {
    assert_eq!(
        fault("1 /* never closed"),
        ("Unterminated multi-line comment. Expected `*/`".to_string(), Position::new(1, 16))
    );
    assert_eq!(
        fault("/*/"),
        ("Unterminated multi-line comment. Expected `*/`".to_string(), Position::new(1, 2))
    );
    assert_eq!(
        fault("/* *"),
        ("Unterminated multi-line comment. Expected `*/`".to_string(), Position::new(1, 3))
    );
}

#[test]
fn an_unexpected_character_is_a_fault() {
    assert_eq!(fault("1 + @"), ("Unexpected character `@`.".to_string(), Position::new(1, 4)));
    assert_eq!(fault("_a"), ("Unexpected character `_`.".to_string(), Position::new(1, 0)));
    assert_eq!(fault("a # b"), ("Unexpected character `#`.".to_string(), Position::new(1, 2)));
}

#[test]
fn a_line_comment_and_a_block_comment_leave_only_eof() {
    let source = "// a line comment\n/* a block\n comment */";
    assert_eq!(
        scan(source),
        vec![Token::new(TokenTy::Eof, Position::new(0, source.len()))]
    );
}

#[test]
fn block_comments_do_not_nest() {
    assert_eq!(
        scan("/* a /* b */ c"),
        vec![
            Token::new(TokenTy::Identifier("c".to_string()), Position::new(1, 13)),
            Token::new(TokenTy::Eof, Position::new(0, 14)),
        ]
    );
    assert_eq!(scan("/**/"), vec![Token::new(TokenTy::Eof, Position::new(0, 4))]);
}

#[test]
fn a_line_comment_ends_at_the_line_feed() {
    assert_eq!(
        scan("1 // one\n2"),
        vec![
            Token::new(TokenTy::Number("1".to_string()), Position::new(1, 0)),
            Token::new(TokenTy::Number("2".to_string()), Position::new(1, 9)),
            Token::new(TokenTy::Eof, Position::new(0, 10)),
        ]
    );
}

#[test]
fn a_trailing_dot_is_not_part_of_a_number() {
    assert_eq!(
        scan("12."),
        vec![
            Token::new(TokenTy::Number("12".to_string()), Position::new(2, 0)),
            Token::new(TokenTy::Dot, Position::new(1, 2)),
            Token::new(TokenTy::Eof, Position::new(0, 3)),
        ]
    );
    assert_eq!(
        scan("1.5.2"),
        vec![
            Token::new(TokenTy::Number("1.5".to_string()), Position::new(3, 0)),
            Token::new(TokenTy::Dot, Position::new(1, 3)),
            Token::new(TokenTy::Number("2".to_string()), Position::new(1, 4)),
            Token::new(TokenTy::Eof, Position::new(0, 5)),
        ]
    );
}

#[test]
fn operators_take_the_longest_match() {
    assert_eq!(
        scan("<==!=!"),
        vec![
            Token::new(TokenTy::LessEqual, Position::new(2, 0)),
            Token::new(TokenTy::Equal, Position::new(1, 2)),
            Token::new(TokenTy::BangEqual, Position::new(2, 3)),
            Token::new(TokenTy::Bang, Position::new(1, 5)),
            Token::new(TokenTy::Eof, Position::new(0, 6)),
        ]
    );
    assert_eq!(
        scan("< >"),
        vec![
            Token::new(TokenTy::Less, Position::new(1, 0)),
            Token::new(TokenTy::Greater, Position::new(1, 2)),
            Token::new(TokenTy::Eof, Position::new(0, 3)),
        ]
    );
}

#[test]
fn a_string_may_span_lines_and_is_not_unescaped() {
    assert_eq!(
        scan("\"a\nb\\n\""),
        vec![
            Token::new(TokenTy::String("a\nb\\n".to_string()), Position::new(7, 0)),
            Token::new(TokenTy::Eof, Position::new(0, 7)),
        ]
    );
    assert_eq!(
        scan("\"\""),
        vec![
            Token::new(TokenTy::String(String::new()), Position::new(2, 0)),
            Token::new(TokenTy::Eof, Position::new(0, 2)),
        ]
    );
}

#[test]
fn a_word_that_only_begins_like_a_keyword_is_an_identifier() {
    assert_eq!(
        scan("variable nil_ or"),
        vec![
            Token::new(TokenTy::Identifier("variable".to_string()), Position::new(8, 0)),
            Token::new(TokenTy::Identifier("nil_".to_string()), Position::new(4, 9)),
            Token::new(TokenTy::Or, Position::new(2, 14)),
            Token::new(TokenTy::Eof, Position::new(0, 16)),
        ]
    );
}

#[test]
fn offsets_count_characters() {
    assert_eq!(
        scan("é + \"ü\""),
        vec![
            Token::new(TokenTy::Identifier("é".to_string()), Position::new(1, 0)),
            Token::new(TokenTy::Plus, Position::new(1, 2)),
            Token::new(TokenTy::String("ü".to_string()), Position::new(3, 4)),
            Token::new(TokenTy::Eof, Position::new(0, 7)),
        ]
    );
}

#[test]
fn a_token_shows_as_its_symbol_or_its_name() {
    let shown: Vec<String> = scan("- + ( ) * / != a \"s\" 1.5 nil").iter().map(Token::to_string).collect();
    assert_eq!(
        shown,
        vec![
            "-", "+", "(", ")", "*", "Slash", "BangEqual", "Identifier(\"a\")", "String(\"s\")",
            "Number(1.5)", "Nil", "Eof",
        ]
    );
}

#[test]
fn a_token_knows_its_kind() {
    let kinds: Vec<TokenType> = scan("a = \"s\" + 1;").iter().map(|token| token.ty.token_type()).collect();
    assert_eq!(
        kinds,
        vec![
            TokenType::Identifier,
            TokenType::Equal,
            TokenType::String,
            TokenType::Plus,
            TokenType::Number,
            TokenType::Semicolon,
            TokenType::Eof,
        ]
    );
}
