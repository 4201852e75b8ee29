use crate::lox::lox_error::LoxError;
use crate::lox::lox_error_ty::LoxErrorTy;
use crate::syntax::expr::Expr;
use crate::syntax::literal::Literal;
use crate::syntax::position::Position;
use crate::syntax::stmt::Stmt;
use crate::syntax::syntax_error::SyntaxError;
use crate::syntax::token::{Token, TokenTy, TokenType};
use vstd::prelude::*;

verus! {

/// The four levels of binary operators, from the loosest to the tightest.
#[derive(Clone, Copy, Debug, PartialEq, Eq, Structural)]
pub enum Level {
    Equality,
    Comparison,
    Addition,
    Multiplication,
}

impl Level {
    /// Whether `kind` is an operator of this level.
    pub open spec fn has(self, kind: TokenType) -> bool {
        match self {
            Level::Equality => kind == TokenType::BangEqual || kind == TokenType::EqualEqual,
            Level::Comparison => kind == TokenType::Greater || kind == TokenType::GreaterEqual
                || kind == TokenType::Less || kind == TokenType::LessEqual,
            Level::Addition => kind == TokenType::Minus || kind == TokenType::Plus,
            Level::Multiplication => kind == TokenType::Slash || kind == TokenType::Star,
        }
    }

    /// The measure by which the grammar's rules call each other at one
    /// place of the input.
    pub open spec fn rank(self) -> nat {
        match self {
            Level::Equality => 9,
            Level::Comparison => 7,
            Level::Addition => 5,
            Level::Multiplication => 3,
        }
    }
}

/// What a rule of the grammar made of the tokens it began at: a value, and
/// how many tokens it read.
pub struct Parsed<T> {
    pub value: T,
    pub consumed: nat,
}

/// Where a rule of the grammar could not go on: what it expected, and the
/// index of the token it found instead.
pub struct SyntaxFault {
    pub message: Seq<char>,
    pub at: nat,
}

pub open spec fn expected_variable_name() -> Seq<char> {
    "Expected variable name."@
}

pub open spec fn expected_semicolon_after_declaration() -> Seq<char> {
    "Expected `;` after variable declaration."@
}

pub open spec fn expected_semicolon_after_expression() -> Seq<char> {
    "Expected `;` after expression."@
}

pub open spec fn expected_closing_paren() -> Seq<char> {
    "Expected `)` after expression."@
}

/// The token at index `at`; behind the last token stands an empty `Eof`.
pub open spec fn peek(tokens: Seq<Token>, at: nat) -> Token {
    if at < tokens.len() {
        tokens[at as int]
    } else {
        Token { ty: TokenTy::Eof, position: Position { length: 0, offset: at as usize } }
    }
}

/// The kind of the token at index `at`.
pub open spec fn kind_at(tokens: Seq<Token>, at: nat) -> TokenType {
    peek(tokens, at).ty.kind()
}

/// The token read last when the parser stands at index `at`.
pub open spec fn previous(tokens: Seq<Token>, at: nat) -> Token {
    if at == 0 {
        peek(tokens, 0)
    } else {
        peek(tokens, (at - 1) as nat)
    }
}

/// How many tokens stand at or behind index `at`.
pub open spec fn remaining(tokens: Seq<Token>, at: nat) -> nat {
    if at <= tokens.len() {
        (tokens.len() - at) as nat
    } else {
        0
    }
}

/// `step`, begun `by` tokens earlier.
pub open spec fn carry<T>(step: Result<Parsed<T>, SyntaxFault>, by: nat) -> Result<
    Parsed<T>,
    SyntaxFault,
> {
    match step {
        Ok(parsed) => Ok(Parsed { value: parsed.value, consumed: parsed.consumed + by }),
        Err(fault) => Err(fault),
    }
}

/// expression := equality
pub open spec fn expression(tokens: Seq<Token>, at: nat) -> Result<Parsed<Box<Expr>>, SyntaxFault>
    decreases remaining(tokens, at), 10nat,
{
    binary(tokens, at, Level::Equality)
}

/// One operand of a binary operator of `level`: an expression of the next
/// tighter level.
pub open spec fn operand(tokens: Seq<Token>, at: nat, level: Level) -> Result<
    Parsed<Box<Expr>>,
    SyntaxFault,
>
    decreases remaining(tokens, at), (level.rank() - 1) as nat,
{
    match level {
        Level::Equality => binary(tokens, at, Level::Comparison),
        Level::Comparison => binary(tokens, at, Level::Addition),
        Level::Addition => binary(tokens, at, Level::Multiplication),
        Level::Multiplication => unary(tokens, at),
    }
}

/// equality := comparison (("!=" | "==") comparison)*, and the three
/// tighter levels alike: an operand, then operators of the level with one
/// more operand each, folded from the left.
pub open spec fn binary(tokens: Seq<Token>, at: nat, level: Level) -> Result<
    Parsed<Box<Expr>>,
    SyntaxFault,
>
    decreases remaining(tokens, at), level.rank(),
{
    match operand(tokens, at, level) {
        Ok(first) => carry(
            binary_rest(tokens, at + first.consumed, level, first.value),
            first.consumed,
        ),
        Err(fault) => Err(fault),
    }
}

/// What follows the operand `left`: nothing, or an operator of `level` and
/// another operand, which make the left operand of what follows them.
pub open spec fn binary_rest(tokens: Seq<Token>, at: nat, level: Level, left: Box<Expr>) -> Result<
    Parsed<Box<Expr>>,
    SyntaxFault,
>
    decreases remaining(tokens, at), (level.rank() - 2) as nat,
{
    if at < tokens.len() && level.has(kind_at(tokens, at)) {
        match operand(tokens, at + 1, level) {
            Ok(right) => {
                let end = at + 1 + right.consumed;
                let node = Box::new(
                    Expr::Binary(left, tokens[at as int], right.value, previous(tokens, end).position),
                );
                carry(binary_rest(tokens, end, level, node), 1 + right.consumed)
            },
            Err(fault) => Err(fault),
        }
    } else {
        Ok(Parsed { value: left, consumed: 0 })
    }
}

/// unary := ("!" | "-") unary | primary
pub open spec fn unary(tokens: Seq<Token>, at: nat) -> Result<Parsed<Box<Expr>>, SyntaxFault>
    decreases remaining(tokens, at), 1nat,
{
    if at < tokens.len() && (kind_at(tokens, at) == TokenType::Bang || kind_at(tokens, at)
        == TokenType::Minus) {
        match unary(tokens, at + 1) {
            Ok(right) => Ok(
                Parsed {
                    value: Box::new(
                        Expr::Unary(
                            tokens[at as int],
                            right.value,
                            previous(tokens, at + 1 + right.consumed).position,
                        ),
                    ),
                    consumed: 1 + right.consumed,
                },
            ),
            Err(fault) => Err(fault),
        }
    } else {
        primary(tokens, at)
    }
}

/// primary := NUMBER | STRING | "true" | "false" | "nil" | IDENTIFIER
///          | "(" expression ")"
///
/// Where none of these stands, nothing is read and the expression is the
/// literal `nil`: an expression may be empty.
pub open spec fn primary(tokens: Seq<Token>, at: nat) -> Result<Parsed<Box<Expr>>, SyntaxFault>
    decreases remaining(tokens, at), 0nat,
{
    let token = peek(tokens, at);
    match token.ty {
        TokenTy::False => Ok(
            Parsed {
                value: Box::new(Expr::Literal(Literal::Boolean(false), token.position)),
                consumed: 1,
            },
        ),
        TokenTy::True => Ok(
            Parsed {
                value: Box::new(Expr::Literal(Literal::Boolean(true), token.position)),
                consumed: 1,
            },
        ),
        TokenTy::Nil => Ok(
            Parsed { value: Box::new(Expr::Literal(Literal::Nil, token.position)), consumed: 1 },
        ),
        TokenTy::Number(numeral) => Ok(
            Parsed {
                value: Box::new(Expr::Literal(Literal::Number(numeral), token.position)),
                consumed: 1,
            },
        ),
        TokenTy::String(contents) => Ok(
            Parsed {
                value: Box::new(Expr::Literal(Literal::String(contents), token.position)),
                consumed: 1,
            },
        ),
        TokenTy::LeftParen => {
            if at < tokens.len() {
                match expression(tokens, at + 1) {
                    Ok(inner) => {
                        let close = at + 1 + inner.consumed;
                        if kind_at(tokens, close) == TokenType::RightParen {
                            Ok(
                                Parsed {
                                    value: Box::new(
                                        Expr::Grouping(inner.value, peek(tokens, close).position),
                                    ),
                                    consumed: inner.consumed + 2,
                                },
                            )
                        } else {
                            Err(SyntaxFault { message: expected_closing_paren(), at: close })
                        }
                    },
                    Err(fault) => Err(fault),
                }
            } else {
                Ok(
                    Parsed {
                        value: Box::new(
                            Expr::Literal(Literal::Nil, previous(tokens, at).position),
                        ),
                        consumed: 0,
                    },
                )
            }
        },
        TokenTy::Identifier(name) => Ok(
            Parsed { value: Box::new(Expr::Variable(name, token.position)), consumed: 1 },
        ),
        _ => Ok(
            Parsed {
                value: Box::new(Expr::Literal(Literal::Nil, previous(tokens, at).position)),
                consumed: 0,
            },
        ),
    }
}

/// An expression and the `;` behind it, made into a statement by `make`.
pub open spec fn terminated(
    tokens: Seq<Token>,
    at: nat,
    make: spec_fn(Box<Expr>, Position) -> Stmt,
) -> Result<Parsed<Box<Stmt>>, SyntaxFault> {
    match expression(tokens, at) {
        Ok(value) => {
            let semicolon = at + value.consumed;
            if kind_at(tokens, semicolon) == TokenType::Semicolon {
                Ok(
                    Parsed {
                        value: Box::new(make(value.value, peek(tokens, semicolon).position)),
                        consumed: value.consumed + 1,
                    },
                )
            } else {
                Err(SyntaxFault { message: expected_semicolon_after_expression(), at: semicolon })
            }
        },
        Err(fault) => Err(fault),
    }
}

/// What follows `print`: expression ";"
pub open spec fn print_statement(tokens: Seq<Token>, at: nat) -> Result<
    Parsed<Box<Stmt>>,
    SyntaxFault,
> {
    terminated(tokens, at, |value: Box<Expr>, position: Position| Stmt::Print(value, position))
}

/// expression ";"
pub open spec fn expression_statement(tokens: Seq<Token>, at: nat) -> Result<
    Parsed<Box<Stmt>>,
    SyntaxFault,
> {
    terminated(tokens, at, |value: Box<Expr>, position: Position| Stmt::Expr(value, position))
}

/// What may follow the name in a declaration: "=" expression
pub open spec fn initializer(tokens: Seq<Token>, at: nat) -> Result<
    Parsed<Option<Box<Expr>>>,
    SyntaxFault,
> {
    if kind_at(tokens, at) == TokenType::Equal {
        match expression(tokens, at + 1) {
            Ok(value) => Ok(Parsed { value: Some(value.value), consumed: value.consumed + 1 }),
            Err(fault) => Err(fault),
        }
    } else {
        Ok(Parsed { value: None, consumed: 0 })
    }
}

/// What follows `var`: IDENTIFIER ("=" expression)? ";"
pub open spec fn var_declaration(tokens: Seq<Token>, at: nat) -> Result<
    Parsed<Box<Stmt>>,
    SyntaxFault,
> {
    match peek(tokens, at).ty {
        TokenTy::Identifier(name) => match initializer(tokens, at + 1) {
            Ok(value) => {
                let semicolon = at + 1 + value.consumed;
                if kind_at(tokens, semicolon) == TokenType::Semicolon {
                    Ok(
                        Parsed {
                            value: Box::new(
                                Stmt::Var(name, value.value, peek(tokens, semicolon).position),
                            ),
                            consumed: value.consumed + 2,
                        },
                    )
                } else {
                    Err(
                        SyntaxFault {
                            message: expected_semicolon_after_declaration(),
                            at: semicolon,
                        },
                    )
                }
            },
            Err(fault) => Err(fault),
        },
        _ => Err(SyntaxFault { message: expected_variable_name(), at }),
    }
}

/// statement := "print" expression ";" | expression ";"
pub open spec fn statement(tokens: Seq<Token>, at: nat) -> Result<Parsed<Box<Stmt>>, SyntaxFault> {
    if kind_at(tokens, at) == TokenType::Print {
        carry(print_statement(tokens, at + 1), 1)
    } else {
        expression_statement(tokens, at)
    }
}

/// declaration := "var" IDENTIFIER ("=" expression)? ";" | statement
pub open spec fn declaration(tokens: Seq<Token>, at: nat) -> Result<Parsed<Box<Stmt>>, SyntaxFault> {
    if kind_at(tokens, at) == TokenType::Var {
        carry(var_declaration(tokens, at + 1), 1)
    } else {
        statement(tokens, at)
    }
}

/// `rest` with `statements` in front of what it holds.
pub open spec fn prepend(
    statements: Seq<Box<Stmt>>,
    rest: Result<Seq<Box<Stmt>>, SyntaxFault>,
) -> Result<Seq<Box<Stmt>>, SyntaxFault> {
    match rest {
        Ok(more) => Ok(statements + more),
        Err(fault) => Err(fault),
    }
}

/// program := declaration* EOF, read from index `at` on.
pub open spec fn program(tokens: Seq<Token>, at: nat) -> Result<Seq<Box<Stmt>>, SyntaxFault>
    decreases remaining(tokens, at),
{
    if kind_at(tokens, at) == TokenType::Eof {
        Ok(Seq::empty())
    } else {
        match declaration(tokens, at) {
            Ok(first) => prepend(seq![first.value], program(tokens, at + first.consumed)),
            Err(fault) => Err(fault),
        }
    }
}

/// `result` is what parsing `tokens`, scanned from `source`, which came from
/// `source_file`, must return: the statements of the program, or one error
/// with the message of the first fault, at the position of the token that
/// was read last before it.
pub open spec fn parsed(
    tokens: Seq<Token>,
    source: Seq<char>,
    source_file: Option<String>,
    result: Result<Vec<Box<Stmt>>, LoxError>,
) -> bool {
    match program(tokens, 0) {
        Ok(statements) => result is Ok && result->Ok_0@ == statements,
        Err(fault) => result is Err && result->Err_0.reports(
            LoxErrorTy::Syntax,
            fault.message,
            source,
            source_file,
            previous(tokens, fault.at).position,
        ),
    }
}

/// Operators of one level group from the left: where two of them follow
/// the operand `left`, each with an operand of its own behind it, and no
/// third one follows, the first joins `left` and its operand, and the
/// second joins what the first made and the last operand.
pub proof fn operators_group_from_the_left(
    tokens: Seq<Token>,
    at: nat,
    level: Level,
    left: Box<Expr>,
)
    requires
        at < tokens.len(),
        level.has(kind_at(tokens, at)),
        operand(tokens, at + 1, level) is Ok,
        ({
            let second = at + 1 + operand(tokens, at + 1, level)->Ok_0.consumed;
            &&& second < tokens.len()
            &&& level.has(kind_at(tokens, second))
            &&& operand(tokens, second + 1, level) is Ok
            &&& !level.has(
                kind_at(tokens, second + 1 + operand(tokens, second + 1, level)->Ok_0.consumed),
            )
        }),
    ensures
        ({
            let middle = operand(tokens, at + 1, level)->Ok_0;
            let second = at + 1 + middle.consumed;
            let right = operand(tokens, second + 1, level)->Ok_0;
            let end = second + 1 + right.consumed;
            binary_rest(tokens, at, level, left) == Ok::<Parsed<Box<Expr>>, SyntaxFault>(
                Parsed {
                    value: Box::new(
                        Expr::Binary(
                            Box::new(
                                Expr::Binary(
                                    left,
                                    tokens[at as int],
                                    middle.value,
                                    previous(tokens, second).position,
                                ),
                            ),
                            tokens[second as int],
                            right.value,
                            previous(tokens, end).position,
                        ),
                    ),
                    consumed: (end - at) as nat,
                },
            )
        }),
{
    reveal_with_fuel(binary_rest, 3);
}

/// A tighter operator is applied first: what stands on either side of an
/// operator is a whole expression of the next tighter level, and on either
/// side of `*` or `/` a whole unary expression.
pub proof fn tighter_operators_bind_first(tokens: Seq<Token>, at: nat)
    ensures
        operand(tokens, at, Level::Equality) == binary(tokens, at, Level::Comparison),
        operand(tokens, at, Level::Comparison) == binary(tokens, at, Level::Addition),
        operand(tokens, at, Level::Addition) == binary(tokens, at, Level::Multiplication),
        operand(tokens, at, Level::Multiplication) == unary(tokens, at),
{
}

/// Parses the tokens of one source text.
pub struct Parser {
    tokens: Vec<Token>,
    source: String,
    pub source_file: Option<String>,
    curr: usize,
}

impl Parser {
    /// The cursor stands at a token or right behind the last one.
    pub closed spec fn wf(&self) -> bool {
        self.curr <= self.tokens.len()
    }

    /// The tokens that this parser parses.
    pub closed spec fn input(&self) -> Seq<Token> {
        self.tokens@
    }

    /// The text that the tokens were scanned from.
    pub closed spec fn source_text(&self) -> Seq<char> {
        self.source@
    }

    /// The name of the file that the text came from, as `source_file` holds
    /// it.
    pub closed spec fn file(&self) -> Option<String> {
        self.source_file
    }

    /// `self` parses what `before` parsed.
    spec fn follows(&self, before: &Parser) -> bool {
        &&& self.tokens == before.tokens
        &&& self.source == before.source
        &&& self.source_file == before.source_file
    }

    /// `self` is `before` after a rule that ended as `step` says and
    /// returned `result`.
    spec fn advanced<T>(
        &self,
        before: &Parser,
        step: Result<Parsed<T>, SyntaxFault>,
        result: Result<T, SyntaxError>,
    ) -> bool {
        &&& self.wf()
        &&& self.follows(before)
        &&& match step {
            Ok(parsed) => result == Ok::<T, SyntaxError>(parsed.value) && self.curr == before.curr
                + parsed.consumed,
            Err(fault) => result is Err && result->Err_0.message@ == fault.message && self.curr
                == fault.at,
        }
    }

    pub fn new(tokens: Vec<Token>, source: &str) -> (parser: Parser)
        ensures
            parser.wf(),
            parser.input() == tokens@,
            parser.source_text() == source@,
            parser.file() is None,
    {
        Parser { tokens, source: source.to_owned(), source_file: None, curr: 0 }
    }

    /// Parses the tokens from the first one on, whatever was parsed before.
    pub fn parse(&mut self) -> (result: Result<Vec<Box<Stmt>>, LoxError>)
        ensures
            final(self).wf(),
            final(self).input() == old(self).input(),
            final(self).source_text() == old(self).source_text(),
            final(self).file() == old(self).file(),
            parsed(old(self).input(), old(self).source_text(), old(self).file(), result),
    {
        let mut statements: Vec<Box<Stmt>> = Vec::new();
        self.curr = 0;

        while !self.is_at_end()
            invariant
                self.wf(),
                self.follows(old(self)),
                program(self.tokens@, 0) == prepend(
                    statements@,
                    program(self.tokens@, self.curr as nat),
                ),
            decreases self.tokens.len() - self.curr,
        {
            let ghost before = statements@;
            let ghost at = self.curr as nat;
            match self.declaration() {
                Ok(statement) => {
                    statements.push(statement);
                    proof {
                        match program(self.tokens@, self.curr as nat) {
                            Ok(more) => {
                                assert(before + (seq![statement] + more) =~= before.push(statement)
                                    + more);
                            },
                            Err(_) => {},
                        }
                    }
                },
                Err(error) => {
                    let previous = self.previous();
                    return Err(
                        LoxError::new(
                            LoxErrorTy::Syntax,
                            error.message.as_str(),
                            self.source.as_str(),
                            &self.source_file,
                            previous.position,
                        ),
                    );
                },
            }
        }

        proof {
            assert(statements@ + Seq::<Box<Stmt>>::empty() =~= statements@);
        }
        Ok(statements)
    }

    fn declaration(&mut self) -> (result: Result<Box<Stmt>, SyntaxError>)
        requires
            old(self).wf(),
        ensures
            final(self).advanced(
                old(self),
                declaration(old(self).tokens@, old(self).curr as nat),
                result,
            ),
            result is Ok ==> final(self).curr > old(self).curr,
    {
        if self.match_1(TokenType::Var) {
            self.var_declaration()
        } else {
            self.statement()
        }
    }

    fn var_declaration(&mut self) -> (result: Result<Box<Stmt>, SyntaxError>)
        requires
            old(self).wf(),
        ensures
            final(self).advanced(
                old(self),
                var_declaration(old(self).tokens@, old(self).curr as nat),
                result,
            ),
    {
        let token = match self.consume(TokenType::Identifier, "Expected variable name.") {
            Ok(token) => token,
            Err(error) => {
                return Err(error);
            },
        };
        let value = match token.ty {
            TokenTy::Identifier(v) => v,
            _ => {
                return Err(SyntaxError::new("Expected variable name.".to_owned()));
            },
        };

        let mut initializer: Option<Box<Expr>> = None;

        if self.match_1(TokenType::Equal) {
            match self.expression() {
                Ok(expr) => {
                    initializer = Some(expr);
                },
                Err(error) => {
                    return Err(error);
                },
            }
        }
        match self.consume(TokenType::Semicolon, "Expected `;` after variable declaration.") {
            Ok(_) => {},
            Err(error) => {
                return Err(error);
            },
        }

        Ok(Box::new(Stmt::Var(value, initializer, self.position())))
    }

    fn statement(&mut self) -> (result: Result<Box<Stmt>, SyntaxError>)
        requires
            old(self).wf(),
        ensures
            final(self).advanced(
                old(self),
                statement(old(self).tokens@, old(self).curr as nat),
                result,
            ),
            result is Ok ==> final(self).curr > old(self).curr,
    {
        if self.match_1(TokenType::Print) {
            self.print_statement()
        } else {
            self.expression_statement()
        }
    }

    fn print_statement(&mut self) -> (result: Result<Box<Stmt>, SyntaxError>)
        requires
            old(self).wf(),
        ensures
            final(self).advanced(
                old(self),
                print_statement(old(self).tokens@, old(self).curr as nat),
                result,
            ),
    {
        let expr = match self.expression() {
            Ok(expr) => expr,
            Err(error) => {
                return Err(error);
            },
        };
        match self.consume(TokenType::Semicolon, "Expected `;` after expression.") {
            Ok(_) => {},
            Err(error) => {
                return Err(error);
            },
        }
        Ok(Box::new(Stmt::Print(expr, self.position())))
    }

    fn expression_statement(&mut self) -> (result: Result<Box<Stmt>, SyntaxError>)
        requires
            old(self).wf(),
        ensures
            final(self).advanced(
                old(self),
                expression_statement(old(self).tokens@, old(self).curr as nat),
                result,
            ),
    {
        let expr = match self.expression() {
            Ok(expr) => expr,
            Err(error) => {
                return Err(error);
            },
        };
        match self.consume(TokenType::Semicolon, "Expected `;` after expression.") {
            Ok(_) => {},
            Err(error) => {
                return Err(error);
            },
        }
        Ok(Box::new(Stmt::Expr(expr, self.position())))
    }

    fn expression(&mut self) -> (result: Result<Box<Expr>, SyntaxError>)
        requires
            old(self).wf(),
        ensures
            final(self).advanced(
                old(self),
                expression(old(self).tokens@, old(self).curr as nat),
                result,
            ),
        decreases remaining(old(self).tokens@, old(self).curr as nat), 10nat,
    {
        self.equality()
    }

    fn equality(&mut self) -> (result: Result<Box<Expr>, SyntaxError>)
        requires
            old(self).wf(),
        ensures
            final(self).advanced(
                old(self),
                binary(old(self).tokens@, old(self).curr as nat, Level::Equality),
                result,
            ),
        decreases remaining(old(self).tokens@, old(self).curr as nat), 9nat, 1nat,
    {
        self.binary(Level::Equality)
    }

    fn comparison(&mut self) -> (result: Result<Box<Expr>, SyntaxError>)
        requires
            old(self).wf(),
        ensures
            final(self).advanced(
                old(self),
                binary(old(self).tokens@, old(self).curr as nat, Level::Comparison),
                result,
            ),
        decreases remaining(old(self).tokens@, old(self).curr as nat), 7nat, 1nat,
    {
        self.binary(Level::Comparison)
    }

    fn addition(&mut self) -> (result: Result<Box<Expr>, SyntaxError>)
        requires
            old(self).wf(),
        ensures
            final(self).advanced(
                old(self),
                binary(old(self).tokens@, old(self).curr as nat, Level::Addition),
                result,
            ),
        decreases remaining(old(self).tokens@, old(self).curr as nat), 5nat, 1nat,
    {
        self.binary(Level::Addition)
    }

    fn multiplication(&mut self) -> (result: Result<Box<Expr>, SyntaxError>)
        requires
            old(self).wf(),
        ensures
            final(self).advanced(
                old(self),
                binary(old(self).tokens@, old(self).curr as nat, Level::Multiplication),
                result,
            ),
        decreases remaining(old(self).tokens@, old(self).curr as nat), 3nat, 1nat,
    {
        self.binary(Level::Multiplication)
    }

    /// One operand of an operator of `level`.
    fn operand(&mut self, level: Level) -> (result: Result<Box<Expr>, SyntaxError>)
        requires
            old(self).wf(),
        ensures
            final(self).advanced(
                old(self),
                operand(old(self).tokens@, old(self).curr as nat, level),
                result,
            ),
        decreases remaining(old(self).tokens@, old(self).curr as nat), (level.rank() - 1) as nat, 0nat,
    {
        match level {
            Level::Equality => self.comparison(),
            Level::Comparison => self.addition(),
            Level::Addition => self.multiplication(),
            Level::Multiplication => self.unary(),
        }
    }

    /// The operands and operators of one level, folded from the left.
    fn binary(&mut self, level: Level) -> (result: Result<Box<Expr>, SyntaxError>)
        requires
            old(self).wf(),
        ensures
            final(self).advanced(
                old(self),
                binary(old(self).tokens@, old(self).curr as nat, level),
                result,
            ),
        decreases remaining(old(self).tokens@, old(self).curr as nat), level.rank(), 0nat,
    {
        let mut expr = match self.operand(level) {
            Ok(expr) => expr,
            Err(error) => {
                return Err(error);
            },
        };
        let ghost start = self.curr as nat;
        let ghost goal = binary_rest(self.tokens@, start, level, expr);

        while self.check_level(level)
            invariant
                self.wf(),
                self.follows(old(self)),
                old(self).curr <= start <= self.curr,
                binary(old(self).tokens@, old(self).curr as nat, level) == carry(
                    goal,
                    (start - old(self).curr) as nat,
                ),
                goal == carry(
                    binary_rest(self.tokens@, self.curr as nat, level, expr),
                    (self.curr - start) as nat,
                ),
            decreases self.tokens.len() - self.curr,
        {
            let ghost at = self.curr as nat;
            let operator = self.advance();
            let right = match self.operand(level) {
                Ok(right) => right,
                Err(error) => {
                    return Err(error);
                },
            };

            expr = Box::new(Expr::Binary(expr, operator, right, self.position()));
        }

        Ok(expr)
    }

    fn unary(&mut self) -> (result: Result<Box<Expr>, SyntaxError>)
        requires
            old(self).wf(),
        ensures
            final(self).advanced(old(self), unary(old(self).tokens@, old(self).curr as nat), result),
        decreases remaining(old(self).tokens@, old(self).curr as nat), 1nat, 0nat,
    {
        if self.match_2(TokenType::Bang, TokenType::Minus) {
            let operator = self.previous();
            let right = match self.unary() {
                Ok(right) => right,
                Err(error) => {
                    return Err(error);
                },
            };

            Ok(Box::new(Expr::Unary(operator, right, self.position())))
        } else {
            self.primary()
        }
    }

    fn primary(&mut self) -> (result: Result<Box<Expr>, SyntaxError>)
        requires
            old(self).wf(),
        ensures
            final(self).advanced(
                old(self),
                primary(old(self).tokens@, old(self).curr as nat),
                result,
            ),
        decreases remaining(old(self).tokens@, old(self).curr as nat), 0nat, 0nat,
    {
        if self.match_1(TokenType::False) {
            Ok(Box::new(Expr::Literal(Literal::Boolean(false), self.position())))
        } else if self.match_1(TokenType::True) {
            Ok(Box::new(Expr::Literal(Literal::Boolean(true), self.position())))
        } else if self.match_1(TokenType::Nil) {
            Ok(Box::new(Expr::Literal(Literal::Nil, self.position())))
        } else if self.match_2(TokenType::Number, TokenType::String) {
            let token = self.previous();
            match token.ty {
                TokenTy::Number(v) => Ok(
                    Box::new(Expr::Literal(Literal::Number(v), token.position)),
                ),
                TokenTy::String(v) => Ok(
                    Box::new(Expr::Literal(Literal::String(v), token.position)),
                ),
                _ => Ok(Box::new(Expr::Literal(Literal::Nil, token.position))),
            }
        } else if self.match_1(TokenType::LeftParen) {
            let expr = match self.expression() {
                Ok(expr) => expr,
                Err(error) => {
                    return Err(error);
                },
            };
            match self.consume(TokenType::RightParen, "Expected `)` after expression.") {
                Ok(_) => {},
                Err(error) => {
                    return Err(error);
                },
            }
            Ok(Box::new(Expr::Grouping(expr, self.position())))
        } else if self.match_1(TokenType::Identifier) {
            let token = self.previous();
            match token.ty {
                TokenTy::Identifier(value) => Ok(Box::new(Expr::Variable(value, token.position))),
                _ => Ok(Box::new(Expr::Literal(Literal::Nil, token.position))),
            }
        } else {
            Ok(Box::new(Expr::Literal(Literal::Nil, self.position())))
        }
    }

    /// Reads the token at the cursor where it is of `kind`; else nothing is
    /// read and the fault is `message`.
    fn consume(&mut self, kind: TokenType, message: &str) -> (result: Result<Token, SyntaxError>)
        requires
            old(self).wf(),
        ensures
            final(self).wf(),
            final(self).follows(old(self)),
            kind != TokenType::Eof && kind_at(old(self).tokens@, old(self).curr as nat) == kind ==> {
                &&& result == Ok::<Token, SyntaxError>(old(self).tokens@[old(self).curr as int])
                &&& final(self).curr == old(self).curr + 1
            },
            kind == TokenType::Eof || kind_at(old(self).tokens@, old(self).curr as nat) != kind ==> {
                &&& result is Err
                &&& result->Err_0.message@ == message@
                &&& final(self).curr == old(self).curr
            },
    {
        if self.check(kind) {
            Ok(self.advance())
        } else {
            Err(SyntaxError::new(message.to_owned()))
        }
    }

    /// Reads the token at the cursor where it is of kind `a`.
    fn match_1(&mut self, a: TokenType) -> (read: bool)
        requires
            old(self).wf(),
        ensures
            final(self).wf(),
            final(self).follows(old(self)),
            read == (a != TokenType::Eof && kind_at(old(self).tokens@, old(self).curr as nat) == a),
            final(self).curr == if read {
                old(self).curr + 1
            } else {
                old(self).curr as int
            },
    {
        if self.check(a) {
            self.advance();
            true
        } else {
            false
        }
    }

    /// Reads the token at the cursor where it is of kind `a` or `b`.
    fn match_2(&mut self, a: TokenType, b: TokenType) -> (read: bool)
        requires
            old(self).wf(),
        ensures
            final(self).wf(),
            final(self).follows(old(self)),
            read == (kind_at(old(self).tokens@, old(self).curr as nat) != TokenType::Eof && (
            kind_at(old(self).tokens@, old(self).curr as nat) == a || kind_at(
                old(self).tokens@,
                old(self).curr as nat,
            ) == b)),
            final(self).curr == if read {
                old(self).curr + 1
            } else {
                old(self).curr as int
            },
    {
        if self.check(a) || self.check(b) {
            self.advance();
            true
        } else {
            false
        }
    }

    /// Whether the token at the cursor is an operator of `level`.
    fn check_level(&self, level: Level) -> (found: bool)
        requires
            self.wf(),
        ensures
            found == (self.curr < self.tokens.len() && level.has(
                kind_at(self.tokens@, self.curr as nat),
            )),
    {
        match level {
            Level::Equality => self.check(TokenType::BangEqual) || self.check(
                TokenType::EqualEqual,
            ),
            Level::Comparison => self.check(TokenType::Greater) || self.check(
                TokenType::GreaterEqual,
            ) || self.check(TokenType::Less) || self.check(TokenType::LessEqual),
            Level::Addition => self.check(TokenType::Minus) || self.check(TokenType::Plus),
            Level::Multiplication => self.check(TokenType::Slash) || self.check(TokenType::Star),
        }
    }

    /// Whether the token at the cursor is of `kind`; no token is of any
    /// kind once the input is at its end.
    fn check(&self, kind: TokenType) -> (found: bool)
        requires
            self.wf(),
        ensures
            found == (kind != TokenType::Eof && kind_at(self.tokens@, self.curr as nat) == kind),
    {
        if self.is_at_end() {
            false
        } else {
            self.tokens[self.curr].ty.token_type() == kind
        }
    }

    /// Moves the cursor over one token, unless the input is at its end, and
    /// returns the token read last.
    fn advance(&mut self) -> (token: Token)
        requires
            old(self).wf(),
        ensures
            final(self).wf(),
            final(self).follows(old(self)),
            final(self).curr == if kind_at(old(self).tokens@, old(self).curr as nat)
                == TokenType::Eof {
                old(self).curr as int
            } else {
                old(self).curr + 1
            },
            token == previous(final(self).tokens@, final(self).curr as nat),
    {
        if !self.is_at_end() {
            self.curr += 1;
        }
        self.previous()
    }

    fn is_at_end(&self) -> (end: bool)
        requires
            self.wf(),
        ensures
            end == (kind_at(self.tokens@, self.curr as nat) == TokenType::Eof),
            !end ==> self.curr < self.tokens.len(),
    {
        if self.curr < self.tokens.len() {
            match self.tokens[self.curr].ty {
                TokenTy::Eof => true,
                _ => false,
            }
        } else {
            true
        }
    }

    fn previous(&self) -> (token: Token)
        requires
            self.wf(),
        ensures
            token == previous(self.tokens@, self.curr as nat),
    {
        if self.curr == 0 {
            self.get_token(0)
        } else {
            self.get_token(self.curr - 1)
        }
    }

    fn get_token(&self, index: usize) -> (token: Token)
        requires
            self.wf(),
            index <= self.curr,
        ensures
            token == peek(self.tokens@, index as nat),
    {
        if index < self.tokens.len() {
            self.tokens[index].clone()
        } else {
            Token::new(TokenTy::Eof, Position::new(0, self.curr))
        }
    }

    /// The position of the token read last.
    fn position(&self) -> (position: Position)
        requires
            self.wf(),
        ensures
            position == previous(self.tokens@, self.curr as nat).position,
    {
        if self.curr == 0 {
            if self.tokens.len() > 0 {
                self.tokens[0].position
            } else {
                Position::new(0, 0)
            }
        } else {
            self.tokens[self.curr - 1].position
        }
    }
}

} // verus!
