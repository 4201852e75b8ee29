use crate::lox::lox_error::LoxError;
use crate::lox::lox_error_ty::LoxErrorTy;
use crate::runtime::interpreter::{interpreted, Interpreter, State};
use crate::runtime::lox_object::Value;
use crate::runtime::numeric::Numeric;
use crate::syntax::parser::{previous, program, Parser};
use crate::syntax::scanner::{scan, views, Scanner};
use crate::syntax::token::Token;
use vstd::prelude::*;

verus! {

/// `result` and `after` are what running `source` on an interpreter in the
/// state `before` may return and leave: the fault of the scanner, or else
/// the fault of the parser, both of which leave the state as it was, or
/// else what interpreting the statements returns and leaves.
pub open spec fn ran<H: Numeric>(
    host: &H,
    before: State,
    source: Seq<char>,
    result: Result<(), LoxError>,
    after: State,
) -> bool {
    match scan(source) {
        Err(fault) => {
            &&& after == before
            &&& result is Err
            &&& result->Err_0.reports(
                LoxErrorTy::Syntax,
                fault.message,
                source,
                None,
                fault.position,
            )
        },
        Ok(lexemes) => exists|tokens: Seq<Token>| #[trigger]
            views(tokens) == lexemes && match program(tokens, 0) {
                Err(fault) => {
                    &&& after == before
                    &&& result is Err
                    &&& result->Err_0.reports(
                        LoxErrorTy::Syntax,
                        fault.message,
                        source,
                        None,
                        previous(tokens, fault.at).position,
                    )
                },
                Ok(statements) => interpreted(
                    host,
                    before,
                    statements,
                    source,
                    None,
                    result,
                    after,
                ),
            },
    }
}

/// One interpreter and the three passes that feed it: every source text
/// that is run is scanned, parsed and interpreted on the same variables.
pub struct Lox {
    interpreter: Interpreter,
}

impl Lox {
    /// The interpreter names no file.
    pub closed spec fn wf(&self) -> bool {
        self.interpreter.file() is None
    }

    /// The variables and the printed lines of the interpreter.
    pub closed spec fn state(&self) -> State {
        self.interpreter.state()
    }

    pub fn new() -> (lox: Lox)
        ensures
            lox.wf(),
            lox.state().variables == Map::<Seq<char>, Value>::empty(),
            lox.state().printed == Seq::<Seq<char>>::empty(),
    {
        Lox { interpreter: Interpreter::new() }
    }

    /// Scans, parses and interprets `source`, and stops at the first fault.
    pub fn interpret<H: Numeric>(&mut self, source: &str, host: &H) -> (result: Result<
        (),
        LoxError,
    >)
        requires
            old(self).wf(),
        ensures
            final(self).wf(),
            ran(host, old(self).state(), source@, result, final(self).state()),
    {
        let tokens = match Scanner::new(source).scan_tokens() {
            Ok(tokens) => tokens,
            Err(error) => {
                return Err(error);
            },
        };
        let statements = match Parser::new(tokens, source).parse() {
            Ok(statements) => statements,
            Err(error) => {
                return Err(error);
            },
        };
        self.interpreter.interpret(statements, source, host)
    }

    /// Hands over the lines printed so far and forgets them.
    pub fn take_output(&mut self) -> (lines: Vec<String>)
        requires
            old(self).wf(),
        ensures
            final(self).wf(),
            lines@.map_values(|line: String| line@) == old(self).state().printed,
            final(self).state().variables == old(self).state().variables,
            final(self).state().printed == Seq::<Seq<char>>::empty(),
    {
        self.interpreter.take_output()
    }
}

} // verus!
