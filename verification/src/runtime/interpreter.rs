use crate::lox::lox_error::LoxError;
use crate::lox::lox_error_ty::LoxErrorTy;
use crate::runtime::environment::Environment;
use crate::runtime::lox_object::{displays, LoxObject, Value};
use crate::runtime::numeric::{negate, negated, numbers_equal, same_number, Numeric};
use crate::runtime::runtime_error::RuntimeError;
use crate::syntax::expr::Expr;
use crate::syntax::literal::Literal;
use crate::syntax::stmt::Stmt;
use crate::syntax::token::TokenType;
use vstd::prelude::*;
use vstd::string::StringExecFns;

verus! {

/// Whether a value counts as true: `false` and `nil` do not, every other
/// value does.
pub open spec fn truthy(value: Value) -> bool {
    match value {
        Value::Boolean(v) => v,
        Value::Nil => false,
        _ => true,
    }
}

/// Whether two values are equal: values of different types never are, nil
/// equals nil, and booleans, numbers and strings are compared by what they
/// hold.
pub open spec fn equal(a: Value, b: Value) -> bool {
    match (a, b) {
        (Value::Nil, Value::Nil) => true,
        (Value::Boolean(x), Value::Boolean(y)) => x == y,
        (Value::Number(x), Value::Number(y)) => same_number(x, y),
        (Value::String(x), Value::String(y)) => x == y,
        _ => false,
    }
}

/// What a unary operator makes of its operand: `!` denies its truth, `-`
/// negates a number and leaves any other value as it is.
pub open spec fn unary_value(operator: TokenType, operand: Value) -> Value {
    match operator {
        TokenType::Bang => Value::Boolean(!truthy(operand)),
        TokenType::Minus => match operand {
            Value::Number(v) => Value::Number(negated(v)),
            _ => operand,
        },
        _ => operand,
    }
}

/// Whether `operator` is one of `-`, `/`, `*` and `+`.
pub open spec fn is_arithmetic(operator: TokenType) -> bool {
    operator == TokenType::Minus || operator == TokenType::Slash || operator == TokenType::Star
        || operator == TokenType::Plus
}

/// `result` is what the host may return for `a operator b`.
pub open spec fn computes<H: Numeric>(
    host: &H,
    operator: TokenType,
    a: u64,
    b: u64,
    result: u64,
) -> bool {
    match operator {
        TokenType::Minus => call_ensures(H::difference, (host, a, b), result),
        TokenType::Slash => call_ensures(H::quotient, (host, a, b), result),
        TokenType::Star => call_ensures(H::product, (host, a, b), result),
        TokenType::Plus => call_ensures(H::sum, (host, a, b), result),
        _ => false,
    }
}

/// What a binary operator makes of two values where no arithmetic on
/// numbers is called for: `+` joins two strings; `>`, `>=`, `<` and `<=`
/// order two booleans, false before true; `==` and `!=` compare any two
/// values; everything else is nil.
pub open spec fn binary_value(operator: TokenType, lhs: Value, rhs: Value) -> Value {
    match operator {
        TokenType::Plus => match (lhs, rhs) {
            (Value::String(a), Value::String(b)) => Value::String(a + b),
            _ => Value::Nil,
        },
        TokenType::Greater => match (lhs, rhs) {
            (Value::Boolean(a), Value::Boolean(b)) => Value::Boolean(a && !b),
            _ => Value::Nil,
        },
        TokenType::GreaterEqual => match (lhs, rhs) {
            (Value::Boolean(a), Value::Boolean(b)) => Value::Boolean(a || !b),
            _ => Value::Nil,
        },
        TokenType::Less => match (lhs, rhs) {
            (Value::Boolean(a), Value::Boolean(b)) => Value::Boolean(!a && b),
            _ => Value::Nil,
        },
        TokenType::LessEqual => match (lhs, rhs) {
            (Value::Boolean(a), Value::Boolean(b)) => Value::Boolean(!a || b),
            _ => Value::Nil,
        },
        TokenType::BangEqual => Value::Boolean(!equal(lhs, rhs)),
        TokenType::EqualEqual => Value::Boolean(equal(lhs, rhs)),
        _ => Value::Nil,
    }
}

/// `out` is what `lhs operator rhs` may be: for `-`, `/`, `*` and `+` on two
/// numbers the number that the host computes, else what the operator makes
/// of the two values without it.
pub open spec fn binary_yields<H: Numeric>(
    host: &H,
    operator: TokenType,
    lhs: Value,
    rhs: Value,
    out: Value,
) -> bool {
    if is_arithmetic(operator) && lhs is Number && rhs is Number {
        out is Number && computes(host, operator, lhs->Number_0, rhs->Number_0, out->Number_0)
    } else {
        out == binary_value(operator, lhs, rhs)
    }
}

/// `out` is what the constant `literal` may be.
pub open spec fn literal_yields<H: Numeric>(host: &H, literal: Literal, out: Value) -> bool {
    match literal {
        Literal::Number(numeral) => out is Number && call_ensures(
            H::parse,
            (host, &numeral),
            out->Number_0,
        ),
        Literal::String(contents) => out == Value::String(contents@),
        Literal::Boolean(v) => out == Value::Boolean(v),
        Literal::Nil => out == Value::Nil,
    }
}

/// The values that `expr` may evaluate to: none where a variable it reads
/// is not bound in `variables`; else one for each way in which the host may
/// answer what it is asked.
pub open spec fn outcomes<H: Numeric>(
    host: &H,
    variables: Map<Seq<char>, Value>,
    expr: Expr,
) -> Set<Value>
    decreases expr,
{
    match expr {
        Expr::Grouping(inner, _) => outcomes(host, variables, *inner),
        Expr::Literal(literal, _) => Set::new(|out: Value| literal_yields(host, literal, out)),
        Expr::Unary(operator, right, _) => {
            let operands = outcomes(host, variables, *right);
            Set::new(
                |out: Value|
                    exists|operand: Value| #[trigger]
                        operands.contains(operand) && out == unary_value(
                            operator.ty.kind(),
                            operand,
                        ),
            )
        },
        Expr::Binary(left, operator, right, _) => {
            let lefts = outcomes(host, variables, *left);
            let rights = outcomes(host, variables, *right);
            Set::new(
                |out: Value|
                    exists|lhs: Value, rhs: Value|
                        #![trigger lefts.contains(lhs), rights.contains(rhs)]
                        lefts.contains(lhs) && rights.contains(rhs) && binary_yields(
                            host,
                            operator.ty.kind(),
                            lhs,
                            rhs,
                            out,
                        ),
            )
        },
        Expr::Variable(name, _) => if variables.contains_key(name@) {
            set![variables[name@]]
        } else {
            Set::empty()
        },
    }
}

/// `out` is a value that `expr` may evaluate to.
pub open spec fn yields<H: Numeric>(
    host: &H,
    variables: Map<Seq<char>, Value>,
    expr: Expr,
    out: Value,
) -> bool {
    outcomes(host, variables, expr).contains(out)
}

/// The first variable, in the order of evaluation, that `expr` reads and
/// `names` does not hold.
pub open spec fn undefined_in(expr: Expr, names: Set<Seq<char>>) -> Option<Seq<char>>
    decreases expr,
{
    match expr {
        Expr::Grouping(inner, _) => undefined_in(*inner, names),
        Expr::Literal(_, _) => None,
        Expr::Unary(_, right, _) => undefined_in(*right, names),
        Expr::Binary(left, _, right, _) => match undefined_in(*left, names) {
            Some(name) => Some(name),
            None => undefined_in(*right, names),
        },
        Expr::Variable(name, _) => if names.contains(name@) {
            None
        } else {
            Some(name@)
        },
    }
}

pub open spec fn undefined_variable(name: Seq<char>) -> Seq<char> {
    "Undefined variable `"@ + name + "`."@
}

/// `result` is what evaluating `expr` may return: a value that it yields
/// where all its variables are bound, else a fault that names the first
/// one that is not.
pub open spec fn evaluated<H: Numeric>(
    host: &H,
    variables: Map<Seq<char>, Value>,
    expr: Expr,
    result: Result<LoxObject, RuntimeError>,
) -> bool {
    match undefined_in(expr, variables.dom()) {
        None => result is Ok && yields(host, variables, expr, result->Ok_0@),
        Some(name) => result is Err && result->Err_0.message@ == undefined_variable(name),
    }
}

/// An arithmetic operator on operands that are neither two numbers nor, for
/// `+`, two strings gives nil, whatever the host would compute.
pub proof fn arithmetic_on_mixed_types_is_nil<H: Numeric>(
    host: &H,
    operator: TokenType,
    lhs: Value,
    rhs: Value,
    out: Value,
)
    requires
        is_arithmetic(operator),
        !(lhs is Number && rhs is Number),
        !(operator == TokenType::Plus && lhs is String && rhs is String),
        binary_yields(host, operator, lhs, rhs, out),
    ensures
        out == Value::Nil,
{
}

/// `+` on two strings gives the first with the second behind it.
pub proof fn plus_joins_strings<H: Numeric>(host: &H, a: Seq<char>, b: Seq<char>, out: Value)
    requires
        binary_yields(host, TokenType::Plus, Value::String(a), Value::String(b), out),
    ensures
        out == Value::String(a + b),
{
}

/// A variable that is bound evaluates to its value and to nothing else; one
/// that is not bound evaluates to nothing, and evaluating it is a fault that
/// names it.
pub proof fn variable_reads_its_binding<H: Numeric>(
    host: &H,
    variables: Map<Seq<char>, Value>,
    expr: Expr,
    result: Result<LoxObject, RuntimeError>,
)
    requires
        expr is Variable,
        evaluated(host, variables, expr, result),
    ensures
        variables.contains_key(expr->Variable_0@) ==> result is Ok && result->Ok_0@
            == variables[expr->Variable_0@],
        !variables.contains_key(expr->Variable_0@) ==> result is Err && result->Err_0.message@
            == undefined_variable(expr->Variable_0@),
{
}

/// Parentheses change nothing: a grouping evaluates to what the expression
/// inside it evaluates to, and is at fault where that one is.
pub proof fn grouping_is_transparent<H: Numeric>(
    host: &H,
    variables: Map<Seq<char>, Value>,
    expr: Expr,
)
    requires
        expr is Grouping,
    ensures
        outcomes(host, variables, expr) == outcomes(host, variables, *expr->Grouping_0),
        undefined_in(expr, variables.dom()) == undefined_in(*expr->Grouping_0, variables.dom()),
{
}

/// Whether an expression can be evaluated is decided by the names that are
/// bound, not by their values: it has a value to evaluate to only if none of
/// the variables it reads is unbound.
pub proof fn unbound_variable_leaves_no_outcome<H: Numeric>(
    host: &H,
    variables: Map<Seq<char>, Value>,
    expr: Expr,
    out: Value,
)
    requires
        yields(host, variables, expr, out),
    ensures
        undefined_in(expr, variables.dom()) is None,
    decreases expr,
{
    match expr {
        Expr::Grouping(inner, _) => {
            unbound_variable_leaves_no_outcome(host, variables, *inner, out);
        },
        Expr::Literal(_, _) => {},
        Expr::Unary(operator, right, _) => {
            let operands = outcomes(host, variables, *right);
            let operand = choose|operand: Value| #[trigger]
                operands.contains(operand) && out == unary_value(operator.ty.kind(), operand);
            unbound_variable_leaves_no_outcome(host, variables, *right, operand);
        },
        Expr::Binary(left, operator, right, _) => {
            let lefts = outcomes(host, variables, *left);
            let rights = outcomes(host, variables, *right);
            let (lhs, rhs) = choose|lhs: Value, rhs: Value|
                #![trigger lefts.contains(lhs), rights.contains(rhs)]
                lefts.contains(lhs) && rights.contains(rhs) && binary_yields(
                    host,
                    operator.ty.kind(),
                    lhs,
                    rhs,
                    out,
                );
            unbound_variable_leaves_no_outcome(host, variables, *left, lhs);
            unbound_variable_leaves_no_outcome(host, variables, *right, rhs);
        },
        Expr::Variable(_, _) => {},
    }
}

/// The host answers each question in one way only: what it computes, reads
/// and writes depends on what it is asked alone.
pub open spec fn single_valued<H: Numeric>(host: &H) -> bool {
    &&& forall|numeral: String, x: u64, y: u64|
        call_ensures(H::parse, (host, &numeral), x) && call_ensures(H::parse, (host, &numeral), y)
            ==> x == y
    &&& forall|a: u64, b: u64, x: u64, y: u64|
        call_ensures(H::sum, (host, a, b), x) && call_ensures(H::sum, (host, a, b), y) ==> x == y
    &&& forall|a: u64, b: u64, x: u64, y: u64|
        call_ensures(H::difference, (host, a, b), x) && call_ensures(H::difference, (host, a, b), y)
            ==> x == y
    &&& forall|a: u64, b: u64, x: u64, y: u64|
        call_ensures(H::product, (host, a, b), x) && call_ensures(H::product, (host, a, b), y)
            ==> x == y
    &&& forall|a: u64, b: u64, x: u64, y: u64|
        call_ensures(H::quotient, (host, a, b), x) && call_ensures(H::quotient, (host, a, b), y)
            ==> x == y
    &&& forall|number: u64, x: String, y: String|
        call_ensures(H::format, (host, number), x) && call_ensures(H::format, (host, number), y)
            ==> x@ == y@
}

/// With a host that answers in one way only, an expression evaluates to one
/// value only.
pub proof fn evaluation_is_a_function_of_the_host<H: Numeric>(
    host: &H,
    variables: Map<Seq<char>, Value>,
    expr: Expr,
    first: Value,
    second: Value,
)
    requires
        single_valued(host),
        yields(host, variables, expr, first),
        yields(host, variables, expr, second),
    ensures
        first == second,
    decreases expr,
{
    match expr {
        Expr::Grouping(inner, _) => {
            evaluation_is_a_function_of_the_host(host, variables, *inner, first, second);
        },
        Expr::Literal(_, _) => {},
        Expr::Unary(operator, right, _) => {
            let operands = outcomes(host, variables, *right);
            let a = choose|operand: Value| #[trigger]
                operands.contains(operand) && first == unary_value(operator.ty.kind(), operand);
            let b = choose|operand: Value| #[trigger]
                operands.contains(operand) && second == unary_value(operator.ty.kind(), operand);
            evaluation_is_a_function_of_the_host(host, variables, *right, a, b);
        },
        Expr::Binary(left, operator, right, _) => {
            let lefts = outcomes(host, variables, *left);
            let rights = outcomes(host, variables, *right);
            let (a, b) = choose|lhs: Value, rhs: Value|
                #![trigger lefts.contains(lhs), rights.contains(rhs)]
                lefts.contains(lhs) && rights.contains(rhs) && binary_yields(
                    host,
                    operator.ty.kind(),
                    lhs,
                    rhs,
                    first,
                );
            let (c, d) = choose|lhs: Value, rhs: Value|
                #![trigger lefts.contains(lhs), rights.contains(rhs)]
                lefts.contains(lhs) && rights.contains(rhs) && binary_yields(
                    host,
                    operator.ty.kind(),
                    lhs,
                    rhs,
                    second,
                );
            evaluation_is_a_function_of_the_host(host, variables, *left, a, c);
            evaluation_is_a_function_of_the_host(host, variables, *right, b, d);
        },
        Expr::Variable(_, _) => {},
    }
}

/// The first variable that `stmt` reads and `names` does not hold.
pub open spec fn undefined_by(stmt: Stmt, names: Set<Seq<char>>) -> Option<Seq<char>> {
    match stmt {
        Stmt::Expr(expr, _) => undefined_in(*expr, names),
        Stmt::Print(expr, _) => undefined_in(*expr, names),
        Stmt::Var(_, Some(expr), _) => undefined_in(*expr, names),
        Stmt::Var(_, None, _) => None,
    }
}

/// The names that are bound after `stmt`, where `names` were bound before.
pub open spec fn declared_by(stmt: Stmt, names: Set<Seq<char>>) -> Set<Seq<char>> {
    match stmt {
        Stmt::Var(name, _, _) => names.insert(name@),
        _ => names,
    }
}

/// The index of the first of the statements from `from` on that reads a
/// variable which neither `names` holds nor a statement between declares.
pub open spec fn first_fault(statements: Seq<Box<Stmt>>, names: Set<Seq<char>>, from: nat) -> Option<
    nat,
>
    decreases statements.len() - from,
{
    if from >= statements.len() {
        None
    } else if undefined_by(*statements[from as int], names) is Some {
        Some(from)
    } else {
        first_fault(statements, declared_by(*statements[from as int], names), from + 1)
    }
}

/// What an interpreter holds: its variables and the lines it has printed.
pub struct State {
    pub variables: Map<Seq<char>, Value>,
    pub printed: Seq<Seq<char>>,
}

/// `after` is a state that `stmt` may leave where it began in `before` and
/// all the variables it reads are bound: an expression statement changes
/// nothing, `print` adds the line that displays its value, and `var` binds
/// its name to the value of the initializer, or to nil where it has none.
pub open spec fn executes<H: Numeric>(host: &H, before: State, stmt: Stmt, after: State) -> bool {
    match stmt {
        Stmt::Expr(_, _) => after == before,
        Stmt::Print(expr, _) => exists|value: Value, line: Seq<char>|
            #![trigger yields(host, before.variables, *expr, value), displays(host, value, line)]
            yields(host, before.variables, *expr, value) && displays(host, value, line) && after
                == (State { variables: before.variables, printed: before.printed.push(line) }),
        Stmt::Var(name, Some(expr), _) => exists|value: Value| #[trigger]
            yields(host, before.variables, *expr, value) && after == (State {
                variables: before.variables.insert(name@, value),
                printed: before.printed,
            }),
        Stmt::Var(name, None, _) => after == (State {
            variables: before.variables.insert(name@, Value::Nil),
            printed: before.printed,
        }),
    }
}

/// The states that the first `count` of the statements may leave where they
/// began in `before` and none of them met a fault.
pub open spec fn reachable<H: Numeric>(
    host: &H,
    before: State,
    statements: Seq<Box<Stmt>>,
    count: nat,
) -> Set<State>
    decreases count,
{
    if count == 0 {
        set![before]
    } else {
        let earlier = reachable(host, before, statements, (count - 1) as nat);
        let last = *statements[count - 1];
        Set::new(
            |after: State|
                exists|mid: State| #[trigger]
                    earlier.contains(mid) && undefined_by(last, mid.variables.dom()) is None
                        && executes(host, mid, last, after),
        )
    }
}

/// `after` is a state that the first `count` of the statements may leave
/// where they began in `before` and none of them met a fault.
pub open spec fn runs<H: Numeric>(
    host: &H,
    before: State,
    statements: Seq<Box<Stmt>>,
    count: nat,
    after: State,
) -> bool {
    reachable(host, before, statements, count).contains(after)
}

/// With a host that answers in one way only, a value is displayed in one
/// way only.
pub proof fn display_is_a_function_of_the_host<H: Numeric>(
    host: &H,
    value: Value,
    first: Seq<char>,
    second: Seq<char>,
)
    requires
        single_valued(host),
        displays(host, value, first),
        displays(host, value, second),
    ensures
        first == second,
{
    if let Value::Number(v) = value {
        let a = choose|formatted: String|
            call_ensures(H::format, (host, v), formatted) && formatted@ == first;
        let b = choose|formatted: String|
            call_ensures(H::format, (host, v), formatted) && formatted@ == second;
        assert(a@ == b@);
    }
}

/// With a host that answers in one way only, a statement leaves one state
/// only.
pub proof fn statement_is_a_function_of_the_host<H: Numeric>(
    host: &H,
    before: State,
    stmt: Stmt,
    first: State,
    second: State,
)
    requires
        single_valued(host),
        executes(host, before, stmt, first),
        executes(host, before, stmt, second),
    ensures
        first == second,
{
    match stmt {
        Stmt::Expr(_, _) => {},
        Stmt::Print(expr, _) => {
            let (a, line_a) = choose|value: Value, line: Seq<char>|
                #![trigger yields(host, before.variables, *expr, value), displays(host, value, line)]
                yields(host, before.variables, *expr, value) && displays(host, value, line)
                    && first == (State {
                    variables: before.variables,
                    printed: before.printed.push(line),
                });
            let (b, line_b) = choose|value: Value, line: Seq<char>|
                #![trigger yields(host, before.variables, *expr, value), displays(host, value, line)]
                yields(host, before.variables, *expr, value) && displays(host, value, line)
                    && second == (State {
                    variables: before.variables,
                    printed: before.printed.push(line),
                });
            evaluation_is_a_function_of_the_host(host, before.variables, *expr, a, b);
            display_is_a_function_of_the_host(host, a, line_a, line_b);
        },
        Stmt::Var(name, Some(expr), _) => {
            let a = choose|value: Value| #[trigger]
                yields(host, before.variables, *expr, value) && first == (State {
                    variables: before.variables.insert(name@, value),
                    printed: before.printed,
                });
            let b = choose|value: Value| #[trigger]
                yields(host, before.variables, *expr, value) && second == (State {
                    variables: before.variables.insert(name@, value),
                    printed: before.printed,
                });
            evaluation_is_a_function_of_the_host(host, before.variables, *expr, a, b);
        },
        Stmt::Var(_, None, _) => {},
    }
}

/// With a host that answers in one way only, a program leaves one state
/// only: what it binds and prints is decided by its statements, the state
/// it began in and the host.
pub proof fn execution_is_a_function_of_the_host<H: Numeric>(
    host: &H,
    before: State,
    statements: Seq<Box<Stmt>>,
    count: nat,
    first: State,
    second: State,
)
    requires
        single_valued(host),
        runs(host, before, statements, count, first),
        runs(host, before, statements, count, second),
    ensures
        first == second,
    decreases count,
{
    if count > 0 {
        let earlier = reachable(host, before, statements, (count - 1) as nat);
        let last = *statements[count - 1];
        let a = choose|mid: State| #[trigger]
            earlier.contains(mid) && undefined_by(last, mid.variables.dom()) is None && executes(
                host,
                mid,
                last,
                first,
            );
        let b = choose|mid: State| #[trigger]
            earlier.contains(mid) && undefined_by(last, mid.variables.dom()) is None && executes(
                host,
                mid,
                last,
                second,
            );
        execution_is_a_function_of_the_host(host, before, statements, (count - 1) as nat, a, b);
        statement_is_a_function_of_the_host(host, a, last, first, second);
    }
}

/// `result` and `after` are what interpreting `statements`, which began in
/// `before`, may return and leave. It succeeds if and only if no statement
/// reads a variable that is bound neither in `before` nor by an earlier one
/// of the statements; then all of them have run. Else the statements before
/// the first such one have run, and the error names the first variable of
/// that statement that is not bound and points at that statement.
pub open spec fn interpreted<H: Numeric>(
    host: &H,
    before: State,
    statements: Seq<Box<Stmt>>,
    source: Seq<char>,
    source_file: Option<String>,
    result: Result<(), LoxError>,
    after: State,
) -> bool {
    match first_fault(statements, before.variables.dom(), 0) {
        None => result is Ok && runs(host, before, statements, statements.len(), after),
        Some(at) => {
            &&& result is Err
            &&& at < statements.len()
            &&& runs(host, before, statements, at, after)
            &&& undefined_by(*statements[at as int], after.variables.dom()) is Some
            &&& result->Err_0.reports(
                LoxErrorTy::Runtime,
                undefined_variable(
                    undefined_by(*statements[at as int], after.variables.dom())->Some_0,
                ),
                source,
                source_file,
                statements[at as int].place(),
            )
        },
    }
}

/// Executes statements, one after the other, on an environment that lives
/// as long as the interpreter does. What `print` writes is kept, line by
/// line, until it is taken.
pub struct Interpreter {
    environment: Environment,
    output: Vec<String>,
    source: String,
    pub source_file: Option<String>,
}

impl Interpreter {
    /// The variables and the printed lines of this interpreter.
    pub closed spec fn state(&self) -> State {
        State {
            variables: self.environment@,
            printed: self.output@.map_values(|line: String| line@),
        }
    }

    /// The name of the file that the source came from, as `source_file`
    /// holds it.
    pub closed spec fn file(&self) -> Option<String> {
        self.source_file
    }

    /// The source text of the statements that were interpreted last.
    pub closed spec fn source_text(&self) -> Seq<char> {
        self.source@
    }

    pub fn new() -> (interpreter: Interpreter)
        ensures
            interpreter.state().variables == Map::<Seq<char>, Value>::empty(),
            interpreter.state().printed == Seq::<Seq<char>>::empty(),
            interpreter.file() is None,
    {
        Interpreter {
            environment: Environment::new(),
            output: Vec::new(),
            source: String::new(),
            source_file: None,
        }
    }

    /// Executes the statements in order and stops at the first one that
    /// reads a variable which is not bound: that statement changes nothing,
    /// and the error names the variable and points at the statement.
    pub fn interpret<H: Numeric>(&mut self, stmts: Vec<Box<Stmt>>, source: &str, host: &H) -> (result:
        Result<(), LoxError>)
        ensures
            final(self).file() == old(self).file(),
            final(self).source_text() == source@,
            interpreted(
                host,
                old(self).state(),
                stmts@,
                source@,
                old(self).file(),
                result,
                final(self).state(),
            ),
    {
        self.source = source.to_owned();

        let mut i: usize = 0;
        while i < stmts.len()
            invariant
                i <= stmts.len(),
                self.source@ == source@,
                self.source_file == old(self).source_file,
                runs(host, old(self).state(), stmts@, i as nat, self.state()),
                first_fault(stmts@, old(self).state().variables.dom(), 0) == first_fault(
                    stmts@,
                    self.state().variables.dom(),
                    i as nat,
                ),
            decreases stmts.len() - i,
        {
            let ghost mid = self.state();
            match self.visit_stmt(&stmts[i], host) {
                Ok(()) => {
                    proof {
                        assert(self.state().variables.dom() =~= declared_by(
                            *stmts@[i as int],
                            mid.variables.dom(),
                        ));
                    }
                },
                Err(error) => {
                    return Err(
                        LoxError::new(
                            LoxErrorTy::Runtime,
                            error.message.as_str(),
                            self.source.as_str(),
                            &self.source_file,
                            stmts[i].position(),
                        ),
                    );
                },
            }
            i += 1;
        }
        Ok(())
    }

    /// The lines printed so far.
    pub fn output(&self) -> (lines: &Vec<String>)
        ensures
            lines@.map_values(|line: String| line@) == self.state().printed,
    {
        &self.output
    }

    /// Hands over the lines printed so far and forgets them.
    pub fn take_output(&mut self) -> (lines: Vec<String>)
        ensures
            lines@.map_values(|line: String| line@) == old(self).state().printed,
            final(self).state().variables == old(self).state().variables,
            final(self).state().printed == Seq::<Seq<char>>::empty(),
            final(self).file() == old(self).file(),
    {
        let mut lines: Vec<String> = Vec::new();
        std::mem::swap(&mut self.output, &mut lines);
        lines
    }

    pub fn is_truthy(&self, o: &LoxObject) -> (truth: bool)
        ensures
            truth == truthy(o@),
    {
        match o {
            LoxObject::Boolean(v) => *v,
            LoxObject::Nil => false,
            _ => true,
        }
    }

    pub fn is_equal(&self, a: &LoxObject, b: &LoxObject) -> (same: bool)
        ensures
            same == equal(a@, b@),
    {
        match (a, b) {
            (LoxObject::Nil, LoxObject::Nil) => true,
            (LoxObject::Nil, _) => false,
            (LoxObject::Boolean(a), LoxObject::Boolean(b)) => *a == *b,
            (LoxObject::Number(a), LoxObject::Number(b)) => numbers_equal(*a, *b),
            (LoxObject::String(a), LoxObject::String(b)) => *a == *b,
            (_, _) => false,
        }
    }

    /// Executes one statement.
    pub fn visit_stmt<H: Numeric>(&mut self, s: &Stmt, host: &H) -> (result: Result<
        (),
        RuntimeError,
    >)
        ensures
            final(self).source_text() == old(self).source_text(),
            final(self).file() == old(self).file(),
            match undefined_by(*s, old(self).state().variables.dom()) {
                None => result is Ok && executes(host, old(self).state(), *s, final(self).state()),
                Some(name) => {
                    &&& result is Err
                    &&& result->Err_0.message@ == undefined_variable(name)
                    &&& final(self).state() == old(self).state()
                },
            },
    {
        match s {
            Stmt::Expr(expression, _) => {
                match self.visit_expr(expression, host) {
                    Ok(_) => Ok(()),
                    Err(error) => Err(error),
                }
            },
            Stmt::Print(expression, _) => {
                let value = match self.visit_expr(expression, host) {
                    Ok(value) => value,
                    Err(error) => {
                        return Err(error);
                    },
                };
                let line = value.to_string(host);
                let ghost shown = line@;
                self.output.push(line);
                proof {
                    assert(self.state().printed =~= old(self).state().printed.push(shown));
                }
                Ok(())
            },
            Stmt::Var(name, initializer, _) => {
                let value = match initializer {
                    Some(expr) => match self.visit_expr(expr, host) {
                        Ok(value) => value,
                        Err(error) => {
                            return Err(error);
                        },
                    },
                    None => LoxObject::Nil,
                };
                self.environment.define(name.clone(), value);
                Ok(())
            },
        }
    }

    /// Evaluates one expression.
    pub fn visit_expr<H: Numeric>(&self, e: &Expr, host: &H) -> (result: Result<
        LoxObject,
        RuntimeError,
    >)
        ensures
            evaluated(host, self.state().variables, *e, result),
        decreases e,
    {
        match e {
            Expr::Grouping(expression, _) => self.visit_expr(expression, host),
            Expr::Literal(value, _) => Ok(
                match value {
                    Literal::Number(v) => LoxObject::Number(host.parse(v)),
                    Literal::String(v) => LoxObject::String(v.clone()),
                    Literal::Boolean(v) => LoxObject::Boolean(*v),
                    Literal::Nil => LoxObject::Nil,
                },
            ),
            Expr::Unary(operator, right, _) => {
                let object = match self.visit_expr(right, host) {
                    Ok(object) => object,
                    Err(error) => {
                        return Err(error);
                    },
                };
                Ok(self.unary(operator.ty.token_type(), object))
            },
            Expr::Binary(left, operator, right, _) => {
                let lhs = match self.visit_expr(left, host) {
                    Ok(lhs) => lhs,
                    Err(error) => {
                        return Err(error);
                    },
                };
                let rhs = match self.visit_expr(right, host) {
                    Ok(rhs) => rhs,
                    Err(error) => {
                        return Err(error);
                    },
                };
                Ok(self.binary(operator.ty.token_type(), lhs, rhs, host))
            },
            Expr::Variable(name, _) => {
                match self.environment.get(name.as_str()) {
                    Some(value) => Ok(value.clone()),
                    None => {
                        let mut message = "Undefined variable `".to_owned();
                        message.append(name.as_str());
                        message.append("`.");
                        Err(RuntimeError::new(message.as_str()))
                    },
                }
            },
        }
    }

    /// Applies a unary operator.
    pub fn unary(&self, operator: TokenType, object: LoxObject) -> (value: LoxObject)
        ensures
            value@ == unary_value(operator, object@),
    {
        match operator {
            TokenType::Bang => LoxObject::Boolean(!self.is_truthy(&object)),
            TokenType::Minus => match object {
                LoxObject::Number(v) => LoxObject::Number(negate(v)),
                _ => object,
            },
            _ => object,
        }
    }

    /// Applies a binary operator.
    pub fn binary<H: Numeric>(
        &self,
        operator: TokenType,
        lhs: LoxObject,
        rhs: LoxObject,
        host: &H,
    ) -> (value: LoxObject)
        ensures
            binary_yields(host, operator, lhs@, rhs@, value@),
    {
        match operator {
            TokenType::Minus => match (lhs, rhs) {
                (LoxObject::Number(a), LoxObject::Number(b)) => LoxObject::Number(
                    host.difference(a, b),
                ),
                (_, _) => LoxObject::Nil,
            },
            TokenType::Slash => match (lhs, rhs) {
                (LoxObject::Number(a), LoxObject::Number(b)) => LoxObject::Number(
                    host.quotient(a, b),
                ),
                (_, _) => LoxObject::Nil,
            },
            TokenType::Star => match (lhs, rhs) {
                (LoxObject::Number(a), LoxObject::Number(b)) => LoxObject::Number(
                    host.product(a, b),
                ),
                (_, _) => LoxObject::Nil,
            },
            TokenType::Plus => match (lhs, rhs) {
                (LoxObject::Number(a), LoxObject::Number(b)) => LoxObject::Number(host.sum(a, b)),
                (LoxObject::String(a), LoxObject::String(b)) => LoxObject::String(
                    a.concat(b.as_str()),
                ),
                (_, _) => LoxObject::Nil,
            },
            TokenType::Greater => match (lhs, rhs) {
                (LoxObject::Boolean(a), LoxObject::Boolean(b)) => LoxObject::Boolean(a && !b),
                (_, _) => LoxObject::Nil,
            },
            TokenType::GreaterEqual => match (lhs, rhs) {
                (LoxObject::Boolean(a), LoxObject::Boolean(b)) => LoxObject::Boolean(a || !b),
                (_, _) => LoxObject::Nil,
            },
            TokenType::Less => match (lhs, rhs) {
                (LoxObject::Boolean(a), LoxObject::Boolean(b)) => LoxObject::Boolean(!a && b),
                (_, _) => LoxObject::Nil,
            },
            TokenType::LessEqual => match (lhs, rhs) {
                (LoxObject::Boolean(a), LoxObject::Boolean(b)) => LoxObject::Boolean(!a || b),
                (_, _) => LoxObject::Nil,
            },
            TokenType::BangEqual => LoxObject::Boolean(!self.is_equal(&lhs, &rhs)),
            TokenType::EqualEqual => LoxObject::Boolean(self.is_equal(&lhs, &rhs)),
            _ => LoxObject::Nil,
        }
    }
}

} // verus!
