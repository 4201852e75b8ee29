use crate::lox::lox_error::LoxError;
use crate::lox::lox_error_ty::LoxErrorTy;
use crate::syntax::position::Position;
use crate::syntax::token::{Token, TokenTy, TokenType, TokenView};
use crate::text::{
    alphabetic, alphanumeric, char_is_digit, chars_of, is_digit, string_of, white_space,
};
use vstd::hash_map::StringHashMap;
use vstd::prelude::*;
use vstd::string::StringExecFns;

verus! {

/// The classes of characters that the scanner passes over in runs.
#[derive(Clone, Copy, Debug, PartialEq, Eq, Structural)]
pub enum CharClass {
    /// A decimal digit.
    Digit,
    /// A letter, a digit or an underscore: what continues an identifier.
    Word,
    /// Anything but a line feed: what continues a line comment.
    NotNewline,
    /// Anything but a double quote: what continues a string literal.
    NotQuote,
}

pub open spec fn in_class(class: CharClass, c: char) -> bool {
    match class {
        CharClass::Digit => is_digit(c),
        CharClass::Word => alphanumeric(c) || c == '_',
        CharClass::NotNewline => c != '\n',
        CharClass::NotQuote => c != '"',
    }
}

/// How many characters of `class` stand in a row in `source` from `from` on.
pub open spec fn run(source: Seq<char>, from: int, class: CharClass) -> nat
    decreases source.len() - from,
{
    if 0 <= from < source.len() && in_class(class, source[from]) {
        1 + run(source, from + 1, class)
    } else {
        0
    }
}

/// How many characters stand in `source` from `from` on before the first
/// `*/`, or before the end where there is none.
pub open spec fn comment_body(source: Seq<char>, from: int) -> nat
    decreases source.len() - from,
{
    if from < 0 || from >= source.len() {
        0
    } else if from + 1 < source.len() && source[from] == '*' && source[from + 1] == '/' {
        0
    } else {
        1 + comment_body(source, from + 1)
    }
}

/// The reserved words and the tokens they stand for.
pub open spec fn keyword_table() -> Map<Seq<char>, TokenTy> {
    Map::<Seq<char>, TokenTy>::empty().insert("and"@, TokenTy::And).insert(
        "class"@,
        TokenTy::Class,
    ).insert("else"@, TokenTy::Else).insert("false"@, TokenTy::False).insert(
        "for"@,
        TokenTy::For,
    ).insert("fun"@, TokenTy::Fun).insert("if"@, TokenTy::If).insert("nil"@, TokenTy::Nil).insert(
        "or"@,
        TokenTy::Or,
    ).insert("print"@, TokenTy::Print).insert("return"@, TokenTy::Return).insert(
        "super"@,
        TokenTy::Super,
    ).insert("this"@, TokenTy::This).insert("true"@, TokenTy::True).insert(
        "var"@,
        TokenTy::Var,
    ).insert("while"@, TokenTy::While)
}

/// What one step of the scanner makes of the characters at its cursor.
pub enum Lexed {
    /// A token of `len` characters.
    Token { kind: TokenType, text: Seq<char>, len: nat },
    /// White space or a comment of `len` characters.
    Skip { len: nat },
    /// A fault, found after `len` characters.
    Fault { message: Seq<char>, len: nat },
}

/// A fault found by the scanner.
pub struct LexFault {
    pub message: Seq<char>,
    pub position: Position,
}

pub open spec fn unexpected_character(c: char) -> Seq<char> {
    "Unexpected character `"@.push(c) + "`."@
}

pub open spec fn unterminated_comment() -> Seq<char> {
    "Unterminated multi-line comment. Expected `*/`"@
}

pub open spec fn unterminated_string() -> Seq<char> {
    "Unterminated string. Expected `\"`"@
}

/// Whether the character after the one at `at` is `c`.
pub open spec fn next_is(source: Seq<char>, at: int, c: char) -> bool {
    at + 1 < source.len() && source[at + 1] == c
}

/// A token without payload.
pub open spec fn symbol(kind: TokenType, len: nat) -> Lexed {
    Lexed::Token { kind, text: Seq::empty(), len }
}

/// A string literal opens at `at`: it runs to the next double quote, and its
/// payload is what stands between the two.
pub open spec fn lex_string(source: Seq<char>, at: int) -> Lexed {
    let body = run(source, at + 1, CharClass::NotQuote);
    if at + 1 + body < source.len() {
        Lexed::Token {
            kind: TokenType::String,
            text: source.subrange(at + 1, at + 1 + body),
            len: body + 2,
        }
    } else {
        Lexed::Fault { message: unterminated_string(), len: body + 1 }
    }
}

/// A block comment opens at `at`: it runs to the first `*/` behind its `/*`.
pub open spec fn lex_block_comment(source: Seq<char>, at: int) -> Lexed {
    let body = comment_body(source, at + 2);
    if at + 2 + body < source.len() {
        Lexed::Skip { len: body + 4 }
    } else {
        Lexed::Fault { message: unterminated_comment(), len: body + 2 }
    }
}

/// How many characters the number that starts at `at` has: its digits, and
/// a dot with the digits behind it where at least one digit follows the dot.
pub open spec fn number_len(source: Seq<char>, at: int) -> nat {
    let whole = 1 + run(source, at + 1, CharClass::Digit);
    if at + whole + 1 < source.len() && source[at + whole] == '.' && is_digit(
        source[at + whole + 1],
    ) {
        whole + 1 + run(source, at + whole + 1, CharClass::Digit)
    } else {
        whole
    }
}

/// A word starts at `at`: a reserved word where the table has it, else an
/// identifier that carries the word.
pub open spec fn lex_word(source: Seq<char>, at: int) -> Lexed {
    let len = 1 + run(source, at + 1, CharClass::Word);
    let word = source.subrange(at, at + len);
    if keyword_table().contains_key(word) {
        symbol(keyword_table()[word].kind(), len)
    } else {
        Lexed::Token { kind: TokenType::Identifier, text: word, len }
    }
}

/// What the scanner makes of the characters of `source` at `at`.
#[verifier::opaque]
pub open spec fn lex(source: Seq<char>, at: int) -> Lexed
    recommends
        0 <= at < source.len(),
{
    let c = source[at];
    if c == '"' {
        lex_string(source, at)
    } else if c == '(' {
        symbol(TokenType::LeftParen, 1)
    } else if c == ')' {
        symbol(TokenType::RightParen, 1)
    } else if c == '{' {
        symbol(TokenType::LeftBrace, 1)
    } else if c == '}' {
        symbol(TokenType::RightBrace, 1)
    } else if c == ',' {
        symbol(TokenType::Comma, 1)
    } else if c == '.' {
        symbol(TokenType::Dot, 1)
    } else if c == '-' {
        symbol(TokenType::Minus, 1)
    } else if c == '+' {
        symbol(TokenType::Plus, 1)
    } else if c == ';' {
        symbol(TokenType::Semicolon, 1)
    } else if c == '*' {
        symbol(TokenType::Star, 1)
    } else if c == '!' {
        if next_is(source, at, '=') {
            symbol(TokenType::BangEqual, 2)
        } else {
            symbol(TokenType::Bang, 1)
        }
    } else if c == '=' {
        if next_is(source, at, '=') {
            symbol(TokenType::EqualEqual, 2)
        } else {
            symbol(TokenType::Equal, 1)
        }
    } else if c == '<' {
        if next_is(source, at, '=') {
            symbol(TokenType::LessEqual, 2)
        } else {
            symbol(TokenType::Less, 1)
        }
    } else if c == '>' {
        if next_is(source, at, '=') {
            symbol(TokenType::GreaterEqual, 2)
        } else {
            symbol(TokenType::Greater, 1)
        }
    } else if c == '/' {
        if next_is(source, at, '/') {
            Lexed::Skip { len: 2 + run(source, at + 2, CharClass::NotNewline) }
        } else if next_is(source, at, '*') {
            lex_block_comment(source, at)
        } else {
            symbol(TokenType::Slash, 1)
        }
    } else if white_space(c) {
        Lexed::Skip { len: 1 }
    } else if is_digit(c) {
        let len = number_len(source, at);
        Lexed::Token { kind: TokenType::Number, text: source.subrange(at, at + len), len }
    } else if alphabetic(c) {
        lex_word(source, at)
    } else {
        Lexed::Fault { message: unexpected_character(c), len: 1 }
    }
}

/// The token that closes every scan: an empty one behind the last character.
pub open spec fn eof(source: Seq<char>) -> TokenView {
    TokenView {
        kind: TokenType::Eof,
        text: Seq::empty(),
        position: Position { length: 0, offset: source.len() as usize },
    }
}

/// The tokens of `source` from `at` on, or the first fault.
pub open spec fn scan_from(source: Seq<char>, at: int) -> Result<Seq<TokenView>, LexFault>
    decreases source.len() - at,
    via scan_from_decreases
{
    if at < 0 || at >= source.len() {
        Ok(seq![eof(source)])
    } else {
        match lex(source, at) {
            Lexed::Token { kind, text, len } => graft(
                seq![
                    TokenView {
                        kind,
                        text,
                        position: Position { length: len as usize, offset: at as usize },
                    },
                ],
                scan_from(source, at + len),
            ),
            Lexed::Skip { len } => scan_from(source, at + len),
            Lexed::Fault { message, len } => Err(
                LexFault {
                    message,
                    position: Position { length: 1, offset: (at + len - 1) as usize },
                },
            ),
        }
    }
}

#[via_fn]
proof fn scan_from_decreases(source: Seq<char>, at: int) {
    if 0 <= at < source.len() {
        lemma_lex_len(source, at);
    }
}

/// `rest` with `tokens` in front of what it holds.
pub open spec fn graft(tokens: Seq<TokenView>, rest: Result<Seq<TokenView>, LexFault>) -> Result<
    Seq<TokenView>,
    LexFault,
> {
    match rest {
        Ok(more) => Ok(tokens + more),
        Err(fault) => Err(fault),
    }
}

/// A token in front of what follows is a token behind what came before.
pub proof fn lemma_graft_push(
    tokens: Seq<TokenView>,
    token: TokenView,
    rest: Result<Seq<TokenView>, LexFault>,
)
    ensures
        graft(tokens, graft(seq![token], rest)) == graft(tokens.push(token), rest),
{
    if let Ok(more) = rest {
        assert(tokens + (seq![token] + more) =~= tokens.push(token) + more);
    }
}

/// The tokens of `source`, closed by one `Eof`, or its first fault.
pub open spec fn scan(source: Seq<char>) -> Result<Seq<TokenView>, LexFault> {
    scan_from(source, 0)
}

/// The tokens as plain values.
pub open spec fn views(tokens: Seq<Token>) -> Seq<TokenView> {
    tokens.map_values(|token: Token| token@)
}

/// `result` is what scanning `source`, which came from `source_file`, must
/// return.
pub open spec fn scanned(
    source: Seq<char>,
    source_file: Option<String>,
    result: Result<Vec<Token>, LoxError>,
) -> bool {
    match scan(source) {
        Ok(tokens) => result is Ok && views(result->Ok_0@) == tokens,
        Err(fault) => result is Err && result->Err_0.reports(
            LoxErrorTy::Syntax,
            fault.message,
            source,
            source_file,
            fault.position,
        ),
    }
}

/// Every lexeme has at least one character and ends inside the source.
pub proof fn lemma_lex_len(source: Seq<char>, at: int)
    requires
        0 <= at < source.len(),
    ensures
        match lex(source, at) {
            Lexed::Token { len, .. } => 1 <= len && at + len <= source.len(),
            Lexed::Skip { len } => 1 <= len && at + len <= source.len(),
            Lexed::Fault { len, .. } => 1 <= len && at + len <= source.len(),
        },
{
    reveal(lex);
    lemma_run_end(source, at + 1, CharClass::NotQuote);
    lemma_run_end(source, at + 1, CharClass::Digit);
    lemma_run_end(source, at + 1, CharClass::Word);
    lemma_comment_body_end(source, at + 2);
    if next_is(source, at, '/') {
        lemma_run_end(source, at + 2, CharClass::NotNewline);
    }
    let whole = 1 + run(source, at + 1, CharClass::Digit);
    if at + whole + 1 < source.len() {
        lemma_run_end(source, at + whole + 1, CharClass::Digit);
    }
}

/// A run ends inside the source, at a character that is not of its class.
pub proof fn lemma_run_end(source: Seq<char>, from: int, class: CharClass)
    requires
        0 <= from <= source.len(),
    ensures
        from + run(source, from, class) <= source.len(),
        from + run(source, from, class) < source.len() ==> !in_class(
            class,
            source[from + run(source, from, class)],
        ),
        forall|i: int| from <= i < from + run(source, from, class) ==> in_class(class, source[i]),
    decreases source.len() - from,
{
    if from < source.len() && in_class(class, source[from]) {
        lemma_run_end(source, from + 1, class);
    }
}

/// The body of a comment ends inside the source, and where it ends before
/// the last character, a `*/` stands there.
pub proof fn lemma_comment_body_end(source: Seq<char>, from: int)
    requires
        0 <= from,
    ensures
        from <= source.len() ==> from + comment_body(source, from) <= source.len(),
        from > source.len() ==> comment_body(source, from) == 0,
        from + comment_body(source, from) < source.len() ==> {
            &&& from + comment_body(source, from) + 1 < source.len()
            &&& source[from + comment_body(source, from)] == '*'
            &&& source[from + comment_body(source, from) + 1] == '/'
        },
    decreases source.len() - from,
{
    if from < source.len() && !(from + 1 < source.len() && source[from] == '*' && source[from + 1]
        == '/') {
        lemma_comment_body_end(source, from + 1);
    }
}

/// No reserved word stands for `Eof`.
pub proof fn lemma_lex_kind(source: Seq<char>, at: int)
    requires
        0 <= at < source.len(),
    ensures
        lex(source, at) matches Lexed::Token { kind, .. } ==> kind != TokenType::Eof,
{
    reveal(lex);
}

/// What holds of the tokens that are scanned from `at` on: one `Eof` closes
/// them, it is empty and stands behind the last character; every other
/// token has at least one character, begins at or behind `at` and ends
/// inside the source; and each token ends where or before the later ones
/// begin.
pub open spec fn well_placed(source: Seq<char>, at: int, tokens: Seq<TokenView>) -> bool {
    &&& tokens.len() >= 1
    &&& tokens.last() == eof(source)
    &&& forall|i: int|
        0 <= i < tokens.len() - 1 ==> {
            &&& (#[trigger] tokens[i]).kind != TokenType::Eof
            &&& tokens[i].position.length >= 1
            &&& at <= tokens[i].position.offset
            &&& tokens[i].position.end() <= source.len()
        }
    &&& forall|i: int, j: int|
        0 <= i < j < tokens.len() ==> (#[trigger] tokens[i]).position.end() <= (
        #[trigger] tokens[j]).position.offset
}

pub proof fn lemma_scan_from_well_placed(source: Seq<char>, at: int)
    requires
        0 <= at <= source.len() <= usize::MAX,
    ensures
        scan_from(source, at) matches Ok(tokens) ==> well_placed(source, at, tokens),
        scan_from(source, at) matches Err(fault) ==> at <= fault.position.offset < source.len()
            && fault.position.length == 1,
    decreases source.len() - at,
{
    if at < source.len() {
        lemma_lex_len(source, at);
        lemma_lex_kind(source, at);
        match lex(source, at) {
            Lexed::Token { kind, text, len } => {
                lemma_scan_from_well_placed(source, at + len);
                let token = TokenView {
                    kind,
                    text,
                    position: Position { length: len as usize, offset: at as usize },
                };
                match scan_from(source, at + len) {
                    Ok(more) => {
                        let tokens = seq![token] + more;
                        assert(tokens[0] == token);
                        assert(forall|i: int| 1 <= i < tokens.len() ==> tokens[i] == more[i - 1]);
                        assert(tokens.last() == more.last());
                        assert forall|i: int, j: int| 0 <= i < j < tokens.len() implies (
                        #[trigger] tokens[i]).position.end() <= (
                        #[trigger] tokens[j]).position.offset by {
                            assert(tokens[j] == more[j - 1]);
                            if i > 0 {
                                assert(tokens[i] == more[i - 1]);
                            }
                        }
                    },
                    Err(_) => {},
                }
            },
            Lexed::Skip { len } => {
                lemma_scan_from_well_placed(source, at + len);
            },
            Lexed::Fault { .. } => {},
        }
    }
}

/// Every successful scan ends with exactly one `Eof`, an empty token behind
/// the last character of the source; the tokens before it stand in order
/// inside the source. A fault points at one character of the source.
pub proof fn scan_ends_with_one_eof(source: Seq<char>)
    requires
        source.len() <= usize::MAX,
    ensures
        scan(source) matches Ok(tokens) ==> {
            &&& tokens.len() >= 1
            &&& tokens.last().kind == TokenType::Eof
            &&& tokens.last().position.offset == source.len()
            &&& tokens.last().position.length == 0
            &&& forall|i: int| 0 <= i < tokens.len() - 1 ==> (#[trigger] tokens[i]).kind != TokenType::Eof
            &&& well_placed(source, 0, tokens)
        },
        scan(source) matches Err(fault) ==> fault.position.within(source.len()),
{
    lemma_scan_from_well_placed(source, 0);
}

/// A run of characters that are all of one class reaches as far as they do.
pub proof fn lemma_run_covers(source: Seq<char>, from: int, to: int, class: CharClass)
    requires
        0 <= from <= to <= source.len(),
        forall|i: int| from <= i < to ==> in_class(class, #[trigger] source[i]),
    ensures
        run(source, from, class) >= to - from,
    decreases to - from,
{
    if from < to {
        lemma_run_covers(source, from + 1, to, class);
    }
}

/// A string literal that is never closed is a fault: where a double quote
/// stands at `at` and none behind it, scanning from `at` on yields no
/// tokens but the fault of an unterminated string, at the last character of
/// the source.
pub proof fn unterminated_string_is_a_fault(source: Seq<char>, at: int)
    requires
        0 <= at < source.len(),
        source[at] == '"',
        forall|i: int| at < i < source.len() ==> #[trigger] source[i] != '"',
    ensures
        scan_from(source, at) == Err::<Seq<TokenView>, LexFault>(
            LexFault {
                message: unterminated_string(),
                position: Position { length: 1, offset: (source.len() - 1) as usize },
            },
        ),
{
    reveal(lex);
    lemma_run_covers(source, at + 1, source.len() as int, CharClass::NotQuote);
    lemma_run_end(source, at + 1, CharClass::NotQuote);
}

/// A source that opens a string with its first character and never closes
/// it does not scan.
pub proof fn unterminated_string_does_not_scan(source: Seq<char>)
    requires
        source.len() >= 1,
        source[0] == '"',
        forall|i: int| 0 < i < source.len() ==> #[trigger] source[i] != '"',
    ensures
        scan(source) is Err,
        scan(source)->Err_0.message == unterminated_string(),
{
    unterminated_string_is_a_fault(source, 0);
}

/// Scanning is a function of the source text: two scans of the same text,
/// from the same file, return the same tokens or the same error.
pub proof fn scan_is_deterministic(
    source: Seq<char>,
    source_file: Option<String>,
    first: Result<Vec<Token>, LoxError>,
    second: Result<Vec<Token>, LoxError>,
)
    requires
        scanned(source, source_file, first),
        scanned(source, source_file, second),
    ensures
        first is Ok <==> second is Ok,
        first is Ok ==> views(first->Ok_0@) == views(second->Ok_0@),
        first is Err ==> {
            &&& first->Err_0.ty == second->Err_0.ty
            &&& first->Err_0.message@ == second->Err_0.message@
            &&& first->Err_0.source@ == second->Err_0.source@
            &&& first->Err_0.source_file == second->Err_0.source_file
            &&& first->Err_0.position == second->Err_0.position
        },
{
}

/// Scans source text into tokens.
pub struct Scanner {
    tokens: Vec<Token>,
    keywords: StringHashMap<TokenTy>,
    source: String,
    chars: Vec<char>,
    pub source_file: Option<String>,
    curr: usize,
    prev: usize,
}

impl Scanner {
    /// The scanner holds its source character by character and knows the
    /// reserved words.
    pub closed spec fn wf(&self) -> bool {
        &&& self.chars@ == self.source@
        &&& self.keywords@ == keyword_table()
    }

    /// The text that this scanner scans.
    pub closed spec fn source_text(&self) -> Seq<char> {
        self.source@
    }

    /// The name of the file that the text came from, as `source_file` holds
    /// it.
    pub closed spec fn file(&self) -> Option<String> {
        self.source_file
    }

    /// `self` scans the same text with the same table as `before` did, and
    /// has the same start of lexeme.
    spec fn follows(&self, before: &Scanner) -> bool {
        &&& self.chars == before.chars
        &&& self.source == before.source
        &&& self.keywords == before.keywords
        &&& self.source_file == before.source_file
        &&& self.prev == before.prev
    }

    /// `self` is `before` after the step `lexed`, which began at the start
    /// of lexeme of `before` and ended as `result` says.
    spec fn stepped(&self, before: &Scanner, lexed: Lexed, result: Result<(), String>) -> bool {
        &&& self.follows(before)
        &&& match lexed {
            Lexed::Token { kind, text, len } => {
                &&& result is Ok
                &&& self.curr == before.prev + len
                &&& views(self.tokens@) == views(before.tokens@).push(
                    TokenView {
                        kind,
                        text,
                        position: Position { length: len as usize, offset: before.prev },
                    },
                )
            },
            Lexed::Skip { len } => {
                &&& result is Ok
                &&& self.curr == before.prev + len
                &&& self.tokens == before.tokens
            },
            Lexed::Fault { message, len } => {
                &&& result is Err
                &&& result->Err_0@ == message
                &&& self.curr == before.prev + len
                &&& self.tokens == before.tokens
            },
        }
    }

    pub fn new(source: &str) -> (scanner: Scanner)
        ensures
            scanner.wf(),
            scanner.source_text() == source@,
            scanner.file() is None,
    {
        let mut keywords: StringHashMap<TokenTy> = StringHashMap::new();
        keywords.insert("and".to_owned(), TokenTy::And);
        keywords.insert("class".to_owned(), TokenTy::Class);
        keywords.insert("else".to_owned(), TokenTy::Else);
        keywords.insert("false".to_owned(), TokenTy::False);
        keywords.insert("for".to_owned(), TokenTy::For);
        keywords.insert("fun".to_owned(), TokenTy::Fun);
        keywords.insert("if".to_owned(), TokenTy::If);
        keywords.insert("nil".to_owned(), TokenTy::Nil);
        keywords.insert("or".to_owned(), TokenTy::Or);
        keywords.insert("print".to_owned(), TokenTy::Print);
        keywords.insert("return".to_owned(), TokenTy::Return);
        keywords.insert("super".to_owned(), TokenTy::Super);
        keywords.insert("this".to_owned(), TokenTy::This);
        keywords.insert("true".to_owned(), TokenTy::True);
        keywords.insert("var".to_owned(), TokenTy::Var);
        keywords.insert("while".to_owned(), TokenTy::While);

        Scanner {
            source: source.to_owned(),
            chars: chars_of(source),
            source_file: None,
            keywords,
            tokens: Vec::new(),
            curr: 0,
            prev: 0,
        }
    }

    /// Scans the whole source from its first character, whatever was scanned
    /// before, and hands the tokens over.
    pub fn scan_tokens(&mut self) -> (result: Result<Vec<Token>, LoxError>)
        requires
            old(self).wf(),
        ensures
            final(self).wf(),
            final(self).source_text() == old(self).source_text(),
            final(self).file() == old(self).file(),
            scanned(old(self).source_text(), old(self).file(), result),
            result matches Ok(tokens) ==> well_placed(old(self).source_text(), 0, views(tokens@)),
            result matches Err(error) ==> error.position.within(old(self).source_text().len()),
    {
        proof {
            assert(self.chars@.len() == self.chars.len());
            lemma_scan_from_well_placed(self.chars@, 0);
        }
        self.tokens = Vec::new();
        self.curr = 0;
        self.prev = 0;

        while !self.at_end()
            invariant
                self.wf(),
                self.chars == old(self).chars,
                self.source == old(self).source,
                self.source_file == old(self).source_file,
                self.curr <= self.chars.len(),
                scan(self.chars@) == graft(views(self.tokens@), scan_from(self.chars@, self.curr as int)),
            decreases self.chars.len() - self.curr,
        {
            proof {
                lemma_lex_len(self.chars@, self.curr as int);
            }
            let ghost before = views(self.tokens@);
            let ghost at = self.curr as int;
            match self.scan_token() {
                Ok(()) => {
                    proof {
                        if let Lexed::Token { kind, text, len } = lex(self.chars@, at) {
                            lemma_graft_push(
                                before,
                                TokenView {
                                    kind,
                                    text,
                                    position: Position { length: len as usize, offset: at as usize },
                                },
                                scan_from(self.chars@, self.curr as int),
                            );
                        }
                    }
                },
                Err(message) => {
                    return Err(
                        LoxError::new(
                            LoxErrorTy::Syntax,
                            message.as_str(),
                            self.source.as_str(),
                            &self.source_file,
                            Position::new(1, self.curr - 1),
                        ),
                    );
                },
            }
        }

        let ghost found = views(self.tokens@);
        self.prev = self.curr;
        self.push_token(TokenTy::Eof);
        let mut tokens: Vec<Token> = Vec::new();
        std::mem::swap(&mut self.tokens, &mut tokens);
        proof {
            assert(views(tokens@) == found.push(eof(self.chars@)));
            assert(found.push(eof(self.chars@)) =~= found + seq![eof(self.chars@)]);
        }
        Ok(tokens)
    }

    /// Scans the lexeme at the cursor.
    fn scan_token(&mut self) -> (result: Result<(), String>)
        requires
            old(self).wf(),
            old(self).curr < old(self).chars.len(),
        ensures
            final(self).wf(),
            final(self).chars == old(self).chars,
            final(self).source == old(self).source,
            final(self).keywords == old(self).keywords,
            final(self).source_file == old(self).source_file,
            match lex(old(self).chars@, old(self).curr as int) {
                Lexed::Token { kind, text, len } => {
                    &&& result is Ok
                    &&& final(self).curr == old(self).curr + len
                    &&& views(final(self).tokens@) == views(old(self).tokens@).push(
                        TokenView {
                            kind,
                            text,
                            position: Position { length: len as usize, offset: old(self).curr },
                        },
                    )
                },
                Lexed::Skip { len } => {
                    &&& result is Ok
                    &&& final(self).curr == old(self).curr + len
                    &&& final(self).tokens == old(self).tokens
                },
                Lexed::Fault { message, len } => {
                    &&& result is Err
                    &&& result->Err_0@ == message
                    &&& final(self).curr == old(self).curr + len
                    &&& final(self).tokens == old(self).tokens
                },
            },
    {
        proof {
            reveal(lex);
        }
        self.prev = self.curr;
        let c = self.next();
        if c == '"' {
            self.scan_string()
        } else if c == '(' {
            self.push_token(TokenTy::LeftParen);
            Ok(())
        } else if c == ')' {
            self.push_token(TokenTy::RightParen);
            Ok(())
        } else if c == '{' {
            self.push_token(TokenTy::LeftBrace);
            Ok(())
        } else if c == '}' {
            self.push_token(TokenTy::RightBrace);
            Ok(())
        } else if c == ',' {
            self.push_token(TokenTy::Comma);
            Ok(())
        } else if c == '.' {
            self.push_token(TokenTy::Dot);
            Ok(())
        } else if c == '-' {
            self.push_token(TokenTy::Minus);
            Ok(())
        } else if c == '+' {
            self.push_token(TokenTy::Plus);
            Ok(())
        } else if c == ';' {
            self.push_token(TokenTy::Semicolon);
            Ok(())
        } else if c == '*' {
            self.push_token(TokenTy::Star);
            Ok(())
        } else if c == '!' {
            if self.next_eq('=') {
                self.push_token(TokenTy::BangEqual);
            } else {
                self.push_token(TokenTy::Bang);
            }
            Ok(())
        } else if c == '=' {
            if self.next_eq('=') {
                self.push_token(TokenTy::EqualEqual);
            } else {
                self.push_token(TokenTy::Equal);
            }
            Ok(())
        } else if c == '<' {
            if self.next_eq('=') {
                self.push_token(TokenTy::LessEqual);
            } else {
                self.push_token(TokenTy::Less);
            }
            Ok(())
        } else if c == '>' {
            if self.next_eq('=') {
                self.push_token(TokenTy::GreaterEqual);
            } else {
                self.push_token(TokenTy::Greater);
            }
            Ok(())
        } else if c == '/' {
            if self.next_eq('/') {
                self.scan_single_line_comment();
                Ok(())
            } else if self.next_eq('*') {
                self.scan_multi_line_comment()
            } else {
                self.push_token(TokenTy::Slash);
                Ok(())
            }
        } else if c.is_whitespace() {
            Ok(())
        } else if char_is_digit(c) {
            self.scan_number();
            Ok(())
        } else if c.is_alphabetic() {
            self.scan_identifier();
            Ok(())
        } else {
            let mut message = "Unexpected character `".to_owned();
            message.push(c);
            message.append("`.");
            Err(message)
        }
    }

    /// Passes over a line comment, up to the line feed that ends it.
    fn scan_single_line_comment(&mut self)
        requires
            old(self).wf(),
            old(self).curr <= old(self).chars.len(),
        ensures
            final(self).wf(),
            final(self).follows(old(self)),
            final(self).tokens == old(self).tokens,
            final(self).curr == old(self).curr + run(
                old(self).chars@,
                old(self).curr as int,
                CharClass::NotNewline,
            ),
            final(self).curr <= final(self).chars.len(),
    {
        self.skip_run(CharClass::NotNewline);
    }

    /// Passes over a block comment whose `/*` has been read.
    fn scan_multi_line_comment(&mut self) -> (result: Result<(), String>)
        requires
            old(self).wf(),
            old(self).curr == old(self).prev + 2,
            old(self).curr <= old(self).chars.len(),
        ensures
            final(self).wf(),
            final(self).stepped(
                old(self),
                lex_block_comment(old(self).chars@, old(self).prev as int),
                result,
            ),
    {
        while self.curr < self.chars.len() && !(self.peek_eq('*') && self.peek_next_eq('/'))
            invariant
                self.wf(),
                self.follows(old(self)),
                self.tokens == old(self).tokens,
                old(self).curr <= self.curr <= self.chars.len(),
                old(self).curr + comment_body(self.chars@, old(self).curr as int) == self.curr
                    + comment_body(self.chars@, self.curr as int),
            decreases self.chars.len() - self.curr,
        {
            self.curr += 1;
        }
        proof {
            lemma_comment_body_end(self.chars@, self.curr as int);
        }

        if self.next_eq('*') && self.next_eq('/') {
            Ok(())
        } else {
            Err("Unterminated multi-line comment. Expected `*/`".to_owned())
        }
    }

    /// Scans a string literal whose opening quote has been read.
    fn scan_string(&mut self) -> (result: Result<(), String>)
        requires
            old(self).wf(),
            old(self).curr == old(self).prev + 1,
            old(self).curr <= old(self).chars.len(),
        ensures
            final(self).wf(),
            final(self).stepped(old(self), lex_string(old(self).chars@, old(self).prev as int), result),
    {
        self.skip_run(CharClass::NotQuote);
        proof {
            lemma_run_end(self.chars@, old(self).curr as int, CharClass::NotQuote);
        }

        if !self.next_eq('"') {
            return Err("Unterminated string. Expected `\"`".to_owned());
        }
        let value = string_of(&self.chars, self.prev + 1, self.curr - 1);
        self.push_token(TokenTy::String(value));
        Ok(())
    }

    /// Scans a number whose first digit has been read.
    fn scan_number(&mut self)
        requires
            old(self).wf(),
            old(self).curr == old(self).prev + 1,
            old(self).curr <= old(self).chars.len(),
        ensures
            final(self).wf(),
            final(self).stepped(
                old(self),
                Lexed::Token {
                    kind: TokenType::Number,
                    text: old(self).chars@.subrange(
                        old(self).prev as int,
                        old(self).prev + number_len(old(self).chars@, old(self).prev as int),
                    ),
                    len: number_len(old(self).chars@, old(self).prev as int),
                },
                Ok(()),
            ),
    {
        self.skip_run(CharClass::Digit);
        proof {
            lemma_run_end(self.chars@, old(self).curr as int, CharClass::Digit);
        }

        if self.peek_eq('.') && self.peek_next_is_digit() {
            self.curr += 1;
            let ghost fraction = self.curr as int;
            self.skip_run(CharClass::Digit);
            proof {
                lemma_run_end(self.chars@, fraction, CharClass::Digit);
            }
        }
        let value = string_of(&self.chars, self.prev, self.curr);
        self.push_token(TokenTy::Number(value));
    }

    /// Scans a word whose first letter has been read.
    fn scan_identifier(&mut self)
        requires
            old(self).wf(),
            old(self).curr == old(self).prev + 1,
            old(self).curr <= old(self).chars.len(),
        ensures
            final(self).wf(),
            final(self).stepped(old(self), lex_word(old(self).chars@, old(self).prev as int), Ok(())),
    {
        self.skip_run(CharClass::Word);
        proof {
            lemma_run_end(self.chars@, old(self).curr as int, CharClass::Word);
        }

        let value = string_of(&self.chars, self.prev, self.curr);
        let token = match self.keywords.get(value.as_str()) {
            Some(ty) => ty.clone(),
            None => TokenTy::Identifier(value),
        };
        self.push_token(token);
    }

    /// Adds a token that spans the current lexeme; `Eof` is empty and
    /// stands behind the last character.
    fn push_token(&mut self, ty: TokenTy)
        requires
            old(self).prev <= old(self).curr,
        ensures
            final(self).follows(old(self)),
            final(self).curr == old(self).curr,
            final(self).tokens@ == old(self).tokens@.push(
                Token {
                    ty,
                    position: if ty is Eof {
                        Position { length: 0, offset: old(self).chars.len() }
                    } else {
                        Position {
                            length: (old(self).curr - old(self).prev) as usize,
                            offset: old(self).prev,
                        }
                    },
                },
            ),
            views(final(self).tokens@) == views(old(self).tokens@).push(
                Token {
                    ty,
                    position: if ty is Eof {
                        Position { length: 0, offset: old(self).chars.len() }
                    } else {
                        Position {
                            length: (old(self).curr - old(self).prev) as usize,
                            offset: old(self).prev,
                        }
                    },
                }@,
            ),
    {
        let (length, offset) = match ty {
            TokenTy::Eof => (0, self.chars.len()),
            _ => {
                let length = self.curr - self.prev;
                let offset = self.curr - length;
                (length, offset)
            },
        };

        self.tokens.push(Token::new(ty, Position::new(length, offset)));
        proof {
            assert(views(self.tokens@) =~= views(old(self).tokens@).push(
                self.tokens@[self.tokens@.len() - 1]@,
            ));
        }
    }

    fn at_end(&self) -> (end: bool)
        ensures
            end == (self.curr >= self.chars.len()),
    {
        self.curr >= self.chars.len()
    }

    /// Reads the character at the cursor.
    fn next(&mut self) -> (c: char)
        requires
            old(self).curr < old(self).chars.len(),
        ensures
            final(self).follows(old(self)),
            final(self).tokens == old(self).tokens,
            final(self).curr == old(self).curr + 1,
            c == old(self).chars@[old(self).curr as int],
    {
        self.curr += 1;
        self.chars[self.curr - 1]
    }

    /// Reads the character at the cursor where it is `c`.
    fn next_eq(&mut self, c: char) -> (read: bool)
        requires
            old(self).curr <= old(self).chars.len(),
        ensures
            final(self).follows(old(self)),
            final(self).tokens == old(self).tokens,
            read == (old(self).curr < old(self).chars.len() && old(self).chars@[old(
                self,
            ).curr as int] == c),
            final(self).curr == if read {
                old(self).curr + 1
            } else {
                old(self).curr as int
            },
    {
        if self.peek_eq(c) {
            self.curr += 1;
            true
        } else {
            false
        }
    }

    fn peek_eq(&self, c: char) -> (same: bool)
        ensures
            same == (self.curr < self.chars.len() && self.chars@[self.curr as int] == c),
    {
        self.curr < self.chars.len() && self.chars[self.curr] == c
    }

    fn peek_next_eq(&self, c: char) -> (same: bool)
        requires
            self.curr < self.chars.len(),
        ensures
            same == (self.curr + 1 < self.chars.len() && self.chars@[self.curr + 1] == c),
    {
        self.curr + 1 < self.chars.len() && self.chars[self.curr + 1] == c
    }

    fn peek_next_is_digit(&self) -> (digit: bool)
        requires
            self.curr < self.chars.len(),
        ensures
            digit == (self.curr + 1 < self.chars.len() && is_digit(self.chars@[self.curr + 1])),
    {
        self.curr + 1 < self.chars.len() && char_is_digit(self.chars[self.curr + 1])
    }

    /// Passes over the characters of `class` that stand at the cursor.
    fn skip_run(&mut self, class: CharClass)
        requires
            old(self).curr <= old(self).chars.len(),
        ensures
            final(self).follows(old(self)),
            final(self).tokens == old(self).tokens,
            final(self).curr == old(self).curr + run(old(self).chars@, old(self).curr as int, class),
            final(self).curr <= final(self).chars.len(),
    {
        while self.curr < self.chars.len() && holds(class, self.chars[self.curr])
            invariant
                self.follows(old(self)),
                self.tokens == old(self).tokens,
                old(self).curr <= self.curr <= self.chars.len(),
                old(self).curr + run(self.chars@, old(self).curr as int, class) == self.curr + run(
                    self.chars@,
                    self.curr as int,
                    class,
                ),
            decreases self.chars.len() - self.curr,
        {
            self.curr += 1;
        }
    }
}

/// Whether `c` is of `class`.
fn holds(class: CharClass, c: char) -> (r: bool)
    ensures
        r == in_class(class, c),
{
    match class {
        CharClass::Digit => char_is_digit(c),
        CharClass::Word => c.is_alphanumeric() || c == '_',
        CharClass::NotNewline => c != '\n',
        CharClass::NotQuote => c != '"',
    }
}

} // verus!
