use crate::syntax::position::Position;
use crate::text::{debug_quoted, quoted};
use vstd::prelude::*;
use vstd::string::StringExecFns;

verus! {

/// The kind of a token, without what an identifier, a string or a number
/// carries.
#[derive(Clone, Copy, Debug, PartialEq, Eq, Structural)]
pub enum TokenType {
    LeftParen,
    RightParen,
    LeftBrace,
    RightBrace,
    Comma,
    Dot,
    Minus,
    Plus,
    Semicolon,
    Slash,
    Star,
    Bang,
    BangEqual,
    Equal,
    EqualEqual,
    Greater,
    GreaterEqual,
    Less,
    LessEqual,
    Identifier,
    String,
    Number,
    And,
    Class,
    Else,
    False,
    Fun,
    For,
    If,
    Nil,
    Or,
    Print,
    Return,
    Super,
    This,
    True,
    Var,
    While,
    Eof,
}

/// A token's kind together with its payload: the name of an identifier, the
/// contents of a string literal, or a number as it is written (digits,
/// optionally a dot and more digits).
#[derive(Debug, PartialEq)]
pub enum TokenTy {
    LeftParen,
    RightParen,
    LeftBrace,
    RightBrace,
    Comma,
    Dot,
    Minus,
    Plus,
    Semicolon,
    Slash,
    Star,
    Bang,
    BangEqual,
    Equal,
    EqualEqual,
    Greater,
    GreaterEqual,
    Less,
    LessEqual,
    Identifier(String),
    String(String),
    Number(String),
    And,
    Class,
    Else,
    False,
    Fun,
    For,
    If,
    Nil,
    Or,
    Print,
    Return,
    Super,
    This,
    True,
    Var,
    While,
    Eof,
}

impl TokenTy {
    /// The kind of this token.
    pub open spec fn kind(self) -> TokenType {
        match self {
            TokenTy::LeftParen => TokenType::LeftParen,
            TokenTy::RightParen => TokenType::RightParen,
            TokenTy::LeftBrace => TokenType::LeftBrace,
            TokenTy::RightBrace => TokenType::RightBrace,
            TokenTy::Comma => TokenType::Comma,
            TokenTy::Dot => TokenType::Dot,
            TokenTy::Minus => TokenType::Minus,
            TokenTy::Plus => TokenType::Plus,
            TokenTy::Semicolon => TokenType::Semicolon,
            TokenTy::Slash => TokenType::Slash,
            TokenTy::Star => TokenType::Star,
            TokenTy::Bang => TokenType::Bang,
            TokenTy::BangEqual => TokenType::BangEqual,
            TokenTy::Equal => TokenType::Equal,
            TokenTy::EqualEqual => TokenType::EqualEqual,
            TokenTy::Greater => TokenType::Greater,
            TokenTy::GreaterEqual => TokenType::GreaterEqual,
            TokenTy::Less => TokenType::Less,
            TokenTy::LessEqual => TokenType::LessEqual,
            TokenTy::Identifier(_) => TokenType::Identifier,
            TokenTy::String(_) => TokenType::String,
            TokenTy::Number(_) => TokenType::Number,
            TokenTy::And => TokenType::And,
            TokenTy::Class => TokenType::Class,
            TokenTy::Else => TokenType::Else,
            TokenTy::False => TokenType::False,
            TokenTy::Fun => TokenType::Fun,
            TokenTy::For => TokenType::For,
            TokenTy::If => TokenType::If,
            TokenTy::Nil => TokenType::Nil,
            TokenTy::Or => TokenType::Or,
            TokenTy::Print => TokenType::Print,
            TokenTy::Return => TokenType::Return,
            TokenTy::Super => TokenType::Super,
            TokenTy::This => TokenType::This,
            TokenTy::True => TokenType::True,
            TokenTy::Var => TokenType::Var,
            TokenTy::While => TokenType::While,
            TokenTy::Eof => TokenType::Eof,
        }
    }

    /// The payload of this token; empty where the kind carries none.
    pub open spec fn text(self) -> Seq<char> {
        match self {
            TokenTy::Identifier(name) => name@,
            TokenTy::String(contents) => contents@,
            TokenTy::Number(numeral) => numeral@,
            _ => Seq::empty(),
        }
    }

    pub fn token_type(&self) -> (kind: TokenType)
        ensures
            kind == self.kind(),
    {
        match self {
            TokenTy::LeftParen => TokenType::LeftParen,
            TokenTy::RightParen => TokenType::RightParen,
            TokenTy::LeftBrace => TokenType::LeftBrace,
            TokenTy::RightBrace => TokenType::RightBrace,
            TokenTy::Comma => TokenType::Comma,
            TokenTy::Dot => TokenType::Dot,
            TokenTy::Minus => TokenType::Minus,
            TokenTy::Plus => TokenType::Plus,
            TokenTy::Semicolon => TokenType::Semicolon,
            TokenTy::Slash => TokenType::Slash,
            TokenTy::Star => TokenType::Star,
            TokenTy::Bang => TokenType::Bang,
            TokenTy::BangEqual => TokenType::BangEqual,
            TokenTy::Equal => TokenType::Equal,
            TokenTy::EqualEqual => TokenType::EqualEqual,
            TokenTy::Greater => TokenType::Greater,
            TokenTy::GreaterEqual => TokenType::GreaterEqual,
            TokenTy::Less => TokenType::Less,
            TokenTy::LessEqual => TokenType::LessEqual,
            TokenTy::Identifier(_) => TokenType::Identifier,
            TokenTy::String(_) => TokenType::String,
            TokenTy::Number(_) => TokenType::Number,
            TokenTy::And => TokenType::And,
            TokenTy::Class => TokenType::Class,
            TokenTy::Else => TokenType::Else,
            TokenTy::False => TokenType::False,
            TokenTy::Fun => TokenType::Fun,
            TokenTy::For => TokenType::For,
            TokenTy::If => TokenType::If,
            TokenTy::Nil => TokenType::Nil,
            TokenTy::Or => TokenType::Or,
            TokenTy::Print => TokenType::Print,
            TokenTy::Return => TokenType::Return,
            TokenTy::Super => TokenType::Super,
            TokenTy::This => TokenType::This,
            TokenTy::True => TokenType::True,
            TokenTy::Var => TokenType::Var,
            TokenTy::While => TokenType::While,
            TokenTy::Eof => TokenType::Eof,
        }
    }
}

impl Clone for TokenTy {
    fn clone(&self) -> (copy: Self)
        ensures
            copy == *self,
    {
        match self {
            TokenTy::LeftParen => TokenTy::LeftParen,
            TokenTy::RightParen => TokenTy::RightParen,
            TokenTy::LeftBrace => TokenTy::LeftBrace,
            TokenTy::RightBrace => TokenTy::RightBrace,
            TokenTy::Comma => TokenTy::Comma,
            TokenTy::Dot => TokenTy::Dot,
            TokenTy::Minus => TokenTy::Minus,
            TokenTy::Plus => TokenTy::Plus,
            TokenTy::Semicolon => TokenTy::Semicolon,
            TokenTy::Slash => TokenTy::Slash,
            TokenTy::Star => TokenTy::Star,
            TokenTy::Bang => TokenTy::Bang,
            TokenTy::BangEqual => TokenTy::BangEqual,
            TokenTy::Equal => TokenTy::Equal,
            TokenTy::EqualEqual => TokenTy::EqualEqual,
            TokenTy::Greater => TokenTy::Greater,
            TokenTy::GreaterEqual => TokenTy::GreaterEqual,
            TokenTy::Less => TokenTy::Less,
            TokenTy::LessEqual => TokenTy::LessEqual,
            TokenTy::Identifier(text) => TokenTy::Identifier(text.clone()),
            TokenTy::String(text) => TokenTy::String(text.clone()),
            TokenTy::Number(text) => TokenTy::Number(text.clone()),
            TokenTy::And => TokenTy::And,
            TokenTy::Class => TokenTy::Class,
            TokenTy::Else => TokenTy::Else,
            TokenTy::False => TokenTy::False,
            TokenTy::Fun => TokenTy::Fun,
            TokenTy::For => TokenTy::For,
            TokenTy::If => TokenTy::If,
            TokenTy::Nil => TokenTy::Nil,
            TokenTy::Or => TokenTy::Or,
            TokenTy::Print => TokenTy::Print,
            TokenTy::Return => TokenTy::Return,
            TokenTy::Super => TokenTy::Super,
            TokenTy::This => TokenTy::This,
            TokenTy::True => TokenTy::True,
            TokenTy::Var => TokenTy::Var,
            TokenTy::While => TokenTy::While,
            TokenTy::Eof => TokenTy::Eof,
        }
    }
}

/// The name of a kind, as it is spelled in `TokenType`.
pub open spec fn kind_name(kind: TokenType) -> Seq<char> {
    match kind {
        TokenType::LeftParen => "LeftParen"@,
        TokenType::RightParen => "RightParen"@,
        TokenType::LeftBrace => "LeftBrace"@,
        TokenType::RightBrace => "RightBrace"@,
        TokenType::Comma => "Comma"@,
        TokenType::Dot => "Dot"@,
        TokenType::Minus => "Minus"@,
        TokenType::Plus => "Plus"@,
        TokenType::Semicolon => "Semicolon"@,
        TokenType::Slash => "Slash"@,
        TokenType::Star => "Star"@,
        TokenType::Bang => "Bang"@,
        TokenType::BangEqual => "BangEqual"@,
        TokenType::Equal => "Equal"@,
        TokenType::EqualEqual => "EqualEqual"@,
        TokenType::Greater => "Greater"@,
        TokenType::GreaterEqual => "GreaterEqual"@,
        TokenType::Less => "Less"@,
        TokenType::LessEqual => "LessEqual"@,
        TokenType::Identifier => "Identifier"@,
        TokenType::String => "String"@,
        TokenType::Number => "Number"@,
        TokenType::And => "And"@,
        TokenType::Class => "Class"@,
        TokenType::Else => "Else"@,
        TokenType::False => "False"@,
        TokenType::Fun => "Fun"@,
        TokenType::For => "For"@,
        TokenType::If => "If"@,
        TokenType::Nil => "Nil"@,
        TokenType::Or => "Or"@,
        TokenType::Print => "Print"@,
        TokenType::Return => "Return"@,
        TokenType::Super => "Super"@,
        TokenType::This => "This"@,
        TokenType::True => "True"@,
        TokenType::Var => "Var"@,
        TokenType::While => "While"@,
        TokenType::Eof => "Eof"@,
    }
}

/// How a token is shown: `-`, `+`, `(`, `)` and `*` as themselves, every
/// other kind by its name, a payload in parentheses behind it (names and
/// strings quoted, numbers as written).
pub open spec fn shown(ty: TokenTy) -> Seq<char> {
    match ty {
        TokenTy::Minus => "-"@,
        TokenTy::Plus => "+"@,
        TokenTy::LeftParen => "("@,
        TokenTy::RightParen => ")"@,
        TokenTy::Star => "*"@,
        TokenTy::Identifier(name) => "Identifier("@ + debug_quoted(name@) + ")"@,
        TokenTy::String(contents) => "String("@ + debug_quoted(contents@) + ")"@,
        TokenTy::Number(numeral) => "Number("@ + numeral@ + ")"@,
        _ => kind_name(ty.kind()),
    }
}

fn name_of(kind: TokenType) -> (name: &'static str)
    ensures
        name@ == kind_name(kind),
{
    match kind {
        TokenType::LeftParen => "LeftParen",
        TokenType::RightParen => "RightParen",
        TokenType::LeftBrace => "LeftBrace",
        TokenType::RightBrace => "RightBrace",
        TokenType::Comma => "Comma",
        TokenType::Dot => "Dot",
        TokenType::Minus => "Minus",
        TokenType::Plus => "Plus",
        TokenType::Semicolon => "Semicolon",
        TokenType::Slash => "Slash",
        TokenType::Star => "Star",
        TokenType::Bang => "Bang",
        TokenType::BangEqual => "BangEqual",
        TokenType::Equal => "Equal",
        TokenType::EqualEqual => "EqualEqual",
        TokenType::Greater => "Greater",
        TokenType::GreaterEqual => "GreaterEqual",
        TokenType::Less => "Less",
        TokenType::LessEqual => "LessEqual",
        TokenType::Identifier => "Identifier",
        TokenType::String => "String",
        TokenType::Number => "Number",
        TokenType::And => "And",
        TokenType::Class => "Class",
        TokenType::Else => "Else",
        TokenType::False => "False",
        TokenType::Fun => "Fun",
        TokenType::For => "For",
        TokenType::If => "If",
        TokenType::Nil => "Nil",
        TokenType::Or => "Or",
        TokenType::Print => "Print",
        TokenType::Return => "Return",
        TokenType::Super => "Super",
        TokenType::This => "This",
        TokenType::True => "True",
        TokenType::Var => "Var",
        TokenType::While => "While",
        TokenType::Eof => "Eof",
    }
}

/// A classified lexeme: what it is and where it stands in the source.
#[derive(Debug, PartialEq)]
pub struct Token {
    pub ty: TokenTy,
    pub position: Position,
}

/// A token as a plain value.
pub struct TokenView {
    pub kind: TokenType,
    pub text: Seq<char>,
    pub position: Position,
}

impl View for Token {
    type V = TokenView;

    open spec fn view(&self) -> TokenView {
        TokenView { kind: self.ty.kind(), text: self.ty.text(), position: self.position }
    }
}

impl Clone for Token {
    fn clone(&self) -> (copy: Self)
        ensures
            copy == *self,
    {
        Token { ty: self.ty.clone(), position: self.position }
    }
}

impl Token {
    pub fn new(ty: TokenTy, position: Position) -> (token: Token)
        ensures
            token.ty == ty,
            token.position == position,
    {
        Token { ty, position }
    }

    pub fn to_string(&self) -> (text: String)
        ensures
            text@ == shown(self.ty),
    {
        match &self.ty {
            TokenTy::Minus => "-".to_owned(),
            TokenTy::Plus => "+".to_owned(),
            TokenTy::LeftParen => "(".to_owned(),
            TokenTy::RightParen => ")".to_owned(),
            TokenTy::Star => "*".to_owned(),
            TokenTy::Identifier(name) => {
                let mut text = "Identifier(".to_owned();
                text.append(quoted(name.as_str()).as_str());
                text.append(")");
                text
            },
            TokenTy::String(contents) => {
                let mut text = "String(".to_owned();
                text.append(quoted(contents.as_str()).as_str());
                text.append(")");
                text
            },
            TokenTy::Number(numeral) => {
                let mut text = "Number(".to_owned();
                text.append(numeral.as_str());
                text.append(")");
                text
            },
            other => name_of(other.token_type()).to_owned(),
        }
    }
}

} // verus!
