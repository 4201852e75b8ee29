use vstd::prelude::*;

verus! {

/// A constant of the language. A number is held as it is written: digits,
/// optionally a dot and more digits.
#[derive(Debug, PartialEq)]
pub enum Literal {
    Number(String),
    String(String),
    Boolean(bool),
    Nil,
}

} // verus!
