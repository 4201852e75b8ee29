use crate::lox::paint::{paint, tinted, Tint};
use vstd::prelude::*;
use vstd::string::StringExecFns;

verus! {

/// What went wrong while an expression was evaluated.
#[derive(Debug, PartialEq)]
pub struct RuntimeError {
    pub message: String,
}

impl RuntimeError {
    pub fn new(message: &str) -> (error: RuntimeError)
        ensures
            error.message@ == message@,
    {
        RuntimeError { message: message.to_owned() }
    }

    /// Shows this error: the heading `RuntimeError` in red, as far as
    /// painting is enabled, a colon and the message.
    pub fn to_string(&self) -> (text: String)
        ensures
            exists|heading: Seq<char>| #[trigger]
                tinted(Tint::Red, "RuntimeError"@, heading) && text@ == heading + ": "@
                    + self.message@,
    {
        let mut text = paint(Tint::Red, "RuntimeError");
        proof {
            assert(tinted(Tint::Red, "RuntimeError"@, text@));
        }
        text.append(": ");
        text.append(self.message.as_str());
        text
    }
}

} // verus!
