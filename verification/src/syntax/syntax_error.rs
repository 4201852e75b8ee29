use vstd::prelude::*;

verus! {

/// What the parser expected where it could not go on.
#[derive(Debug, PartialEq)]
pub struct SyntaxError {
    pub message: String,
}

impl SyntaxError {
    pub fn new(message: String) -> (error: SyntaxError)
        ensures
            error.message == message,
    {
        SyntaxError { message }
    }

    /// Shows this error: its message.
    pub fn to_string(&self) -> (text: String)
        ensures
            text@ == self.message@,
    {
        self.message.clone()
    }
}

} // verus!
