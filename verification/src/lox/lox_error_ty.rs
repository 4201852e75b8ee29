use vstd::prelude::*;

verus! {

/// The stage that found a fault: the scanner and the parser report
/// `Syntax`, the interpreter `Runtime`.
#[derive(Clone, Copy, Debug, PartialEq, Eq, Structural)]
pub enum LoxErrorTy {
    Runtime,
    Syntax,
}

impl LoxErrorTy {
    /// The heading under which an error of this kind is shown.
    pub open spec fn heading(self) -> Seq<char> {
        match self {
            LoxErrorTy::Runtime => "RuntimeError"@,
            LoxErrorTy::Syntax => "SyntaxError"@,
        }
    }

    pub fn to_string(&self) -> (text: String)
        ensures
            text@ == self.heading(),
    {
        match self {
            LoxErrorTy::Runtime => "RuntimeError".to_owned(),
            LoxErrorTy::Syntax => "SyntaxError".to_owned(),
        }
    }
}

} // verus!
