use vstd::prelude::*;

verus! {

/// A span of the source text: `length` characters starting at character
/// `offset`.
#[derive(Clone, Copy, Debug, PartialEq, Eq, Structural)]
pub struct Position {
    pub length: usize,
    pub offset: usize,
}

impl Position {
    pub fn new(length: usize, offset: usize) -> (position: Position)
        ensures
            position.length == length,
            position.offset == offset,
    {
        Position { length, offset }
    }

    /// The span lies inside a text of `len` characters.
    pub open spec fn within(self, len: nat) -> bool {
        self.offset + self.length <= len
    }

    /// The character after the last one of the span.
    pub open spec fn end(self) -> int {
        self.offset + self.length
    }
}

} // verus!
