use vstd::prelude::*;

verus! {

/// The two colours in which an error is shown.
#[derive(Clone, Copy, Debug, PartialEq, Eq, Structural)]
pub enum Tint {
    Red,
    Blue,
}

/// The escape sequence that sets the foreground colour.
pub open spec fn escape(tint: Tint) -> Seq<char> {
    match tint {
        Tint::Red => "\x1B[31m"@,
        Tint::Blue => "\x1B[34m"@,
    }
}

/// The escape sequence that ends all styling.
pub open spec fn reset() -> Seq<char> {
    "\x1B[0m"@
}

/// `painted` is `text` in the colour `tint`, or `text` as it is where
/// painting is switched off.
pub open spec fn tinted(tint: Tint, text: Seq<char>, painted: Seq<char>) -> bool {
    painted == text || painted == escape(tint) + text + reset()
}

/// Paints `text` with `yansi::Color::paint` and formats what comes back.
/// While painting is enabled, which a program may change at any time with
/// `yansi::Paint::disable`, the text stands between the escape sequence of
/// the colour and the one that resets it; while it is disabled, the text
/// comes back as it is.
#[verifier::external_body]
pub(crate) fn paint(tint: Tint, text: &str) -> (painted: String)
    ensures
        tinted(tint, text@, painted@),
{
    let color = match tint {
        Tint::Red => yansi::Color::Red,
        Tint::Blue => yansi::Color::Blue,
    };
    format!("{}", color.paint(text))
}

} // verus!
