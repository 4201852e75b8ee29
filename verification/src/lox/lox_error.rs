use crate::lox::lox_error_ty::LoxErrorTy;
use crate::lox::paint::{paint, tinted, Tint};
use crate::syntax::position::Position;
use crate::text::{
    chars_of, decimal, decimal_of, end_of_line, line_end, line_feeds, line_start, repeat,
    repeated, string_of,
};
use vstd::prelude::*;
use vstd::string::StringExecFns;

verus! {

/// One fault, with all that is needed to show it in context: the source it
/// was found in, the name of the file that source came from (if any), and
/// the place.
#[derive(Debug, PartialEq)]
pub struct LoxError {
    pub ty: LoxErrorTy,
    pub message: String,
    pub source: String,
    pub source_file: Option<String>,
    pub position: Position,
}

/// The place of a fault in its source, as a plain value.
pub struct ExcerptView {
    pub line: nat,
    pub column: nat,
    pub previous_line: Seq<char>,
    pub current_line: Seq<char>,
}

/// The place of a fault in its source: the numbers of its line and column,
/// both counted from 1, the line itself and the line before it (empty for
/// the first line).
#[derive(Debug, PartialEq)]
pub struct Excerpt {
    pub line: u128,
    pub column: u128,
    pub previous_line: String,
    pub current_line: String,
}

impl View for Excerpt {
    type V = ExcerptView;

    open spec fn view(&self) -> ExcerptView {
        ExcerptView {
            line: self.line as nat,
            column: self.column as nat,
            previous_line: self.previous_line@,
            current_line: self.current_line@,
        }
    }
}

/// The parts of a shown error that are coloured, as plain values.
pub struct MarkersView {
    pub heading: Seq<char>,
    pub file: Seq<char>,
    pub previous: Seq<char>,
    pub current: Seq<char>,
    pub pointer: Seq<char>,
}

/// The parts of a shown error that are coloured: the heading, the three
/// margins in front of the file name and of the two lines, and the pointer
/// under the column of the fault.
#[derive(Debug, PartialEq)]
pub struct Markers {
    pub heading: String,
    pub file: String,
    pub previous: String,
    pub current: String,
    pub pointer: String,
}

impl View for Markers {
    type V = MarkersView;

    open spec fn view(&self) -> MarkersView {
        MarkersView {
            heading: self.heading@,
            file: self.file@,
            previous: self.previous@,
            current: self.current@,
            pointer: self.pointer@,
        }
    }
}

/// How far into `source` the excerpt looks for `position`: up to its
/// offset, or not at all where the offset lies behind the source.
pub open spec fn reach(source: Seq<char>, position: Position) -> int {
    if position.offset <= source.len() {
        position.offset as int
    } else {
        0
    }
}

/// The place of `position` in `source`: its line is one more than the
/// number of line feeds before it, its column one more than the number of
/// characters between it and the beginning of its line.
pub open spec fn excerpt_of(source: Seq<char>, position: Position) -> ExcerptView {
    let at = reach(source, position);
    let start = line_start(source, at);
    ExcerptView {
        line: line_feeds(source, at) + 1,
        column: (at - start + 1) as nat,
        previous_line: if start == 0 {
            Seq::empty()
        } else {
            source.subrange(line_start(source, start - 1), start - 1)
        },
        current_line: source.subrange(start, line_end(source, start)),
    }
}

/// How many characters stand before column `column` of a line.
pub open spec fn indent(column: nat) -> nat {
    if column >= 1 {
        (column - 1) as nat
    } else {
        0
    }
}

/// The coloured parts, uncoloured, of an error of kind `ty` at `excerpt`:
/// the margins are as wide as the number of the line and three characters
/// more, and the pointer reaches to the column of the fault.
pub open spec fn markers_of(ty: LoxErrorTy, excerpt: ExcerptView) -> MarkersView {
    let width = decimal(excerpt.line).len();
    MarkersView {
        heading: ty.heading(),
        file: repeated('-', width + 1) + "> "@,
        previous: repeated(' ', width + 1) + "| "@,
        current: decimal(excerpt.line) + " | "@,
        pointer: repeated('-', width + 3) + repeated('-', indent(excerpt.column)) + "^"@,
    }
}

/// `painted` holds the parts of `plain`, each in its colour or as it is:
/// the heading and the pointer in red, the margins in blue.
pub open spec fn coloured(plain: MarkersView, painted: MarkersView) -> bool {
    &&& tinted(Tint::Red, plain.heading, painted.heading)
    &&& tinted(Tint::Blue, plain.file, painted.file)
    &&& tinted(Tint::Blue, plain.previous, painted.previous)
    &&& tinted(Tint::Blue, plain.current, painted.current)
    &&& tinted(Tint::Red, plain.pointer, painted.pointer)
}

/// The name of the file with a colon behind it, or nothing.
pub open spec fn file_label(source_file: Option<String>) -> Seq<char> {
    match source_file {
        Some(name) => name@ + ":"@,
        None => Seq::empty(),
    }
}

/// The five lines in which an error is shown: heading and message; file,
/// line and column; the line before the fault; the line of the fault; the
/// pointer.
pub open spec fn composed(
    message: Seq<char>,
    source_file: Option<String>,
    excerpt: ExcerptView,
    markers: MarkersView,
) -> Seq<char> {
    markers.heading + ": "@ + message + "\n"@ + markers.file + file_label(source_file) + decimal(
        excerpt.line,
    ) + ":"@ + decimal(excerpt.column) + "\n"@ + markers.previous + excerpt.previous_line
        + "\n"@ + markers.current + excerpt.current_line + "\n"@ + markers.pointer
}

impl Excerpt {
    /// The coloured parts of an error of kind `ty` at this place, before
    /// they are coloured.
    pub fn markers(&self, ty: LoxErrorTy) -> (markers: Markers)
        ensures
            markers@ == markers_of(ty, self@),
    {
        let number = decimal_of(self.line);
        let width = number.as_str().unicode_len();

        let mut file = repeat('-', width as u128 + 1);
        file.append("> ");
        let mut previous = repeat(' ', width as u128 + 1);
        previous.append("| ");
        let mut current = number;
        current.append(" | ");
        let mut pointer = repeat('-', width as u128 + 3);
        pointer.append(repeat('-', if self.column >= 1 {
            self.column - 1
        } else {
            0
        }).as_str());
        pointer.append("^");

        Markers { heading: ty.to_string(), file, previous, current, pointer }
    }
}

impl LoxError {
    /// This error is of kind `ty`, says `message` and points at `position`
    /// in `source`, which came from `source_file`.
    pub open spec fn reports(
        self,
        ty: LoxErrorTy,
        message: Seq<char>,
        source: Seq<char>,
        source_file: Option<String>,
        position: Position,
    ) -> bool {
        &&& self.ty == ty
        &&& self.message@ == message
        &&& self.source@ == source
        &&& self.source_file == source_file
        &&& self.position == position
    }

    pub fn new(
        ty: LoxErrorTy,
        message: &str,
        source: &str,
        source_file: &Option<String>,
        position: Position,
    ) -> (error: LoxError)
        ensures
            error.reports(ty, message@, source@, *source_file, position),
    {
        let source_file = match source_file {
            Some(name) => Some(name.clone()),
            None => None,
        };
        LoxError { ty, message: message.to_owned(), source: source.to_owned(), source_file, position }
    }

    /// Finds the place of this error in its source.
    pub fn excerpt(&self) -> (excerpt: Excerpt)
        ensures
            excerpt@ == excerpt_of(self.source@, self.position),
    {
        let chars = chars_of(self.source.as_str());
        let at: usize = if self.position.offset <= chars.len() {
            self.position.offset
        } else {
            0
        };

        let mut line: usize = 0;
        let mut start: usize = 0;
        let mut before: usize = 0;
        let mut i: usize = 0;
        while i < at
            invariant
                i <= at <= chars.len(),
                line <= i,
                before <= start <= i,
                line == line_feeds(chars@, i as int),
                start == line_start(chars@, i as int),
                start > 0 ==> before < start && before == line_start(chars@, start - 1),
            decreases at - i,
        {
            if chars[i] == '\n' {
                line += 1;
                before = start;
                start = i + 1;
            }
            i += 1;
        }

        let end = end_of_line(&chars, start);
        let previous_line = if start == 0 {
            String::new()
        } else {
            string_of(&chars, before, start - 1)
        };
        Excerpt {
            line: line as u128 + 1,
            column: (at - start) as u128 + 1,
            previous_line,
            current_line: string_of(&chars, start, end),
        }
    }

    /// Puts the five lines together from the place of the error and the
    /// coloured parts.
    pub fn compose(&self, excerpt: &Excerpt, markers: &Markers) -> (text: String)
        ensures
            text@ == composed(self.message@, self.source_file, excerpt@, markers@),
    {
        let mut text = markers.heading.clone();
        text.append(": ");
        text.append(self.message.as_str());
        text.append("\n");
        text.append(markers.file.as_str());
        match &self.source_file {
            Some(name) => {
                text.append(name.as_str());
                text.append(":");
            },
            None => {},
        }
        text.append(decimal_of(excerpt.line).as_str());
        text.append(":");
        text.append(decimal_of(excerpt.column).as_str());
        text.append("\n");
        text.append(markers.previous.as_str());
        text.append(excerpt.previous_line.as_str());
        text.append("\n");
        text.append(markers.current.as_str());
        text.append(excerpt.current_line.as_str());
        text.append("\n");
        text.append(markers.pointer.as_str());
        text
    }

    /// Shows this error without colours.
    pub fn plain(&self) -> (text: String)
        ensures
            text@ == composed(
                self.message@,
                self.source_file,
                excerpt_of(self.source@, self.position),
                markers_of(self.ty, excerpt_of(self.source@, self.position)),
            ),
    {
        let excerpt = self.excerpt();
        let markers = excerpt.markers(self.ty);
        self.compose(&excerpt, &markers)
    }

    /// Shows this error with its heading and pointer in red and its margins
    /// in blue, as far as painting is enabled.
    pub fn to_string(&self) -> (text: String)
        ensures
            exists|painted: MarkersView|
                #![trigger coloured(markers_of(self.ty, excerpt_of(self.source@, self.position)), painted)]
                coloured(markers_of(self.ty, excerpt_of(self.source@, self.position)), painted)
                    && text@ == composed(
                    self.message@,
                    self.source_file,
                    excerpt_of(self.source@, self.position),
                    painted,
                ),
    {
        let excerpt = self.excerpt();
        let plain = excerpt.markers(self.ty);
        let painted = Markers {
            heading: paint(Tint::Red, plain.heading.as_str()),
            file: paint(Tint::Blue, plain.file.as_str()),
            previous: paint(Tint::Blue, plain.previous.as_str()),
            current: paint(Tint::Blue, plain.current.as_str()),
            pointer: paint(Tint::Red, plain.pointer.as_str()),
        };
        let text = self.compose(&excerpt, &painted);
        proof {
            assert(coloured(markers_of(self.ty, excerpt_of(self.source@, self.position)), painted@));
        }
        text
    }
}

} // verus!
