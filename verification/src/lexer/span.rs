//! Source positions, and ranges of source positions, in which nodes are
//! defined. They link nodes back to their origins in the source.

use vstd::prelude::*;
use vstd::string::StringExecFns;
use vstd::string::StrSliceExecFns;
use crate::text::{decimal_text, decimal_usize};

verus! {

/// What a `Position` stands for.
pub ghost struct PositionView {
    pub filename: Seq<char>,
    pub line: usize,
    pub column: usize,
}

/// A Position represents an arbitrary source position. It includes the
/// filename, line number, and column number.
#[derive(Debug, PartialEq)]
pub struct Position {
    filename: String,
    line: usize,
    column: usize,
}

impl View for Position {
    type V = PositionView;

    closed spec fn view(&self) -> PositionView {
        PositionView { filename: self.filename@, line: self.line, column: self.column }
    }
}

impl Clone for Position {
    fn clone(&self) -> (res: Position)
        ensures
            res == *self,
    {
        Position { filename: self.filename.clone(), line: self.line, column: self.column }
    }
}

impl Position {
    /// Create a new Position from the name of the file, the line number and
    /// the column number.
    pub fn new(filename: &str, line: usize, column: usize) -> (position: Position)
        ensures
            position@ == (PositionView { filename: filename@, line, column }),
    {
        Position { filename: filename.to_owned(), line, column }
    }

    /// The name of the file in which the Position exists.
    pub fn filename(&self) -> (filename: &String)
        ensures
            filename@ == self@.filename,
    {
        &self.filename
    }

    /// The line number of the Position.
    pub fn line(&self) -> (line: usize)
        ensures
            line == self@.line,
    {
        self.line
    }

    /// The column number of the Position.
    pub fn column(&self) -> (column: usize)
        ensures
            column == self@.column,
    {
        self.column
    }

    /// The text of a position: the filename, where there is one, the line and
    /// the column, with colons between them.
    pub open spec fn text_of(p: PositionView) -> Seq<char> {
        if p.filename.len() > 0 {
            p.filename + seq![':'] + decimal_text(p.line as nat) + seq![':'] + decimal_text(
                p.column as nat,
            )
        } else {
            decimal_text(p.line as nat) + seq![':'] + decimal_text(p.column as nat)
        }
    }

    /// The text of the position.
    pub fn to_string(&self) -> (text: String)
        ensures
            text@ == Self::text_of(self@),
    {
        proof {
            reveal_strlit(":");
            assert(":"@ =~= seq![':']);
        }
        let mut text = String::new();
        if self.filename.as_str().unicode_len() > 0 {
            text.append(self.filename.as_str());
            text.append(":");
        }
        text.append(decimal_usize(self.line).as_str());
        text.append(":");
        text.append(decimal_usize(self.column).as_str());
        assert(text@ =~= Self::text_of(self@));
        text
    }
}

/// What a `Span` stands for.
pub ghost struct SpanView {
    pub begin: PositionView,
    pub end: PositionView,
}

/// A Span represents an arbitrary source range. It includes the beginning and
/// ending Positions.
#[derive(Debug, PartialEq)]
pub struct Span {
    begin: Position,
    end: Position,
}

impl View for Span {
    type V = SpanView;

    closed spec fn view(&self) -> SpanView {
        SpanView { begin: self.begin@, end: self.end@ }
    }
}

impl Clone for Span {
    fn clone(&self) -> (res: Span)
        ensures
            res == *self,
    {
        Span { begin: self.begin.clone(), end: self.end.clone() }
    }
}

impl Span {
    /// The beginning Position of the Span.
    pub closed spec fn spec_begin(&self) -> Position {
        self.begin
    }

    /// The ending Position of the Span.
    pub closed spec fn spec_end(&self) -> Position {
        self.end
    }

    /// The Span between two positions.
    pub closed spec fn spec_from_positions(begin: Position, end: Position) -> Span {
        Span { begin, end }
    }

    /// The parts of a span stand for the parts of what the span stands for.
    pub proof fn lemma_parts(self)
        ensures
            self.spec_begin()@ == self@.begin,
            self.spec_end()@ == self@.end,
            self == Self::spec_from_positions(self.spec_begin(), self.spec_end()),
    {
    }

    /// The span between two positions begins at the one and ends at the
    /// other.
    pub proof fn lemma_from_positions(begin: Position, end: Position)
        ensures
            Self::spec_from_positions(begin, end).spec_begin() == begin,
            Self::spec_from_positions(begin, end).spec_end() == end,
            Self::spec_from_positions(begin, end)@ == (SpanView { begin: begin@, end: end@ }),
    {
    }

    /// Create a new Span. The beginning and ending Positions both carry the
    /// given filename.
    pub fn new(
        filename: &str,
        begin_line: usize,
        begin_column: usize,
        end_line: usize,
        end_column: usize,
    ) -> (span: Span)
        ensures
            span@ == (SpanView {
                begin: PositionView { filename: filename@, line: begin_line, column: begin_column },
                end: PositionView { filename: filename@, line: end_line, column: end_column },
            }),
    {
        Span {
            begin: Position::new(filename, begin_line, begin_column),
            end: Position::new(filename, end_line, end_column),
        }
    }

    /// Create a new Span from beginning and ending positions. The positions
    /// are not guaranteed to have the same filename.
    pub fn new_from_positions(begin: Position, end: Position) -> (span: Span)
        ensures
            span == Self::spec_from_positions(begin, end),
            span@ == (SpanView { begin: begin@, end: end@ }),
    {
        Span { begin, end }
    }

    /// The beginning Position of the Span.
    pub fn begin(&self) -> (begin: &Position)
        ensures
            *begin == self.spec_begin(),
            begin@ == self@.begin,
    {
        &self.begin
    }

    /// The ending Position of the Span.
    pub fn end(&self) -> (end: &Position)
        ensures
            *end == self.spec_end(),
            end@ == self@.end,
    {
        &self.end
    }

    /// Replace the beginning Position.
    pub fn set_begin(&mut self, begin: Position)
        ensures
            final(self)@ == (SpanView { begin: begin@, end: old(self)@.end }),
    {
        self.begin = begin;
    }

    /// Replace the ending Position.
    pub fn set_end(&mut self, end: Position)
        ensures
            final(self)@ == (SpanView { begin: old(self)@.begin, end: end@ }),
    {
        self.end = end;
    }
}

/// Implemented by nodes that lie in a range of the source.
pub trait Spanned {
    spec fn spec_span(&self) -> SpanView;

    fn span(&self) -> (span: &Span)
        ensures
            span@ == self.spec_span(),
    ;

    fn span_mut(&mut self) -> (span: &mut Span)
        ensures
            span@ == old(self).spec_span(),
            final(self).spec_span() == final(span)@,
    ;

    fn set_span_begin(&mut self, begin: Position)
        ensures
            final(self).spec_span() == (SpanView { begin: begin@, end: old(self).spec_span().end }),
    {
        self.span_mut().set_begin(begin);
    }

    fn set_span_end(&mut self, end: Position)
        ensures
            final(self).spec_span() == (SpanView { begin: old(self).spec_span().begin, end: end@ }),
    {
        self.span_mut().set_end(end);
    }
}

} // verus!
