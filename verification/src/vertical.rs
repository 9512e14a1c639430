//! Vertical gridlines: spaced over the range of x, each spanning the range
//! of y.

use crate::error::Error;
use crate::fraction::ratios;
use crate::fraction::Fraction;
use crate::grid::Grid;
use crate::markup::document_add;
use crate::markup::document_children;
use crate::markup::document_new;
use crate::markup::document_to_string;
use crate::point::Point;
use crate::segment::LineSegment;
use crate::spacing::AxisRange;
use crate::spacing::MIN_LINES;
use svg::node::element::SVG;
use vstd::prelude::*;

verus! {

/// A generator of vertical gridlines.
///
/// It is configured step by step and then asked for its lines with
/// [`Vertical::tags`], which keeps them as a document until it is asked
/// again.
pub struct Vertical {
    x_range: AxisRange,
    y_range: AxisRange,
    lines: u8,
    tags: SVG,
}

impl View for Vertical {
    type V = Grid;

    closed spec fn view(&self) -> Grid {
        Grid {
            x_range: self.x_range,
            y_range: self.y_range,
            lines: self.lines,
            document: document_children(self.tags),
        }
    }
}

impl Vertical {
    /// A generator with empty ranges, no lines to draw and an empty
    /// document.
    pub fn new() -> (made: Vertical)
        ensures
            made@ == (Grid {
                x_range: AxisRange { start: 0, end: 0 },
                y_range: AxisRange { start: 0, end: 0 },
                lines: 0,
                document: Seq::empty(),
            }),
    {
        let tags = document_new();
        let lines: u8 = 0;
        let x_range = AxisRange::new(0, 0);
        let y_range = AxisRange::new(0, 0);
        Vertical { x_range, y_range, lines, tags }
    }

    /// Sets the range over which the lines are spaced.
    pub fn x_range(&mut self, x0: i32, x1: i32) -> (same: &mut Vertical)
        ensures
            *final(same) == *final(self),
            same@ == (Grid { x_range: AxisRange { start: x0, end: x1 }, ..old(self)@ }),
    {
        self.x_range = AxisRange::new(x0, x1);
        self
    }

    /// Sets the range that every line spans.
    pub fn y_range(&mut self, y0: i32, y1: i32) -> (same: &mut Vertical)
        ensures
            *final(same) == *final(self),
            same@ == (Grid { y_range: AxisRange { start: y0, end: y1 }, ..old(self)@ }),
    {
        self.y_range = AxisRange::new(y0, y1);
        self
    }

    /// Sets the number of lines to draw.
    pub fn lines(&mut self, n: u8) -> (same: &mut Vertical)
        ensures
            *final(same) == *final(self),
            same@ == (Grid { lines: n, ..old(self)@ }),
    {
        self.lines = n;
        self
    }

    /// Makes the document afresh from the configuration: one line for each
    /// coordinate, left to right. Where the lines are too few to be spaced
    /// nothing changes.
    pub fn tags(&mut self) -> (made: Result<&mut Vertical, Error>)
        ensures
            old(self)@.lines < MIN_LINES ==> made is Err && made->Err_0 is LineNumber
                && *final(self) == *old(self),
            old(self)@.lines >= MIN_LINES ==> made is Ok && *final(made->Ok_0) == *final(self)
                && made->Ok_0@ == old(self)@.with_vertical_lines(),
    {
        let x_coordinates = self.coordinates()?;
        let mut tmp_document = document_new();
        let mut line: usize = 0;
        assert(ratios(x_coordinates@).len() == self@.lines);
        while line < x_coordinates.len()
            invariant
                *self == *old(self),
                self@.lines >= MIN_LINES,
                ratios(x_coordinates@) == self@.x_range.coordinates(self@.lines as int),
                x_coordinates@.len() == self@.lines,
                line <= x_coordinates@.len(),
                document_children(tmp_document) == self@.vertical_lines().take(line as int),
            decreases x_coordinates@.len() - line,
        {
            let path = self.get_path(x_coordinates[line])?;
            tmp_document = document_add(tmp_document, path.to_path());
            proof {
                let x = x_coordinates@[line as int]@;
                assert(x == ratios(x_coordinates@)[line as int]);
                assert(self@.vertical_lines().take(line + 1) =~= self@.vertical_lines().take(
                    line as int,
                ).push(self@.vertical_at(x).attributes()));
            }
            line += 1;
        }
        assert(self@.vertical_lines().take(line as int) =~= self@.vertical_lines());
        self.tags = tmp_document;
        Ok(self)
    }

    /// Writes the document that was made last.
    pub fn to_string(&self) -> (text: String)
        ensures
            text@ == self@.text(),
    {
        document_to_string(&self.tags)
    }

    /// Where the lines lie in the range of x, left to right.
    pub fn coordinates(&self) -> (spaced: Result<Vec<Fraction>, Error>)
        ensures
            self@.lines < MIN_LINES ==> spaced is Err && spaced->Err_0 is LineNumber,
            self@.lines >= MIN_LINES ==> spaced is Ok && ratios(spaced->Ok_0@)
                == self@.x_range.coordinates(self@.lines as int),
    {
        crate::spacing::coordinates(self.x_range, self.lines)
    }

    /// The distance between neighbouring lines.
    pub fn delta(&self) -> (spaced: Result<Fraction, Error>)
        ensures
            self@.lines < MIN_LINES ==> spaced is Err && spaced->Err_0 is LineNumber,
            self@.lines >= MIN_LINES ==> spaced is Ok && spaced->Ok_0@ == self@.x_range.delta(
                self@.lines as int,
            ),
    {
        crate::spacing::delta(self.x_range, self.lines)
    }

    /// The line at the distance `x`. It is always there.
    pub fn get_path(&self, x: Fraction) -> (made: Result<LineSegment, Error>)
        ensures
            made is Ok,
            made->Ok_0@ == self@.vertical_at(x@),
    {
        Ok(
            LineSegment::new(
                Point::new(x, Fraction::whole(self.y_range.start)),
                Point::new(x, Fraction::whole(self.y_range.end)),
            ),
        )
    }
}

} // verus!
