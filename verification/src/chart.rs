//! A chart background: horizontal and vertical gridlines over the same two
//! ranges.

use crate::error::Error;
use crate::grid::Grid;
use crate::horizontal::Horizontal;
use crate::spacing::AxisRange;
use crate::spacing::MIN_LINES;
use crate::vertical::Vertical;
use vstd::prelude::*;

verus! {

/// What a [`Chart`] holds: the two ranges, and how many lines to draw each
/// way.
pub struct ChartModel {
    pub x_range: AxisRange,
    pub y_range: AxisRange,
    pub h_lines: u8,
    pub v_lines: u8,
}

impl ChartModel {
    /// The generator of the horizontal lines, before it has made any.
    pub open spec fn horizontal(self) -> Grid {
        Grid {
            x_range: self.x_range,
            y_range: self.y_range,
            lines: self.h_lines,
            document: Seq::empty(),
        }
    }

    /// The generator of the vertical lines, before it has made any.
    pub open spec fn vertical(self) -> Grid {
        Grid {
            x_range: self.x_range,
            y_range: self.y_range,
            lines: self.v_lines,
            document: Seq::empty(),
        }
    }

    /// The text of the chart: the document of the horizontal lines, a line
    /// break, and the document of the vertical lines.
    pub open spec fn text(self) -> Seq<char> {
        self.horizontal().with_horizontal_lines().text() + "\n"@
            + self.vertical().with_vertical_lines().text()
    }
}

/// The gridlines of a chart, both ways.
pub struct Chart {
    x_range: AxisRange,
    y_range: AxisRange,
    h_lines: u8,
    v_lines: u8,
}

impl View for Chart {
    type V = ChartModel;

    closed spec fn view(&self) -> ChartModel {
        ChartModel {
            x_range: self.x_range,
            y_range: self.y_range,
            h_lines: self.h_lines,
            v_lines: self.v_lines,
        }
    }
}

impl Chart {
    /// A chart with empty ranges and no lines to draw.
    pub fn new() -> (made: Chart)
        ensures
            made@ == (ChartModel {
                x_range: AxisRange { start: 0, end: 0 },
                y_range: AxisRange { start: 0, end: 0 },
                h_lines: 0,
                v_lines: 0,
            }),
    {
        let x_range = AxisRange::new(0, 0);
        let y_range = AxisRange::new(0, 0);
        let h_lines: u8 = 0;
        let v_lines: u8 = 0;
        Chart { x_range, y_range, h_lines, v_lines }
    }

    /// Sets the range of x.
    pub fn x_range(&mut self, x0: i32, x1: i32) -> (same: &mut Chart)
        ensures
            *final(same) == *final(self),
            same@ == (ChartModel { x_range: AxisRange { start: x0, end: x1 }, ..old(self)@ }),
    {
        self.x_range = AxisRange::new(x0, x1);
        self
    }

    /// Sets the range of y.
    pub fn y_range(&mut self, y0: i32, y1: i32) -> (same: &mut Chart)
        ensures
            *final(same) == *final(self),
            same@ == (ChartModel { y_range: AxisRange { start: y0, end: y1 }, ..old(self)@ }),
    {
        self.y_range = AxisRange::new(y0, y1);
        self
    }

    /// Sets the number of horizontal lines.
    pub fn h_lines(&mut self, n: u8) -> (same: &mut Chart)
        ensures
            *final(same) == *final(self),
            same@ == (ChartModel { h_lines: n, ..old(self)@ }),
    {
        self.h_lines = n;
        self
    }

    /// Sets the number of vertical lines.
    pub fn v_lines(&mut self, n: u8) -> (same: &mut Chart)
        ensures
            *final(same) == *final(self),
            same@ == (ChartModel { v_lines: n, ..old(self)@ }),
    {
        self.v_lines = n;
        self
    }

    /// The generator of the horizontal lines, with its document made.
    pub fn horizontal(&self) -> (made: Result<Horizontal, Error>)
        ensures
            self@.h_lines < MIN_LINES ==> made is Err && made->Err_0 is LineNumber,
            self@.h_lines >= MIN_LINES ==> made is Ok && made->Ok_0@
                == self@.horizontal().with_horizontal_lines(),
    {
        let mut horizontal = Horizontal::new();
        horizontal.x_range(self.x_range.start, self.x_range.end).y_range(
            self.y_range.start,
            self.y_range.end,
        ).lines(self.h_lines).tags()?;
        Ok(horizontal)
    }

    /// The generator of the vertical lines, with its document made.
    pub fn vertical(&self) -> (made: Result<Vertical, Error>)
        ensures
            self@.v_lines < MIN_LINES ==> made is Err && made->Err_0 is LineNumber,
            self@.v_lines >= MIN_LINES ==> made is Ok && made->Ok_0@
                == self@.vertical().with_vertical_lines(),
    {
        let mut vertical = Vertical::new();
        vertical.x_range(self.x_range.start, self.x_range.end).y_range(
            self.y_range.start,
            self.y_range.end,
        ).lines(self.v_lines).tags()?;
        Ok(vertical)
    }

    /// Writes the chart: the horizontal lines, a line break, the vertical
    /// lines. Fails where either kind has too few lines to be spaced.
    pub fn to_string(&self) -> (written: Result<String, Error>)
        ensures
            self@.h_lines < MIN_LINES || self@.v_lines < MIN_LINES ==> written is Err
                && written->Err_0 is LineNumber,
            self@.h_lines >= MIN_LINES && self@.v_lines >= MIN_LINES ==> written is Ok
                && written->Ok_0@ == self@.text(),
    {
        let mut svg_string = String::new();
        let horizontal = self.horizontal()?.to_string();
        let vertical = self.vertical()?.to_string();
        svg_string.append(horizontal.as_str());
        svg_string.append("\n");
        svg_string.append(vertical.as_str());
        Ok(svg_string)
    }
}

} // verus!
