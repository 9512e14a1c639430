//! What the two generators of gridlines have in common: the configuration
//! that they are given and the lines that it asks for.

use crate::fraction::Ratio;
use crate::markup::document_markup;
use crate::markup::Attributes;
use crate::point::PointModel;
use crate::segment::SegmentModel;
use crate::spacing::AxisRange;
use vstd::prelude::*;

verus! {

/// What a generator holds: the two ranges of the chart, the number of
/// lines to draw, and the lines of the document that it made last, each
/// given by the attributes of its `path` element.
pub struct Grid {
    pub x_range: AxisRange,
    pub y_range: AxisRange,
    pub lines: u8,
    pub document: Seq<Attributes>,
}

impl Grid {
    /// The horizontal line at the height `y`: it spans the range of x.
    pub open spec fn horizontal_at(self, y: Ratio) -> SegmentModel {
        SegmentModel {
            start: PointModel { x: Ratio::whole(self.x_range.start as int), y },
            end: PointModel { x: Ratio::whole(self.x_range.end as int), y },
        }
    }

    /// The vertical line at the distance `x`: it spans the range of y.
    pub open spec fn vertical_at(self, x: Ratio) -> SegmentModel {
        SegmentModel {
            start: PointModel { x, y: Ratio::whole(self.y_range.start as int) },
            end: PointModel { x, y: Ratio::whole(self.y_range.end as int) },
        }
    }

    /// The horizontal lines that the configuration asks for, top to
    /// bottom: they are spaced over the range of y.
    pub open spec fn horizontal_lines(self) -> Seq<Attributes> {
        Seq::new(
            self.lines as nat,
            |line: int|
                self.horizontal_at(
                    self.y_range.coordinate(self.lines as int, line),
                ).attributes(),
        )
    }

    /// The vertical lines that the configuration asks for, left to right:
    /// they are spaced over the range of x.
    pub open spec fn vertical_lines(self) -> Seq<Attributes> {
        Seq::new(
            self.lines as nat,
            |line: int|
                self.vertical_at(self.x_range.coordinate(self.lines as int, line)).attributes(),
        )
    }

    /// The same configuration with a fresh document of horizontal lines.
    pub open spec fn with_horizontal_lines(self) -> Grid {
        Grid { document: self.horizontal_lines(), ..self }
    }

    /// The same configuration with a fresh document of vertical lines.
    pub open spec fn with_vertical_lines(self) -> Grid {
        Grid { document: self.vertical_lines(), ..self }
    }

    /// The text of the document that was made last.
    pub open spec fn text(self) -> Seq<char> {
        document_markup(self.document)
    }

    /// Whether two generators are configured alike.
    pub open spec fn configured_like(self, other: Grid) -> bool {
        &&& self.x_range == other.x_range
        &&& self.y_range == other.y_range
        &&& self.lines == other.lines
    }
}

/// Generating is idempotent: a document that is made again from the same
/// configuration is the same document, whatever was made before, so two
/// generators that are configured alike write the same text.
pub proof fn lemma_generation_repeats(first: Grid, second: Grid)
    requires
        first.configured_like(second),
    ensures
        first.with_horizontal_lines().with_horizontal_lines() == first.with_horizontal_lines(),
        first.with_vertical_lines().with_vertical_lines() == first.with_vertical_lines(),
        first.with_horizontal_lines().text() == second.with_horizontal_lines().text(),
        first.with_vertical_lines().text() == second.with_vertical_lines().text(),
{
    assert(first.horizontal_lines() =~= second.horizontal_lines());
    assert(first.vertical_lines() =~= second.vertical_lines());
    assert(first.with_horizontal_lines().horizontal_lines() =~= first.horizontal_lines());
    assert(first.with_vertical_lines().vertical_lines() =~= first.vertical_lines());
}

} // verus!
