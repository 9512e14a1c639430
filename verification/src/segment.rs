//! One gridline: a straight stroke between two points.

use crate::fraction::natural_digits;
use crate::fraction::push_natural;
use crate::markup::path_attributes;
use crate::markup::path_markup;
use crate::markup::path_new;
use crate::markup::path_set;
use crate::markup::path_to_string;
use crate::markup::Attributes;
use crate::point::Point;
use crate::point::PointModel;
use svg::node::element::Path;
use vstd::prelude::*;

verus! {

/// The colour of every gridline.
pub const STROKE: &'static str = "#BFEFF2";

/// The width of every gridline.
pub const STROKE_WIDTH: u8 = 1;

/// The opacity of every gridline.
pub const OPACITY: u8 = 1;

/// The layer on which every gridline is drawn.
pub const Z_INDEX: u8 = 1;

/// The stroke a [`LineSegment`] stands for.
pub struct SegmentModel {
    pub start: PointModel,
    pub end: PointModel,
}

impl SegmentModel {
    /// The path data of the segment: a move to `start`, then a line to
    /// `end`, each point as its two coordinates in decimal notation.
    pub open spec fn data(self) -> Seq<char> {
        "M"@ + self.start.x.decimal() + ","@ + self.start.y.decimal() + " L"@
            + self.end.x.decimal() + ","@ + self.end.y.decimal()
    }

    /// The attributes of the `path` element that draws the segment: the
    /// looks that all gridlines share, and the path data.
    pub open spec fn attributes(self) -> Attributes {
        Attributes::empty().insert("stroke"@, STROKE@).insert(
            "stroke-width"@,
            natural_digits(STROKE_WIDTH as nat),
        ).insert("opacity"@, natural_digits(OPACITY as nat)).insert(
            "zIndex"@,
            natural_digits(Z_INDEX as nat),
        ).insert("d"@, self.data())
    }
}

/// A gridline from `start` to `end`. Its looks are those of every gridline:
/// [`STROKE`], [`STROKE_WIDTH`], [`OPACITY`] and [`Z_INDEX`].
#[derive(Debug, Clone, Copy)]
pub struct LineSegment {
    pub start: Point,
    pub end: Point,
}

impl View for LineSegment {
    type V = SegmentModel;

    open spec fn view(&self) -> SegmentModel {
        SegmentModel { start: self.start@, end: self.end@ }
    }
}

impl LineSegment {
    /// The segment from `start` to `end`.
    pub fn new(start: Point, end: Point) -> (segment: LineSegment)
        ensures
            segment@ == (SegmentModel { start: start@, end: end@ }),
    {
        LineSegment { start, end }
    }

    /// Writes the path data of the segment.
    pub fn path_data(&self) -> (text: String)
        ensures
            text@ == self@.data(),
    {
        let mut text = String::from_str("M");
        text.append(self.start.x.to_string().as_str());
        text.append(",");
        text.append(self.start.y.to_string().as_str());
        text.append(" L");
        text.append(self.end.x.to_string().as_str());
        text.append(",");
        text.append(self.end.y.to_string().as_str());
        text
    }

    /// The `path` element that draws the segment.
    pub(crate) fn to_path(&self) -> (path: Path)
        ensures
            path_attributes(path) == self@.attributes(),
    {
        let path = path_set(path_new(), "stroke", STROKE);
        let path = path_set(path, "stroke-width", number_text(STROKE_WIDTH).as_str());
        let path = path_set(path, "opacity", number_text(OPACITY).as_str());
        let path = path_set(path, "zIndex", number_text(Z_INDEX).as_str());
        path_set(path, "d", self.path_data().as_str())
    }

    /// Writes the segment as a `path` element.
    pub fn to_string(&self) -> (text: String)
        ensures
            text@ == path_markup(self@.attributes()),
    {
        path_to_string(&self.to_path())
    }
}

/// The decimal digits of `value`.
fn number_text(value: u8) -> (text: String)
    ensures
        text@ == natural_digits(value as nat),
{
    let mut text = String::new();
    push_natural(&mut text, value as u128);
    text
}

} // verus!
