//! Evenly spaced gridlines for the background of a two-dimensional chart.
//!
//! Positions are computed in exact arithmetic: an axis range is a pair of
//! whole coordinates and every gridline position is a [`Fraction`] over the
//! number of gaps between the lines. The lines are assembled into an SVG
//! document, one path element per line.

pub mod chart;
pub mod error;
pub mod fraction;
pub mod grid;
pub mod horizontal;
pub mod markup;
pub mod point;
pub mod segment;
pub mod spacing;
pub mod vertical;

pub use crate::chart::Chart;
pub use crate::error::Error;
pub use crate::fraction::Fraction;
pub use crate::horizontal::Horizontal;
pub use crate::point::Point;
pub use crate::segment::LineSegment;
pub use crate::spacing::AxisRange;
pub use crate::vertical::Vertical;
