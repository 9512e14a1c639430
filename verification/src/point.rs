//! Points of the chart plane.

use crate::fraction::Fraction;
use crate::fraction::Ratio;
use vstd::prelude::*;

verus! {

/// The place a [`Point`] stands for.
pub struct PointModel {
    pub x: Ratio,
    pub y: Ratio,
}

/// A point of the chart plane.
#[derive(Debug, Clone, Copy)]
pub struct Point {
    pub x: Fraction,
    pub y: Fraction,
}

impl View for Point {
    type V = PointModel;

    open spec fn view(&self) -> PointModel {
        PointModel { x: self.x@, y: self.y@ }
    }
}

impl Point {
    /// The point at `x` across and `y` down.
    pub fn new(x: Fraction, y: Fraction) -> (point: Point)
        ensures
            point@ == (PointModel { x: x@, y: y@ }),
    {
        Point { x, y }
    }
}

} // verus!
