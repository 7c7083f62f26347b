//! A two-dimensional data point, as exposed to plotting consumers.
use vstd::prelude::*;

verus! {

/// Read access to a point on a chart.
pub trait IDataPoint<T> {
    fn x(&self) -> T;

    fn y(&self) -> T;
}

/// A plain point with integer coordinates. Consumers that plot
/// floating-point data keep their own copy of this shape; the library works
/// with fixed-point values.
#[derive(Clone, Copy, Debug, PartialEq, Eq, Default)]
pub struct DataPoint {
    pub x: i64,
    pub y: i64,
}

impl DataPoint {
    pub fn new(x: i64, y: i64) -> (r: Self)
        ensures
            r.x == x,
            r.y == y,
    {
        Self { x, y }
    }
}

impl IDataPoint<i64> for DataPoint {
    fn x(&self) -> i64 {
        self.x
    }

    fn y(&self) -> i64 {
        self.y
    }
}

} // verus!
