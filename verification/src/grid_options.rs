//! Viewport-independent options of the grid.
use vstd::prelude::*;

verus! {

/// The unit in which the spacing of the grid lines is given.
#[derive(Debug, Clone, Copy, PartialEq, Eq, Structural)]
pub enum GridLineDimension {
    /// Screen points: the lines keep their distance on screen while zooming.
    Screen,
    /// Meters: the lines keep their distance on the map while zooming.
    Metric,
}

impl Default for GridLineDimension {
    /// `Metric` is the default.
    fn default() -> (d: GridLineDimension)
        ensures
            d == GridLineDimension::Metric,
    {
        GridLineDimension::Metric
    }
}

} // verus!
