use vstd::prelude::*;

verus! {

/// A pair of values indexed by axis: one component for the horizontal `x`
/// axis and one for the vertical `y` axis.
#[derive(PartialEq, Eq, Debug, Clone, Copy)]
pub struct XY<T> {
    /// Component along the horizontal axis.
    pub x: T,
    /// Component along the vertical axis.
    pub y: T,
}

impl<T> XY<T> {
    /// Packs two per-axis components into a pair.
    pub fn new(x: T, y: T) -> (r: Self)
        ensures
            r.x == x,
            r.y == y,
    {
        XY { x, y }
    }
}

/// A two-dimensional extent: a non-negative integer size along each axis.
pub type Vec2 = XY<usize>;

} // verus!
