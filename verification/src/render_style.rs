//! Stroke and fill styles used by render commands.

use vstd::prelude::*;

verus! {

/// How the ends of an open line are drawn.
#[derive(Clone, Copy, Debug, PartialEq, Eq, Structural)]
pub enum LineCap {
    Butt,
    Round,
    Square,
}

impl Default for LineCap {
    fn default() -> (c: Self)
        ensures
            c == LineCap::Butt,
    {
        LineCap::Butt
    }
}

/// How two joined line segments meet.
#[derive(Clone, Copy, Debug, PartialEq, Eq, Structural)]
pub enum LineJoin {
    Miter,
    Round,
    Bevel,
}

impl Default for LineJoin {
    fn default() -> (j: Self)
        ensures
            j == LineJoin::Miter,
    {
        LineJoin::Miter
    }
}

/// Which points a self-intersecting path fills.
#[derive(Clone, Copy, Debug, PartialEq, Eq, Structural)]
pub enum FillRule {
    NonZero,
    EvenOdd,
}

impl Default for FillRule {
    fn default() -> (r: Self)
        ensures
            r == FillRule::NonZero,
    {
        FillRule::NonZero
    }
}

} // verus!
