use vstd::prelude::*;

pub mod sliderbox;
pub mod switchbox;

verus! {

/// Where newly arriving widgets appear in their container.
#[derive(Clone, Copy, Debug, PartialEq, Eq, Structural)]
pub enum GrowthDirection {
    /// New entries go to the front.
    TopLeft,
    /// New entries go to the back.
    BottomRight,
}

/// Which way a bar or box is laid out.
#[derive(Clone, Copy, Debug, PartialEq, Eq, Structural)]
pub enum Orientation {
    /// Left to right.
    Horizontal,
    /// Top to bottom.
    Vertical,
}

} // verus!
