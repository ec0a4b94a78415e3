//! Plain two dimensional value types used for layout measurement.

use vstd::prelude::*;

verus! {

/// Two dimensional rectangle.
#[derive(Debug, Clone, Copy, PartialEq, Eq, Structural, PartialOrd, Ord, Hash)]
pub struct Rectangle {
    /// The x coordinate of the top left corner.
    pub x: i32,
    /// The y coordinate of the top left corner.
    pub y: i32,
    /// The width of the rectangle.
    pub width: u32,
    /// The height of the rectangle.
    pub height: u32,
}

/// Two dimensional size.
#[derive(Debug, Clone, Copy, PartialEq, Eq, Structural, PartialOrd, Ord, Hash)]
pub struct Size {
    /// The width of the size.
    pub width: u32,
    /// The height of the size.
    pub height: u32,
}

} // verus!
