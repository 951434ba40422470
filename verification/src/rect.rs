//! A rectangle with integer dimensions, together with its area, perimeter
//! and a strict dimension-wise containment test.

use vstd::prelude::*;

verus! {

/// A rectangle described by its width and height.
#[derive(Debug)]
pub struct Rectangle {
    pub width: u32,
    pub height: u32,
}

impl Rectangle {
    /// The area is the product of the two dimensions.
    pub fn area(&self) -> (r: u32)
        requires
            self.width * self.height <= u32::MAX,
        ensures
            r == self.width * self.height,
    {
        self.width * self.height
    }

    /// One rectangle can hold another exactly when both of its dimensions
    /// strictly exceed the corresponding dimensions of the other.
    pub fn can_hold(&self, other: &Rectangle) -> (r: bool)
        ensures
            r == (self.width > other.width && self.height > other.height),
    {
        self.width > other.width && self.height > other.height
    }

    /// A square has both dimensions equal to the given size.
    pub fn square(size: u32) -> (r: Self)
        ensures
            r.width == size,
            r.height == size,
    {
        Self { width: size, height: size }
    }
}

/// The perimeter is twice the sum of the two dimensions.
pub fn perimeter(rectangle: &Rectangle) -> (r: u32)
    requires
        2 * (rectangle.width + rectangle.height) <= u32::MAX,
    ensures
        r == 2 * (rectangle.width + rectangle.height),
{
    2 * (rectangle.width + rectangle.height)
}

} // verus!
