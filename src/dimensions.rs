use vstd::prelude::*;

verus! {

/// The width and height of a grid, in cells.
#[derive(Clone, Copy, Debug, PartialEq, Eq, Structural)]
pub struct Dimensions {
    pub width: u32,
    pub height: u32,
}

impl Dimensions {
    /// The number of cells of a grid of these dimensions.
    pub open spec fn spec_area(self) -> nat {
        self.width as nat * self.height as nat
    }

    pub fn new(width: u32, height: u32) -> (r: Dimensions)
        ensures
            r.width == width,
            r.height == height,
    {
        Dimensions { width, height }
    }

    pub fn width(&self) -> (r: u32)
        ensures
            r == self.width,
    {
        self.width
    }

    pub fn height(&self) -> (r: u32)
        ensures
            r == self.height,
    {
        self.height
    }

    /// The number of cells, where it fits in a `usize`.
    pub fn area(&self) -> (r: usize)
        requires
            self.spec_area() <= usize::MAX,
        ensures
            r == self.spec_area(),
    {
        self.width as usize * self.height as usize
    }
}

} // verus!
