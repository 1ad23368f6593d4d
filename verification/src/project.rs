//! Device-independent project data: the grid shape and the canvas size.

use vstd::prelude::*;

verus! {

/// The type of grid a project draws on.
#[derive(Debug, Clone, Copy, PartialEq, Eq, Structural)]
pub enum GridType {
    Square,
    Hexagonal,
}

/// The size of the canvas in grid tiles.
#[derive(Debug, Clone, Copy, PartialEq, Eq, Structural, Hash)]
pub struct CanvasSize {
    pub width: u64,
    pub height: u64,
}

impl CanvasSize {
    /// The number of tiles on the canvas.
    pub open spec fn spec_area(&self) -> int {
        self.width * self.height
    }

    /// The number of tiles on the canvas; one instance is drawn per tile.
    pub fn area(&self) -> (a: u64)
        requires
            self.width * self.height <= u64::MAX,
        ensures
            a == self.spec_area(),
    {
        self.width * self.height
    }
}

/// One tile's index into the palette, as laid out in the canvas index buffer.
#[derive(Debug, Clone, Copy, PartialEq, Eq, Structural, Hash)]
pub struct PaletteIndex {
    pub idx: u32,
}

} // verus!
