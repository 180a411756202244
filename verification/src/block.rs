//! Blocks: the unit cell of pieces and of the playfield.

use vstd::prelude::*;

verus! {

/// An RGBA colour with 8 bits per channel. Purely cosmetic: no rule of the
/// game reads it.
#[derive(Copy, Clone, Debug, PartialEq, Eq, Structural)]
pub struct Color {
    pub r: u8,
    pub g: u8,
    pub b: u8,
    pub a: u8,
}

/// One occupied cell.
#[derive(Copy, Clone, Debug, PartialEq, Eq, Structural)]
pub struct Block {
    pub color: Color,
}

/// A rectangular (possibly ragged) arrangement of optional blocks, row by
/// row. The playfield and the occupancy window of a piece are both seen as
/// `Cells` in specifications.
pub type Cells = Seq<Seq<Option<Block>>>;

/// The cells held by a vector of rows.
pub open spec fn cells(rows: Seq<Vec<Option<Block>>>) -> Cells {
    Seq::new(rows.len(), |i: int| rows[i]@)
}

/// Whether `canvas` has a block at row `i`, column `j`.
pub open spec fn occupied(canvas: Cells, i: int, j: int) -> bool {
    0 <= i < canvas.len() && 0 <= j < canvas[i].len() && canvas[i][j] is Some
}

impl Color {
    pub fn new(r: u8, g: u8, b: u8, a: u8) -> (color: Color)
        ensures
            color == (Color { r, g, b, a }),
    {
        Color { r, g, b, a }
    }
}

impl Block {
    pub fn new(color: Color) -> (block: Block)
        ensures
            block.color == color,
    {
        Block { color }
    }
}

} // verus!
