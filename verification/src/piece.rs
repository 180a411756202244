//! Piece definitions: four fixed orientations over a 5x5 occupancy window,
//! with a trimmed bounding box and a kick-offset table per orientation.

use vstd::prelude::*;
use vstd::string::StringExecFns;
use crate::block::{cells, Block, Cells, Color};
use crate::grid::GRID_COUNT_COLS;

verus! {

/// Side length of the occupancy window of an orientation.
pub const WINDOW: usize = 5;

/// Number of kick candidates tried by a rotation.
pub const KICKS: usize = 5;

/// The seven standard shapes.
#[derive(Copy, Clone, Debug, PartialEq, Eq, Structural)]
pub enum Shape {
    I,
    J,
    L,
    O,
    S,
    T,
    Z,
}

/// One orientation of a piece.
///
/// `blocks` is the occupancy mask (zero is empty), `bounds_x` and `bounds_y`
/// are the half-open column and row ranges of the trimmed bounding box, and
/// `offsets` holds the kick offsets as `(column, row)` pairs with rows
/// counted upward.
#[derive(Copy, Clone, Debug, PartialEq, Eq)]
pub struct OrientationDef {
    pub blocks: [[usize; 5]; 5],
    pub offsets: [(isize, isize); 5],
    pub bounds_x: (usize, usize),
    pub bounds_y: (usize, usize),
}

/// The definition of a piece.
#[derive(Copy, Clone, Debug, PartialEq, Eq)]
pub struct Piece {
    pub name: &'static str,
    pub color: Color,
    pub bounds_width: usize,
    pub bounds_height: usize,
    pub orientations: [OrientationDef; 4],
}

impl OrientationDef {
    /// The trimmed bounding box lies inside the occupancy window, and no
    /// kick offset is longer than the window is wide.
    pub open spec fn wf(&self) -> bool {
        &&& self.bounds_x.0 <= self.bounds_x.1 <= WINDOW
        &&& self.bounds_y.0 <= self.bounds_y.1 <= WINDOW
        &&& forall|k: int|
            0 <= k < KICKS ==> {
                &&& -(WINDOW as int) <= (#[trigger] self.offsets[k]).0 <= WINDOW
                &&& -(WINDOW as int) <= self.offsets[k].1 <= WINDOW
            }
    }

    /// Whether the mask has a block at row `i`, column `j` of the window.
    pub open spec fn filled(&self, i: int, j: int) -> bool {
        0 <= i < WINDOW && 0 <= j < WINDOW && self.blocks[i][j] != 0
    }

    /// Whether the trimmed box is the smallest box that holds every block
    /// of the mask: every block lies in it, and each of its four edges
    /// touches a block.
    pub open spec fn tight(&self) -> bool {
        &&& forall|i: int, j: int|
            #[trigger] self.filled(i, j) ==> self.bounds_y.0 <= i < self.bounds_y.1
                && self.bounds_x.0 <= j < self.bounds_x.1
        &&& exists|j: int| #[trigger] self.filled(self.bounds_y.0 as int, j)
        &&& exists|j: int| #[trigger] self.filled(self.bounds_y.1 - 1, j)
        &&& exists|i: int| #[trigger] self.filled(i, self.bounds_x.0 as int)
        &&& exists|i: int| #[trigger] self.filled(i, self.bounds_x.1 - 1)
    }
}

impl OrientationDef {
    /// Whether the orientation is well formed.
    pub fn is_well_formed(&self) -> (ok: bool)
        ensures
            ok == self.wf(),
    {
        if !(self.bounds_x.0 <= self.bounds_x.1 && self.bounds_x.1 <= WINDOW && self.bounds_y.0
            <= self.bounds_y.1 && self.bounds_y.1 <= WINDOW) {
            return false;
        }
        let reach = WINDOW as isize;
        let mut k: usize = 0;
        while k < KICKS
            invariant
                k <= KICKS,
                reach == WINDOW,
                forall|n: int|
                    0 <= n < k ==> {
                        &&& -(WINDOW as int) <= (#[trigger] self.offsets[n]).0 <= WINDOW
                        &&& -(WINDOW as int) <= self.offsets[n].1 <= WINDOW
                    },
            decreases KICKS - k,
        {
            let offset = self.offsets[k];
            if offset.0 < -reach || offset.0 > reach || offset.1 < -reach || offset.1 > reach {
                return false;
            }
            k += 1;
        }
        true
    }
}

impl Piece {
    /// The bounding box lies inside the occupancy window, and every
    /// orientation is well formed.
    pub open spec fn wf(&self) -> bool {
        &&& self.bounds_width <= WINDOW
        &&& self.bounds_height <= WINDOW
        &&& forall|o: int| 0 <= o < 4 ==> (#[trigger] self.orientations[o]).wf()
    }

    /// Whether every block of every orientation lies in the bounding box,
    /// so that the untrimmed canvas shows the whole piece.
    pub open spec fn boxed(&self) -> bool {
        forall|o: int, i: int, j: int|
            0 <= o < 4 && #[trigger] self.orientations[o].filled(i, j) ==> i < self.bounds_height
                && j < self.bounds_width
    }

    /// First row and row count of the canvas of an orientation.
    pub open spec fn canvas_rows(&self, orientation: int, trimmed: bool) -> (int, int) {
        let def = self.orientations[orientation % 4];
        if trimmed {
            (def.bounds_y.0 as int, def.bounds_y.1 - def.bounds_y.0)
        } else {
            (0, self.bounds_height as int)
        }
    }

    /// First column and column count of the canvas of an orientation.
    pub open spec fn canvas_cols(&self, orientation: int, trimmed: bool) -> (int, int) {
        let def = self.orientations[orientation % 4];
        if trimmed {
            (def.bounds_x.0 as int, def.bounds_x.1 - def.bounds_x.0)
        } else {
            (0, self.bounds_width as int)
        }
    }

    /// The canvas of an orientation: the part of its occupancy mask inside
    /// the piece's bounding box or, when `trimmed`, inside the orientation's
    /// own trimmed box, with a block of the piece's colour wherever the mask
    /// is set.
    pub open spec fn canvas(&self, orientation: int, trimmed: bool) -> Cells {
        let def = self.orientations[orientation % 4];
        let (y0, height) = self.canvas_rows(orientation, trimmed);
        let (x0, width) = self.canvas_cols(orientation, trimmed);
        Seq::new(
            height as nat,
            |i: int|
                Seq::new(
                    width as nat,
                    |j: int|
                        if def.blocks[y0 + i][x0 + j] != 0 {
                            Some(Block { color: self.color })
                        } else {
                            None
                        },
                ),
        )
    }

    /// The displacement, as `(columns, rows)`, of kick `index` of a
    /// rotation from orientation `from` to orientation `to`: the difference
    /// of the two orientations' kick offsets, with the sign of the rows
    /// turned over, because the kick offsets count rows upward and the
    /// playfield counts them downward.
    pub open spec fn kick(&self, from: int, to: int, index: int) -> (int, int) {
        let start = self.orientations[from % 4].offsets[index];
        let end = self.orientations[to % 4].offsets[index];
        (start.0 - end.0, end.1 - start.1)
    }

    /// The column at which the piece spawns: the one that centres its
    /// bounding box in the playfield, rounding to the left.
    pub open spec fn initial_col(&self) -> int {
        (GRID_COUNT_COLS - self.bounds_width) / 2
    }

    /// Whether the piece is well formed.
    pub fn is_well_formed(&self) -> (ok: bool)
        ensures
            ok == self.wf(),
    {
        if self.bounds_width > WINDOW || self.bounds_height > WINDOW {
            return false;
        }
        let mut o: usize = 0;
        while o < 4
            invariant
                o <= 4,
                forall|n: int| 0 <= n < o ==> (#[trigger] self.orientations[n]).wf(),
            decreases 4 - o,
        {
            if !self.orientations[o].is_well_formed() {
                return false;
            }
            o += 1;
        }
        true
    }

    /// Builds the canvas of the given orientation (taken modulo 4) of a well
    /// formed piece.
    pub fn get_blocks(&self, orientation: usize, trimmed: bool) -> (canvas: Vec<Vec<Option<Block>>>)
        requires
            self.wf(),
        ensures
            cells(canvas@) == self.canvas(orientation as int, trimmed),
    {
        let def = self.orientations[orientation % 4];
        let (y0, y1) = if trimmed {
            def.bounds_y
        } else {
            (0, self.bounds_height)
        };
        let (x0, x1) = if trimmed {
            def.bounds_x
        } else {
            (0, self.bounds_width)
        };
        let ghost want = self.canvas(orientation as int, trimmed);
        let mut rows: Vec<Vec<Option<Block>>> = Vec::new();
        let mut row_id: usize = y0;
        while row_id < y1
            invariant
                y0 <= row_id <= y1 <= WINDOW,
                x0 <= x1 <= WINDOW,
                want.len() == y1 - y0,
                rows@.len() == row_id - y0,
                forall|i: int| 0 <= i < rows@.len() ==> (#[trigger] rows@[i])@ == want[i],
                forall|i: int, j: int|
                    0 <= i < y1 - y0 && 0 <= j < x1 - x0 ==> (#[trigger] want[i][j]) == (if def.blocks[y0
                        + i][x0 + j] != 0 {
                        Some(Block { color: self.color })
                    } else {
                        None
                    }),
                forall|i: int| 0 <= i < y1 - y0 ==> (#[trigger] want[i]).len() == x1 - x0,
            decreases y1 - row_id,
        {
            let mut row: Vec<Option<Block>> = Vec::new();
            let mut col_id: usize = x0;
            while col_id < x1
                invariant
                    y0 <= row_id < y1 <= WINDOW,
                    x0 <= col_id <= x1 <= WINDOW,
                    row@.len() == col_id - x0,
                    forall|j: int|
                        0 <= j < row@.len() ==> (#[trigger] row@[j]) == (if def.blocks[row_id as int][x0
                            + j] != 0 {
                            Some(Block { color: self.color })
                        } else {
                            None
                        }),
                decreases x1 - col_id,
            {
                let cell = if def.blocks[row_id][col_id] == 0 {
                    None
                } else {
                    Some(Block::new(self.color))
                };
                row.push(cell);
                col_id += 1;
            }
            assert(row@ =~= want[row_id - y0]);
            rows.push(row);
            row_id += 1;
        }
        assert(cells(rows@) =~= want);
        rows
    }

    /// The displacement, as `(columns, rows)`, of kick `index` of a
    /// rotation from orientation `from` to orientation `to`, both taken
    /// modulo 4, of a well formed piece. There are `KICKS` kicks.
    pub fn kick_offset(&self, from: usize, to: usize, index: usize) -> (offset: (isize, isize))
        requires
            self.wf(),
            index < KICKS,
        ensures
            offset.0 == self.kick(from as int, to as int, index as int).0,
            offset.1 == self.kick(from as int, to as int, index as int).1,
    {
        let start = self.orientations[from % 4].offsets[index];
        let end = self.orientations[to % 4].offsets[index];
        assert(self.orientations[(from % 4) as int].wf());
        assert(self.orientations[(to % 4) as int].wf());
        (start.0 - end.0, end.1 - start.1)
    }

    /// The piece as text: its name.
    pub fn to_string(&self) -> (text: String)
        ensures
            text@ == self.name@,
    {
        String::from_str(self.name)
    }

    /// The column at which the piece spawns. The piece may not be wider
    /// than the playfield.
    pub fn get_initial_col(&self) -> (col: isize)
        requires
            self.bounds_width <= GRID_COUNT_COLS,
        ensures
            col == self.initial_col(),
    {
        ((GRID_COUNT_COLS - self.bounds_width) / 2) as isize
    }
}

/// The kicks of a full turn cancel: for each kick index, the displacements
/// of the four rotations from one orientation around to itself add up to
/// nothing.
pub proof fn lemma_kicks_cancel(piece: Piece, from: int, index: int)
    ensures
        piece.kick(from, from + 1, index).0 + piece.kick(from + 1, from + 2, index).0 + piece.kick(
            from + 2,
            from + 3,
            index,
        ).0 + piece.kick(from + 3, from + 4, index).0 == 0,
        piece.kick(from, from + 1, index).1 + piece.kick(from + 1, from + 2, index).1 + piece.kick(
            from + 2,
            from + 3,
            index,
        ).1 + piece.kick(from + 3, from + 4, index).1 == 0,
{
    assert((from + 4) % 4 == from % 4);
}

} // verus!
