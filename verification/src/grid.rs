//! The playfield: a fixed matrix of locked blocks, with collision tests,
//! placement, landing-row search and line clearing.

use vstd::prelude::*;
use crate::block::{cells, occupied, Block, Cells};

verus! {

pub const VISIBLE_GRID_COUNT_ROWS: usize = 20;

pub const GRID_COUNT_ROWS: usize = 22;

pub const FIRST_VISIBLE_ROW_ID: usize = GRID_COUNT_ROWS - VISIBLE_GRID_COUNT_ROWS;

pub const GRID_COUNT_COLS: usize = 10;

/// Whether `(r, c)` is a cell of the playfield.
pub open spec fn in_grid(r: int, c: int) -> bool {
    0 <= r < GRID_COUNT_ROWS && 0 <= c < GRID_COUNT_COLS
}

/// Whether `grid` has the dimensions of the playfield.
pub open spec fn well_shaped(grid: Cells) -> bool {
    &&& grid.len() == GRID_COUNT_ROWS
    &&& forall|r: int| 0 <= r < GRID_COUNT_ROWS ==> (#[trigger] grid[r]).len() == GRID_COUNT_COLS
}

/// A playfield row without blocks.
pub open spec fn empty_row() -> Seq<Option<Block>> {
    Seq::new(GRID_COUNT_COLS as nat, |c: int| None)
}

/// `n` rows without blocks.
pub open spec fn empty_rows(n: nat) -> Cells {
    Seq::new(n, |r: int| empty_row())
}

/// The playfield without blocks.
pub open spec fn empty_cells() -> Cells {
    empty_rows(GRID_COUNT_ROWS as nat)
}

/// Whether `canvas`, with its top-left corner at `(row, col)`, has a block
/// that is outside the playfield or on a cell that `grid` already occupies.
pub open spec fn collides(grid: Cells, row: int, col: int, canvas: Cells) -> bool {
    exists|i: int, j: int|
        #[trigger] occupied(canvas, i, j) && (!in_grid(row + i, col + j) || grid[row + i][col
            + j] is Some)
}

/// Whether every block of `canvas`, with its top-left corner at
/// `(row, col)`, is on a cell of the playfield.
pub open spec fn within_grid(row: int, col: int, canvas: Cells) -> bool {
    forall|i: int, j: int| #[trigger] occupied(canvas, i, j) ==> in_grid(row + i, col + j)
}

/// `grid` after the blocks of `canvas` have been written with the canvas's
/// top-left corner at `(row, col)`. Every other cell keeps its content.
pub open spec fn placed(grid: Cells, row: int, col: int, canvas: Cells) -> Cells {
    Seq::new(
        GRID_COUNT_ROWS as nat,
        |r: int|
            Seq::new(
                GRID_COUNT_COLS as nat,
                |c: int|
                    if occupied(canvas, r - row, c - col) {
                        canvas[r - row][c - col]
                    } else {
                        grid[r][c]
                    },
            ),
    )
}

/// Whether every block of `canvas`, with its top edge at `row`, is above the
/// first visible row.
pub open spec fn invisible(row: int, canvas: Cells) -> bool {
    forall|i: int, j: int| #[trigger] occupied(canvas, i, j) ==> row + i < FIRST_VISIBLE_ROW_ID
}

/// Whether `r` is a row of the playfield in which every cell is occupied.
pub open spec fn row_filled(grid: Cells, r: int) -> bool {
    &&& 0 <= r < GRID_COUNT_ROWS
    &&& forall|c: int| 0 <= c < GRID_COUNT_COLS ==> (#[trigger] grid[r][c]) is Some
}

/// The row at which `canvas` comes to rest when it falls from `row` in
/// column `col`: one less than the first row, from `row` downward, at which
/// it collides; the row count of the playfield if it collides at none.
pub open spec fn landing_row(grid: Cells, row: int, col: int, canvas: Cells) -> int
    decreases GRID_COUNT_ROWS - row,
{
    if row >= GRID_COUNT_ROWS {
        GRID_COUNT_ROWS as int
    } else if collides(grid, row, col, canvas) {
        row - 1
    } else {
        landing_row(grid, row + 1, col, canvas)
    }
}

/// The number of filled rows among the first `upto` rows.
pub open spec fn filled_rows(grid: Cells, upto: int) -> nat
    decreases upto,
{
    if upto <= 0 {
        0
    } else if row_filled(grid, upto - 1) {
        filled_rows(grid, upto - 1) + 1
    } else {
        filled_rows(grid, upto - 1)
    }
}

/// The rows among the first `upto` rows that are not filled, top to bottom.
pub open spec fn kept_rows(grid: Cells, upto: int) -> Cells
    decreases upto,
{
    if upto <= 0 {
        Seq::empty()
    } else if row_filled(grid, upto - 1) {
        kept_rows(grid, upto - 1)
    } else {
        kept_rows(grid, upto - 1).push(grid[upto - 1])
    }
}

/// The first `upto` rows after line clearing: one empty row for each filled
/// row, then the rows that are not filled, in their order.
pub open spec fn compacted(grid: Cells, upto: int) -> Cells {
    empty_rows(filled_rows(grid, upto)) + kept_rows(grid, upto)
}

/// The playfield after line clearing.
pub open spec fn cleared(grid: Cells) -> Cells {
    compacted(grid, GRID_COUNT_ROWS as int)
}

/// Among the first `upto` rows, each is either filled or kept.
pub proof fn lemma_kept_rows_len(grid: Cells, upto: int)
    requires
        0 <= upto,
    ensures
        kept_rows(grid, upto).len() + filled_rows(grid, upto) == upto,
        compacted(grid, upto).len() == upto,
    decreases upto,
{
    if upto > 0 {
        lemma_kept_rows_len(grid, upto - 1);
    }
}

/// Counting filled rows is monotone in the number of rows counted.
pub proof fn lemma_filled_rows_monotone(grid: Cells, lo: int, hi: int)
    requires
        lo <= hi,
    ensures
        filled_rows(grid, lo) <= filled_rows(grid, hi),
    decreases hi - lo,
{
    if lo < hi {
        lemma_filled_rows_monotone(grid, lo, hi - 1);
    }
}

/// Appending a row that is not filled to the rows considered appends it to
/// the compacted rows.
proof fn lemma_compacted_keep(grid: Cells, upto: int)
    requires
        0 <= upto,
        !row_filled(grid, upto),
    ensures
        compacted(grid, upto + 1) == compacted(grid, upto).push(grid[upto]),
{
    assert(compacted(grid, upto + 1) =~= compacted(grid, upto).push(grid[upto]));
}

/// Appending a filled row to the rows considered puts one more empty row in
/// front of the compacted rows.
proof fn lemma_compacted_drop(grid: Cells, upto: int)
    requires
        0 <= upto,
        row_filled(grid, upto),
    ensures
        compacted(grid, upto + 1) == seq![empty_row()] + compacted(grid, upto),
{
    assert(compacted(grid, upto + 1) =~= seq![empty_row()] + compacted(grid, upto));
}

/// The landing row lies between the row above the start and the row count.
/// The canvas collides at no row from the start down to the landing row,
/// and collides one row below the landing row unless it fell through.
pub proof fn lemma_landing_row(grid: Cells, row: int, col: int, canvas: Cells)
    requires
        row <= GRID_COUNT_ROWS,
    ensures
        row - 1 <= landing_row(grid, row, col, canvas) <= GRID_COUNT_ROWS,
        forall|r: int|
            row <= r <= landing_row(grid, row, col, canvas) && r < GRID_COUNT_ROWS ==> !collides(
                grid,
                r,
                col,
                canvas,
            ),
        landing_row(grid, row, col, canvas) < GRID_COUNT_ROWS ==> collides(
            grid,
            landing_row(grid, row, col, canvas) + 1,
            col,
            canvas,
        ),
    decreases GRID_COUNT_ROWS - row,
{
    if row < GRID_COUNT_ROWS && !collides(grid, row, col, canvas) {
        lemma_landing_row(grid, row + 1, col, canvas);
    }
}

/// A canvas that fits at `row` and has a block below its first row lands on
/// a row of the playfield, at or below `row`, and fits there.
pub proof fn lemma_landing_fits(grid: Cells, row: int, col: int, canvas: Cells, i: int, j: int)
    requires
        !collides(grid, row, col, canvas),
        occupied(canvas, i, j),
        i >= 1,
    ensures
        row <= landing_row(grid, row, col, canvas) <= GRID_COUNT_ROWS - 1 - i,
        !collides(grid, landing_row(grid, row, col, canvas), col, canvas),
{
    assert(in_grid(row + i, col + j));
    lemma_landing_row(grid, row, col, canvas);
    assert(collides(grid, GRID_COUNT_ROWS - i, col, canvas)) by {
        assert(occupied(canvas, i, j) && !in_grid(GRID_COUNT_ROWS - i + i, col + j));
    }
}

/// Placement follows a passed collision check: a canvas that does not
/// collide lies within the playfield and, once placed, each of its blocks
/// is found at its cell of the playfield, while every cell that the canvas
/// has no block for keeps what it held.
pub proof fn lemma_placed_after_check(grid: Cells, row: int, col: int, canvas: Cells)
    requires
        !collides(grid, row, col, canvas),
    ensures
        within_grid(row, col, canvas),
        well_shaped(placed(grid, row, col, canvas)),
        forall|i: int, j: int|
            #[trigger] occupied(canvas, i, j) ==> placed(grid, row, col, canvas)[row + i][col + j]
                == canvas[i][j],
        forall|r: int, c: int|
            in_grid(r, c) && !occupied(canvas, r - row, c - col) ==> #[trigger] placed(
                grid,
                row,
                col,
                canvas,
            )[r][c] == grid[r][c],
{
    assert forall|i: int, j: int| #[trigger] occupied(canvas, i, j) implies in_grid(
        row + i,
        col + j,
    ) && placed(grid, row, col, canvas)[row + i][col + j] == canvas[i][j] by {
        assert(in_grid(row + i, col + j));
        assert(row + i - row == i && col + j - col == j);
    }
}

/// A row that is not filled is found among the kept rows, below as many of
/// them as there are unfilled rows above it.
proof fn lemma_kept_row(grid: Cells, upto: int, r: int)
    requires
        0 <= r < upto,
        !row_filled(grid, r),
    ensures
        0 <= r - filled_rows(grid, r) < kept_rows(grid, upto).len(),
        kept_rows(grid, upto)[r - filled_rows(grid, r)] == grid[r],
    decreases upto,
{
    lemma_kept_rows_len(grid, r);
    lemma_kept_rows_len(grid, upto - 1);
    lemma_kept_rows_len(grid, upto);
    if r < upto - 1 {
        lemma_kept_row(grid, upto - 1, r);
    }
}

/// Line clearing moves every row that is not filled down by the number of
/// filled rows below it, and leaves as many empty rows at the top as there
/// were filled rows.
pub proof fn lemma_cleared(grid: Cells, r: int)
    requires
        0 <= r < GRID_COUNT_ROWS,
    ensures
        cleared(grid).len() == GRID_COUNT_ROWS,
        filled_rows(grid, r) <= filled_rows(grid, GRID_COUNT_ROWS as int) <= GRID_COUNT_ROWS,
        !row_filled(grid, r) ==> cleared(grid)[r + filled_rows(grid, GRID_COUNT_ROWS as int)
            - filled_rows(grid, r)] == grid[r],
        r < filled_rows(grid, GRID_COUNT_ROWS as int) ==> cleared(grid)[r] == empty_row(),
{
    lemma_kept_rows_len(grid, GRID_COUNT_ROWS as int);
    lemma_filled_rows_monotone(grid, r, GRID_COUNT_ROWS as int);
    if !row_filled(grid, r) {
        lemma_kept_row(grid, GRID_COUNT_ROWS as int, r);
    }
}

/// The playfield: 22 rows of 10 cells, of which the upper two rows are
/// hidden.
#[derive(Debug)]
pub struct Grid {
    rows: [[Option<Block>; 10]; 22],
}

impl View for Grid {
    type V = Cells;

    closed spec fn view(&self) -> Cells {
        Seq::new(GRID_COUNT_ROWS as nat, |r: int| self.rows@[r]@)
    }
}

impl Grid {
    /// A playfield always has its fixed dimensions.
    pub proof fn lemma_well_shaped(&self)
        ensures
            well_shaped(self@),
    {
    }

    /// An empty playfield.
    pub fn new() -> (grid: Grid)
        ensures
            grid@ == empty_cells(),
    {
        let grid = Grid { rows: [[None;10];22] };
        assert(grid@ =~~= empty_cells());
        grid
    }

    /// Removes every block.
    pub fn clear(&mut self)
        ensures
            final(self)@ == empty_cells(),
    {
        let mut row_id: usize = 0;
        while row_id < GRID_COUNT_ROWS
            invariant
                row_id <= GRID_COUNT_ROWS,
                forall|r: int| 0 <= r < row_id ==> (#[trigger] self@[r]) == empty_row(),
            decreases GRID_COUNT_ROWS - row_id,
        {
            let mut col_id: usize = 0;
            while col_id < GRID_COUNT_COLS
                invariant
                    row_id < GRID_COUNT_ROWS,
                    col_id <= GRID_COUNT_COLS,
                    forall|r: int| 0 <= r < row_id ==> (#[trigger] self@[r]) == empty_row(),
                    forall|c: int| 0 <= c < col_id ==> (#[trigger] self@[row_id as int][c]) is None,
                decreases GRID_COUNT_COLS - col_id,
            {
                self.set_cell(row_id, col_id, None);
                col_id += 1;
            }
            assert(self@[row_id as int] =~= empty_row());
            row_id += 1;
        }
        assert(self@ =~= empty_cells());
    }

    /// Writes `value` to the cell at `(row_id, col_id)`. A position outside
    /// the playfield is ignored.
    pub fn set_cell(&mut self, row_id: usize, col_id: usize, value: Option<Block>)
        ensures
            final(self)@ == (if in_grid(row_id as int, col_id as int) {
                old(self)@.update(row_id as int, old(self)@[row_id as int].update(col_id as int, value))
            } else {
                old(self)@
            }),
    {
        if row_id >= GRID_COUNT_ROWS || col_id >= GRID_COUNT_COLS {
            return ;
        }
        self.rows[row_id][col_id] = value;
        assert(self@ =~~= old(self)@.update(
            row_id as int,
            old(self)@[row_id as int].update(col_id as int, value),
        ));
    }

    /// Writes every block of `canvas` into the playfield, with the canvas's
    /// top-left corner at `(row_offset, col_offset)`.
    ///
    /// Every block has to land on a cell of the playfield: a canvas that
    /// passed `collision_check` at this position does.
    pub fn set_cells(
        &mut self,
        row_offset: isize,
        col_offset: isize,
        canvas: &Vec<Vec<Option<Block>>>,
    )
        requires
            within_grid(row_offset as int, col_offset as int, cells(canvas@)),
        ensures
            final(self)@ == placed(old(self)@, row_offset as int, col_offset as int, cells(canvas@)),
    {
        let ghost before = self@;
        let ghost cv = cells(canvas@);
        let ghost row = row_offset as int;
        let ghost col = col_offset as int;
        let mut i: usize = 0;
        while i < canvas.len()
            invariant
                i <= canvas@.len(),
                cv == cells(canvas@),
                row == row_offset as int,
                col == col_offset as int,
                within_grid(row, col, cv),
                well_shaped(self@),
                forall|r: int, c: int|
                    in_grid(r, c) ==> (#[trigger] self@[r][c]) == (if occupied(cv, r - row, c - col)
                        && r - row < i {
                        cv[r - row][c - col]
                    } else {
                        before[r][c]
                    }),
            decreases canvas@.len() - i,
        {
            let canvas_row = &canvas[i];
            let mut j: usize = 0;
            while j < canvas_row.len()
                invariant
                    i < canvas@.len(),
                    canvas_row@ == cv[i as int],
                    j <= canvas_row@.len(),
                    cv == cells(canvas@),
                    row == row_offset as int,
                    col == col_offset as int,
                    within_grid(row, col, cv),
                    well_shaped(self@),
                    forall|r: int, c: int|
                        in_grid(r, c) ==> (#[trigger] self@[r][c]) == (if occupied(
                            cv,
                            r - row,
                            c - col,
                        ) && (r - row < i || (r - row == i && c - col < j)) {
                            cv[r - row][c - col]
                        } else {
                            before[r][c]
                        }),
                decreases canvas_row@.len() - j,
            {
                if canvas_row[j].is_some() {
                    assert(occupied(cv, i as int, j as int));
                    let grid_row_id: i128 = i as i128 + row_offset as i128;
                    let grid_col_id: i128 = j as i128 + col_offset as i128;
                    let ghost prev = self@;
                    self.set_cell(grid_row_id as usize, grid_col_id as usize, canvas_row[j]);
                    assert forall|r: int, c: int| in_grid(r, c) implies (#[trigger] self@[r][c]) == (
                    if occupied(cv, r - row, c - col) && (r - row < i || (r - row == i && c - col < j
                        + 1)) {
                        cv[r - row][c - col]
                    } else {
                        before[r][c]
                    }) by {
                        if r == grid_row_id && c == grid_col_id {
                        } else {
                            assert(self@[r][c] == prev[r][c]);
                        }
                    }
                }
                j += 1;
            }
            i += 1;
        }
        assert(self@ =~~= placed(before, row, col, cv));
    }

    /// Whether `canvas`, with its top-left corner at
    /// `(row_offset, col_offset)`, has a block outside the playfield or on an
    /// occupied cell.
    pub fn collision_check(
        &self,
        row_offset: isize,
        col_offset: isize,
        canvas: &Vec<Vec<Option<Block>>>,
    ) -> (hit: bool)
        ensures
            hit == collides(self@, row_offset as int, col_offset as int, cells(canvas@)),
    {
        let ghost cv = cells(canvas@);
        let ghost row = row_offset as int;
        let ghost col = col_offset as int;
        let mut i: usize = 0;
        while i < canvas.len()
            invariant
                i <= canvas@.len(),
                cv == cells(canvas@),
                row == row_offset as int,
                col == col_offset as int,
                forall|a: int, b: int|
                    #[trigger] occupied(cv, a, b) && a < i ==> in_grid(row + a, col + b)
                        && self@[row + a][col + b] is None,
            decreases canvas@.len() - i,
        {
            let canvas_row = &canvas[i];
            let mut j: usize = 0;
            while j < canvas_row.len()
                invariant
                    i < canvas@.len(),
                    canvas_row@ == cv[i as int],
                    j <= canvas_row@.len(),
                    cv == cells(canvas@),
                    row == row_offset as int,
                    col == col_offset as int,
                    forall|a: int, b: int|
                        #[trigger] occupied(cv, a, b) && (a < i || (a == i && b < j)) ==> in_grid(
                            row + a,
                            col + b,
                        ) && self@[row + a][col + b] is None,
                decreases canvas_row@.len() - j,
            {
                if canvas_row[j].is_some() {
                    assert(occupied(cv, i as int, j as int));
                    let grid_row_id: i128 = i as i128 + row_offset as i128;
                    let grid_col_id: i128 = j as i128 + col_offset as i128;
                    if grid_row_id < 0 || grid_col_id < 0 || grid_row_id >= 22 || grid_col_id >= 10
                        || self.has_block_at_cell(grid_row_id as usize, grid_col_id as usize) {
                        return true;
                    }
                }
                j += 1;
            }
            i += 1;
        }
        false
    }

    /// Whether every block of `canvas`, with its top edge at `row_offset`,
    /// would lie above the first visible row.
    pub fn invisible_check(&self, row_offset: isize, canvas: &Vec<Vec<Option<Block>>>) -> (hidden:
        bool)
        ensures
            hidden == invisible(row_offset as int, cells(canvas@)),
    {
        let ghost cv = cells(canvas@);
        let mut i: usize = 0;
        while i < canvas.len()
            invariant
                i <= canvas@.len(),
                cv == cells(canvas@),
                forall|a: int, b: int|
                    #[trigger] occupied(cv, a, b) && a < i ==> row_offset + a < FIRST_VISIBLE_ROW_ID,
            decreases canvas@.len() - i,
        {
            let canvas_row = &canvas[i];
            let mut j: usize = 0;
            while j < canvas_row.len()
                invariant
                    i < canvas@.len(),
                    canvas_row@ == cv[i as int],
                    j <= canvas_row@.len(),
                    cv == cells(canvas@),
                    forall|a: int, b: int|
                        #[trigger] occupied(cv, a, b) && (a < i || (a == i && b < j)) ==> row_offset
                            + a < FIRST_VISIBLE_ROW_ID,
                decreases canvas_row@.len() - j,
            {
                if canvas_row[j].is_some() {
                    assert(occupied(cv, i as int, j as int));
                    let grid_row_id: i128 = i as i128 + row_offset as i128;
                    if grid_row_id >= 2 {
                        return false;
                    }
                }
                j += 1;
            }
            i += 1;
        }
        true
    }

    /// The row at which `canvas` comes to rest when it falls from
    /// `row_offset` in column `col_offset`.
    ///
    /// The start may be any row but the smallest `isize`, above which there
    /// is no row to land on.
    pub fn find_landing_row(
        &self,
        row_offset: isize,
        col_offset: isize,
        canvas: &Vec<Vec<Option<Block>>>,
    ) -> (row: isize)
        requires
            row_offset > isize::MIN,
        ensures
            row == landing_row(self@, row_offset as int, col_offset as int, cells(canvas@)),
    {
        let mut next_row_offset: isize = row_offset;
        while next_row_offset < 22
            invariant
                isize::MIN < row_offset <= next_row_offset,
                landing_row(self@, row_offset as int, col_offset as int, cells(canvas@))
                    == landing_row(self@, next_row_offset as int, col_offset as int, cells(canvas@)),
            decreases 22 - next_row_offset,
        {
            let has_collision = self.collision_check(next_row_offset, col_offset, canvas);
            if has_collision {
                return next_row_offset - 1;
            }
            next_row_offset += 1;
        }
        22
    }

    /// The content of the cell at `(row_id, col_id)`; `None` outside the
    /// playfield.
    pub fn get_cell(&self, row_id: usize, col_id: usize) -> (cell: Option<Block>)
        ensures
            cell == (if in_grid(row_id as int, col_id as int) {
                self@[row_id as int][col_id as int]
            } else {
                None
            }),
    {
        if row_id >= GRID_COUNT_ROWS || col_id >= GRID_COUNT_COLS {
            return None;
        }
        self.rows[row_id][col_id]
    }

    /// Whether the cell at `(row_id, col_id)` is inside the playfield and
    /// occupied.
    pub fn has_block_at_cell(&self, row_id: usize, col_id: usize) -> (has_block: bool)
        ensures
            has_block == (in_grid(row_id as int, col_id as int) && self@[row_id as int][col_id as int]
                is Some),
    {
        if row_id >= GRID_COUNT_ROWS || col_id >= GRID_COUNT_COLS {
            return false;
        }
        self.rows[row_id][col_id].is_some()
    }

    /// Empties row `row_id`. A row outside the playfield is ignored.
    pub fn clear_row(&mut self, row_id: usize)
        ensures
            final(self)@ == (if row_id < GRID_COUNT_ROWS {
                old(self)@.update(row_id as int, empty_row())
            } else {
                old(self)@
            }),
    {
        if row_id >= GRID_COUNT_ROWS {
            return ;
        }
        self.rows[row_id] = [None;10];
        assert(self@ =~~= old(self)@.update(row_id as int, empty_row()));
    }

    /// Whether `row_id` is a row of the playfield with every cell occupied.
    pub fn is_row_filled(&self, row_id: usize) -> (filled: bool)
        ensures
            filled == row_filled(self@, row_id as int),
    {
        if row_id >= GRID_COUNT_ROWS {
            return false;
        }
        let mut col_id: usize = 0;
        while col_id < GRID_COUNT_COLS
            invariant
                row_id < GRID_COUNT_ROWS,
                col_id <= GRID_COUNT_COLS,
                forall|c: int| 0 <= c < col_id ==> (#[trigger] self@[row_id as int][c]) is Some,
            decreases GRID_COUNT_COLS - col_id,
        {
            match self.get_cell(row_id, col_id) {
                Some(_block) => (),
                None => {
                    return false;
                },
            }
            col_id += 1;
        }
        true
    }

    /// Moves row `row_id` to the top, shifting the rows above it down by one.
    fn bubble_up(&mut self, row_id: usize)
        requires
            row_id < GRID_COUNT_ROWS,
        ensures
            final(self)@ == seq![old(self)@[row_id as int]] + old(self)@.subrange(0, row_id as int)
                + old(self)@.subrange(row_id + 1, GRID_COUNT_ROWS as int),
    {
        let ghost before = self@;
        let mut at: usize = row_id;
        while at > 0
            invariant
                at <= row_id < GRID_COUNT_ROWS,
                well_shaped(before),
                self@ == before.subrange(0, at as int) + seq![before[row_id as int]]
                    + before.subrange(at as int, row_id as int) + before.subrange(
                    row_id + 1,
                    GRID_COUNT_ROWS as int,
                ),
            decreases at,
        {
            let ghost prev = self@;
            let upper = self.rows[at - 1];
            let lower = self.rows[at];
            self.rows[at - 1] = lower;
            self.rows[at] = upper;
            assert(self@ =~= prev.update(at - 1, prev[at as int]).update(at as int, prev[at - 1]));
            at -= 1;
            assert(self@ =~= before.subrange(0, at as int) + seq![before[row_id as int]]
                + before.subrange(at as int, row_id as int) + before.subrange(
                row_id + 1,
                GRID_COUNT_ROWS as int,
            ));
        }
        assert(self@ =~= seq![before[row_id as int]] + before.subrange(0, row_id as int)
            + before.subrange(row_id + 1, GRID_COUNT_ROWS as int));
    }

    /// Clears every filled row and lets the rows above each drop into the
    /// gap, keeping their order. Returns the number of rows cleared.
    pub fn clear_all_filled_rows(&mut self) -> (count: usize)
        ensures
            count == filled_rows(old(self)@, GRID_COUNT_ROWS as int),
            final(self)@ == cleared(old(self)@),
    {
        let ghost before = self@;
        let mut cleared_row_ids: Vec<usize> = Vec::new();
        let mut row_id: usize = 0;
        while row_id < GRID_COUNT_ROWS
            invariant
                row_id <= GRID_COUNT_ROWS,
                well_shaped(before),
                cleared_row_ids@.len() == filled_rows(before, row_id as int),
                forall|k: int|
                    0 <= k < cleared_row_ids@.len() ==> {
                        &&& (#[trigger] cleared_row_ids@[k]) < row_id
                        &&& row_filled(before, cleared_row_ids@[k] as int)
                        &&& filled_rows(before, cleared_row_ids@[k] as int) == k
                    },
                forall|r: int|
                    0 <= r < GRID_COUNT_ROWS ==> (#[trigger] self@[r]) == (if r < row_id && row_filled(
                        before,
                        r,
                    ) {
                        empty_row()
                    } else {
                        before[r]
                    }),
            decreases GRID_COUNT_ROWS - row_id,
        {
            assert(self@[row_id as int] == before[row_id as int]);
            if self.is_row_filled(row_id) {
                self.clear_row(row_id);
                cleared_row_ids.push(row_id);
            }
            row_id += 1;
        }
        let cleared_row_count = cleared_row_ids.len();
        let ghost emptied = self@;
        let ghost mut done: int = 0;
        proof {
            assert(self@ =~= compacted(before, 0) + emptied.subrange(0, GRID_COUNT_ROWS as int));
        }
        let mut index: usize = 0;
        while index < cleared_row_ids.len()
            invariant
                index <= cleared_row_ids@.len(),
                well_shaped(before),
                well_shaped(emptied),
                cleared_row_ids@.len() == filled_rows(before, GRID_COUNT_ROWS as int),
                forall|k: int|
                    0 <= k < cleared_row_ids@.len() ==> {
                        &&& (#[trigger] cleared_row_ids@[k]) < GRID_COUNT_ROWS
                        &&& row_filled(before, cleared_row_ids@[k] as int)
                        &&& filled_rows(before, cleared_row_ids@[k] as int) == k
                    },
                forall|r: int|
                    0 <= r < GRID_COUNT_ROWS ==> (#[trigger] emptied[r]) == (if row_filled(before, r) {
                        empty_row()
                    } else {
                        before[r]
                    }),
                0 <= done <= GRID_COUNT_ROWS,
                filled_rows(before, done) == index,
                self@ == compacted(before, done) + emptied.subrange(done, GRID_COUNT_ROWS as int),
            decreases cleared_row_ids@.len() - index,
        {
            let row_id = cleared_row_ids[index];
            proof {
                if done > row_id {
                    lemma_filled_rows_monotone(before, row_id as int + 1, done);
                }
                lemma_advance(before, emptied, self@, done, row_id as int);
                lemma_compacted_drop(before, row_id as int);
                lemma_kept_rows_len(before, row_id as int);
            }
            if row_id != 0 {
                self.bubble_up(row_id);
            }
            proof {
                let mid = compacted(before, row_id as int) + emptied.subrange(
                    row_id as int,
                    GRID_COUNT_ROWS as int,
                );
                assert(mid[row_id as int] == empty_row());
                assert(seq![mid[row_id as int]] + mid.subrange(0, row_id as int) + mid.subrange(
                    row_id + 1,
                    GRID_COUNT_ROWS as int,
                ) =~= compacted(before, row_id + 1) + emptied.subrange(
                    row_id + 1,
                    GRID_COUNT_ROWS as int,
                ));
                if row_id == 0 {
                    assert(mid =~= seq![mid[0]] + mid.subrange(0, 0) + mid.subrange(
                        1,
                        GRID_COUNT_ROWS as int,
                    ));
                }
                done = row_id + 1;
            }
            index += 1;
        }
        proof {
            lemma_filled_rows_monotone(before, done, GRID_COUNT_ROWS as int);
            lemma_advance(before, emptied, self@, done, GRID_COUNT_ROWS as int);
            assert(self@ =~= cleared(before));
        }
        cleared_row_count
    }
}

/// While no filled row lies between `from` and `to`, the rows compacted so
/// far, followed by the remaining rows with the filled ones emptied, stay
/// the same sequence.
proof fn lemma_advance(before: Cells, emptied: Cells, now: Cells, from: int, to: int)
    requires
        0 <= from <= to <= GRID_COUNT_ROWS,
        well_shaped(emptied),
        filled_rows(before, from) == filled_rows(before, to),
        forall|r: int|
            0 <= r < GRID_COUNT_ROWS ==> (#[trigger] emptied[r]) == (if row_filled(before, r) {
                empty_row()
            } else {
                before[r]
            }),
        now == compacted(before, from) + emptied.subrange(from, GRID_COUNT_ROWS as int),
    ensures
        now == compacted(before, to) + emptied.subrange(to, GRID_COUNT_ROWS as int),
    decreases to - from,
{
    if from < to {
        lemma_filled_rows_monotone(before, from, to - 1);
        lemma_filled_rows_monotone(before, to - 1, to);
        lemma_advance(before, emptied, now, from, to - 1);
        lemma_compacted_keep(before, to - 1);
        lemma_kept_rows_len(before, to - 1);
        assert(compacted(before, to - 1) + emptied.subrange(to - 1, GRID_COUNT_ROWS as int)
            =~= compacted(before, to) + emptied.subrange(to, GRID_COUNT_ROWS as int));
    }
}

} // verus!
