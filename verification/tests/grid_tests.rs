use bloxide::block::{Block, Color};
use bloxide::grid::{
    Grid, FIRST_VISIBLE_ROW_ID, GRID_COUNT_COLS, GRID_COUNT_ROWS, VISIBLE_GRID_COUNT_ROWS,
};
use bloxide::pieces;

fn block(tag: u8) -> Option<Block> {
    Some(Block::new(Color::new(tag, 0, 0, 255)))
}

fn fill_row(grid: &mut Grid, row: usize, tag: u8) {
    for col in 0..GRID_COUNT_COLS {
        grid.set_cell(row, col, block(tag));
    }
}

fn snapshot(grid: &Grid) -> Vec<Vec<Option<Block>>> {
    (0..GRID_COUNT_ROWS)
        .map(|row| (0..GRID_COUNT_COLS).map(|col| grid.get_cell(row, col)).collect())
        .collect()
}

fn count_blocks(grid: &Grid) -> usize {
    snapshot(grid).iter().flatten().filter(|cell| cell.is_some()).count()
}

fn square() -> Vec<Vec<Option<Block>>> {
    vec![vec![block(7), block(7)], vec![block(7), block(7)]]
}

#[test]
fn dimensions_of_the_playfield() {
    assert_eq!(GRID_COUNT_ROWS, 22);
    assert_eq!(GRID_COUNT_COLS, 10);
    assert_eq!(VISIBLE_GRID_COUNT_ROWS, 20);
    assert_eq!(FIRST_VISIBLE_ROW_ID, 2);
}

#[test]
fn new_grid_is_empty() {
    let grid = Grid::new();
    assert_eq!(count_blocks(&grid), 0);
    for row in 0..GRID_COUNT_ROWS {
        for col in 0..GRID_COUNT_COLS {
            assert!(grid.get_cell(row, col).is_none());
            assert!(!grid.has_block_at_cell(row, col));
        }
    }
}

#[test]
fn set_cell_writes_one_cell() {
    let mut grid = Grid::new();
    grid.set_cell(5, 3, block(9));
    assert_eq!(grid.get_cell(5, 3), block(9));
    assert!(grid.has_block_at_cell(5, 3));
    assert_eq!(count_blocks(&grid), 1);
    grid.set_cell(5, 3, None);
    assert_eq!(count_blocks(&grid), 0);
}

#[test]
fn cells_outside_the_playfield_are_ignored() {
    let mut grid = Grid::new();
    grid.set_cell(22, 0, block(1));
    grid.set_cell(0, 10, block(1));
    grid.set_cell(usize::MAX, usize::MAX, block(1));
    assert_eq!(count_blocks(&grid), 0);
    assert_eq!(grid.get_cell(22, 0), None);
    assert_eq!(grid.get_cell(0, 10), None);
    assert!(!grid.has_block_at_cell(22, 0));
    assert!(!grid.has_block_at_cell(0, 10));
    grid.clear_row(22);
    assert!(!grid.is_row_filled(22));
}

#[test]
fn clear_removes_every_block() {
    let mut grid = Grid::new();
    fill_row(&mut grid, 0, 1);
    fill_row(&mut grid, 21, 2);
    grid.set_cell(10, 5, block(3));
    grid.clear();
    assert_eq!(count_blocks(&grid), 0);
}

#[test]
fn collision_with_the_walls_and_the_floor() {
    let grid = Grid::new();
    let canvas = square();
    assert!(!grid.collision_check(0, 0, &canvas));
    assert!(!grid.collision_check(20, 8, &canvas));
    assert!(grid.collision_check(-1, 0, &canvas));
    assert!(grid.collision_check(0, -1, &canvas));
    assert!(grid.collision_check(21, 0, &canvas));
    assert!(grid.collision_check(0, 9, &canvas));
    assert!(grid.collision_check(22, 0, &canvas));
    assert!(grid.collision_check(0, 10, &canvas));
    assert!(grid.collision_check(isize::MAX, 0, &canvas));
    assert!(grid.collision_check(0, isize::MIN, &canvas));
}

#[test]
fn collision_looks_at_occupied_canvas_cells_only() {
    let grid = Grid::new();
    let canvas = pieces::o().get_blocks(0, false);
    assert!(!grid.collision_check(0, -1, &canvas));
    assert!(grid.collision_check(0, -2, &canvas));
    assert!(!grid.collision_check(20, 7, &canvas));
    assert!(grid.collision_check(20, 8, &canvas));
    assert!(grid.collision_check(21, 7, &canvas));
    let empty: Vec<Vec<Option<Block>>> = vec![vec![None; 3]; 3];
    assert!(!grid.collision_check(-100, -100, &empty));
    assert!(!grid.collision_check(100, 100, &empty));
}

#[test]
fn collision_with_locked_blocks() {
    let mut grid = Grid::new();
    grid.set_cell(10, 4, block(1));
    let canvas = square();
    assert!(grid.collision_check(10, 4, &canvas));
    assert!(grid.collision_check(9, 3, &canvas));
    assert!(grid.collision_check(9, 4, &canvas));
    assert!(grid.collision_check(10, 3, &canvas));
    assert!(!grid.collision_check(8, 4, &canvas));
    assert!(!grid.collision_check(11, 4, &canvas));
    assert!(!grid.collision_check(10, 5, &canvas));
    assert!(!grid.collision_check(10, 2, &canvas));
}

#[test]
fn placement_after_a_passed_check_is_found_again() {
    let mut grid = Grid::new();
    grid.set_cell(21, 0, block(1));
    for shape_piece in [pieces::i(), pieces::j(), pieces::l(), pieces::o(), pieces::s(), pieces::t(), pieces::z()] {
        for orientation in 0..4 {
            let canvas = shape_piece.get_blocks(orientation, false);
            for row in -3..22isize {
                for col in -3..10isize {
                    if grid.collision_check(row, col, &canvas) {
                        continue;
                    }
                    let mut placed = Grid::new();
                    placed.set_cell(21, 0, block(1));
                    placed.set_cells(row, col, &canvas);
                    assert_eq!(count_blocks(&placed), 5);
                    for (i, canvas_row) in canvas.iter().enumerate() {
                        for (j, cell) in canvas_row.iter().enumerate() {
                            if cell.is_some() {
                                let r = (row + i as isize) as usize;
                                let c = (col + j as isize) as usize;
                                assert!(placed.has_block_at_cell(r, c));
                                assert_eq!(placed.get_cell(r, c), *cell);
                            }
                        }
                    }
                    assert_eq!(placed.get_cell(21, 0), block(1));
                }
            }
        }
    }
}

#[test]
fn set_cells_overwrites_and_keeps_the_rest() {
    let mut grid = Grid::new();
    grid.set_cell(4, 4, block(1));
    grid.set_cell(4, 6, block(2));
    let canvas = vec![vec![block(5), None, block(6)]];
    grid.set_cells(4, 4, &canvas);
    assert_eq!(grid.get_cell(4, 4), block(5));
    assert_eq!(grid.get_cell(4, 5), None);
    assert_eq!(grid.get_cell(4, 6), block(6));
    assert_eq!(count_blocks(&grid), 2);
}

#[test]
fn set_cells_takes_ragged_and_empty_canvases() {
    let mut grid = Grid::new();
    let canvas = vec![vec![block(1)], vec![], vec![None, None, block(2)]];
    grid.set_cells(0, 0, &canvas);
    assert_eq!(grid.get_cell(0, 0), block(1));
    assert_eq!(grid.get_cell(2, 2), block(2));
    assert_eq!(count_blocks(&grid), 2);
    let nothing: Vec<Vec<Option<Block>>> = Vec::new();
    grid.set_cells(-5, 40, &nothing);
    assert_eq!(count_blocks(&grid), 2);
}

#[test]
fn landing_row_on_an_empty_playfield() {
    let grid = Grid::new();
    assert_eq!(grid.find_landing_row(0, 0, &square()), 20);
    assert_eq!(grid.find_landing_row(1, 3, &pieces::o().get_blocks(0, false)), 20);
    assert_eq!(grid.find_landing_row(1, 2, &pieces::i().get_blocks(0, false)), 19);
    assert_eq!(grid.find_landing_row(1, 2, &pieces::i().get_blocks(1, false)), 17);
    assert_eq!(grid.find_landing_row(20, 0, &square()), 20);
}

#[test]
fn landing_row_on_a_stack() {
    let mut grid = Grid::new();
    grid.set_cell(15, 4, block(1));
    assert_eq!(grid.find_landing_row(0, 3, &square()), 13);
    assert_eq!(grid.find_landing_row(0, 4, &square()), 13);
    assert_eq!(grid.find_landing_row(0, 5, &square()), 20);
    assert_eq!(grid.find_landing_row(14, 5, &square()), 20);
    assert_eq!(grid.find_landing_row(16, 4, &square()), 20);
}

#[test]
fn landing_row_from_a_colliding_start_is_the_row_above() {
    let mut grid = Grid::new();
    grid.set_cell(5, 0, block(1));
    assert_eq!(grid.find_landing_row(5, 0, &square()), 4);
    assert_eq!(grid.find_landing_row(4, 0, &square()), 3);
    assert_eq!(grid.find_landing_row(21, 0, &square()), 20);
    assert_eq!(grid.find_landing_row(-7, 0, &square()), -8);
}

#[test]
fn landing_row_without_any_collision_is_past_the_last_row() {
    let grid = Grid::new();
    let empty: Vec<Vec<Option<Block>>> = vec![vec![None; 2]; 2];
    assert_eq!(grid.find_landing_row(0, 0, &empty), 22);
    assert_eq!(grid.find_landing_row(22, 0, &square()), 22);
    assert_eq!(grid.find_landing_row(30, 0, &square()), 22);
    let flat = vec![vec![block(1), block(1)]];
    assert_eq!(grid.find_landing_row(0, 0, &flat), 22);
}

#[test]
fn invisible_check_compares_with_the_first_visible_row() {
    let grid = Grid::new();
    assert!(grid.invisible_check(0, &square()));
    assert!(!grid.invisible_check(1, &square()));
    assert!(!grid.invisible_check(2, &square()));
    assert!(grid.invisible_check(-5, &square()));
    let canvas = pieces::i().get_blocks(0, false);
    assert!(grid.invisible_check(-1, &canvas));
    assert!(!grid.invisible_check(0, &canvas));
    let empty: Vec<Vec<Option<Block>>> = vec![vec![None; 2]; 2];
    assert!(grid.invisible_check(10, &empty));
}

#[test]
fn row_is_filled_when_every_cell_is_occupied() {
    let mut grid = Grid::new();
    fill_row(&mut grid, 7, 1);
    assert!(grid.is_row_filled(7));
    assert!(!grid.is_row_filled(6));
    grid.set_cell(7, 9, None);
    assert!(!grid.is_row_filled(7));
    grid.set_cell(7, 9, block(2));
    assert!(grid.is_row_filled(7));
    grid.clear_row(7);
    assert!(!grid.is_row_filled(7));
    assert_eq!(count_blocks(&grid), 0);
}

#[test]
fn clearing_without_filled_rows_changes_nothing() {
    let mut grid = Grid::new();
    grid.set_cell(21, 0, block(1));
    grid.set_cell(20, 5, block(2));
    let before = snapshot(&grid);
    assert_eq!(grid.clear_all_filled_rows(), 0);
    assert_eq!(snapshot(&grid), before);
}

#[test]
fn clearing_two_rows_shifts_the_rows_above_down() {
    let mut grid = Grid::new();
    grid.set_cell(0, 0, block(9));
    fill_row(&mut grid, 1, 1);
    grid.set_cell(2, 5, block(8));
    fill_row(&mut grid, 3, 2);
    grid.set_cell(4, 7, block(6));
    assert_eq!(grid.clear_all_filled_rows(), 2);
    assert_eq!(grid.get_cell(2, 0), block(9));
    assert_eq!(grid.get_cell(3, 5), block(8));
    assert_eq!(grid.get_cell(4, 7), block(6));
    assert_eq!(count_blocks(&grid), 3);
    for col in 0..GRID_COUNT_COLS {
        assert_eq!(grid.get_cell(0, col), None);
        assert_eq!(grid.get_cell(1, col), None);
    }
}

#[test]
fn clearing_the_bottom_row_drops_the_stack() {
    let mut grid = Grid::new();
    fill_row(&mut grid, 21, 1);
    grid.set_cell(20, 3, block(2));
    grid.set_cell(19, 3, block(3));
    assert_eq!(grid.clear_all_filled_rows(), 1);
    assert_eq!(grid.get_cell(21, 3), block(2));
    assert_eq!(grid.get_cell(20, 3), block(3));
    assert_eq!(count_blocks(&grid), 2);
}

#[test]
fn clearing_four_rows_at_once() {
    let mut grid = Grid::new();
    for row in 18..22 {
        fill_row(&mut grid, row, row as u8);
    }
    grid.set_cell(17, 0, block(1));
    grid.set_cell(16, 9, block(2));
    assert_eq!(grid.clear_all_filled_rows(), 4);
    assert_eq!(grid.get_cell(21, 0), block(1));
    assert_eq!(grid.get_cell(20, 9), block(2));
    assert_eq!(count_blocks(&grid), 2);
}

#[test]
fn clearing_rows_that_are_apart_keeps_the_order_of_the_rest() {
    let mut grid = Grid::new();
    fill_row(&mut grid, 0, 1);
    fill_row(&mut grid, 10, 2);
    fill_row(&mut grid, 21, 3);
    for row in 0..GRID_COUNT_ROWS {
        if row != 0 && row != 10 && row != 21 {
            grid.set_cell(row, row % GRID_COUNT_COLS, block(100 + row as u8));
        }
    }
    let before = snapshot(&grid);
    assert_eq!(grid.clear_all_filled_rows(), 3);
    let after = snapshot(&grid);
    let kept: Vec<&Vec<Option<Block>>> =
        before.iter().enumerate().filter(|(row, _)| ![0, 10, 21].contains(row)).map(|(_, r)| r).collect();
    for row in 0..3 {
        assert!(after[row].iter().all(|cell| cell.is_none()));
    }
    for (offset, row) in kept.iter().enumerate() {
        assert_eq!(&after[3 + offset], *row);
    }
}

#[test]
fn clearing_a_playfield_that_is_all_filled() {
    let mut grid = Grid::new();
    for row in 0..GRID_COUNT_ROWS {
        fill_row(&mut grid, row, 1);
    }
    assert_eq!(grid.clear_all_filled_rows(), 22);
    assert_eq!(count_blocks(&grid), 0);
}
