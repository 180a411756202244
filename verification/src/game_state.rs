//! The game state machine: one locked playfield, the active piece and its
//! timers, the hold slot, the score and the level.
//!
//! Every operation is proved to follow the rule of the same name in
//! `rules`, and to keep the state well formed.

use vstd::prelude::*;
use std::time::Instant;
use crate::bag_manager::{get_random_bag, is_full_bag, BagManager};
use crate::block::{cells, Block};
use crate::clock::ticks_since;
use crate::gravity::{
    fall_interval,
    lemma_fall_table,
    level_for,
    line_clear_points,
    soft_drop_modifier,
    ticks_per_row,
};
use crate::grid::{invisible, lemma_placed_after_check, Grid};
use crate::piece::{Piece, Shape, KICKS};
use crate::pieces::{lemma_catalog_wf, lookup};
use crate::rules::{
    add_points,
    clamp,
    GameView,
    ShiftDirection,
    HARD_DROP_POINTS,
    LOCK_DELAY_TICKS,
    REPEAT_DELAY_TICKS,
    REPEAT_INTERVAL_TICKS,
    RESET_MOVES,
    SOFT_DROP_POINTS,
    SPAWN_ROW,
};

verus! {

/// `counter` less `ticks * factor`, kept within the range of the counters.
fn run_down(counter: isize, ticks: usize, factor: usize) -> (left: isize)
    requires
        factor <= 30,
    ensures
        left == clamp(counter - ticks * factor),
{
    assert(0 <= ticks * factor <= usize::MAX * 30) by (nonlinear_arith)
        requires
            0 <= ticks <= usize::MAX,
            0 <= factor <= 30,
    ;
    let wide: i128 = counter as i128 - (ticks as i128) * (factor as i128);
    if wide < isize::MIN as i128 {
        isize::MIN
    } else {
        wide as isize
    }
}

/// `total + points`, kept within the range of the score.
fn add_to(total: usize, points: usize) -> (sum: usize)
    ensures
        sum == add_points(total as int, points as int),
{
    if points > usize::MAX - total {
        usize::MAX
    } else {
        total + points
    }
}

/// One tick's input: the keys that are held, and the keys that were pressed
/// since the tick before.
#[derive(Copy, Clone, Debug, Default)]
pub struct GameInput {
    /// Held: the piece descends faster.
    pub soft_drop: bool,
    /// Held: the piece moves left, and goes on moving while held.
    pub shift_left: bool,
    /// Held: the piece moves right, and goes on moving while held.
    pub shift_right: bool,
    /// Pressed: the piece turns clockwise.
    pub rotate_right: bool,
    /// Pressed: the piece drops to where it lands and locks.
    pub hard_drop: bool,
    /// Pressed: the piece goes into the hold slot.
    pub hold_piece: bool,
    /// Pressed: the game pauses or resumes.
    pub toggle_pause: bool,
}

/// A game in progress.
#[derive(Debug)]
pub struct GameState {
    grid_locked: Grid,
    grid_active: Grid,
    grid_ghost: Grid,
    bag_manager: BagManager,
    active_piece: Shape,
    score: usize,
    tick: usize,
    last_tick: usize,
    start: Instant,
    active_piece_col: isize,
    active_piece_row: isize,
    active_piece_orientation: usize,
    ticks_to_next_row_inc: isize,
    ticks_to_repeat: isize,
    ticks_to_lock: isize,
    lock_reset_moves_remaining: isize,
    shift_direction: ShiftDirection,
    held_piece: Option<Shape>,
    last_piece_swapped: bool,
    rows_cleared: usize,
    is_game_over: bool,
    is_paused: bool,
}

impl View for GameState {
    type V = GameView;

    closed spec fn view(&self) -> GameView {
        GameView {
            locked: self.grid_locked@,
            active_grid: self.grid_active@,
            ghost_grid: self.grid_ghost@,
            bag: self.bag_manager@,
            shape: self.active_piece,
            score: self.score as int,
            tick: self.tick as int,
            last_tick: self.last_tick as int,
            col: self.active_piece_col as int,
            row: self.active_piece_row as int,
            orientation: self.active_piece_orientation as int,
            ticks_to_next_row: self.ticks_to_next_row_inc as int,
            ticks_to_repeat: self.ticks_to_repeat as int,
            ticks_to_lock: self.ticks_to_lock as int,
            resets_left: self.lock_reset_moves_remaining as int,
            shift: self.shift_direction,
            held: self.held_piece,
            swapped: self.last_piece_swapped,
            rows_cleared: self.rows_cleared as int,
            game_over: self.is_game_over,
            paused: self.is_paused,
        }
    }
}

impl GameState {
    /// The state is one that a game can reach.
    pub open spec fn wf(&self) -> bool {
        self@.wf()
    }

    /// The numbers of a state are in the range of their counters, and its
    /// grids have the dimensions of the playfield.
    proof fn lemma_consistent(&self)
        requires
            self.bag_manager.wf(),
        ensures
            self@.consistent(),
    {
        self.grid_locked.lemma_well_shaped();
        self.grid_active.lemma_well_shaped();
        self.grid_ghost.lemma_well_shaped();
    }

    /// A new game with a randomizer of its own, its clock started and its
    /// first piece spawned.
    pub fn new() -> (game: GameState)
        ensures
            game.wf(),
            game@.bag.index == 0,
            game@ == GameView::initial(game@.bag, game@.bag.current[0]),
    {
        GameState::with_bag_manager(BagManager::new())
    }

    /// A new game that draws its pieces from `bag_manager`, its clock
    /// started and its first piece spawned.
    pub fn with_bag_manager(bag_manager: BagManager) -> (game: GameState)
        requires
            bag_manager.wf(),
        ensures
            game.wf(),
            game@ == GameView::initial(
                bag_manager@.draw(game@.bag.next).0,
                bag_manager@.draw(game@.bag.next).1,
            ),
    {
        let mut bag_manager = bag_manager;
        let active_piece = bag_manager.next_shape();
        proof {
            lemma_catalog_wf(active_piece);
            lemma_fall_table(1);
        }
        let game = GameState {
            grid_locked: Grid::new(),
            grid_active: Grid::new(),
            grid_ghost: Grid::new(),
            bag_manager,
            active_piece,
            score: 0,
            tick: 0,
            last_tick: 0,
            start: Instant::now(),
            active_piece_col: lookup(active_piece).get_initial_col(),
            active_piece_row: SPAWN_ROW,
            active_piece_orientation: 0,
            ticks_to_next_row_inc: ticks_per_row(1),
            ticks_to_repeat: REPEAT_DELAY_TICKS,
            ticks_to_lock: LOCK_DELAY_TICKS,
            lock_reset_moves_remaining: RESET_MOVES,
            shift_direction: ShiftDirection::Neither,
            held_piece: None,
            last_piece_swapped: false,
            rows_cleared: 0,
            is_game_over: false,
            is_paused: false,
        };
        proof {
            game.lemma_consistent();
            game@.lemma_spawn_within(1);
            game@.lemma_fits_when_empty(game@.row, game@.col, 0);
        }
        game
    }

    /// Ends an update: the time up to the current tick counts as accounted
    /// for. Does nothing while the game is paused or over.
    pub fn clean_up(&mut self)
        ensures
            final(self)@ == old(self)@.clean_up(),
            old(self).wf() ==> final(self).wf(),
    {
        if self.is_game_over || self.is_paused {
            return ;
        }
        self.last_tick = self.tick;
    }

    /// The number of ticks between the tick accounted for last and the
    /// current one.
    fn get_tick_delta(&self) -> (delta: usize)
        ensures
            delta == self@.tick_delta(),
    {
        if self.tick >= self.last_tick {
            self.tick - self.last_tick
        } else {
            0
        }
    }

    fn get_new_ticks_to_next_row_inc(&self) -> (ticks: isize)
        ensures
            ticks == fall_interval(self@.level()),
            1 <= ticks <= 60,
    {
        ticks_per_row(self.get_level())
    }

    fn reset_piece_state(&mut self)
        ensures
            final(self)@ == old(self)@.reset_piece_state(),
    {
        proof {
            lemma_catalog_wf(self.active_piece);
        }
        self.active_piece_orientation = 0;
        self.active_piece_col = lookup(self.active_piece).get_initial_col();
        self.active_piece_row = SPAWN_ROW;
        self.ticks_to_next_row_inc = self.get_new_ticks_to_next_row_inc();
        self.last_piece_swapped = false;
        self.ticks_to_lock = LOCK_DELAY_TICKS;
        self.lock_reset_moves_remaining = RESET_MOVES;
    }

    fn try_reset_lock_delay_for_move(&mut self)
        ensures
            final(self)@ == old(self)@.try_reset_lock_delay(),
    {
        if self.lock_reset_moves_remaining > 0 {
            self.lock_reset_moves_remaining -= 1;
            self.ticks_to_lock = LOCK_DELAY_TICKS;
        }
    }

    fn end_game(&mut self)
        ensures
            final(self)@ == old(self)@.end_game(),
    {
        self.clean_up();
        self.is_game_over = true;
    }

    /// Pauses the game, or resumes it and starts the clock anew.
    pub fn toggle_pause(&mut self)
        ensures
            final(self)@ == old(self)@.toggle_pause(),
            old(self).wf() ==> final(self).wf(),
    {
        if self.is_paused {
            self.tick = 0;
            self.last_tick = 0;
            self.start = Instant::now();
            self.is_paused = false;
        } else {
            self.is_paused = true;
        }
    }

    /// The canvas of the active piece in the given orientation.
    fn active_blocks(&self, orientation: usize) -> (canvas: Vec<Vec<Option<Block>>>)
        ensures
            cells(canvas@) == self@.canvas_at(orientation as int),
    {
        proof {
            lemma_catalog_wf(self.active_piece);
        }
        lookup(self.active_piece).get_blocks(orientation, false)
    }

    /// Whether the active piece, if it locked where it is, would lie wholly
    /// above the visible rows.
    fn check_for_lock_out(&self) -> (hidden: bool)
        ensures
            hidden == invisible(self@.row, self@.canvas()),
    {
        self.grid_locked.invisible_check(
            self.active_piece_row,
            &self.active_blocks(self.active_piece_orientation),
        )
    }

    fn set_active_piece_and_reset_state(&mut self, next_active_piece: Shape)
        requires
            old(self)@.consistent(),
        ensures
            final(self)@ == old(self)@.spawn(next_active_piece),
            final(self).wf(),
    {
        proof {
            reveal(GameView::spawn);
        }
        self.active_piece = next_active_piece;
        self.reset_piece_state();
        let is_block_out = self.collide(None, None, None);
        proof {
            self@.lemma_spawn_within(1);
        }
        if is_block_out {
            self.end_game();
        }
    }

    fn next_piece(&mut self, fresh: [Shape; 7])
        requires
            old(self)@.consistent(),
            is_full_bag(fresh@),
        ensures
            final(self)@ == old(self)@.next_piece(fresh@),
            final(self).wf(),
    {
        let next_active_piece = self.bag_manager.draw(fresh);
        self.set_active_piece_and_reset_state(next_active_piece);
    }

    fn swap_active_piece(&mut self, fresh: [Shape; 7])
        requires
            old(self).wf(),
            is_full_bag(fresh@),
        ensures
            final(self)@ == old(self)@.swap(fresh@),
            final(self).wf(),
    {
        proof {
            reveal(GameView::swap);
        }
        if self.last_piece_swapped {
            return ;
        }
        if let Some(held_piece) = self.held_piece {
            self.held_piece = Some(self.active_piece);
            self.set_active_piece_and_reset_state(held_piece);
        } else {
            self.held_piece = Some(self.active_piece);
            self.next_piece(fresh);
        }
        self.last_piece_swapped = true;
    }

    fn lock_active_piece_and_get_next(&mut self, fresh: [Shape; 7])
        requires
            old(self).wf(),
            old(self)@.fits(),
            is_full_bag(fresh@),
        ensures
            final(self)@ == old(self)@.lock(fresh@),
            final(self).wf(),
    {
        proof {
            reveal(GameView::lock);
        }
        if self.check_for_lock_out() {
            self.end_game();
            return ;
        }
        proof {
            lemma_placed_after_check(self@.locked, self@.row, self@.col, self@.canvas());
        }
        let canvas = self.active_blocks(self.active_piece_orientation);
        self.grid_locked.set_cells(self.active_piece_row, self.active_piece_col, &canvas);
        self.clear_filled_rows_and_update_score();
        self.next_piece(fresh);
    }

    fn hard_drop(&mut self, fresh: [Shape; 7])
        requires
            old(self).wf(),
            old(self)@.fits(),
            is_full_bag(fresh@),
        ensures
            final(self)@ == old(self)@.hard_drop(fresh@),
            final(self).wf(),
    {
        proof {
            reveal(GameView::hard_drop);
        }
        proof {
            self@.lemma_overlays_within();
        }
        let landing_row = self.grid_locked.find_landing_row(
            self.active_piece_row,
            self.active_piece_col,
            &self.active_blocks(self.active_piece_orientation),
        );
        let lines_dropped: isize = if landing_row > self.active_piece_row {
            landing_row - self.active_piece_row
        } else {
            0
        };
        self.active_piece_row = landing_row;
        self.score = add_to(self.score, HARD_DROP_POINTS * (lines_dropped as usize));
        self.lock_active_piece_and_get_next(fresh);
    }

    fn get_next_active_piece_row(&self) -> (row: isize)
        requires
            self.wf(),
        ensures
            row == (if self@.ticks_to_next_row <= 0 {
                self@.row + 1
            } else {
                self@.row
            }),
    {
        if self.ticks_to_next_row_inc <= 0 {
            self.active_piece_row + 1
        } else {
            self.active_piece_row
        }
    }

    /// Whether the active piece collides at the given row, column and
    /// orientation, each of which defaults to the piece's own.
    fn collide(&self, row_id: Option<isize>, col_id: Option<isize>, orientation: Option<usize>) -> (hit:
        bool)
        ensures
            hit == self@.collides_at(
                match row_id {
                    Some(row) => row as int,
                    None => self@.row,
                },
                match col_id {
                    Some(col) => col as int,
                    None => self@.col,
                },
                match orientation {
                    Some(turn) => turn as int,
                    None => self@.orientation,
                },
            ),
    {
        let row = match row_id {
            Some(row) => row,
            None => self.active_piece_row,
        };
        let col = match col_id {
            Some(col) => col,
            None => self.active_piece_col,
        };
        let turn = match orientation {
            Some(turn) => turn,
            None => self.active_piece_orientation,
        };
        self.grid_locked.collision_check(row, col, &self.active_blocks(turn))
    }

    fn try_rotate_right(&mut self)
        requires
            old(self).wf(),
        ensures
            final(self)@ == old(self)@.rotate_right(),
            final(self).wf(),
    {
        proof {
            reveal(GameView::rotate_right);
        }
        let ghost before = self@;
        let next_orientation = (self.active_piece_orientation + 1) % 4;
        let piece = lookup(self.active_piece);
        proof {
            lemma_catalog_wf(self.active_piece);
        }
        let mut index: usize = 0;
        while index < KICKS
            invariant
                index <= KICKS,
                self@ == before,
                before == old(self)@,
                before.wf(),
                piece == before.piece(),
                piece.wf(),
                next_orientation == before.turned(),
                before.first_kick(0) == before.first_kick(index as int),
            decreases KICKS - index,
        {
            let offset = piece.kick_offset(self.active_piece_orientation, next_orientation, index);
            assert(piece.orientations[before.orientation % 4].wf());
            assert(piece.orientations[before.turned() % 4].wf());
            let next_active_piece_row = self.active_piece_row + offset.1;
            let next_active_piece_col = self.active_piece_col + offset.0;
            let has_collision = self.collide(
                Some(next_active_piece_row),
                Some(next_active_piece_col),
                Some(next_orientation),
            );
            assert(before.kick(index as int) == (
                next_active_piece_row as int,
                next_active_piece_col as int,
            ));
            assert(has_collision == !before.kick_fits(index as int));
            if !has_collision {
                proof {
                    before.lemma_fit_bounds(
                        next_active_piece_row as int,
                        next_active_piece_col as int,
                        next_orientation as int,
                    );
                    assert(before.first_kick(0) == index);
                    reveal(GameView::rotate_right);
                }
                self.active_piece_orientation = next_orientation;
                self.active_piece_row = next_active_piece_row;
                self.active_piece_col = next_active_piece_col;
                assert(self@ == (GameView {
                    orientation: before.turned(),
                    row: before.kick(index as int).0,
                    col: before.kick(index as int).1,
                    ..before
                }));
                self.try_reset_lock_delay_for_move();
                assert(self@ == before.rotate_right());
                return ;
            }
            index += 1;
        }
    }

    fn set_shift_direction_and_reset_ticks(&mut self, new_shift_direction: ShiftDirection)
        ensures
            final(self)@ == (GameView {
                ticks_to_repeat: REPEAT_DELAY_TICKS as int,
                shift: new_shift_direction,
                ..old(self)@
            }),
    {
        self.ticks_to_repeat = REPEAT_DELAY_TICKS;
        self.shift_direction = new_shift_direction;
    }

    /// Brings the shift direction and the repeat timer up to date with the
    /// shift keys, and returns the number of columns to move by.
    fn plan_shift(&mut self, is_shift_left: bool, is_shift_right: bool) -> (col_offset: isize)
        requires
            old(self).wf(),
        ensures
            (final(self)@, col_offset as int) == old(self)@.shift_plan(is_shift_left, is_shift_right),
            -1 <= col_offset <= 1,
            final(self).wf(),
    {
        let tick_delta = self.get_tick_delta();
        let mut col_offset: isize = 0;
        if !is_shift_left && !is_shift_right {
            self.set_shift_direction_and_reset_ticks(ShiftDirection::Neither);
            return 0;
        }
        match self.shift_direction {
            ShiftDirection::Left => {
                if !is_shift_left {
                    if is_shift_right {
                        self.set_shift_direction_and_reset_ticks(ShiftDirection::Right);
                        col_offset = 1;
                    }
                } else {
                    self.ticks_to_repeat = run_down(self.ticks_to_repeat, tick_delta, 1);
                }
            },
            ShiftDirection::Right => {
                if !is_shift_right {
                    if is_shift_left {
                        self.set_shift_direction_and_reset_ticks(ShiftDirection::Left);
                        col_offset = -1;
                    }
                } else {
                    self.ticks_to_repeat = run_down(self.ticks_to_repeat, tick_delta, 1);
                }
            },
            ShiftDirection::Neither => {
                if is_shift_left {
                    self.set_shift_direction_and_reset_ticks(ShiftDirection::Left);
                    col_offset = -1;
                } else if is_shift_right {
                    self.set_shift_direction_and_reset_ticks(ShiftDirection::Right);
                    col_offset = 1;
                }
            },
        }
        if self.ticks_to_repeat <= 0 {
            col_offset =
            match self.shift_direction {
                ShiftDirection::Left => -1,
                ShiftDirection::Right => 1,
                ShiftDirection::Neither => 0,
            };
            self.ticks_to_repeat = REPEAT_INTERVAL_TICKS;
        }
        col_offset
    }

    fn try_move_horizontal(&mut self, is_shift_left: bool, is_shift_right: bool)
        requires
            old(self).wf(),
        ensures
            final(self)@ == old(self)@.move_horizontal(is_shift_left, is_shift_right),
            final(self).wf(),
    {
        proof {
            reveal(GameView::move_horizontal);
        }
        let col_offset = self.plan_shift(is_shift_left, is_shift_right);
        let next_active_piece_col = self.active_piece_col + col_offset;
        if next_active_piece_col != self.active_piece_col {
            let has_collision = self.collide(None, Some(next_active_piece_col), None);
            if !has_collision {
                proof {
                    self@.lemma_fit_bounds(
                        self@.row,
                        next_active_piece_col as int,
                        self@.orientation,
                    );
                }
                self.active_piece_col = next_active_piece_col;
                self.try_reset_lock_delay_for_move();
            }
        }
    }

    fn set_active_piece_row_and_reset_ticks(&mut self, new_active_piece_row: isize)
        ensures
            final(self)@ == (GameView {
                row: new_active_piece_row as int,
                ticks_to_next_row: fall_interval(old(self)@.level()),
                resets_left: RESET_MOVES as int,
                ticks_to_lock: LOCK_DELAY_TICKS as int,
                ..old(self)@
            }),
    {
        self.active_piece_row = new_active_piece_row;
        self.ticks_to_next_row_inc = self.get_new_ticks_to_next_row_inc();
        self.lock_reset_moves_remaining = RESET_MOVES;
        self.ticks_to_lock = LOCK_DELAY_TICKS;
    }

    fn try_gravity_drop(&mut self, is_soft_drop: bool, fresh: [Shape; 7])
        requires
            old(self).wf(),
            old(self)@.fits(),
            is_full_bag(fresh@),
        ensures
            final(self)@ == old(self)@.gravity(is_soft_drop, fresh@),
            final(self).wf(),
    {
        proof {
            reveal(GameView::gravity);
        }
        let next_active_piece_row = self.get_next_active_piece_row();
        if next_active_piece_row != self.active_piece_row {
            let has_collision = self.collide(Some(next_active_piece_row), None, None);
            if has_collision {
                self.ticks_to_lock = run_down(self.ticks_to_lock, self.get_tick_delta(), 1);
                if self.ticks_to_lock <= 0 {
                    self.lock_active_piece_and_get_next(fresh);
                }
            } else {
                proof {
                    self@.lemma_fit_bounds(
                        next_active_piece_row as int,
                        self@.col,
                        self@.orientation,
                    );
                }
                if is_soft_drop {
                    self.score = add_to(self.score, SOFT_DROP_POINTS);
                }
                self.set_active_piece_row_and_reset_ticks(next_active_piece_row);
            }
        }
    }

    /// Draws the two overlays anew.
    fn refresh_overlays(&mut self)
        requires
            old(self).wf(),
        ensures
            final(self)@ == old(self)@.refresh_overlays(),
            final(self).wf(),
    {
        proof {
            reveal(GameView::refresh_overlays);
        }
        proof {
            self@.lemma_overlays_within();
        }
        let active_blocks = self.active_blocks(self.active_piece_orientation);
        self.grid_active.clear();
        self.grid_active.set_cells(self.active_piece_row, self.active_piece_col, &active_blocks);
        let ghost_row = self.grid_locked.find_landing_row(
            self.active_piece_row,
            self.active_piece_col,
            &active_blocks,
        );
        self.grid_ghost.clear();
        self.grid_ghost.set_cells(ghost_row, self.active_piece_col, &active_blocks);
        proof {
            self.lemma_consistent();
        }
    }

    /// One update of a game that is neither paused nor over.
    fn advance(&mut self, input: GameInput, tick: usize, fresh: [Shape; 7])
        requires
            old(self).wf(),
            !old(self)@.game_over,
            is_full_bag(fresh@),
        ensures
            final(self)@ == old(self)@.advance(input, tick as int, fresh@),
            final(self).wf(),
    {
        self.tick = tick;
        let speed_modifier = if input.soft_drop {
            soft_drop_modifier(self.get_level())
        } else {
            1
        };
        self.ticks_to_next_row_inc =
        run_down(self.ticks_to_next_row_inc, self.get_tick_delta(), speed_modifier);
        let ghost timed = old(self)@.pass_time(tick as int, input.soft_drop);
        assert(self@ == timed);
        if input.hold_piece {
            self.swap_active_piece(fresh);
        }
        let ghost held = self@;
        if input.rotate_right && !self.is_game_over {
            self.try_rotate_right();
        }
        let ghost rotated = self@;
        if input.hard_drop && !self.is_game_over {
            self.hard_drop(fresh);
        }
        let ghost dropped = self@;
        if !self.is_game_over {
            self.try_move_horizontal(input.shift_left, input.shift_right);
        }
        let ghost moved = self@;
        if !self.is_game_over {
            self.try_gravity_drop(input.soft_drop, fresh);
        }
        let ghost fallen = self@;
        self.refresh_overlays();
        assert(self@ == fallen.refresh_overlays());
    }

    /// One update, with the clock at `tick` ticks and with `fresh` as the
    /// bag that follows if a draw exhausts the current one.
    ///
    /// The clock counts the ticks since the game started or, after a pause,
    /// since it was resumed.
    pub fn update_with(&mut self, input: GameInput, tick: usize, fresh: [Shape; 7])
        requires
            old(self).wf(),
            is_full_bag(fresh@),
        ensures
            final(self)@ == old(self)@.step(input, tick as int, fresh@),
            final(self).wf(),
    {
        if input.toggle_pause {
            self.toggle_pause();
        }
        if self.is_game_over || self.is_paused {
            return ;
        }
        self.advance(input, tick, fresh);
    }

    /// One update, by the wall clock. A freshly shuffled bag is at hand for
    /// the case that a draw exhausts the current one.
    ///
    /// The tick that the clock shows and the order of the fresh bag are
    /// open; whatever they are, the update is the step that they determine.
    pub fn update(&mut self, input: GameInput)
        requires
            old(self).wf(),
        ensures
            final(self).wf(),
            exists|tick: int, fresh: Seq<Shape>|
                0 <= tick <= usize::MAX && is_full_bag(fresh) && final(self)@ == #[trigger] old(
                    self,
                )@.step(input, tick, fresh),
    {
        if input.toggle_pause {
            self.toggle_pause();
        }
        if self.is_game_over || self.is_paused {
            assert(self@ == old(self)@.step(input, 0, old(self)@.bag.next));
            return ;
        }
        let tick = ticks_since(&self.start);
        let fresh = get_random_bag();
        self.advance(input, tick, fresh);
        assert(self@ == old(self)@.step(input, tick as int, fresh@));
    }

    fn increase_rows_cleared(&mut self, new_rows_cleared: usize)
        ensures
            final(self)@ == (GameView {
                rows_cleared: add_points(old(self)@.rows_cleared, new_rows_cleared as int),
                ..old(self)@
            }),
    {
        self.rows_cleared = add_to(self.rows_cleared, new_rows_cleared);
    }

    fn clear_filled_rows_and_update_score(&mut self)
        requires
            old(self)@.consistent(),
        ensures
            final(self)@ == old(self)@.clear_filled_rows(),
            final(self)@.consistent(),
    {
        let rows_cleared = self.grid_locked.clear_all_filled_rows();
        let level = self.get_level();
        self.score = add_to(self.score, line_clear_points(rows_cleared, level));
        self.increase_rows_cleared(rows_cleared);
        proof {
            self.lemma_consistent();
        }
    }

    /// The locked blocks.
    pub fn get_grid_locked(&self) -> (grid: &Grid)
        ensures
            grid@ == self@.locked,
    {
        &self.grid_locked
    }

    /// The active piece alone, at its position.
    pub fn get_grid_active(&self) -> (grid: &Grid)
        ensures
            grid@ == self@.active_grid,
    {
        &self.grid_active
    }

    /// The active piece alone, where it would land.
    pub fn get_grid_ghost(&self) -> (grid: &Grid)
        ensures
            grid@ == self@.ghost_grid,
    {
        &self.grid_ghost
    }

    /// The points scored so far.
    pub fn get_score(&self) -> (score: usize)
        ensures
            score == self@.score,
    {
        self.score
    }

    /// The level: a tenth of the rows cleared, rounded up, between 1 and 20.
    pub fn get_level(&self) -> (level: usize)
        ensures
            level == self@.level(),
            1 <= level <= 20,
    {
        level_for(self.rows_cleared)
    }

    /// The next three pieces, the nearest first.
    pub fn get_piece_previews(&self) -> (previews: Vec<Piece>)
        requires
            self.wf(),
        ensures
            previews@ == seq![
                lookup(self@.bag.peek(1)),
                lookup(self@.bag.peek(2)),
                lookup(self@.bag.peek(3)),
            ],
    {
        vec![self.bag_manager.peek(1), self.bag_manager.peek(2), self.bag_manager.peek(3)]
    }

    /// The piece in the hold slot, if there is one.
    pub fn get_held_piece(&self) -> (held: Option<Piece>)
        ensures
            held == (match self@.held {
                Some(shape) => Some(lookup(shape)),
                None => None,
            }),
    {
        match self.held_piece {
            Some(shape) => Some(lookup(shape)),
            None => None,
        }
    }

    /// Whether the game has ended.
    pub fn get_is_game_over(&self) -> (over: bool)
        ensures
            over == self@.game_over,
    {
        self.is_game_over
    }

    /// Whether the game is paused.
    pub fn get_is_paused(&self) -> (paused: bool)
        ensures
            paused == self@.paused,
    {
        self.is_paused
    }

    /// The definition of the active piece.
    pub fn get_active_piece(&self) -> (piece: Piece)
        ensures
            piece == self@.piece(),
    {
        lookup(self.active_piece)
    }

    /// Row of the top edge of the active piece's canvas.
    pub fn get_active_piece_row(&self) -> (row: isize)
        ensures
            row == self@.row,
    {
        self.active_piece_row
    }

    /// Column of the left edge of the active piece's canvas.
    pub fn get_active_piece_col(&self) -> (col: isize)
        ensures
            col == self@.col,
    {
        self.active_piece_col
    }

    /// The orientation of the active piece, from 0 to 3.
    pub fn get_active_piece_orientation(&self) -> (orientation: usize)
        ensures
            orientation == self@.orientation,
    {
        self.active_piece_orientation
    }

    /// Ticks until a resting piece locks.
    pub fn get_ticks_to_lock(&self) -> (ticks: isize)
        ensures
            ticks == self@.ticks_to_lock,
    {
        self.ticks_to_lock
    }

    /// Moves that may still restart the lock delay.
    pub fn get_lock_reset_moves_remaining(&self) -> (moves: isize)
        ensures
            moves == self@.resets_left,
    {
        self.lock_reset_moves_remaining
    }
}

} // verus!
