//! The rules of play, as functions from one state of the game to the next.
//!
//! `GameView` is the state of a game as specifications see it, and each
//! rule is a function on it. The executable state machine is proved to
//! follow these functions step by step.

use vstd::prelude::*;
use crate::bag_manager::BagView;
use crate::block::{occupied, Cells};
use crate::game_state::GameInput;
use crate::gravity::{fall_interval, level_of, line_clear_bonus, soft_drop_factor};
use crate::grid::{
    cleared,
    collides,
    empty_cells,
    filled_rows,
    in_grid,
    invisible,
    landing_row,
    lemma_landing_fits,
    placed,
    well_shaped,
    within_grid,
    GRID_COUNT_ROWS,
};
use crate::piece::{Piece, Shape, KICKS};
use crate::pieces::{
    lemma_canvas_low_cell,
    lemma_canvas_shape,
    lemma_catalog_wf,
    lookup,
    low_cell,
};

verus! {

/// Ticks before a held shift key starts to repeat.
pub const REPEAT_DELAY_TICKS: isize = 11;

/// Ticks between two repeats of a held shift key.
pub const REPEAT_INTERVAL_TICKS: isize = 4;

/// Ticks that a piece may rest on the stack before it locks.
pub const LOCK_DELAY_TICKS: isize = 30;

/// Moves and rotations that may restart the lock delay before a piece has
/// to descend again.
pub const RESET_MOVES: isize = 15;

/// The row at which a piece spawns, one row into the hidden buffer.
pub const SPAWN_ROW: isize = 1;

/// Points per row of a hard drop.
pub const HARD_DROP_POINTS: usize = 2;

/// Points per row descended under a soft drop.
pub const SOFT_DROP_POINTS: usize = 1;

/// The direction in which a held shift key is repeating.
#[derive(Copy, Clone, Debug, PartialEq, Eq, Structural)]
pub enum ShiftDirection {
    Left,
    Right,
    Neither,
}

/// `x`, kept within the range of the counters.
pub open spec fn clamp(x: int) -> int {
    if x < isize::MIN {
        isize::MIN as int
    } else if x > isize::MAX {
        isize::MAX as int
    } else {
        x
    }
}

/// `total + points`, kept within the range of the score.
pub open spec fn add_points(total: int, points: int) -> int {
    if total + points > usize::MAX {
        usize::MAX as int
    } else {
        total + points
    }
}

/// The state of a game.
pub struct GameView {
    /// The blocks that have locked.
    pub locked: Cells,
    /// The active piece alone, drawn at its position.
    pub active_grid: Cells,
    /// The active piece alone, drawn where it would land.
    pub ghost_grid: Cells,
    pub bag: BagView,
    /// The shape of the active piece.
    pub shape: Shape,
    pub score: int,
    /// The tick of the current update.
    pub tick: int,
    /// The tick up to which time has been accounted for.
    pub last_tick: int,
    pub col: int,
    pub row: int,
    pub orientation: int,
    /// Ticks until the next automatic descent.
    pub ticks_to_next_row: int,
    /// Ticks until a held shift key repeats.
    pub ticks_to_repeat: int,
    /// Ticks until a resting piece locks.
    pub ticks_to_lock: int,
    /// Moves that may still restart the lock delay.
    pub resets_left: int,
    pub shift: ShiftDirection,
    pub held: Option<Shape>,
    /// Whether the hold slot has been used since the last piece locked.
    pub swapped: bool,
    pub rows_cleared: int,
    pub game_over: bool,
    pub paused: bool,
}

impl GameView {
    /// The definition of the active piece.
    pub open spec fn piece(self) -> Piece {
        lookup(self.shape)
    }

    /// The canvas of the active piece in the given orientation.
    pub open spec fn canvas_at(self, orientation: int) -> Cells {
        lookup(self.shape).canvas(orientation, false)
    }

    /// The canvas of the active piece.
    pub open spec fn canvas(self) -> Cells {
        self.canvas_at(self.orientation)
    }

    /// Whether the active piece, moved to the given position and
    /// orientation, would leave the playfield or overlap a locked block.
    pub open spec fn collides_at(self, row: int, col: int, orientation: int) -> bool {
        collides(self.locked, row, col, self.canvas_at(orientation))
    }

    /// Whether the active piece is inside the playfield and clear of the
    /// locked blocks.
    pub open spec fn fits(self) -> bool {
        !self.collides_at(self.row, self.col, self.orientation)
    }

    /// Whether the active piece is where it spawned.
    pub open spec fn at_spawn(self) -> bool {
        &&& self.row == SPAWN_ROW
        &&& self.col == self.piece().initial_col()
        &&& self.orientation == 0
    }

    /// The level, which goes by the rows cleared so far.
    pub open spec fn level(self) -> nat {
        level_of(self.rows_cleared as nat)
    }

    /// Ticks since time was last accounted for.
    pub open spec fn tick_delta(self) -> int {
        if self.tick >= self.last_tick {
            self.tick - self.last_tick
        } else {
            0
        }
    }

    /// What holds of every state of a game, whatever the active piece:
    /// the grids have the dimensions of the playfield, the bag is in order
    /// and every number is in the range of its counter.
    pub open spec fn consistent(self) -> bool {
        &&& well_shaped(self.locked)
        &&& well_shaped(self.active_grid)
        &&& well_shaped(self.ghost_grid)
        &&& self.bag.wf()
        &&& 0 <= self.score <= usize::MAX
        &&& 0 <= self.tick <= usize::MAX
        &&& 0 <= self.last_tick <= usize::MAX
        &&& 0 <= self.rows_cleared <= usize::MAX
        &&& isize::MIN <= self.ticks_to_next_row <= isize::MAX
        &&& isize::MIN <= self.ticks_to_repeat <= isize::MAX
        &&& isize::MIN <= self.ticks_to_lock <= isize::MAX
        &&& isize::MIN <= self.resets_left <= isize::MAX
    }

    /// What holds of every state that a game can reach.
    ///
    /// While the game is on, the active piece fits. When the game is over,
    /// it either fits or is the piece whose spawn was blocked.
    pub open spec fn wf(self) -> bool {
        &&& self.consistent()
        &&& 0 <= self.orientation < 4
        &&& -4 <= self.row <= 20
        &&& -4 <= self.col <= 9
        &&& self.game_over || self.fits()
        &&& self.fits() || self.at_spawn()
    }

    /// The state in which a game starts, once the first shape is drawn.
    pub open spec fn initial(bag: BagView, shape: Shape) -> GameView {
        GameView {
            locked: empty_cells(),
            active_grid: empty_cells(),
            ghost_grid: empty_cells(),
            bag,
            shape,
            score: 0,
            tick: 0,
            last_tick: 0,
            col: lookup(shape).initial_col(),
            row: SPAWN_ROW as int,
            orientation: 0,
            ticks_to_next_row: fall_interval(1),
            ticks_to_repeat: REPEAT_DELAY_TICKS as int,
            ticks_to_lock: LOCK_DELAY_TICKS as int,
            resets_left: RESET_MOVES as int,
            shift: ShiftDirection::Neither,
            held: None,
            swapped: false,
            rows_cleared: 0,
            game_over: false,
            paused: false,
        }
    }

    /// Pausing suspends the game. Resuming starts the clock anew, so that
    /// the time spent paused does not count as elapsed.
    pub open spec fn toggle_pause(self) -> GameView {
        if self.paused {
            GameView { tick: 0, last_tick: 0, paused: false, ..self }
        } else {
            GameView { paused: true, ..self }
        }
    }

    /// The end of an update: the time up to the current tick is accounted
    /// for. Nothing happens while the game is paused or over.
    pub open spec fn clean_up(self) -> GameView {
        if self.game_over || self.paused {
            self
        } else {
            GameView { last_tick: self.tick, ..self }
        }
    }

    /// The game ends: time is accounted for a last time, and the game is
    /// over from then on.
    pub open spec fn end_game(self) -> GameView {
        GameView { game_over: true, ..self.clean_up() }
    }

    /// A successful move or rotation restarts the lock delay, as long as
    /// the budget of such restarts lasts.
    pub open spec fn try_reset_lock_delay(self) -> GameView {
        if self.resets_left > 0 {
            GameView {
                resets_left: self.resets_left - 1,
                ticks_to_lock: LOCK_DELAY_TICKS as int,
                ..self
            }
        } else {
            self
        }
    }

    /// The active piece is put where it spawns, with its timers and its
    /// budget of resets full.
    pub open spec fn reset_piece_state(self) -> GameView {
        GameView {
            orientation: 0,
            col: self.piece().initial_col(),
            row: SPAWN_ROW as int,
            ticks_to_next_row: fall_interval(self.level()),
            swapped: false,
            ticks_to_lock: LOCK_DELAY_TICKS as int,
            resets_left: RESET_MOVES as int,
            ..self
        }
    }

    /// `shape` becomes the active piece. If it does not fit where it
    /// spawns, the game is over.
    #[verifier::opaque]
    pub open spec fn spawn(self, shape: Shape) -> GameView {
        let spawned = (GameView { shape, ..self }).reset_piece_state();
        if spawned.fits() {
            spawned
        } else {
            spawned.end_game()
        }
    }

    /// The next shape is drawn from the bag and spawns.
    pub open spec fn next_piece(self, fresh: Seq<Shape>) -> GameView {
        let (bag, shape) = self.bag.draw(fresh);
        (GameView { bag, ..self }).spawn(shape)
    }

    /// The active piece goes into the hold slot. The piece that was held
    /// spawns in its place or, if there was none, the next piece from the
    /// bag. Nothing happens if the active piece is itself the result of a
    /// swap.
    #[verifier::opaque]
    pub open spec fn swap(self, fresh: Seq<Shape>) -> GameView {
        if self.swapped {
            self
        } else {
            let holding = GameView { held: Some(self.shape), ..self };
            let swapped = match self.held {
                Some(held) => holding.spawn(held),
                None => holding.next_piece(fresh),
            };
            GameView { swapped: true, ..swapped }
        }
    }

    /// The filled rows of the locked blocks are cleared and scored. The
    /// points go by the level before the clear.
    pub open spec fn clear_filled_rows(self) -> GameView {
        let count = filled_rows(self.locked, GRID_COUNT_ROWS as int);
        GameView {
            locked: cleared(self.locked),
            score: add_points(self.score, line_clear_bonus(count, self.level()) as int),
            rows_cleared: add_points(self.rows_cleared, count as int),
            ..self
        }
    }

    /// The active piece locks. If it lies wholly above the visible rows,
    /// the game is over and nothing is written. Otherwise its blocks join
    /// the locked ones, filled rows are cleared and scored, and the next
    /// piece spawns.
    #[verifier::opaque]
    pub open spec fn lock(self, fresh: Seq<Shape>) -> GameView {
        if invisible(self.row, self.canvas()) {
            self.end_game()
        } else {
            (GameView {
                locked: placed(self.locked, self.row, self.col, self.canvas()),
                ..self
            }).clear_filled_rows().next_piece(fresh)
        }
    }

    /// The row at which the active piece would land.
    pub open spec fn landing(self) -> int {
        landing_row(self.locked, self.row, self.col, self.canvas())
    }

    /// The active piece drops to where it lands, scores for every row of
    /// the drop and locks at once.
    #[verifier::opaque]
    pub open spec fn hard_drop(self, fresh: Seq<Shape>) -> GameView {
        let lines = if self.landing() > self.row {
            self.landing() - self.row
        } else {
            0
        };
        (GameView {
            row: self.landing(),
            score: add_points(self.score, HARD_DROP_POINTS * lines),
            ..self
        }).lock(fresh)
    }

    /// The orientation after a clockwise rotation.
    pub open spec fn turned(self) -> int {
        (self.orientation + 1) % 4
    }

    /// The position, as `(row, column)`, that kick `index` of a clockwise
    /// rotation moves the piece to.
    pub open spec fn kick(self, index: int) -> (int, int) {
        let offset = self.piece().kick(self.orientation, self.turned(), index);
        (self.row + offset.1, self.col + offset.0)
    }

    /// Whether the rotated piece fits at kick `index`.
    pub open spec fn kick_fits(self, index: int) -> bool {
        !self.collides_at(self.kick(index).0, self.kick(index).1, self.turned())
    }

    /// The first kick, from `index` on, at which the rotated piece fits; the
    /// number of kicks if it fits at none.
    pub open spec fn first_kick(self, index: int) -> int
        decreases KICKS - index,
    {
        if index >= KICKS {
            KICKS as int
        } else if self.kick_fits(index) {
            index
        } else {
            self.first_kick(index + 1)
        }
    }

    /// The piece turns clockwise, to the first kick position at which it
    /// fits. If it fits at none, nothing happens.
    #[verifier::opaque]
    pub open spec fn rotate_right(self) -> GameView {
        let index = self.first_kick(0);
        if index < KICKS {
            (GameView {
                orientation: self.turned(),
                row: self.kick(index).0,
                col: self.kick(index).1,
                ..self
            }).try_reset_lock_delay()
        } else {
            self
        }
    }

    /// The piece moves `offset` columns if it fits there.
    pub open spec fn shift_by(self, offset: int) -> GameView {
        if offset != 0 && !self.collides_at(self.row, self.col + offset, self.orientation) {
            (GameView { col: self.col + offset, ..self }).try_reset_lock_delay()
        } else {
            self
        }
    }

    /// The bookkeeping of horizontal movement: the state with the repeat
    /// timer and the shift direction brought up to date, and the number of
    /// columns that the piece is to move by.
    ///
    /// With no shift key held, the repeat timer is armed and nothing moves.
    /// A key that is newly held, or held after the other one was let go,
    /// moves the piece at once and arms the repeat delay. A key that stays
    /// held moves the piece each time the repeat timer runs out, which then
    /// restarts at the repeat interval. When both keys are held, the one
    /// held first goes on; from rest, left wins.
    pub open spec fn shift_plan(self, left: bool, right: bool) -> (GameView, int) {
        if !left && !right {
            (
                GameView {
                    ticks_to_repeat: REPEAT_DELAY_TICKS as int,
                    shift: ShiftDirection::Neither,
                    ..self
                },
                0,
            )
        } else if (self.shift == ShiftDirection::Left && left) || (self.shift
            == ShiftDirection::Right && right) {
            let remaining = clamp(self.ticks_to_repeat - self.tick_delta());
            if remaining <= 0 {
                (
                    GameView { ticks_to_repeat: REPEAT_INTERVAL_TICKS as int, ..self },
                    if self.shift == ShiftDirection::Left {
                        -1
                    } else {
                        1
                    },
                )
            } else {
                (GameView { ticks_to_repeat: remaining, ..self }, 0)
            }
        } else {
            let go_left = self.shift == ShiftDirection::Right || (self.shift
                == ShiftDirection::Neither && left);
            (
                GameView {
                    ticks_to_repeat: REPEAT_DELAY_TICKS as int,
                    shift: if go_left {
                        ShiftDirection::Left
                    } else {
                        ShiftDirection::Right
                    },
                    ..self
                },
                if go_left {
                    -1
                } else {
                    1
                },
            )
        }
    }

    /// Horizontal movement: the bookkeeping of `shift_plan`, then the move
    /// that it asks for, if the piece fits there.
    #[verifier::opaque]
    pub open spec fn move_horizontal(self, left: bool, right: bool) -> GameView {
        self.shift_plan(left, right).0.shift_by(self.shift_plan(left, right).1)
    }

    /// Gravity. Once the descent timer has run out, the piece descends one
    /// row if it fits there, which restarts the descent timer, the lock
    /// delay and the budget of resets, and scores under a soft drop. If it
    /// cannot descend, the lock delay runs down, and the piece locks when it
    /// has run out.
    #[verifier::opaque]
    pub open spec fn gravity(self, soft_drop: bool, fresh: Seq<Shape>) -> GameView {
        if self.ticks_to_next_row > 0 {
            self
        } else if self.collides_at(self.row + 1, self.col, self.orientation) {
            let resting = GameView {
                ticks_to_lock: clamp(self.ticks_to_lock - self.tick_delta()),
                ..self
            };
            if resting.ticks_to_lock <= 0 {
                resting.lock(fresh)
            } else {
                resting
            }
        } else {
            GameView {
                score: if soft_drop {
                    add_points(self.score, SOFT_DROP_POINTS as int)
                } else {
                    self.score
                },
                row: self.row + 1,
                ticks_to_next_row: fall_interval(self.level()),
                resets_left: RESET_MOVES as int,
                ticks_to_lock: LOCK_DELAY_TICKS as int,
                ..self
            }
        }
    }

    /// The two overlays are drawn anew: the active piece at its position,
    /// and its ghost in the same column at the landing row.
    #[verifier::opaque]
    pub open spec fn refresh_overlays(self) -> GameView {
        GameView {
            active_grid: placed(empty_cells(), self.row, self.col, self.canvas()),
            ghost_grid: placed(empty_cells(), self.landing(), self.col, self.canvas()),
            ..self
        }
    }

    /// The time up to `tick` passes: the descent timer runs down by the
    /// ticks elapsed, times the soft-drop factor while soft drop is held.
    pub open spec fn pass_time(self, tick: int, soft_drop: bool) -> GameView {
        let now = GameView { tick, ..self };
        let factor = if soft_drop {
            soft_drop_factor(self.level())
        } else {
            1
        };
        GameView {
            ticks_to_next_row: clamp(self.ticks_to_next_row - now.tick_delta() * factor),
            ..now
        }
    }

    /// One update of a game that is neither paused nor over: time passes,
    /// then hold, rotation, hard drop, horizontal movement and gravity take
    /// effect in this order, and the overlays are drawn anew. Once the game
    /// is over, the remaining actions of the update are left out.
    pub open spec fn advance(self, input: GameInput, tick: int, fresh: Seq<Shape>) -> GameView {
        let timed = self.pass_time(tick, input.soft_drop);
        let held = if input.hold_piece {
            timed.swap(fresh)
        } else {
            timed
        };
        let rotated = if input.rotate_right && !held.game_over {
            held.rotate_right()
        } else {
            held
        };
        let dropped = if input.hard_drop && !rotated.game_over {
            rotated.hard_drop(fresh)
        } else {
            rotated
        };
        let moved = if !dropped.game_over {
            dropped.move_horizontal(input.shift_left, input.shift_right)
        } else {
            dropped
        };
        let fallen = if !moved.game_over {
            moved.gravity(input.soft_drop, fresh)
        } else {
            moved
        };
        fallen.refresh_overlays()
    }

    /// One update. `tick` is the number of ticks on the clock, and `fresh`
    /// the bag that follows if a draw exhausts the current one. The pause
    /// toggle is taken first; a game that is then paused or over stays as
    /// it is.
    pub open spec fn step(self, input: GameInput, tick: int, fresh: Seq<Shape>) -> GameView {
        let toggled = if input.toggle_pause {
            self.toggle_pause()
        } else {
            self
        };
        if toggled.game_over || toggled.paused {
            toggled
        } else {
            toggled.advance(input, tick, fresh)
        }
    }

    /// Whether the active piece lies inside the playfield.
    pub open spec fn within(self) -> bool {
        within_grid(self.row, self.col, self.canvas())
    }

    /// Wherever the active piece fits, it lies inside the playfield, and
    /// the top-left corner of its canvas is a cell of the playfield or at
    /// most four cells above or left of it.
    pub proof fn lemma_fit_bounds(self, row: int, col: int, orientation: int)
        requires
            !self.collides_at(row, col, orientation),
        ensures
            -4 <= row <= 20,
            -4 <= col <= 9,
            within_grid(row, col, self.canvas_at(orientation)),
    {
        lemma_catalog_wf(self.shape);
        lemma_canvas_low_cell(self.shape, orientation);
        lemma_canvas_shape(self.shape, orientation);
        let (i, j) = low_cell(self.shape, orientation);
        assert(occupied(self.canvas_at(orientation), i, j));
        assert(in_grid(row + i, col + j));
    }

    /// The bounding box of a spawning piece lies inside the playfield, and
    /// so it does one row higher.
    pub proof fn lemma_spawn_within(self, row: int)
        requires
            0 <= row <= SPAWN_ROW,
        ensures
            2 <= self.piece().initial_col() <= 3,
            within_grid(row, self.piece().initial_col(), self.canvas_at(0)),
    {
        lemma_catalog_wf(self.shape);
        lemma_canvas_shape(self.shape, 0);
    }

    /// On an empty playfield a piece fits wherever it lies inside.
    pub proof fn lemma_fits_when_empty(self, row: int, col: int, orientation: int)
        requires
            self.locked == empty_cells(),
            within_grid(row, col, self.canvas_at(orientation)),
        ensures
            !self.collides_at(row, col, orientation),
    {
    }

    /// The active piece of a game lies inside the playfield, and so does
    /// its ghost. While the game is on, the ghost is at or below the piece
    /// and fits.
    pub proof fn lemma_overlays_within(self)
        requires
            self.wf(),
        ensures
            self.within(),
            -4 <= self.landing() <= 20,
            within_grid(self.landing(), self.col, self.canvas()),
            self.fits() ==> self.row <= self.landing() && !self.collides_at(
                self.landing(),
                self.col,
                self.orientation,
            ),
    {
        if self.fits() {
            self.lemma_fit_bounds(self.row, self.col, self.orientation);
            lemma_canvas_low_cell(self.shape, self.orientation);
            let (i, j) = low_cell(self.shape, self.orientation);
            lemma_landing_fits(self.locked, self.row, self.col, self.canvas(), i, j);
            self.lemma_fit_bounds(self.landing(), self.col, self.orientation);
        } else {
            self.lemma_spawn_within(1);
            self.lemma_spawn_within(0);
            assert(self.landing() == 0) by {
                reveal_with_fuel(landing_row, 2);
            }
        }
    }

    /// Whether a clockwise rotation is unobstructed: the rotated piece fits
    /// at the first kick.
    pub open spec fn turns_freely(self) -> bool {
        self.kick_fits(0)
    }

    /// The state after `n` moves in a row that each succeed, with the lock
    /// delay run down to `run_down_to` ticks before each of them.
    pub open spec fn after_moves(self, n: nat, run_down_to: int) -> GameView
        decreases n,
    {
        if n == 0 {
            self
        } else {
            (GameView {
                ticks_to_lock: run_down_to,
                ..self.after_moves((n - 1) as nat, run_down_to)
            }).try_reset_lock_delay()
        }
    }

    /// Rotation is cyclic. Four clockwise rotations in a row, none of them
    /// obstructed, bring the piece back to the orientation and to the
    /// position that it started from. Nothing but the lock delay and the
    /// budget of resets has changed by then.
    pub proof fn lemma_four_rotations(self)
        requires
            0 <= self.orientation < 4,
            self.turns_freely(),
            self.rotate_right().turns_freely(),
            self.rotate_right().rotate_right().turns_freely(),
            self.rotate_right().rotate_right().rotate_right().turns_freely(),
        ensures
            ({
                let turned = self.rotate_right().rotate_right().rotate_right().rotate_right();
                turned == (GameView {
                    ticks_to_lock: turned.ticks_to_lock,
                    resets_left: turned.resets_left,
                    ..self
                })
            }),
    {
        reveal(GameView::rotate_right);
        let once = self.rotate_right();
        let twice = once.rotate_right();
        let thrice = twice.rotate_right();
        assert(self.first_kick(0) == 0);
        assert(once.first_kick(0) == 0);
        assert(twice.first_kick(0) == 0);
        assert(thrice.first_kick(0) == 0);
        assert(once.orientation == (self.orientation + 1) % 4);
        assert(twice.orientation == (self.orientation + 2) % 4);
        assert(thrice.orientation == (self.orientation + 3) % 4);
    }

    /// A rotation that succeeds turns the piece to the first kick position
    /// at which it fits, and one that does not leaves the state as it is.
    pub proof fn lemma_rotation(self)
        ensures
            0 <= self.first_kick(0) <= KICKS,
            self.first_kick(0) < KICKS ==> self.kick_fits(self.first_kick(0)),
            forall|index: int| 0 <= index < self.first_kick(0) ==> !self.kick_fits(index),
            self.first_kick(0) == KICKS ==> self.rotate_right() == self,
            self.first_kick(0) < KICKS ==> self.rotate_right() == (GameView {
                orientation: self.turned(),
                row: self.kick(self.first_kick(0)).0,
                col: self.kick(self.first_kick(0)).1,
                ..self
            }).try_reset_lock_delay(),
    {
        reveal(GameView::rotate_right);
        self.lemma_first_kick(0);
    }

    proof fn lemma_first_kick(self, from: int)
        requires
            0 <= from <= KICKS,
        ensures
            from <= self.first_kick(from) <= KICKS,
            self.first_kick(from) < KICKS ==> self.kick_fits(self.first_kick(from)),
            forall|index: int| from <= index < self.first_kick(from) ==> !self.kick_fits(index),
        decreases KICKS - from,
    {
        if from < KICKS && !self.kick_fits(from) {
            self.lemma_first_kick(from + 1);
        }
    }

    /// The budget of lock-delay resets. From a full budget, each of the
    /// first `RESET_MOVES` successful moves in a row sets the lock delay
    /// back to its full length, however far it had run down. The budget is
    /// then used up, and one more move leaves the lock delay where it is.
    pub proof fn lemma_reset_budget(self, n: nat, run_down_to: int)
        requires
            self.resets_left == RESET_MOVES,
            1 <= n <= RESET_MOVES + 1,
        ensures
            n <= RESET_MOVES ==> self.after_moves(n, run_down_to).ticks_to_lock == LOCK_DELAY_TICKS,
            n <= RESET_MOVES ==> self.after_moves(n, run_down_to).resets_left == RESET_MOVES - n,
            n == RESET_MOVES + 1 ==> self.after_moves(n, run_down_to).ticks_to_lock == run_down_to,
            n == RESET_MOVES + 1 ==> self.after_moves(n, run_down_to).resets_left == 0,
        decreases n,
    {
        reveal_with_fuel(GameView::after_moves, 2);
        if n > 1 {
            self.lemma_reset_budget((n - 1) as nat, run_down_to);
        }
    }

    /// A move or a rotation that succeeds restarts the lock delay exactly
    /// when a reset is left in the budget, and uses that reset up.
    pub proof fn lemma_move_resets_lock_delay(self, offset: int)
        requires
            offset != 0,
            !self.collides_at(self.row, self.col + offset, self.orientation),
        ensures
            self.shift_by(offset).col == self.col + offset,
            self.resets_left > 0 ==> self.shift_by(offset).ticks_to_lock == LOCK_DELAY_TICKS
                && self.shift_by(offset).resets_left == self.resets_left - 1,
            self.resets_left <= 0 ==> self.shift_by(offset).ticks_to_lock == self.ticks_to_lock
                && self.shift_by(offset).resets_left == self.resets_left,
    {
    }

    /// Block-out. A piece that does not fit where it spawns ends the game,
    /// and none of its blocks is written: the locked blocks stay as they
    /// are.
    pub proof fn lemma_blocked_spawn(self, shape: Shape)
        requires
            collides(
                self.locked,
                SPAWN_ROW as int,
                lookup(shape).initial_col(),
                lookup(shape).canvas(0, false),
            ),
        ensures
            self.spawn(shape).game_over,
            self.spawn(shape).locked == self.locked,
            self.spawn(shape).shape == shape,
    {
        reveal(GameView::spawn);
    }

    /// A piece that fits where it spawns does not end the game.
    pub proof fn lemma_free_spawn(self, shape: Shape)
        requires
            !collides(
                self.locked,
                SPAWN_ROW as int,
                lookup(shape).initial_col(),
                lookup(shape).canvas(0, false),
            ),
        ensures
            self.spawn(shape).game_over == self.game_over,
            self.spawn(shape).fits(),
            self.spawn(shape).at_spawn(),
    {
        reveal(GameView::spawn);
    }

    /// A paused game waits: whatever else the input holds, nothing changes
    /// until the input toggles the pause.
    pub proof fn lemma_paused_game_waits(self, input: GameInput, tick: int, fresh: Seq<Shape>)
        requires
            self.paused,
            !input.toggle_pause,
        ensures
            self.step(input, tick, fresh) == self,
    {
    }

    /// The end of a game is final: once the game is over, no update changes
    /// anything but the pause, which the input may still toggle.
    pub proof fn lemma_game_over_is_final(self, input: GameInput, tick: int, fresh: Seq<Shape>)
        requires
            self.game_over,
        ensures
            self.step(input, tick, fresh).game_over,
            !input.toggle_pause ==> self.step(input, tick, fresh) == self,
            input.toggle_pause ==> self.step(input, tick, fresh) == self.toggle_pause(),
    {
    }

    /// The score never goes down, and neither does the count of cleared
    /// rows.
    pub proof fn lemma_score_never_drops(self, input: GameInput, tick: int, fresh: Seq<Shape>)
        requires
            0 <= self.score <= usize::MAX,
            0 <= self.rows_cleared <= usize::MAX,
        ensures
            self.score <= self.step(input, tick, fresh).score <= usize::MAX,
            self.rows_cleared <= self.step(input, tick, fresh).rows_cleared <= usize::MAX,
    {
        let toggled = if input.toggle_pause {
            self.toggle_pause()
        } else {
            self
        };
        if !(toggled.game_over || toggled.paused) {
            let timed = toggled.pass_time(tick, input.soft_drop);
            let held = if input.hold_piece {
                timed.swap(fresh)
            } else {
                timed
            };
            let rotated = if input.rotate_right && !held.game_over {
                held.rotate_right()
            } else {
                held
            };
            let dropped = if input.hard_drop && !rotated.game_over {
                rotated.hard_drop(fresh)
            } else {
                rotated
            };
            let moved = if !dropped.game_over {
                dropped.move_horizontal(input.shift_left, input.shift_right)
            } else {
                dropped
            };
            let fallen = if !moved.game_over {
                moved.gravity(input.soft_drop, fresh)
            } else {
                moved
            };
            timed.lemma_swap_keeps_score(fresh);
            held.lemma_rotation_keeps_score();
            rotated.lemma_hard_drop_scores(fresh);
            dropped.lemma_move_keeps_score(input.shift_left, input.shift_right);
            moved.lemma_gravity_scores(input.soft_drop, fresh);
            reveal(GameView::refresh_overlays);
        }
    }

    proof fn lemma_spawn_keeps_score(self, shape: Shape)
        ensures
            self.spawn(shape).score == self.score,
            self.spawn(shape).rows_cleared == self.rows_cleared,
    {
        reveal(GameView::spawn);
    }

    proof fn lemma_swap_keeps_score(self, fresh: Seq<Shape>)
        ensures
            self.swap(fresh).score == self.score,
            self.swap(fresh).rows_cleared == self.rows_cleared,
    {
        reveal(GameView::swap);
        let holding = GameView { held: Some(self.shape), ..self };
        match self.held {
            Some(held) => holding.lemma_spawn_keeps_score(held),
            None => (GameView { bag: holding.bag.draw(fresh).0, ..holding }).lemma_spawn_keeps_score(
                holding.bag.draw(fresh).1,
            ),
        }
    }

    proof fn lemma_rotation_keeps_score(self)
        ensures
            self.rotate_right().score == self.score,
            self.rotate_right().rows_cleared == self.rows_cleared,
    {
        reveal(GameView::rotate_right);
    }

    proof fn lemma_move_keeps_score(self, left: bool, right: bool)
        ensures
            self.move_horizontal(left, right).score == self.score,
            self.move_horizontal(left, right).rows_cleared == self.rows_cleared,
    {
        reveal(GameView::move_horizontal);
    }

    proof fn lemma_lock_scores(self, fresh: Seq<Shape>)
        requires
            0 <= self.score <= usize::MAX,
            0 <= self.rows_cleared <= usize::MAX,
        ensures
            self.score <= self.lock(fresh).score <= usize::MAX,
            self.rows_cleared <= self.lock(fresh).rows_cleared <= usize::MAX,
    {
        reveal(GameView::lock);
        if !invisible(self.row, self.canvas()) {
            let cleared = (GameView {
                locked: placed(self.locked, self.row, self.col, self.canvas()),
                ..self
            }).clear_filled_rows();
            (GameView { bag: cleared.bag.draw(fresh).0, ..cleared }).lemma_spawn_keeps_score(
                cleared.bag.draw(fresh).1,
            );
        }
    }

    proof fn lemma_hard_drop_scores(self, fresh: Seq<Shape>)
        requires
            0 <= self.score <= usize::MAX,
            0 <= self.rows_cleared <= usize::MAX,
        ensures
            self.score <= self.hard_drop(fresh).score <= usize::MAX,
            self.rows_cleared <= self.hard_drop(fresh).rows_cleared <= usize::MAX,
    {
        reveal(GameView::hard_drop);
        let lines = if self.landing() > self.row {
            self.landing() - self.row
        } else {
            0
        };
        (GameView {
            row: self.landing(),
            score: add_points(self.score, HARD_DROP_POINTS * lines),
            ..self
        }).lemma_lock_scores(fresh);
    }

    proof fn lemma_gravity_scores(self, soft_drop: bool, fresh: Seq<Shape>)
        requires
            0 <= self.score <= usize::MAX,
            0 <= self.rows_cleared <= usize::MAX,
        ensures
            self.score <= self.gravity(soft_drop, fresh).score <= usize::MAX,
            self.rows_cleared <= self.gravity(soft_drop, fresh).rows_cleared <= usize::MAX,
    {
        reveal(GameView::gravity);
        (GameView {
            ticks_to_lock: clamp(self.ticks_to_lock - self.tick_delta()),
            ..self
        }).lemma_lock_scores(fresh);
    }

    /// Lock-out. A piece that would lock wholly above the visible rows ends
    /// the game instead: none of its blocks is written, and no piece is
    /// drawn.
    pub proof fn lemma_lock_out(self, fresh: Seq<Shape>)
        requires
            invisible(self.row, self.canvas()),
        ensures
            self.lock(fresh).game_over,
            self.lock(fresh).locked == self.locked,
            self.lock(fresh).bag == self.bag,
            self.lock(fresh).score == self.score,
    {
        reveal(GameView::lock);
    }

    /// A piece that locks within sight joins the locked blocks, filled
    /// rows are cleared and scored at the level before the clear, and the
    /// next shape of the bag becomes the active piece.
    pub proof fn lemma_locked_piece_scores(self, fresh: Seq<Shape>)
        requires
            !invisible(self.row, self.canvas()),
        ensures
            self.lock(fresh).score == add_points(
                self.score,
                line_clear_bonus(
                    filled_rows(
                        placed(self.locked, self.row, self.col, self.canvas()),
                        GRID_COUNT_ROWS as int,
                    ),
                    self.level(),
                ) as int,
            ),
            self.lock(fresh).locked == cleared(
                placed(self.locked, self.row, self.col, self.canvas()),
            ),
            self.lock(fresh).bag == self.bag.draw(fresh).0,
            self.lock(fresh).shape == self.bag.draw(fresh).1,
    {
        reveal(GameView::lock);
        reveal(GameView::spawn);
    }
}

} // verus!
