use bloxide::bag_manager::BagManager;
use bloxide::block::Block;
use bloxide::game_state::{GameInput, GameState};
use bloxide::grid::{Grid, GRID_COUNT_COLS, GRID_COUNT_ROWS};
use bloxide::piece::Shape;
use bloxide::pieces;

const O_FIRST: [Shape; 7] = [Shape::O, Shape::I, Shape::T, Shape::S, Shape::Z, Shape::J, Shape::L];
const I_FIRST: [Shape; 7] = [Shape::I, Shape::O, Shape::T, Shape::S, Shape::Z, Shape::J, Shape::L];
const T_FIRST: [Shape; 7] = [Shape::T, Shape::I, Shape::O, Shape::S, Shape::Z, Shape::J, Shape::L];
const FRESH: [Shape; 7] = [Shape::L, Shape::J, Shape::Z, Shape::S, Shape::T, Shape::O, Shape::I];

/// A game together with the tick that its clock shows.
struct Play {
    game: GameState,
    tick: usize,
}

impl Play {
    fn new(current: [Shape; 7], next: [Shape; 7]) -> Play {
        let bag = BagManager::from_shapes(current, next).unwrap();
        Play { game: GameState::with_bag_manager(bag), tick: 0 }
    }

    /// One frame, `delta` ticks after the one before.
    fn frame(&mut self, input: GameInput, delta: usize) {
        self.tick += delta;
        self.game.update_with(input, self.tick, FRESH);
        self.game.clean_up();
    }

    fn tap(&mut self, input: GameInput) {
        self.frame(input, 0);
        self.frame(idle(), 0);
    }

    fn position(&self) -> (isize, isize, usize) {
        (
            self.game.get_active_piece_row(),
            self.game.get_active_piece_col(),
            self.game.get_active_piece_orientation(),
        )
    }

    fn name(&self) -> &'static str {
        self.game.get_active_piece().name
    }
}

fn idle() -> GameInput {
    GameInput::default()
}

fn left() -> GameInput {
    GameInput { shift_left: true, ..GameInput::default() }
}

fn right() -> GameInput {
    GameInput { shift_right: true, ..GameInput::default() }
}

fn rotate() -> GameInput {
    GameInput { rotate_right: true, ..GameInput::default() }
}

fn hard_drop() -> GameInput {
    GameInput { hard_drop: true, ..GameInput::default() }
}

fn soft_drop() -> GameInput {
    GameInput { soft_drop: true, ..GameInput::default() }
}

fn hold() -> GameInput {
    GameInput { hold_piece: true, ..GameInput::default() }
}

fn pause() -> GameInput {
    GameInput { toggle_pause: true, ..GameInput::default() }
}

fn snapshot(grid: &Grid) -> Vec<Vec<Option<Block>>> {
    (0..GRID_COUNT_ROWS)
        .map(|row| (0..GRID_COUNT_COLS).map(|col| grid.get_cell(row, col)).collect())
        .collect()
}

fn blocks_at(grid: &Grid) -> Vec<(usize, usize)> {
    let mut found = Vec::new();
    for row in 0..GRID_COUNT_ROWS {
        for col in 0..GRID_COUNT_COLS {
            if grid.has_block_at_cell(row, col) {
                found.push((row, col));
            }
        }
    }
    found
}

#[test]
fn new_game_spawns_the_first_piece_of_the_bag() {
    let play = Play::new(O_FIRST, I_FIRST);
    assert_eq!(play.name(), "O");
    assert_eq!(play.position(), (1, 3, 0));
    assert_eq!(play.game.get_score(), 0);
    assert_eq!(play.game.get_level(), 1);
    assert!(!play.game.get_is_game_over());
    assert!(!play.game.get_is_paused());
    assert_eq!(play.game.get_held_piece(), None);
    assert_eq!(play.game.get_ticks_to_lock(), 30);
    assert_eq!(play.game.get_lock_reset_moves_remaining(), 15);
    assert!(blocks_at(play.game.get_grid_locked()).is_empty());
    assert!(blocks_at(play.game.get_grid_active()).is_empty());
    assert!(blocks_at(play.game.get_grid_ghost()).is_empty());
}

#[test]
fn i_piece_spawns_one_column_further_left() {
    let play = Play::new(I_FIRST, O_FIRST);
    assert_eq!(play.name(), "I");
    assert_eq!(play.position(), (1, 2, 0));
}

#[test]
fn previews_show_the_next_three_pieces() {
    let mut play = Play::new(O_FIRST, I_FIRST);
    let names: Vec<&str> = play.game.get_piece_previews().iter().map(|p| p.name).collect();
    assert_eq!(names, vec!["I", "T", "S"]);
    play.frame(hard_drop(), 0);
    let names: Vec<&str> = play.game.get_piece_previews().iter().map(|p| p.name).collect();
    assert_eq!(names, vec!["T", "S", "Z"]);
    for _ in 0..4 {
        play.frame(hold(), 0);
        play.frame(hard_drop(), 0);
    }
    assert_eq!(play.name(), "L");
    let names: Vec<&str> = play.game.get_piece_previews().iter().map(|p| p.name).collect();
    assert_eq!(names, vec!["I", "O", "T"]);
}

#[test]
fn overlays_show_the_piece_and_its_ghost() {
    let mut play = Play::new(O_FIRST, I_FIRST);
    play.frame(idle(), 0);
    assert_eq!(blocks_at(play.game.get_grid_active()), vec![(1, 4), (1, 5), (2, 4), (2, 5)]);
    assert_eq!(blocks_at(play.game.get_grid_ghost()), vec![(20, 4), (20, 5), (21, 4), (21, 5)]);
    assert!(blocks_at(play.game.get_grid_locked()).is_empty());
    play.tap(left());
    assert_eq!(blocks_at(play.game.get_grid_active()), vec![(1, 3), (1, 4), (2, 3), (2, 4)]);
    assert_eq!(blocks_at(play.game.get_grid_ghost()), vec![(20, 3), (20, 4), (21, 3), (21, 4)]);
}

#[test]
fn gravity_moves_the_piece_one_row_every_sixty_ticks() {
    let mut play = Play::new(O_FIRST, I_FIRST);
    for _ in 0..59 {
        play.frame(idle(), 1);
        assert_eq!(play.position(), (1, 3, 0));
    }
    play.frame(idle(), 1);
    assert_eq!(play.position(), (2, 3, 0));
    for _ in 0..59 {
        play.frame(idle(), 1);
    }
    assert_eq!(play.position(), (2, 3, 0));
    play.frame(idle(), 1);
    assert_eq!(play.position(), (3, 3, 0));
    assert_eq!(play.game.get_score(), 0);
}

#[test]
fn a_late_frame_still_descends_one_row() {
    let mut play = Play::new(O_FIRST, I_FIRST);
    play.frame(idle(), 600);
    assert_eq!(play.position(), (2, 3, 0));
    play.frame(idle(), 59);
    assert_eq!(play.position(), (2, 3, 0));
    play.frame(idle(), 1);
    assert_eq!(play.position(), (3, 3, 0));
}

#[test]
fn o_piece_falls_to_the_floor_and_locks() {
    let mut play = Play::new(O_FIRST, I_FIRST);
    for frame in 1..=1228 {
        play.frame(idle(), 1);
        assert_eq!(play.name(), "O", "frame {}", frame);
        assert!(blocks_at(play.game.get_grid_locked()).is_empty());
        let row = play.game.get_active_piece_row();
        assert_eq!(row, (1 + frame / 60).min(20) as isize, "frame {}", frame);
    }
    assert_eq!(play.game.get_ticks_to_lock(), 1);
    play.frame(idle(), 1);
    assert_eq!(blocks_at(play.game.get_grid_locked()), vec![(20, 4), (20, 5), (21, 4), (21, 5)]);
    for (row, col) in [(20, 4), (20, 5), (21, 4), (21, 5)] {
        assert_eq!(play.game.get_grid_locked().get_cell(row, col), Some(Block::new(pieces::o().color)));
    }
    assert_eq!(play.name(), "I");
    assert_eq!(play.position(), (1, 2, 0));
    assert_eq!(play.game.get_score(), 0);
    assert_eq!(play.game.get_ticks_to_lock(), 30);
    assert!(!play.game.get_is_game_over());
    assert_eq!(blocks_at(play.game.get_grid_active()), vec![(3, 3), (3, 4), (3, 5), (3, 6)]);
}

#[test]
fn hard_drop_locks_at_once_and_scores_two_points_a_row() {
    let mut play = Play::new(O_FIRST, I_FIRST);
    play.frame(hard_drop(), 0);
    assert_eq!(blocks_at(play.game.get_grid_locked()), vec![(20, 4), (20, 5), (21, 4), (21, 5)]);
    assert_eq!(play.game.get_score(), 38);
    assert_eq!(play.name(), "I");
    assert_eq!(play.position(), (1, 2, 0));
    play.frame(hard_drop(), 0);
    assert_eq!(play.game.get_score(), 38 + 2 * 16);
    assert_eq!(
        blocks_at(play.game.get_grid_locked()),
        vec![(19, 3), (19, 4), (19, 5), (19, 6), (20, 4), (20, 5), (21, 4), (21, 5)]
    );
    assert_eq!(play.name(), "T");
}

#[test]
fn soft_drop_speeds_the_descent_up_and_scores_a_point_a_row() {
    let mut play = Play::new(O_FIRST, I_FIRST);
    play.frame(soft_drop(), 1);
    assert_eq!(play.position(), (1, 3, 0));
    play.frame(soft_drop(), 1);
    assert_eq!(play.position(), (2, 3, 0));
    assert_eq!(play.game.get_score(), 1);
    for _ in 0..8 {
        play.frame(soft_drop(), 1);
    }
    assert_eq!(play.position(), (6, 3, 0));
    assert_eq!(play.game.get_score(), 5);
    play.frame(idle(), 1);
    assert_eq!(play.position(), (6, 3, 0));
}

#[test]
fn a_fresh_shift_moves_at_once_and_repeats_after_the_delay() {
    let mut play = Play::new(O_FIRST, I_FIRST);
    play.frame(left(), 1);
    assert_eq!(play.position(), (1, 2, 0));
    for _ in 0..10 {
        play.frame(left(), 1);
        assert_eq!(play.position(), (1, 2, 0));
    }
    play.frame(left(), 1);
    assert_eq!(play.position(), (1, 1, 0));
    for _ in 0..3 {
        play.frame(left(), 1);
        assert_eq!(play.position(), (1, 1, 0));
    }
    play.frame(left(), 1);
    assert_eq!(play.position(), (1, 0, 0));
    for _ in 0..4 {
        play.frame(left(), 1);
    }
    assert_eq!(play.position(), (1, -1, 0));
    for _ in 0..12 {
        play.frame(left(), 1);
    }
    assert_eq!(play.position(), (1, -1, 0));
}

#[test]
fn the_walls_stop_a_shift() {
    let mut play = Play::new(O_FIRST, I_FIRST);
    for _ in 0..10 {
        play.tap(right());
    }
    assert_eq!(play.position(), (1, 7, 0));
    for _ in 0..12 {
        play.tap(left());
    }
    assert_eq!(play.position(), (1, -1, 0));
}

#[test]
fn letting_go_of_a_key_arms_the_repeat_delay_again() {
    let mut play = Play::new(O_FIRST, I_FIRST);
    play.frame(left(), 1);
    for _ in 0..10 {
        play.frame(left(), 1);
    }
    assert_eq!(play.position(), (1, 2, 0));
    play.frame(idle(), 1);
    play.frame(left(), 1);
    assert_eq!(play.position(), (1, 1, 0));
    for _ in 0..10 {
        play.frame(left(), 1);
    }
    assert_eq!(play.position(), (1, 1, 0));
    play.frame(left(), 1);
    assert_eq!(play.position(), (1, 0, 0));
}

#[test]
fn switching_the_direction_moves_at_once() {
    let mut play = Play::new(O_FIRST, I_FIRST);
    play.frame(left(), 1);
    assert_eq!(play.position(), (1, 2, 0));
    play.frame(right(), 1);
    assert_eq!(play.position(), (1, 3, 0));
    play.frame(right(), 1);
    assert_eq!(play.position(), (1, 3, 0));
    play.frame(left(), 1);
    assert_eq!(play.position(), (1, 2, 0));
}

#[test]
fn with_both_keys_held_the_first_goes_on_and_left_wins_from_rest() {
    let both = GameInput { shift_left: true, shift_right: true, ..GameInput::default() };
    let mut play = Play::new(O_FIRST, I_FIRST);
    play.frame(both, 1);
    assert_eq!(play.position(), (1, 2, 0));
    let mut play = Play::new(O_FIRST, I_FIRST);
    play.frame(right(), 1);
    assert_eq!(play.position(), (1, 4, 0));
    for _ in 0..10 {
        play.frame(both, 1);
    }
    assert_eq!(play.position(), (1, 4, 0));
    play.frame(both, 1);
    assert_eq!(play.position(), (1, 5, 0));
}

#[test]
fn rotation_turns_the_piece_clockwise() {
    let mut play = Play::new(T_FIRST, I_FIRST);
    assert_eq!(play.position(), (1, 3, 0));
    play.frame(rotate(), 0);
    assert_eq!(play.position(), (1, 3, 1));
    assert_eq!(blocks_at(play.game.get_grid_active()), vec![(1, 4), (2, 4), (2, 5), (3, 4)]);
    play.frame(rotate(), 0);
    assert_eq!(play.position(), (1, 3, 2));
    play.frame(rotate(), 0);
    assert_eq!(play.position(), (1, 3, 3));
    play.frame(rotate(), 0);
    assert_eq!(play.position(), (1, 3, 0));
}

#[test]
fn four_rotations_bring_every_piece_back() {
    for shape in [Shape::I, Shape::J, Shape::L, Shape::O, Shape::S, Shape::T, Shape::Z] {
        let mut order = O_FIRST;
        let at = order.iter().position(|s| *s == shape).unwrap();
        order.swap(0, at);
        let mut play = Play::new(order, I_FIRST);
        for _ in 0..5 {
            play.frame(idle(), 60);
        }
        let start = play.position();
        assert_eq!(start.0, 6);
        let cells = blocks_at(play.game.get_grid_active());
        let mut seen = vec![start.2];
        for _ in 0..4 {
            play.frame(rotate(), 0);
            seen.push(play.position().2);
        }
        assert_eq!(seen, vec![0, 1, 2, 3, 0]);
        assert_eq!(play.position(), start);
        assert_eq!(blocks_at(play.game.get_grid_active()), cells);
        assert_eq!(play.game.get_lock_reset_moves_remaining(), 11);
    }
}

#[test]
fn rotation_of_the_i_piece_applies_the_first_kick() {
    let mut play = Play::new(I_FIRST, O_FIRST);
    for _ in 0..5 {
        play.frame(idle(), 60);
    }
    assert_eq!(play.position(), (6, 2, 0));
    play.frame(rotate(), 0);
    assert_eq!(play.position(), (6, 3, 1));
    play.frame(rotate(), 0);
    assert_eq!(play.position(), (7, 3, 2));
    play.frame(rotate(), 0);
    assert_eq!(play.position(), (7, 2, 3));
    play.frame(rotate(), 0);
    assert_eq!(play.position(), (6, 2, 0));
}

#[test]
fn rotation_at_the_wall_kicks_the_piece_off_it() {
    let mut play = Play::new(T_FIRST, I_FIRST);
    play.frame(rotate(), 0);
    for _ in 0..6 {
        play.tap(left());
    }
    assert_eq!(play.position(), (1, -1, 1));
    play.frame(rotate(), 0);
    assert_eq!(play.position(), (1, 0, 2));
    assert_eq!(blocks_at(play.game.get_grid_active()), vec![(2, 0), (2, 1), (2, 2), (3, 1)]);
}

#[test]
fn rotation_next_to_the_floor() {
    let mut play = Play::new(I_FIRST, O_FIRST);
    play.frame(rotate(), 0);
    assert_eq!(play.position(), (1, 3, 1));
    for _ in 0..16 {
        play.frame(idle(), 60);
    }
    assert_eq!(play.position(), (17, 3, 1));
    let budget = play.game.get_lock_reset_moves_remaining();
    play.frame(rotate(), 0);
    assert_eq!(play.position(), (18, 3, 2));
    assert_eq!(play.game.get_lock_reset_moves_remaining(), budget - 1);
}

#[test]
fn rotation_that_fits_nowhere_changes_nothing() {
    let order = [Shape::T, Shape::J, Shape::L, Shape::S, Shape::Z, Shape::O, Shape::I];
    let mut play = Play::new(order, O_FIRST);
    for _ in 0..5 {
        play.tap(left());
        play.tap(left());
        assert_eq!(play.game.get_active_piece_col(), 1);
        play.frame(hard_drop(), 0);
    }
    assert_eq!(play.name(), "O");
    for _ in 0..3 {
        play.tap(left());
    }
    play.frame(hard_drop(), 0);
    assert_eq!(play.name(), "I");
    for (row, col) in blocks_at(play.game.get_grid_locked()) {
        assert!(1 <= col && col <= 3);
        assert!(row >= 8);
    }
    play.frame(rotate(), 0);
    assert_eq!(play.position(), (1, 3, 1));
    for _ in 0..5 {
        play.tap(left());
    }
    assert_eq!(play.position(), (1, -2, 1));
    for _ in 0..16 {
        play.frame(idle(), 60);
    }
    assert_eq!(play.position(), (17, -2, 1));
    let budget = play.game.get_lock_reset_moves_remaining();
    let timer = play.game.get_ticks_to_lock();
    play.frame(rotate(), 0);
    assert_eq!(play.position(), (17, -2, 1));
    assert_eq!(play.game.get_lock_reset_moves_remaining(), budget);
    assert_eq!(play.game.get_ticks_to_lock(), timer);
    assert_eq!(
        blocks_at(play.game.get_grid_active()),
        vec![(18, 0), (19, 0), (20, 0), (21, 0)]
    );
}

#[test]
fn hold_swaps_once_for_each_piece() {
    let mut play = Play::new(O_FIRST, I_FIRST);
    play.tap(left());
    play.frame(hold(), 0);
    assert_eq!(play.game.get_held_piece(), Some(pieces::o()));
    assert_eq!(play.name(), "I");
    assert_eq!(play.position(), (1, 2, 0));
    play.frame(hold(), 0);
    assert_eq!(play.game.get_held_piece(), Some(pieces::o()));
    assert_eq!(play.name(), "I");
    play.frame(hard_drop(), 0);
    assert_eq!(play.name(), "T");
    play.frame(rotate(), 0);
    play.frame(idle(), 60);
    assert_eq!(play.position(), (2, 3, 1));
    play.frame(hold(), 0);
    assert_eq!(play.game.get_held_piece(), Some(pieces::t()));
    assert_eq!(play.name(), "O");
    assert_eq!(play.position(), (1, 3, 0));
    play.frame(hold(), 0);
    assert_eq!(play.name(), "O");
    play.frame(hard_drop(), 0);
    assert_eq!(play.name(), "S");
    play.frame(hold(), 0);
    assert_eq!(play.name(), "T");
    assert_eq!(play.position(), (1, 3, 0));
    assert_eq!(play.game.get_held_piece(), Some(pieces::s()));
}

#[test]
fn pause_freezes_the_game() {
    let mut play = Play::new(O_FIRST, I_FIRST);
    play.frame(idle(), 30);
    play.frame(pause(), 0);
    assert!(play.game.get_is_paused());
    let before = snapshot(play.game.get_grid_active());
    for _ in 0..5 {
        play.frame(hard_drop(), 1000);
        play.frame(left(), 1000);
    }
    assert_eq!(play.position(), (1, 3, 0));
    assert_eq!(play.game.get_score(), 0);
    assert_eq!(snapshot(play.game.get_grid_active()), before);
    assert!(blocks_at(play.game.get_grid_locked()).is_empty());
    play.tick = 0;
    play.frame(pause(), 0);
    assert!(!play.game.get_is_paused());
    assert_eq!(play.position(), (1, 3, 0));
    play.frame(idle(), 29);
    assert_eq!(play.position(), (1, 3, 0));
    play.frame(idle(), 1);
    assert_eq!(play.position(), (2, 3, 0));
}

#[test]
fn toggle_pause_pauses_and_resumes() {
    let mut play = Play::new(O_FIRST, I_FIRST);
    play.game.toggle_pause();
    assert!(play.game.get_is_paused());
    play.frame(hard_drop(), 0);
    assert_eq!(play.game.get_score(), 0);
    play.game.toggle_pause();
    assert!(!play.game.get_is_paused());
    play.frame(hard_drop(), 0);
    assert_eq!(play.game.get_score(), 38);
}

#[test]
fn time_counts_from_the_last_clean_up() {
    let mut with = Play::new(O_FIRST, I_FIRST);
    with.game.update_with(idle(), 30, FRESH);
    with.game.clean_up();
    with.game.update_with(idle(), 30, FRESH);
    assert_eq!(with.position(), (1, 3, 0));
    let mut without = Play::new(O_FIRST, I_FIRST);
    without.game.update_with(idle(), 30, FRESH);
    without.game.update_with(idle(), 30, FRESH);
    assert_eq!(without.position(), (2, 3, 0));
}

#[test]
fn a_clock_that_runs_backwards_counts_as_no_time() {
    let mut play = Play::new(O_FIRST, I_FIRST);
    play.game.update_with(idle(), 59, FRESH);
    play.game.clean_up();
    play.game.update_with(idle(), 10, FRESH);
    play.game.clean_up();
    assert_eq!(play.position(), (1, 3, 0));
    play.game.update_with(idle(), 11, FRESH);
    assert_eq!(play.position(), (2, 3, 0));
}

#[test]
fn lock_delay_is_reset_by_moves_while_the_budget_lasts() {
    let mut play = Play::new(O_FIRST, I_FIRST);
    for _ in 0..19 {
        play.frame(idle(), 60);
    }
    assert_eq!(play.position(), (20, 3, 0));
    play.frame(idle(), 59);
    assert_eq!(play.game.get_ticks_to_lock(), 30);
    play.frame(idle(), 1);
    assert_eq!(play.game.get_ticks_to_lock(), 29);
    assert_eq!(play.game.get_lock_reset_moves_remaining(), 15);
    for n in 1..=15 {
        let input = if n % 2 == 1 { left() } else { right() };
        let col = play.game.get_active_piece_col();
        play.frame(input, 0);
        assert_ne!(play.game.get_active_piece_col(), col);
        assert_eq!(play.game.get_ticks_to_lock(), 30, "move {}", n);
        assert_eq!(play.game.get_lock_reset_moves_remaining(), 15 - n);
        play.frame(idle(), 1);
        assert_eq!(play.game.get_ticks_to_lock(), 29, "move {}", n);
    }
    let col = play.game.get_active_piece_col();
    play.frame(right(), 0);
    assert_ne!(play.game.get_active_piece_col(), col);
    assert_eq!(play.game.get_ticks_to_lock(), 29);
    assert_eq!(play.game.get_lock_reset_moves_remaining(), 0);
    play.frame(idle(), 28);
    assert_eq!(play.name(), "O");
    play.frame(idle(), 1);
    assert_eq!(play.name(), "I");
    assert_eq!(blocks_at(play.game.get_grid_locked()).len(), 4);
    assert_eq!(play.game.get_lock_reset_moves_remaining(), 15);
}

#[test]
fn rotations_use_the_reset_budget_too() {
    let mut play = Play::new(T_FIRST, I_FIRST);
    for _ in 0..19 {
        play.frame(idle(), 60);
    }
    assert_eq!(play.position(), (20, 3, 0));
    play.frame(idle(), 59);
    play.frame(idle(), 11);
    assert_eq!(play.game.get_ticks_to_lock(), 19);
    play.frame(left(), 0);
    assert_eq!(play.game.get_ticks_to_lock(), 30);
    assert_eq!(play.game.get_lock_reset_moves_remaining(), 14);
    play.frame(idle(), 5);
    assert_eq!(play.game.get_ticks_to_lock(), 25);
    play.frame(rotate(), 0);
    assert_eq!(play.game.get_lock_reset_moves_remaining(), 13);
}

#[test]
fn a_descent_refills_the_reset_budget() {
    let mut play = Play::new(O_FIRST, I_FIRST);
    play.tap(left());
    play.tap(right());
    play.frame(rotate(), 0);
    assert_eq!(play.game.get_lock_reset_moves_remaining(), 12);
    let row = play.game.get_active_piece_row();
    play.frame(idle(), 60);
    assert_eq!(play.game.get_active_piece_row(), row + 1);
    assert_eq!(play.game.get_lock_reset_moves_remaining(), 15);
}

#[test]
fn a_filled_row_is_cleared_and_scored() {
    let mut play = Play::new(I_FIRST, I_FIRST);
    for _ in 0..3 {
        play.tap(left());
    }
    assert_eq!(play.position(), (1, -1, 0));
    play.frame(hard_drop(), 0);
    assert_eq!(blocks_at(play.game.get_grid_locked()), vec![(21, 0), (21, 1), (21, 2), (21, 3)]);
    assert_eq!(play.game.get_score(), 36);
    assert_eq!(play.name(), "O");
    for _ in 0..4 {
        play.tap(right());
    }
    play.frame(hard_drop(), 0);
    assert_eq!(play.game.get_score(), 36 + 38);
    for name in ["T", "S", "Z", "J", "L"] {
        assert_eq!(play.name(), name);
        for _ in 0..3 {
            play.tap(left());
        }
        assert_eq!(play.game.get_active_piece_col(), 0);
        play.frame(hard_drop(), 0);
    }
    assert_eq!(play.name(), "I");
    play.tap(right());
    assert_eq!(play.position(), (1, 3, 0));
    let score = play.game.get_score();
    let before = snapshot(play.game.get_grid_locked());
    assert!(!play.game.get_grid_locked().is_row_filled(21));
    play.frame(hard_drop(), 0);
    assert_eq!(play.game.get_score(), score + 2 * 18 + 100);
    assert_eq!(play.game.get_level(), 1);
    let after = snapshot(play.game.get_grid_locked());
    assert!(after[0].iter().all(|cell| cell.is_none()));
    for row in 1..GRID_COUNT_ROWS {
        assert_eq!(after[row], before[row - 1], "row {}", row);
    }
    assert_eq!(after[21][8], Some(Block::new(pieces::o().color)));
    assert_eq!(after[21][9], Some(Block::new(pieces::o().color)));
    assert_eq!(after[21][4], None);
    assert_eq!(play.name(), "O");
}

#[test]
fn a_blocked_spawn_ends_the_game_without_writing_the_piece() {
    let mut play = Play::new(O_FIRST, I_FIRST);
    let mut locked = 0;
    let mut pieces_dropped = 0;
    while !play.game.get_is_game_over() {
        assert!(pieces_dropped < 40);
        assert_eq!(blocks_at(play.game.get_grid_locked()).len(), locked);
        play.frame(hard_drop(), 0);
        pieces_dropped += 1;
        locked += 4;
    }
    assert!(pieces_dropped > 5);
    assert_eq!(blocks_at(play.game.get_grid_locked()).len(), locked);
    assert_eq!(play.game.get_active_piece_row(), 1);
    assert_eq!(play.game.get_active_piece_orientation(), 0);
    let piece = play.game.get_active_piece();
    assert_eq!(play.game.get_active_piece_col(), piece.get_initial_col());
    assert!(play.game.get_grid_locked().collision_check(
        1,
        piece.get_initial_col(),
        &piece.get_blocks(0, false)
    ));
}

#[test]
fn a_game_that_is_over_stays_as_it_is() {
    let mut play = Play::new(O_FIRST, I_FIRST);
    while !play.game.get_is_game_over() {
        play.frame(hard_drop(), 0);
    }
    let locked = snapshot(play.game.get_grid_locked());
    let active = snapshot(play.game.get_grid_active());
    let ghost = snapshot(play.game.get_grid_ghost());
    let score = play.game.get_score();
    let position = play.position();
    let name = play.name();
    let held = play.game.get_held_piece();
    for input in [hard_drop(), left(), right(), rotate(), hold(), soft_drop(), idle()] {
        play.frame(input, 100);
        assert!(play.game.get_is_game_over());
        assert_eq!(snapshot(play.game.get_grid_locked()), locked);
        assert_eq!(snapshot(play.game.get_grid_active()), active);
        assert_eq!(snapshot(play.game.get_grid_ghost()), ghost);
        assert_eq!(play.game.get_score(), score);
        assert_eq!(play.position(), position);
        assert_eq!(play.name(), name);
        assert_eq!(play.game.get_held_piece(), held);
    }
    play.frame(pause(), 0);
    assert!(play.game.get_is_paused());
    assert!(play.game.get_is_game_over());
}

#[test]
fn pieces_come_in_the_order_of_the_bags() {
    let mut play = Play::new(O_FIRST, I_FIRST);
    let mut names = Vec::new();
    for n in 0..23 {
        names.push(play.name());
        for _ in 0..4 {
            match n % 3 {
                0 => play.tap(left()),
                1 => play.tap(right()),
                _ => {}
            }
        }
        play.frame(hard_drop(), 0);
        assert!(!play.game.get_is_game_over());
    }
    let expected: Vec<&str> = O_FIRST
        .iter()
        .chain(I_FIRST.iter())
        .chain(FRESH.iter())
        .chain(FRESH.iter())
        .map(|shape| pieces::lookup(*shape).name)
        .take(23)
        .collect();
    assert_eq!(names, expected);
}

#[test]
fn holding_takes_the_next_piece_of_the_bag() {
    let mut play = Play::new(O_FIRST, I_FIRST);
    let mut names = Vec::new();
    for _ in 0..7 {
        names.push(play.name());
        play.frame(hold(), 0);
        play.frame(hold(), 0);
        play.frame(hard_drop(), 0);
    }
    assert_eq!(names, ["O", "T", "S", "Z", "J", "L", "I"]);
}

#[test]
fn a_game_by_the_clock_keeps_running() {
    let mut game = GameState::new();
    assert_eq!(game.get_active_piece_row(), 1);
    for _ in 0..50 {
        game.update(idle());
        game.clean_up();
        assert_eq!(blocks_at(game.get_grid_active()).len(), 4);
        assert_eq!(blocks_at(game.get_grid_ghost()).len(), 4);
    }
    assert!(!game.get_is_game_over());
    game.update(hard_drop());
    assert_eq!(blocks_at(game.get_grid_locked()).len(), 4);
    let score = game.get_score();
    assert!(score > 0 && score % 2 == 0);
    game.update(pause());
    assert!(game.get_is_paused());
    game.update(hard_drop());
    assert_eq!(blocks_at(game.get_grid_locked()).len(), 4);
    game.update(pause());
    assert!(!game.get_is_paused());
    for _ in 0..200 {
        game.update(hard_drop());
    }
    assert!(game.get_is_game_over());
    assert_eq!(game.get_level(), 1);
}
