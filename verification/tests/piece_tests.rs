use bloxide::block::{Block, Color};
use bloxide::piece::{Piece, Shape};
use bloxide::pieces;

const ALL: [Shape; 7] = [Shape::I, Shape::J, Shape::L, Shape::O, Shape::S, Shape::T, Shape::Z];

fn occupied_cells(canvas: &Vec<Vec<Option<Block>>>) -> Vec<(usize, usize)> {
    let mut found = Vec::new();
    for (row_id, row) in canvas.iter().enumerate() {
        for (col_id, cell) in row.iter().enumerate() {
            if cell.is_some() {
                found.push((row_id, col_id));
            }
        }
    }
    found
}

#[test]
fn lookup_returns_the_named_piece() {
    let names = ["I", "J", "L", "O", "S", "T", "Z"];
    for (shape, name) in ALL.iter().zip(names.iter()) {
        assert_eq!(pieces::lookup(*shape).name, *name);
    }
    assert_eq!(pieces::lookup(Shape::I), pieces::i());
    assert_eq!(pieces::lookup(Shape::J), pieces::j());
    assert_eq!(pieces::lookup(Shape::L), pieces::l());
    assert_eq!(pieces::lookup(Shape::O), pieces::o());
    assert_eq!(pieces::lookup(Shape::S), pieces::s());
    assert_eq!(pieces::lookup(Shape::T), pieces::t());
    assert_eq!(pieces::lookup(Shape::Z), pieces::z());
}

#[test]
fn bounding_boxes_of_the_catalog() {
    assert_eq!(pieces::i().bounds_width, 5);
    assert_eq!(pieces::i().bounds_height, 5);
    for shape in [Shape::J, Shape::L, Shape::O, Shape::S, Shape::T, Shape::Z] {
        assert_eq!(pieces::lookup(shape).bounds_width, 3);
        assert_eq!(pieces::lookup(shape).bounds_height, 3);
    }
}

#[test]
fn colors_of_the_catalog() {
    assert_eq!(pieces::i().color, Color { r: 100, g: 196, b: 235, a: 255 });
    assert_eq!(pieces::j().color, Color { r: 92, g: 101, b: 168, a: 255 });
    assert_eq!(pieces::l().color, Color { r: 224, g: 127, b: 58, a: 255 });
    assert_eq!(pieces::o().color, Color { r: 241, g: 212, b: 72, a: 255 });
    assert_eq!(pieces::s().color, Color { r: 100, g: 180, b: 82, a: 255 });
    assert_eq!(pieces::t().color, Color { r: 140, g: 26, b: 245, a: 255 });
    assert_eq!(pieces::z().color, Color { r: 234, g: 51, b: 35, a: 255 });
}

#[test]
fn every_orientation_has_four_blocks() {
    for shape in ALL {
        let piece = pieces::lookup(shape);
        for orientation in 0..4 {
            let canvas = piece.get_blocks(orientation, false);
            assert_eq!(occupied_cells(&canvas).len(), 4, "{} {}", piece.name, orientation);
            let trimmed = piece.get_blocks(orientation, true);
            assert_eq!(occupied_cells(&trimmed).len(), 4, "{} {}", piece.name, orientation);
        }
    }
}

#[test]
fn untrimmed_canvas_has_the_size_of_the_bounding_box() {
    for shape in ALL {
        let piece = pieces::lookup(shape);
        for orientation in 0..4 {
            let canvas = piece.get_blocks(orientation, false);
            assert_eq!(canvas.len(), piece.bounds_height);
            for row in &canvas {
                assert_eq!(row.len(), piece.bounds_width);
            }
        }
    }
}

#[test]
fn trimmed_canvas_is_the_tight_box() {
    for shape in ALL {
        let piece = pieces::lookup(shape);
        for orientation in 0..4 {
            let def = piece.orientations[orientation];
            let trimmed = piece.get_blocks(orientation, true);
            assert_eq!(trimmed.len(), def.bounds_y.1 - def.bounds_y.0);
            for row in &trimmed {
                assert_eq!(row.len(), def.bounds_x.1 - def.bounds_x.0);
            }
            let cells = occupied_cells(&trimmed);
            assert!(cells.iter().any(|c| c.0 == 0));
            assert!(cells.iter().any(|c| c.1 == 0));
            assert!(cells.iter().any(|c| c.0 == trimmed.len() - 1));
            assert!(cells.iter().any(|c| c.1 == trimmed[0].len() - 1));
        }
    }
}

#[test]
fn i_piece_spawn_orientation() {
    let canvas = pieces::i().get_blocks(0, false);
    assert_eq!(occupied_cells(&canvas), vec![(2, 1), (2, 2), (2, 3), (2, 4)]);
    let trimmed = pieces::i().get_blocks(0, true);
    assert_eq!(trimmed.len(), 1);
    assert_eq!(occupied_cells(&trimmed), vec![(0, 0), (0, 1), (0, 2), (0, 3)]);
}

#[test]
fn o_piece_orientations() {
    let piece = pieces::o();
    assert_eq!(occupied_cells(&piece.get_blocks(0, false)), vec![(0, 1), (0, 2), (1, 1), (1, 2)]);
    assert_eq!(occupied_cells(&piece.get_blocks(1, false)), vec![(1, 1), (1, 2), (2, 1), (2, 2)]);
    assert_eq!(occupied_cells(&piece.get_blocks(2, false)), vec![(1, 0), (1, 1), (2, 0), (2, 1)]);
    assert_eq!(occupied_cells(&piece.get_blocks(3, false)), vec![(0, 0), (0, 1), (1, 0), (1, 1)]);
}

#[test]
fn t_piece_orientations() {
    let piece = pieces::t();
    assert_eq!(occupied_cells(&piece.get_blocks(0, false)), vec![(0, 1), (1, 0), (1, 1), (1, 2)]);
    assert_eq!(occupied_cells(&piece.get_blocks(1, false)), vec![(0, 1), (1, 1), (1, 2), (2, 1)]);
    assert_eq!(occupied_cells(&piece.get_blocks(2, false)), vec![(1, 0), (1, 1), (1, 2), (2, 1)]);
    assert_eq!(occupied_cells(&piece.get_blocks(3, false)), vec![(0, 1), (1, 0), (1, 1), (2, 1)]);
}

#[test]
fn orientation_is_taken_modulo_four() {
    for shape in ALL {
        let piece = pieces::lookup(shape);
        for orientation in 0..4 {
            assert_eq!(piece.get_blocks(orientation + 4, false), piece.get_blocks(orientation, false));
            assert_eq!(piece.get_blocks(orientation + 8, true), piece.get_blocks(orientation, true));
        }
    }
}

#[test]
fn blocks_carry_the_color_of_the_piece() {
    for shape in ALL {
        let piece = pieces::lookup(shape);
        for row in piece.get_blocks(0, false) {
            for cell in row {
                if let Some(block) = cell {
                    assert_eq!(block.color, piece.color);
                    assert_eq!(block, Block::new(piece.color));
                }
            }
        }
    }
}

#[test]
fn color_new_keeps_its_channels() {
    let color = Color::new(1, 2, 3, 4);
    assert_eq!((color.r, color.g, color.b, color.a), (1, 2, 3, 4));
}

#[test]
fn initial_col_centres_the_piece() {
    assert_eq!(pieces::i().get_initial_col(), 2);
    for shape in [Shape::J, Shape::L, Shape::O, Shape::S, Shape::T, Shape::Z] {
        assert_eq!(pieces::lookup(shape).get_initial_col(), 3);
    }
    let mut wide: Piece = pieces::t();
    wide.bounds_width = 4;
    assert_eq!(wide.get_initial_col(), 3);
    wide.bounds_width = 10;
    assert_eq!(wide.get_initial_col(), 0);
}

#[test]
fn kick_offsets_of_the_i_piece() {
    let piece = pieces::i();
    assert_eq!(piece.orientations[0].offsets, [(0, 0), (-1, 0), (2, 0), (-1, 0), (2, 0)]);
    assert_eq!(piece.orientations[1].offsets, [(-1, 0), (0, 0), (0, 0), (0, 1), (0, -2)]);
    assert_eq!(piece.orientations[2].offsets, [(-1, 1), (1, 1), (-2, 1), (1, 0), (-2, 0)]);
    assert_eq!(piece.orientations[3].offsets, [(0, 1), (0, 1), (0, 1), (0, -1), (0, 2)]);
}

#[test]
fn kick_offsets_of_the_three_wide_pieces() {
    for shape in [Shape::J, Shape::L, Shape::S, Shape::T, Shape::Z] {
        let piece = pieces::lookup(shape);
        assert_eq!(piece.orientations[0].offsets, [(0, 0); 5]);
        assert_eq!(piece.orientations[1].offsets, [(0, 0), (1, 0), (1, -1), (0, 2), (1, 2)]);
        assert_eq!(piece.orientations[2].offsets, [(0, 0); 5]);
        assert_eq!(piece.orientations[3].offsets, [(0, 0), (-1, 0), (-1, -1), (0, 2), (-1, 2)]);
    }
    let o = pieces::o();
    assert_eq!(o.orientations[0].offsets, [(0, 0); 5]);
    assert_eq!(o.orientations[1].offsets, [(0, -1); 5]);
    assert_eq!(o.orientations[2].offsets, [(-1, -1); 5]);
    assert_eq!(o.orientations[3].offsets, [(-1, 0); 5]);
}

#[test]
fn the_catalog_is_well_formed() {
    for shape in ALL {
        let piece = pieces::lookup(shape);
        assert!(piece.is_well_formed());
        for def in piece.orientations {
            assert!(def.is_well_formed());
        }
    }
}

#[test]
fn a_piece_that_leaves_its_window_is_not_well_formed() {
    let mut piece = pieces::t();
    piece.bounds_width = 6;
    assert!(!piece.is_well_formed());
    let mut piece = pieces::t();
    piece.bounds_height = 6;
    assert!(!piece.is_well_formed());
    let mut piece = pieces::t();
    piece.orientations[2].bounds_x = (3, 2);
    assert!(!piece.is_well_formed());
    let mut piece = pieces::t();
    piece.orientations[1].bounds_y = (0, 6);
    assert!(!piece.is_well_formed());
    let mut piece = pieces::t();
    piece.orientations[3].offsets[4] = (0, 6);
    assert!(!piece.is_well_formed());
    let mut piece = pieces::t();
    piece.orientations[0].offsets[0] = (-6, 0);
    assert!(!piece.is_well_formed());
    let mut piece = pieces::t();
    piece.orientations[0].offsets[0] = (-5, 5);
    piece.orientations[0].bounds_x = (5, 5);
    assert!(piece.is_well_formed());
}

#[test]
fn kick_offsets_turn_the_rows_over() {
    let piece = pieces::i();
    assert_eq!(piece.kick_offset(0, 1, 0), (1, 0));
    assert_eq!(piece.kick_offset(0, 1, 1), (-1, 0));
    assert_eq!(piece.kick_offset(0, 1, 3), (-1, 1));
    assert_eq!(piece.kick_offset(0, 1, 4), (2, -2));
    assert_eq!(piece.kick_offset(1, 2, 0), (0, 1));
    assert_eq!(piece.kick_offset(3, 0, 4), (-2, -2));
    assert_eq!(piece.kick_offset(3, 4, 4), (-2, -2));
    assert_eq!(piece.kick_offset(7, 8, 4), (-2, -2));
    let piece = pieces::t();
    assert_eq!(piece.kick_offset(0, 1, 0), (0, 0));
    assert_eq!(piece.kick_offset(0, 1, 1), (-1, 0));
    assert_eq!(piece.kick_offset(0, 1, 2), (-1, -1));
    assert_eq!(piece.kick_offset(0, 1, 3), (0, 2));
    assert_eq!(piece.kick_offset(0, 1, 4), (-1, 2));
    assert_eq!(piece.kick_offset(1, 2, 1), (1, 0));
    assert_eq!(piece.kick_offset(1, 2, 2), (1, 1));
}

#[test]
fn kicks_of_a_full_turn_cancel() {
    for shape in ALL {
        let piece = pieces::lookup(shape);
        for index in 0..5 {
            let mut total = (0, 0);
            for from in 0..4 {
                let offset = piece.kick_offset(from, from + 1, index);
                total = (total.0 + offset.0, total.1 + offset.1);
            }
            assert_eq!(total, (0, 0));
        }
    }
}

#[test]
fn a_piece_as_text_is_its_name() {
    for shape in ALL {
        let piece = pieces::lookup(shape);
        assert_eq!(piece.to_string(), piece.name);
    }
    assert_eq!(pieces::z().to_string(), "Z");
}
