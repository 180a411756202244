//! The catalog: the definitions of the seven standard pieces.
//!
//! Every definition is given twice, once as a specification and once as the
//! executable function that is proved to return it.

use vstd::prelude::*;
use crate::block::{occupied, Color};
use crate::piece::{OrientationDef, Piece, Shape};

verus! {

/// The definition of the I piece.
pub open spec fn spec_i() -> Piece {
    Piece {
        name: "I",
        color: Color { r: 100, g: 196, b: 235, a: 255 },
        bounds_width: 5,
        bounds_height: 5,
        orientations: [
            OrientationDef {
                blocks: [
                    [0, 0, 0, 0, 0],
                    [0, 0, 0, 0, 0],
                    [0, 1, 1, 1, 1],
                    [0, 0, 0, 0, 0],
                    [0, 0, 0, 0, 0],
                ],
                offsets: [(0, 0), (-1isize, 0), (2, 0), (-1isize, 0), (2, 0)],
                bounds_x: (1, 5),
                bounds_y: (2, 3),
            },
            OrientationDef {
                blocks: [
                    [0, 0, 0, 0, 0],
                    [0, 0, 1, 0, 0],
                    [0, 0, 1, 0, 0],
                    [0, 0, 1, 0, 0],
                    [0, 0, 1, 0, 0],
                ],
                offsets: [(-1isize, 0), (0, 0), (0, 0), (0, 1), (0, -2isize)],
                bounds_x: (2, 3),
                bounds_y: (1, 5),
            },
            OrientationDef {
                blocks: [
                    [0, 0, 0, 0, 0],
                    [0, 0, 0, 0, 0],
                    [1, 1, 1, 1, 0],
                    [0, 0, 0, 0, 0],
                    [0, 0, 0, 0, 0],
                ],
                offsets: [(-1isize, 1), (1, 1), (-2isize, 1), (1, 0), (-2isize, 0)],
                bounds_x: (0, 4),
                bounds_y: (2, 3),
            },
            OrientationDef {
                blocks: [
                    [0, 0, 1, 0, 0],
                    [0, 0, 1, 0, 0],
                    [0, 0, 1, 0, 0],
                    [0, 0, 1, 0, 0],
                    [0, 0, 0, 0, 0],
                ],
                offsets: [(0, 1), (0, 1), (0, 1), (0, -1isize), (0, 2)],
                bounds_x: (2, 3),
                bounds_y: (0, 4),
            },
        ],
    }
}

/// The I piece.
#[verifier::when_used_as_spec(spec_i)]
pub fn i() -> (piece: Piece)
    ensures
        piece == spec_i(),
{
    Piece {
        name: "I",
        color: Color { r: 100, g: 196, b: 235, a: 255 },
        bounds_width: 5,
        bounds_height: 5,
        orientations: [
            OrientationDef {
                blocks: [
                    [0, 0, 0, 0, 0],
                    [0, 0, 0, 0, 0],
                    [0, 1, 1, 1, 1],
                    [0, 0, 0, 0, 0],
                    [0, 0, 0, 0, 0],
                ],
                offsets: [(0, 0), (-1, 0), (2, 0), (-1, 0), (2, 0)],
                bounds_x: (1, 5),
                bounds_y: (2, 3),
            },
            OrientationDef {
                blocks: [
                    [0, 0, 0, 0, 0],
                    [0, 0, 1, 0, 0],
                    [0, 0, 1, 0, 0],
                    [0, 0, 1, 0, 0],
                    [0, 0, 1, 0, 0],
                ],
                offsets: [(-1, 0), (0, 0), (0, 0), (0, 1), (0, -2)],
                bounds_x: (2, 3),
                bounds_y: (1, 5),
            },
            OrientationDef {
                blocks: [
                    [0, 0, 0, 0, 0],
                    [0, 0, 0, 0, 0],
                    [1, 1, 1, 1, 0],
                    [0, 0, 0, 0, 0],
                    [0, 0, 0, 0, 0],
                ],
                offsets: [(-1, 1), (1, 1), (-2, 1), (1, 0), (-2, 0)],
                bounds_x: (0, 4),
                bounds_y: (2, 3),
            },
            OrientationDef {
                blocks: [
                    [0, 0, 1, 0, 0],
                    [0, 0, 1, 0, 0],
                    [0, 0, 1, 0, 0],
                    [0, 0, 1, 0, 0],
                    [0, 0, 0, 0, 0],
                ],
                offsets: [(0, 1), (0, 1), (0, 1), (0, -1), (0, 2)],
                bounds_x: (2, 3),
                bounds_y: (0, 4),
            },
        ],
    }
}

/// The definition of the J piece.
pub open spec fn spec_j() -> Piece {
    Piece {
        name: "J",
        color: Color { r: 92, g: 101, b: 168, a: 255 },
        bounds_width: 3,
        bounds_height: 3,
        orientations: [
            OrientationDef {
                blocks: [
                    [1, 0, 0, 0, 0],
                    [1, 1, 1, 0, 0],
                    [0, 0, 0, 0, 0],
                    [0, 0, 0, 0, 0],
                    [0, 0, 0, 0, 0],
                ],
                offsets: [(0, 0), (0, 0), (0, 0), (0, 0), (0, 0)],
                bounds_x: (0, 3),
                bounds_y: (0, 2),
            },
            OrientationDef {
                blocks: [
                    [0, 1, 1, 0, 0],
                    [0, 1, 0, 0, 0],
                    [0, 1, 0, 0, 0],
                    [0, 0, 0, 0, 0],
                    [0, 0, 0, 0, 0],
                ],
                offsets: [(0, 0), (1, 0), (1, -1isize), (0, 2), (1, 2)],
                bounds_x: (1, 3),
                bounds_y: (0, 3),
            },
            OrientationDef {
                blocks: [
                    [0, 0, 0, 0, 0],
                    [1, 1, 1, 0, 0],
                    [0, 0, 1, 0, 0],
                    [0, 0, 0, 0, 0],
                    [0, 0, 0, 0, 0],
                ],
                offsets: [(0, 0), (0, 0), (0, 0), (0, 0), (0, 0)],
                bounds_x: (0, 3),
                bounds_y: (1, 3),
            },
            OrientationDef {
                blocks: [
                    [0, 1, 0, 0, 0],
                    [0, 1, 0, 0, 0],
                    [1, 1, 0, 0, 0],
                    [0, 0, 0, 0, 0],
                    [0, 0, 0, 0, 0],
                ],
                offsets: [(0, 0), (-1isize, 0), (-1isize, -1isize), (0, 2), (-1isize, 2)],
                bounds_x: (0, 2),
                bounds_y: (0, 3),
            },
        ],
    }
}

/// The J piece.
#[verifier::when_used_as_spec(spec_j)]
pub fn j() -> (piece: Piece)
    ensures
        piece == spec_j(),
{
    Piece {
        name: "J",
        color: Color { r: 92, g: 101, b: 168, a: 255 },
        bounds_width: 3,
        bounds_height: 3,
        orientations: [
            OrientationDef {
                blocks: [
                    [1, 0, 0, 0, 0],
                    [1, 1, 1, 0, 0],
                    [0, 0, 0, 0, 0],
                    [0, 0, 0, 0, 0],
                    [0, 0, 0, 0, 0],
                ],
                offsets: [(0, 0), (0, 0), (0, 0), (0, 0), (0, 0)],
                bounds_x: (0, 3),
                bounds_y: (0, 2),
            },
            OrientationDef {
                blocks: [
                    [0, 1, 1, 0, 0],
                    [0, 1, 0, 0, 0],
                    [0, 1, 0, 0, 0],
                    [0, 0, 0, 0, 0],
                    [0, 0, 0, 0, 0],
                ],
                offsets: [(0, 0), (1, 0), (1, -1), (0, 2), (1, 2)],
                bounds_x: (1, 3),
                bounds_y: (0, 3),
            },
            OrientationDef {
                blocks: [
                    [0, 0, 0, 0, 0],
                    [1, 1, 1, 0, 0],
                    [0, 0, 1, 0, 0],
                    [0, 0, 0, 0, 0],
                    [0, 0, 0, 0, 0],
                ],
                offsets: [(0, 0), (0, 0), (0, 0), (0, 0), (0, 0)],
                bounds_x: (0, 3),
                bounds_y: (1, 3),
            },
            OrientationDef {
                blocks: [
                    [0, 1, 0, 0, 0],
                    [0, 1, 0, 0, 0],
                    [1, 1, 0, 0, 0],
                    [0, 0, 0, 0, 0],
                    [0, 0, 0, 0, 0],
                ],
                offsets: [(0, 0), (-1, 0), (-1, -1), (0, 2), (-1, 2)],
                bounds_x: (0, 2),
                bounds_y: (0, 3),
            },
        ],
    }
}

/// The definition of the L piece.
pub open spec fn spec_l() -> Piece {
    Piece {
        name: "L",
        color: Color { r: 224, g: 127, b: 58, a: 255 },
        bounds_width: 3,
        bounds_height: 3,
        orientations: [
            OrientationDef {
                blocks: [
                    [0, 0, 1, 0, 0],
                    [1, 1, 1, 0, 0],
                    [0, 0, 0, 0, 0],
                    [0, 0, 0, 0, 0],
                    [0, 0, 0, 0, 0],
                ],
                offsets: [(0, 0), (0, 0), (0, 0), (0, 0), (0, 0)],
                bounds_x: (0, 3),
                bounds_y: (0, 2),
            },
            OrientationDef {
                blocks: [
                    [0, 1, 0, 0, 0],
                    [0, 1, 0, 0, 0],
                    [0, 1, 1, 0, 0],
                    [0, 0, 0, 0, 0],
                    [0, 0, 0, 0, 0],
                ],
                offsets: [(0, 0), (1, 0), (1, -1isize), (0, 2), (1, 2)],
                bounds_x: (1, 3),
                bounds_y: (0, 3),
            },
            OrientationDef {
                blocks: [
                    [0, 0, 0, 0, 0],
                    [1, 1, 1, 0, 0],
                    [1, 0, 0, 0, 0],
                    [0, 0, 0, 0, 0],
                    [0, 0, 0, 0, 0],
                ],
                offsets: [(0, 0), (0, 0), (0, 0), (0, 0), (0, 0)],
                bounds_x: (0, 3),
                bounds_y: (1, 3),
            },
            OrientationDef {
                blocks: [
                    [1, 1, 0, 0, 0],
                    [0, 1, 0, 0, 0],
                    [0, 1, 0, 0, 0],
                    [0, 0, 0, 0, 0],
                    [0, 0, 0, 0, 0],
                ],
                offsets: [(0, 0), (-1isize, 0), (-1isize, -1isize), (0, 2), (-1isize, 2)],
                bounds_x: (0, 2),
                bounds_y: (0, 3),
            },
        ],
    }
}

/// The L piece.
#[verifier::when_used_as_spec(spec_l)]
pub fn l() -> (piece: Piece)
    ensures
        piece == spec_l(),
{
    Piece {
        name: "L",
        color: Color { r: 224, g: 127, b: 58, a: 255 },
        bounds_width: 3,
        bounds_height: 3,
        orientations: [
            OrientationDef {
                blocks: [
                    [0, 0, 1, 0, 0],
                    [1, 1, 1, 0, 0],
                    [0, 0, 0, 0, 0],
                    [0, 0, 0, 0, 0],
                    [0, 0, 0, 0, 0],
                ],
                offsets: [(0, 0), (0, 0), (0, 0), (0, 0), (0, 0)],
                bounds_x: (0, 3),
                bounds_y: (0, 2),
            },
            OrientationDef {
                blocks: [
                    [0, 1, 0, 0, 0],
                    [0, 1, 0, 0, 0],
                    [0, 1, 1, 0, 0],
                    [0, 0, 0, 0, 0],
                    [0, 0, 0, 0, 0],
                ],
                offsets: [(0, 0), (1, 0), (1, -1), (0, 2), (1, 2)],
                bounds_x: (1, 3),
                bounds_y: (0, 3),
            },
            OrientationDef {
                blocks: [
                    [0, 0, 0, 0, 0],
                    [1, 1, 1, 0, 0],
                    [1, 0, 0, 0, 0],
                    [0, 0, 0, 0, 0],
                    [0, 0, 0, 0, 0],
                ],
                offsets: [(0, 0), (0, 0), (0, 0), (0, 0), (0, 0)],
                bounds_x: (0, 3),
                bounds_y: (1, 3),
            },
            OrientationDef {
                blocks: [
                    [1, 1, 0, 0, 0],
                    [0, 1, 0, 0, 0],
                    [0, 1, 0, 0, 0],
                    [0, 0, 0, 0, 0],
                    [0, 0, 0, 0, 0],
                ],
                offsets: [(0, 0), (-1, 0), (-1, -1), (0, 2), (-1, 2)],
                bounds_x: (0, 2),
                bounds_y: (0, 3),
            },
        ],
    }
}

/// The definition of the O piece.
pub open spec fn spec_o() -> Piece {
    Piece {
        name: "O",
        color: Color { r: 241, g: 212, b: 72, a: 255 },
        bounds_width: 3,
        bounds_height: 3,
        orientations: [
            OrientationDef {
                blocks: [
                    [0, 1, 1, 0, 0],
                    [0, 1, 1, 0, 0],
                    [0, 0, 0, 0, 0],
                    [0, 0, 0, 0, 0],
                    [0, 0, 0, 0, 0],
                ],
                offsets: [(0, 0), (0, 0), (0, 0), (0, 0), (0, 0)],
                bounds_x: (1, 3),
                bounds_y: (0, 2),
            },
            OrientationDef {
                blocks: [
                    [0, 0, 0, 0, 0],
                    [0, 1, 1, 0, 0],
                    [0, 1, 1, 0, 0],
                    [0, 0, 0, 0, 0],
                    [0, 0, 0, 0, 0],
                ],
                offsets: [(0, -1isize), (0, -1isize), (0, -1isize), (0, -1isize), (0, -1isize)],
                bounds_x: (1, 3),
                bounds_y: (1, 3),
            },
            OrientationDef {
                blocks: [
                    [0, 0, 0, 0, 0],
                    [1, 1, 0, 0, 0],
                    [1, 1, 0, 0, 0],
                    [0, 0, 0, 0, 0],
                    [0, 0, 0, 0, 0],
                ],
                offsets: [
                    (-1isize, -1isize),
                    (-1isize, -1isize),
                    (-1isize, -1isize),
                    (-1isize, -1isize),
                    (-1isize, -1isize),
                ],
                bounds_x: (0, 2),
                bounds_y: (1, 3),
            },
            OrientationDef {
                blocks: [
                    [1, 1, 0, 0, 0],
                    [1, 1, 0, 0, 0],
                    [0, 0, 0, 0, 0],
                    [0, 0, 0, 0, 0],
                    [0, 0, 0, 0, 0],
                ],
                offsets: [(-1isize, 0), (-1isize, 0), (-1isize, 0), (-1isize, 0), (-1isize, 0)],
                bounds_x: (0, 2),
                bounds_y: (0, 2),
            },
        ],
    }
}

/// The O piece.
#[verifier::when_used_as_spec(spec_o)]
pub fn o() -> (piece: Piece)
    ensures
        piece == spec_o(),
{
    Piece {
        name: "O",
        color: Color { r: 241, g: 212, b: 72, a: 255 },
        bounds_width: 3,
        bounds_height: 3,
        orientations: [
            OrientationDef {
                blocks: [
                    [0, 1, 1, 0, 0],
                    [0, 1, 1, 0, 0],
                    [0, 0, 0, 0, 0],
                    [0, 0, 0, 0, 0],
                    [0, 0, 0, 0, 0],
                ],
                offsets: [(0, 0), (0, 0), (0, 0), (0, 0), (0, 0)],
                bounds_x: (1, 3),
                bounds_y: (0, 2),
            },
            OrientationDef {
                blocks: [
                    [0, 0, 0, 0, 0],
                    [0, 1, 1, 0, 0],
                    [0, 1, 1, 0, 0],
                    [0, 0, 0, 0, 0],
                    [0, 0, 0, 0, 0],
                ],
                offsets: [(0, -1), (0, -1), (0, -1), (0, -1), (0, -1)],
                bounds_x: (1, 3),
                bounds_y: (1, 3),
            },
            OrientationDef {
                blocks: [
                    [0, 0, 0, 0, 0],
                    [1, 1, 0, 0, 0],
                    [1, 1, 0, 0, 0],
                    [0, 0, 0, 0, 0],
                    [0, 0, 0, 0, 0],
                ],
                offsets: [(-1, -1), (-1, -1), (-1, -1), (-1, -1), (-1, -1)],
                bounds_x: (0, 2),
                bounds_y: (1, 3),
            },
            OrientationDef {
                blocks: [
                    [1, 1, 0, 0, 0],
                    [1, 1, 0, 0, 0],
                    [0, 0, 0, 0, 0],
                    [0, 0, 0, 0, 0],
                    [0, 0, 0, 0, 0],
                ],
                offsets: [(-1, 0), (-1, 0), (-1, 0), (-1, 0), (-1, 0)],
                bounds_x: (0, 2),
                bounds_y: (0, 2),
            },
        ],
    }
}

/// The definition of the S piece.
pub open spec fn spec_s() -> Piece {
    Piece {
        name: "S",
        color: Color { r: 100, g: 180, b: 82, a: 255 },
        bounds_width: 3,
        bounds_height: 3,
        orientations: [
            OrientationDef {
                blocks: [
                    [0, 1, 1, 0, 0],
                    [1, 1, 0, 0, 0],
                    [0, 0, 0, 0, 0],
                    [0, 0, 0, 0, 0],
                    [0, 0, 0, 0, 0],
                ],
                offsets: [(0, 0), (0, 0), (0, 0), (0, 0), (0, 0)],
                bounds_x: (0, 3),
                bounds_y: (0, 2),
            },
            OrientationDef {
                blocks: [
                    [0, 1, 0, 0, 0],
                    [0, 1, 1, 0, 0],
                    [0, 0, 1, 0, 0],
                    [0, 0, 0, 0, 0],
                    [0, 0, 0, 0, 0],
                ],
                offsets: [(0, 0), (1, 0), (1, -1isize), (0, 2), (1, 2)],
                bounds_x: (1, 3),
                bounds_y: (0, 3),
            },
            OrientationDef {
                blocks: [
                    [0, 0, 0, 0, 0],
                    [0, 1, 1, 0, 0],
                    [1, 1, 0, 0, 0],
                    [0, 0, 0, 0, 0],
                    [0, 0, 0, 0, 0],
                ],
                offsets: [(0, 0), (0, 0), (0, 0), (0, 0), (0, 0)],
                bounds_x: (0, 3),
                bounds_y: (1, 3),
            },
            OrientationDef {
                blocks: [
                    [1, 0, 0, 0, 0],
                    [1, 1, 0, 0, 0],
                    [0, 1, 0, 0, 0],
                    [0, 0, 0, 0, 0],
                    [0, 0, 0, 0, 0],
                ],
                offsets: [(0, 0), (-1isize, 0), (-1isize, -1isize), (0, 2), (-1isize, 2)],
                bounds_x: (0, 2),
                bounds_y: (0, 3),
            },
        ],
    }
}

/// The S piece.
#[verifier::when_used_as_spec(spec_s)]
pub fn s() -> (piece: Piece)
    ensures
        piece == spec_s(),
{
    Piece {
        name: "S",
        color: Color { r: 100, g: 180, b: 82, a: 255 },
        bounds_width: 3,
        bounds_height: 3,
        orientations: [
            OrientationDef {
                blocks: [
                    [0, 1, 1, 0, 0],
                    [1, 1, 0, 0, 0],
                    [0, 0, 0, 0, 0],
                    [0, 0, 0, 0, 0],
                    [0, 0, 0, 0, 0],
                ],
                offsets: [(0, 0), (0, 0), (0, 0), (0, 0), (0, 0)],
                bounds_x: (0, 3),
                bounds_y: (0, 2),
            },
            OrientationDef {
                blocks: [
                    [0, 1, 0, 0, 0],
                    [0, 1, 1, 0, 0],
                    [0, 0, 1, 0, 0],
                    [0, 0, 0, 0, 0],
                    [0, 0, 0, 0, 0],
                ],
                offsets: [(0, 0), (1, 0), (1, -1), (0, 2), (1, 2)],
                bounds_x: (1, 3),
                bounds_y: (0, 3),
            },
            OrientationDef {
                blocks: [
                    [0, 0, 0, 0, 0],
                    [0, 1, 1, 0, 0],
                    [1, 1, 0, 0, 0],
                    [0, 0, 0, 0, 0],
                    [0, 0, 0, 0, 0],
                ],
                offsets: [(0, 0), (0, 0), (0, 0), (0, 0), (0, 0)],
                bounds_x: (0, 3),
                bounds_y: (1, 3),
            },
            OrientationDef {
                blocks: [
                    [1, 0, 0, 0, 0],
                    [1, 1, 0, 0, 0],
                    [0, 1, 0, 0, 0],
                    [0, 0, 0, 0, 0],
                    [0, 0, 0, 0, 0],
                ],
                offsets: [(0, 0), (-1, 0), (-1, -1), (0, 2), (-1, 2)],
                bounds_x: (0, 2),
                bounds_y: (0, 3),
            },
        ],
    }
}

/// The definition of the T piece.
pub open spec fn spec_t() -> Piece {
    Piece {
        name: "T",
        color: Color { r: 140, g: 26, b: 245, a: 255 },
        bounds_width: 3,
        bounds_height: 3,
        orientations: [
            OrientationDef {
                blocks: [
                    [0, 1, 0, 0, 0],
                    [1, 1, 1, 0, 0],
                    [0, 0, 0, 0, 0],
                    [0, 0, 0, 0, 0],
                    [0, 0, 0, 0, 0],
                ],
                offsets: [(0, 0), (0, 0), (0, 0), (0, 0), (0, 0)],
                bounds_x: (0, 3),
                bounds_y: (0, 2),
            },
            OrientationDef {
                blocks: [
                    [0, 1, 0, 0, 0],
                    [0, 1, 1, 0, 0],
                    [0, 1, 0, 0, 0],
                    [0, 0, 0, 0, 0],
                    [0, 0, 0, 0, 0],
                ],
                offsets: [(0, 0), (1, 0), (1, -1isize), (0, 2), (1, 2)],
                bounds_x: (1, 3),
                bounds_y: (0, 3),
            },
            OrientationDef {
                blocks: [
                    [0, 0, 0, 0, 0],
                    [1, 1, 1, 0, 0],
                    [0, 1, 0, 0, 0],
                    [0, 0, 0, 0, 0],
                    [0, 0, 0, 0, 0],
                ],
                offsets: [(0, 0), (0, 0), (0, 0), (0, 0), (0, 0)],
                bounds_x: (0, 3),
                bounds_y: (1, 3),
            },
            OrientationDef {
                blocks: [
                    [0, 1, 0, 0, 0],
                    [1, 1, 0, 0, 0],
                    [0, 1, 0, 0, 0],
                    [0, 0, 0, 0, 0],
                    [0, 0, 0, 0, 0],
                ],
                offsets: [(0, 0), (-1isize, 0), (-1isize, -1isize), (0, 2), (-1isize, 2)],
                bounds_x: (0, 2),
                bounds_y: (0, 3),
            },
        ],
    }
}

/// The T piece.
#[verifier::when_used_as_spec(spec_t)]
pub fn t() -> (piece: Piece)
    ensures
        piece == spec_t(),
{
    Piece {
        name: "T",
        color: Color { r: 140, g: 26, b: 245, a: 255 },
        bounds_width: 3,
        bounds_height: 3,
        orientations: [
            OrientationDef {
                blocks: [
                    [0, 1, 0, 0, 0],
                    [1, 1, 1, 0, 0],
                    [0, 0, 0, 0, 0],
                    [0, 0, 0, 0, 0],
                    [0, 0, 0, 0, 0],
                ],
                offsets: [(0, 0), (0, 0), (0, 0), (0, 0), (0, 0)],
                bounds_x: (0, 3),
                bounds_y: (0, 2),
            },
            OrientationDef {
                blocks: [
                    [0, 1, 0, 0, 0],
                    [0, 1, 1, 0, 0],
                    [0, 1, 0, 0, 0],
                    [0, 0, 0, 0, 0],
                    [0, 0, 0, 0, 0],
                ],
                offsets: [(0, 0), (1, 0), (1, -1), (0, 2), (1, 2)],
                bounds_x: (1, 3),
                bounds_y: (0, 3),
            },
            OrientationDef {
                blocks: [
                    [0, 0, 0, 0, 0],
                    [1, 1, 1, 0, 0],
                    [0, 1, 0, 0, 0],
                    [0, 0, 0, 0, 0],
                    [0, 0, 0, 0, 0],
                ],
                offsets: [(0, 0), (0, 0), (0, 0), (0, 0), (0, 0)],
                bounds_x: (0, 3),
                bounds_y: (1, 3),
            },
            OrientationDef {
                blocks: [
                    [0, 1, 0, 0, 0],
                    [1, 1, 0, 0, 0],
                    [0, 1, 0, 0, 0],
                    [0, 0, 0, 0, 0],
                    [0, 0, 0, 0, 0],
                ],
                offsets: [(0, 0), (-1, 0), (-1, -1), (0, 2), (-1, 2)],
                bounds_x: (0, 2),
                bounds_y: (0, 3),
            },
        ],
    }
}

/// The definition of the Z piece.
pub open spec fn spec_z() -> Piece {
    Piece {
        name: "Z",
        color: Color { r: 234, g: 51, b: 35, a: 255 },
        bounds_width: 3,
        bounds_height: 3,
        orientations: [
            OrientationDef {
                blocks: [
                    [1, 1, 0, 0, 0],
                    [0, 1, 1, 0, 0],
                    [0, 0, 0, 0, 0],
                    [0, 0, 0, 0, 0],
                    [0, 0, 0, 0, 0],
                ],
                offsets: [(0, 0), (0, 0), (0, 0), (0, 0), (0, 0)],
                bounds_x: (0, 3),
                bounds_y: (0, 2),
            },
            OrientationDef {
                blocks: [
                    [0, 0, 1, 0, 0],
                    [0, 1, 1, 0, 0],
                    [0, 1, 0, 0, 0],
                    [0, 0, 0, 0, 0],
                    [0, 0, 0, 0, 0],
                ],
                offsets: [(0, 0), (1, 0), (1, -1isize), (0, 2), (1, 2)],
                bounds_x: (1, 3),
                bounds_y: (0, 3),
            },
            OrientationDef {
                blocks: [
                    [0, 0, 0, 0, 0],
                    [1, 1, 0, 0, 0],
                    [0, 1, 1, 0, 0],
                    [0, 0, 0, 0, 0],
                    [0, 0, 0, 0, 0],
                ],
                offsets: [(0, 0), (0, 0), (0, 0), (0, 0), (0, 0)],
                bounds_x: (0, 3),
                bounds_y: (1, 3),
            },
            OrientationDef {
                blocks: [
                    [0, 1, 0, 0, 0],
                    [1, 1, 0, 0, 0],
                    [1, 0, 0, 0, 0],
                    [0, 0, 0, 0, 0],
                    [0, 0, 0, 0, 0],
                ],
                offsets: [(0, 0), (-1isize, 0), (-1isize, -1isize), (0, 2), (-1isize, 2)],
                bounds_x: (0, 2),
                bounds_y: (0, 3),
            },
        ],
    }
}

/// The Z piece.
#[verifier::when_used_as_spec(spec_z)]
pub fn z() -> (piece: Piece)
    ensures
        piece == spec_z(),
{
    Piece {
        name: "Z",
        color: Color { r: 234, g: 51, b: 35, a: 255 },
        bounds_width: 3,
        bounds_height: 3,
        orientations: [
            OrientationDef {
                blocks: [
                    [1, 1, 0, 0, 0],
                    [0, 1, 1, 0, 0],
                    [0, 0, 0, 0, 0],
                    [0, 0, 0, 0, 0],
                    [0, 0, 0, 0, 0],
                ],
                offsets: [(0, 0), (0, 0), (0, 0), (0, 0), (0, 0)],
                bounds_x: (0, 3),
                bounds_y: (0, 2),
            },
            OrientationDef {
                blocks: [
                    [0, 0, 1, 0, 0],
                    [0, 1, 1, 0, 0],
                    [0, 1, 0, 0, 0],
                    [0, 0, 0, 0, 0],
                    [0, 0, 0, 0, 0],
                ],
                offsets: [(0, 0), (1, 0), (1, -1), (0, 2), (1, 2)],
                bounds_x: (1, 3),
                bounds_y: (0, 3),
            },
            OrientationDef {
                blocks: [
                    [0, 0, 0, 0, 0],
                    [1, 1, 0, 0, 0],
                    [0, 1, 1, 0, 0],
                    [0, 0, 0, 0, 0],
                    [0, 0, 0, 0, 0],
                ],
                offsets: [(0, 0), (0, 0), (0, 0), (0, 0), (0, 0)],
                bounds_x: (0, 3),
                bounds_y: (1, 3),
            },
            OrientationDef {
                blocks: [
                    [0, 1, 0, 0, 0],
                    [1, 1, 0, 0, 0],
                    [1, 0, 0, 0, 0],
                    [0, 0, 0, 0, 0],
                    [0, 0, 0, 0, 0],
                ],
                offsets: [(0, 0), (-1, 0), (-1, -1), (0, 2), (-1, 2)],
                bounds_x: (0, 2),
                bounds_y: (0, 3),
            },
        ],
    }
}

/// The definition of a shape.
#[verifier::opaque]
pub open spec fn spec_lookup(shape: Shape) -> Piece {
    match shape {
        Shape::I => spec_i(),
        Shape::J => spec_j(),
        Shape::L => spec_l(),
        Shape::O => spec_o(),
        Shape::S => spec_s(),
        Shape::T => spec_t(),
        Shape::Z => spec_z(),
    }
}

/// Looks a shape up in the catalog.
#[verifier::when_used_as_spec(spec_lookup)]
pub fn lookup(shape: Shape) -> (piece: Piece)
    ensures
        piece == spec_lookup(shape),
{
    proof {
        reveal(spec_lookup);
    }
    match shape {
        Shape::I => i(),
        Shape::J => j(),
        Shape::L => l(),
        Shape::O => o(),
        Shape::S => s(),
        Shape::T => t(),
        Shape::Z => z(),
    }
}

/// A cell below the first row of the bounding box that the given
/// orientation of a shape occupies, as `(row, column)`.
pub open spec fn low_cell(shape: Shape, orientation: int) -> (int, int) {
    match shape {
        Shape::I => {
            if orientation % 4 == 0 {
                (2, 1)
            } else if orientation % 4 == 1 {
                (1, 2)
            } else if orientation % 4 == 2 {
                (2, 0)
            } else {
                (1, 2)
            }
        },
        Shape::J => {
            if orientation % 4 == 0 {
                (1, 0)
            } else if orientation % 4 == 1 {
                (1, 1)
            } else if orientation % 4 == 2 {
                (1, 0)
            } else {
                (1, 1)
            }
        },
        Shape::L => {
            if orientation % 4 == 0 {
                (1, 0)
            } else if orientation % 4 == 1 {
                (1, 1)
            } else if orientation % 4 == 2 {
                (1, 0)
            } else {
                (1, 1)
            }
        },
        Shape::O => {
            if orientation % 4 == 0 {
                (1, 1)
            } else if orientation % 4 == 1 {
                (1, 1)
            } else if orientation % 4 == 2 {
                (1, 0)
            } else {
                (1, 0)
            }
        },
        Shape::S => {
            if orientation % 4 == 0 {
                (1, 0)
            } else if orientation % 4 == 1 {
                (1, 1)
            } else if orientation % 4 == 2 {
                (1, 1)
            } else {
                (1, 0)
            }
        },
        Shape::T => {
            if orientation % 4 == 0 {
                (1, 0)
            } else if orientation % 4 == 1 {
                (1, 1)
            } else if orientation % 4 == 2 {
                (1, 0)
            } else {
                (1, 0)
            }
        },
        Shape::Z => {
            if orientation % 4 == 0 {
                (1, 1)
            } else if orientation % 4 == 1 {
                (1, 1)
            } else if orientation % 4 == 2 {
                (1, 0)
            } else {
                (1, 0)
            }
        },
    }
}

/// The boxes of the I piece: each trimmed box is tight, and every block
/// lies in the bounding box.
proof fn lemma_boxes_i()
    ensures
        spec_i().boxed(),
        forall|o: int| 0 <= o < 4 ==> (#[trigger] spec_i().orientations[o]).tight(),
{
    let piece = spec_i();
    let def0 = piece.orientations[0];
    assert(def0.filled(def0.bounds_y.0 as int, 1));
    assert(def0.filled(def0.bounds_y.1 - 1, 1));
    assert(def0.filled(2, def0.bounds_x.0 as int));
    assert(def0.filled(2, def0.bounds_x.1 - 1));
    assert forall|i: int, j: int| #[trigger] def0.filled(i, j) implies 2 <= i < 3 && 1 <= j
        < 5 by {
        lemma_window_cases(def0, i, j);
    }
    assert(def0.tight());
    let def1 = piece.orientations[1];
    assert(def1.filled(def1.bounds_y.0 as int, 2));
    assert(def1.filled(def1.bounds_y.1 - 1, 2));
    assert(def1.filled(1, def1.bounds_x.0 as int));
    assert(def1.filled(1, def1.bounds_x.1 - 1));
    assert forall|i: int, j: int| #[trigger] def1.filled(i, j) implies 1 <= i < 5 && 2 <= j
        < 3 by {
        lemma_window_cases(def1, i, j);
    }
    assert(def1.tight());
    let def2 = piece.orientations[2];
    assert(def2.filled(def2.bounds_y.0 as int, 0));
    assert(def2.filled(def2.bounds_y.1 - 1, 0));
    assert(def2.filled(2, def2.bounds_x.0 as int));
    assert(def2.filled(2, def2.bounds_x.1 - 1));
    assert forall|i: int, j: int| #[trigger] def2.filled(i, j) implies 2 <= i < 3 && 0 <= j
        < 4 by {
        lemma_window_cases(def2, i, j);
    }
    assert(def2.tight());
    let def3 = piece.orientations[3];
    assert(def3.filled(def3.bounds_y.0 as int, 2));
    assert(def3.filled(def3.bounds_y.1 - 1, 2));
    assert(def3.filled(0, def3.bounds_x.0 as int));
    assert(def3.filled(0, def3.bounds_x.1 - 1));
    assert forall|i: int, j: int| #[trigger] def3.filled(i, j) implies 0 <= i < 4 && 2 <= j
        < 3 by {
        lemma_window_cases(def3, i, j);
    }
    assert(def3.tight());
    assert forall|o: int| 0 <= o < 4 implies (#[trigger] piece.orientations[o]).tight() by {
        if o == 0 {
        } else if o == 1 {
        } else if o == 2 {
        } else {
        }
    }
    assert forall|o: int, i: int, j: int|
        0 <= o < 4 && #[trigger] piece.orientations[o].filled(i, j) implies i
        < piece.bounds_height && j < piece.bounds_width by {
        assert(piece.orientations[o].tight());
        if o == 0 {
        } else if o == 1 {
        } else if o == 2 {
        } else {
        }
    }
}

/// The boxes of the J piece: each trimmed box is tight, and every block
/// lies in the bounding box.
proof fn lemma_boxes_j()
    ensures
        spec_j().boxed(),
        forall|o: int| 0 <= o < 4 ==> (#[trigger] spec_j().orientations[o]).tight(),
{
    let piece = spec_j();
    let def0 = piece.orientations[0];
    assert(def0.filled(def0.bounds_y.0 as int, 0));
    assert(def0.filled(def0.bounds_y.1 - 1, 0));
    assert(def0.filled(0, def0.bounds_x.0 as int));
    assert(def0.filled(1, def0.bounds_x.1 - 1));
    assert forall|i: int, j: int| #[trigger] def0.filled(i, j) implies 0 <= i < 2 && 0 <= j
        < 3 by {
        lemma_window_cases(def0, i, j);
    }
    assert(def0.tight());
    let def1 = piece.orientations[1];
    assert(def1.filled(def1.bounds_y.0 as int, 1));
    assert(def1.filled(def1.bounds_y.1 - 1, 1));
    assert(def1.filled(0, def1.bounds_x.0 as int));
    assert(def1.filled(0, def1.bounds_x.1 - 1));
    assert forall|i: int, j: int| #[trigger] def1.filled(i, j) implies 0 <= i < 3 && 1 <= j
        < 3 by {
        lemma_window_cases(def1, i, j);
    }
    assert(def1.tight());
    let def2 = piece.orientations[2];
    assert(def2.filled(def2.bounds_y.0 as int, 0));
    assert(def2.filled(def2.bounds_y.1 - 1, 2));
    assert(def2.filled(1, def2.bounds_x.0 as int));
    assert(def2.filled(1, def2.bounds_x.1 - 1));
    assert forall|i: int, j: int| #[trigger] def2.filled(i, j) implies 1 <= i < 3 && 0 <= j
        < 3 by {
        lemma_window_cases(def2, i, j);
    }
    assert(def2.tight());
    let def3 = piece.orientations[3];
    assert(def3.filled(def3.bounds_y.0 as int, 1));
    assert(def3.filled(def3.bounds_y.1 - 1, 0));
    assert(def3.filled(2, def3.bounds_x.0 as int));
    assert(def3.filled(0, def3.bounds_x.1 - 1));
    assert forall|i: int, j: int| #[trigger] def3.filled(i, j) implies 0 <= i < 3 && 0 <= j
        < 2 by {
        lemma_window_cases(def3, i, j);
    }
    assert(def3.tight());
    assert forall|o: int| 0 <= o < 4 implies (#[trigger] piece.orientations[o]).tight() by {
        if o == 0 {
        } else if o == 1 {
        } else if o == 2 {
        } else {
        }
    }
    assert forall|o: int, i: int, j: int|
        0 <= o < 4 && #[trigger] piece.orientations[o].filled(i, j) implies i
        < piece.bounds_height && j < piece.bounds_width by {
        assert(piece.orientations[o].tight());
        if o == 0 {
        } else if o == 1 {
        } else if o == 2 {
        } else {
        }
    }
}

/// The boxes of the L piece: each trimmed box is tight, and every block
/// lies in the bounding box.
proof fn lemma_boxes_l()
    ensures
        spec_l().boxed(),
        forall|o: int| 0 <= o < 4 ==> (#[trigger] spec_l().orientations[o]).tight(),
{
    let piece = spec_l();
    let def0 = piece.orientations[0];
    assert(def0.filled(def0.bounds_y.0 as int, 2));
    assert(def0.filled(def0.bounds_y.1 - 1, 0));
    assert(def0.filled(1, def0.bounds_x.0 as int));
    assert(def0.filled(0, def0.bounds_x.1 - 1));
    assert forall|i: int, j: int| #[trigger] def0.filled(i, j) implies 0 <= i < 2 && 0 <= j
        < 3 by {
        lemma_window_cases(def0, i, j);
    }
    assert(def0.tight());
    let def1 = piece.orientations[1];
    assert(def1.filled(def1.bounds_y.0 as int, 1));
    assert(def1.filled(def1.bounds_y.1 - 1, 1));
    assert(def1.filled(0, def1.bounds_x.0 as int));
    assert(def1.filled(2, def1.bounds_x.1 - 1));
    assert forall|i: int, j: int| #[trigger] def1.filled(i, j) implies 0 <= i < 3 && 1 <= j
        < 3 by {
        lemma_window_cases(def1, i, j);
    }
    assert(def1.tight());
    let def2 = piece.orientations[2];
    assert(def2.filled(def2.bounds_y.0 as int, 0));
    assert(def2.filled(def2.bounds_y.1 - 1, 0));
    assert(def2.filled(1, def2.bounds_x.0 as int));
    assert(def2.filled(1, def2.bounds_x.1 - 1));
    assert forall|i: int, j: int| #[trigger] def2.filled(i, j) implies 1 <= i < 3 && 0 <= j
        < 3 by {
        lemma_window_cases(def2, i, j);
    }
    assert(def2.tight());
    let def3 = piece.orientations[3];
    assert(def3.filled(def3.bounds_y.0 as int, 0));
    assert(def3.filled(def3.bounds_y.1 - 1, 1));
    assert(def3.filled(0, def3.bounds_x.0 as int));
    assert(def3.filled(0, def3.bounds_x.1 - 1));
    assert forall|i: int, j: int| #[trigger] def3.filled(i, j) implies 0 <= i < 3 && 0 <= j
        < 2 by {
        lemma_window_cases(def3, i, j);
    }
    assert(def3.tight());
    assert forall|o: int| 0 <= o < 4 implies (#[trigger] piece.orientations[o]).tight() by {
        if o == 0 {
        } else if o == 1 {
        } else if o == 2 {
        } else {
        }
    }
    assert forall|o: int, i: int, j: int|
        0 <= o < 4 && #[trigger] piece.orientations[o].filled(i, j) implies i
        < piece.bounds_height && j < piece.bounds_width by {
        assert(piece.orientations[o].tight());
        if o == 0 {
        } else if o == 1 {
        } else if o == 2 {
        } else {
        }
    }
}

/// The boxes of the O piece: each trimmed box is tight, and every block
/// lies in the bounding box.
proof fn lemma_boxes_o()
    ensures
        spec_o().boxed(),
        forall|o: int| 0 <= o < 4 ==> (#[trigger] spec_o().orientations[o]).tight(),
{
    let piece = spec_o();
    let def0 = piece.orientations[0];
    assert(def0.filled(def0.bounds_y.0 as int, 1));
    assert(def0.filled(def0.bounds_y.1 - 1, 1));
    assert(def0.filled(0, def0.bounds_x.0 as int));
    assert(def0.filled(0, def0.bounds_x.1 - 1));
    assert forall|i: int, j: int| #[trigger] def0.filled(i, j) implies 0 <= i < 2 && 1 <= j
        < 3 by {
        lemma_window_cases(def0, i, j);
    }
    assert(def0.tight());
    let def1 = piece.orientations[1];
    assert(def1.filled(def1.bounds_y.0 as int, 1));
    assert(def1.filled(def1.bounds_y.1 - 1, 1));
    assert(def1.filled(1, def1.bounds_x.0 as int));
    assert(def1.filled(1, def1.bounds_x.1 - 1));
    assert forall|i: int, j: int| #[trigger] def1.filled(i, j) implies 1 <= i < 3 && 1 <= j
        < 3 by {
        lemma_window_cases(def1, i, j);
    }
    assert(def1.tight());
    let def2 = piece.orientations[2];
    assert(def2.filled(def2.bounds_y.0 as int, 0));
    assert(def2.filled(def2.bounds_y.1 - 1, 0));
    assert(def2.filled(1, def2.bounds_x.0 as int));
    assert(def2.filled(1, def2.bounds_x.1 - 1));
    assert forall|i: int, j: int| #[trigger] def2.filled(i, j) implies 1 <= i < 3 && 0 <= j
        < 2 by {
        lemma_window_cases(def2, i, j);
    }
    assert(def2.tight());
    let def3 = piece.orientations[3];
    assert(def3.filled(def3.bounds_y.0 as int, 0));
    assert(def3.filled(def3.bounds_y.1 - 1, 0));
    assert(def3.filled(0, def3.bounds_x.0 as int));
    assert(def3.filled(0, def3.bounds_x.1 - 1));
    assert forall|i: int, j: int| #[trigger] def3.filled(i, j) implies 0 <= i < 2 && 0 <= j
        < 2 by {
        lemma_window_cases(def3, i, j);
    }
    assert(def3.tight());
    assert forall|o: int| 0 <= o < 4 implies (#[trigger] piece.orientations[o]).tight() by {
        if o == 0 {
        } else if o == 1 {
        } else if o == 2 {
        } else {
        }
    }
    assert forall|o: int, i: int, j: int|
        0 <= o < 4 && #[trigger] piece.orientations[o].filled(i, j) implies i
        < piece.bounds_height && j < piece.bounds_width by {
        assert(piece.orientations[o].tight());
        if o == 0 {
        } else if o == 1 {
        } else if o == 2 {
        } else {
        }
    }
}

/// The boxes of the S piece: each trimmed box is tight, and every block
/// lies in the bounding box.
proof fn lemma_boxes_s()
    ensures
        spec_s().boxed(),
        forall|o: int| 0 <= o < 4 ==> (#[trigger] spec_s().orientations[o]).tight(),
{
    let piece = spec_s();
    let def0 = piece.orientations[0];
    assert(def0.filled(def0.bounds_y.0 as int, 1));
    assert(def0.filled(def0.bounds_y.1 - 1, 0));
    assert(def0.filled(1, def0.bounds_x.0 as int));
    assert(def0.filled(0, def0.bounds_x.1 - 1));
    assert forall|i: int, j: int| #[trigger] def0.filled(i, j) implies 0 <= i < 2 && 0 <= j
        < 3 by {
        lemma_window_cases(def0, i, j);
    }
    assert(def0.tight());
    let def1 = piece.orientations[1];
    assert(def1.filled(def1.bounds_y.0 as int, 1));
    assert(def1.filled(def1.bounds_y.1 - 1, 2));
    assert(def1.filled(0, def1.bounds_x.0 as int));
    assert(def1.filled(1, def1.bounds_x.1 - 1));
    assert forall|i: int, j: int| #[trigger] def1.filled(i, j) implies 0 <= i < 3 && 1 <= j
        < 3 by {
        lemma_window_cases(def1, i, j);
    }
    assert(def1.tight());
    let def2 = piece.orientations[2];
    assert(def2.filled(def2.bounds_y.0 as int, 1));
    assert(def2.filled(def2.bounds_y.1 - 1, 0));
    assert(def2.filled(2, def2.bounds_x.0 as int));
    assert(def2.filled(1, def2.bounds_x.1 - 1));
    assert forall|i: int, j: int| #[trigger] def2.filled(i, j) implies 1 <= i < 3 && 0 <= j
        < 3 by {
        lemma_window_cases(def2, i, j);
    }
    assert(def2.tight());
    let def3 = piece.orientations[3];
    assert(def3.filled(def3.bounds_y.0 as int, 0));
    assert(def3.filled(def3.bounds_y.1 - 1, 1));
    assert(def3.filled(0, def3.bounds_x.0 as int));
    assert(def3.filled(1, def3.bounds_x.1 - 1));
    assert forall|i: int, j: int| #[trigger] def3.filled(i, j) implies 0 <= i < 3 && 0 <= j
        < 2 by {
        lemma_window_cases(def3, i, j);
    }
    assert(def3.tight());
    assert forall|o: int| 0 <= o < 4 implies (#[trigger] piece.orientations[o]).tight() by {
        if o == 0 {
        } else if o == 1 {
        } else if o == 2 {
        } else {
        }
    }
    assert forall|o: int, i: int, j: int|
        0 <= o < 4 && #[trigger] piece.orientations[o].filled(i, j) implies i
        < piece.bounds_height && j < piece.bounds_width by {
        assert(piece.orientations[o].tight());
        if o == 0 {
        } else if o == 1 {
        } else if o == 2 {
        } else {
        }
    }
}

/// The boxes of the T piece: each trimmed box is tight, and every block
/// lies in the bounding box.
proof fn lemma_boxes_t()
    ensures
        spec_t().boxed(),
        forall|o: int| 0 <= o < 4 ==> (#[trigger] spec_t().orientations[o]).tight(),
{
    let piece = spec_t();
    let def0 = piece.orientations[0];
    assert(def0.filled(def0.bounds_y.0 as int, 1));
    assert(def0.filled(def0.bounds_y.1 - 1, 0));
    assert(def0.filled(1, def0.bounds_x.0 as int));
    assert(def0.filled(1, def0.bounds_x.1 - 1));
    assert forall|i: int, j: int| #[trigger] def0.filled(i, j) implies 0 <= i < 2 && 0 <= j
        < 3 by {
        lemma_window_cases(def0, i, j);
    }
    assert(def0.tight());
    let def1 = piece.orientations[1];
    assert(def1.filled(def1.bounds_y.0 as int, 1));
    assert(def1.filled(def1.bounds_y.1 - 1, 1));
    assert(def1.filled(0, def1.bounds_x.0 as int));
    assert(def1.filled(1, def1.bounds_x.1 - 1));
    assert forall|i: int, j: int| #[trigger] def1.filled(i, j) implies 0 <= i < 3 && 1 <= j
        < 3 by {
        lemma_window_cases(def1, i, j);
    }
    assert(def1.tight());
    let def2 = piece.orientations[2];
    assert(def2.filled(def2.bounds_y.0 as int, 0));
    assert(def2.filled(def2.bounds_y.1 - 1, 1));
    assert(def2.filled(1, def2.bounds_x.0 as int));
    assert(def2.filled(1, def2.bounds_x.1 - 1));
    assert forall|i: int, j: int| #[trigger] def2.filled(i, j) implies 1 <= i < 3 && 0 <= j
        < 3 by {
        lemma_window_cases(def2, i, j);
    }
    assert(def2.tight());
    let def3 = piece.orientations[3];
    assert(def3.filled(def3.bounds_y.0 as int, 1));
    assert(def3.filled(def3.bounds_y.1 - 1, 1));
    assert(def3.filled(1, def3.bounds_x.0 as int));
    assert(def3.filled(0, def3.bounds_x.1 - 1));
    assert forall|i: int, j: int| #[trigger] def3.filled(i, j) implies 0 <= i < 3 && 0 <= j
        < 2 by {
        lemma_window_cases(def3, i, j);
    }
    assert(def3.tight());
    assert forall|o: int| 0 <= o < 4 implies (#[trigger] piece.orientations[o]).tight() by {
        if o == 0 {
        } else if o == 1 {
        } else if o == 2 {
        } else {
        }
    }
    assert forall|o: int, i: int, j: int|
        0 <= o < 4 && #[trigger] piece.orientations[o].filled(i, j) implies i
        < piece.bounds_height && j < piece.bounds_width by {
        assert(piece.orientations[o].tight());
        if o == 0 {
        } else if o == 1 {
        } else if o == 2 {
        } else {
        }
    }
}

/// The boxes of the Z piece: each trimmed box is tight, and every block
/// lies in the bounding box.
proof fn lemma_boxes_z()
    ensures
        spec_z().boxed(),
        forall|o: int| 0 <= o < 4 ==> (#[trigger] spec_z().orientations[o]).tight(),
{
    let piece = spec_z();
    let def0 = piece.orientations[0];
    assert(def0.filled(def0.bounds_y.0 as int, 0));
    assert(def0.filled(def0.bounds_y.1 - 1, 1));
    assert(def0.filled(0, def0.bounds_x.0 as int));
    assert(def0.filled(1, def0.bounds_x.1 - 1));
    assert forall|i: int, j: int| #[trigger] def0.filled(i, j) implies 0 <= i < 2 && 0 <= j
        < 3 by {
        lemma_window_cases(def0, i, j);
    }
    assert(def0.tight());
    let def1 = piece.orientations[1];
    assert(def1.filled(def1.bounds_y.0 as int, 2));
    assert(def1.filled(def1.bounds_y.1 - 1, 1));
    assert(def1.filled(1, def1.bounds_x.0 as int));
    assert(def1.filled(0, def1.bounds_x.1 - 1));
    assert forall|i: int, j: int| #[trigger] def1.filled(i, j) implies 0 <= i < 3 && 1 <= j
        < 3 by {
        lemma_window_cases(def1, i, j);
    }
    assert(def1.tight());
    let def2 = piece.orientations[2];
    assert(def2.filled(def2.bounds_y.0 as int, 0));
    assert(def2.filled(def2.bounds_y.1 - 1, 1));
    assert(def2.filled(1, def2.bounds_x.0 as int));
    assert(def2.filled(2, def2.bounds_x.1 - 1));
    assert forall|i: int, j: int| #[trigger] def2.filled(i, j) implies 1 <= i < 3 && 0 <= j
        < 3 by {
        lemma_window_cases(def2, i, j);
    }
    assert(def2.tight());
    let def3 = piece.orientations[3];
    assert(def3.filled(def3.bounds_y.0 as int, 1));
    assert(def3.filled(def3.bounds_y.1 - 1, 0));
    assert(def3.filled(1, def3.bounds_x.0 as int));
    assert(def3.filled(0, def3.bounds_x.1 - 1));
    assert forall|i: int, j: int| #[trigger] def3.filled(i, j) implies 0 <= i < 3 && 0 <= j
        < 2 by {
        lemma_window_cases(def3, i, j);
    }
    assert(def3.tight());
    assert forall|o: int| 0 <= o < 4 implies (#[trigger] piece.orientations[o]).tight() by {
        if o == 0 {
        } else if o == 1 {
        } else if o == 2 {
        } else {
        }
    }
    assert forall|o: int, i: int, j: int|
        0 <= o < 4 && #[trigger] piece.orientations[o].filled(i, j) implies i
        < piece.bounds_height && j < piece.bounds_width by {
        assert(piece.orientations[o].tight());
        if o == 0 {
        } else if o == 1 {
        } else if o == 2 {
        } else {
        }
    }
}

/// A cell of the window is one of its twenty-five cells.
proof fn lemma_window_cases(def: OrientationDef, i: int, j: int)
    requires
        def.filled(i, j),
    ensures
        (i == 0 || i == 1 || i == 2 || i == 3 || i == 4) && (j == 0 || j == 1 || j == 2 || j == 3
            || j == 4),
        def.blocks[i][j] != 0,
{
}

/// The boxes of the catalog. The trimmed box of every orientation is the
/// smallest box that holds its blocks, and the bounding box of every piece
/// holds the blocks of all its orientations.
pub proof fn lemma_catalog_boxes(shape: Shape)
    ensures
        lookup(shape).boxed(),
        forall|o: int| 0 <= o < 4 ==> (#[trigger] lookup(shape).orientations[o]).tight(),
{
    reveal(spec_lookup);
    match shape {
        Shape::I => lemma_boxes_i(),
        Shape::J => lemma_boxes_j(),
        Shape::L => lemma_boxes_l(),
        Shape::O => lemma_boxes_o(),
        Shape::S => lemma_boxes_s(),
        Shape::T => lemma_boxes_t(),
        Shape::Z => lemma_boxes_z(),
    }
}

/// Every definition of the catalog is well formed, and at least three cells
/// wide and high.
pub proof fn lemma_catalog_wf(shape: Shape)
    ensures
        lookup(shape).wf(),
        3 <= lookup(shape).bounds_width,
        3 <= lookup(shape).bounds_height,
{
    reveal(spec_lookup);
    let piece = lookup(shape);
    lemma_catalog_offsets(shape);
    assert forall|o: int| 0 <= o < 4 implies (#[trigger] piece.orientations[o]).wf() by {
        assert forall|k: int| 0 <= k < 5 implies {
            &&& -5 <= (#[trigger] piece.orientations[o].offsets[k]).0 <= 5
            &&& -5 <= piece.orientations[o].offsets[k].1 <= 5
        } by {
            assert(-2 <= piece.orientations[o].offsets[k].0 <= 2);
        }
        if o == 0 {
        } else if o == 1 {
        } else if o == 2 {
        } else {
        }
    }
}

/// Every orientation of every shape occupies a cell of its canvas that lies
/// below the first canvas row.
pub proof fn lemma_canvas_low_cell(shape: Shape, orientation: int)
    ensures
        low_cell(shape, orientation).0 >= 1,
        occupied(
            lookup(shape).canvas(orientation, false),
            low_cell(shape, orientation).0,
            low_cell(shape, orientation).1,
        ),
{
    reveal(spec_lookup);
    let piece = lookup(shape);
    let def = piece.orientations[orientation % 4];
    let (i, j) = low_cell(shape, orientation);
    assert(def.blocks[i][j] != 0);
    assert(piece.canvas(orientation, false)[i][j] is Some);
}

/// Whether every kick offset of `piece` is at most two cells either way.
pub open spec fn small_offsets(piece: Piece) -> bool {
    forall|o: int, k: int|
        0 <= o < 4 && 0 <= k < 5 ==> {
            &&& -2 <= (#[trigger] piece.orientations[o].offsets[k]).0 <= 2
            &&& -2 <= piece.orientations[o].offsets[k].1 <= 2
        }
}

/// The kick offsets of the catalog are at most two cells either way.
pub proof fn lemma_catalog_offsets(shape: Shape)
    ensures
        small_offsets(lookup(shape)),
{
    reveal(spec_lookup);
    let piece = lookup(shape);
    assert forall|o: int, k: int| 0 <= o < 4 && 0 <= k < 5 implies {
        &&& -2 <= (#[trigger] piece.orientations[o].offsets[k]).0 <= 2
        &&& -2 <= piece.orientations[o].offsets[k].1 <= 2
    } by {
        let offsets = piece.orientations[o].offsets;
        if o == 0 {
            assert(offsets == piece.orientations[0].offsets);
        } else if o == 1 {
            assert(offsets == piece.orientations[1].offsets);
        } else if o == 2 {
            assert(offsets == piece.orientations[2].offsets);
        } else {
            assert(offsets == piece.orientations[3].offsets);
        }
        if k == 0 {
        } else if k == 1 {
        } else if k == 2 {
        } else if k == 3 {
        } else {
        }
    }
}

/// The canvas of a catalog piece fills its bounding box.
pub proof fn lemma_canvas_shape(shape: Shape, orientation: int)
    ensures
        lookup(shape).canvas(orientation, false).len() == lookup(shape).bounds_height,
        forall|i: int|
            0 <= i < lookup(shape).bounds_height ==> (#[trigger] lookup(shape).canvas(
                orientation,
                false,
            )[i]).len() == lookup(shape).bounds_width,
{
}

/// Distinct shapes have distinct definitions.
pub proof fn lemma_lookup_injective(a: Shape, b: Shape)
    ensures
        lookup(a) == lookup(b) <==> a == b,
{
    reveal(spec_lookup);
    assert(lookup(a) == lookup(b) ==> lookup(a).color.g == lookup(b).color.g);
}

} // verus!
