//! The fixed lattice: 49 points, 84 edges and 36 cells.
//!
//! Every edge is stored once, in one arena, and cells name their edges by
//! index. The horizontal edges come first, row by row from the bottom, then
//! the vertical ones, again row by row.

use vstd::prelude::*;
use crate::edge::{Alignment, Edge};
use crate::geometry::Point;

verus! {

/// Number of cells along one side of the board.
pub const CELLS_PER_SIDE: usize = 6;

/// Number of horizontal edges, which is also the number of vertical ones.
pub const EDGES_PER_ALIGNMENT: usize = 42;

/// Number of edges on the board.
pub const EDGE_COUNT: usize = 84;

/// Number of cells on the board.
pub const CELL_COUNT: usize = 36;

/// One of the two players.
#[derive(Clone, Copy, Debug, PartialEq, Eq, Structural)]
pub enum Player {
    One,
    Two,
}

impl Player {
    /// The other player.
    pub open spec fn opponent(self) -> Player {
        match self {
            Player::One => Player::Two,
            Player::Two => Player::One,
        }
    }

    /// The player who is not `self`.
    pub fn other(self) -> (p: Player)
        ensures
            p == self.opponent(),
    {
        match self {
            Player::One => Player::Two,
            Player::Two => Player::One,
        }
    }
}

/// Whose move it is, and whether an edge was claimed since the cells were
/// last scanned for completion.
#[derive(Clone, Copy, Debug, PartialEq, Eq, Structural)]
pub struct Turn {
    pub player: Player,
    pub pending: bool,
}

/// A unit square of the board. It names its four edges by their index in the
/// arena of edges, so that a claimed edge counts for both cells beside it.
#[derive(Clone, Copy, Debug, PartialEq, Eq)]
pub struct Cell {
    /// The lower-left corner.
    pub location: Point,
    pub bottom: usize,
    pub top: usize,
    pub left: usize,
    pub right: usize,
    /// The player who claimed the last of the four edges.
    pub owner: Option<Player>,
}

impl Cell {
    /// The four edges as bottom, top, left, right.
    pub fn edges(&self) -> (r: [usize; 4])
        ensures
            r@ == seq![self.bottom, self.top, self.left, self.right],
    {
        [self.bottom, self.top, self.left, self.right]
    }
}

/// Index of the horizontal edge with origin `(x, y)`, for `x < 6` and `y < 7`.
pub open spec fn horizontal_index(x: int, y: int) -> int {
    6 * y + x
}

/// Index of the vertical edge with origin `(x, y)`, for `x < 7` and `y < 6`.
pub open spec fn vertical_index(x: int, y: int) -> int {
    42 + 7 * y + x
}

/// The alignment of the edge at index `i` of the arena.
pub open spec fn edge_alignment(i: int) -> Alignment {
    if i < 42 {
        Alignment::Horizontal
    } else {
        Alignment::Vertical
    }
}

/// The origin of the edge at index `i` of the arena.
pub open spec fn edge_origin(i: int) -> Point {
    if i < 42 {
        Point { x: (i % 6) as u32, y: (i / 6) as u32 }
    } else {
        Point { x: ((i - 42) % 7) as u32, y: ((i - 42) / 7) as u32 }
    }
}

/// The edge at index `i` before anybody has moved.
pub open spec fn blank_edge(i: int) -> Edge {
    Edge { origin: edge_origin(i), alignment: edge_alignment(i), activated: false, highlighted: false }
}

/// The cell at index `c` before anybody has moved.
pub open spec fn blank_cell(c: int) -> Cell {
    let x = c % 6;
    let y = c / 6;
    Cell {
        location: Point { x: x as u32, y: y as u32 },
        bottom: horizontal_index(x, y) as usize,
        top: horizontal_index(x, y + 1) as usize,
        left: vertical_index(x, y) as usize,
        right: vertical_index(x + 1, y) as usize,
        owner: None,
    }
}

/// Different places in the arena hold different edges.
pub proof fn lemma_edges_distinct(i: int, j: int)
    requires
        0 <= i < 84,
        0 <= j < 84,
        i != j,
    ensures
        edge_origin(i) != edge_origin(j) || edge_alignment(i) != edge_alignment(j),
{
}

/// Whether the cell at index `c` names the edge at index `e` as one of its
/// four edges.
pub open spec fn borders(c: int, e: int) -> bool {
    let cell = blank_cell(c);
    cell.bottom == e || cell.top == e || cell.left == e || cell.right == e
}

/// Whether the edge at index `e` lies on the rim of the board.
pub open spec fn on_rim(e: int) -> bool {
    match edge_alignment(e) {
        Alignment::Horizontal => edge_origin(e).y == 0 || edge_origin(e).y == 6,
        Alignment::Vertical => edge_origin(e).x == 0 || edge_origin(e).x == 6,
    }
}

/// The cells that name the edge at index `e`.
pub open spec fn cells_beside(e: int) -> Set<int> {
    Set::new(|c: int| 0 <= c < 36 && borders(c, e))
}

} // verus!
