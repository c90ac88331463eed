//! The game as it runs: the board, the marks on it and the turn, advanced
//! tick by tick.

use vstd::prelude::*;
use crate::board::{blank_cell, blank_edge, lemma_edges_distinct, Cell, Player, Turn};
use crate::edge::{lemma_hit_regions_disjoint, Alignment, Edge};
use crate::geometry::{
    board_position, locate_cursor, position_of, BoardCoord, PixelPos, Point, WindowSize,
};
use crate::input::{asks_to_claim, MouseButtonInput, TickInput};
use crate::rules::{
    lemma_award_keeps_wf, lemma_clicked_wf, lemma_highlighted_edge, lemma_initial_wf,
    lemma_pending_keeps_wf, lemma_remarked_wf, lemma_resolved_wf, GameView,
};

verus! {

/// A game of squares. Its state can only be reached from the initial board by
/// the steps of the rules, so every value is well-formed.
#[derive(Debug)]
pub struct Game {
    edges: Vec<Edge>,
    cells: Vec<Cell>,
    turn: Turn,
}

impl View for Game {
    type V = GameView;

    closed spec fn view(&self) -> GameView {
        GameView { edges: self.edges@, cells: self.cells@, turn: self.turn }
    }
}

/// Sets up the board: seven rows of six horizontal edges, six rows of seven
/// vertical edges, and six rows of six cells, each cell naming the edges
/// below, above, left and right of it. Player one moves first.
pub fn spawn_world() -> (game: Game)
    ensures
        game@ == GameView::initial(),
        game@.wf(),
{
    let mut horizontal: Vec<Edge> = Vec::with_capacity(42);
    let mut vertical: Vec<Edge> = Vec::with_capacity(42);
    let mut y: u32 = 0;
    while y < 7
        invariant
            y <= 7,
            horizontal.len() == 6 * y,
            vertical.len() == (if y < 6 { 7 * y } else { 42 }),
            forall|k: int| 0 <= k < horizontal.len() ==> horizontal[k] == blank_edge(k),
            forall|k: int| 0 <= k < vertical.len() ==> vertical[k] == blank_edge(42 + k),
        decreases 7 - y,
    {
        let mut x: u32 = 0;
        while x < 7
            invariant
                x <= 7,
                y < 7,
                horizontal.len() == 6 * y + (if x < 6 { x as int } else { 6 }),
                vertical.len() == (if y < 6 { 7 * y + x } else { 42 }),
                forall|k: int| 0 <= k < horizontal.len() ==> horizontal[k] == blank_edge(k),
                forall|k: int| 0 <= k < vertical.len() ==> vertical[k] == blank_edge(42 + k),
            decreases 7 - x,
        {
            if x < 6 {
                horizontal.push(Edge::new(Point::from((x, y)), Alignment::Horizontal));
            }
            if y < 6 {
                vertical.push(Edge::new(Point::from((x, y)), Alignment::Vertical));
            }
            x += 1;
        }
        y += 1;
    }
    let mut cells: Vec<Cell> = Vec::with_capacity(36);
    let mut row: usize = 0;
    while row < 6
        invariant
            row <= 6,
            cells.len() == 6 * row,
            forall|c: int| 0 <= c < cells.len() ==> cells[c] == blank_cell(c),
        decreases 6 - row,
    {
        let mut column: usize = 0;
        while column < 6
            invariant
                column <= 6,
                row < 6,
                cells.len() == 6 * row + column,
                forall|c: int| 0 <= c < cells.len() ==> cells[c] == blank_cell(c),
            decreases 6 - column,
        {
            let lower: usize = 6 * row + column;
            let upper: usize = 6 * (row + 1) + column;
            let left: usize = 42 + 7 * row + column;
            cells.push(
                Cell {
                    location: Point { x: column as u32, y: row as u32 },
                    bottom: lower,
                    top: upper,
                    left,
                    right: left + 1,
                    owner: None,
                },
            );
            column += 1;
        }
        row += 1;
    }
    let mut edges = horizontal;
    edges.append(&mut vertical);
    let turn = Turn { player: Player::One, pending: false };
    proof {
        assert(edges@ =~= GameView::initial().edges);
        assert(cells@ =~= GameView::initial().cells);
        lemma_initial_wf();
    }
    Game { edges, cells, turn }
}

/// Replaces one element of a vector.
fn put<T>(items: &mut Vec<T>, i: usize, item: T)
    requires
        i < old(items).len(),
    ensures
        final(items)@ == old(items)@.update(i as int, item),
    no_unwind
{
    items[i] = item;
}

impl Game {
    #[verifier::type_invariant]
    closed spec fn well_formed(self) -> bool {
        self@.wf()
    }

    /// The edges, in the order of the arena.
    pub fn edges(&self) -> (edges: &Vec<Edge>)
        ensures
            edges@ == self@.edges,
            self@.wf(),
    {
        proof {
            use_type_invariant(self);
        }
        &self.edges
    }

    /// The cells, row by row from the bottom.
    pub fn cells(&self) -> (cells: &Vec<Cell>)
        ensures
            cells@ == self@.cells,
            self@.wf(),
    {
        proof {
            use_type_invariant(self);
        }
        &self.cells
    }

    /// Whose move it is, and whether a claim awaits the scan of the cells.
    pub fn turn(&self) -> (turn: Turn)
        ensures
            turn == self@.turn,
            self@.wf(),
    {
        proof {
            use_type_invariant(self);
        }
        self.turn
    }

    /// Finds the edge whose hit region holds `point`: the first one in the
    /// order of the arena, which is also the only one.
    pub fn hit_test(&self, point: &BoardCoord) -> (hit: Option<usize>)
        ensures
            self@.wf(),
            match hit {
                Some(i) => {
                    &&& i < 84
                    &&& self@.edges[i as int].hits(point@)
                    &&& forall|j: int| 0 <= j < i ==> !self@.edges[j].hits(point@)
                    &&& forall|j: int| 0 <= j < 84 && self@.edges[j].hits(point@) ==> j == i
                },
                None => forall|j: int| 0 <= j < 84 ==> !self@.edges[j].hits(point@),
            },
    {
        proof {
            use_type_invariant(self);
        }
        let mut i: usize = 0;
        while i < self.edges.len()
            invariant
                i <= 84,
                self@.wf(),
                forall|j: int| 0 <= j < i ==> !self.edges[j].hits(point@),
            decreases 84 - i,
        {
            if self.edges[i].is_hit_by(point) {
                proof {
                    assert forall|j: int| 0 <= j < 84 && j != i implies !self.edges[j].hits(
                        point@,
                    ) by {
                        lemma_edges_distinct(i as int, j);
                        lemma_hit_regions_disjoint(self.edges[i as int], self.edges[j], point@);
                    }
                }
                return Some(i);
            }
            i += 1;
        }
        None
    }

    /// The highlighted edge, if there is one.
    pub fn highlighted_edge(&self) -> (marked: Option<usize>)
        ensures
            self@.wf(),
            match marked {
                Some(i) => self@.highlighted_edge() == Some(i as int),
                None => self@.highlighted_edge().is_none(),
            },
    {
        proof {
            use_type_invariant(self);
        }
        let mut i: usize = 0;
        while i < self.edges.len()
            invariant
                i <= 84,
                self@.wf(),
                forall|j: int| 0 <= j < i ==> !self@.highlighted(j),
            decreases 84 - i,
        {
            if self.edges[i].highlighted {
                proof {
                    lemma_highlighted_edge(self@, i as int);
                }
                return Some(i);
            }
            i += 1;
        }
        None
    }

    /// Recomputes the highlight for a pointer at `cursor` in board space, or
    /// off the board where there is none: the edge that the pointer hits is
    /// highlighted unless it is claimed, and every other edge loses its
    /// highlight.
    pub fn select_highlight(&mut self, cursor: Option<BoardCoord>)
        ensures
            final(self)@ == old(self)@.pointed_at(position_of(cursor)),
            final(self)@.wf(),
    {
        proof {
            use_type_invariant(&*self);
        }
        let ghost before = self@;
        let hit = match cursor {
            Some(point) => self.hit_test(&point),
            None => None,
        };
        let mut i: usize = 0;
        while i < self.edges.len()
            invariant
                i <= 84,
                before.wf(),
                self@.wf(),
                self.cells@ == before.cells,
                self.turn == before.turn,
                forall|j: int|
                    0 <= j < i ==> self.edges[j] == (Edge {
                        highlighted: false,
                        ..before.edges[j]
                    }),
                forall|j: int| i <= j < 84 ==> self.edges[j] == before.edges[j],
            decreases 84 - i,
        {
            let edge = Edge { highlighted: false, ..self.edges[i] };
            proof {
                let next = GameView { edges: self.edges@.update(i as int, edge), ..self@ };
                assert(forall|a: int| next.highlighted(a) ==> self@.highlighted(a));
                lemma_remarked_wf(self@, next);
            }
            put(&mut self.edges, i, edge);
            i += 1;
        }
        if let Some(h) = hit {
            if !self.edges[h].activated {
                let edge = Edge { highlighted: true, ..self.edges[h] };
                proof {
                    let next = GameView { edges: self.edges@.update(h as int, edge), ..self@ };
                    lemma_remarked_wf(self@, next);
                }
                put(&mut self.edges, h, edge);
            }
        }
        proof {
            assert(self.edges@ =~= before.pointed_at(position_of(cursor)).edges);
        }
    }

    /// Recomputes the highlight once the pointer has moved: maps the pointer
    /// to board space and selects the highlight there. Without a pointer
    /// position nothing changes.
    pub fn manage_highlights(&mut self, mouse: Option<PixelPos>, window: &WindowSize)
        ensures
            final(self)@ == (match mouse {
                Some(position) => old(self)@.pointed_at(board_position(position, *window)),
                None => old(self)@,
            }),
            final(self)@.wf(),
    {
        proof {
            use_type_invariant(&*self);
        }
        if let Some(position) = mouse {
            let cursor = locate_cursor(position, window);
            self.select_highlight(cursor);
        }
    }

    /// Handles the latest button event of a tick. A press of the left button
    /// claims the highlighted edge, takes the highlight off it and asks for
    /// a scan of the cells. Any other event, and a press while no edge is
    /// highlighted, changes nothing.
    pub fn on_click_handler(&mut self, click: Option<MouseButtonInput>)
        ensures
            final(self)@ == old(self)@.clicked(asks_to_claim(click)),
            final(self)@.wf(),
    {
        proof {
            use_type_invariant(&*self);
        }
        let claim = match click {
            Some(event) => event.is_left_press(),
            None => false,
        };
        if claim {
            if let Some(i) = self.highlighted_edge() {
                let ghost before = self@;
                let edge = Edge { activated: true, highlighted: false, ..self.edges[i] };
                proof {
                    lemma_pending_keeps_wf(before);
                }
                self.turn.pending = true;
                proof {
                    assert(self.edges@.update(i as int, edge) =~= before.clicked(true).edges);
                    lemma_clicked_wf(before, true);
                }
                put(&mut self.edges, i, edge);
            }
        }
    }

    /// Scans the cells after a claim. Every cell without an owner whose four
    /// edges are claimed goes to the player to move. That player keeps the
    /// turn if any cell was awarded; otherwise the turn passes. Without a
    /// claim since the last scan nothing happens.
    pub fn check_for_taken_squares(&mut self)
        ensures
            final(self)@ == old(self)@.resolved(),
            final(self)@.wf(),
    {
        proof {
            use_type_invariant(&*self);
        }
        if self.turn.pending {
            let ghost before = self@;
            let mut another_turn = false;
            let mut c: usize = 0;
            while c < self.cells.len()
                invariant
                    c <= 36,
                    before.wf(),
                    before.turn.pending,
                    self@.wf(),
                    self.turn == before.turn,
                    self.edges@ == before.edges,
                    forall|k: int| 0 <= k < c ==> self.cells[k] == before.resolved().cells[k],
                    forall|k: int| c <= k < 36 ==> self.cells[k] == before.cells[k],
                    another_turn <==> exists|k: int| 0 <= k < c && before.newly_complete(k),
                decreases 36 - c,
            {
                let cell = self.cells[c];
                if cell.owner.is_none() && self.edges[cell.bottom].activated
                    && self.edges[cell.top].activated && self.edges[cell.left].activated
                    && self.edges[cell.right].activated {
                    proof {
                        assert(before.newly_complete(c as int));
                        lemma_award_keeps_wf(self@, c as int, self.turn.player);
                    }
                    put(&mut self.cells, c, Cell { owner: Some(self.turn.player), ..cell });
                    another_turn = true;
                } else {
                    assert(!before.newly_complete(c as int));
                }
                c += 1;
            }
            let player = if another_turn {
                self.turn.player
            } else {
                self.turn.player.other()
            };
            proof {
                assert(self.cells@ =~= before.resolved().cells);
                lemma_resolved_wf(before);
            }
            self.turn = Turn { player, pending: false };
        }
    }

    /// Advances the game by one tick: recomputes the highlight from the
    /// pointer, handles the button event, then scans the cells.
    pub fn tick(&mut self, input: &TickInput)
        ensures
            final(self)@ == old(self)@.ticked(*input),
            final(self)@.wf(),
    {
        self.manage_highlights(input.cursor, &input.window);
        self.on_click_handler(input.click);
        self.check_for_taken_squares();
    }
}

} // verus!
