//! The game as a mathematical state machine.
//!
//! A state is the sequence of edges, the sequence of cells and the turn. One
//! tick recomputes the highlight from the pointer, claims the highlighted
//! edge on a left press, and awards the cells that the claim completed.

use vstd::prelude::*;
use crate::board::{
    blank_cell, blank_edge, edge_alignment, edge_origin, lemma_edges_distinct, Cell, Player, Turn,
    CELL_COUNT, EDGE_COUNT,
};
use crate::edge::{lemma_hit_regions_disjoint, Edge};
use crate::geometry::board_position;
use crate::input::{asks_to_claim, TickInput};

verus! {

/// The state of a game.
pub struct GameView {
    pub edges: Seq<Edge>,
    pub cells: Seq<Cell>,
    pub turn: Turn,
}

impl GameView {
    /// The state at the start of a game: nothing claimed, nothing
    /// highlighted, nothing owned, and player one to move.
    pub open spec fn initial() -> GameView {
        GameView {
            edges: Seq::new(EDGE_COUNT as nat, |i: int| blank_edge(i)),
            cells: Seq::new(CELL_COUNT as nat, |c: int| blank_cell(c)),
            turn: Turn { player: Player::One, pending: false },
        }
    }

    /// The edges and cells are those of the board, each in its place: only
    /// the marks on the edges and the owners of the cells may differ from
    /// the initial state. In particular every cell names edges of the arena.
    pub open spec fn on_board(self) -> bool {
        &&& self.edges.len() == EDGE_COUNT
        &&& self.cells.len() == CELL_COUNT
        &&& forall|i: int|
            0 <= i < 84 ==> (#[trigger] self.edges[i]).origin == edge_origin(i)
                && self.edges[i].alignment == edge_alignment(i)
        &&& forall|c: int|
            0 <= c < 36 ==> (#[trigger] self.cells[c]).location == blank_cell(c).location
                && self.cells[c].bottom == blank_cell(c).bottom
                && self.cells[c].top == blank_cell(c).top
                && self.cells[c].left == blank_cell(c).left
                && self.cells[c].right == blank_cell(c).right
    }

    /// Edge `i` exists and is highlighted.
    pub open spec fn highlighted(self, i: int) -> bool {
        0 <= i < self.edges.len() && self.edges[i].highlighted
    }

    /// All four edges of cell `c` are claimed.
    pub open spec fn complete(self, c: int) -> bool {
        let cell = self.cells[c];
        &&& self.edges[cell.bottom as int].activated
        &&& self.edges[cell.top as int].activated
        &&& self.edges[cell.left as int].activated
        &&& self.edges[cell.right as int].activated
    }

    /// Cell `c` exists, has all four edges claimed and no owner yet.
    pub open spec fn newly_complete(self, c: int) -> bool {
        0 <= c < self.cells.len() && self.cells[c].owner.is_none() && self.complete(c)
    }

    /// What holds of every state that a game can reach: the board is intact,
    /// at most one edge is highlighted and it is not claimed, only complete
    /// cells are owned, and once the cells have been scanned every complete
    /// cell is owned.
    pub open spec fn wf(self) -> bool {
        &&& self.on_board()
        &&& forall|i: int, j: int| self.highlighted(i) && self.highlighted(j) ==> i == j
        &&& forall|i: int| self.highlighted(i) ==> !self.edges[i].activated
        &&& forall|c: int|
            0 <= c < 36 && (#[trigger] self.cells[c]).owner.is_some() ==> self.complete(c)
        &&& !self.turn.pending ==> forall|c: int| !self.newly_complete(c)
    }

    /// The indices of the highlighted edges.
    pub open spec fn highlighted_edges(self) -> Set<int> {
        Set::new(|i: int| self.highlighted(i))
    }

    /// The highlighted edge, if there is one.
    pub open spec fn highlighted_edge(self) -> Option<int> {
        if exists|i: int| self.highlighted(i) {
            Some(choose|i: int| self.highlighted(i))
        } else {
            None
        }
    }

    /// The state after the highlight has been recomputed for a pointer at
    /// `cursor`: an edge is highlighted exactly if it is not claimed and the
    /// pointer lies in its hit region.
    pub open spec fn pointed_at(self, cursor: Option<(real, real)>) -> GameView {
        GameView {
            edges: Seq::new(
                self.edges.len(),
                |i: int|
                    Edge {
                        highlighted: match cursor {
                            Some(p) => !self.edges[i].activated && self.edges[i].hits(p),
                            None => false,
                        },
                        ..self.edges[i]
                    },
            ),
            ..self
        }
    }

    /// The state after the button event of a tick: a left press claims the
    /// highlighted edge, takes the highlight off it and asks for a scan of
    /// the cells. Anything else changes nothing.
    pub open spec fn clicked(self, claim: bool) -> GameView {
        match self.highlighted_edge() {
            Some(i) if claim => GameView {
                edges: self.edges.update(
                    i,
                    Edge { activated: true, highlighted: false, ..self.edges[i] },
                ),
                turn: Turn { pending: true, ..self.turn },
                ..self
            },
            _ => self,
        }
    }

    /// The state after the scan of the cells. Without a claim since the last
    /// scan nothing changes. Otherwise every cell without an owner whose
    /// four edges are claimed goes to the player to move; that player moves
    /// again if any cell was awarded, and the turn passes if none was.
    pub open spec fn resolved(self) -> GameView {
        if self.turn.pending {
            GameView {
                edges: self.edges,
                cells: Seq::new(
                    self.cells.len(),
                    |c: int|
                        if self.newly_complete(c) {
                            Cell { owner: Some(self.turn.player), ..self.cells[c] }
                        } else {
                            self.cells[c]
                        },
                ),
                turn: Turn {
                    player: if exists|c: int| self.newly_complete(c) {
                        self.turn.player
                    } else {
                        self.turn.player.opponent()
                    },
                    pending: false,
                },
            }
        } else {
            self
        }
    }

    /// The state after the highlight step of a tick: a pointer that did not
    /// move leaves the highlight as it is.
    pub open spec fn highlights_managed(self, input: TickInput) -> GameView {
        match input.cursor {
            Some(position) => self.pointed_at(board_position(position, input.window)),
            None => self,
        }
    }

    /// The state after one tick: highlight, then claim, then scan.
    pub open spec fn ticked(self, input: TickInput) -> GameView {
        self.highlights_managed(input).clicked(asks_to_claim(input.click)).resolved()
    }

    /// The state after one tick for each input, in order.
    pub open spec fn after(self, inputs: Seq<TickInput>) -> GameView
        decreases inputs.len(),
    {
        if inputs.len() == 0 {
            self
        } else {
            self.after(inputs.drop_last()).ticked(inputs.last())
        }
    }
}

/// The initial state is well-formed.
pub proof fn lemma_initial_wf()
    ensures
        GameView::initial().wf(),
{
    let g = GameView::initial();
    assert(forall|c: int| 0 <= c < 36 ==> !g.complete(c));
}

/// Asking for a scan of the cells keeps the state well-formed.
pub proof fn lemma_pending_keeps_wf(g: GameView)
    requires
        g.wf(),
    ensures
        (GameView { turn: Turn { pending: true, ..g.turn }, ..g }).wf(),
{
    let n = GameView { turn: Turn { pending: true, ..g.turn }, ..g };
    assert(forall|i: int| n.highlighted(i) == g.highlighted(i));
    assert(forall|k: int| 0 <= k < 36 ==> n.complete(k) == g.complete(k));
}

/// Awarding a cell whose four edges are claimed, while a claim awaits the
/// scan, keeps the state well-formed.
pub proof fn lemma_award_keeps_wf(g: GameView, c: int, p: Player)
    requires
        g.wf(),
        g.turn.pending,
        g.newly_complete(c),
    ensures
        (GameView { cells: g.cells.update(c, Cell { owner: Some(p), ..g.cells[c] }), ..g }).wf(),
{
    let n = GameView { cells: g.cells.update(c, Cell { owner: Some(p), ..g.cells[c] }), ..g };
    assert(forall|i: int| n.highlighted(i) == g.highlighted(i));
    assert(forall|k: int| 0 <= k < 36 ==> n.complete(k) == g.complete(k));
}

/// The scan of the cells keeps the state well-formed.
pub proof fn lemma_resolved_wf(g: GameView)
    requires
        g.wf(),
    ensures
        g.resolved().wf(),
{
    let r = g.resolved();
    assert(forall|i: int| r.highlighted(i) == g.highlighted(i));
    assert(forall|k: int| 0 <= k < 36 ==> r.complete(k) == g.complete(k));
}

/// Marks on the edges that leave the claims as they are, put no mark on a
/// claimed edge and mark at most one edge keep the state well-formed.
pub proof fn lemma_remarked_wf(g: GameView, n: GameView)
    requires
        g.wf(),
        n.cells == g.cells,
        n.turn == g.turn,
        n.edges.len() == 84,
        forall|i: int|
            0 <= i < 84 ==> (#[trigger] n.edges[i]) == (Edge {
                highlighted: n.edges[i].highlighted,
                ..g.edges[i]
            }),
        forall|i: int, j: int| n.highlighted(i) && n.highlighted(j) ==> i == j,
        forall|i: int| n.highlighted(i) ==> !n.edges[i].activated,
    ensures
        n.wf(),
{
    assert(forall|k: int| 0 <= k < 36 ==> n.complete(k) == g.complete(k));
    assert(forall|k: int| n.newly_complete(k) ==> g.newly_complete(k));
}

/// Recomputing the highlight keeps the state well-formed: the hit regions
/// of the edges are disjoint, so at most one edge is marked.
pub proof fn lemma_pointed_at_wf(g: GameView, cursor: Option<(real, real)>)
    requires
        g.wf(),
    ensures
        g.pointed_at(cursor).wf(),
{
    let n = g.pointed_at(cursor);
    assert forall|i: int, j: int| n.highlighted(i) && n.highlighted(j) implies i == j by {
        if i != j {
            lemma_edges_distinct(i, j);
            lemma_hit_regions_disjoint(g.edges[i], g.edges[j], cursor.unwrap());
        }
    }
    lemma_remarked_wf(g, n);
}

/// In a well-formed state the highlighted edge is the one that is marked.
pub proof fn lemma_highlighted_edge(g: GameView, i: int)
    requires
        g.wf(),
        g.highlighted(i),
    ensures
        g.highlighted_edge() == Some(i),
{
}

/// A click keeps the state well-formed.
pub proof fn lemma_clicked_wf(g: GameView, claim: bool)
    requires
        g.wf(),
    ensures
        g.clicked(claim).wf(),
{
    let n = g.clicked(claim);
    if n != g {
        assert(forall|i: int| n.highlighted(i) ==> g.highlighted(i));
        assert(forall|i: int| !n.highlighted(i));
        assert(forall|k: int| 0 <= k < 36 && g.complete(k) ==> n.complete(k));
    }
}

/// One tick keeps the state well-formed.
pub proof fn lemma_ticked_wf(g: GameView, input: TickInput)
    requires
        g.wf(),
    ensures
        g.highlights_managed(input).wf(),
        g.highlights_managed(input).clicked(asks_to_claim(input.click)).wf(),
        g.ticked(input).wf(),
{
    if input.cursor.is_some() {
        lemma_pointed_at_wf(g, board_position(input.cursor.unwrap(), input.window));
    }
    lemma_clicked_wf(g.highlights_managed(input), asks_to_claim(input.click));
    lemma_resolved_wf(g.highlights_managed(input).clicked(asks_to_claim(input.click)));
}

} // verus!
