//! What holds of every game, whatever the players do.

use vstd::prelude::*;
use crate::board::{cells_beside, lemma_edges_distinct, on_rim};
use crate::edge::{lemma_hit_regions_disjoint, Edge};
use crate::geometry::{board_axis, board_position};
use crate::input::{asks_to_claim, TickInput};
use crate::rules::{lemma_resolved_wf, lemma_ticked_wf, GameView};

verus! {

/// Every edge inside the board is shared by exactly two cells, and every
/// edge on the rim belongs to exactly one.
pub proof fn law_edge_sharing(e: int)
    requires
        0 <= e < 84,
    ensures
        cells_beside(e).finite(),
        cells_beside(e).len() == (if on_rim(e) { 1nat } else { 2nat }),
{
    let beside = cells_beside(e);
    if e < 42 {
        // the cell above has it as its bottom, the cell below as its top
        if e < 6 {
            assert(beside =~= set![e]);
        } else if e >= 36 {
            assert(beside =~= set![e - 6]);
        } else {
            assert(beside =~= set![e, e - 6]);
        }
    } else {
        // the cell to the right has it as its left, the cell to the left as
        // its right
        let x = (e - 42) % 7;
        let y = (e - 42) / 7;
        let right = 6 * y + x;
        if x == 0 {
            assert(beside =~= set![right]);
        } else if x == 6 {
            assert(beside =~= set![right - 1]);
        } else {
            assert(beside =~= set![right, right - 1]);
        }
    }
}

/// The unit of length in the window does not matter: a pointer lies at the
/// same board position whether it is measured in pixels or in any fraction
/// of a pixel, as long as the window is measured likewise.
pub proof fn law_unit_free(p: int, extent: int, k: int)
    requires
        extent > 0,
        k > 0,
    ensures
        board_axis(k * p, k * extent) == board_axis(p, extent),
{
    let e = extent as real;
    let q = p as real;
    let f = k as real;
    assert(((k * p) as real) == f * q) by (nonlinear_arith)
        requires
            f == k as real,
            q == p as real,
    ;
    assert(((k * extent) as real) == f * e) by (nonlinear_arith)
        requires
            f == k as real,
            e == extent as real,
    ;
    assert((f * q) / (f * e) == q / e) by (nonlinear_arith)
        requires
            e > 0 as real,
            f > 0 as real,
    ;
}

/// The middle of an edge lies in the edge's hit region.
pub proof fn law_midpoint_hits(e: Edge)
    ensures
        e.hits(e.midpoint()),
{
}

/// No position lies in the hit regions of two edges of the board. This holds
/// of all 84 edges, and so of every horizontal and vertical edge that share
/// an end point.
pub proof fn law_hit_regions_disjoint(g: GameView, i: int, j: int, p: (real, real))
    requires
        g.on_board(),
        0 <= i < 84,
        0 <= j < 84,
        i != j,
    ensures
        !(g.edges[i].hits(p) && g.edges[j].hits(p)),
{
    lemma_edges_distinct(i, j);
    lemma_hit_regions_disjoint(g.edges[i], g.edges[j], p);
}

/// Any number of ticks keeps the state well-formed.
pub proof fn lemma_after_wf(g: GameView, inputs: Seq<TickInput>)
    requires
        g.wf(),
    ensures
        g.after(inputs).wf(),
    decreases inputs.len(),
{
    if inputs.len() > 0 {
        lemma_after_wf(g, inputs.drop_last());
        lemma_ticked_wf(g.after(inputs.drop_last()), inputs.last());
    }
}

/// After any tick the number of highlighted edges is zero or one, and no
/// highlighted edge is claimed.
pub proof fn law_highlight_invariant(g: GameView, input: TickInput)
    requires
        g.wf(),
    ensures
        g.ticked(input).highlighted_edges().finite(),
        g.ticked(input).highlighted_edges().len() <= 1,
        forall|i: int| g.ticked(input).highlighted(i) ==> !g.ticked(input).edges[i].activated,
{
    lemma_ticked_wf(g, input);
    let n = g.ticked(input);
    let marked = n.highlighted_edges();
    if exists|i: int| n.highlighted(i) {
        let i = choose|i: int| n.highlighted(i);
        assert(marked =~= set![i]);
    } else {
        assert(marked =~= Set::<int>::empty());
    }
}

/// A claimed edge stays claimed through one tick, whatever the input.
pub proof fn lemma_tick_keeps_claims(g: GameView, input: TickInput, i: int)
    requires
        g.wf(),
        0 <= i < 84,
        g.edges[i].activated,
    ensures
        g.ticked(input).edges[i].activated,
{
    lemma_ticked_wf(g, input);
}

/// Once an edge is claimed it stays claimed for all later ticks, whatever
/// their inputs.
pub proof fn law_activation_monotonic(g: GameView, inputs: Seq<TickInput>, i: int)
    requires
        g.wf(),
        0 <= i < 84,
        g.edges[i].activated,
    ensures
        g.after(inputs).edges[i].activated,
    decreases inputs.len(),
{
    if inputs.len() > 0 {
        law_activation_monotonic(g, inputs.drop_last(), i);
        lemma_after_wf(g, inputs.drop_last());
        lemma_tick_keeps_claims(g.after(inputs.drop_last()), inputs.last(), i);
    }
}

/// After the scan of the cells, and so after any tick, a cell has an owner
/// if and only if all four of its edges are claimed.
pub proof fn law_owner_iff_complete(g: GameView, input: TickInput, c: int)
    requires
        g.wf(),
        0 <= c < 36,
    ensures
        g.resolved().cells[c].owner.is_some() <==> g.resolved().complete(c),
        g.ticked(input).cells[c].owner.is_some() <==> g.ticked(input).complete(c),
{
    lemma_resolved_wf(g);
    assert(!g.resolved().newly_complete(c));
    lemma_ticked_wf(g, input);
    assert(!g.ticked(input).newly_complete(c));
}

/// The owner of a cell stays the same through one tick.
pub proof fn lemma_tick_keeps_owner(g: GameView, input: TickInput, c: int)
    requires
        g.wf(),
        0 <= c < 36,
        g.cells[c].owner.is_some(),
    ensures
        g.ticked(input).cells[c].owner == g.cells[c].owner,
{
}

/// Once a cell has an owner, no later tick changes or clears it.
pub proof fn law_owner_permanent(g: GameView, inputs: Seq<TickInput>, c: int)
    requires
        g.wf(),
        0 <= c < 36,
        g.cells[c].owner.is_some(),
    ensures
        g.after(inputs).cells[c].owner == g.cells[c].owner,
    decreases inputs.len(),
{
    if inputs.len() > 0 {
        law_owner_permanent(g, inputs.drop_last(), c);
        lemma_after_wf(g, inputs.drop_last());
        lemma_tick_keeps_owner(g.after(inputs.drop_last()), inputs.last(), c);
    }
}

/// Scanning the cells a second time changes nothing, and no scan takes a
/// cell from its owner.
pub proof fn law_rescan_idempotent(g: GameView)
    ensures
        g.resolved().resolved() == g.resolved(),
        forall|c: int|
            0 <= c < g.cells.len() && g.cells[c].owner.is_some() ==> g.resolved().cells[c].owner
                == g.cells[c].owner,
{
}

/// A tick claims at most one edge, and where the pointer has moved in that
/// tick, the edge lies under the pointer.
pub proof fn law_one_claim_per_tick(g: GameView, input: TickInput, i: int, j: int)
    requires
        g.wf(),
        0 <= i < 84,
        0 <= j < 84,
        !g.edges[i].activated && g.ticked(input).edges[i].activated,
        !g.edges[j].activated && g.ticked(input).edges[j].activated,
    ensures
        i == j,
        asks_to_claim(input.click),
        input.cursor matches Some(position) ==> board_position(position, input.window) matches Some(
            p,
        ) && g.edges[i].hits(p),
{
    lemma_ticked_wf(g, input);
    let a = g.highlights_managed(input);
    assert(a.highlighted(i));
    assert(a.highlighted(j));
}

/// A tick in which a claim completes at least one cell leaves the turn with
/// the player who claimed; a claim that completes no cell passes the turn to
/// the other player; without a claim the turn stays where it is. Here `a` is
/// the state after the click, before the scan, and a claim was made in this
/// tick exactly if one awaits the scan there while none did before.
pub proof fn law_extra_turn(g: GameView, input: TickInput)
    requires
        g.wf(),
    ensures
        ({
            let a = g.highlights_managed(input).clicked(asks_to_claim(input.click));
            let n = g.ticked(input);
            &&& !g.turn.pending ==> (a.turn.pending <==> asks_to_claim(input.click)
                && g.highlights_managed(input).highlighted_edge().is_some())
            &&& a.turn.pending && (exists|c: int| a.newly_complete(c)) ==> n.turn.player
                == g.turn.player
            &&& a.turn.pending && !(exists|c: int| a.newly_complete(c)) ==> n.turn.player
                == g.turn.player.opponent()
            &&& !a.turn.pending ==> n.turn.player == g.turn.player
            &&& !n.turn.pending
        }),
{
}

/// A tick without a pointer position and without a button event changes
/// nothing, unless a claim still awaits the scan.
pub proof fn law_idle_tick(g: GameView, input: TickInput)
    requires
        input.cursor.is_none(),
        input.click.is_none(),
        !g.turn.pending,
    ensures
        g.ticked(input) == g,
{
}

} // verus!
