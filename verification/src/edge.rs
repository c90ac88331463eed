//! Edges of the lattice and their hit regions.

use vstd::prelude::*;
use crate::geometry::{tenths, BoardCoord, Point};

verus! {

/// The direction in which an edge leaves its origin.
#[derive(Clone, Copy, Debug, PartialEq, Eq, Structural)]
pub enum Alignment {
    Horizontal,
    Vertical,
}

/// A unit segment between two neighbouring lattice points. A horizontal edge
/// spans from its origin `(x, y)` to `(x + 1, y)`, a vertical one to
/// `(x, y + 1)`.
#[derive(Clone, Copy, Debug, PartialEq, Eq, Structural)]
pub struct Edge {
    pub origin: Point,
    pub alignment: Alignment,
    /// Claimed by a player. Never reverts.
    pub activated: bool,
    /// Marked as the edge that a click would claim.
    pub highlighted: bool,
}

impl Edge {
    /// Whether the position `p` lies in the hit region of the edge: an open
    /// rectangle around the middle eight tenths of the segment, one tenth
    /// wide on either side of it.
    pub open spec fn hits(self, p: (real, real)) -> bool {
        let x = self.origin.x as real;
        let y = self.origin.y as real;
        match self.alignment {
            Alignment::Horizontal => {
                &&& x + tenths(1) < p.0 < x + tenths(9)
                &&& y - tenths(1) < p.1 < y + tenths(1)
            },
            Alignment::Vertical => {
                &&& x - tenths(1) < p.0 < x + tenths(1)
                &&& y + tenths(1) < p.1 < y + tenths(9)
            },
        }
    }

    /// The middle of the segment.
    pub open spec fn midpoint(self) -> (real, real) {
        let x = self.origin.x as real;
        let y = self.origin.y as real;
        match self.alignment {
            Alignment::Horizontal => (x + tenths(5), y),
            Alignment::Vertical => (x, y + tenths(5)),
        }
    }

    /// An edge that nobody has claimed or marked.
    pub fn new(origin: Point, alignment: Alignment) -> (e: Edge)
        ensures
            e == (Edge { origin, alignment, activated: false, highlighted: false }),
    {
        Edge { origin, alignment, activated: false, highlighted: false }
    }

    /// Whether the edge is to be drawn: claimed edges and the highlighted
    /// edge are, the others are not.
    pub fn is_visible(&self) -> (visible: bool)
        ensures
            visible == (self.activated || self.highlighted),
    {
        self.activated || self.highlighted
    }

    /// Tests a board-space position against the edge's hit region.
    pub fn is_hit_by(&self, point: &BoardCoord) -> (hit: bool)
        ensures
            hit == self.hits(point@),
    {
        let x: i64 = 10 * (self.origin.x as i64);
        let y: i64 = 10 * (self.origin.y as i64);
        match self.alignment {
            Alignment::Horizontal => {
                point.x.gt_tenths(x + 1) && point.x.lt_tenths(x + 9) && point.y.gt_tenths(y - 1)
                    && point.y.lt_tenths(y + 1)
            },
            Alignment::Vertical => {
                point.x.gt_tenths(x - 1) && point.x.lt_tenths(x + 1) && point.y.gt_tenths(y + 1)
                    && point.y.lt_tenths(y + 9)
            },
        }
    }
}

/// No position lies in the hit regions of two different edges. In
/// particular the regions of a horizontal and a vertical edge that meet at a
/// lattice point stay clear of each other, so a hit never needs a tie-break.
pub proof fn lemma_hit_regions_disjoint(a: Edge, b: Edge, p: (real, real))
    requires
        a.origin != b.origin || a.alignment != b.alignment,
    ensures
        !(a.hits(p) && b.hits(p)),
{
}

} // verus!
