//! Lattice points and exact board-space coordinates.
//!
//! Board space is continuous. A coordinate is held as a pair of exact
//! fractions, so that the open hit regions of the edges are decided without
//! rounding. In contracts a coordinate is a pair of real numbers.

use vstd::prelude::*;

verus! {

/// A lattice vertex, named by its integer grid coordinate.
#[derive(Clone, Copy, Debug, PartialEq, Eq, Structural)]
pub struct Point {
    pub x: u32,
    pub y: u32,
}

impl From<(u32, u32)> for Point {
    fn from(point: (u32, u32)) -> (p: Point) {
        Point { x: point.0, y: point.1 }
    }
}

impl vstd::std_specs::convert::FromSpecImpl<(u32, u32)> for Point {
    open spec fn obeys_from_spec() -> bool {
        true
    }

    open spec fn from_spec(v: (u32, u32)) -> Point {
        Point { x: v.0, y: v.1 }
    }
}

/// The real number `k / 10`.
pub open spec fn tenths(k: int) -> real {
    (k as real) / (10 as real)
}

/// Whether the real coordinate `v` truncates to the lattice coordinate `n`:
/// `n` is the integer part of `v`, or the nearest lattice coordinate where
/// the integer part is none.
pub open spec fn truncates_to(v: real, n: int) -> bool {
    if v < (1 as real) {
        n == 0
    } else if v >= (u32::MAX as real) {
        n == u32::MAX
    } else {
        (n as real) <= v && v < ((n + 1) as real)
    }
}

/// The lattice coordinate that the real coordinate `v` truncates to.
pub open spec fn truncated(v: real) -> u32 {
    choose|n: u32| truncates_to(v, n as int)
}

/// An exact fraction with a positive denominator.
#[derive(Clone, Copy, Debug)]
pub struct Ratio {
    num: i64,
    den: i64,
}

impl Ratio {
    #[verifier::type_invariant]
    closed spec fn positive_denominator(self) -> bool {
        self.den > 0
    }

    /// The numerator as it was given.
    pub closed spec fn numerator(self) -> int {
        self.num as int
    }

    /// The denominator as it was given. It is positive in every fraction
    /// that a program holds.
    pub closed spec fn denominator(self) -> int {
        self.den as int
    }

    /// The number that the fraction stands for.
    pub open spec fn value(self) -> real {
        (self.numerator() as real) / (self.denominator() as real)
    }

    /// The fraction `num / den`, or nothing where `den` is not positive.
    pub fn new(num: i64, den: i64) -> (r: Option<Ratio>)
        ensures
            r.is_some() <==> den > 0,
            r matches Some(q) ==> q.numerator() == num && q.denominator() == den,
    {
        if den > 0 {
            Some(Ratio { num, den })
        } else {
            None
        }
    }

    /// The numerator.
    pub fn num(&self) -> (n: i64)
        ensures
            n == self.numerator(),
    {
        self.num
    }

    /// The denominator.
    pub fn den(&self) -> (d: i64)
        ensures
            d == self.denominator(),
            d > 0,
    {
        proof {
            use_type_invariant(self);
        }
        self.den
    }

    /// Whether the fraction is strictly greater than `k / 10`.
    pub fn gt_tenths(&self, k: i64) -> (b: bool)
        ensures
            b == (self.value() > tenths(k as int)),
    {
        proof {
            use_type_invariant(self);
            lemma_order_by_cross_product(self.num as int, self.den as int, k as int);
            lemma_product_fits(k as int, self.den as int);
        }
        let lhs: i128 = 10 * (self.num as i128);
        let rhs: i128 = (k as i128) * (self.den as i128);
        lhs > rhs
    }

    /// Whether the fraction is strictly less than `k / 10`.
    pub fn lt_tenths(&self, k: i64) -> (b: bool)
        ensures
            b == (self.value() < tenths(k as int)),
    {
        proof {
            use_type_invariant(self);
            lemma_order_by_cross_product(self.num as int, self.den as int, k as int);
            lemma_product_fits(k as int, self.den as int);
        }
        let lhs: i128 = 10 * (self.num as i128);
        let rhs: i128 = (k as i128) * (self.den as i128);
        lhs < rhs
    }

    /// The lattice coordinate that the fraction truncates to.
    pub fn truncate(&self) -> (n: u32)
        ensures
            n == truncated(self.value()),
            truncates_to(self.value(), n as int),
    {
        proof {
            use_type_invariant(self);
            lemma_quotient_bounds(self.num as int, self.den as int);
        }
        let n: u32 = if self.num <= 0 {
            0
        } else {
            let q: i64 = self.num / self.den;
            if q >= 0xffff_ffff {
                u32::MAX
            } else {
                q as u32
            }
        };
        assert(truncates_to(self.value(), n as int));
        n
    }
}

/// A fraction with a positive denominator lies on the same side of `k / 10`
/// as ten times its numerator lies of `k` times its denominator.
pub proof fn lemma_order_by_cross_product(num: int, den: int, k: int)
    requires
        den > 0,
    ensures
        ((num as real) / (den as real) > tenths(k)) <==> (10 * num > k * den),
        (tenths(k) > (num as real) / (den as real)) <==> (10 * num < k * den),
{
    assert(((num as real) / (den as real) > (k as real) / (10 as real)) <==> (10 * num > k * den))
        by (nonlinear_arith)
        requires
            den > 0,
    ;
    assert(((k as real) / (10 as real) > (num as real) / (den as real)) <==> (10 * num < k * den))
        by (nonlinear_arith)
        requires
            den > 0,
    ;
}

/// A positive fraction lies between its integer quotient and the next
/// integer, and a fraction that is not positive lies below one.
proof fn lemma_quotient_bounds(num: int, den: int)
    requires
        den > 0,
    ensures
        num <= 0 ==> (num as real) / (den as real) < (1 as real),
        num > 0 ==> ((num / den) as real) <= (num as real) / (den as real),
        num > 0 ==> (num as real) / (den as real) < ((num / den + 1) as real),
        num > 0 ==> 0 <= num / den <= num,
{
    let q = num / den;
    assert(num > 0 ==> q * den <= num < (q + 1) * den && 0 <= q <= num) by (nonlinear_arith)
        requires
            den > 0,
            q == num / den,
    ;
    assert(num <= 0 ==> (num as real) / (den as real) < (1 as real)) by (nonlinear_arith)
        requires
            den > 0,
    ;
    assert(q * den <= num ==> (q as real) <= (num as real) / (den as real)) by (nonlinear_arith)
        requires
            den > 0,
    ;
    assert(num < (q + 1) * den ==> (num as real) / (den as real) < ((q + 1) as real))
        by (nonlinear_arith)
        requires
            den > 0,
    ;
}

/// The product of two 64-bit values fits in 128 bits.
proof fn lemma_product_fits(a: int, b: int)
    requires
        i64::MIN <= a <= i64::MAX,
        i64::MIN <= b <= i64::MAX,
    ensures
        i128::MIN <= a * b <= i128::MAX,
{
    assert(-0x8000_0000_0000_0000 * 0x8000_0000_0000_0000 <= a * b
        <= 0x8000_0000_0000_0000 * 0x8000_0000_0000_0000) by (nonlinear_arith)
        requires
            -0x8000_0000_0000_0000 <= a <= 0x7fff_ffff_ffff_ffff,
            -0x8000_0000_0000_0000 <= b <= 0x7fff_ffff_ffff_ffff,
    ;
}

/// A position in board space: the coordinate system of the lattice, in which
/// the points of the board lie at the integer pairs from `(0, 0)` to `(6, 6)`.
#[derive(Clone, Copy, Debug)]
pub struct BoardCoord {
    pub x: Ratio,
    pub y: Ratio,
}

impl View for BoardCoord {
    type V = (real, real);

    open spec fn view(&self) -> (real, real) {
        (self.x.value(), self.y.value())
    }
}

/// The position that a coordinate stands for, where there is one.
pub open spec fn position_of(cursor: Option<BoardCoord>) -> Option<(real, real)> {
    match cursor {
        Some(point) => Some(point@),
        None => None,
    }
}

/// A pointer position in window pixels, measured from the bottom-left corner
/// of the window. Any subdivision of a pixel may serve as the unit, as long as
/// the window's extent is given in the same unit.
#[derive(Clone, Copy, Debug, PartialEq, Eq, Structural)]
pub struct PixelPos {
    pub x: i32,
    pub y: i32,
}

/// The extent of the window, in the unit of the pointer position.
#[derive(Clone, Copy, Debug, PartialEq, Eq, Structural)]
pub struct WindowSize {
    pub width: u32,
    pub height: u32,
}

/// Number of lattice points along one side of the board.
pub const POINTS_PER_SIDE: u32 = 7;

/// Where a pixel offset `p` along a window axis of length `extent` lies on
/// the board: the board spans seven units, is drawn at nine tenths of the
/// viewport, and is shifted by a margin of one tenth.
pub open spec fn board_axis(p: int, extent: int) -> real {
    ((p as real) / (extent as real)) * (POINTS_PER_SIDE as real) * tenths(9) - tenths(1)
}

/// The board-space position under a pointer, the inverse of the projection
/// that draws the board. A window without extent shows no board.
pub open spec fn board_position(p: PixelPos, window: WindowSize) -> Option<(real, real)> {
    if window.width > 0 && window.height > 0 {
        Some((board_axis(p.x as int, window.width as int), board_axis(p.y as int, window.height as int)))
    } else {
        None
    }
}

/// The fraction `(63 p - extent) / (10 extent)` is `board_axis(p, extent)`.
proof fn lemma_board_axis(p: int, extent: int)
    requires
        extent > 0,
    ensures
        ((63 * p - extent) as real) / ((10 * extent) as real) == board_axis(p, extent),
{
    let e = extent as real;
    let q = p as real;
    let nine_tenths = (9 as real) / (10 as real);
    let one_tenth = (1 as real) / (10 as real);
    assert(((63 as real) * q - e) / ((10 as real) * e) == (q / e) * (7 as real) * nine_tenths
        - one_tenth) by (nonlinear_arith)
        requires
            e > 0 as real,
            nine_tenths == (9 as real) / (10 as real),
            one_tenth == (1 as real) / (10 as real),
    ;
}

fn axis_ratio(p: i32, extent: u32) -> (r: Ratio)
    requires
        extent > 0,
    ensures
        r.value() == board_axis(p as int, extent as int),
{
    proof {
        lemma_board_axis(p as int, extent as int);
    }
    let num: i64 = 63 * (p as i64) - (extent as i64);
    let den: i64 = 10 * (extent as i64);
    Ratio { num, den }
}

/// Maps a pointer position in window pixels to board space.
pub fn locate_cursor(cursor_position: PixelPos, window: &WindowSize) -> (r: Option<BoardCoord>)
    ensures
        position_of(r) == board_position(cursor_position, *window),
{
    if window.width > 0 && window.height > 0 {
        let x = axis_ratio(cursor_position.x, window.width);
        let y = axis_ratio(cursor_position.y, window.height);
        Some(BoardCoord { x, y })
    } else {
        None
    }
}

impl From<BoardCoord> for Point {
    /// The lattice point whose coordinates are the integer parts of the
    /// position's.
    fn from(position: BoardCoord) -> (p: Point) {
        Point { x: position.x.truncate(), y: position.y.truncate() }
    }
}

impl vstd::std_specs::convert::FromSpecImpl<BoardCoord> for Point {
    open spec fn obeys_from_spec() -> bool {
        true
    }

    open spec fn from_spec(position: BoardCoord) -> Point {
        Point { x: truncated(position@.0), y: truncated(position@.1) }
    }
}

} // verus!
