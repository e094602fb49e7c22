//! Bezier curves of degree two and three, and their flattening into line segments.

use vstd::prelude::*;
use crate::fixed::{lemma_multiple_divides, lemma_product_bound, quotient, Fixed, LIMIT};
use crate::line::LineDescriptor;

verus! {

/// A quadratic Bezier curve: start point, one control point, end point.
#[derive(Clone, Copy, Debug, PartialEq, Eq, Structural)]
pub struct SquareCurve {
    pub p1x: Fixed,
    pub p1y: Fixed,
    pub c1x: Fixed,
    pub c1y: Fixed,
    pub p2x: Fixed,
    pub p2y: Fixed,
}

/// A cubic Bezier curve: start point, two control points, end point.
#[derive(Clone, Copy, Debug, PartialEq, Eq, Structural)]
pub struct CubeCurve {
    pub p1x: Fixed,
    pub p1y: Fixed,
    pub c1x: Fixed,
    pub c1y: Fixed,
    pub c2x: Fixed,
    pub c2y: Fixed,
    pub p2x: Fixed,
    pub p2y: Fixed,
}

/// One coordinate of a quadratic curve at the parameter `i / n`:
/// `(1-t)^2 start + 2 t (1-t) control + t^2 end`, over the common denominator `n^2`.
pub open spec fn quadratic_at(start: int, control: int, end: int, i: int, n: int) -> int {
    quotient((n - i) * (n - i) * start + 2 * (i * (n - i)) * control + i * i * end, n * n)
}

/// One coordinate of a cubic curve at the parameter `i / n`:
/// `(1-t)^3 start + 3 t (1-t)^2 first + 3 t^2 (1-t) second + t^3 end`, over the common
/// denominator `n^3`.
pub open spec fn cubic_at(start: int, first: int, second: int, end: int, i: int, n: int) -> int {
    quotient(
        (n - i) * (n - i) * (n - i) * start + 3 * (i * (n - i) * (n - i)) * first + 3 * (i * i * (n - i))
            * second + i * i * i * end,
        n * n * n,
    )
}

impl SquareCurve {
    /// The segment that approximates the curve between the parameters `i / n` and
    /// `(i + 1) / n`.
    pub open spec fn segment(self, i: int, n: int) -> LineDescriptor {
        LineDescriptor {
            p1x: Fixed::of(quadratic_at(self.p1x@, self.c1x@, self.p2x@, i, n)),
            p1y: Fixed::of(quadratic_at(self.p1y@, self.c1y@, self.p2y@, i, n)),
            p2x: Fixed::of(quadratic_at(self.p1x@, self.c1x@, self.p2x@, i + 1, n)),
            p2y: Fixed::of(quadratic_at(self.p1y@, self.c1y@, self.p2y@, i + 1, n)),
        }
    }

    /// The curve flattened into `n` segments.
    pub open spec fn segments(self, n: int) -> Seq<LineDescriptor> {
        Seq::new(n as nat, |i: int| self.segment(i, n))
    }

    /// All six coordinates lie within the saturation limits, as they do at run time.
    pub open spec fn in_range(self) -> bool {
        &&& self.p1x.in_range()
        &&& self.p1y.in_range()
        &&& self.c1x.in_range()
        &&& self.c1y.in_range()
        &&& self.p2x.in_range()
        &&& self.p2y.in_range()
    }

    /// Approximates the curve by `parts` segments at equal steps of the parameter.
    ///
    /// The segments join end to end, the first starts at the start point of the curve
    /// and the last ends at its end point. The count is a `u16` because every point is
    /// computed exactly over the common denominator `parts` squared in the 128 bits
    /// of the widest integer, and so that both kinds of curve take the same count; no
    /// count gives no segments.
    pub fn split_as_lines(&self, parts: u16) -> (lines: Vec<LineDescriptor>)
        ensures
            lines@ == self.segments(parts as int),
            lines@.len() == parts,
            forall|i: int|
                0 <= i < parts - 1 ==> (#[trigger] lines@[i]).p2x == lines@[i + 1].p1x
                    && lines@[i].p2y == lines@[i + 1].p1y,
            parts > 0 ==> lines@[0].p1x == self.p1x && lines@[0].p1y == self.p1y,
            parts > 0 ==> lines@[parts - 1].p2x == self.p2x && lines@[parts - 1].p2y == self.p2y,
    {
        let mut lines: Vec<LineDescriptor> = Vec::with_capacity(parts as usize);
        for index in 0..parts
            invariant
                lines@.len() == index,
                forall|i: int| 0 <= i < index ==> #[trigger] lines@[i] == self.segment(i, parts as int),
        {
            let line = LineDescriptor {
                p1x: quadratic_coordinate(self.p1x, self.c1x, self.p2x, index, parts),
                p1y: quadratic_coordinate(self.p1y, self.c1y, self.p2y, index, parts),
                p2x: quadratic_coordinate(self.p1x, self.c1x, self.p2x, index + 1, parts),
                p2y: quadratic_coordinate(self.p1y, self.c1y, self.p2y, index + 1, parts),
            };
            lines.push(line);
        }
        proof {
            if parts > 0 {
                use_type_invariant(self.p1x);
                use_type_invariant(self.p1y);
                use_type_invariant(self.c1x);
                use_type_invariant(self.c1y);
                use_type_invariant(self.p2x);
                use_type_invariant(self.p2y);
                lemma_quadratic_ends(*self, parts as int);
            }
        }
        lines
    }
}

impl CubeCurve {
    /// The segment that approximates the curve between the parameters `i / n` and
    /// `(i + 1) / n`.
    pub open spec fn segment(self, i: int, n: int) -> LineDescriptor {
        LineDescriptor {
            p1x: Fixed::of(cubic_at(self.p1x@, self.c1x@, self.c2x@, self.p2x@, i, n)),
            p1y: Fixed::of(cubic_at(self.p1y@, self.c1y@, self.c2y@, self.p2y@, i, n)),
            p2x: Fixed::of(cubic_at(self.p1x@, self.c1x@, self.c2x@, self.p2x@, i + 1, n)),
            p2y: Fixed::of(cubic_at(self.p1y@, self.c1y@, self.c2y@, self.p2y@, i + 1, n)),
        }
    }

    /// The curve flattened into `n` segments.
    pub open spec fn segments(self, n: int) -> Seq<LineDescriptor> {
        Seq::new(n as nat, |i: int| self.segment(i, n))
    }

    /// All eight coordinates lie within the saturation limits, as they do at run time.
    pub open spec fn in_range(self) -> bool {
        &&& self.p1x.in_range()
        &&& self.p1y.in_range()
        &&& self.c1x.in_range()
        &&& self.c1y.in_range()
        &&& self.c2x.in_range()
        &&& self.c2y.in_range()
        &&& self.p2x.in_range()
        &&& self.p2y.in_range()
    }

    /// Approximates the curve by `parts` segments at equal steps of the parameter.
    ///
    /// The segments join end to end, the first starts at the start point of the curve
    /// and the last ends at its end point. The count is a `u16` because every point is
    /// computed exactly over the common denominator, and the sums of a cubic curve
    /// over `parts` cubed fit the 128 bits of the widest integer only up to that
    /// count; no count gives no segments.
    pub fn split_as_lines(&self, parts: u16) -> (lines: Vec<LineDescriptor>)
        ensures
            lines@ == self.segments(parts as int),
            lines@.len() == parts,
            forall|i: int|
                0 <= i < parts - 1 ==> (#[trigger] lines@[i]).p2x == lines@[i + 1].p1x
                    && lines@[i].p2y == lines@[i + 1].p1y,
            parts > 0 ==> lines@[0].p1x == self.p1x && lines@[0].p1y == self.p1y,
            parts > 0 ==> lines@[parts - 1].p2x == self.p2x && lines@[parts - 1].p2y == self.p2y,
    {
        let mut lines: Vec<LineDescriptor> = Vec::with_capacity(parts as usize);
        for index in 0..parts
            invariant
                lines@.len() == index,
                forall|i: int| 0 <= i < index ==> #[trigger] lines@[i] == self.segment(i, parts as int),
        {
            let line = LineDescriptor {
                p1x: cubic_coordinate(self.p1x, self.c1x, self.c2x, self.p2x, index, parts),
                p1y: cubic_coordinate(self.p1y, self.c1y, self.c2y, self.p2y, index, parts),
                p2x: cubic_coordinate(self.p1x, self.c1x, self.c2x, self.p2x, index + 1, parts),
                p2y: cubic_coordinate(self.p1y, self.c1y, self.c2y, self.p2y, index + 1, parts),
            };
            lines.push(line);
        }
        proof {
            if parts > 0 {
                use_type_invariant(self.p1x);
                use_type_invariant(self.p1y);
                use_type_invariant(self.c1x);
                use_type_invariant(self.c1y);
                use_type_invariant(self.c2x);
                use_type_invariant(self.c2y);
                use_type_invariant(self.p2x);
                use_type_invariant(self.p2y);
                lemma_cubic_ends(*self, parts as int);
            }
        }
        lines
    }
}

/// One coordinate of a cubic curve at the parameter `i / n`.
fn cubic_coordinate(start: Fixed, first: Fixed, second: Fixed, end: Fixed, i: u16, n: u16) -> (r: Fixed)
    requires
        i <= n,
    ensures
        r == Fixed::of(cubic_at(start@, first@, second@, end@, i as int, n as int)),
{
    let a: i128 = (n - i) as i128;
    let b: i128 = i as i128;
    let m: i128 = n as i128;
    let x1: i128 = start.wide();
    let xc: i128 = first.wide();
    let xd: i128 = second.wide();
    let x2: i128 = end.wide();
    proof {
        let k: int = 0xffff;
        lemma_product_bound(a as int, a as int, k, k);
        lemma_product_bound(b as int, a as int, k, k);
        lemma_product_bound(b as int, b as int, k, k);
        lemma_product_bound(m as int, m as int, k, k);
        lemma_product_bound(a * a, a as int, k * k, k);
        lemma_product_bound(b * a, a as int, k * k, k);
        lemma_product_bound(b * b, a as int, k * k, k);
        lemma_product_bound(b * b, b as int, k * k, k);
        lemma_product_bound(m * m, m as int, k * k, k);
        lemma_product_bound(a * a * a, x1 as int, k * k * k, LIMIT as int);
        lemma_product_bound(3 * (b * a * a), xc as int, 3 * (k * k * k), LIMIT as int);
        lemma_product_bound(3 * (b * b * a), xd as int, 3 * (k * k * k), LIMIT as int);
        lemma_product_bound(b * b * b, x2 as int, k * k * k, LIMIT as int);
    }
    Fixed::ratio(
        a * a * a * x1 + 3 * (b * a * a) * xc + 3 * (b * b * a) * xd + b * b * b * x2,
        m * m * m,
    )
}

/// One coordinate of a quadratic curve at the parameter `i / n`.
fn quadratic_coordinate(start: Fixed, control: Fixed, end: Fixed, i: u16, n: u16) -> (r: Fixed)
    requires
        i <= n,
    ensures
        r == Fixed::of(quadratic_at(start@, control@, end@, i as int, n as int)),
{
    let a: i128 = (n - i) as i128;
    let b: i128 = i as i128;
    let m: i128 = n as i128;
    let x1: i128 = start.wide();
    let xc: i128 = control.wide();
    let x2: i128 = end.wide();
    proof {
        let k: int = 0xffff;
        lemma_product_bound(a as int, a as int, k, k);
        lemma_product_bound(b as int, a as int, k, k);
        lemma_product_bound(b as int, b as int, k, k);
        lemma_product_bound(m as int, m as int, k, k);
        lemma_product_bound(a * a, x1 as int, k * k, LIMIT as int);
        lemma_product_bound(2 * (b * a), xc as int, 2 * (k * k), LIMIT as int);
        lemma_product_bound(b * b, x2 as int, k * k, LIMIT as int);
    }
    Fixed::ratio(a * a * x1 + 2 * (b * a) * xc + b * b * x2, m * m)
}

/// A flattened quadratic curve starts at the start point of the curve and ends at its
/// end point, whatever the number of segments.
pub proof fn lemma_quadratic_ends(curve: SquareCurve, n: int)
    requires
        n > 0,
        curve.in_range(),
    ensures
        curve.segment(0, n).p1x == curve.p1x,
        curve.segment(0, n).p1y == curve.p1y,
        curve.segment(n - 1, n).p2x == curve.p2x,
        curve.segment(n - 1, n).p2y == curve.p2y,
{
    broadcast use Fixed::lemma_of_own_view;

    lemma_quadratic_boundary(curve.p1x@, curve.c1x@, curve.p2x@, n);
    lemma_quadratic_boundary(curve.p1y@, curve.c1y@, curve.p2y@, n);
}

/// The quadratic Bernstein basis gives the first point at the parameter zero and the last
/// point at the parameter one.
pub proof fn lemma_quadratic_boundary(start: int, control: int, end: int, n: int)
    requires
        n > 0,
        -LIMIT <= start <= LIMIT,
        -LIMIT <= end <= LIMIT,
    ensures
        quadratic_at(start, control, end, 0, n) == start,
        quadratic_at(start, control, end, n, n) == end,
{
    let d = n * n;
    assert(d > 0) by (nonlinear_arith)
        requires
            d == n * n,
            n > 0,
    ;
    assert((n - 0) * (n - 0) * start + 2 * (0 * (n - 0)) * control + 0 * 0 * end == d * start) by (nonlinear_arith)
        requires
            d == n * n,
    ;
    assert((n - n) * (n - n) * start + 2 * (n * (n - n)) * control + n * n * end == d * end) by (nonlinear_arith)
        requires
            d == n * n,
    ;
    lemma_multiple_divides(start, d);
    lemma_multiple_divides(end, d);
}

/// A flattened cubic curve starts at the start point of the curve and ends at its end
/// point, whatever the number of segments.
pub proof fn lemma_cubic_ends(curve: CubeCurve, n: int)
    requires
        n > 0,
        curve.in_range(),
    ensures
        curve.segment(0, n).p1x == curve.p1x,
        curve.segment(0, n).p1y == curve.p1y,
        curve.segment(n - 1, n).p2x == curve.p2x,
        curve.segment(n - 1, n).p2y == curve.p2y,
{
    broadcast use Fixed::lemma_of_own_view;

    lemma_cubic_boundary(curve.p1x@, curve.c1x@, curve.c2x@, curve.p2x@, n);
    lemma_cubic_boundary(curve.p1y@, curve.c1y@, curve.c2y@, curve.p2y@, n);
}

/// The cubic Bernstein basis gives the first point at the parameter zero and the last
/// point at the parameter one.
pub proof fn lemma_cubic_boundary(start: int, first: int, second: int, end: int, n: int)
    requires
        n > 0,
        -LIMIT <= start <= LIMIT,
        -LIMIT <= end <= LIMIT,
    ensures
        cubic_at(start, first, second, end, 0, n) == start,
        cubic_at(start, first, second, end, n, n) == end,
{
    let d = n * n * n;
    assert(d > 0) by (nonlinear_arith)
        requires
            d == n * n * n,
            n > 0,
    ;
    assert((n - 0) * (n - 0) * (n - 0) * start + 3 * (0 * (n - 0) * (n - 0)) * first + 3 * (0 * 0 * (n
        - 0)) * second + 0 * 0 * 0 * end == d * start) by (nonlinear_arith)
        requires
            d == n * n * n,
    ;
    assert((n - n) * (n - n) * (n - n) * start + 3 * (n * (n - n) * (n - n)) * first + 3 * (n * n * (n
        - n)) * second + n * n * n * end == d * end) by (nonlinear_arith)
        requires
            d == n * n * n,
    ;
    lemma_multiple_divides(start, d);
    lemma_multiple_divides(end, d);
}

} // verus!
