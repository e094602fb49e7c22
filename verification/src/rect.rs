//! The placement algebra: boxes by centre and half-extent, boxes by corners, and the
//! aspect-preserving fit of one into the other.

use vstd::prelude::*;
use crate::fixed::{
    lemma_floor_bounds, lemma_multiple_divides, lemma_product_bound, quotient, sat, Fixed, LIMIT, ONE,
};

verus! {

/// The magnitude of an integer.
pub open spec fn magnitude(v: int) -> int {
    if v < 0 {
        -v
    } else {
        v
    }
}

/// An axis-aligned box given by its half-width, half-height and centre.
#[derive(Clone, Copy, Debug, PartialEq, Eq, Structural)]
pub struct SizeAndCenter {
    pub sx: Fixed,
    pub sy: Fixed,
    pub cx: Fixed,
    pub cy: Fixed,
}

/// An axis-aligned box given by its top-left corner `(p1x, p1y)` and its bottom-right
/// corner `(p2x, p2y)`,
/// with the y axis pointing up.
#[derive(Clone, Copy, Debug, PartialEq, Eq, Structural)]
pub struct Points {
    pub p1x: Fixed,
    pub p1y: Fixed,
    pub p2x: Fixed,
    pub p2y: Fixed,
}

/// A request for the largest box of a given aspect ratio inside a placement area.
///
/// `centerx` and `centery` anchor the box: zero centres it, plus or minus one pushes it
/// flush against an edge. `resx` and `resy` are the surface size in pixels, and `aspect`
/// is the width of the content over its height.
#[derive(Clone, Copy, Debug)]
pub struct FillAspect {
    pub placement_area: SizeAndCenter,
    pub centerx: Fixed,
    pub centery: Fixed,
    pub resx: u32,
    pub resy: u32,
    pub aspect: Fixed,
}

/// A coloured rectangle: where it goes and its red, green, blue and alpha.
#[derive(Clone, Copy, Debug)]
pub struct RectDescriptor {
    pub sizing: SizeAndCenter,
    pub r: Fixed,
    pub g: Fixed,
    pub b: Fixed,
    pub a: Fixed,
}

/// A rectangle as the rectangle renderer takes it: scale, translation, colour.
#[derive(Clone, Copy, Debug)]
pub struct RectRaw {
    pub scale: [Fixed; 2],
    pub translation: [Fixed; 2],
    pub color: [Fixed; 4],
}

/// The box with the corners `points`: midpoint and half the corner distances, rounded down.
pub open spec fn box_from_points(points: Points) -> SizeAndCenter {
    SizeAndCenter {
        sx: Fixed::quot(points.p2x@ - points.p1x@, 2),
        sy: Fixed::quot(points.p1y@ - points.p2y@, 2),
        cx: Fixed::quot(points.p1x@ + points.p2x@, 2),
        cy: Fixed::quot(points.p1y@ + points.p2y@, 2),
    }
}

/// The corners of `area`: centre minus and plus the half-extents.
pub open spec fn points_from_box(area: SizeAndCenter) -> Points {
    Points {
        p1x: Fixed::clamped(area.cx@ - area.sx@),
        p1y: Fixed::clamped(area.cy@ + area.sy@),
        p2x: Fixed::clamped(area.cx@ + area.sx@),
        p2y: Fixed::clamped(area.cy@ - area.sy@),
    }
}

/// The half-extent that is left of `half` once the box is anchored at `anchor`:
/// `half * (1 - |anchor|)`.
pub open spec fn usable_half_extent(half: int, anchor: int) -> int {
    quotient(half * (ONE - magnitude(anchor)), ONE as int)
}

/// Where `x` lands when the interval that starts at `lo` and is `extent` long is carried
/// onto the interval of half-length `half` around `center`:
/// `center + (2 * (x - lo) - extent) * half / extent`.
pub open spec fn fit_coordinate(x: int, lo: int, extent: int, half: int, center: int) -> int {
    sat(center + quotient((2 * (x - lo) - extent) * half, extent))
}

/// The largest box with the requested aspect ratio inside the placement area.
///
/// The usable area is wider than the content when
/// `(cax * resx) / (cay * resy) > aspect`; the comparison is made on the cross products,
/// so that it is exact and a usable height of zero counts as an infinite ratio.
/// The box then takes the usable height and the width `cay * aspect * resy / resx`;
/// otherwise it takes the usable width and the height `cax * resx / (aspect * resy)`.
pub open spec fn box_from_fill_aspect(fill: FillAspect) -> SizeAndCenter {
    let area = fill.placement_area;
    let cax = usable_half_extent(area.sx@, fill.centerx@);
    let cay = usable_half_extent(area.sy@, fill.centery@);
    let cx = Fixed::quot(area.cx@ * ONE + area.sx@ * fill.centerx@, ONE as int);
    let cy = Fixed::quot(area.cy@ * ONE + area.sy@ * fill.centery@, ONE as int);
    if fill.is_height_limited() {
        SizeAndCenter {
            sx: Fixed::quot(cay * fill.aspect@ * fill.resy, ONE * fill.resx),
            sy: Fixed::of(cay),
            cx,
            cy,
        }
    } else {
        SizeAndCenter {
            sx: Fixed::of(cax),
            sy: Fixed::quot(cax * ONE * fill.resx, fill.aspect@ * fill.resy),
            cx,
            cy,
        }
    }
}

impl FillAspect {
    /// Whether the height of the usable area is what limits the fitted box.
    pub open spec fn is_height_limited(self) -> bool {
        let cax = usable_half_extent(self.placement_area.sx@, self.centerx@);
        let cay = usable_half_extent(self.placement_area.sy@, self.centery@);
        cax * self.resx * ONE > self.aspect@ * cay * self.resy
    }
}

impl SizeAndCenter {
    /// Half-extents are not negative.
    pub open spec fn is_valid(self) -> bool {
        self.sx@ >= 0 && self.sy@ >= 0
    }

    /// All four numbers lie within the saturation limits, as they do at run time.
    pub open spec fn in_range(self) -> bool {
        self.sx.in_range() && self.sy.in_range() && self.cx.in_range() && self.cy.in_range()
    }

    /// Whether `inner` lies within this box, edges included.
    pub open spec fn encloses(self, inner: SizeAndCenter) -> bool {
        &&& self.cx@ - self.sx@ <= inner.cx@ - inner.sx@
        &&& inner.cx@ + inner.sx@ <= self.cx@ + self.sx@
        &&& self.cy@ - self.sy@ <= inner.cy@ - inner.sy@
        &&& inner.cy@ + inner.sy@ <= self.cy@ + self.sy@
    }

    /// The four corner coordinates are representable without saturation.
    pub open spec fn corners_in_range(self) -> bool {
        &&& -LIMIT <= self.cx@ - self.sx@ <= LIMIT
        &&& -LIMIT <= self.cx@ + self.sx@ <= LIMIT
        &&& -LIMIT <= self.cy@ - self.sy@ <= LIMIT
        &&& -LIMIT <= self.cy@ + self.sy@ <= LIMIT
    }

    /// This box with its half-extents multiplied by `sx` and `sy`.
    pub open spec fn spec_scaled(self, sx: Fixed, sy: Fixed) -> SizeAndCenter {
        SizeAndCenter {
            sx: Fixed::quot(self.sx@ * sx@, ONE as int),
            sy: Fixed::quot(self.sy@ * sy@, ONE as int),
            cx: self.cx,
            cy: self.cy,
        }
    }

    /// This box with its half-extents reduced by `inset_x` and `inset_y`.
    pub open spec fn spec_symmetrically_inset(self, inset_x: Fixed, inset_y: Fixed) -> SizeAndCenter {
        SizeAndCenter {
            sx: Fixed::clamped(self.sx@ - inset_x@),
            sy: Fixed::clamped(self.sy@ - inset_y@),
            cx: self.cx,
            cy: self.cy,
        }
    }

    /// `other`, read as fractions of this box, in the frame this box lives in.
    pub open spec fn spec_get_relative(self, other: SizeAndCenter) -> SizeAndCenter {
        SizeAndCenter {
            sx: Fixed::quot(self.sx@ * other.sx@, ONE as int),
            sy: Fixed::quot(self.sy@ * other.sy@, ONE as int),
            cx: Fixed::quot(self.cx@ * ONE + self.sx@ * other.cx@, ONE as int),
            cy: Fixed::quot(self.cy@ * ONE + self.sy@ * other.cy@, ONE as int),
        }
    }

    /// The box that spans the whole unit frame: half-extents one, centred at the origin.
    pub fn full() -> (r: SizeAndCenter)
        ensures
            r == (SizeAndCenter {
                sx: Fixed::of(ONE as int),
                sy: Fixed::of(ONE as int),
                cx: Fixed::of(0),
                cy: Fixed::of(0),
            }),
            r.sx@ == ONE,
            r.sy@ == ONE,
            r.cx@ == 0,
            r.cy@ == 0,
    {
        SizeAndCenter { sx: Fixed::one(), sy: Fixed::one(), cx: Fixed::zero(), cy: Fixed::zero() }
    }

    /// The empty box at the origin.
    pub fn zero() -> (r: SizeAndCenter)
        ensures
            r == (SizeAndCenter { sx: Fixed::of(0), sy: Fixed::of(0), cx: Fixed::of(0), cy: Fixed::of(0) }),
            r.sx@ == 0,
            r.sy@ == 0,
            r.cx@ == 0,
            r.cy@ == 0,
    {
        SizeAndCenter { sx: Fixed::zero(), sy: Fixed::zero(), cx: Fixed::zero(), cy: Fixed::zero() }
    }

    /// Multiplies the half-extents by `sx` and `sy` and keeps the centre.
    pub fn scaled(self, sx: Fixed, sy: Fixed) -> (r: SizeAndCenter)
        ensures
            r == self.spec_scaled(sx, sy),
    {
        SizeAndCenter {
            sx: scaled_length(self.sx, sx),
            sy: scaled_length(self.sy, sy),
            cx: self.cx,
            cy: self.cy,
        }
    }

    /// Reduces the half-extents by `inset_x` and `inset_y` and keeps the centre.
    pub fn symmetrically_inset(self, inset_x: Fixed, inset_y: Fixed) -> (r: SizeAndCenter)
        ensures
            r == self.spec_symmetrically_inset(inset_x, inset_y),
    {
        SizeAndCenter {
            sx: Fixed::saturate(self.sx.wide() - inset_x.wide()),
            sy: Fixed::saturate(self.sy.wide() - inset_y.wide()),
            cx: self.cx,
            cy: self.cy,
        }
    }

    /// Places `other`, given as fractions of this box, into the frame of this box.
    pub fn get_relative(self, other: SizeAndCenter) -> (r: SizeAndCenter)
        ensures
            r == self.spec_get_relative(other),
    {
        SizeAndCenter {
            sx: scaled_length(self.sx, other.sx),
            sy: scaled_length(self.sy, other.sy),
            cx: offset_by_fraction(self.cx, self.sx, other.cx),
            cy: offset_by_fraction(self.cy, self.sy, other.cy),
        }
    }
}

/// The product `a * b` of two grid numbers.
fn scaled_length(a: Fixed, b: Fixed) -> (r: Fixed)
    ensures
        r == Fixed::quot(a@ * b@, ONE as int),
{
    let x: i128 = a.wide();
    let y: i128 = b.wide();
    proof {
        lemma_product_bound(x as int, y as int, LIMIT as int, LIMIT as int);
    }
    Fixed::ratio(x * y, ONE as i128)
}

/// The position `base + extent * fraction`.
fn offset_by_fraction(base: Fixed, extent: Fixed, fraction: Fixed) -> (r: Fixed)
    ensures
        r == Fixed::quot(base@ * ONE + extent@ * fraction@, ONE as int),
{
    let b: i128 = base.wide();
    let x: i128 = extent.wide();
    let y: i128 = fraction.wide();
    proof {
        lemma_product_bound(x as int, y as int, LIMIT as int, LIMIT as int);
        lemma_product_bound(b as int, ONE as int, LIMIT as int, 65536);
    }
    Fixed::ratio(b * (ONE as i128) + x * y, ONE as i128)
}

/// The half of `v`, rounded down.
fn halved(v: i128) -> (r: Fixed)
    requires
        -4 * LIMIT <= v <= 4 * LIMIT,
    ensures
        r == Fixed::quot(v as int, 2),
{
    Fixed::ratio(v, 2)
}

impl From<Points> for SizeAndCenter {
    /// The box with the given corners.
    fn from(points: Points) -> (r: SizeAndCenter) {
        SizeAndCenter {
            sx: halved(points.p2x.wide() - points.p1x.wide()),
            sy: halved(points.p1y.wide() - points.p2y.wide()),
            cx: halved(points.p1x.wide() + points.p2x.wide()),
            cy: halved(points.p1y.wide() + points.p2y.wide()),
        }
    }
}

impl vstd::std_specs::convert::FromSpecImpl<Points> for SizeAndCenter {
    open spec fn obeys_from_spec() -> bool {
        true
    }

    open spec fn from_spec(points: Points) -> SizeAndCenter {
        box_from_points(points)
    }
}

impl From<SizeAndCenter> for Points {
    /// The corners of the given box.
    fn from(size_and_center: SizeAndCenter) -> (r: Points) {
        let sx: i128 = size_and_center.sx.wide();
        let sy: i128 = size_and_center.sy.wide();
        let cx: i128 = size_and_center.cx.wide();
        let cy: i128 = size_and_center.cy.wide();
        Points {
            p1x: Fixed::saturate(cx - sx),
            p1y: Fixed::saturate(cy + sy),
            p2x: Fixed::saturate(cx + sx),
            p2y: Fixed::saturate(cy - sy),
        }
    }
}

impl vstd::std_specs::convert::FromSpecImpl<SizeAndCenter> for Points {
    open spec fn obeys_from_spec() -> bool {
        true
    }

    open spec fn from_spec(size_and_center: SizeAndCenter) -> Points {
        points_from_box(size_and_center)
    }
}

/// Carries `x` from the interval that starts at `lo` and is `extent` long onto the
/// interval of half-length `half` around `center`.
pub(crate) fn fit(x: Fixed, lo: Fixed, extent: i128, half: Fixed, center: Fixed) -> (r: Fixed)
    requires
        -2 * LIMIT <= extent <= 2 * LIMIT,
    ensures
        r@ == fit_coordinate(x@, lo@, extent as int, half@, center@),
        r == Fixed::of(fit_coordinate(x@, lo@, extent as int, half@, center@)),
{
    let distance: i128 = 2 * (x.wide() - lo.wide()) - extent;
    let h: i128 = half.wide();
    proof {
        lemma_product_bound(distance as int, h as int, 6 * LIMIT, LIMIT as int);
    }
    let moved = Fixed::ratio(distance * h, extent);
    Fixed::saturate(center.wide() + moved.wide())
}

/// The half-extent `half * (1 - |anchor|)` that anchoring leaves usable.
fn usable_extent(half: Fixed, anchor: Fixed) -> (r: Fixed)
    ensures
        r@ == usable_half_extent(half@, anchor@),
        r == Fixed::of(usable_half_extent(half@, anchor@)),
{
    let h: i128 = half.wide();
    let a: i128 = anchor.wide();
    let m: i128 = if a < 0 {
        -a
    } else {
        a
    };
    let rest: i128 = (ONE as i128) - m;
    proof {
        lemma_product_bound(h as int, rest as int, LIMIT as int, LIMIT as int);
    }
    Fixed::ratio(h * rest, ONE as i128)
}

impl From<FillAspect> for SizeAndCenter {
    /// The largest box with the requested aspect ratio inside the placement area.
    fn from(fill_aspect: FillAspect) -> (r: SizeAndCenter) {
        let area = fill_aspect.placement_area;
        let usable_x = usable_extent(area.sx, fill_aspect.centerx);
        let usable_y = usable_extent(area.sy, fill_aspect.centery);
        let cax: i128 = usable_x.wide();
        let cay: i128 = usable_y.wide();
        let resx: i128 = fill_aspect.resx as i128;
        let resy: i128 = fill_aspect.resy as i128;
        let aspect: i128 = fill_aspect.aspect.wide();
        let one: i128 = ONE as i128;
        proof {
            let res: int = 0x1_0000_0000;
            lemma_product_bound(cax as int, resx as int, LIMIT as int, res);
            lemma_product_bound(cax * resx, one as int, LIMIT * res, 65536);
            lemma_product_bound(cax as int, one as int, LIMIT as int, 65536);
            lemma_product_bound(cax * one, resx as int, LIMIT * 65536, res);
            lemma_product_bound(aspect as int, cay as int, LIMIT as int, LIMIT as int);
            lemma_product_bound(aspect * cay, resy as int, LIMIT * LIMIT, res);
            lemma_product_bound(cay as int, aspect as int, LIMIT as int, LIMIT as int);
            lemma_product_bound(cay * aspect, resy as int, LIMIT * LIMIT, res);
            lemma_product_bound(aspect as int, resy as int, LIMIT as int, res);
            lemma_product_bound(one as int, resx as int, 65536, res);
        }
        let cx = offset_by_fraction(area.cx, area.sx, fill_aspect.centerx);
        let cy = offset_by_fraction(area.cy, area.sy, fill_aspect.centery);
        if cax * resx * one > aspect * cay * resy {
            SizeAndCenter {
                sx: Fixed::ratio(cay * aspect * resy, one * resx),
                sy: usable_y,
                cx,
                cy,
            }
        } else {
            SizeAndCenter {
                sx: usable_x,
                sy: Fixed::ratio(cax * one * resx, aspect * resy),
                cx,
                cy,
            }
        }
    }
}

impl vstd::std_specs::convert::FromSpecImpl<FillAspect> for SizeAndCenter {
    open spec fn obeys_from_spec() -> bool {
        true
    }

    open spec fn from_spec(fill_aspect: FillAspect) -> SizeAndCenter {
        box_from_fill_aspect(fill_aspect)
    }
}

impl From<FillAspect> for Points {
    /// The corners of the largest box with the requested aspect ratio inside the
    /// placement area.
    fn from(fill_aspect: FillAspect) -> (r: Points) {
        let size_and_center: SizeAndCenter = SizeAndCenter::from(fill_aspect);
        Points::from(size_and_center)
    }
}

impl vstd::std_specs::convert::FromSpecImpl<FillAspect> for Points {
    open spec fn obeys_from_spec() -> bool {
        true
    }

    open spec fn from_spec(fill_aspect: FillAspect) -> Points {
        points_from_box(box_from_fill_aspect(fill_aspect))
    }
}

impl Points {
    /// Whether the point lies in the box, edges included.
    pub open spec fn spec_contains(self, x: Fixed, y: Fixed) -> bool {
        self.p1x@ <= x@ <= self.p2x@ && self.p2y@ <= y@ <= self.p1y@
    }

    /// Whether the point lies in the box and not right of its horizontal midpoint.
    pub open spec fn spec_left_contains(self, x: Fixed, y: Fixed) -> bool {
        self.spec_contains(x, y) && 2 * x@ <= self.p1x@ + self.p2x@
    }

    /// Whether the point lies in the box and not left of its horizontal midpoint.
    pub open spec fn spec_right_contains(self, x: Fixed, y: Fixed) -> bool {
        self.spec_contains(x, y) && 2 * x@ >= self.p1x@ + self.p2x@
    }

    /// The box with these corners, scaled by the half-extents of `target` and moved by
    /// its centre.
    pub open spec fn spec_into_target(self, target: SizeAndCenter) -> SizeAndCenter {
        SizeAndCenter {
            sx: Fixed::quot((self.p2x@ - self.p1x@) * target.sx@, 2 * ONE),
            sy: Fixed::quot((self.p1y@ - self.p2y@) * target.sy@, 2 * ONE),
            cx: Fixed::quot(self.p1x@ + self.p2x@ + 2 * target.cx@, 2),
            cy: Fixed::quot(self.p1y@ + self.p2y@ + 2 * target.cy@, 2),
        }
    }

    /// The empty box at the origin.
    pub fn zero() -> (r: Points)
        ensures
            r == (Points { p1x: Fixed::of(0), p1y: Fixed::of(0), p2x: Fixed::of(0), p2y: Fixed::of(0) }),
            r.p1x@ == 0,
            r.p1y@ == 0,
            r.p2x@ == 0,
            r.p2y@ == 0,
    {
        Points { p1x: Fixed::zero(), p1y: Fixed::zero(), p2x: Fixed::zero(), p2y: Fixed::zero() }
    }

    /// Tests whether the point `(x, y)` lies in the box, edges included.
    pub fn contains(&self, x: Fixed, y: Fixed) -> (r: bool)
        ensures
            r == self.spec_contains(x, y),
    {
        x.raw() >= self.p1x.raw() && x.raw() <= self.p2x.raw() && y.raw() <= self.p1y.raw()
            && y.raw() >= self.p2y.raw()
    }

    /// Tests whether the point `(x, y)` lies in the left half of the box, the midpoint
    /// included.
    pub fn left_contains(&self, x: Fixed, y: Fixed) -> (r: bool)
        ensures
            r == self.spec_left_contains(x, y),
    {
        self.contains(x, y) && 2 * x.wide() <= self.p1x.wide() + self.p2x.wide()
    }

    /// Tests whether the point `(x, y)` lies in the right half of the box, the midpoint
    /// included.
    pub fn right_contains(&self, x: Fixed, y: Fixed) -> (r: bool)
        ensures
            r == self.spec_right_contains(x, y),
    {
        self.contains(x, y) && 2 * x.wide() >= self.p1x.wide() + self.p2x.wide()
    }

    /// Scales the box by the half-extents of `target` and moves it by the centre of
    /// `target`.
    pub fn into_target(self, target: SizeAndCenter) -> (r: SizeAndCenter)
        ensures
            r == self.spec_into_target(target),
    {
        let width: i128 = self.p2x.wide() - self.p1x.wide();
        let height: i128 = self.p1y.wide() - self.p2y.wide();
        let tsx: i128 = target.sx.wide();
        let tsy: i128 = target.sy.wide();
        proof {
            lemma_product_bound(width as int, tsx as int, 2 * LIMIT, LIMIT as int);
            lemma_product_bound(height as int, tsy as int, 2 * LIMIT, LIMIT as int);
        }
        SizeAndCenter {
            sx: Fixed::ratio(width * tsx, 2 * (ONE as i128)),
            sy: Fixed::ratio(height * tsy, 2 * (ONE as i128)),
            cx: halved(self.p1x.wide() + self.p2x.wide() + 2 * target.cx.wide()),
            cy: halved(self.p1y.wide() + self.p2y.wide() + 2 * target.cy.wide()),
        }
    }
}

impl RectRaw {
    /// The record of the rectangle `sizing` in the colour `color`.
    pub open spec fn spec_new(sizing: SizeAndCenter, color: (Fixed, Fixed, Fixed, Fixed)) -> RectRaw {
        RectRaw {
            scale: [sizing.sx, sizing.sy],
            translation: [sizing.cx, sizing.cy],
            color: [color.0, color.1, color.2, color.3],
        }
    }

    /// The rectangle that a record stands for.
    pub open spec fn sizing(self) -> SizeAndCenter {
        SizeAndCenter {
            sx: self.scale@[0],
            sy: self.scale@[1],
            cx: self.translation@[0],
            cy: self.translation@[1],
        }
    }

    /// Builds the record of the rectangle `sizing` in the colour `color`, given as red,
    /// green, blue and alpha.
    pub fn new(sizing: SizeAndCenter, color: (Fixed, Fixed, Fixed, Fixed)) -> (r: RectRaw)
        ensures
            r == RectRaw::spec_new(sizing, color),
            r.sizing() == sizing,
            r.color@ == seq![color.0, color.1, color.2, color.3],
    {
        RectRaw {
            scale: [sizing.sx, sizing.sy],
            translation: [sizing.cx, sizing.cy],
            color: [color.0, color.1, color.2, color.3],
        }
    }
}

impl From<RectDescriptor> for RectRaw {
    /// The flat record of a described rectangle.
    fn from(descriptor: RectDescriptor) -> (r: RectRaw) {
        RectRaw::new(descriptor.sizing, (descriptor.r, descriptor.g, descriptor.b, descriptor.a))
    }
}

impl vstd::std_specs::convert::FromSpecImpl<RectDescriptor> for RectRaw {
    open spec fn obeys_from_spec() -> bool {
        true
    }

    open spec fn from_spec(descriptor: RectDescriptor) -> RectRaw {
        RectRaw::spec_new(descriptor.sizing, (descriptor.r, descriptor.g, descriptor.b, descriptor.a))
    }
}

/// A fit carries the start of the source interval onto the low end of the target
/// interval and its end onto the high end.
pub proof fn lemma_fit_ends(lo: int, extent: int, half: int, center: int)
    requires
        extent > 0,
        -LIMIT <= half <= LIMIT,
    ensures
        fit_coordinate(lo, lo, extent, half, center) == sat(center - half),
        fit_coordinate(lo + extent, lo, extent, half, center) == sat(center + half),
{
    lemma_multiple_divides(half, extent);
    lemma_multiple_divides(-half, extent);
    assert((2 * (lo - lo) - extent) * half == (-half) * extent) by (nonlinear_arith);
}

/// A fit keeps the order of coordinates.
pub proof fn lemma_fit_monotone(x: int, y: int, lo: int, extent: int, half: int, center: int)
    requires
        extent > 0,
        half >= 0,
        x <= y,
    ensures
        fit_coordinate(x, lo, extent, half, center) <= fit_coordinate(y, lo, extent, half, center),
{
    assert((2 * (x - lo) - extent) * half <= (2 * (y - lo) - extent) * half) by (nonlinear_arith)
        requires
            x <= y,
            half >= 0,
    ;
    crate::fixed::lemma_floor_monotone(
        (2 * (x - lo) - extent) * half,
        (2 * (y - lo) - extent) * half,
        extent,
    );
}

/// A fit carries every coordinate of the source interval into the target interval.
pub proof fn lemma_fit_within(x: int, lo: int, extent: int, half: int, center: int)
    requires
        extent > 0,
        0 <= half <= LIMIT,
        lo <= x <= lo + extent,
    ensures
        sat(center - half) <= fit_coordinate(x, lo, extent, half, center) <= sat(center + half),
{
    lemma_fit_ends(lo, extent, half, center);
    lemma_fit_monotone(lo, x, lo, extent, half, center);
    lemma_fit_monotone(x, lo + extent, lo, extent, half, center);
}

/// Turning a box into its corners and back gives the same box, as long as the corners
/// are representable.
pub proof fn lemma_box_points_round_trip(area: SizeAndCenter)
    requires
        area.in_range(),
        area.corners_in_range(),
    ensures
        box_from_points(points_from_box(area)) == area,
{
    broadcast use Fixed::lemma_of_view, Fixed::lemma_of_own_view;

    lemma_multiple_divides(area.sx@, 2);
    lemma_multiple_divides(area.sy@, 2);
    lemma_multiple_divides(area.cx@, 2);
    lemma_multiple_divides(area.cy@, 2);
}

/// A centred fit stays inside its placement area, touches it in the limiting dimension,
/// and has the requested aspect ratio up to the one rounding step of the free dimension.
///
/// With `w` and `h` the fitted half-extents, the aspect ratio of the fitted box on the
/// surface is `(w * resx) / (h * resy)`; the last two clauses bound how far
/// `w * resx` is from `aspect * h * resy`, both scaled by `ONE`. A surface without
/// height and a content without width have no aspect ratio to keep, so the last clause
/// leaves them out.
pub proof fn lemma_centered_fit(fill: FillAspect)
    requires
        fill.placement_area.in_range(),
        fill.placement_area.is_valid(),
        fill.aspect.in_range(),
        fill.centerx@ == 0,
        fill.centery@ == 0,
        fill.aspect@ >= 0,
    ensures
        ({
            let area = fill.placement_area;
            let fitted = box_from_fill_aspect(fill);
            &&& fitted.cx == area.cx
            &&& fitted.cy == area.cy
            &&& 0 <= fitted.sx@ <= area.sx@
            &&& 0 <= fitted.sy@ <= area.sy@
            &&& area.encloses(fitted)
            &&& fill.is_height_limited() ==> fitted.sy == area.sy && 0 <= fitted.sy@
                * fill.aspect@ * fill.resy - fitted.sx@ * ONE * fill.resx < ONE * fill.resx
            &&& !fill.is_height_limited() ==> fitted.sx == area.sx
            &&& !fill.is_height_limited() && fill.resy > 0 && fill.aspect@ > 0 ==> 0 <= fitted.sx@ * ONE
                * fill.resx
                - fitted.sy@ * fill.aspect@ * fill.resy < fill.aspect@ * fill.resy
        }),
{
    broadcast use Fixed::lemma_of_view, Fixed::lemma_of_own_view;

    let area = fill.placement_area;
    let w = area.sx@;
    let h = area.sy@;
    let a = fill.aspect@;
    let rx = fill.resx as int;
    let ry = fill.resy as int;
    let one = ONE as int;
    lemma_multiple_divides(w, one);
    lemma_multiple_divides(h, one);
    lemma_multiple_divides(area.cx@, one);
    lemma_multiple_divides(area.cy@, one);
    assert(area.sx@ * fill.centerx@ == 0) by (nonlinear_arith)
        requires
            fill.centerx@ == 0,
    ;
    assert(area.sy@ * fill.centery@ == 0) by (nonlinear_arith)
        requires
            fill.centery@ == 0,
    ;
    if fill.is_height_limited() {
        let n = h * a * ry;
        let d = one * rx;
        assert(n >= 0 && d > 0) by (nonlinear_arith)
            requires
                n == h * a * ry,
                d == one * rx,
                w * rx * one > a * h * ry,
                h >= 0,
                w >= 0,
                a >= 0,
                ry >= 0,
                rx >= 0,
                one > 0,
        ;
        let q = n / d;
        lemma_floor_bounds(n, d);
        assert(0 <= q < w) by (nonlinear_arith)
            requires
                q * d <= n < (q + 1) * d,
                n >= 0,
                d > 0,
                d == one * rx,
                n == h * a * ry,
                w * rx * one > a * h * ry,
        ;
        assert(0 <= h * a * ry - q * one * rx < one * rx) by (nonlinear_arith)
            requires
                q * d <= n < (q + 1) * d,
                d == one * rx,
                n == h * a * ry,
        ;
    } else {
        let n = w * one * rx;
        let d = a * ry;
        assert(n >= 0 && d >= 0 && n <= h * d) by (nonlinear_arith)
            requires
                n == w * one * rx,
                d == a * ry,
                w * rx * one <= a * h * ry,
                w >= 0,
                a >= 0,
                ry >= 0,
                rx >= 0,
                one > 0,
        ;
        if d > 0 {
            let q = n / d;
            lemma_floor_bounds(n, d);
            assert(0 <= q <= h) by (nonlinear_arith)
                requires
                    q * d <= n < (q + 1) * d,
                    n >= 0,
                    d > 0,
                    n <= h * d,
            ;
            assert(0 <= w * one * rx - q * a * ry < a * ry) by (nonlinear_arith)
                requires
                    q * d <= n < (q + 1) * d,
                    d == a * ry,
                    n == w * one * rx,
            ;
        } else {
            assert(n == 0) by (nonlinear_arith)
                requires
                    n >= 0,
                    n <= h * d,
                    d == 0,
            ;
            assert(ry == 0 || a == 0) by (nonlinear_arith)
                requires
                    d == a * ry,
                    d == 0,
                    a >= 0,
                    ry >= 0,
            ;
        }
    }
}

} // verus!
