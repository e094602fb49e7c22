//! Line segments, and a block of lines that is yet to be fitted into a placement area.

use vstd::prelude::*;
use crate::fixed::{lemma_product_bound, sat, Fixed, LIMIT, ONE};
use crate::rect::{
    box_from_fill_aspect, fit, fit_coordinate, lemma_fit_ends, lemma_fit_within, FillAspect,
    SizeAndCenter,
};

verus! {

/// A line segment from `(p1x, p1y)` to `(p2x, p2y)`.
#[derive(Clone, Copy, Debug, PartialEq, Eq, Structural)]
pub struct LineDescriptor {
    pub p1x: Fixed,
    pub p1y: Fixed,
    pub p2x: Fixed,
    pub p2y: Fixed,
}

/// A line segment as the line renderer takes it: two points of two coordinates each.
#[derive(Clone, Copy, Debug)]
pub struct LineRaw {
    pub p1: [Fixed; 2],
    pub p2: [Fixed; 2],
}

/// Lines in a coordinate space of their own, with the bounds of that space.
pub struct UnfitLinesWithSquareUnits {
    pub lines: Vec<LineDescriptor>,
    pub unfit_min_x: Fixed,
    pub unfit_max_x: Fixed,
    pub unfit_min_y: Fixed,
    pub unfit_max_y: Fixed,
}

impl LineRaw {
    /// The segment from `(p1x, p1y)` to `(p2x, p2y)`.
    pub open spec fn spec_new(p1x: Fixed, p1y: Fixed, p2x: Fixed, p2y: Fixed) -> LineRaw {
        LineRaw { p1: [p1x, p1y], p2: [p2x, p2y] }
    }

    /// Builds the segment from `(p1x, p1y)` to `(p2x, p2y)`.
    pub fn new(p1x: Fixed, p1y: Fixed, p2x: Fixed, p2y: Fixed) -> (r: LineRaw)
        ensures
            r == LineRaw::spec_new(p1x, p1y, p2x, p2y),
            r.p1@ == seq![p1x, p1y],
            r.p2@ == seq![p2x, p2y],
    {
        LineRaw { p1: [p1x, p1y], p2: [p2x, p2y] }
    }
}

impl From<LineDescriptor> for LineRaw {
    /// The flat record of a described line.
    fn from(descriptor: LineDescriptor) -> (r: LineRaw) {
        LineRaw::new(descriptor.p1x, descriptor.p1y, descriptor.p2x, descriptor.p2y)
    }
}

impl vstd::std_specs::convert::FromSpecImpl<LineDescriptor> for LineRaw {
    open spec fn obeys_from_spec() -> bool {
        true
    }

    open spec fn from_spec(descriptor: LineDescriptor) -> LineRaw {
        LineRaw::spec_new(descriptor.p1x, descriptor.p1y, descriptor.p2x, descriptor.p2y)
    }
}

impl UnfitLinesWithSquareUnits {
    /// The width of the space the lines live in.
    pub open spec fn spec_width(self) -> Fixed {
        Fixed::clamped(self.unfit_max_x@ - self.unfit_min_x@)
    }

    /// The height of the space the lines live in.
    pub open spec fn spec_height(self) -> Fixed {
        Fixed::clamped(self.unfit_max_y@ - self.unfit_min_y@)
    }

    /// The exact distance from the left bound to the right bound.
    pub open spec fn extent_x(self) -> int {
        self.unfit_max_x@ - self.unfit_min_x@
    }

    /// The exact distance from the lower bound to the upper bound.
    pub open spec fn extent_y(self) -> int {
        self.unfit_max_y@ - self.unfit_min_y@
    }

    /// One line of the block, carried into `target` from a space `width` wide and
    /// `height` high whose lower left corner is the minimum of the bounds.
    pub open spec fn fitted_line(
        self,
        line: LineDescriptor,
        target: SizeAndCenter,
        width: int,
        height: int,
    ) -> LineRaw {
        LineRaw::spec_new(
            Fixed::of(fit_coordinate(line.p1x@, self.unfit_min_x@, width, target.sx@, target.cx@)),
            Fixed::of(fit_coordinate(line.p1y@, self.unfit_min_y@, height, target.sy@, target.cy@)),
            Fixed::of(fit_coordinate(line.p2x@, self.unfit_min_x@, width, target.sx@, target.cx@)),
            Fixed::of(fit_coordinate(line.p2y@, self.unfit_min_y@, height, target.sy@, target.cy@)),
        )
    }

    /// The box that the block is fitted into: the largest one inside `placement_area`
    /// with the aspect ratio of the block, which is its exact width over its exact
    /// height.
    pub open spec fn fit_target(self, placement_area: SizeAndCenter, resx: u32, resy: u32) -> SizeAndCenter {
        box_from_fill_aspect(
            FillAspect {
                placement_area,
                centerx: Fixed::of(0),
                centery: Fixed::of(0),
                resx,
                resy,
                aspect: Fixed::quot(self.extent_x() * ONE, self.extent_y()),
            },
        )
    }

    /// The width of the space the lines live in, saturated where the bounds are further
    /// apart than the largest number.
    pub fn width(&self) -> (r: Fixed)
        ensures
            r == self.spec_width(),
    {
        Fixed::saturate(self.unfit_max_x.wide() - self.unfit_min_x.wide())
    }

    /// The height of the space the lines live in, saturated where the bounds are
    /// further apart than the largest number.
    pub fn height(&self) -> (r: Fixed)
        ensures
            r == self.spec_height(),
    {
        Fixed::saturate(self.unfit_max_y.wide() - self.unfit_min_y.wide())
    }

    /// Fits the block into the largest box inside `placement_area` that has the aspect
    /// ratio of the block, centred, on a surface of `resx` by `resy` pixels.
    ///
    /// The extents of the block are taken exactly, so that the bounds are carried onto
    /// the target however far they are apart.
    pub fn fit_raw(&self, placement_area: SizeAndCenter, resx: u32, resy: u32) -> (r: Vec<LineRaw>)
        ensures
            r@.len() == self.lines@.len(),
            forall|i: int|
                0 <= i < r@.len() ==> #[trigger] r@[i] == self.fitted_line(
                    self.lines@[i],
                    self.fit_target(placement_area, resx, resy),
                    self.extent_x(),
                    self.extent_y(),
                ),
    {
        let width: i128 = self.unfit_max_x.wide() - self.unfit_min_x.wide();
        let height: i128 = self.unfit_max_y.wide() - self.unfit_min_y.wide();
        proof {
            lemma_product_bound(width as int, ONE as int, 2 * LIMIT, 65536);
        }
        let target = SizeAndCenter::from(
            FillAspect {
                placement_area,
                centerx: Fixed::zero(),
                centery: Fixed::zero(),
                resx,
                resy,
                aspect: Fixed::ratio(width * (ONE as i128), height),
            },
        );
        self.carry_lines(target, width, height)
    }

    /// Carries every line into `target`, from a space `width` wide and `height` high
    /// whose lower left corner is the minimum of the bounds.
    pub fn fill_raw_given_width_and_height(
        &self,
        target: SizeAndCenter,
        width: Fixed,
        height: Fixed,
    ) -> (r: Vec<LineRaw>)
        ensures
            r@.len() == self.lines@.len(),
            forall|i: int|
                0 <= i < r@.len() ==> #[trigger] r@[i] == self.fitted_line(
                    self.lines@[i],
                    target,
                    width@,
                    height@,
                ),
    {
        self.carry_lines(target, width.wide(), height.wide())
    }

    /// Carries every line into `target`, from a space with the given exact extents.
    fn carry_lines(&self, target: SizeAndCenter, width: i128, height: i128) -> (r: Vec<LineRaw>)
        requires
            -2 * LIMIT <= width <= 2 * LIMIT,
            -2 * LIMIT <= height <= 2 * LIMIT,
        ensures
            r@.len() == self.lines@.len(),
            forall|i: int|
                0 <= i < r@.len() ==> #[trigger] r@[i] == self.fitted_line(
                    self.lines@[i],
                    target,
                    width as int,
                    height as int,
                ),
    {
        let mut lines_raw: Vec<LineRaw> = Vec::with_capacity(self.lines.len());
        for index in 0..self.lines.len()
            invariant
                -2 * LIMIT <= width <= 2 * LIMIT,
                -2 * LIMIT <= height <= 2 * LIMIT,
                lines_raw@.len() == index,
                forall|i: int|
                    0 <= i < index ==> #[trigger] lines_raw@[i] == self.fitted_line(
                        self.lines@[i],
                        target,
                        width as int,
                        height as int,
                    ),
        {
            let line = self.lines[index];
            let fit_line = LineRaw::new(
                fit(line.p1x, self.unfit_min_x, width, target.sx, target.cx),
                fit(line.p1y, self.unfit_min_y, height, target.sy, target.cy),
                fit(line.p2x, self.unfit_min_x, width, target.sx, target.cx),
                fit(line.p2y, self.unfit_min_y, height, target.sy, target.cy),
            );
            lines_raw.push(fit_line);
        }
        lines_raw
    }
}

/// A block with proper bounds is carried onto the box it is fitted into: the corners of
/// the bounds go to the corners of that box, and every point inside the bounds goes
/// inside it.
pub proof fn lemma_block_fills_target(
    block: UnfitLinesWithSquareUnits,
    target: SizeAndCenter,
    x: Fixed,
    y: Fixed,
)
    requires
        block.extent_x() > 0,
        block.extent_y() > 0,
        target.in_range(),
        target.is_valid(),
        block.unfit_min_x@ <= x@ <= block.unfit_max_x@,
        block.unfit_min_y@ <= y@ <= block.unfit_max_y@,
    ensures
        ({
            let diagonal = LineDescriptor {
                p1x: block.unfit_min_x,
                p1y: block.unfit_min_y,
                p2x: block.unfit_max_x,
                p2y: block.unfit_max_y,
            };
            let carried = block.fitted_line(diagonal, target, block.extent_x(), block.extent_y());
            &&& carried.p1@[0]@ == sat(target.cx@ - target.sx@)
            &&& carried.p1@[1]@ == sat(target.cy@ - target.sy@)
            &&& carried.p2@[0]@ == sat(target.cx@ + target.sx@)
            &&& carried.p2@[1]@ == sat(target.cy@ + target.sy@)
        }),
        sat(target.cx@ - target.sx@) <= fit_coordinate(
            x@,
            block.unfit_min_x@,
            block.extent_x(),
            target.sx@,
            target.cx@,
        ) <= sat(target.cx@ + target.sx@),
        sat(target.cy@ - target.sy@) <= fit_coordinate(
            y@,
            block.unfit_min_y@,
            block.extent_y(),
            target.sy@,
            target.cy@,
        ) <= sat(target.cy@ + target.sy@),
{
    broadcast use Fixed::lemma_of_view;

    lemma_fit_ends(block.unfit_min_x@, block.extent_x(), target.sx@, target.cx@);
    lemma_fit_ends(block.unfit_min_y@, block.extent_y(), target.sy@, target.cy@);
    lemma_fit_within(x@, block.unfit_min_x@, block.extent_x(), target.sx@, target.cx@);
    lemma_fit_within(y@, block.unfit_min_y@, block.extent_y(), target.sy@, target.cy@);
}

} // verus!
