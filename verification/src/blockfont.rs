//! A font without a font file: text laid out in fixed cells of strokes and fitted into a
//! placement area.

use vstd::prelude::*;
use crate::fixed::{lemma_floor_bounds, lemma_product_bound, sat, Fixed, LIMIT, ONE};
use crate::rect::{
    box_from_fill_aspect, box_from_points, fit, fit_coordinate, lemma_centered_fit,
    lemma_fit_monotone, lemma_fit_within, FillAspect, Points, RectRaw, SizeAndCenter,
};
use crate::strokes::{glyph_strokes, in_cell, lemma_strokes_in_cell, strokes};
pub use crate::strokes::THICK;

verus! {

/// The gap between the cells of two neighbouring characters: a quarter of the
/// half-width of a cell.
pub const SPACING: i64 = 16384;

/// The width and the height of a cell.
pub const CELL: i64 = 2 * ONE;

/// The distance between the centres of two neighbouring cells.
pub const PITCH: i64 = CELL + SPACING;

/// A request to draw `text` as large as it fits into `placement_area`, on a surface of
/// `resx` by `resy` pixels.
#[derive(Clone, Copy, Debug)]
pub struct FillText<'a> {
    pub text: &'a str,
    pub placement_area: SizeAndCenter,
    pub resx: u32,
    pub resy: u32,
}

/// A position moved on by the gap between two cells, which only follows a cell.
pub open spec fn spaced(x: int) -> int {
    if x > 0 {
        sat(x + SPACING)
    } else {
        x
    }
}

/// The width of a block of `n` characters: `n` cells with a gap between neighbours.
pub open spec fn block_width(n: nat) -> int
    decreases n,
{
    if n == 0 {
        0
    } else {
        sat(spaced(block_width((n - 1) as nat)) + CELL)
    }
}

/// The distance from the centre of the first cell to the centre of cell `k`.
pub open spec fn cell_center(k: nat) -> int {
    spaced(block_width(k))
}

/// A stroke moved from the frame of its cell to the frame of the block.
pub open spec fn placed(stroke: Points, center: int) -> Points {
    Points {
        p1x: Fixed::clamped(stroke.p1x@ + center),
        p1y: stroke.p1y,
        p2x: Fixed::clamped(stroke.p2x@ + center),
        p2y: stroke.p2y,
    }
}

/// The strokes of one character, in the frame of the block.
pub open spec fn placed_strokes(cell: Seq<Points>, center: int) -> Seq<Points> {
    cell.map_values(|stroke: Points| placed(stroke, center))
}

/// The strokes of a text in the frame of the block, character by character from the
/// left. The block spans from minus one to `block_width - 1` across and from minus one
/// to one upward.
pub open spec fn unscaled_strokes(text: Seq<char>) -> Seq<Points>
    decreases text.len(),
{
    if text.len() == 0 {
        Seq::empty()
    } else {
        unscaled_strokes(text.drop_last()) + placed_strokes(
            strokes(text.last()),
            cell_center((text.len() - 1) as nat),
        )
    }
}

/// The box that a block of the given width is fitted into: the largest one inside
/// `placement_area` with the aspect ratio of the block, centred.
pub open spec fn block_target(width: int, placement_area: SizeAndCenter, resx: u32, resy: u32) -> SizeAndCenter {
    box_from_fill_aspect(
        FillAspect {
            placement_area,
            centerx: Fixed::of(0),
            centery: Fixed::of(0),
            resx,
            resy,
            aspect: Fixed::quot(width * ONE, CELL as int),
        },
    )
}

/// The corners of a stroke of the block, carried into a box of the size of `target`
/// around the origin.
pub open spec fn fitted_corners(stroke: Points, width: int, target: SizeAndCenter) -> Points {
    Points {
        p1x: Fixed::of(fit_coordinate(stroke.p1x@, -ONE, width, target.sx@, 0)),
        p1y: Fixed::of(fit_coordinate(stroke.p1y@, -ONE, CELL as int, target.sy@, 0)),
        p2x: Fixed::of(fit_coordinate(stroke.p2x@, -ONE, width, target.sx@, 0)),
        p2y: Fixed::of(fit_coordinate(stroke.p2y@, -ONE, CELL as int, target.sy@, 0)),
    }
}

/// The rectangle that a stroke of the block becomes in `target`.
pub open spec fn fitted_sizing(stroke: Points, width: int, target: SizeAndCenter) -> SizeAndCenter {
    let sized = box_from_points(fitted_corners(stroke, width, target));
    SizeAndCenter {
        sx: sized.sx,
        sy: sized.sy,
        cx: Fixed::clamped(sized.cx@ + target.cx@),
        cy: Fixed::clamped(sized.cy@ + target.cy@),
    }
}

/// The white rectangle that a stroke of the block becomes in `target`.
pub open spec fn fitted_rect(stroke: Points, width: int, target: SizeAndCenter) -> RectRaw {
    let white = Fixed::of(ONE as int);
    RectRaw::spec_new(fitted_sizing(stroke, width, target), (white, white, white, white))
}

/// The rectangles that draw `text` in `placement_area`.
pub open spec fn text_rects(text: Seq<char>, placement_area: SizeAndCenter, resx: u32, resy: u32) -> Seq<RectRaw> {
    let width = block_width(text.len());
    let target = block_target(width, placement_area, resx, resy);
    unscaled_strokes(text).map_values(|stroke: Points| fitted_rect(stroke, width, target))
}

/// Appends the strokes of one character, moved to the cell around `center`.
fn place_strokes(cell: &Vec<Points>, center: Fixed, block: &mut Vec<Points>)
    ensures
        final(block)@ == old(block)@ + placed_strokes(cell@, center@),
{
    let shift: i128 = center.wide();
    for index in 0..cell.len()
        invariant
            shift == center@,
            -LIMIT <= shift <= LIMIT,
            block@ == old(block)@ + placed_strokes(cell@, center@).take(index as int),
    {
        let stroke = cell[index];
        block.push(
            Points {
                p1x: Fixed::saturate(stroke.p1x.wide() + shift),
                p1y: stroke.p1y,
                p2x: Fixed::saturate(stroke.p2x.wide() + shift),
                p2y: stroke.p2y,
            },
        );
    }
    assert(placed_strokes(cell@, center@).take(cell@.len() as int) =~= placed_strokes(
        cell@,
        center@,
    ));
}

/// Carries one stroke of a block of the given width into `target`.
fn fit_stroke(stroke: Points, width: Fixed, target: SizeAndCenter) -> (rect: RectRaw)
    ensures
        rect == fitted_rect(stroke, width@, target),
{
    let lo = Fixed::from_raw(-ONE);
    let zero = Fixed::zero();
    let w: i128 = width.wide();
    let corners = Points {
        p1x: fit(stroke.p1x, lo, w, target.sx, zero),
        p1y: fit(stroke.p1y, lo, CELL as i128, target.sy, zero),
        p2x: fit(stroke.p2x, lo, w, target.sx, zero),
        p2y: fit(stroke.p2y, lo, CELL as i128, target.sy, zero),
    };
    let sized = SizeAndCenter::from(corners);
    let sizing = SizeAndCenter {
        sx: sized.sx,
        sy: sized.sy,
        cx: Fixed::saturate(sized.cx.wide() + target.cx.wide()),
        cy: Fixed::saturate(sized.cy.wide() + target.cy.wide()),
    };
    let white = Fixed::one();
    RectRaw::new(sizing, (white, white, white, white))
}

impl<'a> FillText<'a> {
    /// Lays the text out in cells from left to right and fits the block into the
    /// placement area: one white rectangle for every stroke of every character.
    pub fn into_rects(self) -> (rects: Vec<RectRaw>)
        ensures
            rects@ == text_rects(self.text@, self.placement_area, self.resx, self.resy),
    {
        let mut unscaled_x = Fixed::zero();
        let mut unscaled_rects: Vec<Points> = Vec::new();
        for c in chars: self.text.chars()
            invariant
                chars.seq() == self.text@,
                unscaled_x@ == block_width(chars.index() as nat),
                unscaled_rects@ == unscaled_strokes(self.text@.take(chars.index() as int)),
        {
            let ghost done = chars.index() as int;
            if unscaled_x.raw() > 0 {
                unscaled_x = Fixed::saturate(unscaled_x.wide() + SPACING as i128);
            }
            let cell = glyph_strokes(c);
            place_strokes(&cell, unscaled_x, &mut unscaled_rects);
            unscaled_x = Fixed::saturate(unscaled_x.wide() + CELL as i128);
            proof {
                let text = self.text@.take(done + 1);
                assert(text.drop_last() =~= self.text@.take(done));
            }
        }
        assert(self.text@.take(self.text@.len() as int) =~= self.text@);
        let width: i128 = unscaled_x.wide();
        proof {
            lemma_product_bound(width as int, ONE as int, LIMIT as int, 65536);
        }
        let target = SizeAndCenter::from(
            FillAspect {
                placement_area: self.placement_area,
                centerx: Fixed::zero(),
                centery: Fixed::zero(),
                resx: self.resx,
                resy: self.resy,
                aspect: Fixed::ratio(width * (ONE as i128), CELL as i128),
            },
        );
        let mut rects: Vec<RectRaw> = Vec::with_capacity(unscaled_rects.len());
        for index in 0..unscaled_rects.len()
            invariant
                target == block_target(unscaled_x@, self.placement_area, self.resx, self.resy),
                rects@.len() == index,
                forall|i: int|
                    0 <= i < index ==> #[trigger] rects@[i] == fitted_rect(
                        unscaled_rects@[i],
                        unscaled_x@,
                        target,
                    ),
        {
            rects.push(fit_stroke(unscaled_rects[index], unscaled_x, target));
        }
        rects
    }
}

/// The number of strokes that draw a text.
pub open spec fn stroke_count(text: Seq<char>) -> nat
    decreases text.len(),
{
    if text.len() == 0 {
        0
    } else {
        stroke_count(text.drop_last()) + strokes(text.last()).len()
    }
}

/// The index of the first stroke of character `k` among the strokes of a text.
pub open spec fn first_stroke(text: Seq<char>, k: int) -> nat {
    stroke_count(text.take(k))
}

/// Whether a block of `n` characters is narrow enough for every position in it to be
/// exact.
pub open spec fn is_exact(n: nat) -> bool {
    n * PITCH <= LIMIT
}

/// A text is drawn by as many rectangles as its characters have strokes.
pub proof fn lemma_rect_count(text: Seq<char>, placement_area: SizeAndCenter, resx: u32, resy: u32)
    ensures
        text_rects(text, placement_area, resx, resy).len() == stroke_count(text),
{
    lemma_unscaled_count(text);
}

/// The strokes of a text in the frame of the block are as many as the strokes of its
/// characters.
proof fn lemma_unscaled_count(text: Seq<char>)
    ensures
        unscaled_strokes(text).len() == stroke_count(text),
    decreases text.len(),
{
    if text.len() > 0 {
        lemma_unscaled_count(text.drop_last());
    }
}

/// The strokes of character `k` stand together among the strokes of the text, behind
/// those of the characters before it.
pub proof fn lemma_stroke_of_character(text: Seq<char>, k: int, j: int)
    requires
        0 <= k < text.len(),
        0 <= j < strokes(text[k]).len(),
    ensures
        first_stroke(text, k) + j < stroke_count(text),
        unscaled_strokes(text).len() == stroke_count(text),
        unscaled_strokes(text)[first_stroke(text, k) + j] == placed(
            strokes(text[k])[j],
            cell_center(k as nat),
        ),
    decreases text.len(),
{
    lemma_unscaled_count(text);
    lemma_unscaled_count(text.drop_last());
    let front = text.drop_last();
    if k < text.len() - 1 {
        lemma_stroke_of_character(front, k, j);
        assert(front.take(k) =~= text.take(k));
    }
}

/// Without saturation the width of a block and the centres of its cells are whole
/// multiples of the pitch.
pub proof fn lemma_exact_positions(n: nat)
    requires
        is_exact(n),
    ensures
        block_width(n) == if n == 0 {
            0
        } else {
            n * PITCH - SPACING
        },
        n > 0 ==> cell_center((n - 1) as nat) == (n - 1) * PITCH,
    decreases n,
{
    if n > 0 {
        let m = (n - 1) as nat;
        assert(m * PITCH == n * PITCH - PITCH) by (nonlinear_arith)
            requires
                m == n - 1,
        ;
        lemma_exact_positions(m);
        if m > 0 {
            assert(m * PITCH >= PITCH) by (nonlinear_arith)
                requires
                    m >= 1,
                    PITCH > 0,
            ;
        }
    }
}

/// Every stroke of a text is a proper rectangle inside the block, provided the block is
/// narrow enough to be exact.
pub proof fn lemma_strokes_in_block(text: Seq<char>, i: int)
    requires
        is_exact(text.len()),
        0 <= i < unscaled_strokes(text).len(),
    ensures
        -ONE <= unscaled_strokes(text)[i].p1x@ <= unscaled_strokes(text)[i].p2x@ <= block_width(
            text.len(),
        ) - ONE,
        -ONE <= unscaled_strokes(text)[i].p2y@ <= unscaled_strokes(text)[i].p1y@ <= ONE,
    decreases text.len(),
{
    broadcast use Fixed::lemma_of_view;

    let n = text.len();
    let front = text.drop_last();
    assert((n - 1) * PITCH <= n * PITCH) by (nonlinear_arith)
        requires
            PITCH > 0,
    ;
    lemma_exact_positions(n);
    lemma_exact_positions((n - 1) as nat);
    if i < unscaled_strokes(front).len() {
        lemma_strokes_in_block(front, i);
    } else {
        lemma_strokes_in_cell(text.last());
    }
}

/// The midpoint and half-length of an interval, both rounded down, span an interval
/// that starts where the first one starts and ends at most where it ends.
proof fn lemma_halves_stay_inside(a: int, b: int)
    requires
        a <= b,
    ensures
        (b - a) / 2 >= 0,
        (a + b) / 2 - (b - a) / 2 == a,
        b - 1 <= (a + b) / 2 + (b - a) / 2 <= b,
{
    lemma_floor_bounds(b - a, 2);
    lemma_floor_bounds(a + b, 2);
}

/// Every rectangle of a text lies inside the box that the block is fitted into, and so
/// inside the placement area.
///
/// This holds where the block is narrow enough to be exact and the placement area has
/// non-negative half-extents and representable corners.
pub proof fn lemma_rects_within_target(
    text: Seq<char>,
    placement_area: SizeAndCenter,
    resx: u32,
    resy: u32,
    i: int,
)
    requires
        is_exact(text.len()),
        placement_area.in_range(),
        placement_area.is_valid(),
        placement_area.corners_in_range(),
        0 <= i < text_rects(text, placement_area, resx, resy).len(),
    ensures
        block_target(block_width(text.len()), placement_area, resx, resy).encloses(
            text_rects(text, placement_area, resx, resy)[i].sizing(),
        ),
        placement_area.encloses(text_rects(text, placement_area, resx, resy)[i].sizing()),
{
    broadcast use Fixed::lemma_of_view;

    let n = text.len();
    let width = block_width(n);
    let target = block_target(width, placement_area, resx, resy);
    let stroke = unscaled_strokes(text)[i];
    lemma_strokes_in_block(text, i);
    lemma_exact_positions(n);
    lemma_target_is_inside(n, placement_area, resx, resy);
    lemma_fit_within(stroke.p1x@, -ONE, width, target.sx@, 0);
    lemma_fit_within(stroke.p2x@, -ONE, width, target.sx@, 0);
    lemma_fit_monotone(stroke.p1x@, stroke.p2x@, -ONE, width, target.sx@, 0);
    lemma_fit_within(stroke.p1y@, -ONE, CELL as int, target.sy@, 0);
    lemma_fit_within(stroke.p2y@, -ONE, CELL as int, target.sy@, 0);
    lemma_fit_monotone(stroke.p2y@, stroke.p1y@, -ONE, CELL as int, target.sy@, 0);
    let corners = fitted_corners(stroke, width, target);
    lemma_halves_stay_inside(corners.p1x@, corners.p2x@);
    lemma_halves_stay_inside(corners.p2y@, corners.p1y@);
}

/// The box that a block of `n` characters is fitted into lies inside the placement
/// area and has non-negative half-extents.
proof fn lemma_target_is_inside(n: nat, placement_area: SizeAndCenter, resx: u32, resy: u32)
    requires
        n > 0,
        is_exact(n),
        placement_area.in_range(),
        placement_area.is_valid(),
    ensures
        ({
            let target = block_target(block_width(n), placement_area, resx, resy);
            &&& placement_area.encloses(target)
            &&& target.cx == placement_area.cx
            &&& target.cy == placement_area.cy
            &&& 0 <= target.sx@ <= placement_area.sx@
            &&& 0 <= target.sy@ <= placement_area.sy@
            &&& block_width(n) >= CELL
        }),
{
    broadcast use Fixed::lemma_of_view;

    let width = block_width(n);
    lemma_exact_positions(n);
    assert(n * PITCH >= PITCH) by (nonlinear_arith)
        requires
            n >= 1,
            PITCH > 0,
    ;
    let fill = FillAspect {
        placement_area,
        centerx: Fixed::of(0),
        centery: Fixed::of(0),
        resx,
        resy,
        aspect: Fixed::quot(width * ONE, CELL as int),
    };
    lemma_floor_bounds(width * ONE, CELL as int);
    assert(0 < (width * ONE) / (CELL as int) <= LIMIT) by (nonlinear_arith)
        requires
            ((width * ONE) / (CELL as int)) * CELL <= width * ONE < ((width * ONE) / (CELL as int)
                + 1) * CELL,
            CELL == 2 * ONE,
            ONE == 65536,
            CELL <= width <= LIMIT,
            LIMIT > 0,
    ;
    lemma_centered_fit(fill);
}

/// The rectangles of an earlier character lie left of the rectangles of a later one:
/// the right edge of the first is not right of the left edge of the second.
pub proof fn lemma_characters_in_order(
    text: Seq<char>,
    placement_area: SizeAndCenter,
    resx: u32,
    resy: u32,
    k1: int,
    j1: int,
    k2: int,
    j2: int,
)
    requires
        is_exact(text.len()),
        placement_area.in_range(),
        placement_area.is_valid(),
        placement_area.corners_in_range(),
        0 <= k1 < k2 < text.len(),
        0 <= j1 < strokes(text[k1]).len(),
        0 <= j2 < strokes(text[k2]).len(),
    ensures
        ({
            let rects = text_rects(text, placement_area, resx, resy);
            let earlier = rects[first_stroke(text, k1) + j1].sizing();
            let later = rects[first_stroke(text, k2) + j2].sizing();
            &&& first_stroke(text, k1) + j1 < first_stroke(text, k2) + j2 < rects.len()
            &&& earlier.cx@ + earlier.sx@ <= later.cx@ - later.sx@
        }),
{
    broadcast use Fixed::lemma_of_view;

    let n = text.len();
    let width = block_width(n);
    let target = block_target(width, placement_area, resx, resy);
    lemma_stroke_of_character(text, k1, j1);
    lemma_stroke_of_character(text, k2, j2);
    lemma_first_stroke_monotone(text, k1 + 1, k2);
    assert(text.take(k1 + 1).drop_last() =~= text.take(k1));
    let i1 = first_stroke(text, k1) + j1;
    let i2 = first_stroke(text, k2) + j2;
    let a = unscaled_strokes(text)[i1];
    let b = unscaled_strokes(text)[i2];
    lemma_strokes_in_cell(text[k1]);
    lemma_strokes_in_cell(text[k2]);
    lemma_exact_prefix(n, (k1 + 1) as nat);
    lemma_exact_prefix(n, (k2 + 1) as nat);
    lemma_exact_positions((k1 + 1) as nat);
    lemma_exact_positions((k2 + 1) as nat);
    assert((k1 + 1) * PITCH <= k2 * PITCH) by (nonlinear_arith)
        requires
            k1 + 1 <= k2,
            PITCH > 0,
    ;
    lemma_strokes_in_block(text, i1 as int);
    lemma_strokes_in_block(text, i2 as int);
    lemma_exact_positions(n);
    lemma_target_is_inside(n, placement_area, resx, resy);
    lemma_fit_monotone(a.p1x@, a.p2x@, -ONE, width, target.sx@, 0);
    lemma_fit_monotone(a.p2x@, b.p1x@, -ONE, width, target.sx@, 0);
    lemma_fit_monotone(b.p1x@, b.p2x@, -ONE, width, target.sx@, 0);
    lemma_fit_within(a.p1x@, -ONE, width, target.sx@, 0);
    lemma_fit_within(a.p2x@, -ONE, width, target.sx@, 0);
    lemma_fit_within(b.p1x@, -ONE, width, target.sx@, 0);
    lemma_fit_within(b.p2x@, -ONE, width, target.sx@, 0);
    let ca = fitted_corners(a, width, target);
    let cb = fitted_corners(b, width, target);
    lemma_halves_stay_inside(ca.p1x@, ca.p2x@);
    lemma_halves_stay_inside(cb.p1x@, cb.p2x@);
}

/// A shorter block is exact where a longer one is.
proof fn lemma_exact_prefix(n: nat, m: nat)
    requires
        is_exact(n),
        m <= n,
    ensures
        is_exact(m),
{
    assert(m * PITCH <= n * PITCH) by (nonlinear_arith)
        requires
            m <= n,
            PITCH > 0,
    ;
}

/// The strokes of a later character start behind those of an earlier one.
proof fn lemma_first_stroke_monotone(text: Seq<char>, k1: int, k2: int)
    requires
        0 <= k1 <= k2 <= text.len(),
    ensures
        first_stroke(text, k1) <= first_stroke(text, k2),
    decreases k2 - k1,
{
    if k1 < k2 {
        lemma_first_stroke_monotone(text, k1, k2 - 1);
        assert(text.take(k2).drop_last() =~= text.take(k2 - 1));
    }
}

} // verus!
