use bui::fixed::{Fixed, LIMIT};
use bui::rect::{FillAspect, Points, RectDescriptor, RectRaw, SizeAndCenter};

fn fx(num: i64, den: i64) -> Fixed {
    Fixed::from_ratio(num, den)
}

fn area(sx: Fixed, sy: Fixed, cx: Fixed, cy: Fixed) -> SizeAndCenter {
    SizeAndCenter { sx, sy, cx, cy }
}

fn centered(placement_area: SizeAndCenter, resx: u32, resy: u32, aspect: Fixed) -> FillAspect {
    FillAspect { placement_area, centerx: Fixed::zero(), centery: Fixed::zero(), resx, resy, aspect }
}

fn encloses(outer: SizeAndCenter, inner: SizeAndCenter) -> bool {
    outer.cx.raw() - outer.sx.raw() <= inner.cx.raw() - inner.sx.raw()
        && inner.cx.raw() + inner.sx.raw() <= outer.cx.raw() + outer.sx.raw()
        && outer.cy.raw() - outer.sy.raw() <= inner.cy.raw() - inner.sy.raw()
        && inner.cy.raw() + inner.sy.raw() <= outer.cy.raw() + outer.sy.raw()
}

#[test]
fn full_and_zero_boxes() {
    let full = SizeAndCenter::full();
    assert_eq!(full, area(fx(1, 1), fx(1, 1), fx(0, 1), fx(0, 1)));
    let zero = SizeAndCenter::zero();
    assert_eq!(zero, area(fx(0, 1), fx(0, 1), fx(0, 1), fx(0, 1)));
    let none = Points::zero();
    assert_eq!(none, Points { p1x: fx(0, 1), p1y: fx(0, 1), p2x: fx(0, 1), p2y: fx(0, 1) });
}

#[test]
fn box_and_corners_round_trip() {
    let b = area(fx(1, 2), fx(1, 4), fx(3, 1), fx(-2, 1));
    let corners = Points::from(b);
    assert_eq!(corners.p1x, fx(5, 2));
    assert_eq!(corners.p1y, fx(-7, 4));
    assert_eq!(corners.p2x, fx(7, 2));
    assert_eq!(corners.p2y, fx(-9, 4));
    assert_eq!(SizeAndCenter::from(corners), b);
}

#[test]
fn round_trip_survives_the_smallest_step() {
    let b = area(Fixed::from_raw(1), Fixed::from_raw(3), Fixed::from_raw(-5), Fixed::from_raw(7));
    assert_eq!(SizeAndCenter::from(Points::from(b)), b);
}

#[test]
fn round_trip_breaks_where_a_corner_saturates() {
    let b = area(Fixed::from_raw(10), Fixed::zero(), Fixed::from_raw(LIMIT), Fixed::zero());
    let corners = Points::from(b);
    assert_eq!(corners.p2x.raw(), LIMIT);
    assert_ne!(SizeAndCenter::from(corners), b);
}

#[test]
fn corners_with_an_odd_distance_round_down() {
    let corners = Points {
        p1x: Fixed::from_raw(0),
        p1y: Fixed::from_raw(3),
        p2x: Fixed::from_raw(3),
        p2y: Fixed::from_raw(0),
    };
    let b = SizeAndCenter::from(corners);
    assert_eq!(b.sx.raw(), 1);
    assert_eq!(b.sy.raw(), 1);
    assert_eq!(b.cx.raw(), 1);
    assert_eq!(b.cy.raw(), 1);
    let negative = Points {
        p1x: Fixed::from_raw(-3),
        p1y: Fixed::from_raw(0),
        p2x: Fixed::from_raw(0),
        p2y: Fixed::from_raw(-3),
    };
    let c = SizeAndCenter::from(negative);
    assert_eq!(c.cx.raw(), -2);
    assert_eq!(c.cy.raw(), -2);
    assert_eq!(c.sx.raw(), 1);
}

#[test]
fn centered_fit_is_height_limited_on_a_wide_surface() {
    let fitted = SizeAndCenter::from(centered(SizeAndCenter::full(), 640, 360, Fixed::one()));
    assert_eq!(fitted.sy, Fixed::one());
    assert_eq!(fitted.sx, fx(360, 640));
    assert_eq!(fitted.cx, Fixed::zero());
    assert_eq!(fitted.cy, Fixed::zero());
}

#[test]
fn centered_fit_is_width_limited_on_a_tall_surface() {
    let fitted = SizeAndCenter::from(centered(SizeAndCenter::full(), 360, 640, Fixed::one()));
    assert_eq!(fitted.sx, Fixed::one());
    assert_eq!(fitted.sy, fx(360, 640));
}

#[test]
fn centered_fit_of_a_wide_content_is_width_limited() {
    let fitted = SizeAndCenter::from(centered(SizeAndCenter::full(), 640, 360, fx(4, 1)));
    assert_eq!(fitted.sx, Fixed::one());
    assert_eq!(fitted.sy, fx(640, 4 * 360));
}

#[test]
fn a_fit_on_the_boundary_between_the_two_cases_is_width_limited() {
    let fitted = SizeAndCenter::from(centered(SizeAndCenter::full(), 100, 100, Fixed::one()));
    assert_eq!(fitted.sx, Fixed::one());
    assert_eq!(fitted.sy, Fixed::one());
}

#[test]
fn centered_fit_stays_inside_touches_and_keeps_the_aspect() {
    let areas = [
        area(fx(1, 1), fx(1, 1), fx(0, 1), fx(0, 1)),
        area(fx(1, 3), fx(2, 7), fx(1, 5), fx(-1, 9)),
        area(fx(5, 1), fx(1, 100), fx(-3, 1), fx(4, 1)),
        area(fx(0, 1), fx(1, 1), fx(0, 1), fx(0, 1)),
    ];
    let aspects = [fx(1, 1), fx(1, 3), fx(7, 2), fx(100, 1), Fixed::from_raw(1)];
    let surfaces = [(640u32, 360u32), (360, 640), (1, 1), (1920, 1080), (3, 7)];
    for a in areas {
        for aspect in aspects {
            for (resx, resy) in surfaces {
                let fitted = SizeAndCenter::from(centered(a, resx, resy, aspect));
                assert!(encloses(a, fitted));
                assert!(fitted.sx.raw() >= 0 && fitted.sy.raw() >= 0);
                assert_eq!(fitted.cx, a.cx);
                assert_eq!(fitted.cy, a.cy);
                assert!(fitted.sx == a.sx || fitted.sy == a.sy);
                let across = fitted.sx.raw() as i128 * 65536 * resx as i128;
                let upward = fitted.sy.raw() as i128 * aspect.raw() as i128 * resy as i128;
                if fitted.sy == a.sy && fitted.sx != a.sx {
                    assert!(0 <= upward - across && upward - across < 65536 * resx as i128);
                }
                if fitted.sx == a.sx && fitted.sy != a.sy {
                    assert!(0 <= across - upward && across - upward < aspect.raw() as i128 * resy as i128);
                }
            }
        }
    }
}

#[test]
fn an_anchor_moves_the_centre_and_shrinks_the_usable_area() {
    let fill = FillAspect {
        placement_area: area(fx(2, 1), fx(1, 1), fx(1, 1), fx(-1, 1)),
        centerx: fx(1, 2),
        centery: fx(-1, 4),
        resx: 100,
        resy: 100,
        aspect: fx(1, 1),
    };
    let fitted = SizeAndCenter::from(fill);
    // usable half-extents: 2 * (1 - 1/2) = 1 and 1 * (1 - 1/4) = 3/4
    assert_eq!(fitted.sy, fx(3, 4));
    assert_eq!(fitted.sx, fx(3, 4));
    assert_eq!(fitted.cx, fx(2, 1));
    assert_eq!(fitted.cy, fx(-5, 4));
}

#[test]
fn an_anchor_flush_against_an_edge_leaves_nothing() {
    let fill = FillAspect {
        placement_area: SizeAndCenter::full(),
        centerx: fx(1, 1),
        centery: fx(0, 1),
        resx: 640,
        resy: 360,
        aspect: fx(1, 1),
    };
    let fitted = SizeAndCenter::from(fill);
    assert_eq!(fitted.sx, fx(0, 1));
    assert_eq!(fitted.sy, fx(0, 1));
    assert_eq!(fitted.cx, fx(1, 1));
    assert_eq!(fitted.cy, fx(0, 1));
}

#[test]
fn a_placement_area_without_height_gives_an_empty_box() {
    let flat = area(fx(1, 1), fx(0, 1), fx(0, 1), fx(0, 1));
    let fitted = SizeAndCenter::from(centered(flat, 640, 360, fx(1, 1)));
    assert_eq!(fitted.sx, fx(0, 1));
    assert_eq!(fitted.sy, fx(0, 1));
    let nothing = SizeAndCenter::from(centered(SizeAndCenter::zero(), 640, 360, fx(1, 1)));
    assert_eq!(nothing, SizeAndCenter::zero());
}

#[test]
fn an_aspect_of_zero_gives_a_box_without_width() {
    let fitted = SizeAndCenter::from(centered(SizeAndCenter::full(), 640, 360, fx(0, 1)));
    assert_eq!(fitted.sx, fx(0, 1));
    assert_eq!(fitted.sy, fx(1, 1));
}

#[test]
fn a_surface_without_pixels_saturates_or_empties_the_free_dimension() {
    let no_width = SizeAndCenter::from(centered(SizeAndCenter::full(), 0, 360, fx(1, 1)));
    assert_eq!(no_width.sx, fx(1, 1));
    assert_eq!(no_width.sy, fx(0, 1));
    let no_height = SizeAndCenter::from(centered(SizeAndCenter::full(), 640, 0, fx(1, 1)));
    assert_eq!(no_height.sy, fx(1, 1));
    assert_eq!(no_height.sx, fx(0, 1));
}

#[test]
fn corners_of_a_fit_are_the_corners_of_the_fitted_box() {
    let fill = centered(area(fx(1, 2), fx(1, 2), fx(1, 1), fx(1, 1)), 640, 360, fx(1, 1));
    let corners = Points::from(fill);
    let fitted = SizeAndCenter::from(fill);
    assert_eq!(corners, Points::from(fitted));
    assert_eq!(corners.p1y, fx(3, 2));
    assert_eq!(corners.p2y, fx(1, 2));
}

#[test]
fn points_contain_their_edges() {
    let b = Points { p1x: fx(-1, 1), p1y: fx(2, 1), p2x: fx(3, 1), p2y: fx(-2, 1) };
    assert!(b.contains(fx(0, 1), fx(0, 1)));
    assert!(b.contains(fx(-1, 1), fx(2, 1)));
    assert!(b.contains(fx(3, 1), fx(-2, 1)));
    assert!(!b.contains(fx(-1, 1), fx(3, 1)));
    assert!(!b.contains(Fixed::from_raw(3 * 65536 + 1), fx(0, 1)));
    assert!(!b.contains(fx(0, 1), Fixed::from_raw(-2 * 65536 - 1)));
}

#[test]
fn halves_split_at_the_midpoint_and_share_it() {
    let b = Points { p1x: fx(-1, 1), p1y: fx(2, 1), p2x: fx(3, 1), p2y: fx(-2, 1) };
    assert!(b.left_contains(fx(0, 1), fx(0, 1)));
    assert!(!b.right_contains(fx(0, 1), fx(0, 1)));
    assert!(b.left_contains(fx(1, 1), fx(0, 1)));
    assert!(b.right_contains(fx(1, 1), fx(0, 1)));
    assert!(b.right_contains(fx(2, 1), fx(0, 1)));
    assert!(!b.left_contains(fx(2, 1), fx(0, 1)));
    assert!(!b.left_contains(fx(0, 1), fx(5, 1)));
    assert!(!b.right_contains(fx(4, 1), fx(0, 1)));
    let odd = Points { p1x: Fixed::from_raw(0), p1y: fx(1, 1), p2x: Fixed::from_raw(3), p2y: fx(0, 1) };
    assert!(odd.left_contains(Fixed::from_raw(1), fx(0, 1)));
    assert!(!odd.right_contains(Fixed::from_raw(1), fx(0, 1)));
    assert!(odd.right_contains(Fixed::from_raw(2), fx(0, 1)));
    assert!(!odd.left_contains(Fixed::from_raw(2), fx(0, 1)));
}

#[test]
fn scaling_multiplies_the_half_extents() {
    let b = area(fx(3, 1), fx(1, 2), fx(7, 1), fx(-7, 1));
    let s = b.scaled(fx(1, 2), fx(4, 1));
    assert_eq!(s, area(fx(3, 2), fx(2, 1), fx(7, 1), fx(-7, 1)));
    let negative = b.scaled(fx(-1, 3), fx(1, 1));
    assert_eq!(negative.sx.raw(), 3 * -21846);
}

#[test]
fn an_inset_reduces_the_half_extents() {
    let b = area(fx(3, 1), fx(1, 2), fx(7, 1), fx(-7, 1));
    let s = b.symmetrically_inset(fx(1, 1), fx(1, 1));
    assert_eq!(s, area(fx(2, 1), fx(-1, 2), fx(7, 1), fx(-7, 1)));
}

#[test]
fn a_relative_box_is_placed_in_the_frame_of_the_outer_one() {
    let outer = area(fx(2, 1), fx(1, 2), fx(10, 1), fx(-10, 1));
    let inner = area(fx(1, 2), fx(1, 2), fx(1, 2), fx(-1, 1));
    let placed = outer.get_relative(inner);
    assert_eq!(placed, area(fx(1, 1), fx(1, 4), fx(11, 1), fx(-21, 2)));
    assert_eq!(outer.get_relative(SizeAndCenter::full()), outer);
}

#[test]
fn corners_go_into_a_target() {
    let corners = Points { p1x: fx(-1, 1), p1y: fx(1, 1), p2x: fx(3, 1), p2y: fx(-2, 1) };
    let target = area(fx(1, 2), fx(2, 1), fx(5, 1), fx(-5, 1));
    let placed = corners.into_target(target);
    assert_eq!(placed, area(fx(1, 1), fx(3, 1), fx(6, 1), fx(-11, 2)));
}

#[test]
fn large_boxes_saturate() {
    let big = area(Fixed::from_raw(LIMIT), Fixed::from_raw(LIMIT), Fixed::from_raw(LIMIT), Fixed::zero());
    assert_eq!(big.scaled(fx(2, 1), fx(1, 2)).sx.raw(), LIMIT);
    assert_eq!(big.scaled(fx(2, 1), fx(1, 2)).sy.raw(), LIMIT / 2);
    assert_eq!(big.symmetrically_inset(fx(-1, 1), fx(0, 1)).sx.raw(), LIMIT);
    assert_eq!(big.get_relative(SizeAndCenter::full()).cx.raw(), LIMIT);
    assert_eq!(Points::from(big).p2x.raw(), LIMIT);
    assert_eq!(Points::from(big).p1x.raw(), 0);
}

#[test]
fn a_descriptor_becomes_a_flat_record() {
    let descriptor = RectDescriptor {
        sizing: area(fx(1, 2), fx(1, 4), fx(1, 8), fx(-1, 8)),
        r: fx(1, 1),
        g: fx(1, 2),
        b: fx(0, 1),
        a: fx(3, 4),
    };
    let raw = RectRaw::from(descriptor);
    assert_eq!(raw.scale, [fx(1, 2), fx(1, 4)]);
    assert_eq!(raw.translation, [fx(1, 8), fx(-1, 8)]);
    assert_eq!(raw.color, [fx(1, 1), fx(1, 2), fx(0, 1), fx(3, 4)]);
    let again = RectRaw::new(descriptor.sizing, (fx(1, 1), fx(1, 2), fx(0, 1), fx(3, 4)));
    assert_eq!(again.scale, raw.scale);
    assert_eq!(again.translation, raw.translation);
    assert_eq!(again.color, raw.color);
}
