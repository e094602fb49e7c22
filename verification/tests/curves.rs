use bui::curve::{CubeCurve, SquareCurve};
use bui::fixed::{Fixed, LIMIT};
use bui::line::LineDescriptor;

fn fx(num: i64, den: i64) -> Fixed {
    Fixed::from_ratio(num, den)
}

fn line(p1x: Fixed, p1y: Fixed, p2x: Fixed, p2y: Fixed) -> LineDescriptor {
    LineDescriptor { p1x, p1y, p2x, p2y }
}

fn arch() -> SquareCurve {
    SquareCurve {
        p1x: fx(0, 1),
        p1y: fx(0, 1),
        c1x: fx(50, 1),
        c1y: fx(100, 1),
        p2x: fx(100, 1),
        p2y: fx(0, 1),
    }
}

fn wave() -> CubeCurve {
    CubeCurve {
        p1x: fx(0, 1),
        p1y: fx(0, 1),
        c1x: fx(0, 1),
        c1y: fx(90, 1),
        c2x: fx(90, 1),
        c2y: fx(-90, 1),
        p2x: fx(90, 1),
        p2y: fx(9, 1),
    }
}

#[test]
fn a_quadratic_curve_in_one_part_is_its_chord() {
    let lines = arch().split_as_lines(1);
    assert_eq!(lines, vec![line(fx(0, 1), fx(0, 1), fx(100, 1), fx(0, 1))]);
}

#[test]
fn a_cubic_curve_in_one_part_is_its_chord() {
    let lines = wave().split_as_lines(1);
    assert_eq!(lines, vec![line(fx(0, 1), fx(0, 1), fx(90, 1), fx(9, 1))]);
}

#[test]
fn no_parts_give_no_lines() {
    assert!(arch().split_as_lines(0).is_empty());
    assert!(wave().split_as_lines(0).is_empty());
}

#[test]
fn a_quadratic_curve_in_two_parts_passes_through_its_middle() {
    // B(1/2) = P1/4 + C1/2 + P2/4
    let lines = arch().split_as_lines(2);
    assert_eq!(
        lines,
        vec![
            line(fx(0, 1), fx(0, 1), fx(50, 1), fx(50, 1)),
            line(fx(50, 1), fx(50, 1), fx(100, 1), fx(0, 1)),
        ]
    );
}

#[test]
fn a_quadratic_curve_in_four_parts_follows_the_bernstein_basis() {
    // B(t) = (1-t)^2 P1 + 2t(1-t) C1 + t^2 P2
    let lines = arch().split_as_lines(4);
    assert_eq!(lines.len(), 4);
    assert_eq!(lines[0].p2x, fx(25, 1));
    assert_eq!(lines[0].p2y, fx(2 * 3 * 100, 16));
    assert_eq!(lines[1].p2y, fx(50, 1));
    assert_eq!(lines[2].p2x, fx(75, 1));
    assert_eq!(lines[2].p2y, fx(2 * 3 * 100, 16));
}

#[test]
fn a_cubic_curve_in_three_parts_follows_the_bernstein_basis() {
    // B(t) = (1-t)^3 P1 + 3t(1-t)^2 C1 + 3t^2(1-t) C2 + t^3 P2
    let lines = wave().split_as_lines(3);
    assert_eq!(lines.len(), 3);
    // x(1/3) = (6 * 90 + 90) / 27, y(1/3) = (12 * 90 - 6 * 90 + 9) / 27
    assert_eq!(lines[0].p2x, fx(6 * 90 + 90, 27));
    assert_eq!(lines[0].p2y, fx(12 * 90 - 6 * 90 + 9, 27));
    // x(2/3) = (12 * 90 + 8 * 90) / 27, y(2/3) = (6 * 90 - 12 * 90 + 8 * 9) / 27
    assert_eq!(lines[1].p2x, fx(12 * 90 + 8 * 90, 27));
    assert_eq!(lines[1].p2y, fx(6 * 90 - 12 * 90 + 8 * 9, 27));
}

#[test]
fn flattened_curves_are_continuous_and_keep_their_ends() {
    let parts: [u16; 7] = [1, 2, 3, 7, 49, 100, 1000];
    for n in parts {
        let quad = arch().split_as_lines(n);
        assert_eq!(quad.len(), n as usize);
        assert_eq!((quad[0].p1x, quad[0].p1y), (arch().p1x, arch().p1y));
        assert_eq!((quad[quad.len() - 1].p2x, quad[quad.len() - 1].p2y), (arch().p2x, arch().p2y));
        for i in 1..quad.len() {
            assert_eq!((quad[i - 1].p2x, quad[i - 1].p2y), (quad[i].p1x, quad[i].p1y));
        }
        let cube = wave().split_as_lines(n);
        assert_eq!(cube.len(), n as usize);
        assert_eq!((cube[0].p1x, cube[0].p1y), (wave().p1x, wave().p1y));
        assert_eq!((cube[cube.len() - 1].p2x, cube[cube.len() - 1].p2y), (wave().p2x, wave().p2y));
        for i in 1..cube.len() {
            assert_eq!((cube[i - 1].p2x, cube[i - 1].p2y), (cube[i].p1x, cube[i].p1y));
        }
    }
}

#[test]
fn the_most_parts_and_the_largest_coordinates_still_keep_the_ends() {
    let far = Fixed::from_raw(LIMIT);
    let near = Fixed::from_raw(-LIMIT);
    let curve = CubeCurve {
        p1x: far,
        p1y: near,
        c1x: far,
        c1y: far,
        c2x: near,
        c2y: near,
        p2x: near,
        p2y: far,
    };
    let lines = curve.split_as_lines(u16::MAX);
    assert_eq!(lines.len(), 65535);
    assert_eq!((lines[0].p1x, lines[0].p1y), (far, near));
    assert_eq!((lines[65534].p2x, lines[65534].p2y), (near, far));
    let quad = SquareCurve { p1x: far, p1y: near, c1x: near, c1y: far, p2x: near, p2y: far };
    let lines = quad.split_as_lines(u16::MAX);
    assert_eq!((lines[0].p1x, lines[0].p1y), (far, near));
    assert_eq!((lines[65534].p2x, lines[65534].p2y), (near, far));
}

#[test]
fn points_between_grid_steps_round_down() {
    let curve = SquareCurve {
        p1x: Fixed::from_raw(0),
        p1y: Fixed::from_raw(0),
        c1x: Fixed::from_raw(0),
        c1y: Fixed::from_raw(0),
        p2x: Fixed::from_raw(1),
        p2y: Fixed::from_raw(-1),
    };
    let lines = curve.split_as_lines(2);
    // at t = 1/2 the exact values are 1/4 and -1/4 of a step
    assert_eq!(lines[0].p2x.raw(), 0);
    assert_eq!(lines[0].p2y.raw(), -1);
}
