use bui::fixed::{Fixed, LIMIT};
use bui::line::{LineDescriptor, LineRaw, UnfitLinesWithSquareUnits};
use bui::rect::SizeAndCenter;

fn fx(num: i64, den: i64) -> Fixed {
    Fixed::from_ratio(num, den)
}

fn line(p1x: Fixed, p1y: Fixed, p2x: Fixed, p2y: Fixed) -> LineDescriptor {
    LineDescriptor { p1x, p1y, p2x, p2y }
}

fn block() -> UnfitLinesWithSquareUnits {
    UnfitLinesWithSquareUnits {
        lines: vec![
            line(fx(10, 1), fx(20, 1), fx(30, 1), fx(30, 1)),
            line(fx(20, 1), fx(25, 1), fx(15, 1), fx(22, 1)),
        ],
        unfit_min_x: fx(10, 1),
        unfit_max_x: fx(30, 1),
        unfit_min_y: fx(20, 1),
        unfit_max_y: fx(30, 1),
    }
}

#[test]
fn a_line_record_holds_the_two_points() {
    let raw = LineRaw::from(line(fx(1, 1), fx(2, 1), fx(3, 1), fx(4, 1)));
    assert_eq!(raw.p1, [fx(1, 1), fx(2, 1)]);
    assert_eq!(raw.p2, [fx(3, 1), fx(4, 1)]);
    let made = LineRaw::new(fx(1, 1), fx(2, 1), fx(3, 1), fx(4, 1));
    assert_eq!(made.p1, raw.p1);
    assert_eq!(made.p2, raw.p2);
}

#[test]
fn width_and_height_are_the_spans_of_the_bounds() {
    assert_eq!(block().width(), fx(20, 1));
    assert_eq!(block().height(), fx(10, 1));
}

#[test]
fn lines_are_carried_into_the_target() {
    let target = SizeAndCenter { sx: fx(1, 2), sy: fx(1, 4), cx: fx(1, 1), cy: fx(-1, 1) };
    let raw = block().fill_raw_given_width_and_height(target, fx(20, 1), fx(10, 1));
    assert_eq!(raw.len(), 2);
    // x' = (x - 10 - 10) * 2 * (1/2) / 20 + 1, y' = (y - 20 - 5) * 2 * (1/4) / 10 - 1
    assert_eq!(raw[0].p1, [fx(1, 2), fx(-5, 4)]);
    assert_eq!(raw[0].p2, [fx(3, 2), fx(-3, 4)]);
    assert_eq!(raw[1].p1, [fx(1, 1), fx(-1, 1)]);
    assert_eq!(raw[1].p2, [fx(3, 4), fx(-23, 20)]);
}

#[test]
fn a_block_is_fitted_by_its_own_aspect() {
    // a block twice as wide as high on a square surface fills the width of a square area
    let raw = block().fit_raw(SizeAndCenter::full(), 100, 100);
    assert_eq!(raw.len(), 2);
    assert_eq!(raw[0].p1, [fx(-1, 1), fx(-1, 2)]);
    assert_eq!(raw[0].p2, [fx(1, 1), fx(1, 2)]);
    assert_eq!(raw[1].p1, [fx(0, 1), fx(0, 1)]);
    assert_eq!(raw[1].p2, [fx(-1, 2), fx(-3, 10)]);
}

#[test]
fn a_block_without_lines_gives_no_lines() {
    let empty = UnfitLinesWithSquareUnits {
        lines: Vec::new(),
        unfit_min_x: fx(0, 1),
        unfit_max_x: fx(1, 1),
        unfit_min_y: fx(0, 1),
        unfit_max_y: fx(1, 1),
    };
    assert!(empty.fit_raw(SizeAndCenter::full(), 640, 360).is_empty());
}

#[test]
fn a_block_without_width_sends_its_lines_to_the_centre() {
    let flat = UnfitLinesWithSquareUnits {
        lines: vec![line(fx(5, 1), fx(0, 1), fx(5, 1), fx(1, 1))],
        unfit_min_x: fx(5, 1),
        unfit_max_x: fx(5, 1),
        unfit_min_y: fx(0, 1),
        unfit_max_y: fx(1, 1),
    };
    let target = SizeAndCenter { sx: fx(1, 1), sy: fx(1, 1), cx: fx(2, 1), cy: fx(0, 1) };
    let raw = flat.fill_raw_given_width_and_height(target, flat.width(), flat.height());
    assert_eq!(raw[0].p1, [fx(2, 1), fx(-1, 1)]);
    assert_eq!(raw[0].p2, [fx(2, 1), fx(1, 1)]);
}

#[test]
fn bounds_further_apart_than_the_largest_number_are_still_carried_onto_the_target() {
    let left = Fixed::from_raw(-LIMIT);
    let right = Fixed::from_raw(LIMIT);
    let wide = UnfitLinesWithSquareUnits {
        lines: vec![line(left, fx(0, 1), right, fx(1, 1)), line(fx(0, 1), fx(1, 2), fx(0, 1), fx(1, 2))],
        unfit_min_x: left,
        unfit_max_x: right,
        unfit_min_y: fx(0, 1),
        unfit_max_y: fx(1, 1),
    };
    assert_eq!(wide.width(), right);
    let area = SizeAndCenter { sx: fx(1, 2), sy: fx(1, 2), cx: fx(1, 1), cy: fx(-1, 1) };
    let raw = wide.fit_raw(area, 100, 100);
    // the block is far wider than high: it takes the width of the area and no height
    assert_eq!(raw[0].p1, [fx(1, 2), fx(-1, 1)]);
    assert_eq!(raw[0].p2, [fx(3, 2), fx(-1, 1)]);
    assert_eq!(raw[1].p1, [fx(1, 1), fx(-1, 1)]);
    assert_eq!(raw[1].p2, [fx(1, 1), fx(-1, 1)]);
}
