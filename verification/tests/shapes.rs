use bui::ellipse::{EllipseBuffer, EllipseDescriptor};
use bui::fixed::Fixed;
use bui::freeform_2dcapsule::Freeform2DCapsule;
use bui::rect::SizeAndCenter;

fn fx(num: i64, den: i64) -> Fixed {
    Fixed::from_ratio(num, den)
}

#[test]
fn an_ellipse_becomes_a_flat_record() {
    let descriptor = EllipseDescriptor {
        sizing: SizeAndCenter { sx: fx(1, 2), sy: fx(1, 3), cx: fx(-1, 4), cy: fx(1, 5) },
        r: fx(1, 1),
        g: fx(0, 1),
        b: fx(1, 2),
        a: fx(1, 1),
    };
    let buffer = EllipseBuffer::from(descriptor);
    assert_eq!(buffer.scale, [fx(1, 2), fx(1, 3)]);
    assert_eq!(buffer.translation, [fx(-1, 4), fx(1, 5)]);
    assert_eq!(buffer.color, [fx(1, 1), fx(0, 1), fx(1, 2), fx(1, 1)]);
}

#[test]
fn a_capsule_holds_its_axis_radius_and_colour() {
    let capsule = Freeform2DCapsule {
        p1: [fx(0, 1), fx(1, 1)],
        p2: [fx(2, 1), fx(3, 1)],
        radius: fx(1, 8),
        color: [fx(1, 1), fx(1, 1), fx(0, 1), fx(1, 2)],
    };
    let copy = capsule;
    assert_eq!(copy.p1, capsule.p1);
    assert_eq!(copy.p2, [fx(2, 1), fx(3, 1)]);
    assert_eq!(copy.radius.raw(), 8192);
    assert_eq!(copy.color[3], fx(1, 2));
}
