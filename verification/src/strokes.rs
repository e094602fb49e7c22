//! The stroke table of the block font: which rectangles draw which character.
//!
//! A character is drawn in a cell that spans minus one to one on both axes. Digits follow
//! a seven-segment layout, letters are laid out one by one, and the characters with a
//! diagonal finish with a run of equal steps.

use vstd::prelude::*;
use crate::fixed::{Fixed, LIMIT, ONE};
use crate::rect::Points;

verus! {

/// The thickness of a stroke: a quarter of the half-width of a cell.
pub const THICK: i64 = 16384;

/// Half the thickness of a stroke.
pub const HALF: i64 = 8192;

/// The rectangle with the top-left corner `(p1x, p1y)` and the bottom-right corner
/// `(p2x, p2y)`, in raw steps.
pub open spec fn corners(p1x: int, p1y: int, p2x: int, p2y: int) -> Points {
    Points { p1x: Fixed::of(p1x), p1y: Fixed::of(p1y), p2x: Fixed::of(p2x), p2y: Fixed::of(p2y) }
}

/// Whether a stroke is a proper rectangle inside the cell of its character.
pub open spec fn in_cell(stroke: Points) -> bool {
    &&& -ONE <= stroke.p1x@ <= stroke.p2x@ <= ONE
    &&& -ONE <= stroke.p2y@ <= stroke.p1y@ <= ONE
}

/// The run of equal steps that finishes a character drawn with a diagonal.
#[derive(Clone, Copy, Debug, PartialEq, Eq, Structural)]
pub enum Staircase {
    /// Rising to the right through the centre, as in `/`.
    Slash,
    /// Falling to the right through the centre, as in `N`.
    Backslash,
    /// Both diagonals through the centre, as in `X`.
    Cross,
    /// The two arms of `K`, leaving the stem to the right.
    Kay,
    /// The leg of `R`, falling to the right from the bowl.
    Leg,
    /// The two arms of `V`, rising from the foot.
    Vee,
}

impl Staircase {
    /// How far step `i` of a diagonal through the centre reaches from the centre.
    pub open spec fn reach(i: int) -> int {
        HALF + THICK * i
    }

    /// The width of one step of the leg of `R`: the room right of the stem, divided into
    /// as many steps as fit between the bowl and the foot.
    pub open spec fn leg_width() -> int {
        (2 * ONE - 2 * THICK) / ((2 * ONE - THICK) / (2 * THICK))
    }

    /// The height of one step of the arms of `V`.
    pub open spec fn vee_height() -> int {
        THICK * 9 / 4
    }

    /// Whether step `i` still lies inside the cell, so that it is drawn.
    pub open spec fn continues(self, i: int) -> bool {
        match self {
            Staircase::Slash | Staircase::Backslash | Staircase::Cross => Self::reach(i) <= ONE,
            Staircase::Kay => THICK * i <= ONE && -ONE + THICK * (i + 1) <= ONE,
            Staircase::Leg => -ONE + THICK * 2 + i * Self::leg_width() <= ONE && -Self::reach(i) >= -ONE,
            Staircase::Vee => -ONE + THICK + i * Self::vee_height() <= ONE && Self::reach(i) <= ONE,
        }
    }

    /// The strokes of step `i`.
    pub open spec fn step(self, i: int) -> Seq<Points> {
        let m = Self::reach(i);
        match self {
            Staircase::Slash => seq![
                corners(m - THICK, m, m, m - THICK),
                corners(-m, -m + THICK, -m + THICK, -m),
            ],
            Staircase::Backslash => seq![
                corners(-m, m, -m + THICK, m - THICK),
                corners(m - THICK, -m + THICK, m, -m),
            ],
            Staircase::Cross => seq![
                corners(m - THICK, m, m, m - THICK),
                corners(-m, m, -m + THICK, m - THICK),
                corners(m - THICK, -m + THICK, m, -m),
                corners(-m, -m + THICK, -m + THICK, -m),
            ],
            Staircase::Kay => {
                let maxy = THICK * i;
                let maxx = -ONE + THICK * (i + 1);
                seq![
                    corners(maxx - THICK, maxy, maxx, maxy - THICK),
                    corners(maxx - THICK, -maxy + THICK, maxx, -maxy),
                ]
            },
            Staircase::Leg => {
                let maxx = -ONE + THICK * 2 + i * Self::leg_width();
                let miny = -m;
                seq![corners(maxx - Self::leg_width(), miny + THICK, maxx, miny)]
            },
            Staircase::Vee => {
                let maxy = -ONE + THICK + i * Self::vee_height();
                seq![
                    corners(m - THICK, maxy, m, maxy - Self::vee_height()),
                    corners(-m, maxy, -m + THICK, maxy - Self::vee_height()),
                ]
            },
        }
    }

    /// The strokes of step `i` and of all the steps after it that are drawn.
    pub open spec fn steps_from(self, i: int) -> Seq<Points>
        decreases 2 * ONE - THICK * i,
    {
        if i >= 1 && self.continues(i) {
            self.step(i) + self.steps_from(i + 1)
        } else {
            Seq::empty()
        }
    }
}

/// The strokes of `c` that are the same whatever the stroke thickness divides the cell
/// into: all of them, for a character without a diagonal.
pub open spec fn fixed_strokes(c: char) -> Seq<Points> {
    match c {
        ' ' => Seq::empty(),
        ':' => seq![
            corners(-HALF, ONE / 2 + HALF, HALF as int, ONE / 2 - HALF),
            corners(-HALF, -ONE / 2 + HALF, HALF as int, -ONE / 2 - HALF),
        ],
        '+' => seq![
            corners(-ONE, HALF as int, ONE as int, -HALF),
            corners(-HALF, ONE as int, HALF as int, HALF as int),
            corners(-HALF, -HALF, HALF as int, -ONE),
        ],
        '-' => seq![
            corners(-ONE, HALF as int, ONE as int, -HALF),
        ],
        '.' => seq![
            corners(-HALF, -ONE + THICK, HALF as int, -ONE),
        ],
        '/' => seq![
            corners(-HALF, HALF as int, HALF as int, -HALF),
        ],
        '0' => seq![
            corners(-ONE, ONE as int, -ONE + THICK, -ONE),
            corners(-ONE + THICK, ONE as int, ONE - THICK, ONE - THICK),
            corners(-ONE + THICK, -ONE + THICK, ONE - THICK, -ONE),
            corners(ONE - THICK, ONE as int, ONE as int, -ONE),
        ],
        '1' => seq![
            corners(-HALF, ONE as int, HALF as int, -ONE),
        ],
        '2' => seq![
            corners(-ONE, ONE - THICK, -ONE + THICK, ONE - THICK * 2),
            corners(-ONE + THICK, ONE as int, ONE - THICK, ONE - THICK),
            corners(ONE - THICK, ONE - THICK, ONE as int, -ONE + THICK * 3),
            corners(0, -ONE + THICK * 3, ONE - THICK, -ONE + THICK * 2),
            corners(-ONE + THICK, -ONE + THICK * 2, 0, -ONE + THICK),
            corners(-ONE, -ONE + THICK, ONE as int, -ONE),
        ],
        '3' => seq![
            corners(-ONE, ONE as int, ONE - THICK, ONE - THICK),
            corners(-ONE, HALF as int, ONE - THICK, -HALF),
            corners(-ONE, -ONE + THICK, ONE - THICK, -ONE),
            corners(ONE - THICK, ONE as int, ONE as int, -ONE),
        ],
        '4' => seq![
            corners(-ONE, ONE as int, -ONE + THICK, -HALF),
            corners(-ONE + THICK, HALF as int, ONE as int, -HALF),
            corners(ONE - THICK * 2, ONE as int, ONE - THICK, HALF as int),
            corners(ONE - THICK * 2, -HALF, ONE - THICK, -ONE),
        ],
        '5' => seq![
            corners(-ONE, ONE as int, -ONE + THICK, -HALF),
            corners(-ONE + THICK, ONE as int, ONE as int, ONE - THICK),
            corners(-ONE + THICK, HALF as int, ONE - THICK, -HALF),
            corners(-ONE, -ONE + THICK, ONE - THICK, -ONE),
            corners(ONE - THICK, HALF as int, ONE as int, -ONE),
        ],
        '6' => seq![
            corners(-ONE, ONE as int, -ONE + THICK, -ONE),
            corners(-ONE + THICK, ONE as int, ONE as int, ONE - THICK),
            corners(-ONE + THICK, HALF as int, ONE - THICK, -HALF),
            corners(-ONE + THICK, -ONE + THICK, ONE - THICK, -ONE),
            corners(ONE - THICK, HALF as int, ONE as int, -ONE),
        ],
        '7' => seq![
            corners(-ONE, ONE as int, ONE - THICK, ONE - THICK),
            corners(ONE - THICK, ONE as int, ONE as int, -ONE),
        ],
        '8' => seq![
            corners(-ONE, ONE as int, -ONE + THICK, -ONE),
            corners(-ONE + THICK, ONE as int, ONE - THICK, ONE - THICK),
            corners(-ONE + THICK, HALF as int, ONE - THICK, -HALF),
            corners(-ONE + THICK, -ONE + THICK, ONE - THICK, -ONE),
            corners(ONE - THICK, ONE as int, ONE as int, -ONE),
        ],
        '9' => seq![
            corners(-ONE, ONE as int, -ONE + THICK, -HALF),
            corners(-ONE + THICK, ONE as int, ONE - THICK, ONE - THICK),
            corners(-ONE + THICK, HALF as int, ONE - THICK, -HALF),
            corners(ONE - THICK, ONE as int, ONE as int, -ONE),
        ],
        'A' => seq![
            corners(-ONE, ONE as int, -ONE + THICK, -ONE),
            corners(-ONE + THICK, ONE as int, ONE - THICK, ONE - THICK),
            corners(-ONE + THICK, ONE - THICK * 3, ONE - THICK, ONE - THICK * 4),
            corners(ONE - THICK, ONE as int, ONE as int, -ONE),
        ],
        'B' => seq![
            corners(-ONE, ONE as int, -ONE + THICK, -ONE),
            corners(-ONE + THICK, ONE as int, ONE - THICK, ONE - THICK),
            corners(-ONE + THICK, HALF as int, ONE - THICK, -HALF),
            corners(-ONE + THICK, -ONE + THICK, ONE - THICK, -ONE),
            corners(ONE - THICK, ONE - THICK, ONE as int, HALF as int),
            corners(ONE - THICK, -HALF, ONE as int, -ONE + THICK),
        ],
        'C' => seq![
            corners(-ONE, ONE as int, ONE as int, ONE - THICK),
            corners(-ONE, ONE - THICK, -ONE + THICK, -ONE + THICK),
            corners(-ONE, -ONE + THICK, ONE as int, -ONE),
        ],
        'D' => seq![
            corners(-ONE, ONE as int, -ONE + THICK, -ONE),
            corners(-ONE + THICK, ONE as int, ONE - THICK, ONE - THICK),
            corners(-ONE + THICK, -ONE + THICK, ONE - THICK, -ONE),
            corners(ONE - THICK, ONE - THICK, ONE as int, -ONE + THICK),
        ],
        'E' => seq![
            corners(-ONE, ONE as int, -ONE + THICK, -ONE),
            corners(-ONE + THICK, ONE as int, ONE as int, ONE - THICK),
            corners(-ONE + THICK, HALF as int, ONE as int, -HALF),
            corners(-ONE + THICK, -ONE + THICK, ONE as int, -ONE),
        ],
        'F' => seq![
            corners(-ONE, ONE as int, -ONE + THICK, -ONE),
            corners(-ONE + THICK, ONE as int, ONE as int, ONE - THICK),
            corners(-ONE + THICK, HALF as int, ONE as int, -HALF),
        ],
        'G' => seq![
            corners(-ONE, ONE as int, -ONE + THICK, -ONE),
            corners(-ONE + THICK, ONE as int, ONE - THICK, ONE - THICK),
            corners(-ONE + THICK * 3, HALF as int, ONE as int, -HALF),
            corners(-ONE + THICK, -ONE + THICK, THICK as int, -ONE),
            corners(THICK as int, -HALF, THICK * 2, -ONE),
        ],
        'H' => seq![
            corners(-ONE, ONE as int, -ONE + THICK, -ONE),
            corners(-ONE + THICK, HALF as int, ONE - THICK, -HALF),
            corners(ONE - THICK, ONE as int, ONE as int, -ONE),
        ],
        'I' => seq![
            corners(-ONE, ONE as int, ONE as int, ONE - THICK),
            corners(-HALF, ONE - THICK, HALF as int, -ONE + THICK),
            corners(-ONE, -ONE + THICK, ONE as int, -ONE),
        ],
        'J' => seq![
            corners(-ONE, ONE as int, ONE as int, ONE - THICK),
            corners(-HALF, ONE - THICK, HALF as int, -ONE + THICK),
            corners(-ONE, -ONE + THICK, HALF as int, -ONE),
        ],
        'K' => seq![
            corners(-ONE, ONE as int, -ONE + THICK, -ONE),
        ],
        'L' => seq![
            corners(-ONE, ONE as int, -ONE + THICK, -ONE),
            corners(-ONE + THICK, -ONE + THICK, ONE as int, -ONE),
        ],
        'N' => seq![
            corners(-ONE, ONE as int, -ONE + THICK, -ONE),
            corners(ONE - THICK, ONE as int, ONE as int, -ONE),
            corners(-HALF, HALF as int, HALF as int, -HALF),
        ],
        'O' => seq![
            corners(-ONE, ONE as int, -ONE + THICK, -ONE),
            corners(-ONE + THICK, ONE as int, ONE - THICK, ONE - THICK),
            corners(-ONE + THICK, -ONE + THICK, ONE - THICK, -ONE),
            corners(ONE - THICK, ONE as int, ONE as int, -ONE),
        ],
        'P' => seq![
            corners(-ONE, ONE as int, -ONE + THICK, -ONE),
            corners(-ONE + THICK, ONE as int, ONE - THICK, ONE - THICK),
            corners(-ONE + THICK, HALF as int, ONE - THICK, -HALF),
            corners(ONE - THICK, ONE as int, ONE as int, -HALF),
        ],
        'Q' => seq![
            corners(-ONE, ONE as int, -ONE + THICK, -ONE),
            corners(-ONE + THICK, ONE as int, ONE - THICK, ONE - THICK),
            corners(-ONE + THICK, -ONE + THICK, ONE - THICK * 2, -ONE),
            corners(ONE - THICK, ONE as int, ONE as int, -ONE + THICK * 2),
            corners(ONE - THICK, -ONE + THICK, ONE as int, -ONE),
            corners(ONE - THICK * 2, -ONE + THICK * 2, ONE - THICK, -ONE + THICK),
            corners(ONE - THICK * 3, -ONE + THICK * 3, ONE - THICK * 2, -ONE + THICK * 2),
        ],
        'R' => seq![
            corners(-ONE, ONE as int, -ONE + THICK, -ONE),
            corners(-ONE + THICK, ONE as int, ONE - THICK, ONE - THICK),
            corners(-ONE + THICK, HALF as int, ONE - THICK, -HALF),
            corners(ONE - THICK, ONE as int, ONE as int, -HALF),
        ],
        'S' => seq![
            corners(-ONE, ONE as int, -ONE + THICK, -HALF),
            corners(-ONE + THICK, ONE as int, ONE as int, ONE - THICK),
            corners(-ONE + THICK, HALF as int, ONE - THICK, -HALF),
            corners(-ONE, -ONE + THICK, ONE - THICK, -ONE),
            corners(ONE - THICK, HALF as int, ONE as int, -ONE),
        ],
        'T' => seq![
            corners(-ONE, ONE as int, ONE as int, ONE - THICK),
            corners(-HALF, ONE - THICK, HALF as int, -ONE),
        ],
        'U' => seq![
            corners(-ONE, ONE as int, -ONE + THICK, -ONE),
            corners(-ONE + THICK, -ONE + THICK, ONE - THICK, -ONE),
            corners(ONE - THICK, ONE as int, ONE as int, -ONE),
        ],
        'V' => seq![
            corners(-HALF, -ONE + THICK, HALF as int, -ONE),
        ],
        'X' => seq![
            corners(-HALF, HALF as int, HALF as int, -HALF),
        ],
        'Y' => seq![
            corners(-ONE, ONE as int, -ONE + THICK, -HALF),
            corners(-ONE + THICK, HALF as int, ONE - THICK, -HALF),
            corners(ONE - THICK, ONE as int, ONE as int, -HALF),
            corners(-HALF, -HALF, HALF as int, -ONE),
        ],
        _ => seq![corners(-HALF, HALF as int, HALF as int, -HALF)],
    }
}

/// The staircase that finishes `c`, if it is drawn with a diagonal.
pub open spec fn staircase_of(c: char) -> Option<Staircase> {
    match c {
        '/' => Some(Staircase::Slash),
        'K' => Some(Staircase::Kay),
        'N' => Some(Staircase::Backslash),
        'R' => Some(Staircase::Leg),
        'V' => Some(Staircase::Vee),
        'X' => Some(Staircase::Cross),
        _ => None,
    }
}

/// The strokes that draw `c`, relative to the centre of its cell.
///
/// A space has none, and a character that the font does not know is a small square in
/// the middle of the cell.
pub open spec fn strokes(c: char) -> Seq<Points> {
    match staircase_of(c) {
        Some(kind) => fixed_strokes(c) + kind.steps_from(1),
        None => fixed_strokes(c),
    }
}

impl Staircase {
    /// Whether step `i` still lies inside the cell, so that it is drawn.
    fn step_is_drawn(self, i: i64) -> (r: bool)
        requires
            1 <= i <= 16,
        ensures
            r == self.continues(i as int),
    {
        let m: i64 = HALF + THICK * i;
        match self {
            Staircase::Slash | Staircase::Backslash | Staircase::Cross => m <= ONE,
            Staircase::Kay => THICK * i <= ONE && -ONE + THICK * (i + 1) <= ONE,
            Staircase::Leg => -ONE + THICK * 2 + i * leg_step_width() <= ONE && -m >= -ONE,
            Staircase::Vee => -ONE + THICK + i * vee_step_height() <= ONE && m <= ONE,
        }
    }

    /// Appends the strokes of step `i`.
    fn push_step(self, i: i64, strokes: &mut Vec<Points>)
        requires
            1 <= i <= 16,
        ensures
            final(strokes)@ == old(strokes)@ + self.step(i as int),
    {
        let m: i64 = HALF + THICK * i;
        match self {
            Staircase::Slash => {
                push_stroke(strokes, m - THICK, m, m, m - THICK);
                push_stroke(strokes, -m, -m + THICK, -m + THICK, -m);
            },
            Staircase::Backslash => {
                push_stroke(strokes, -m, m, -m + THICK, m - THICK);
                push_stroke(strokes, m - THICK, -m + THICK, m, -m);
            },
            Staircase::Cross => {
                push_stroke(strokes, m - THICK, m, m, m - THICK);
                push_stroke(strokes, -m, m, -m + THICK, m - THICK);
                push_stroke(strokes, m - THICK, -m + THICK, m, -m);
                push_stroke(strokes, -m, -m + THICK, -m + THICK, -m);
            },
            Staircase::Kay => {
                let maxy: i64 = THICK * i;
                let maxx: i64 = -ONE + THICK * (i + 1);
                push_stroke(strokes, maxx - THICK, maxy, maxx, maxy - THICK);
                push_stroke(strokes, maxx - THICK, -maxy + THICK, maxx, -maxy);
            },
            Staircase::Leg => {
                let width: i64 = leg_step_width();
                let maxx: i64 = -ONE + THICK * 2 + i * width;
                let miny: i64 = -m;
                push_stroke(strokes, maxx - width, miny + THICK, maxx, miny);
            },
            Staircase::Vee => {
                let height: i64 = vee_step_height();
                let maxy: i64 = -ONE + THICK + i * height;
                push_stroke(strokes, m - THICK, maxy, m, maxy - height);
                push_stroke(strokes, -m, maxy, -m + THICK, maxy - height);
            },
        }
    }
}

/// The width of one step of the leg of `R`.
fn leg_step_width() -> (r: i64)
    ensures
        r == Staircase::leg_width(),
        r == 32768,
{
    (2 * ONE - 2 * THICK) / ((2 * ONE - THICK) / (2 * THICK))
}

/// The height of one step of the arms of `V`.
fn vee_step_height() -> (r: i64)
    ensures
        r == Staircase::vee_height(),
        r == 36864,
{
    THICK * 9 / 4
}

/// Appends the steps of a staircase, from the first one to the last one that still lies
/// inside the cell.
fn push_staircase(kind: Staircase, strokes: &mut Vec<Points>)
    ensures
        final(strokes)@ == old(strokes)@ + kind.steps_from(1),
{
    let mut i: i64 = 1;
    while kind.step_is_drawn(i)
        invariant
            1 <= i <= 16,
            strokes@ + kind.steps_from(i as int) == old(strokes)@ + kind.steps_from(1),
        decreases 2 * ONE - THICK * i,
    {
        let ghost before = strokes@;
        kind.push_step(i, strokes);
        assert(strokes@ + kind.steps_from(i + 1) =~= before + kind.steps_from(i as int));
        i = i + 1;
    }
}

/// Appends the rectangle with the given corners, in raw steps.
fn push_stroke(strokes: &mut Vec<Points>, p1x: i64, p1y: i64, p2x: i64, p2y: i64)
    requires
        -LIMIT <= p1x <= LIMIT,
        -LIMIT <= p1y <= LIMIT,
        -LIMIT <= p2x <= LIMIT,
        -LIMIT <= p2y <= LIMIT,
    ensures
        final(strokes)@ == old(strokes)@.push(corners(p1x as int, p1y as int, p2x as int, p2y as int)),
{
    strokes.push(
        Points {
            p1x: Fixed::from_raw(p1x),
            p1y: Fixed::from_raw(p1y),
            p2x: Fixed::from_raw(p2x),
            p2y: Fixed::from_raw(p2y),
        },
    );
}

/// The strokes that draw `c`, relative to the centre of its cell.
pub fn glyph_strokes(c: char) -> (strokes: Vec<Points>)
    ensures
        strokes@ == self::strokes(c),
{
    let mut strokes: Vec<Points> = Vec::new();
    match c {
        ' ' => {},
        ':' => {
            push_stroke(&mut strokes, -HALF, ONE / 2 + HALF, HALF, ONE / 2 - HALF);
            push_stroke(&mut strokes, -HALF, -ONE / 2 + HALF, HALF, -ONE / 2 - HALF);
        },
        '+' => {
            push_stroke(&mut strokes, -ONE, HALF, ONE, -HALF);
            push_stroke(&mut strokes, -HALF, ONE, HALF, HALF);
            push_stroke(&mut strokes, -HALF, -HALF, HALF, -ONE);
        },
        '-' => {
            push_stroke(&mut strokes, -ONE, HALF, ONE, -HALF);
        },
        '.' => {
            push_stroke(&mut strokes, -HALF, -ONE + THICK, HALF, -ONE);
        },
        '/' => {
            push_stroke(&mut strokes, -HALF, HALF, HALF, -HALF);
            push_staircase(Staircase::Slash, &mut strokes);
        },
        '0' => {
            push_stroke(&mut strokes, -ONE, ONE, -ONE + THICK, -ONE);
            push_stroke(&mut strokes, -ONE + THICK, ONE, ONE - THICK, ONE - THICK);
            push_stroke(&mut strokes, -ONE + THICK, -ONE + THICK, ONE - THICK, -ONE);
            push_stroke(&mut strokes, ONE - THICK, ONE, ONE, -ONE);
        },
        '1' => {
            push_stroke(&mut strokes, -HALF, ONE, HALF, -ONE);
        },
        '2' => {
            push_stroke(&mut strokes, -ONE, ONE - THICK, -ONE + THICK, ONE - THICK * 2);
            push_stroke(&mut strokes, -ONE + THICK, ONE, ONE - THICK, ONE - THICK);
            push_stroke(&mut strokes, ONE - THICK, ONE - THICK, ONE, -ONE + THICK * 3);
            push_stroke(&mut strokes, 0, -ONE + THICK * 3, ONE - THICK, -ONE + THICK * 2);
            push_stroke(&mut strokes, -ONE + THICK, -ONE + THICK * 2, 0, -ONE + THICK);
            push_stroke(&mut strokes, -ONE, -ONE + THICK, ONE, -ONE);
        },
        '3' => {
            push_stroke(&mut strokes, -ONE, ONE, ONE - THICK, ONE - THICK);
            push_stroke(&mut strokes, -ONE, HALF, ONE - THICK, -HALF);
            push_stroke(&mut strokes, -ONE, -ONE + THICK, ONE - THICK, -ONE);
            push_stroke(&mut strokes, ONE - THICK, ONE, ONE, -ONE);
        },
        '4' => {
            push_stroke(&mut strokes, -ONE, ONE, -ONE + THICK, -HALF);
            push_stroke(&mut strokes, -ONE + THICK, HALF, ONE, -HALF);
            push_stroke(&mut strokes, ONE - THICK * 2, ONE, ONE - THICK, HALF);
            push_stroke(&mut strokes, ONE - THICK * 2, -HALF, ONE - THICK, -ONE);
        },
        '5' => {
            push_stroke(&mut strokes, -ONE, ONE, -ONE + THICK, -HALF);
            push_stroke(&mut strokes, -ONE + THICK, ONE, ONE, ONE - THICK);
            push_stroke(&mut strokes, -ONE + THICK, HALF, ONE - THICK, -HALF);
            push_stroke(&mut strokes, -ONE, -ONE + THICK, ONE - THICK, -ONE);
            push_stroke(&mut strokes, ONE - THICK, HALF, ONE, -ONE);
        },
        '6' => {
            push_stroke(&mut strokes, -ONE, ONE, -ONE + THICK, -ONE);
            push_stroke(&mut strokes, -ONE + THICK, ONE, ONE, ONE - THICK);
            push_stroke(&mut strokes, -ONE + THICK, HALF, ONE - THICK, -HALF);
            push_stroke(&mut strokes, -ONE + THICK, -ONE + THICK, ONE - THICK, -ONE);
            push_stroke(&mut strokes, ONE - THICK, HALF, ONE, -ONE);
        },
        '7' => {
            push_stroke(&mut strokes, -ONE, ONE, ONE - THICK, ONE - THICK);
            push_stroke(&mut strokes, ONE - THICK, ONE, ONE, -ONE);
        },
        '8' => {
            push_stroke(&mut strokes, -ONE, ONE, -ONE + THICK, -ONE);
            push_stroke(&mut strokes, -ONE + THICK, ONE, ONE - THICK, ONE - THICK);
            push_stroke(&mut strokes, -ONE + THICK, HALF, ONE - THICK, -HALF);
            push_stroke(&mut strokes, -ONE + THICK, -ONE + THICK, ONE - THICK, -ONE);
            push_stroke(&mut strokes, ONE - THICK, ONE, ONE, -ONE);
        },
        '9' => {
            push_stroke(&mut strokes, -ONE, ONE, -ONE + THICK, -HALF);
            push_stroke(&mut strokes, -ONE + THICK, ONE, ONE - THICK, ONE - THICK);
            push_stroke(&mut strokes, -ONE + THICK, HALF, ONE - THICK, -HALF);
            push_stroke(&mut strokes, ONE - THICK, ONE, ONE, -ONE);
        },
        'A' => {
            push_stroke(&mut strokes, -ONE, ONE, -ONE + THICK, -ONE);
            push_stroke(&mut strokes, -ONE + THICK, ONE, ONE - THICK, ONE - THICK);
            push_stroke(&mut strokes, -ONE + THICK, ONE - THICK * 3, ONE - THICK, ONE - THICK * 4);
            push_stroke(&mut strokes, ONE - THICK, ONE, ONE, -ONE);
        },
        'B' => {
            push_stroke(&mut strokes, -ONE, ONE, -ONE + THICK, -ONE);
            push_stroke(&mut strokes, -ONE + THICK, ONE, ONE - THICK, ONE - THICK);
            push_stroke(&mut strokes, -ONE + THICK, HALF, ONE - THICK, -HALF);
            push_stroke(&mut strokes, -ONE + THICK, -ONE + THICK, ONE - THICK, -ONE);
            push_stroke(&mut strokes, ONE - THICK, ONE - THICK, ONE, HALF);
            push_stroke(&mut strokes, ONE - THICK, -HALF, ONE, -ONE + THICK);
        },
        'C' => {
            push_stroke(&mut strokes, -ONE, ONE, ONE, ONE - THICK);
            push_stroke(&mut strokes, -ONE, ONE - THICK, -ONE + THICK, -ONE + THICK);
            push_stroke(&mut strokes, -ONE, -ONE + THICK, ONE, -ONE);
        },
        'D' => {
            push_stroke(&mut strokes, -ONE, ONE, -ONE + THICK, -ONE);
            push_stroke(&mut strokes, -ONE + THICK, ONE, ONE - THICK, ONE - THICK);
            push_stroke(&mut strokes, -ONE + THICK, -ONE + THICK, ONE - THICK, -ONE);
            push_stroke(&mut strokes, ONE - THICK, ONE - THICK, ONE, -ONE + THICK);
        },
        'E' => {
            push_stroke(&mut strokes, -ONE, ONE, -ONE + THICK, -ONE);
            push_stroke(&mut strokes, -ONE + THICK, ONE, ONE, ONE - THICK);
            push_stroke(&mut strokes, -ONE + THICK, HALF, ONE, -HALF);
            push_stroke(&mut strokes, -ONE + THICK, -ONE + THICK, ONE, -ONE);
        },
        'F' => {
            push_stroke(&mut strokes, -ONE, ONE, -ONE + THICK, -ONE);
            push_stroke(&mut strokes, -ONE + THICK, ONE, ONE, ONE - THICK);
            push_stroke(&mut strokes, -ONE + THICK, HALF, ONE, -HALF);
        },
        'G' => {
            push_stroke(&mut strokes, -ONE, ONE, -ONE + THICK, -ONE);
            push_stroke(&mut strokes, -ONE + THICK, ONE, ONE - THICK, ONE - THICK);
            push_stroke(&mut strokes, -ONE + THICK * 3, HALF, ONE, -HALF);
            push_stroke(&mut strokes, -ONE + THICK, -ONE + THICK, THICK, -ONE);
            push_stroke(&mut strokes, THICK, -HALF, THICK * 2, -ONE);
        },
        'H' => {
            push_stroke(&mut strokes, -ONE, ONE, -ONE + THICK, -ONE);
            push_stroke(&mut strokes, -ONE + THICK, HALF, ONE - THICK, -HALF);
            push_stroke(&mut strokes, ONE - THICK, ONE, ONE, -ONE);
        },
        'I' => {
            push_stroke(&mut strokes, -ONE, ONE, ONE, ONE - THICK);
            push_stroke(&mut strokes, -HALF, ONE - THICK, HALF, -ONE + THICK);
            push_stroke(&mut strokes, -ONE, -ONE + THICK, ONE, -ONE);
        },
        'J' => {
            push_stroke(&mut strokes, -ONE, ONE, ONE, ONE - THICK);
            push_stroke(&mut strokes, -HALF, ONE - THICK, HALF, -ONE + THICK);
            push_stroke(&mut strokes, -ONE, -ONE + THICK, HALF, -ONE);
        },
        'K' => {
            push_stroke(&mut strokes, -ONE, ONE, -ONE + THICK, -ONE);
            push_staircase(Staircase::Kay, &mut strokes);
        },
        'L' => {
            push_stroke(&mut strokes, -ONE, ONE, -ONE + THICK, -ONE);
            push_stroke(&mut strokes, -ONE + THICK, -ONE + THICK, ONE, -ONE);
        },
        'N' => {
            push_stroke(&mut strokes, -ONE, ONE, -ONE + THICK, -ONE);
            push_stroke(&mut strokes, ONE - THICK, ONE, ONE, -ONE);
            push_stroke(&mut strokes, -HALF, HALF, HALF, -HALF);
            push_staircase(Staircase::Backslash, &mut strokes);
        },
        'O' => {
            push_stroke(&mut strokes, -ONE, ONE, -ONE + THICK, -ONE);
            push_stroke(&mut strokes, -ONE + THICK, ONE, ONE - THICK, ONE - THICK);
            push_stroke(&mut strokes, -ONE + THICK, -ONE + THICK, ONE - THICK, -ONE);
            push_stroke(&mut strokes, ONE - THICK, ONE, ONE, -ONE);
        },
        'P' => {
            push_stroke(&mut strokes, -ONE, ONE, -ONE + THICK, -ONE);
            push_stroke(&mut strokes, -ONE + THICK, ONE, ONE - THICK, ONE - THICK);
            push_stroke(&mut strokes, -ONE + THICK, HALF, ONE - THICK, -HALF);
            push_stroke(&mut strokes, ONE - THICK, ONE, ONE, -HALF);
        },
        'Q' => {
            push_stroke(&mut strokes, -ONE, ONE, -ONE + THICK, -ONE);
            push_stroke(&mut strokes, -ONE + THICK, ONE, ONE - THICK, ONE - THICK);
            push_stroke(&mut strokes, -ONE + THICK, -ONE + THICK, ONE - THICK * 2, -ONE);
            push_stroke(&mut strokes, ONE - THICK, ONE, ONE, -ONE + THICK * 2);
            push_stroke(&mut strokes, ONE - THICK, -ONE + THICK, ONE, -ONE);
            push_stroke(&mut strokes, ONE - THICK * 2, -ONE + THICK * 2, ONE - THICK, -ONE + THICK);
            push_stroke(&mut strokes, ONE - THICK * 3, -ONE + THICK * 3, ONE - THICK * 2, -ONE + THICK * 2);
        },
        'R' => {
            push_stroke(&mut strokes, -ONE, ONE, -ONE + THICK, -ONE);
            push_stroke(&mut strokes, -ONE + THICK, ONE, ONE - THICK, ONE - THICK);
            push_stroke(&mut strokes, -ONE + THICK, HALF, ONE - THICK, -HALF);
            push_stroke(&mut strokes, ONE - THICK, ONE, ONE, -HALF);
            push_staircase(Staircase::Leg, &mut strokes);
        },
        'S' => {
            push_stroke(&mut strokes, -ONE, ONE, -ONE + THICK, -HALF);
            push_stroke(&mut strokes, -ONE + THICK, ONE, ONE, ONE - THICK);
            push_stroke(&mut strokes, -ONE + THICK, HALF, ONE - THICK, -HALF);
            push_stroke(&mut strokes, -ONE, -ONE + THICK, ONE - THICK, -ONE);
            push_stroke(&mut strokes, ONE - THICK, HALF, ONE, -ONE);
        },
        'T' => {
            push_stroke(&mut strokes, -ONE, ONE, ONE, ONE - THICK);
            push_stroke(&mut strokes, -HALF, ONE - THICK, HALF, -ONE);
        },
        'U' => {
            push_stroke(&mut strokes, -ONE, ONE, -ONE + THICK, -ONE);
            push_stroke(&mut strokes, -ONE + THICK, -ONE + THICK, ONE - THICK, -ONE);
            push_stroke(&mut strokes, ONE - THICK, ONE, ONE, -ONE);
        },
        'V' => {
            push_stroke(&mut strokes, -HALF, -ONE + THICK, HALF, -ONE);
            push_staircase(Staircase::Vee, &mut strokes);
        },
        'X' => {
            push_stroke(&mut strokes, -HALF, HALF, HALF, -HALF);
            push_staircase(Staircase::Cross, &mut strokes);
        },
        'Y' => {
            push_stroke(&mut strokes, -ONE, ONE, -ONE + THICK, -HALF);
            push_stroke(&mut strokes, -ONE + THICK, HALF, ONE - THICK, -HALF);
            push_stroke(&mut strokes, ONE - THICK, ONE, ONE, -HALF);
            push_stroke(&mut strokes, -HALF, -HALF, HALF, -ONE);
        },
        _ => {
            push_stroke(&mut strokes, -HALF, HALF, HALF, -HALF);
        },
    }
    strokes
}

/// The sizes of the steps of the leg of `R` and of the arms of `V`, in raw steps.
pub proof fn lemma_step_sizes()
    ensures
        Staircase::leg_width() == 32768,
        Staircase::vee_height() == 36864,
{
    assert((2 * ONE - THICK) / (2 * THICK) == 3) by (nonlinear_arith)
        requires
            ONE == 65536,
            THICK == 16384,
    ;
    assert((2 * ONE - 2 * THICK) / 3 == 32768) by (nonlinear_arith)
        requires
            ONE == 65536,
            THICK == 16384,
    ;
    assert(THICK * 9 / 4 == 36864) by (nonlinear_arith)
        requires
            THICK == 16384,
    ;
}

/// Every step of a staircase that is drawn is a proper rectangle inside the cell.
pub proof fn lemma_steps_in_cell(kind: Staircase, i: int)
    requires
        i >= 1,
    ensures
        forall|j: int| 0 <= j < kind.steps_from(i).len() ==> in_cell(#[trigger] kind.steps_from(i)[j]),
    decreases 2 * ONE - THICK * i,
{
    broadcast use Fixed::lemma_of_view;

    if kind.continues(i) {
        lemma_steps_in_cell(kind, i + 1);
        lemma_step_sizes();
        let step = kind.step(i);
        assert forall|j: int| 0 <= j < kind.steps_from(i).len() implies in_cell(
            #[trigger] kind.steps_from(i)[j],
        ) by {
            if j >= step.len() {
                assert(kind.steps_from(i)[j] == kind.steps_from(i + 1)[j - step.len()]);
            }
        }
    }
}

/// Every stroke of every character is a proper rectangle inside the cell of the
/// character.
pub proof fn lemma_strokes_in_cell(c: char)
    ensures
        forall|j: int| 0 <= j < strokes(c).len() ==> in_cell(#[trigger] strokes(c)[j]),
{
    broadcast use Fixed::lemma_of_view;

    match staircase_of(c) {
        Some(kind) => {
            lemma_steps_in_cell(kind, 1);
        },
        None => {},
    }
}

} // verus!
