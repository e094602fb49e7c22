//! Laying out a text with the glyphs of a font, in font units, and fitting the block
//! into a placement area with one transform.

use vstd::prelude::*;
use crate::curve::{CubeCurve, SquareCurve};
use crate::fixed::{lemma_product_bound, sat, Fixed, LIMIT, ONE};
use crate::line::{LineDescriptor, LineRaw};
use crate::rect::{
    box_from_fill_aspect, fit, fit_coordinate, lemma_centered_fit, lemma_fit_ends, lemma_fit_within,
    points_from_box, FillAspect, Points, SizeAndCenter,
};
use crate::ttf::{
    after_answer, answer, glyph_number, shape_of, Answer, CachedFace, Glyph, GlyphLookup, GlyphShape,
};
use owned_ttf_parser::OwnedFace;

verus! {

/// The width that a space takes up where the font has no glyph for it: 200 font units.
pub const SPACE_ADVANCE: i64 = 200 * ONE;

/// The gap between the bounding boxes of two neighbouring glyphs: 50 font units.
pub const GLYPH_SPACING: i64 = 50 * ONE;

/// How far a space without a glyph moves the right end of a block: its advance and the
/// gap before it.
pub const SPACE_PITCH: i64 = GLYPH_SPACING + SPACE_ADVANCE;

/// A line moved to the right by `offset`.
pub open spec fn shifted(line: LineDescriptor, offset: int) -> LineRaw {
    LineRaw::spec_new(
        Fixed::clamped(line.p1x@ + offset),
        line.p1y,
        Fixed::clamped(line.p2x@ + offset),
        line.p2y,
    )
}

/// Lines moved to the right by `offset`.
pub open spec fn shifted_lines(lines: Seq<LineDescriptor>, offset: int) -> Seq<LineRaw> {
    lines.map_values(|line: LineDescriptor| shifted(line, offset))
}

/// Quadratic curves, each flattened into `parts` segments and moved to the right by
/// `offset`, one curve after the other.
pub open spec fn shifted_quadratics(curves: Seq<SquareCurve>, offset: int, parts: int) -> Seq<LineRaw>
    decreases curves.len(),
{
    if curves.len() == 0 {
        Seq::empty()
    } else {
        shifted_quadratics(curves.drop_last(), offset, parts) + shifted_lines(
            curves.last().segments(parts),
            offset,
        )
    }
}

/// Cubic curves, each flattened into `parts` segments and moved to the right by
/// `offset`, one curve after the other.
pub open spec fn shifted_cubics(curves: Seq<CubeCurve>, offset: int, parts: int) -> Seq<LineRaw>
    decreases curves.len(),
{
    if curves.len() == 0 {
        Seq::empty()
    } else {
        shifted_cubics(curves.drop_last(), offset, parts) + shifted_lines(
            curves.last().segments(parts),
            offset,
        )
    }
}

/// The lines that draw a glyph placed `offset` to the right: its "on" lines, its "off"
/// lines, its quadratic curves and its cubic curves, in this order.
pub open spec fn glyph_lines(glyph: GlyphShape, offset: int, parts: int) -> Seq<LineRaw> {
    shifted_lines(glyph.on_lines, offset) + shifted_lines(glyph.off_lines, offset)
        + shifted_quadratics(glyph.square_curves, offset, parts) + shifted_cubics(
        glyph.cube_curves,
        offset,
        parts,
    )
}

/// What stands for a space that the font has no glyph for: no outline, no height, and
/// the width `SPACE_ADVANCE`.
pub open spec fn space_shape() -> GlyphShape {
    GlyphShape {
        tight_bounding_box: Points {
            p1x: Fixed::of(0),
            p1y: Fixed::of(0),
            p2x: Fixed::of(SPACE_ADVANCE as int),
            p2y: Fixed::of(0),
        },
        on_lines: Seq::empty(),
        off_lines: Seq::empty(),
        square_curves: Seq::empty(),
        cube_curves: Seq::empty(),
    }
}

/// The glyph that is laid out for the character `c`, given what the font has for it.
/// A character without a glyph is left out, unless it is a space.
pub open spec fn glyph_to_lay_out(c: char, glyph: Option<GlyphShape>) -> Option<GlyphShape> {
    match glyph {
        Some(glyph) => Some(glyph),
        None => if c == ' ' {
            Some(space_shape())
        } else {
            None
        },
    }
}

/// A block of text in font units while it is laid out from left to right.
pub struct Layout {
    /// The lines of the glyphs laid out so far.
    pub lines: Seq<LineRaw>,
    /// The box around the glyphs laid out so far, or `None` before the first one.
    pub bounds: Option<Points>,
    /// The box of each glyph laid out so far.
    pub char_bounds: Seq<Points>,
}

impl Layout {
    /// The block before the first glyph.
    pub open spec fn start() -> Layout {
        Layout { lines: Seq::empty(), bounds: None, char_bounds: Seq::empty() }
    }

    /// How far the next glyph is moved to the right: its tight left bound comes to lie
    /// `GLYPH_SPACING` right of the block so far.
    pub open spec fn offset_for(self, glyph: GlyphShape) -> int {
        let right = match self.bounds {
            Some(bounds) => bounds.p2x@,
            None => 0,
        };
        sat(right - glyph.tight_bounding_box.p1x@ + GLYPH_SPACING)
    }

    /// The box of the next glyph in the block: its bounding box moved to the right, its
    /// height as the font has it.
    pub open spec fn placed_box(self, glyph: GlyphShape) -> Points {
        let offset = self.offset_for(glyph);
        Points {
            p1x: Fixed::clamped(offset + glyph.tight_bounding_box.p1x@),
            p1y: glyph.tight_bounding_box.p1y,
            p2x: Fixed::clamped(offset + glyph.tight_bounding_box.p2x@),
            p2y: glyph.tight_bounding_box.p2y,
        }
    }

    /// The smallest box around `bounds` and `added`.
    pub open spec fn grown(bounds: Option<Points>, added: Points) -> Points {
        match bounds {
            None => added,
            Some(bounds) => Points {
                p1x: if added.p1x@ < bounds.p1x@ {
                    added.p1x
                } else {
                    bounds.p1x
                },
                p1y: if added.p1y@ > bounds.p1y@ {
                    added.p1y
                } else {
                    bounds.p1y
                },
                p2x: if added.p2x@ > bounds.p2x@ {
                    added.p2x
                } else {
                    bounds.p2x
                },
                p2y: if added.p2y@ < bounds.p2y@ {
                    added.p2y
                } else {
                    bounds.p2y
                },
            },
        }
    }

    /// The block with one more glyph at its right end.
    pub open spec fn with_glyph(self, glyph: GlyphShape, parts: int) -> Layout {
        Layout {
            lines: self.lines + glyph_lines(glyph, self.offset_for(glyph), parts),
            bounds: Some(Self::grown(self.bounds, self.placed_box(glyph))),
            char_bounds: self.char_bounds.push(self.placed_box(glyph)),
        }
    }

    /// The block with one more character, which adds a glyph or nothing.
    pub open spec fn with_character(self, c: char, glyph: Option<GlyphShape>, parts: int) -> Layout {
        match glyph_to_lay_out(c, glyph) {
            Some(glyph) => self.with_glyph(glyph, parts),
            None => self,
        }
    }

    /// The block of a whole text, given each character with what the font has for it.
    pub open spec fn of(text: Seq<(char, Option<GlyphShape>)>, parts: int) -> Layout
        decreases text.len(),
    {
        if text.len() == 0 {
            Layout::start()
        } else {
            Layout::of(text.drop_last(), parts).with_character(text.last().0, text.last().1, parts)
        }
    }

    /// What a finished block hands out: its lines, its bounds and the bounds of its
    /// glyphs. A block without a glyph hands out no lines and the empty box at the
    /// origin.
    pub open spec fn finish(self) -> (Seq<LineRaw>, Points, Seq<Points>) {
        match self.bounds {
            Some(bounds) => (self.lines, bounds, self.char_bounds),
            None => (
                Seq::empty(),
                Points { p1x: Fixed::of(0), p1y: Fixed::of(0), p2x: Fixed::of(0), p2y: Fixed::of(0) },
                Seq::empty(),
            ),
        }
    }
}

/// The characters of a text, each with what its glyph holds.
pub open spec fn shapes(glyphs: Seq<(char, Option<Glyph>)>) -> Seq<(char, Option<GlyphShape>)> {
    glyphs.map_values(|entry: (char, Option<Glyph>)| (entry.0, shape_of(entry.1)))
}

/// Appends `lines`, moved to the right by `offset`.
fn push_shifted(lines: &Vec<LineDescriptor>, offset: Fixed, block: &mut Vec<LineRaw>)
    ensures
        final(block)@ == old(block)@ + shifted_lines(lines@, offset@),
{
    let shift: i128 = offset.wide();
    for index in 0..lines.len()
        invariant
            shift == offset@,
            -LIMIT <= shift <= LIMIT,
            block@ == old(block)@ + shifted_lines(lines@, offset@).take(index as int),
    {
        let line = lines[index];
        block.push(
            LineRaw::new(
                Fixed::saturate(line.p1x.wide() + shift),
                line.p1y,
                Fixed::saturate(line.p2x.wide() + shift),
                line.p2y,
            ),
        );
    }
    assert(shifted_lines(lines@, offset@).take(lines@.len() as int) =~= shifted_lines(
        lines@,
        offset@,
    ));
}

/// Appends the lines that draw `glyph` placed `offset` to the right, with every curve
/// flattened into `parts` segments.
fn push_glyph_lines(glyph: &Glyph, offset: Fixed, parts: u16, block: &mut Vec<LineRaw>)
    ensures
        final(block)@ == old(block)@ + glyph_lines(glyph@, offset@, parts as int),
{
    push_shifted(&glyph.on_lines, offset, block);
    push_shifted(&glyph.off_lines, offset, block);
    let ghost straight = block@;
    for index in 0..glyph.square_curves.len()
        invariant
            block@ == straight + shifted_quadratics(
                glyph.square_curves@.take(index as int),
                offset@,
                parts as int,
            ),
    {
        let quad_lines = glyph.square_curves[index].split_as_lines(parts);
        push_shifted(&quad_lines, offset, block);
        proof {
            let done = glyph.square_curves@.take(index + 1);
            assert(done.drop_last() =~= glyph.square_curves@.take(index as int));
        }
    }
    assert(glyph.square_curves@.take(glyph.square_curves@.len() as int) =~= glyph.square_curves@);
    let ghost quadratic = block@;
    for index in 0..glyph.cube_curves.len()
        invariant
            block@ == quadratic + shifted_cubics(
                glyph.cube_curves@.take(index as int),
                offset@,
                parts as int,
            ),
    {
        let cube_lines = glyph.cube_curves[index].split_as_lines(parts);
        push_shifted(&cube_lines, offset, block);
        proof {
            let done = glyph.cube_curves@.take(index + 1);
            assert(done.drop_last() =~= glyph.cube_curves@.take(index as int));
        }
    }
    assert(glyph.cube_curves@.take(glyph.cube_curves@.len() as int) =~= glyph.cube_curves@);
}

/// What stands for a space that the font has no glyph for.
fn space_glyph() -> (r: Glyph)
    ensures
        r@ == space_shape(),
{
    Glyph {
        tight_bounding_box: Points {
            p1x: Fixed::zero(),
            p1y: Fixed::zero(),
            p2x: Fixed::from_raw(SPACE_ADVANCE),
            p2y: Fixed::zero(),
        },
        on_lines: Vec::new(),
        off_lines: Vec::new(),
        square_curves: Vec::new(),
        cube_curves: Vec::new(),
    }
}

/// The smallest box around `bounds` and `added`.
fn grow(bounds: Option<Points>, added: Points) -> (r: Points)
    ensures
        r == Layout::grown(bounds, added),
{
    match bounds {
        None => added,
        Some(bounds) => Points {
            p1x: if added.p1x.raw() < bounds.p1x.raw() {
                added.p1x
            } else {
                bounds.p1x
            },
            p1y: if added.p1y.raw() > bounds.p1y.raw() {
                added.p1y
            } else {
                bounds.p1y
            },
            p2x: if added.p2x.raw() > bounds.p2x.raw() {
                added.p2x
            } else {
                bounds.p2x
            },
            p2y: if added.p2y.raw() < bounds.p2y.raw() {
                added.p2y
            } else {
                bounds.p2y
            },
        },
    }
}

/// Adds one glyph at the right end of a block.
fn add_glyph(
    glyph: &Glyph,
    parts: u16,
    lines: &mut Vec<LineRaw>,
    bounds: &mut Option<Points>,
    char_bounds: &mut Vec<Points>,
)
    ensures
        (Layout { lines: final(lines)@, bounds: *final(bounds), char_bounds: final(char_bounds)@ })
            == (Layout { lines: old(lines)@, bounds: *old(bounds), char_bounds: old(char_bounds)@ }).with_glyph(
            glyph@,
            parts as int,
        ),
{
    let right: i128 = match bounds {
        Some(bounds) => bounds.p2x.wide(),
        None => 0,
    };
    let left: i128 = glyph.tight_bounding_box.p1x.wide();
    let offset = Fixed::saturate(right - left + GLYPH_SPACING as i128);
    let shift: i128 = offset.wide();
    push_glyph_lines(glyph, offset, parts, lines);
    let placed = Points {
        p1x: Fixed::saturate(shift + left),
        p1y: glyph.tight_bounding_box.p1y,
        p2x: Fixed::saturate(shift + glyph.tight_bounding_box.p2x.wide()),
        p2y: glyph.tight_bounding_box.p2y,
    };
    *bounds = Some(grow(*bounds, placed));
    char_bounds.push(placed);
}

/// Lays out a text from left to right, given each of its characters with the glyph
/// that the font has for it.
///
/// Every glyph is moved so that its tight left bound lies `GLYPH_SPACING` right of the
/// block so far; its lines are appended, with every curve flattened into
/// `curve_line_count` segments. A space without a glyph advances by `SPACE_ADVANCE`, any
/// other character without a glyph is left out. The result holds the lines, the box
/// around the block and the box of every glyph laid out; a text without any glyph
/// gives no lines and the empty box at the origin.
///
/// The count of segments is a `u16`: curves are flattened exactly, and the exact sums
/// fit the widest integer only up to that count.
pub fn layout_glyphs(glyphs: &Vec<(char, Option<Glyph>)>, curve_line_count: u16) -> (r: (
    Vec<LineRaw>,
    Points,
    Vec<Points>,
))
    ensures
        (r.0@, r.1, r.2@) == Layout::of(shapes(glyphs@), curve_line_count as int).finish(),
{
    let mut lines: Vec<LineRaw> = Vec::new();
    let mut bounds: Option<Points> = None;
    let mut char_bounds: Vec<Points> = Vec::new();
    for index in 0..glyphs.len()
        invariant
            (Layout { lines: lines@, bounds, char_bounds: char_bounds@ }) == Layout::of(
                shapes(glyphs@).take(index as int),
                curve_line_count as int,
            ),
    {
        proof {
            let done = shapes(glyphs@).take(index + 1);
            assert(done.drop_last() =~= shapes(glyphs@).take(index as int));
        }
        let entry = &glyphs[index];
        match &entry.1 {
            Some(glyph) => {
                add_glyph(glyph, curve_line_count, &mut lines, &mut bounds, &mut char_bounds);
            },
            None => {
                if entry.0 == ' ' {
                    let space = space_glyph();
                    add_glyph(&space, curve_line_count, &mut lines, &mut bounds, &mut char_bounds);
                }
            },
        }
    }
    assert(shapes(glyphs@).take(glyphs@.len() as int) =~= shapes(glyphs@));
    match bounds {
        Some(bounds) => (lines, bounds, char_bounds),
        None => (Vec::new(), Points::zero(), Vec::new()),
    }
}

/// A character whose outline the cache is waiting for, with its glyph number in the
/// font.
#[derive(Clone, Copy, Debug, PartialEq, Eq, Structural)]
pub struct OutlineRequest {
    pub c: char,
    pub glyph_id: u16,
}

/// How a cache may change while a text is looked up: what was settled stays as it was,
/// and what is new is a character of the text that the font has no glyph number for,
/// recorded to have no glyph.
pub open spec fn cache_grew(
    before: Map<char, Option<GlyphShape>>,
    after: Map<char, Option<GlyphShape>>,
    font: OwnedFace,
    text: Seq<char>,
) -> bool {
    &&& forall|d: char| #[trigger]
        before.contains_key(d) ==> after.contains_key(d) && after[d] == before[d]
    &&& forall|d: char| #[trigger]
        after.contains_key(d) && !before.contains_key(d) ==> text.contains(d) && after[d] is None
            && glyph_number(font, d) is None
}

/// What looking up a text from left to right comes to: the cache it leaves, and the
/// outline it waits for, if any.
///
/// Every character is answered as [`answer`] says for the glyph number that the font
/// has for it. The lookup stops at the first character that waits for its outline; the
/// characters before it that the font has no glyph number for are settled by then.
pub open spec fn gathered(cached: Map<char, Option<GlyphShape>>, font: OwnedFace, text: Seq<char>) -> (
    Map<char, Option<GlyphShape>>,
    Option<OutlineRequest>,
)
    decreases text.len(),
{
    if text.len() == 0 {
        (cached, None)
    } else {
        let c = text.first();
        match answer(cached, c, glyph_number(font, c)) {
            Answer::Outline(glyph_id) => (cached, Some(OutlineRequest { c, glyph_id })),
            Answer::Known(_) => gathered(
                after_answer(cached, c, glyph_number(font, c)),
                font,
                text.drop_first(),
            ),
        }
    }
}

/// The characters of a text, each with what the cache holds for it.
pub open spec fn cached_shapes(text: Seq<char>, cached: Map<char, Option<GlyphShape>>) -> Seq<
    (char, Option<GlyphShape>),
> {
    text.map_values(|c: char| (c, cached[c]))
}

/// Whether the cache has settled every character of a text.
pub open spec fn all_cached(text: Seq<char>, cached: Map<char, Option<GlyphShape>>) -> bool {
    forall|i: int| 0 <= i < text.len() ==> cached.contains_key(#[trigger] text[i])
}

/// Whether `c` is the first character of a text that the cache has not settled.
pub open spec fn is_first_unsettled(text: Seq<char>, cached: Map<char, Option<GlyphShape>>, c: char) -> bool {
    exists|k: int|
        0 <= k < text.len() && #[trigger] text[k] == c && !cached.contains_key(c) && all_cached(
            text.take(k),
            cached,
        )
}

/// Looks up the glyph of every character of a text, from left to right.
///
/// The result is the glyphs in the order of the text, or the first character whose
/// outline has to be supplied before the text can be laid out: the first one that is
/// not settled and that the font has a glyph number for. The cache is left as
/// [`gathered`] says: the characters before that one that the font has no glyph number
/// for are settled to have no glyph.
pub fn gather_glyphs(face: &mut CachedFace, text: &str) -> (r: Result<
    Vec<(char, Option<Glyph>)>,
    OutlineRequest,
>)
    ensures
        final(face).font() == old(face).font(),
        final(face).cached() == gathered(old(face).cached(), old(face).font(), text@).0,
        match r {
            Ok(glyphs) => gathered(old(face).cached(), old(face).font(), text@).1 is None
                && shapes(glyphs@) == cached_shapes(text@, final(face).cached()),
            Err(request) => gathered(old(face).cached(), old(face).font(), text@).1 == Some(request)
                && is_first_unsettled(text@, final(face).cached(), request.c) && glyph_number(
                final(face).font(),
                request.c,
            ) == Some(request.glyph_id),
        },
        cache_grew(old(face).cached(), final(face).cached(), old(face).font(), text@),
        r is Ok <==> all_cached(text@, final(face).cached()),
{
    let mut glyphs: Vec<(char, Option<Glyph>)> = Vec::new();
    assert(text@.skip(0) =~= text@);
    for c in chars: text.chars()
        invariant
            chars.seq() == text@,
            face.font() == old(face).font(),
            gathered(old(face).cached(), old(face).font(), text@) == gathered(
                face.cached(),
                face.font(),
                text@.skip(chars.index() as int),
            ),
            cache_grew(old(face).cached(), face.cached(), old(face).font(), text@),
            all_cached(text@.take(chars.index() as int), face.cached()),
            glyphs@.len() == chars.index(),
            shapes(glyphs@) == cached_shapes(text@.take(chars.index() as int), face.cached()),
    {
        let ghost done = chars.index() as int;
        let ghost before = face.cached();
        proof {
            assert(text@.skip(done).first() == c);
            assert(text@.skip(done).drop_first() =~= text@.skip(done + 1));
        }
        match face.get_glyph(c) {
            GlyphLookup::Known(glyph) => {
                let ghost earlier = glyphs@;
                glyphs.push((c, glyph));
                proof {
                    let wanted = cached_shapes(text@.take(done + 1), face.cached());
                    assert forall|i: int| 0 <= i < done + 1 implies shapes(glyphs@)[i] == wanted[i] by {
                        if i < done {
                            assert(shapes(earlier)[i] == cached_shapes(text@.take(done), before)[i]);
                        }
                    }
                }
            },
            GlyphLookup::Outline(glyph_id) => {
                return Err(OutlineRequest { c, glyph_id });
            },
        }
    }
    assert(text@.take(text@.len() as int) =~= text@);
    Ok(glyphs)
}

/// Lays out a text with the glyphs of a cached face.
///
/// The characters are looked up from left to right as [`gather_glyphs`] does. Where
/// the cache is waiting for the outline of a character of the text, the result is that
/// character with the glyph number that the font has for it; once its outline has been
/// handed to the cache, the call can be made again. Otherwise the result is the block
/// that [`layout_glyphs`] makes of the glyphs that the cache holds for the characters
/// of the text.
///
/// The count of segments is a `u16`: curves are flattened exactly, and the exact sums
/// fit the widest integer only up to that count.
pub fn compute_unfit_chars(face: &mut CachedFace, text: &str, curve_line_count: u16) -> (r: Result<
    (Vec<LineRaw>, Points, Vec<Points>),
    OutlineRequest,
>)
    ensures
        final(face).font() == old(face).font(),
        final(face).cached() == gathered(old(face).cached(), old(face).font(), text@).0,
        match r {
            Ok(block) => gathered(old(face).cached(), old(face).font(), text@).1 is None && (
                block.0@,
                block.1,
                block.2@,
            ) == Layout::of(
                cached_shapes(text@, final(face).cached()),
                curve_line_count as int,
            ).finish(),
            Err(request) => gathered(old(face).cached(), old(face).font(), text@).1 == Some(request)
                && is_first_unsettled(text@, final(face).cached(), request.c) && glyph_number(
                final(face).font(),
                request.c,
            ) == Some(request.glyph_id),
        },
        cache_grew(old(face).cached(), final(face).cached(), old(face).font(), text@),
        r is Ok <==> all_cached(text@, final(face).cached()),
        text@.len() == 0 ==> (r matches Ok(block) && block.0@.len() == 0 && block.1 == (Points {
            p1x: Fixed::of(0),
            p1y: Fixed::of(0),
            p2x: Fixed::of(0),
            p2y: Fixed::of(0),
        }) && block.2@.len() == 0),
{
    match gather_glyphs(face, text) {
        Ok(glyphs) => Ok(layout_glyphs(&glyphs, curve_line_count)),
        Err(request) => Err(request),
    }
}

/// The transform that carries the box `bounds` onto the box `target`: one scale and one
/// offset for each axis.
#[derive(Clone, Copy, Debug)]
pub struct PointTransform {
    pub bounds: Points,
    pub target: SizeAndCenter,
}

impl PointTransform {
    /// The width of the box that is carried.
    pub open spec fn width(self) -> int {
        self.bounds.p2x@ - self.bounds.p1x@
    }

    /// The height of the box that is carried.
    pub open spec fn height(self) -> int {
        self.bounds.p1y@ - self.bounds.p2y@
    }

    /// Where the transform carries the horizontal position `x`.
    pub open spec fn apply_x(self, x: Fixed) -> Fixed {
        Fixed::of(fit_coordinate(x@, self.bounds.p1x@, self.width(), self.target.sx@, self.target.cx@))
    }

    /// Where the transform carries the vertical position `y`.
    pub open spec fn apply_y(self, y: Fixed) -> Fixed {
        Fixed::of(fit_coordinate(y@, self.bounds.p2y@, self.height(), self.target.sy@, self.target.cy@))
    }

    /// Where the transform carries a box.
    pub open spec fn apply_points(self, points: Points) -> Points {
        Points {
            p1x: self.apply_x(points.p1x),
            p1y: self.apply_y(points.p1y),
            p2x: self.apply_x(points.p2x),
            p2y: self.apply_y(points.p2y),
        }
    }

    /// Where the transform carries a line.
    pub open spec fn apply_line(self, line: LineRaw) -> LineRaw {
        LineRaw::spec_new(
            self.apply_x(line.p1@[0]),
            self.apply_y(line.p1@[1]),
            self.apply_x(line.p2@[0]),
            self.apply_y(line.p2@[1]),
        )
    }

    /// Carries the horizontal position `x`.
    fn moved_x(&self, x: Fixed) -> (r: Fixed)
        ensures
            r == self.apply_x(x),
    {
        let width: i128 = self.bounds.p2x.wide() - self.bounds.p1x.wide();
        fit(x, self.bounds.p1x, width, self.target.sx, self.target.cx)
    }

    /// Carries the vertical position `y`.
    fn moved_y(&self, y: Fixed) -> (r: Fixed)
        ensures
            r == self.apply_y(y),
    {
        let height: i128 = self.bounds.p1y.wide() - self.bounds.p2y.wide();
        fit(y, self.bounds.p2y, height, self.target.sy, self.target.cy)
    }
}

/// The box that a block with the bounds `bounds` is fitted into: the largest one inside
/// `placement_area` with the aspect ratio of the block, centred.
pub open spec fn square_target(bounds: Points, placement_area: SizeAndCenter, resx: u32, resy: u32) -> SizeAndCenter {
    box_from_fill_aspect(
        FillAspect {
            placement_area,
            centerx: Fixed::of(0),
            centery: Fixed::of(0),
            resx,
            resy,
            aspect: Fixed::quot((bounds.p2x@ - bounds.p1x@) * ONE, bounds.p1y@ - bounds.p2y@),
        },
    )
}

/// Finds the transform that fits a block with the bounds `bounds` into `placement_area`
/// on a surface of `resx` by `resy` pixels, keeping its aspect ratio.
pub fn compute_square_transform(bounds: Points, placement_area: SizeAndCenter, resx: u32, resy: u32) -> (r:
    PointTransform)
    ensures
        r.bounds == bounds,
        r.target == square_target(bounds, placement_area, resx, resy),
{
    let width: i128 = bounds.p2x.wide() - bounds.p1x.wide();
    let height: i128 = bounds.p1y.wide() - bounds.p2y.wide();
    proof {
        lemma_product_bound(width as int, ONE as int, 2 * LIMIT, 65536);
    }
    let target = SizeAndCenter::from(
        FillAspect {
            placement_area,
            centerx: Fixed::zero(),
            centery: Fixed::zero(),
            resx,
            resy,
            aspect: Fixed::ratio(width * (ONE as i128), height),
        },
    );
    PointTransform { bounds, target }
}

/// Carries every line to where the transform puts it.
pub fn transform_lines(lines: &mut Vec<LineRaw>, transform: PointTransform)
    ensures
        final(lines)@.len() == old(lines)@.len(),
        forall|i: int|
            0 <= i < old(lines)@.len() ==> #[trigger] final(lines)@[i] == transform.apply_line(
                old(lines)@[i],
            ),
{
    let count = lines.len();
    for index in 0..count
        invariant
            count == old(lines)@.len(),
            lines@.len() == old(lines)@.len(),
            forall|i: int| 0 <= i < index ==> #[trigger] lines@[i] == transform.apply_line(old(lines)@[i]),
            forall|i: int| index <= i < lines@.len() ==> #[trigger] lines@[i] == old(lines)@[i],
    {
        let line = lines[index];
        let moved = LineRaw::new(
            transform.moved_x(line.p1[0]),
            transform.moved_y(line.p1[1]),
            transform.moved_x(line.p2[0]),
            transform.moved_y(line.p2[1]),
        );
        lines.set(index, moved);
    }
}

/// Carries a box to where the transform puts it.
pub fn transform_points(points: &mut Points, transform: PointTransform)
    ensures
        *final(points) == transform.apply_points(*old(points)),
{
    points.p1x = transform.moved_x(points.p1x);
    points.p1y = transform.moved_y(points.p1y);
    points.p2x = transform.moved_x(points.p2x);
    points.p2y = transform.moved_y(points.p2y);
}

/// Carries every box to where the transform puts it.
pub fn transform_points_vec(points: &mut Vec<Points>, transform: PointTransform)
    ensures
        final(points)@.len() == old(points)@.len(),
        forall|i: int|
            0 <= i < old(points)@.len() ==> #[trigger] final(points)@[i] == transform.apply_points(
                old(points)@[i],
            ),
{
    let count = points.len();
    for index in 0..count
        invariant
            count == old(points)@.len(),
            points@.len() == old(points)@.len(),
            forall|i: int|
                0 <= i < index ==> #[trigger] points@[i] == transform.apply_points(old(points)@[i]),
            forall|i: int| index <= i < points@.len() ==> #[trigger] points@[i] == old(points)@[i],
    {
        let mut moved = points[index];
        transform_points(&mut moved, transform);
        points.set(index, moved);
    }
}

/// The block of an empty text has no lines, no glyph boxes, and the empty box at the
/// origin for its bounds.
pub proof fn lemma_empty_text(parts: int)
    ensures
        Layout::of(Seq::empty(), parts).finish() == (
            Seq::<LineRaw>::empty(),
            Points { p1x: Fixed::of(0), p1y: Fixed::of(0), p2x: Fixed::of(0), p2y: Fixed::of(0) },
            Seq::<Points>::empty(),
        ),
{
}

/// Whether a text is made of spaces that the font has no glyph for.
pub open spec fn is_blank(text: Seq<(char, Option<GlyphShape>)>) -> bool {
    forall|i: int| 0 <= i < text.len() ==> #[trigger] text[i] == (' ', None::<GlyphShape>)
}

/// The block of a text of spaces without glyphs has no lines, and bounds that are as
/// wide as the spaces advance: they start `GLYPH_SPACING` right of the origin and are at
/// least `SPACE_ADVANCE` wide.
pub proof fn lemma_blank_text(text: Seq<(char, Option<GlyphShape>)>, parts: int)
    requires
        text.len() > 0,
        is_blank(text),
    ensures
        Layout::of(text, parts).finish().0 == Seq::<LineRaw>::empty(),
        Layout::of(text, parts).finish().1.p1x@ == GLYPH_SPACING,
        Layout::of(text, parts).finish().1.p2x@ >= GLYPH_SPACING + SPACE_ADVANCE,
        Layout::of(text, parts).finish().1.p1y@ == 0,
        Layout::of(text, parts).finish().1.p2y@ == 0,
        Layout::of(text, parts).finish().2.len() == text.len(),
    decreases text.len(),
{
    broadcast use Fixed::lemma_of_view;

    let front = text.drop_last();
    let before = Layout::of(front, parts);
    assert(text.last() == (' ', None::<GlyphShape>));
    assert(glyph_lines(space_shape(), before.offset_for(space_shape()), parts) =~= Seq::<LineRaw>::empty());
    if front.len() > 0 {
        assert forall|i: int| 0 <= i < front.len() implies #[trigger] front[i] == (
            ' ',
            None::<GlyphShape>,
        ) by {
            assert(front[i] == text[i]);
        }
        lemma_blank_text(front, parts);
    }
}

/// The block of `n` spaces without glyphs, while it is narrow enough not to saturate:
/// space `i` takes the box from `i * SPACE_PITCH + GLYPH_SPACING` to
/// `(i + 1) * SPACE_PITCH` on the base line, the bounds reach from the left edge of the
/// first space to the right edge of the last, and there are no lines.
pub proof fn lemma_blank_text_exact(text: Seq<(char, Option<GlyphShape>)>, parts: int, i: int)
    requires
        is_blank(text),
        text.len() * SPACE_PITCH <= LIMIT,
        0 <= i < text.len(),
    ensures
        ({
            let block = Layout::of(text, parts);
            let zero = Fixed::of(0);
            &&& block.lines == Seq::<LineRaw>::empty()
            &&& block.bounds == Some(
                Points {
                    p1x: Fixed::of(GLYPH_SPACING as int),
                    p1y: zero,
                    p2x: Fixed::of(text.len() * SPACE_PITCH),
                    p2y: zero,
                },
            )
            &&& block.char_bounds.len() == text.len()
            &&& block.char_bounds[i] == (Points {
                p1x: Fixed::of(i * SPACE_PITCH + GLYPH_SPACING),
                p1y: zero,
                p2x: Fixed::of((i + 1) * SPACE_PITCH),
                p2y: zero,
            })
            &&& block.finish() == (block.lines, block.bounds->Some_0, block.char_bounds)
        }),
    decreases text.len(),
{
    broadcast use Fixed::lemma_of_view;

    let n = text.len() as int;
    let front = text.drop_last();
    let before = Layout::of(front, parts);
    assert(text.last() == (' ', None::<GlyphShape>));
    assert(glyph_lines(space_shape(), before.offset_for(space_shape()), parts) =~= Seq::<LineRaw>::empty());
    assert((n - 1) * SPACE_PITCH == n * SPACE_PITCH - SPACE_PITCH) by (nonlinear_arith);
    assert(SPACE_PITCH == GLYPH_SPACING + SPACE_ADVANCE);
    if front.len() > 0 {
        assert forall|k: int| 0 <= k < front.len() implies #[trigger] front[k] == (
            ' ',
            None::<GlyphShape>,
        ) by {
            assert(front[k] == text[k]);
        }
        assert((n - 1) * SPACE_PITCH >= SPACE_PITCH) by (nonlinear_arith)
            requires
                n - 1 >= 1,
                SPACE_PITCH > 0,
        ;
        if i < n - 1 {
            lemma_blank_text_exact(front, parts, i);
        } else {
            lemma_blank_text_exact(front, parts, 0);
        }
        assert(before.lines + Seq::<LineRaw>::empty() =~= Seq::<LineRaw>::empty());
    } else {
        assert(0 * SPACE_PITCH == 0);
        assert(1 * SPACE_PITCH == SPACE_PITCH);
    }
}

/// The bounds of a block enclose the box of every glyph in it.
pub proof fn lemma_bounds_enclose_glyphs(text: Seq<(char, Option<GlyphShape>)>, parts: int, i: int)
    requires
        0 <= i < Layout::of(text, parts).char_bounds.len(),
    ensures
        Layout::of(text, parts).bounds is Some,
        ({
            let block = Layout::of(text, parts);
            let bounds = block.bounds->Some_0;
            let glyph = block.char_bounds[i];
            &&& bounds.p1x@ <= glyph.p1x@
            &&& glyph.p2x@ <= bounds.p2x@
            &&& bounds.p2y@ <= glyph.p2y@
            &&& glyph.p1y@ <= bounds.p1y@
        }),
    decreases text.len(),
{
    if text.len() > 0 {
        let before = Layout::of(text.drop_last(), parts);
        if i < before.char_bounds.len() {
            lemma_bounds_enclose_glyphs(text.drop_last(), parts, i);
        }
    }
}

/// A transform carries the corners of the box it was made for onto the corners of its
/// target, and every point of that box into the target.
pub proof fn lemma_transform_fills_target(transform: PointTransform, x: Fixed, y: Fixed)
    requires
        transform.width() > 0,
        transform.height() > 0,
        transform.target.in_range(),
        transform.target.is_valid(),
        transform.target.corners_in_range(),
        transform.bounds.spec_contains(x, y),
    ensures
        transform.apply_points(transform.bounds) == points_from_box(transform.target),
        points_from_box(transform.target).spec_contains(transform.apply_x(x), transform.apply_y(y)),
{
    broadcast use Fixed::lemma_of_view;

    let bounds = transform.bounds;
    let target = transform.target;
    lemma_fit_ends(bounds.p1x@, transform.width(), target.sx@, target.cx@);
    lemma_fit_ends(bounds.p2y@, transform.height(), target.sy@, target.cy@);
    lemma_fit_within(x@, bounds.p1x@, transform.width(), target.sx@, target.cx@);
    lemma_fit_within(y@, bounds.p2y@, transform.height(), target.sy@, target.cy@);
}

/// A block that is fitted into a placement area stays inside it: the fit carries every
/// point of the bounds of the block to a point of the area.
pub proof fn lemma_fitted_block_is_inside(
    bounds: Points,
    placement_area: SizeAndCenter,
    resx: u32,
    resy: u32,
    x: Fixed,
    y: Fixed,
)
    requires
        bounds.p1x@ < bounds.p2x@,
        bounds.p2y@ < bounds.p1y@,
        placement_area.in_range(),
        placement_area.is_valid(),
        placement_area.corners_in_range(),
        bounds.spec_contains(x, y),
    ensures
        ({
            let transform = PointTransform {
                bounds,
                target: square_target(bounds, placement_area, resx, resy),
            };
            points_from_box(placement_area).spec_contains(transform.apply_x(x), transform.apply_y(y))
        }),
{
    broadcast use Fixed::lemma_of_view;

    let width = bounds.p2x@ - bounds.p1x@;
    let height = bounds.p1y@ - bounds.p2y@;
    let fill = FillAspect {
        placement_area,
        centerx: Fixed::of(0),
        centery: Fixed::of(0),
        resx,
        resy,
        aspect: Fixed::quot(width * ONE, height),
    };
    assert(width * ONE >= 0) by (nonlinear_arith)
        requires
            width > 0,
            ONE > 0,
    ;
    vstd::arithmetic::div_mod::lemma_div_pos_is_pos(width * ONE, height);
    lemma_centered_fit(fill);
    let transform = PointTransform { bounds, target: square_target(bounds, placement_area, resx, resy) };
    lemma_transform_fills_target(transform, x, y);
}

} // verus!
