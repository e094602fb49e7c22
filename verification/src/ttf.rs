//! Glyph outlines: the accumulator that receives the outline of a glyph event by event,
//! the glyph it makes, and the cache that keeps one glyph per character.

use std::collections::HashMap;
use owned_ttf_parser::AsFaceRef;
use owned_ttf_parser::OwnedFace;
use ttf_parser::FaceParsingError;
use vstd::prelude::*;
use crate::fixed::{Fixed, ONE};
use crate::line::LineDescriptor;
use crate::rect::Points;
pub use crate::curve::CubeCurve;
pub use crate::curve::SquareCurve;

verus! {

/// Whether the straight segment from `(x0, y0)` to `(x1, y1)` is an "on" line: it runs
/// to the left or upward. Every other segment is an "off" line.
pub open spec fn is_on_line(x0: Fixed, y0: Fixed, x1: Fixed, y1: Fixed) -> bool {
    x0@ > x1@ || y0@ < y1@
}

/// What an outline accumulator holds.
pub struct Outline {
    pub open_x: Fixed,
    pub open_y: Fixed,
    pub x: Fixed,
    pub y: Fixed,
    pub on_lines: Seq<LineDescriptor>,
    pub off_lines: Seq<LineDescriptor>,
    pub square_curves: Seq<SquareCurve>,
    pub cube_curves: Seq<CubeCurve>,
}

impl Outline {
    /// The outline before any event.
    pub open spec fn empty() -> Outline {
        Outline {
            open_x: Fixed::of(0),
            open_y: Fixed::of(0),
            x: Fixed::of(0),
            y: Fixed::of(0),
            on_lines: Seq::empty(),
            off_lines: Seq::empty(),
            square_curves: Seq::empty(),
            cube_curves: Seq::empty(),
        }
    }

    /// A new contour opens at `(x, y)`.
    pub open spec fn move_to(self, x: Fixed, y: Fixed) -> Outline {
        Outline { open_x: x, open_y: y, x, y, ..self }
    }

    /// A straight segment from the current point to `(x, y)`, filed as an "on" or an
    /// "off" line by its direction.
    pub open spec fn line_to(self, x: Fixed, y: Fixed) -> Outline {
        let line = LineDescriptor { p1x: self.x, p1y: self.y, p2x: x, p2y: y };
        if is_on_line(self.x, self.y, x, y) {
            Outline { x, y, on_lines: self.on_lines.push(line), ..self }
        } else {
            Outline { x, y, off_lines: self.off_lines.push(line), ..self }
        }
    }

    /// A quadratic curve from the current point to `(x, y)` with the control point
    /// `(x1, y1)`.
    pub open spec fn quad_to(self, x1: Fixed, y1: Fixed, x: Fixed, y: Fixed) -> Outline {
        let curve = SquareCurve { p1x: self.x, p1y: self.y, c1x: x1, c1y: y1, p2x: x, p2y: y };
        Outline { x, y, square_curves: self.square_curves.push(curve), ..self }
    }

    /// A cubic curve from the current point to `(x, y)` with the control points
    /// `(x1, y1)` and `(x2, y2)`.
    pub open spec fn curve_to(self, x1: Fixed, y1: Fixed, x2: Fixed, y2: Fixed, x: Fixed, y: Fixed) -> Outline {
        let curve = CubeCurve {
            p1x: self.x,
            p1y: self.y,
            c1x: x1,
            c1y: y1,
            c2x: x2,
            c2y: y2,
            p2x: x,
            p2y: y,
        };
        Outline { x, y, cube_curves: self.cube_curves.push(curve), ..self }
    }

    /// The contour closes: where the current point is not the point the contour opened
    /// at, a straight segment leads back there.
    pub open spec fn close(self) -> Outline {
        if self.x != self.open_x || self.y != self.open_y {
            self.line_to(self.open_x, self.open_y)
        } else {
            self
        }
    }
}

/// Receives the outline of one glyph as a run of events and sorts it into straight
/// segments, "on" and "off", and curves.
#[derive(Debug)]
pub struct GlyphOutlineBuilder {
    pub open_x: Fixed,
    pub open_y: Fixed,
    pub x: Fixed,
    pub y: Fixed,
    pub on_lines: Vec<LineDescriptor>,
    pub off_lines: Vec<LineDescriptor>,
    pub square_curves: Vec<SquareCurve>,
    pub cube_curves: Vec<CubeCurve>,
}

impl View for GlyphOutlineBuilder {
    type V = Outline;

    open spec fn view(&self) -> Outline {
        Outline {
            open_x: self.open_x,
            open_y: self.open_y,
            x: self.x,
            y: self.y,
            on_lines: self.on_lines@,
            off_lines: self.off_lines@,
            square_curves: self.square_curves@,
            cube_curves: self.cube_curves@,
        }
    }
}

impl GlyphOutlineBuilder {
    /// An accumulator that has seen no event.
    pub fn new() -> (r: Self)
        ensures
            r@ == Outline::empty(),
    {
        Self {
            open_x: Fixed::zero(),
            open_y: Fixed::zero(),
            x: Fixed::zero(),
            y: Fixed::zero(),
            on_lines: Vec::new(),
            off_lines: Vec::new(),
            square_curves: Vec::new(),
            cube_curves: Vec::new(),
        }
    }

    /// Starts a new contour at `(x, y)` and remembers where it opened.
    pub fn move_to(&mut self, x: Fixed, y: Fixed)
        ensures
            final(self)@ == old(self)@.move_to(x, y),
    {
        self.open_x = x;
        self.open_y = y;
        self.x = x;
        self.y = y;
    }

    /// Adds the straight segment from the current point to `(x, y)`: to the "on" lines
    /// if it runs to the left or upward, to the "off" lines otherwise.
    pub fn line_to(&mut self, x: Fixed, y: Fixed)
        ensures
            final(self)@ == old(self)@.line_to(x, y),
    {
        let line = LineDescriptor { p1x: self.x, p1y: self.y, p2x: x, p2y: y };
        if self.x.raw() > x.raw() || self.y.raw() < y.raw() {
            self.on_lines.push(line);
        } else {
            self.off_lines.push(line);
        }
        self.x = x;
        self.y = y;
    }

    /// Adds the quadratic curve from the current point to `(x, y)` with the control
    /// point `(x1, y1)`.
    pub fn quad_to(&mut self, x1: Fixed, y1: Fixed, x: Fixed, y: Fixed)
        ensures
            final(self)@ == old(self)@.quad_to(x1, y1, x, y),
    {
        self.square_curves.push(
            SquareCurve { p1x: self.x, p1y: self.y, c1x: x1, c1y: y1, p2x: x, p2y: y },
        );
        self.x = x;
        self.y = y;
    }

    /// Adds the cubic curve from the current point to `(x, y)` with the control points
    /// `(x1, y1)` and `(x2, y2)`.
    pub fn curve_to(&mut self, x1: Fixed, y1: Fixed, x2: Fixed, y2: Fixed, x: Fixed, y: Fixed)
        ensures
            final(self)@ == old(self)@.curve_to(x1, y1, x2, y2, x, y),
    {
        self.cube_curves.push(
            CubeCurve {
                p1x: self.x,
                p1y: self.y,
                c1x: x1,
                c1y: y1,
                c2x: x2,
                c2y: y2,
                p2x: x,
                p2y: y,
            },
        );
        self.x = x;
        self.y = y;
    }

    /// Closes the contour with a straight segment back to where it opened, unless the
    /// current point is already there.
    pub fn close(&mut self)
        ensures
            final(self)@ == old(self)@.close(),
    {
        if self.x.raw() != self.open_x.raw() || self.y.raw() != self.open_y.raw() {
            self.line_to(self.open_x, self.open_y);
        } else {
            proof {
                Fixed::lemma_view_injective(self.x, self.open_x);
                Fixed::lemma_view_injective(self.y, self.open_y);
            }
        }
    }
}

/// The tight bounding box of a glyph in whole font units.
#[derive(Clone, Copy, Debug, PartialEq, Eq, Structural)]
pub struct GlyphBounds {
    pub x_min: i16,
    pub y_min: i16,
    pub x_max: i16,
    pub y_max: i16,
}

/// What a glyph holds.
pub struct GlyphShape {
    pub tight_bounding_box: Points,
    pub on_lines: Seq<LineDescriptor>,
    pub off_lines: Seq<LineDescriptor>,
    pub square_curves: Seq<SquareCurve>,
    pub cube_curves: Seq<CubeCurve>,
}

/// The outline of one character: its tight bounding box, its straight segments, "on"
/// and "off", and its curves.
#[derive(Debug)]
pub struct Glyph {
    pub tight_bounding_box: Points,
    pub on_lines: Vec<LineDescriptor>,
    pub off_lines: Vec<LineDescriptor>,
    pub square_curves: Vec<SquareCurve>,
    pub cube_curves: Vec<CubeCurve>,
}

impl View for Glyph {
    type V = GlyphShape;

    open spec fn view(&self) -> GlyphShape {
        GlyphShape {
            tight_bounding_box: self.tight_bounding_box,
            on_lines: self.on_lines@,
            off_lines: self.off_lines@,
            square_curves: self.square_curves@,
            cube_curves: self.cube_curves@,
        }
    }
}

/// What an optional glyph holds.
pub open spec fn shape_of(glyph: Option<Glyph>) -> Option<GlyphShape> {
    match glyph {
        Some(glyph) => Some(glyph@),
        None => None,
    }
}

/// A copy of a list.
fn copy_of<T: Copy>(items: &Vec<T>) -> (r: Vec<T>)
    ensures
        r@ == items@,
{
    let mut r: Vec<T> = Vec::with_capacity(items.len());
    for index in 0..items.len()
        invariant
            r@ == items@.take(index as int),
    {
        r.push(items[index]);
    }
    r
}

impl GlyphShape {
    /// The glyph with the bounding box `bounds` and the segments and curves of
    /// `outline`. The top-left corner of the box is `(x_min, y_max)`.
    pub open spec fn from_outline(bounds: GlyphBounds, outline: Outline) -> GlyphShape {
        GlyphShape {
            tight_bounding_box: Points {
                p1x: Fixed::of(bounds.x_min * ONE),
                p1y: Fixed::of(bounds.y_max * ONE),
                p2x: Fixed::of(bounds.x_max * ONE),
                p2y: Fixed::of(bounds.y_min * ONE),
            },
            on_lines: outline.on_lines,
            off_lines: outline.off_lines,
            square_curves: outline.square_curves,
            cube_curves: outline.cube_curves,
        }
    }
}

impl Glyph {
    /// Makes the glyph with the bounding box `bounds` out of what `builder` has
    /// gathered.
    pub fn from_outline(bounds: GlyphBounds, builder: GlyphOutlineBuilder) -> (r: Glyph)
        ensures
            r@ == GlyphShape::from_outline(bounds, builder@),
    {
        Glyph {
            tight_bounding_box: Points {
                p1x: Fixed::from_int(bounds.x_min as i32),
                p1y: Fixed::from_int(bounds.y_max as i32),
                p2x: Fixed::from_int(bounds.x_max as i32),
                p2y: Fixed::from_int(bounds.y_min as i32),
            },
            on_lines: builder.on_lines,
            off_lines: builder.off_lines,
            square_curves: builder.square_curves,
            cube_curves: builder.cube_curves,
        }
    }
}

impl Clone for Glyph {
    /// A glyph with the same bounding box, segments and curves.
    fn clone(&self) -> (r: Glyph)
        ensures
            r@ == self@,
    {
        Glyph {
            tight_bounding_box: self.tight_bounding_box,
            on_lines: copy_of(&self.on_lines),
            off_lines: copy_of(&self.off_lines),
            square_curves: copy_of(&self.square_curves),
            cube_curves: copy_of(&self.cube_curves),
        }
    }
}

/// A copy of an optional glyph.
fn copy_of_glyph(glyph: &Option<Glyph>) -> (r: Option<Glyph>)
    ensures
        shape_of(r) == shape_of(*glyph),
{
    match glyph {
        Some(glyph) => Some(glyph.clone()),
        None => None,
    }
}

/// A parsed font face that owns its data. Nothing inside it is visible to the proofs.
#[verifier::external_type_specification]
#[verifier::external_body]
pub struct ExOwnedFace(OwnedFace);

/// The reason a font face could not be parsed, as the parser reports it.
#[verifier::external_type_specification]
#[verifier::external_body]
pub struct ExFaceParsingError(FaceParsingError);

/// Why the bytes of a font could not be made into a face.
#[derive(Clone, Copy, Debug, PartialEq, Eq, Structural)]
pub enum FaceError {
    /// A read ran out of the data.
    MalformedFont,
    /// The data does not start with the mark of a font or of a font collection.
    UnknownMagic,
    /// The collection has no face with the index asked for.
    FaceIndexOutOfBounds,
    /// The `head` table is missing or unreadable.
    NoHeadTable,
    /// The `hhea` table is missing or unreadable.
    NoHheaTable,
    /// The `maxp` table is missing or unreadable.
    NoMaxpTable,
}

/// The reason for which `OwnedFace::from_vec` refuses the bytes `data` as a font with a
/// face number `index`, or `None` where it accepts them. The parser reads nothing but
/// these bytes and this number.
pub uninterp spec fn parse_failure(data: Seq<u8>, index: u32) -> Option<FaceParsingError>;

/// Whether the parser accepts the bytes `data` as a font with a face number `index`.
pub open spec fn face_parses(data: Seq<u8>, index: u32) -> bool {
    parse_failure(data, index) is None
}

/// Calls `OwnedFace::from_vec`, which parses face number `index` out of `data`.
///
/// It gives a face exactly where the parser accepts the bytes, and the reason of the
/// parser where it does not. The parser reads a mark of four bytes first and fails
/// where it cannot; nothing else is claimed of its verdict.
#[verifier::external_body]
fn parse_face(data: Vec<u8>, index: u32) -> (r: Result<OwnedFace, FaceParsingError>)
    ensures
        match r {
            Ok(_) => parse_failure(data@, index) is None,
            Err(error) => parse_failure(data@, index) == Some(error),
        },
        data@.len() < 4 ==> r is Err,
{
    OwnedFace::from_vec(data, index)
}

/// The reason of the library that stands for a reason of the parser: the variant of the
/// same name.
pub uninterp spec fn kind_of(error: FaceParsingError) -> FaceError;

/// Tells the variants of `ttf_parser::FaceParsingError` apart, one for one: each gives
/// the variant of the same name. The result depends on the reason alone.
#[verifier::external_body]
fn error_kind(error: &FaceParsingError) -> (r: FaceError)
    ensures
        r == kind_of(*error),
{
    match error {
        FaceParsingError::MalformedFont => FaceError::MalformedFont,
        FaceParsingError::UnknownMagic => FaceError::UnknownMagic,
        FaceParsingError::FaceIndexOutOfBounds => FaceError::FaceIndexOutOfBounds,
        FaceParsingError::NoHeadTable => FaceError::NoHeadTable,
        FaceParsingError::NoHheaTable => FaceError::NoHheaTable,
        FaceParsingError::NoMaxpTable => FaceError::NoMaxpTable,
    }
}

/// The number of the glyph that `ttf_parser::Face::glyph_index` finds for the character
/// `c` in the character maps of the face, or `None` where it finds none. The lookup
/// reads nothing but the face and the character.
pub uninterp spec fn glyph_number(face: OwnedFace, c: char) -> Option<u16>;

/// Calls `ttf_parser::Face::glyph_index` on the face, which looks the character up in
/// the character maps of the font. Nothing is claimed of the glyph it finds but that it
/// depends on the face and the character alone.
#[verifier::external_body]
fn face_glyph_index(face: &OwnedFace, c: char) -> (r: Option<u16>)
    ensures
        r == glyph_number(*face, c),
{
    face.as_face_ref().glyph_index(c).map(|id| id.0)
}

/// What the cache answers when it is asked for the glyph of a character.
#[derive(Debug)]
pub enum GlyphLookup {
    /// The glyph of the character, or `None` for a character that has none.
    Known(Option<Glyph>),
    /// The character has the glyph with this number in the font, and its outline has
    /// not been supplied yet.
    Outline(u16),
}

/// What an answer of the cache holds.
pub enum Answer {
    /// The glyph of the character, or `None` for a character that has none.
    Known(Option<GlyphShape>),
    /// The number of the glyph whose outline has not been supplied yet.
    Outline(u16),
}

impl View for GlyphLookup {
    type V = Answer;

    open spec fn view(&self) -> Answer {
        match self {
            GlyphLookup::Known(glyph) => Answer::Known(shape_of(*glyph)),
            GlyphLookup::Outline(glyph_id) => Answer::Outline(*glyph_id),
        }
    }
}

/// The answer for the character `c`, given what is settled and the glyph number that
/// the font has for `c`: what is settled is answered from the cache, a character
/// without a glyph number has no glyph, and one with a glyph number waits for its
/// outline.
pub open spec fn answer(cached: Map<char, Option<GlyphShape>>, c: char, glyph_id: Option<u16>) -> Answer {
    if cached.contains_key(c) {
        Answer::Known(cached[c])
    } else {
        match glyph_id {
            Some(glyph_id) => Answer::Outline(glyph_id),
            None => Answer::Known(None),
        }
    }
}

/// What is settled after the answer for `c`: a character without a glyph number is
/// settled to have no glyph, and nothing else changes.
pub open spec fn after_answer(cached: Map<char, Option<GlyphShape>>, c: char, glyph_id: Option<u16>) -> Map<
    char,
    Option<GlyphShape>,
> {
    if !cached.contains_key(c) && glyph_id is None {
        cached.insert(c, None)
    } else {
        cached
    }
}

/// What is settled after the glyph of `c` was recorded: the first record of a
/// character stays.
pub open spec fn after_record(cached: Map<char, Option<GlyphShape>>, c: char, glyph: Option<GlyphShape>) -> Map<
    char,
    Option<GlyphShape>,
> {
    if cached.contains_key(c) {
        cached
    } else {
        cached.insert(c, glyph)
    }
}

/// A font face together with the glyphs that were made from it, one per character
/// that was asked for. An entry, once made, is never changed or dropped.
#[derive(Debug)]
pub struct CachedFace {
    face: OwnedFace,
    cached_glyphs: HashMap<u32, Option<Glyph>>,
}

impl CachedFace {
    /// The characters that were settled so far, each with its glyph or with `None`.
    pub closed spec fn cached(&self) -> Map<char, Option<GlyphShape>> {
        Map::new(
            |c: char| self.cached_glyphs@.contains_key(c as u32),
            |c: char| shape_of(self.cached_glyphs@[c as u32]),
        )
    }

    /// The face that the glyphs are made from.
    pub closed spec fn font(&self) -> OwnedFace {
        self.face
    }

    /// Wraps a face with an empty cache.
    pub fn new(face: OwnedFace) -> (r: Self)
        ensures
            r.font() == face,
            r.cached() == Map::<char, Option<GlyphShape>>::empty(),
    {
        Self { face, cached_glyphs: HashMap::new() }
    }

    /// Wraps what parsing a font gave: a face with an empty cache, or the reason there
    /// is none.
    pub fn from_parsed(parsed: Result<OwnedFace, FaceParsingError>) -> (r: Result<Self, FaceError>)
        ensures
            r is Ok <==> parsed is Ok,
            r is Ok ==> r->Ok_0.font() == parsed->Ok_0 && r->Ok_0.cached() == Map::<
                char,
                Option<GlyphShape>,
            >::empty(),
            r is Err ==> r->Err_0 == kind_of(parsed->Err_0),
    {
        match parsed {
            Ok(face) => Ok(Self::new(face)),
            Err(error) => Err(error_kind(&error)),
        }
    }

    /// Parses face number `index` out of the bytes of a font and wraps it with an empty
    /// cache.
    ///
    /// The result is a face exactly where the parser accepts the bytes, and the reason
    /// of the parser where it does not. Data too short to hold the mark of a font is
    /// never accepted.
    pub fn from_vec(vec: Vec<u8>, index: u32) -> (r: Result<Self, FaceError>)
        ensures
            r is Ok <==> face_parses(vec@, index),
            r is Err ==> r->Err_0 == kind_of(parse_failure(vec@, index)->Some_0),
            vec@.len() < 4 ==> r is Err,
            r is Ok ==> r->Ok_0.cached() == Map::<char, Option<GlyphShape>>::empty(),
    {
        Self::from_parsed(parse_face(vec, index))
    }

    /// The face that the glyphs are made from.
    pub fn face(&self) -> (r: &OwnedFace)
        ensures
            *r == self.font(),
    {
        &self.face
    }

    /// Whether the character `c` has been settled.
    pub fn is_cached(&self, c: char) -> (r: bool)
        ensures
            r == self.cached().contains_key(c),
    {
        broadcast use vstd::std_specs::hash::group_hash_axioms;

        let key: u32 = c as u32;
        self.cached_glyphs.contains_key(&key)
    }

    /// Records that `c` has the glyph `glyph`, or none. The character must not be
    /// settled yet.
    fn insert(&mut self, c: char, glyph: Option<Glyph>)
        requires
            !old(self).cached().contains_key(c),
        ensures
            final(self).font() == old(self).font(),
            final(self).cached() == old(self).cached().insert(c, shape_of(glyph)),
    {
        broadcast use vstd::std_specs::hash::group_hash_axioms;

        let key: u32 = c as u32;
        let ghost shape = shape_of(glyph);
        self.cached_glyphs.insert(key, glyph);
        proof {
            let before = old(self).cached();
            let after = self.cached();
            assert forall|d: char| after.contains_key(d) <==> before.insert(c, shape).contains_key(
                d,
            ) by {
                lemma_same_code(d, c);
            }
            assert forall|d: char| after.contains_key(d) implies after[d] == before.insert(c, shape)[d] by {
                lemma_same_code(d, c);
            }
        }
    }

    /// A copy of what the cache holds for `c`, if `c` is settled.
    fn lookup(&self, c: char) -> (r: Option<Option<Glyph>>)
        ensures
            r is Some <==> self.cached().contains_key(c),
            r is Some ==> shape_of(r->Some_0) == self.cached()[c],
    {
        broadcast use vstd::std_specs::hash::group_hash_axioms;

        let key: u32 = c as u32;
        match self.cached_glyphs.get(&key) {
            Some(glyph) => Some(copy_of_glyph(glyph)),
            None => None,
        }
    }

    /// Answers for the character `c`, given the glyph number that the font has for it.
    ///
    /// A character that was settled before gets the same answer again. Any other
    /// character is recorded to have no glyph where the font has no glyph number for it,
    /// and waits for its outline where the font has one.
    pub fn settle(&mut self, c: char, glyph_id: Option<u16>) -> (r: GlyphLookup)
        ensures
            r@ == answer(old(self).cached(), c, glyph_id),
            final(self).cached() == after_answer(old(self).cached(), c, glyph_id),
            final(self).font() == old(self).font(),
    {
        match self.lookup(c) {
            Some(glyph) => GlyphLookup::Known(glyph),
            None => match glyph_id {
                Some(glyph_id) => GlyphLookup::Outline(glyph_id),
                None => {
                    self.insert(c, None);
                    GlyphLookup::Known(None)
                },
            },
        }
    }

    /// Looks up the glyph of `c`.
    ///
    /// A character that was settled before gets the same answer again, the cache stays
    /// as it is, and the font is not consulted. For any other character the font is
    /// asked for its glyph number, and the answer is the one that
    /// [`CachedFace::settle`] gives for that number: without a number the character is
    /// recorded to have no glyph, with one the cache waits for
    /// [`CachedFace::cache_glyph`].
    pub fn get_glyph(&mut self, c: char) -> (r: GlyphLookup)
        ensures
            r@ == answer(old(self).cached(), c, glyph_number(old(self).font(), c)),
            final(self).cached() == after_answer(
                old(self).cached(),
                c,
                glyph_number(old(self).font(), c),
            ),
            old(self).cached().contains_key(c) ==> r@ == Answer::Known(old(self).cached()[c])
                && final(self).cached() == old(self).cached(),
            final(self).font() == old(self).font(),
    {
        match self.lookup(c) {
            Some(glyph) => GlyphLookup::Known(glyph),
            None => {
                let glyph_id = face_glyph_index(&self.face, c);
                self.settle(c, glyph_id)
            },
        }
    }

    /// Records the glyph of `c`, unless `c` was settled before, and returns what the
    /// cache now holds for `c`.
    pub fn cache_glyph(&mut self, c: char, glyph: Option<Glyph>) -> (r: Option<Glyph>)
        ensures
            final(self).cached() == after_record(old(self).cached(), c, shape_of(glyph)),
            final(self).cached().contains_key(c),
            shape_of(r) == final(self).cached()[c],
            final(self).font() == old(self).font(),
    {
        match self.lookup(c) {
            Some(settled) => settled,
            None => {
                let r = copy_of_glyph(&glyph);
                self.insert(c, glyph);
                r
            },
        }
    }
}

/// A character that has got its glyph, or has been found to have none, gets the same
/// answer every time, whatever the font says then, and asking leaves the cache as it
/// is.
pub proof fn lemma_answer_repeats(
    cached: Map<char, Option<GlyphShape>>,
    c: char,
    first: Option<u16>,
    second: Option<u16>,
)
    requires
        answer(cached, c, first) is Known,
    ensures
        answer(after_answer(cached, c, first), c, second) == answer(cached, c, first),
        after_answer(after_answer(cached, c, first), c, second) == after_answer(cached, c, first),
{
}

/// Two lookups of a character in a row, with nothing recorded in between, get the same
/// answer, since the font has the same glyph number for the character both times; the
/// second leaves the cache as the first left it.
pub proof fn lemma_lookup_repeats(cached: Map<char, Option<GlyphShape>>, font: OwnedFace, c: char)
    ensures
        ({
            let number = glyph_number(font, c);
            let once = after_answer(cached, c, number);
            &&& answer(once, c, number) == answer(cached, c, number)
            &&& after_answer(once, c, number) == once
        }),
{
}

/// Once a glyph has been recorded for a character, the cache answers with what it
/// holds for the character and asks for no outline again; a second record changes
/// nothing.
pub proof fn lemma_recorded_glyph_is_answered(
    cached: Map<char, Option<GlyphShape>>,
    c: char,
    glyph: Option<GlyphShape>,
    later: Option<GlyphShape>,
    glyph_id: Option<u16>,
)
    ensures
        answer(after_record(cached, c, glyph), c, glyph_id) == Answer::Known(
            after_record(cached, c, glyph)[c],
        ),
        !cached.contains_key(c) ==> after_record(cached, c, glyph)[c] == glyph,
        after_answer(after_record(cached, c, glyph), c, glyph_id) == after_record(cached, c, glyph),
        after_record(after_record(cached, c, glyph), c, later) == after_record(cached, c, glyph),
{
}

/// Two characters with the same code are the same character.
proof fn lemma_same_code(a: char, b: char)
    ensures
        a as u32 == b as u32 <==> a == b,
{
}

} // verus!
