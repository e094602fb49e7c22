//! Resolution-independent placement and glyph-outline geometry for a small vector user
//! interface.
//!
//! Every shape and every text is described by where it should go ("fill this area,
//! keep this aspect ratio, on a surface of this many pixels") and is turned into flat
//! primitives: rectangles by scale and translation, and line segments by their ends.
//!
//! All numbers are [`fixed::Fixed`]: whole steps of 1/65536, computed exactly in wide
//! integers, rounded down once and saturated. A contract can therefore name its result
//! as an integer formula, and the laws of the geometry hold exactly where they are
//! stated.
//!
//! - [`fixed`]: the scalar.
//! - [`rect`]: boxes by centre or by corners, and the aspect-preserving fit.
//! - [`line`]: line segments and blocks of lines that wait to be fitted.
//! - [`curve`]: quadratic and cubic Bezier curves and their flattening.
//! - [`ttf`]: the outline accumulator, glyphs, and the cache of glyphs per character.
//! - [`ttf_outline`]: laying out a text with glyphs and fitting it with one transform.
//! - [`strokes`] and [`blockfont`]: a font drawn with rectangles, with no font file.
//! - [`ellipse`] and [`freeform_2dcapsule`]: the records of two more shapes.

pub mod fixed;
pub mod rect;
pub mod line;
pub mod curve;
pub mod strokes;
pub mod ellipse;
pub mod freeform_2dcapsule;
pub mod blockfont;
pub mod ttf;
pub mod ttf_outline;
