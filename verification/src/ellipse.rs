//! Ellipses: where one goes and what colour it has.

use vstd::prelude::*;
use crate::fixed::Fixed;
use crate::rect::SizeAndCenter;

verus! {

/// A coloured ellipse: the box it fills and its red, green, blue and alpha.
#[derive(Clone, Copy, Debug)]
pub struct EllipseDescriptor {
    pub sizing: SizeAndCenter,
    pub r: Fixed,
    pub g: Fixed,
    pub b: Fixed,
    pub a: Fixed,
}

/// An ellipse as the ellipse renderer takes it: scale, translation, colour.
#[derive(Clone, Copy, Debug)]
pub struct EllipseBuffer {
    pub scale: [Fixed; 2],
    pub translation: [Fixed; 2],
    pub color: [Fixed; 4],
}

impl EllipseBuffer {
    /// The record of the ellipse that `descriptor` describes.
    pub open spec fn of(descriptor: EllipseDescriptor) -> EllipseBuffer {
        EllipseBuffer {
            scale: [descriptor.sizing.sx, descriptor.sizing.sy],
            translation: [descriptor.sizing.cx, descriptor.sizing.cy],
            color: [descriptor.r, descriptor.g, descriptor.b, descriptor.a],
        }
    }
}

impl From<EllipseDescriptor> for EllipseBuffer {
    /// The flat record of a described ellipse.
    fn from(descriptor: EllipseDescriptor) -> (r: EllipseBuffer) {
        EllipseBuffer {
            scale: [descriptor.sizing.sx, descriptor.sizing.sy],
            translation: [descriptor.sizing.cx, descriptor.sizing.cy],
            color: [descriptor.r, descriptor.g, descriptor.b, descriptor.a],
        }
    }
}

impl vstd::std_specs::convert::FromSpecImpl<EllipseDescriptor> for EllipseBuffer {
    open spec fn obeys_from_spec() -> bool {
        true
    }

    open spec fn from_spec(descriptor: EllipseDescriptor) -> EllipseBuffer {
        EllipseBuffer::of(descriptor)
    }
}

} // verus!
