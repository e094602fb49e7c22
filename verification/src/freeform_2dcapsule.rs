//! Capsules: thick lines with round ends.

use vstd::prelude::*;
use crate::fixed::Fixed;

verus! {

/// A capsule as the capsule renderer takes it: the two ends of its axis, its radius and
/// its colour.
#[derive(Clone, Copy, Debug)]
pub struct Freeform2DCapsule {
    pub p1: [Fixed; 2],
    pub p2: [Fixed; 2],
    pub radius: Fixed,
    pub color: [Fixed; 4],
}

} // verus!
