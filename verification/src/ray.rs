//! A ray, cast from the camera through one pixel.

use vstd::prelude::*;
use crate::vec::Vec3;

verus! {

/// Origin and direction.  The intersection math does not require the
/// direction to be unit length, but camera-generated directions are.
#[derive(Clone, Copy, PartialEq, Eq, Structural, Debug)]
pub struct Ray {
    pub origin: Vec3,
    pub direction: Vec3,
}

} // verus!
