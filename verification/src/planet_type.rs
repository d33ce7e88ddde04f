//! The closed set of shading tags: one procedural shader per kind.

use vstd::prelude::*;

verus! {

/// The shading tag of a body.  The set is fixed, so the shading model is
/// an exhaustive match over it.
#[derive(Clone, Copy, PartialEq, Eq, Structural, Debug)]
pub enum PlanetType {
    Sun,
    Mercury,
    Venus,
    Earth,
    Moon,
    Mars,
    Jupiter,
    Saturn,
    Uranus,
    Neptune,
    BlackHole,
    Spaceship,
}

} // verus!
