//! Solid shapes that an entity can carry.

use crate::math::{FixedNumber, SCALE};
use vstd::prelude::*;

verus! {

/// A solid built from primitives.
#[derive(Clone, Copy, Debug, PartialEq, Eq, Structural)]
pub enum Csg {
    /// A ball around the entity's position.
    Sphere { radius: FixedNumber },
}

impl Csg {
    /// The ball of radius one.
    pub fn unit_sphere() -> (s: Csg)
        ensures
            s == (Csg::Sphere { radius: FixedNumber { raw: SCALE } }),
    {
        Csg::Sphere { radius: FixedNumber::one() }
    }
}

} // verus!
