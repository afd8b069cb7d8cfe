use vstd::prelude::*;
use crate::scalar::Real;

verus! {

/// A position or offset in the Earth-centered, Earth-fixed Cartesian frame,
/// in meters, with its origin at the Earth's center.
#[derive(Clone, Copy, Debug)]
pub struct ECEF<N> {
    pub x: N,
    pub y: N,
    pub z: N,
}

impl<N: Real> ECEF<N> {
    /// The component-wise sum of two vectors.
    pub open spec fn spec_plus(self, o: ECEF<N>) -> ECEF<N> {
        ECEF { x: self.x.spec_add(o.x), y: self.y.spec_add(o.y), z: self.z.spec_add(o.z) }
    }

    /// Create a vector from its components in meters.
    pub fn new(x: N, y: N, z: N) -> (r: ECEF<N>)
        ensures
            r.x == x,
            r.y == y,
            r.z == z,
    {
        ECEF { x, y, z }
    }

    /// The x component in meters.
    pub fn x(&self) -> (r: N)
        ensures
            r == self.x,
    {
        self.x
    }

    /// The y component in meters.
    pub fn y(&self) -> (r: N)
        ensures
            r == self.y,
    {
        self.y
    }

    /// The z component in meters.
    pub fn z(&self) -> (r: N)
        ensures
            r == self.z,
    {
        self.z
    }

    /// The component-wise sum of two vectors.
    pub fn plus(&self, o: &ECEF<N>) -> (r: ECEF<N>)
        ensures
            r == self.spec_plus(*o),
    {
        ECEF { x: self.x.add(&o.x), y: self.y.add(&o.y), z: self.z.add(&o.z) }
    }
}

} // verus!
