use vstd::prelude::*;
use crate::scalar::Real;

verus! {

/// An east-north-up offset in the local tangent plane, in meters.
///
/// The origin of the tangent plane is not stored: the caller keeps track of
/// which geodetic position the offset is relative to.
#[derive(Clone, Copy, Debug)]
pub struct ENU<N> {
    pub east: N,
    pub north: N,
    pub up: N,
}

impl<N: Real> ENU<N> {
    /// The Euclidean length of the offset.
    pub open spec fn spec_norm(self) -> N {
        self.east.spec_mul(self.east).spec_add(self.north.spec_mul(self.north)).spec_add(
            self.up.spec_mul(self.up),
        ).spec_sqrt()
    }

    /// Create an offset from its east, north and up components in meters.
    pub fn new(east: N, north: N, up: N) -> (r: ENU<N>)
        ensures
            r.east == east,
            r.north == north,
            r.up == up,
    {
        ENU { east, north, up }
    }

    /// The east component in meters.
    pub fn east(&self) -> (r: N)
        ensures
            r == self.east,
    {
        self.east
    }

    /// The north component in meters.
    pub fn north(&self) -> (r: N)
        ensures
            r == self.north,
    {
        self.north
    }

    /// The up component in meters.
    pub fn up(&self) -> (r: N)
        ensures
            r == self.up,
    {
        self.up
    }

    /// The Euclidean length of the offset, `sqrt(east² + north² + up²)`.
    pub fn norm(&self) -> (r: N)
        ensures
            r == self.spec_norm(),
    {
        let e = self.east.mul(&self.east);
        let n = self.north.mul(&self.north);
        let u = self.up.mul(&self.up);
        e.add(&n).add(&u).sqrt()
    }
    /// The component-wise sum of two offsets.
    pub fn plus(&self, o: &ENU<N>) -> (r: ENU<N>)
        ensures
            r.east == self.east.spec_add(o.east),
            r.north == self.north.spec_add(o.north),
            r.up == self.up.spec_add(o.up),
    {
        ENU { east: self.east.add(&o.east), north: self.north.add(&o.north), up: self.up.add(&o.up) }
    }

    /// The component-wise difference of two offsets.
    pub fn minus(&self, o: &ENU<N>) -> (r: ENU<N>)
        ensures
            r.east == self.east.spec_sub(o.east),
            r.north == self.north.spec_sub(o.north),
            r.up == self.up.spec_sub(o.up),
    {
        ENU { east: self.east.sub(&o.east), north: self.north.sub(&o.north), up: self.up.sub(&o.up) }
    }

    /// The offset pointing the opposite way.
    pub fn negated(&self) -> (r: ENU<N>)
        ensures
            r.east == self.east.spec_neg(),
            r.north == self.north.spec_neg(),
            r.up == self.up.spec_neg(),
    {
        ENU { east: self.east.neg(), north: self.north.neg(), up: self.up.neg() }
    }

    /// The offset scaled by a factor.
    pub fn scaled(&self, k: &N) -> (r: ENU<N>)
        ensures
            r.east == self.east.spec_mul(*k),
            r.north == self.north.spec_mul(*k),
            r.up == self.up.spec_mul(*k),
    {
        ENU { east: self.east.mul(k), north: self.north.mul(k), up: self.up.mul(k) }
    }

    /// The dot product of two offsets.
    pub fn dot(&self, o: &ENU<N>) -> (r: N)
        ensures
            r == self.east.spec_mul(o.east).spec_add(self.north.spec_mul(o.north)).spec_add(
                self.up.spec_mul(o.up),
            ),
    {
        self.east.mul(&o.east).add(&self.north.mul(&o.north)).add(&self.up.mul(&o.up))
    }
}

/// A north-east-down offset in the local tangent plane, in meters: the same
/// tangent plane as `ENU`, with the vertical axis pointing down.
#[derive(Clone, Copy, Debug)]
pub struct NED<N> {
    pub north: N,
    pub east: N,
    pub down: N,
}

impl<N: Real> NED<N> {
    /// Create an offset from its north, east and down components in meters.
    pub fn new(north: N, east: N, down: N) -> (r: NED<N>)
        ensures
            r.north == north,
            r.east == east,
            r.down == down,
    {
        NED { north, east, down }
    }

    /// The north component in meters.
    pub fn north(&self) -> (r: N)
        ensures
            r == self.north,
    {
        self.north
    }

    /// The east component in meters.
    pub fn east(&self) -> (r: N)
        ensures
            r == self.east,
    {
        self.east
    }

    /// The down component in meters.
    pub fn down(&self) -> (r: N)
        ensures
            r == self.down,
    {
        self.down
    }
}

impl<N: Real> From<ENU<N>> for NED<N> {
    /// The same offset with the axes permuted: north and east kept, down is
    /// the negated up.
    fn from(enu: ENU<N>) -> (r: NED<N>) {
        NED { north: enu.north, east: enu.east, down: enu.up.neg() }
    }
}

impl<N: Real> vstd::std_specs::convert::FromSpecImpl<ENU<N>> for NED<N> {
    open spec fn obeys_from_spec() -> bool {
        true
    }

    open spec fn from_spec(v: ENU<N>) -> NED<N> {
        NED { north: v.north, east: v.east, down: v.up.spec_neg() }
    }
}

impl<N: Real> From<NED<N>> for ENU<N> {
    /// The same offset with the axes permuted: east and north kept, up is
    /// the negated down.
    fn from(ned: NED<N>) -> (r: ENU<N>) {
        ENU { east: ned.east, north: ned.north, up: ned.down.neg() }
    }
}

impl<N: Real> vstd::std_specs::convert::FromSpecImpl<NED<N>> for ENU<N> {
    open spec fn obeys_from_spec() -> bool {
        true
    }

    open spec fn from_spec(v: NED<N>) -> ENU<N> {
        ENU { east: v.east, north: v.north, up: v.down.spec_neg() }
    }
}

} // verus!
