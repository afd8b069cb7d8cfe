use vstd::prelude::*;

verus! {

/// The scalar capability that coordinates are generic over: a copyable real
/// number with ordering, arithmetic, square root, trigonometry and unit
/// conversion between degrees and radians.
///
/// Each operation is described by a spec function of the same name with a
/// `spec_` prefix, and each executable operation returns exactly what its
/// spec counterpart gives. An implementation meets this by defining each spec
/// function as what the operation computes on its type (for an IEEE double:
/// the rounded machine result), so the only thing assumed of an
/// implementation is that its operations are deterministic. Contracts
/// elsewhere in the library are stated over these spec functions, so they
/// hold for every scalar type that implements this trait. Implementations for
/// floating-point types live with the callers.
pub trait Real: Copy + Sized {
    /// The additive identity.
    spec fn spec_zero() -> Self;

    /// The scalar that stands for a whole number.
    spec fn spec_of_u32(n: u32) -> Self;

    /// The scalar that stands for the fraction `n / d`.
    spec fn spec_of_ratio(n: u64, d: u64) -> Self;

    /// A full turn in radians (two pi).
    spec fn spec_tau() -> Self;

    /// A quarter turn in radians (pi over two).
    spec fn spec_frac_pi_2() -> Self;

    /// `self <= o`.
    spec fn spec_le(self, o: Self) -> bool;

    /// `self < 0`.
    spec fn spec_is_negative(self) -> bool;

    spec fn spec_abs(self) -> Self;

    spec fn spec_add(self, o: Self) -> Self;

    spec fn spec_sub(self, o: Self) -> Self;

    spec fn spec_mul(self, o: Self) -> Self;

    spec fn spec_div(self, o: Self) -> Self;

    spec fn spec_neg(self) -> Self;

    spec fn spec_sqrt(self) -> Self;

    spec fn spec_sin(self) -> Self;

    spec fn spec_cos(self) -> Self;

    /// The four-quadrant arctangent of `self / o`.
    spec fn spec_atan2(self, o: Self) -> Self;

    /// An angle in degrees, converted to radians.
    spec fn spec_to_radians(self) -> Self;

    /// An angle in radians, converted to degrees.
    spec fn spec_to_degrees(self) -> Self;

    fn zero() -> (r: Self)
        ensures
            r == Self::spec_zero(),
    ;

    fn of_u32(n: u32) -> (r: Self)
        ensures
            r == Self::spec_of_u32(n),
    ;

    fn of_ratio(n: u64, d: u64) -> (r: Self)
        ensures
            r == Self::spec_of_ratio(n, d),
    ;

    fn tau() -> (r: Self)
        ensures
            r == Self::spec_tau(),
    ;

    fn frac_pi_2() -> (r: Self)
        ensures
            r == Self::spec_frac_pi_2(),
    ;

    fn le(&self, o: &Self) -> (r: bool)
        ensures
            r == self.spec_le(*o),
    ;

    fn is_negative(&self) -> (r: bool)
        ensures
            r == self.spec_is_negative(),
    ;

    fn abs(&self) -> (r: Self)
        ensures
            r == self.spec_abs(),
    ;

    fn add(&self, o: &Self) -> (r: Self)
        ensures
            r == self.spec_add(*o),
    ;

    fn sub(&self, o: &Self) -> (r: Self)
        ensures
            r == self.spec_sub(*o),
    ;

    fn mul(&self, o: &Self) -> (r: Self)
        ensures
            r == self.spec_mul(*o),
    ;

    fn div(&self, o: &Self) -> (r: Self)
        ensures
            r == self.spec_div(*o),
    ;

    fn neg(&self) -> (r: Self)
        ensures
            r == self.spec_neg(),
    ;

    fn sqrt(&self) -> (r: Self)
        ensures
            r == self.spec_sqrt(),
    ;

    fn sin(&self) -> (r: Self)
        ensures
            r == self.spec_sin(),
    ;

    fn cos(&self) -> (r: Self)
        ensures
            r == self.spec_cos(),
    ;

    fn atan2(&self, o: &Self) -> (r: Self)
        ensures
            r == self.spec_atan2(*o),
    ;

    fn to_radians(&self) -> (r: Self)
        ensures
            r == self.spec_to_radians(),
    ;

    fn to_degrees(&self) -> (r: Self)
        ensures
            r == self.spec_to_degrees(),
    ;
}

/// `x * x + y * y`, in the scalar's arithmetic.
pub open spec fn sum_of_squares<N: Real>(x: N, y: N) -> N {
    x.spec_mul(x).spec_add(y.spec_mul(y))
}

} // verus!
