use vstd::prelude::*;
use crate::aer::{enu_of_aer, AER};
use crate::ecef::ECEF;
use crate::enu::{ENU, NED};
use crate::scalar::{sum_of_squares, Real};

verus! {

/// Semi-major axis of the reference ellipsoid, in meters.
pub const SEMI_MAJOR_AXIS_M: u64 = 6378137;

/// Numerator of the ellipsoid's squared first eccentricity.
pub const ECCENTRICITY_SQ_NUM: u64 = 669437999014;

/// Denominator of the ellipsoid's squared first eccentricity.
pub const ECCENTRICITY_SQ_DEN: u64 = 100000000000000;

/// Number of fixed-point steps that refine the latitude when a Cartesian
/// position is converted to geodetic form. Each step shrinks the error by
/// about the squared eccentricity, so five steps bring it below double
/// precision.
pub const LATITUDE_STEPS: u32 = 5;

/// A geodetic position on the reference ellipsoid: latitude and longitude in
/// radians, altitude above the ellipsoid in meters (negative below it).
#[derive(Clone, Copy, Debug)]
pub struct WGS84<N> {
    pub latitude: N,
    pub longitude: N,
    pub altitude: N,
}

pub open spec fn one<N: Real>() -> N {
    N::spec_of_u32(1)
}

pub open spec fn semi_major_axis<N: Real>() -> N {
    N::spec_of_ratio(SEMI_MAJOR_AXIS_M, 1)
}

pub open spec fn eccentricity_sq<N: Real>() -> N {
    N::spec_of_ratio(ECCENTRICITY_SQ_NUM, ECCENTRICITY_SQ_DEN)
}

/// Prime-vertical radius of curvature, `a / sqrt(1 - e²·sin²(lat))`.
pub open spec fn prime_vertical_radius<N: Real>(latitude: N) -> N {
    let s = latitude.spec_sin();
    semi_major_axis::<N>().spec_div(
        one::<N>().spec_sub(eccentricity_sq::<N>().spec_mul(s.spec_mul(s))).spec_sqrt(),
    )
}

/// Whether a latitude lies in `[-90, 90]` and a longitude in `[-180, 180]`,
/// both in degrees.
pub open spec fn valid_position_degrees<N: Real>(latitude: N, longitude: N) -> bool {
    &&& latitude.spec_abs().spec_le(N::spec_of_u32(90))
    &&& longitude.spec_abs().spec_le(N::spec_of_u32(180))
}

/// The Earth-centered form of a geodetic position (closed form).
pub open spec fn ecef_of_wgs84<N: Real>(g: WGS84<N>) -> ECEF<N> {
    let n = prime_vertical_radius(g.latitude);
    let r = n.spec_add(g.altitude).spec_mul(g.latitude.spec_cos());
    ECEF {
        x: r.spec_mul(g.longitude.spec_cos()),
        y: r.spec_mul(g.longitude.spec_sin()),
        z: n.spec_mul(one::<N>().spec_sub(eccentricity_sq::<N>())).spec_add(g.altitude).spec_mul(
            g.latitude.spec_sin(),
        ),
    }
}

/// One refinement of the latitude: `atan2(z + e²·N(lat)·sin(lat), p)`.
pub open spec fn latitude_step<N: Real>(latitude: N, z: N, p: N) -> N {
    z.spec_add(
        eccentricity_sq::<N>().spec_mul(prime_vertical_radius(latitude)).spec_mul(
            latitude.spec_sin(),
        ),
    ).spec_atan2(p)
}

/// The latitude after `k` refinements, starting from `atan2(z, p·(1 - e²))`.
pub open spec fn latitude_after<N: Real>(z: N, p: N, k: nat) -> N
    decreases k,
{
    if k == 0 {
        z.spec_atan2(p.spec_mul(one::<N>().spec_sub(eccentricity_sq::<N>())))
    } else {
        latitude_step(latitude_after(z, p, (k - 1) as nat), z, p)
    }
}

/// The altitude at a converged latitude. Near the poles (`p <= |z|`) it is
/// recovered from `z`, which avoids dividing by a cosine close to zero;
/// elsewhere from the distance `p` to the polar axis.
pub open spec fn altitude_at<N: Real>(latitude: N, z: N, p: N) -> N {
    let n = prime_vertical_radius(latitude);
    if p.spec_le(z.spec_abs()) {
        z.spec_div(latitude.spec_sin()).spec_sub(
            n.spec_mul(one::<N>().spec_sub(eccentricity_sq::<N>())),
        )
    } else {
        p.spec_div(latitude.spec_cos()).spec_sub(n)
    }
}

/// The geodetic form of an Earth-centered position.
pub open spec fn wgs84_of_ecef<N: Real>(e: ECEF<N>) -> WGS84<N> {
    let p = sum_of_squares(e.x, e.y).spec_sqrt();
    let latitude = latitude_after(e.z, p, LATITUDE_STEPS as nat);
    WGS84 { latitude, longitude: e.y.spec_atan2(e.x), altitude: altitude_at(latitude, e.z, p) }
}

/// An east-north-up offset at a geodetic origin, rotated into the
/// Earth-centered frame.
pub open spec fn ecef_offset_of_enu<N: Real>(origin: WGS84<N>, enu: ENU<N>) -> ECEF<N> {
    let sin_lat = origin.latitude.spec_sin();
    let cos_lat = origin.latitude.spec_cos();
    let sin_lon = origin.longitude.spec_sin();
    let cos_lon = origin.longitude.spec_cos();
    ECEF {
        x: sin_lon.spec_neg().spec_mul(enu.east).spec_sub(
            sin_lat.spec_mul(cos_lon).spec_mul(enu.north),
        ).spec_add(cos_lat.spec_mul(cos_lon).spec_mul(enu.up)),
        y: cos_lon.spec_mul(enu.east).spec_sub(sin_lat.spec_mul(sin_lon).spec_mul(enu.north)).spec_add(
            cos_lat.spec_mul(sin_lon).spec_mul(enu.up),
        ),
        z: cos_lat.spec_mul(enu.north).spec_add(sin_lat.spec_mul(enu.up)),
    }
}

/// A geodetic position moved by an east-north-up offset taken at that
/// position: the offset is rotated into the Earth-centered frame, added to the
/// position's Earth-centered form, and the sum is converted back.
pub open spec fn wgs84_plus_enu<N: Real>(origin: WGS84<N>, enu: ENU<N>) -> WGS84<N> {
    wgs84_of_ecef(ecef_of_wgs84(origin).spec_plus(ecef_offset_of_enu(origin, enu)))
}

fn one_minus_eccentricity_sq<N: Real>() -> (r: N)
    ensures
        r == one::<N>().spec_sub(eccentricity_sq::<N>()),
{
    N::of_u32(1).sub(&N::of_ratio(ECCENTRICITY_SQ_NUM, ECCENTRICITY_SQ_DEN))
}

fn prime_vertical_radius_of<N: Real>(latitude: &N) -> (r: N)
    ensures
        r == prime_vertical_radius(*latitude),
{
    let s = latitude.sin();
    let e2 = N::of_ratio(ECCENTRICITY_SQ_NUM, ECCENTRICITY_SQ_DEN);
    let denominator = N::of_u32(1).sub(&e2.mul(&s.mul(&s))).sqrt();
    N::of_ratio(SEMI_MAJOR_AXIS_M, 1).div(&denominator)
}

impl<N: Real> WGS84<N> {
    /// Create a position from a latitude in degrees (-90 to 90), a longitude
    /// in degrees (-180 to 180) and an altitude in meters.
    ///
    /// The angles must lie within their bounds; `try_from_degrees_and_meters`
    /// checks them instead.
    pub fn from_degrees_and_meters(latitude: N, longitude: N, altitude: N) -> (r: WGS84<N>)
        requires
            valid_position_degrees(latitude, longitude),
        ensures
            r.latitude == latitude.spec_to_radians(),
            r.longitude == longitude.spec_to_radians(),
            r.altitude == altitude,
    {
        WGS84 { latitude: latitude.to_radians(), longitude: longitude.to_radians(), altitude }
    }

    /// Create a position from a latitude in degrees (-90 to 90), a longitude
    /// in degrees (-180 to 180) and an altitude in meters, or `None` when an
    /// angle is out of its bounds.
    pub fn try_from_degrees_and_meters(latitude: N, longitude: N, altitude: N) -> (r: Option<
        WGS84<N>,
    >)
        ensures
            r is Some <==> valid_position_degrees(latitude, longitude),
            r matches Some(g) ==> {
                &&& g.latitude == latitude.spec_to_radians()
                &&& g.longitude == longitude.spec_to_radians()
                &&& g.altitude == altitude
            },
    {
        if latitude.abs().le(&N::of_u32(90)) && longitude.abs().le(&N::of_u32(180)) {
            Some(
                WGS84 {
                    latitude: latitude.to_radians(),
                    longitude: longitude.to_radians(),
                    altitude,
                },
            )
        } else {
            None
        }
    }

    /// The latitude in degrees.
    pub fn latitude_degrees(&self) -> (r: N)
        ensures
            r == self.latitude.spec_to_degrees(),
    {
        self.latitude.to_degrees()
    }

    /// The longitude in degrees.
    pub fn longitude_degrees(&self) -> (r: N)
        ensures
            r == self.longitude.spec_to_degrees(),
    {
        self.longitude.to_degrees()
    }

    /// The latitude in radians.
    pub fn latitude_radians(&self) -> (r: N)
        ensures
            r == self.latitude,
    {
        self.latitude
    }

    /// The longitude in radians.
    pub fn longitude_radians(&self) -> (r: N)
        ensures
            r == self.longitude,
    {
        self.longitude
    }

    /// The altitude above the ellipsoid in meters.
    pub fn altitude(&self) -> (r: N)
        ensures
            r == self.altitude,
    {
        self.altitude
    }
    /// This position moved by an east-north-up offset taken here.
    pub fn add_enu(&self, enu: &ENU<N>) -> (r: WGS84<N>)
        ensures
            r == wgs84_plus_enu(*self, *enu),
    {
        let origin = ECEF::from(*self);
        WGS84::from(origin.plus(&ecef_offset_at(self, enu)))
    }

    /// This position moved by an azimuth-elevation-range offset taken here:
    /// the offset's east-north-up form is added.
    pub fn add_aer(&self, aer: &AER<N>) -> (r: WGS84<N>)
        ensures
            r == wgs84_plus_enu(*self, enu_of_aer(*aer)),
    {
        self.add_enu(&ENU::from(*aer))
    }

    /// This position moved by a north-east-down offset taken here: the
    /// offset's east-north-up form is added.
    pub fn add_ned(&self, ned: &NED<N>) -> (r: WGS84<N>)
        ensures
            r == wgs84_plus_enu(*self, ENU { east: ned.east, north: ned.north, up: ned.down.spec_neg() }),
    {
        self.add_enu(&ENU::from(*ned))
    }
}

/// An east-north-up offset at a geodetic origin, rotated into the
/// Earth-centered frame.
pub fn ecef_offset_at<N: Real>(origin: &WGS84<N>, enu: &ENU<N>) -> (r: ECEF<N>)
    ensures
        r == ecef_offset_of_enu(*origin, *enu),
{
    let sin_lat = origin.latitude.sin();
    let cos_lat = origin.latitude.cos();
    let sin_lon = origin.longitude.sin();
    let cos_lon = origin.longitude.cos();
    let x = sin_lon.neg().mul(&enu.east).sub(&sin_lat.mul(&cos_lon).mul(&enu.north)).add(
        &cos_lat.mul(&cos_lon).mul(&enu.up),
    );
    let y = cos_lon.mul(&enu.east).sub(&sin_lat.mul(&sin_lon).mul(&enu.north)).add(
        &cos_lat.mul(&sin_lon).mul(&enu.up),
    );
    let z = cos_lat.mul(&enu.north).add(&sin_lat.mul(&enu.up));
    ECEF { x, y, z }
}

impl<N: Real> From<WGS84<N>> for ECEF<N> {
    /// The closed-form Earth-centered position of a geodetic position.
    fn from(g: WGS84<N>) -> (r: ECEF<N>) {
        let n = prime_vertical_radius_of(&g.latitude);
        let r = n.add(&g.altitude).mul(&g.latitude.cos());
        let z = n.mul(&one_minus_eccentricity_sq()).add(&g.altitude).mul(&g.latitude.sin());
        ECEF { x: r.mul(&g.longitude.cos()), y: r.mul(&g.longitude.sin()), z }
    }
}

impl<N: Real> vstd::std_specs::convert::FromSpecImpl<WGS84<N>> for ECEF<N> {
    open spec fn obeys_from_spec() -> bool {
        true
    }

    open spec fn from_spec(v: WGS84<N>) -> ECEF<N> {
        ecef_of_wgs84(v)
    }
}

impl<N: Real> From<ECEF<N>> for WGS84<N> {
    /// The geodetic position of an Earth-centered position, found by a fixed
    /// number of latitude refinements.
    fn from(e: ECEF<N>) -> (r: WGS84<N>) {
        let p = e.x.mul(&e.x).add(&e.y.mul(&e.y)).sqrt();
        let e2 = N::of_ratio(ECCENTRICITY_SQ_NUM, ECCENTRICITY_SQ_DEN);
        let mut latitude = e.z.atan2(&p.mul(&one_minus_eccentricity_sq()));
        let mut k: u32 = 0;
        while k < LATITUDE_STEPS
            invariant
                k <= LATITUDE_STEPS,
                e2 == eccentricity_sq::<N>(),
                p == sum_of_squares(e.x, e.y).spec_sqrt(),
                latitude == latitude_after(e.z, p, k as nat),
            decreases LATITUDE_STEPS - k,
        {
            let n = prime_vertical_radius_of(&latitude);
            latitude = e.z.add(&e2.mul(&n).mul(&latitude.sin())).atan2(&p);
            k = k + 1;
        }
        let n = prime_vertical_radius_of(&latitude);
        let altitude = if p.le(&e.z.abs()) {
            e.z.div(&latitude.sin()).sub(&n.mul(&one_minus_eccentricity_sq()))
        } else {
            p.div(&latitude.cos()).sub(&n)
        };
        WGS84 { latitude, longitude: e.y.atan2(&e.x), altitude }
    }
}

impl<N: Real> vstd::std_specs::convert::FromSpecImpl<ECEF<N>> for WGS84<N> {
    open spec fn obeys_from_spec() -> bool {
        true
    }

    open spec fn from_spec(v: ECEF<N>) -> WGS84<N> {
        wgs84_of_ecef(v)
    }
}

} // verus!
