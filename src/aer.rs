use vstd::prelude::*;
use crate::enu::ENU;
use crate::scalar::{sum_of_squares, Real};

verus! {

/// An offset in the local tangent plane, in spherical form: azimuth measured
/// clockwise from local north, elevation above the horizontal plane, and the
/// slant range.
///
/// Azimuth and elevation are stored in radians, the range in meters.
#[derive(Clone, Copy, Debug)]
pub struct AER<N> {
    pub azimuth: N,
    pub elevation: N,
    pub range: N,
}

/// Whether an azimuth lies in `[0, 360]` and an elevation in `[-90, 90]`,
/// both in degrees.
pub open spec fn valid_degrees<N: Real>(azimuth: N, elevation: N) -> bool {
    &&& N::spec_zero().spec_le(azimuth)
    &&& azimuth.spec_le(N::spec_of_u32(360))
    &&& elevation.spec_abs().spec_le(N::spec_of_u32(90))
}

/// Whether an azimuth lies in `[0, tau]` and an elevation in
/// `[-tau/4, tau/4]`, both in radians.
pub open spec fn valid_radians<N: Real>(azimuth: N, elevation: N) -> bool {
    &&& N::spec_zero().spec_le(azimuth)
    &&& azimuth.spec_le(N::spec_tau())
    &&& elevation.spec_abs().spec_le(N::spec_frac_pi_2())
}

/// An azimuth brought into `[0, tau)`: a negative angle gets a full turn
/// added.
pub open spec fn wrap_azimuth<N: Real>(azimuth: N) -> N {
    if azimuth.spec_is_negative() {
        azimuth.spec_add(N::spec_tau())
    } else {
        azimuth
    }
}

/// The spherical form of an east-north-up offset.
pub open spec fn aer_of_enu<N: Real>(enu: ENU<N>) -> AER<N> {
    AER {
        azimuth: wrap_azimuth(enu.east.spec_atan2(enu.north)),
        elevation: enu.up.spec_atan2(sum_of_squares(enu.east, enu.north).spec_sqrt()),
        range: enu.spec_norm(),
    }
}

/// The east-north-up form of a spherical offset.
pub open spec fn enu_of_aer<N: Real>(aer: AER<N>) -> ENU<N> {
    ENU {
        east: aer.azimuth.spec_sin().spec_mul(aer.elevation.spec_cos()).spec_mul(aer.range),
        north: aer.azimuth.spec_cos().spec_mul(aer.elevation.spec_cos()).spec_mul(aer.range),
        up: aer.elevation.spec_sin().spec_mul(aer.range),
    }
}

impl<N: Real> AER<N> {
    /// Create an offset from an azimuth in degrees (0 to 360, clockwise from
    /// north), an elevation in degrees (-90 to 90) and a range in meters.
    ///
    /// The angles must lie within their bounds; `try_from_degrees_and_meters`
    /// checks them instead.
    pub fn from_degrees_and_meters(azimuth: N, elevation: N, range: N) -> (r: AER<N>)
        requires
            valid_degrees(azimuth, elevation),
        ensures
            r.azimuth == azimuth.spec_to_radians(),
            r.elevation == elevation.spec_to_radians(),
            r.range == range,
    {
        AER { azimuth: azimuth.to_radians(), elevation: elevation.to_radians(), range }
    }

    /// Create an offset from an azimuth in degrees (0 to 360, clockwise from
    /// north), an elevation in degrees (-90 to 90) and a range in meters, or
    /// `None` when an angle is out of its bounds.
    pub fn try_from_degrees_and_meters(azimuth: N, elevation: N, range: N) -> (r: Option<AER<N>>)
        ensures
            r is Some <==> valid_degrees(azimuth, elevation),
            r matches Some(a) ==> {
                &&& a.azimuth == azimuth.spec_to_radians()
                &&& a.elevation == elevation.spec_to_radians()
                &&& a.range == range
            },
    {
        let zero = N::zero();
        let full = N::of_u32(360);
        let quarter = N::of_u32(90);
        if zero.le(&azimuth) && azimuth.le(&full) && elevation.abs().le(&quarter) {
            Some(AER { azimuth: azimuth.to_radians(), elevation: elevation.to_radians(), range })
        } else {
            None
        }
    }

    /// Create an offset from an azimuth in radians (0 to tau, clockwise from
    /// north), an elevation in radians (-tau/4 to tau/4) and a range in meters.
    ///
    /// The angles must lie within their bounds; `try_from_radians_and_meters`
    /// checks them instead.
    pub fn from_radians_and_meters(azimuth: N, elevation: N, range: N) -> (r: AER<N>)
        requires
            valid_radians(azimuth, elevation),
        ensures
            r.azimuth == azimuth,
            r.elevation == elevation,
            r.range == range,
    {
        AER { azimuth, elevation, range }
    }

    /// Create an offset from an azimuth in radians (0 to tau, clockwise from
    /// north), an elevation in radians (-tau/4 to tau/4) and a range in meters,
    /// or `None` when an angle is out of its bounds.
    pub fn try_from_radians_and_meters(azimuth: N, elevation: N, range: N) -> (r: Option<AER<N>>)
        ensures
            r is Some <==> valid_radians(azimuth, elevation),
            r matches Some(a) ==> {
                &&& a.azimuth == azimuth
                &&& a.elevation == elevation
                &&& a.range == range
            },
    {
        let zero = N::zero();
        let tau = N::tau();
        let quarter = N::frac_pi_2();
        if zero.le(&azimuth) && azimuth.le(&tau) && elevation.abs().le(&quarter) {
            Some(AER { azimuth, elevation, range })
        } else {
            None
        }
    }

    /// The azimuth in degrees.
    pub fn azimuth_degrees(&self) -> (r: N)
        ensures
            r == self.azimuth.spec_to_degrees(),
    {
        self.azimuth.to_degrees()
    }

    /// The elevation in degrees.
    pub fn elevation_degrees(&self) -> (r: N)
        ensures
            r == self.elevation.spec_to_degrees(),
    {
        self.elevation.to_degrees()
    }

    /// The azimuth in radians.
    pub fn azimuth_radians(&self) -> (r: N)
        ensures
            r == self.azimuth,
    {
        self.azimuth
    }

    /// The elevation in radians.
    pub fn elevation_radians(&self) -> (r: N)
        ensures
            r == self.elevation,
    {
        self.elevation
    }

    /// The range in meters, as stored: no unit conversion applies to it.
    pub fn range(&self) -> (r: N)
        ensures
            r == self.range,
    {
        self.range
    }
}

impl<N: Real> From<ENU<N>> for AER<N> {
    /// The spherical form of an east-north-up offset: the azimuth is
    /// `atan2(east, north)` brought into `[0, tau)`, the elevation is
    /// `atan2(up, sqrt(east² + north²))`, and the range is the offset's norm.
    fn from(enu: ENU<N>) -> (r: AER<N>) {
        let horizontal = enu.east.mul(&enu.east).add(&enu.north.mul(&enu.north)).sqrt();
        let mut azimuth = enu.east.atan2(&enu.north);
        if azimuth.is_negative() {
            azimuth = azimuth.add(&N::tau());
        }
        AER { azimuth, elevation: enu.up.atan2(&horizontal), range: enu.norm() }
    }
}

impl<N: Real> vstd::std_specs::convert::FromSpecImpl<ENU<N>> for AER<N> {
    open spec fn obeys_from_spec() -> bool {
        true
    }

    open spec fn from_spec(v: ENU<N>) -> AER<N> {
        aer_of_enu(v)
    }
}

impl<N: Real> From<AER<N>> for ENU<N> {
    /// The east-north-up form of a spherical offset:
    /// `east = sin(az)·cos(el)·range`, `north = cos(az)·cos(el)·range`,
    /// `up = sin(el)·range`.
    fn from(aer: AER<N>) -> (r: ENU<N>) {
        let cos_el = aer.elevation.cos();
        ENU::new(
            aer.azimuth.sin().mul(&cos_el).mul(&aer.range),
            aer.azimuth.cos().mul(&cos_el).mul(&aer.range),
            aer.elevation.sin().mul(&aer.range),
        )
    }
}

impl<N: Real> vstd::std_specs::convert::FromSpecImpl<AER<N>> for ENU<N> {
    open spec fn obeys_from_spec() -> bool {
        true
    }

    open spec fn from_spec(v: AER<N>) -> ENU<N> {
        enu_of_aer(v)
    }
}

} // verus!
