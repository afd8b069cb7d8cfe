use nav_types::{ecef_offset_at, Real, AER, ECEF, ENU, NED, WGS84};

/// A double-precision scalar for the library's generic types.
#[derive(Clone, Copy, Debug, PartialEq)]
struct F(f64);

impl Real for F {
    fn zero() -> F {
        F(0.0)
    }

    fn of_u32(n: u32) -> F {
        F(n as f64)
    }

    fn of_ratio(n: u64, d: u64) -> F {
        F((n as f64) / (d as f64))
    }

    fn tau() -> F {
        F(std::f64::consts::TAU)
    }

    fn frac_pi_2() -> F {
        F(std::f64::consts::FRAC_PI_2)
    }

    fn le(&self, o: &F) -> bool {
        self.0 <= o.0
    }

    fn is_negative(&self) -> bool {
        self.0 < 0.0
    }

    fn abs(&self) -> F {
        F(self.0.abs())
    }

    fn add(&self, o: &F) -> F {
        F(self.0 + o.0)
    }

    fn sub(&self, o: &F) -> F {
        F(self.0 - o.0)
    }

    fn mul(&self, o: &F) -> F {
        F(self.0 * o.0)
    }

    fn div(&self, o: &F) -> F {
        F(self.0 / o.0)
    }

    fn neg(&self) -> F {
        F(-self.0)
    }

    fn sqrt(&self) -> F {
        F(self.0.sqrt())
    }

    fn sin(&self) -> F {
        F(self.0.sin())
    }

    fn cos(&self) -> F {
        F(self.0.cos())
    }

    fn atan2(&self, o: &F) -> F {
        F(self.0.atan2(o.0))
    }

    fn to_radians(&self) -> F {
        F(self.0.to_radians())
    }

    fn to_degrees(&self) -> F {
        F(self.0.to_degrees())
    }


    // The model of each operation: what the operation itself computes.
    fn spec_zero() -> F {
        <F as Real>::zero()
    }

    fn spec_of_u32(n: u32) -> F {
        <F as Real>::of_u32(n)
    }

    fn spec_of_ratio(n: u64, d: u64) -> F {
        <F as Real>::of_ratio(n, d)
    }

    fn spec_tau() -> F {
        <F as Real>::tau()
    }

    fn spec_frac_pi_2() -> F {
        <F as Real>::frac_pi_2()
    }

    fn spec_le(self, o: F) -> bool {
        <F as Real>::le(&self, &o)
    }

    fn spec_is_negative(self) -> bool {
        <F as Real>::is_negative(&self)
    }

    fn spec_abs(self) -> F {
        <F as Real>::abs(&self)
    }

    fn spec_add(self, o: F) -> F {
        <F as Real>::add(&self, &o)
    }

    fn spec_sub(self, o: F) -> F {
        <F as Real>::sub(&self, &o)
    }

    fn spec_mul(self, o: F) -> F {
        <F as Real>::mul(&self, &o)
    }

    fn spec_div(self, o: F) -> F {
        <F as Real>::div(&self, &o)
    }

    fn spec_neg(self) -> F {
        <F as Real>::neg(&self)
    }

    fn spec_sqrt(self) -> F {
        <F as Real>::sqrt(&self)
    }

    fn spec_sin(self) -> F {
        <F as Real>::sin(&self)
    }

    fn spec_cos(self) -> F {
        <F as Real>::cos(&self)
    }

    fn spec_atan2(self, o: F) -> F {
        <F as Real>::atan2(&self, &o)
    }

    fn spec_to_radians(self) -> F {
        <F as Real>::to_radians(&self)
    }

    fn spec_to_degrees(self) -> F {
        <F as Real>::to_degrees(&self)
    }
}

fn close(a: F, b: F, tolerance: f64) {
    assert!(
        (a.0 - b.0).abs() <= tolerance,
        "{} and {} differ by more than {}",
        a.0,
        b.0,
        tolerance
    );
}

fn enu(east: f64, north: f64, up: f64) -> ENU<F> {
    ENU::new(F(east), F(north), F(up))
}

#[test]
fn test_create_aer() {
    let azimuths: [f32; 6] = [-0.5, -1.0, -360.0, 360.5, 361.0, 1.0e6];
    for az in azimuths {
        let az = F(az as f64);
        assert!(AER::try_from_degrees_and_meters(az, F(0.0), F(1.0)).is_none());
    }
    let elevations: [f32; 4] = [-90.5, 90.5, -180.0, 1.0e6];
    for el in elevations {
        assert!(AER::try_from_degrees_and_meters(F(10.0), F(el as f64), F(1.0)).is_none());
    }
}

#[test]
fn double_conversion_is_identity() {
    let enu = enu(1.0, 2.0, 3.0);
    let double_conversion: ENU<F> = ENU::from(AER::from(enu));
    close(enu.east(), double_conversion.east(), 0.0001);
    close(enu.north(), double_conversion.north(), 0.0001);
    close(enu.up(), double_conversion.up(), 0.0001);
    close(enu.norm(), double_conversion.norm(), 0.0001);

    let aer = AER::from_degrees_and_meters(F(10.0), F(20.0), F(30.0));
    let double_conversion = AER::from(ENU::from(aer));
    close(aer.azimuth_degrees(), double_conversion.azimuth_degrees(), 0.0001);
    close(aer.elevation_degrees(), double_conversion.elevation_degrees(), 0.0001);
    close(aer.range(), double_conversion.range(), 0.0001);
}

#[test]
fn known_good_enu_conversion() {
    let azimuth = F(34.1160_f64.to_radians());
    let elevation = F(4.1931_f64.to_radians());
    let range = F(15.1070);
    let enu = enu(8.4504, 12.4737, 1.1046);
    let aer = AER::from_radians_and_meters(azimuth, elevation, range);
    close(enu.east(), ENU::from(aer).east(), 0.001);
    close(enu.north(), ENU::from(aer).north(), 0.001);
    close(enu.up(), ENU::from(aer).up(), 0.001);
    close(aer.azimuth_radians(), AER::from(enu).azimuth_radians(), 0.001);
    close(aer.elevation_radians(), AER::from(enu).elevation_radians(), 0.001);
    close(aer.range(), AER::from(enu).range(), 0.01);
}

#[test]
fn point_to_west_is_positive_az() {
    let aer: AER<F> = AER::from(enu(-10.0, 0.0, 0.0));
    close(F(aer.azimuth.0.to_degrees()), F(270.0), 0.0001);
}

#[test]
fn degrees_known_value_to_enu() {
    let aer = AER::from_degrees_and_meters(F(34.1160), F(4.1931), F(15.1070));
    let enu = ENU::from(aer);
    close(enu.east(), F(8.4504), 0.001);
    close(enu.north(), F(12.4737), 0.001);
    close(enu.up(), F(1.1046), 0.001);
}

#[test]
fn boundary_angles_are_accepted() {
    for (az, el) in [(0.0, -90.0), (360.0, 90.0), (0.0, 90.0), (360.0, -90.0)] {
        let aer = AER::try_from_degrees_and_meters(F(az), F(el), F(5.0)).unwrap();
        close(aer.azimuth_degrees(), F(az), 1e-9);
        close(aer.elevation_degrees(), F(el), 1e-9);
        let strict = AER::from_degrees_and_meters(F(az), F(el), F(5.0));
        assert_eq!(strict.azimuth, aer.azimuth);
        assert_eq!(strict.elevation, aer.elevation);
    }
    let tau = std::f64::consts::TAU;
    let quarter = std::f64::consts::FRAC_PI_2;
    for (az, el) in [(0.0, -quarter), (tau, quarter)] {
        let aer = AER::try_from_radians_and_meters(F(az), F(el), F(5.0)).unwrap();
        assert_eq!(aer.azimuth_radians(), F(az));
        assert_eq!(aer.elevation_radians(), F(el));
        assert_eq!(aer.range(), F(5.0));
    }
}

#[test]
fn out_of_bounds_radians_are_rejected() {
    let tau = std::f64::consts::TAU;
    let quarter = std::f64::consts::FRAC_PI_2;
    assert!(AER::try_from_radians_and_meters(F(-0.001), F(0.0), F(1.0)).is_none());
    assert!(AER::try_from_radians_and_meters(F(tau + 0.001), F(0.0), F(1.0)).is_none());
    assert!(AER::try_from_radians_and_meters(F(1.0), F(quarter + 0.001), F(1.0)).is_none());
    assert!(AER::try_from_radians_and_meters(F(1.0), F(-quarter - 0.001), F(1.0)).is_none());
    assert!(AER::try_from_degrees_and_meters(F(10.0), F(-90.001), F(1.0)).is_none());
}

#[test]
fn degrees_are_stored_as_radians() {
    let aer = AER::from_degrees_and_meters(F(180.0), F(45.0), F(7.0));
    close(aer.azimuth_radians(), F(std::f64::consts::PI), 1e-12);
    close(aer.elevation_radians(), F(std::f64::consts::FRAC_PI_4), 1e-12);
    close(aer.azimuth_degrees(), F(180.0), 1e-9);
    close(aer.elevation_degrees(), F(45.0), 1e-9);
}

#[test]
fn range_is_returned_unchanged() {
    let aer = AER::from_degrees_and_meters(F(10.0), F(20.0), F(1.0));
    assert_eq!(aer.range(), F(1.0));
    let aer = AER::from_radians_and_meters(F(1.0), F(0.5), F(250.0));
    assert_eq!(aer.range(), F(250.0));
}

#[test]
fn enu_norm_and_components() {
    let v = enu(3.0, 4.0, 12.0);
    assert_eq!(v.east(), F(3.0));
    assert_eq!(v.north(), F(4.0));
    assert_eq!(v.up(), F(12.0));
    assert_eq!(v.norm(), F(13.0));
}

#[test]
fn enu_to_aer_exact_values() {
    let aer = AER::from(enu(0.0, 3.0, 4.0));
    close(aer.azimuth_radians(), F(0.0), 1e-12);
    close(aer.elevation_radians(), F(4.0_f64.atan2(3.0)), 1e-12);
    close(aer.range(), F(5.0), 1e-12);
    let aer = AER::from(enu(0.0, -1.0, 0.0));
    close(aer.azimuth_degrees(), F(180.0), 1e-9);
    let aer = AER::from(enu(-1.0, -1.0, 0.0));
    close(aer.azimuth_degrees(), F(225.0), 1e-9);
}

#[test]
fn aer_to_enu_exact_values() {
    let v = ENU::from(AER::from_degrees_and_meters(F(90.0), F(0.0), F(2.0)));
    close(v.east(), F(2.0), 1e-12);
    close(v.north(), F(0.0), 1e-12);
    close(v.up(), F(0.0), 1e-12);
    let v = ENU::from(AER::from_degrees_and_meters(F(0.0), F(90.0), F(3.0)));
    close(v.east(), F(0.0), 1e-12);
    close(v.up(), F(3.0), 1e-12);
}

fn position(latitude: f64, longitude: f64, altitude: f64) -> WGS84<F> {
    WGS84::from_degrees_and_meters(F(latitude), F(longitude), F(altitude))
}

#[test]
fn geodetic_round_trip() {
    let places = [
        (0.0, 0.0, 0.0),
        (50.0, 10.0, 100.0),
        (-33.9, 151.2, 40.0),
        (89.999, -45.0, 1200.0),
        (90.0, 0.0, 10.0),
        (-90.0, 0.0, -10.0),
        (12.5, 179.9, -300.0),
        (-45.0, -120.0, 35000.0),
    ];
    for (lat, lon, alt) in places {
        let g = position(lat, lon, alt);
        let back = WGS84::from(ECEF::from(g));
        close(back.latitude_degrees(), F(lat), 1e-6);
        if lat.abs() < 90.0 {
            close(back.longitude_degrees(), F(lon), 1e-6);
        }
        close(back.altitude(), F(alt), 1e-3);
    }
}

#[test]
fn ecef_known_values() {
    let e = ECEF::from(position(0.0, 0.0, 0.0));
    close(e.x(), F(6378137.0), 1e-6);
    close(e.y(), F(0.0), 1e-6);
    close(e.z(), F(0.0), 1e-6);
    let e = ECEF::from(position(90.0, 0.0, 0.0));
    close(e.z(), F(6356752.314245), 1e-3);
    let e = ECEF::from(position(0.0, 90.0, 10.0));
    close(e.x(), F(0.0), 1e-6);
    close(e.y(), F(6378147.0), 1e-6);
}

#[test]
fn position_plus_aer_moves_by_rotated_offset() {
    let origin = position(50.0, 10.0, 100.0);
    let offset = AER::from_degrees_and_meters(F(45.0), F(-10.0), F(100.0));
    let object = origin.add_aer(&offset);
    let expected = ECEF::from(origin).plus(&ecef_offset_at(&origin, &ENU::from(offset)));
    let moved = ECEF::from(object);
    close(moved.x(), expected.x(), 1e-3);
    close(moved.y(), expected.y(), 1e-3);
    close(moved.z(), expected.z(), 1e-3);
    let start = ECEF::from(origin);
    let dx = moved.x().0 - start.x().0;
    let dy = moved.y().0 - start.y().0;
    let dz = moved.z().0 - start.z().0;
    close(F((dx * dx + dy * dy + dz * dz).sqrt()), F(100.0), 1e-3);
    assert!(object.altitude().0 < 100.0);
}

#[test]
fn position_plus_up_offset_raises_altitude() {
    let origin = position(-20.0, 30.0, 5.0);
    let moved = origin.add_enu(&enu(0.0, 0.0, 100.0));
    close(moved.latitude_degrees(), F(-20.0), 1e-9);
    close(moved.longitude_degrees(), F(30.0), 1e-9);
    close(moved.altitude(), F(105.0), 1e-6);
}

#[test]
fn geodetic_bounds_are_checked() {
    assert!(WGS84::try_from_degrees_and_meters(F(90.5), F(0.0), F(0.0)).is_none());
    assert!(WGS84::try_from_degrees_and_meters(F(-90.5), F(0.0), F(0.0)).is_none());
    assert!(WGS84::try_from_degrees_and_meters(F(0.0), F(180.5), F(0.0)).is_none());
    assert!(WGS84::try_from_degrees_and_meters(F(0.0), F(-180.5), F(0.0)).is_none());
    let g = WGS84::try_from_degrees_and_meters(F(-90.0), F(180.0), F(-12.0)).unwrap();
    close(g.latitude_radians(), F(-std::f64::consts::FRAC_PI_2), 1e-12);
    close(g.longitude_radians(), F(std::f64::consts::PI), 1e-12);
    assert_eq!(g.altitude(), F(-12.0));
}

#[test]
fn enu_vector_algebra() {
    let a = enu(1.0, 2.0, 3.0);
    let b = enu(-4.0, 0.5, 2.0);
    let s = a.plus(&b);
    assert_eq!((s.east(), s.north(), s.up()), (F(-3.0), F(2.5), F(5.0)));
    let d = a.minus(&b);
    assert_eq!((d.east(), d.north(), d.up()), (F(5.0), F(1.5), F(1.0)));
    let n = a.negated();
    assert_eq!((n.east(), n.north(), n.up()), (F(-1.0), F(-2.0), F(-3.0)));
    let k = a.scaled(&F(2.0));
    assert_eq!((k.east(), k.north(), k.up()), (F(2.0), F(4.0), F(6.0)));
    assert_eq!(a.dot(&b), F(3.0));
}

#[test]
fn enu_ned_permutation() {
    let ned = NED::from(enu(1.0, 2.0, 3.0));
    assert_eq!((ned.north(), ned.east(), ned.down()), (F(2.0), F(1.0), F(-3.0)));
    let back = ENU::from(ned);
    assert_eq!((back.east(), back.north(), back.up()), (F(1.0), F(2.0), F(3.0)));
    let origin = position(10.0, 20.0, 0.0);
    let down = origin.add_ned(&NED::new(F(0.0), F(0.0), F(50.0)));
    close(down.altitude(), F(-50.0), 1e-6);
}
