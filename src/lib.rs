//! Geodetic positions, Earth-centered vectors, and local tangent-plane
//! offsets in azimuth-elevation-range and east-north-up form, generic over a
//! scalar capability.
mod aer;
mod ecef;
mod enu;
mod scalar;
mod wgs84;

pub use aer::AER;
pub use ecef::ECEF;
pub use enu::{ENU, NED};
pub use scalar::Real;
pub use wgs84::{ecef_offset_at, WGS84};
