//! Geodetic points: latitude and longitude on the ellipsoid.

use vstd::prelude::*;
use crate::band::DEGREE;
use crate::datum::Datum;
use crate::errors::Errors;

verus! {

/// A point given by latitude and longitude.
///
/// Angles are whole multiples of 10^-11 degree (see [`DEGREE`]), positive to the
/// north and to the east.
#[derive(Debug, Copy, Clone, PartialEq, Eq, Structural)]
pub struct LatLon {
    /// The latitude.
    pub lat: i64,
    /// The longitude.
    pub lon: i64,
    /// The datum on which the point is given.
    pub datum: Datum,
    /// The meridian convergence, the bearing of grid north clockwise from
    /// true north, in units of 10^-9 degree, where it is known.
    pub convergence: Option<i64>,
    /// The grid scale factor in units of 10^-12, where it is known.
    pub scale: Option<i64>,
}

impl LatLon {
    /// Whether the point lies where the UTM grid is defined: from 80°S to
    /// 84°N, and from 180°W to 180°E.
    pub open spec fn wf(self) -> bool {
        &&& -80 * DEGREE <= self.lat <= 84 * DEGREE
        &&& -180 * DEGREE <= self.lon <= 180 * DEGREE
    }

    /// The point at the given latitude and longitude, in units of 10^-11
    /// degree, on WGS84.
    ///
    /// A latitude outside 80°S to 84°N is refused, and then a longitude
    /// outside 180°W to 180°E.
    pub fn new(lat: i64, lon: i64) -> (r: Result<Self, Errors>)
        ensures
            r == (if !(-80 * DEGREE <= lat <= 84 * DEGREE) {
                Err::<LatLon, Errors>(Errors::InvalidLatitude(lat))
            } else if !(-180 * DEGREE <= lon <= 180 * DEGREE) {
                Err::<LatLon, Errors>(Errors::InvalidLongitude(lon))
            } else {
                Ok::<LatLon, Errors>(
                    LatLon { lat, lon, datum: Datum::Wgs84, convergence: None, scale: None },
                )
            }),
            r matches Ok(p) ==> p.wf(),
    {
        if !(-80 * DEGREE <= lat && lat <= 84 * DEGREE) {
            return Err(Errors::InvalidLatitude(lat));
        }
        if !(-180 * DEGREE <= lon && lon <= 180 * DEGREE) {
            return Err(Errors::InvalidLongitude(lon));
        }
        Ok(LatLon { lat, lon, datum: Datum::Wgs84, convergence: None, scale: None })
    }
}

impl Default for LatLon {
    /// The point where the equator meets the prime meridian.
    fn default() -> (r: Self)
        ensures
            r == (LatLon { lat: 0, lon: 0, datum: Datum::Wgs84, convergence: None, scale: None }),
    {
        LatLon { lat: 0, lon: 0, datum: Datum::Wgs84, convergence: None, scale: None }
    }
}

} // verus!
