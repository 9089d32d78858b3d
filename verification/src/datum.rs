//! The reference ellipsoid on which coordinates are given.

use vstd::prelude::*;
use vstd::string::StringSliceAdditionalSpecFns;
use crate::errors::Errors;

verus! {

/// A geodetic datum. Only WGS84 is known.
#[derive(Debug, Copy, Clone, PartialEq, Eq, Structural)]
pub enum Datum {
    /// The World Geodetic System of 1984.
    Wgs84,
}

/// An ASCII letter in upper case; any other byte unchanged.
pub open spec fn upper_case(b: u8) -> u8 {
    if 97 <= b <= 122 {
        (b - 32) as u8
    } else {
        b
    }
}

/// Whether the bytes spell `WGS84`, the letters in either case.
pub open spec fn spells_wgs84(s: Seq<u8>) -> bool {
    &&& s.len() == 5
    &&& upper_case(s[0]) == 87
    &&& upper_case(s[1]) == 71
    &&& upper_case(s[2]) == 83
    &&& s[3] == 56
    &&& s[4] == 52
}

/// An ASCII letter in upper case; any other byte unchanged.
pub fn to_upper_case(b: u8) -> (r: u8)
    ensures
        r == upper_case(b),
{
    if 97 <= b && b <= 122 {
        b - 32
    } else {
        b
    }
}

impl Datum {
    /// The semi-major (equatorial) axis of the ellipsoid in metres.
    pub fn semi_major_axis(&self) -> (r: u64)
        ensures
            r == 6_378_137,
    {
        match *self {
            Datum::Wgs84 => 6_378_137,
        }
    }

    /// The semi-minor (polar) axis of the ellipsoid in micrometres.
    pub fn semi_minor_axis_micrometers(&self) -> (r: u64)
        ensures
            r == 6_356_752_314_245,
    {
        match *self {
            Datum::Wgs84 => 6_356_752_314_245,
        }
    }

    /// The inverse of the flattening of the ellipsoid, in units of 10^-9.
    pub fn inverse_flattening_e9(&self) -> (r: u64)
        ensures
            r == 298_257_223_563,
    {
        match *self {
            Datum::Wgs84 => 298_257_223_563,
        }
    }

    /// The datum that `s` names, the letters in either case.
    pub fn from_str(s: &str) -> (r: Result<Self, Errors>)
        ensures
            spells_wgs84(s.spec_bytes()) ==> r == Ok::<Datum, Errors>(Datum::Wgs84),
            !spells_wgs84(s.spec_bytes()) ==> (r matches Err(Errors::InvalidDatum(name))
                && name@ == s@),
    {
        let d = s.as_bytes();
        if d.len() == 5 && to_upper_case(d[0]) == 87 && to_upper_case(d[1]) == 71
            && to_upper_case(d[2]) == 83 && d[3] == 56 && d[4] == 52 {
            Ok(Datum::Wgs84)
        } else {
            Err(Errors::InvalidDatum(s.to_owned()))
        }
    }
}

impl Default for Datum {
    /// WGS84.
    fn default() -> (r: Self)
        ensures
            r == Datum::Wgs84,
    {
        Datum::Wgs84
    }
}

} // verus!
