//! The two hemispheres of the UTM grid.

use vstd::prelude::*;
use vstd::std_specs::convert::FromSpecImpl;
use vstd::string::StringSliceAdditionalSpecFns;
use crate::band::LatBand;
use crate::errors::Errors;
use crate::text::byte_at;

verus! {

/// The hemisphere in whose frame a northing is measured.
#[derive(Debug, Copy, Clone, PartialEq, Eq, Structural)]
pub enum Hemisphere {
    /// North of the equator, or on it: northings count from the equator.
    N,
    /// South of the equator: northings count from 10 000 km south of it.
    S,
}

impl Hemisphere {
    /// The upper-case letter of the hemisphere.
    pub open spec fn letter(self) -> char {
        match self {
            Hemisphere::N => 'N',
            Hemisphere::S => 'S',
        }
    }

    /// The hemisphere that a letter names, in either case.
    pub open spec fn of_char(c: char) -> Option<Hemisphere> {
        match c {
            'N' | 'n' => Some(Hemisphere::N),
            'S' | 's' => Some(Hemisphere::S),
            _ => None,
        }
    }

    /// The hemisphere of a latitude band: the bands from `N` on lie in the
    /// north.
    pub open spec fn of_band(band: LatBand) -> Hemisphere {
        if band.ordinal() >= 10 {
            Hemisphere::N
        } else {
            Hemisphere::S
        }
    }

    /// The hemisphere of a latitude; the equator counts as north.
    pub open spec fn of_lat(lat: int) -> Hemisphere {
        if lat >= 0 {
            Hemisphere::N
        } else {
            Hemisphere::S
        }
    }

    /// The hemisphere that the letter `c` names, in either case.
    pub fn from_char(c: char) -> (r: Result<Self, Errors>)
        ensures
            r == match Self::of_char(c) {
                Some(h) => Ok::<Hemisphere, Errors>(h),
                None => Err::<Hemisphere, Errors>(Errors::InvalidHemisphereChar(c)),
            },
    {
        match c {
            'N' | 'n' => Ok(Hemisphere::N),
            'S' | 's' => Ok(Hemisphere::S),
            _ => Err(Errors::InvalidHemisphereChar(c)),
        }
    }

    /// The hemisphere whose letter has the character code `c`.
    pub fn from_u32(c: u32) -> (r: Option<Self>)
        ensures
            r == (if c < 128 { Self::of_char(c as char) } else { None }),
    {
        if c < 128 {
            match Self::from_char((c as u8) as char) {
                Ok(h) => Some(h),
                Err(_) => None,
            }
        } else {
            None
        }
    }

    /// The hemisphere that the first byte of `s` names; the rest of `s` is
    /// not read.
    pub fn from_str(s: &str) -> (r: Result<Self, Errors>)
        ensures
            r == match Self::of_char(byte_at(s.spec_bytes(), 0) as char) {
                Some(h) => Ok::<Hemisphere, Errors>(h),
                None => Err::<Hemisphere, Errors>(
                    Errors::InvalidHemisphereChar(byte_at(s.spec_bytes(), 0) as char),
                ),
            },
    {
        let bytes = s.as_bytes();
        let z: u8 = if bytes.len() > 0 { bytes[0] } else { 0 };
        Self::from_char(z as char)
    }

    /// The hemisphere of a latitude; the equator counts as north.
    pub fn from_lat(lat: i64) -> (r: Self)
        ensures
            r == Self::of_lat(lat as int),
    {
        if lat >= 0 {
            Hemisphere::N
        } else {
            Hemisphere::S
        }
    }

    /// The upper-case letter of the hemisphere.
    pub fn as_char(&self) -> (r: char)
        ensures
            r == self.letter(),
            Self::of_char(r) == Some(*self),
    {
        match *self {
            Hemisphere::N => 'N',
            Hemisphere::S => 'S',
        }
    }
}

impl Default for Hemisphere {
    /// The northern hemisphere.
    fn default() -> (r: Self)
        ensures
            r == Hemisphere::N,
    {
        Hemisphere::N
    }
}

impl From<LatBand> for Hemisphere {
    /// The hemisphere in which a latitude band lies.
    fn from(lb: LatBand) -> (r: Self) {
        if lb.index() >= 10 {
            Hemisphere::N
        } else {
            Hemisphere::S
        }
    }
}

impl FromSpecImpl<LatBand> for Hemisphere {
    open spec fn obeys_from_spec() -> bool {
        true
    }

    open spec fn from_spec(lb: LatBand) -> Self {
        Hemisphere::of_band(lb)
    }
}

impl From<Hemisphere> for char {
    /// The upper-case letter of the hemisphere.
    fn from(h: Hemisphere) -> (r: char) {
        h.as_char()
    }
}

impl FromSpecImpl<Hemisphere> for char {
    open spec fn obeys_from_spec() -> bool {
        true
    }

    open spec fn from_spec(h: Hemisphere) -> Self {
        h.letter()
    }
}

} // verus!
