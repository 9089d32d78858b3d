//! Latitude bands: the letter half of a grid zone designator.

use vstd::prelude::*;
use vstd::std_specs::convert::FromSpecImpl;
use vstd::string::StringSliceAdditionalSpecFns;
use crate::errors::Errors;
use crate::text::byte_at;

verus! {

/// One degree of latitude or longitude. Angles are whole multiples of
/// 10^-11 degree.
pub const DEGREE: i64 = 100_000_000_000;

/// The height of a latitude band but the last: eight degrees.
pub const BAND_HEIGHT: i64 = 800_000_000_000;

/// A latitude band, 8° tall, from `C` (80°S to 72°S) to `W` (64°N to 72°N);
/// the last band, `X`, is 12° tall and ends at 84°N. There is no band `I` or
/// `O`.
#[derive(Debug, Copy, Clone, PartialEq, Eq, Structural)]
pub enum LatBand {
    C, D, E, F, G, H, J, K, L, M, N, P, Q, R, S, T, U, V, W, X,
}

/// Another name for a latitude band.
pub type ZoneLetter = LatBand;

impl LatBand {
    /// A band is the one at its place, and the one that its letter names.
    pub proof fn lemma_letter(self)
        ensures
            Self::of_ordinal(self.ordinal() as int) == Some(self),
            self.ordinal() < 20,
            67 <= self.letter() as u8 <= 88,
            Self::of_char(self.letter()) == Some(self),
            Self::of_char((self.letter() as u8) as char) == Some(self),
    {
    }

    /// The position of the band, counted northwards from `C` at 0 to `X` at
    /// 19.
    pub open spec fn ordinal(self) -> nat {
        match self {
            LatBand::C => 0, LatBand::D => 1, LatBand::E => 2, LatBand::F => 3,
            LatBand::G => 4, LatBand::H => 5, LatBand::J => 6, LatBand::K => 7,
            LatBand::L => 8, LatBand::M => 9, LatBand::N => 10, LatBand::P => 11,
            LatBand::Q => 12, LatBand::R => 13, LatBand::S => 14, LatBand::T => 15,
            LatBand::U => 16, LatBand::V => 17, LatBand::W => 18, LatBand::X => 19,
        }
    }

    /// The upper-case letter of the band.
    pub open spec fn letter(self) -> char {
        match self {
            LatBand::C => 'C', LatBand::D => 'D', LatBand::E => 'E', LatBand::F => 'F',
            LatBand::G => 'G', LatBand::H => 'H', LatBand::J => 'J', LatBand::K => 'K',
            LatBand::L => 'L', LatBand::M => 'M', LatBand::N => 'N', LatBand::P => 'P',
            LatBand::Q => 'Q', LatBand::R => 'R', LatBand::S => 'S', LatBand::T => 'T',
            LatBand::U => 'U', LatBand::V => 'V', LatBand::W => 'W', LatBand::X => 'X',
        }
    }

    /// The band at the given position, if there is one.
    pub open spec fn of_ordinal(i: int) -> Option<LatBand> {
        if i == 0 { Some(LatBand::C) }
        else if i == 1 { Some(LatBand::D) }
        else if i == 2 { Some(LatBand::E) }
        else if i == 3 { Some(LatBand::F) }
        else if i == 4 { Some(LatBand::G) }
        else if i == 5 { Some(LatBand::H) }
        else if i == 6 { Some(LatBand::J) }
        else if i == 7 { Some(LatBand::K) }
        else if i == 8 { Some(LatBand::L) }
        else if i == 9 { Some(LatBand::M) }
        else if i == 10 { Some(LatBand::N) }
        else if i == 11 { Some(LatBand::P) }
        else if i == 12 { Some(LatBand::Q) }
        else if i == 13 { Some(LatBand::R) }
        else if i == 14 { Some(LatBand::S) }
        else if i == 15 { Some(LatBand::T) }
        else if i == 16 { Some(LatBand::U) }
        else if i == 17 { Some(LatBand::V) }
        else if i == 18 { Some(LatBand::W) }
        else if i == 19 { Some(LatBand::X) }
        else { None }
    }

    /// The band that a letter names, in either case.
    pub open spec fn of_char(c: char) -> Option<LatBand> {
        match c {
            'C' | 'c' => Some(LatBand::C), 'D' | 'd' => Some(LatBand::D),
            'E' | 'e' => Some(LatBand::E), 'F' | 'f' => Some(LatBand::F),
            'G' | 'g' => Some(LatBand::G), 'H' | 'h' => Some(LatBand::H),
            'J' | 'j' => Some(LatBand::J), 'K' | 'k' => Some(LatBand::K),
            'L' | 'l' => Some(LatBand::L), 'M' | 'm' => Some(LatBand::M),
            'N' | 'n' => Some(LatBand::N), 'P' | 'p' => Some(LatBand::P),
            'Q' | 'q' => Some(LatBand::Q), 'R' | 'r' => Some(LatBand::R),
            'S' | 's' => Some(LatBand::S), 'T' | 't' => Some(LatBand::T),
            'U' | 'u' => Some(LatBand::U), 'V' | 'v' => Some(LatBand::V),
            'W' | 'w' => Some(LatBand::W), 'X' | 'x' => Some(LatBand::X),
            _ => None,
        }
    }

    /// The band in which a latitude lies: band `i` holds the latitudes from
    /// `8 i - 80` degrees up to, but not including, `8 i - 72` degrees, and
    /// `X` also holds those from 80°N to 84°N inclusive.
    pub open spec fn of_lat(lat: int) -> Option<LatBand> {
        if -80 * DEGREE <= lat < 72 * DEGREE {
            Self::of_ordinal((lat + 80 * DEGREE) / (BAND_HEIGHT as int))
        } else if 72 * DEGREE <= lat <= 84 * DEGREE {
            Some(LatBand::X)
        } else {
            None
        }
    }

    /// The least northing, in metres and as measured in the southern
    /// hemisphere's frame for the southern bands, at which the band begins,
    /// rounded down to a whole 100 km.
    pub open spec fn min_northing(self) -> nat {
        match self {
            LatBand::C => 1_100_000, LatBand::D => 2_000_000, LatBand::E => 2_800_000,
            LatBand::F => 3_700_000, LatBand::G => 4_600_000, LatBand::H => 5_500_000,
            LatBand::J => 6_400_000, LatBand::K => 7_300_000, LatBand::L => 8_200_000,
            LatBand::M => 9_100_000, LatBand::N => 0, LatBand::P => 800_000,
            LatBand::Q => 1_700_000, LatBand::R => 2_600_000, LatBand::S => 3_500_000,
            LatBand::T => 4_400_000, LatBand::U => 5_300_000, LatBand::V => 6_200_000,
            LatBand::W => 7_000_000, LatBand::X => 7_900_000,
        }
    }

    /// The northing of the first row at or above the band's least northing
    /// that lies a whole number of 2000 km above `raw`.
    pub open spec fn resolved_northing(self, raw: nat) -> nat {
        if raw >= self.min_northing() {
            raw
        } else {
            let gap = (self.min_northing() - raw) as nat;
            raw + 2_000_000 * ((gap + 1_999_999) / 2_000_000)
        }
    }

    /// The band in which the latitude `l` lies, given in units of 10^-11
    /// degree; `None` outside 80°S to 84°N.
    pub fn from_lat(l: i64) -> (r: Option<Self>)
        ensures
            r == Self::of_lat(l as int),
            r is Some <==> -80 * DEGREE <= l <= 84 * DEGREE,
    {
        if l < -80 * DEGREE || l > 84 * DEGREE {
            None
        } else if l >= 72 * DEGREE {
            Some(LatBand::X)
        } else {
            let i: i64 = (l + 80 * DEGREE) / BAND_HEIGHT;
            Self::from_index(i as usize)
        }
    }

    /// The least northing in metres at which the band begins.
    pub fn get_min_northing(&self) -> (r: Result<u32, Errors>)
        ensures
            r == Ok::<u32, Errors>(self.min_northing() as u32),
    {
        let northing: u32 = match *self {
            LatBand::C => 1_100_000, LatBand::D => 2_000_000, LatBand::E => 2_800_000,
            LatBand::F => 3_700_000, LatBand::G => 4_600_000, LatBand::H => 5_500_000,
            LatBand::J => 6_400_000, LatBand::K => 7_300_000, LatBand::L => 8_200_000,
            LatBand::M => 9_100_000, LatBand::N => 0, LatBand::P => 800_000,
            LatBand::Q => 1_700_000, LatBand::R => 2_600_000, LatBand::S => 3_500_000,
            LatBand::T => 4_400_000, LatBand::U => 5_300_000, LatBand::V => 6_200_000,
            LatBand::W => 7_000_000, LatBand::X => 7_900_000,
        };
        Ok(northing)
    }

    /// Lifts the northing `raw` of a row, which is known only up to whole
    /// multiples of 2000 km, into this band: 2000 km are added until the
    /// band's least northing is reached.
    pub fn resolve_northing(&self, raw: u32) -> (r: u32)
        ensures
            r == self.resolved_northing(raw as nat),
            r >= raw,
            r >= self.min_northing(),
            (r - raw) % 2_000_000 == 0,
            r == raw || r < self.min_northing() + 2_000_000,
    {
        let min_n: u32 = match self.get_min_northing() {
            Ok(n) => n,
            Err(_) => 0,
        };
        let mut n: u32 = raw;
        let ghost mut k: nat = 0;
        while n < min_n
            invariant
                min_n == self.min_northing(),
                min_n <= 9_100_000,
                n == raw + 2_000_000 * k,
                k > 0 ==> n < min_n + 2_000_000,
                raw < min_n ==> k == (n - raw) / 2_000_000,
                raw < min_n ==> n - 2_000_000 * k == raw,
                raw < min_n ==> n < min_n + 2_000_000,
            decreases min_n + 2_000_000 - n,
        {
            n = n + 2_000_000;
            proof {
                k = k + 1;
            }
        }
        proof {
            if raw < min_n {
                let gap = (min_n - raw) as nat;
                assert(n == raw + 2_000_000 * k);
                assert(min_n <= n < min_n + 2_000_000);
                assert(k == (gap + 1_999_999) / 2_000_000) by (nonlinear_arith)
                    requires
                        n == raw + 2_000_000 * k,
                        min_n <= n < min_n + 2_000_000,
                        gap == min_n - raw,
                ;
            }
        }
        n
    }

    /// The position of the band, from 0 for `C` to 19 for `X`.
    pub fn index(&self) -> (r: usize)
        ensures
            r == self.ordinal(),
            r < 20,
    {
        match *self {
            LatBand::C => 0, LatBand::D => 1, LatBand::E => 2, LatBand::F => 3,
            LatBand::G => 4, LatBand::H => 5, LatBand::J => 6, LatBand::K => 7,
            LatBand::L => 8, LatBand::M => 9, LatBand::N => 10, LatBand::P => 11,
            LatBand::Q => 12, LatBand::R => 13, LatBand::S => 14, LatBand::T => 15,
            LatBand::U => 16, LatBand::V => 17, LatBand::W => 18, LatBand::X => 19,
        }
    }

    /// The band at position `i`; `None` where `i` is 20 or more.
    pub fn from_index(i: usize) -> (r: Option<Self>)
        ensures
            r == Self::of_ordinal(i as int),
            r is Some <==> i < 20,
            r matches Some(b) ==> b.ordinal() == i,
    {
        match i {
            0 => Some(LatBand::C), 1 => Some(LatBand::D), 2 => Some(LatBand::E),
            3 => Some(LatBand::F), 4 => Some(LatBand::G), 5 => Some(LatBand::H),
            6 => Some(LatBand::J), 7 => Some(LatBand::K), 8 => Some(LatBand::L),
            9 => Some(LatBand::M), 10 => Some(LatBand::N), 11 => Some(LatBand::P),
            12 => Some(LatBand::Q), 13 => Some(LatBand::R), 14 => Some(LatBand::S),
            15 => Some(LatBand::T), 16 => Some(LatBand::U), 17 => Some(LatBand::V),
            18 => Some(LatBand::W), 19 => Some(LatBand::X),
            _ => None,
        }
    }

    /// The latitude in whole degrees at which the band begins.
    pub fn min_lat_degrees(&self) -> (r: i32)
        ensures
            r == 8 * self.ordinal() - 80,
    {
        let i: usize = self.index();
        8 * (i as i32) - 80
    }

    /// The upper-case letter of the band.
    pub fn as_char(&self) -> (r: char)
        ensures
            r == self.letter(),
            Self::of_char(r) == Some(*self),
    {
        match *self {
            LatBand::C => 'C', LatBand::D => 'D', LatBand::E => 'E', LatBand::F => 'F',
            LatBand::G => 'G', LatBand::H => 'H', LatBand::J => 'J', LatBand::K => 'K',
            LatBand::L => 'L', LatBand::M => 'M', LatBand::N => 'N', LatBand::P => 'P',
            LatBand::Q => 'Q', LatBand::R => 'R', LatBand::S => 'S', LatBand::T => 'T',
            LatBand::U => 'U', LatBand::V => 'V', LatBand::W => 'W', LatBand::X => 'X',
        }
    }

    /// The band that the letter `c` names, in either case.
    pub fn from_char(c: char) -> (r: Result<Self, Errors>)
        ensures
            r == match Self::of_char(c) {
                Some(b) => Ok::<LatBand, Errors>(b),
                None => Err::<LatBand, Errors>(Errors::InvalidLatitudeBand(c)),
            },
    {
        match c {
            'C' | 'c' => Ok(LatBand::C), 'D' | 'd' => Ok(LatBand::D),
            'E' | 'e' => Ok(LatBand::E), 'F' | 'f' => Ok(LatBand::F),
            'G' | 'g' => Ok(LatBand::G), 'H' | 'h' => Ok(LatBand::H),
            'J' | 'j' => Ok(LatBand::J), 'K' | 'k' => Ok(LatBand::K),
            'L' | 'l' => Ok(LatBand::L), 'M' | 'm' => Ok(LatBand::M),
            'N' | 'n' => Ok(LatBand::N), 'P' | 'p' => Ok(LatBand::P),
            'Q' | 'q' => Ok(LatBand::Q), 'R' | 'r' => Ok(LatBand::R),
            'S' | 's' => Ok(LatBand::S), 'T' | 't' => Ok(LatBand::T),
            'U' | 'u' => Ok(LatBand::U), 'V' | 'v' => Ok(LatBand::V),
            'W' | 'w' => Ok(LatBand::W), 'X' | 'x' => Ok(LatBand::X),
            _ => Err(Errors::InvalidLatitudeBand(c)),
        }
    }

    /// The band whose letter has the character code `c`.
    pub fn from_u32(c: u32) -> (r: Option<Self>)
        ensures
            r == (if c < 128 { Self::of_char(c as char) } else { None }),
    {
        if c < 128 {
            match Self::from_char((c as u8) as char) {
                Ok(b) => Some(b),
                Err(_) => None,
            }
        } else {
            None
        }
    }

    /// The band that the first byte of `s` names; the rest of `s` is not
    /// read.
    pub fn from_str(s: &str) -> (r: Result<Self, Errors>)
        ensures
            r == match Self::of_char(byte_at(s.spec_bytes(), 0) as char) {
                Some(b) => Ok::<LatBand, Errors>(b),
                None => Err::<LatBand, Errors>(
                    Errors::InvalidLatitudeBand(byte_at(s.spec_bytes(), 0) as char),
                ),
            },
    {
        let bytes = s.as_bytes();
        let z: u8 = if bytes.len() > 0 { bytes[0] } else { 0 };
        Self::from_char(z as char)
    }
}

impl Default for LatBand {
    /// The southernmost band.
    fn default() -> (r: Self)
        ensures
            r == LatBand::C,
    {
        LatBand::C
    }
}

impl From<LatBand> for char {
    /// The upper-case character of the letter.
    fn from(l: LatBand) -> (r: char) {
        l.as_char()
    }
}

impl FromSpecImpl<LatBand> for char {
    open spec fn obeys_from_spec() -> bool {
        true
    }

    open spec fn from_spec(l: LatBand) -> Self {
        l.letter()
    }
}

} // verus!
