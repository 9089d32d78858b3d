//! The failures that conversions report.

use vstd::prelude::*;

verus! {

/// Why a conversion was refused.
///
/// Where a variant carries a character, it is the character that was
/// examined when the failure was found; where the text had already ended, it
/// is NUL.
#[derive(Debug, Clone, PartialEq, Eq)]
pub enum Errors {
    /// A grid zone number was expected.
    InvalidZoneLetter(char),
    /// Not a row letter of a 100 km square (`A`-`V` without `I` and `O`).
    InvalidRowLetter(char),
    /// Not a column letter of a 100 km square (`A`-`Z` without `I` and `O`).
    InvalidColLetter(char),
    /// A character that cannot stand in a northing.
    InvalidNorthingChar(char),
    /// A character that cannot stand in an easting.
    InvalidEastingChar(char),
    /// A latitude outside 80°S to 84°N, in units of 10^-11 degree.
    InvalidLatitude(i64),
    /// A longitude outside 180°W to 180°E, in units of 10^-11 degree.
    InvalidLongitude(i64),
    /// Not a latitude band letter (`C`-`X` without `I` and `O`).
    InvalidLatitudeBand(char),
    /// Not a hemisphere letter (`N` or `S`).
    InvalidHemisphereChar(char),
    /// An unknown datum name.
    InvalidDatum(String),
}

impl Errors {
    /// A short description of the kind of failure.
    pub fn description(&self) -> (r: &'static str)
        ensures
            r@ == self.description_text(),
    {
        match self {
            Errors::InvalidZoneLetter(_) => "invalid zone letter",
            Errors::InvalidColLetter(_) => "invalid column letter",
            Errors::InvalidRowLetter(_) => "invalid row letter",
            Errors::InvalidNorthingChar(_) => "MGRS point given invalid northing",
            Errors::InvalidEastingChar(_) => "MGRS point given invalid easting",
            Errors::InvalidLatitude(_) => "latitude outside UTM limits",
            Errors::InvalidLongitude(_) => "longitude outside UTM limits",
            Errors::InvalidLatitudeBand(_) => "invalid Latitude band letter",
            Errors::InvalidHemisphereChar(_) => "invalid hemisphere letter",
            Errors::InvalidDatum(_) => "invalid map datum was supplied",
        }
    }

    /// The text that [`Errors::description`] returns.
    pub open spec fn description_text(&self) -> Seq<char> {
        match self {
            Errors::InvalidZoneLetter(_) => "invalid zone letter"@,
            Errors::InvalidColLetter(_) => "invalid column letter"@,
            Errors::InvalidRowLetter(_) => "invalid row letter"@,
            Errors::InvalidNorthingChar(_) => "MGRS point given invalid northing"@,
            Errors::InvalidEastingChar(_) => "MGRS point given invalid easting"@,
            Errors::InvalidLatitude(_) => "latitude outside UTM limits"@,
            Errors::InvalidLongitude(_) => "longitude outside UTM limits"@,
            Errors::InvalidLatitudeBand(_) => "invalid Latitude band letter"@,
            Errors::InvalidHemisphereChar(_) => "invalid hemisphere letter"@,
            Errors::InvalidDatum(_) => "invalid map datum was supplied"@,
        }
    }
}

} // verus!
