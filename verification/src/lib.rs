//! Conversion between UTM coordinates and Military Grid Reference System
//! (MGRS) grid references, with the grid-letter arithmetic, the precision
//! model and the text codec verified.

use vstd::prelude::*;

pub mod accuracy;
pub mod band;
pub mod col;
pub mod datum;
pub mod errors;
pub mod gzd;
pub mod hemisphere;
pub mod latlon;
pub mod mgrs;
pub mod parser;
pub mod row;
pub mod text;
pub mod utm;
pub mod wire;

pub use accuracy::Accuracy;
pub use band::{LatBand, ZoneLetter};
pub use col::ColLetter;
pub use datum::Datum;
pub use errors::Errors;
pub use gzd::{GridSquareId100k, Gzd};
pub use hemisphere::Hemisphere;
pub use latlon::LatLon;
pub use mgrs::Mgrs;
pub use row::RowLetter;
pub use utm::Utm;

verus! {

/// The zones fall into six sets, which repeat eastwards; a zone's set fixes
/// the letters at which its columns and rows begin.
pub const NUM_100K_SETS: usize = 6;

/// The number of the set of a zone: 1 to 6.
pub open spec fn set_of_zone(zone: int) -> int {
    if zone % 6 == 0 {
        6
    } else {
        zone % 6
    }
}

/// The number of the set, 1 to 6, in which the zone `i` lies.
pub fn get_100k_set_for_zone(i: usize) -> (set: usize)
    ensures
        set == set_of_zone(i as int),
        1 <= set <= 6,
        i >= 1 ==> (set - 1) % 3 == (i - 1) % 3 && (set - 1) % 2 == (i - 1) % 2,
{
    let mut set: usize = i % NUM_100K_SETS;
    if set == 0 {
        set = NUM_100K_SETS;
    }
    set
}

} // verus!
