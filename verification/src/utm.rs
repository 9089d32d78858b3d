//! Points of the UTM grid, and their passage to and from grid references.

use vstd::prelude::*;
use vstd::arithmetic::div_mod::{
    lemma_div_pos_is_pos, lemma_fundamental_div_mod, lemma_fundamental_div_mod_converse,
    lemma_mod_multiples_basic, lemma_mod_pos_bound,
};
use vstd::string::StringExecFns;
use crate::accuracy::Accuracy;
use crate::band::{LatBand, DEGREE};
use crate::col::ColLetter;
use crate::datum::Datum;
use crate::errors::Errors;
use crate::gzd::{GridSquareId100k, Gzd};
use crate::hemisphere::Hemisphere;
use crate::mgrs::{cut, is_multiple, Mgrs};
use crate::row::{lemma_row_shift, RowLetter};
use crate::text::{decimal, letter_str, push_decimal, push_signed_decimal, signed_decimal};
use crate::{get_100k_set_for_zone, set_of_zone};

verus! {

/// The width of a zone: six degrees of longitude.
pub const ZONE_WIDTH: i64 = 600_000_000_000;

/// A point of the UTM grid.
#[derive(Debug, Copy, Clone, PartialEq, Eq, Structural)]
pub struct Utm {
    /// The longitudinal zone: 1 to 60, eastwards from 180°W.
    pub zone: u8,
    /// The hemisphere in whose frame the northing is measured.
    pub hemisphere: Hemisphere,
    /// Whole metres east of the false origin, which lies 500 km west of the
    /// central meridian of the zone.
    pub easting: i32,
    /// Whole metres north of the equator in the north, and of the false
    /// origin 10 000 km south of the equator in the south.
    pub northing: i32,
    /// The datum on which the point is given.
    pub datum: Datum,
    /// The meridian convergence, the bearing of grid north clockwise from
    /// true north, in units of 10^-9 degree, where it is known.
    pub convergence: Option<i64>,
    /// The grid scale factor in units of 10^-12, where it is known.
    pub scale: Option<i64>,
}

/// `x` cut off, not rounded, to a whole multiple of the precision.
pub fn cut_to(x: usize, accuracy: Accuracy) -> (r: usize)
    ensures
        r == cut(x as int, accuracy.meters() as int),
        r <= x < r + accuracy.meters(),
        is_multiple(r as int, accuracy.meters() as int),
{
    assert(cut(x as int, 1) == x && is_multiple(x as int, 1));
    assert(is_multiple(x / 10 * 10, 10));
    assert(is_multiple(x / 100 * 100, 100));
    assert(is_multiple(x / 1000 * 1000, 1000));
    assert(is_multiple(x / 10000 * 10000, 10000));
    assert(cut(x as int, 10) == x / 10 * 10);
    assert(cut(x as int, 100) == x / 100 * 100);
    assert(cut(x as int, 1000) == x / 1000 * 1000);
    assert(cut(x as int, 10000) == x / 10000 * 10000);
    match accuracy {
        Accuracy::One => x,
        Accuracy::Ten => x / 10 * 10,
        Accuracy::OneHundred => x / 100 * 100,
        Accuracy::OneThousand => x / 1000 * 1000,
        Accuracy::TenThousand => x / 10000 * 10000,
    }
}

impl Utm {
    /// Whether the zone is one of the 60.
    pub open spec fn wf(self) -> bool {
        1 <= self.zone <= 60
    }

    /// The zone in which a point lies.
    ///
    /// Zones are 6° wide and numbered eastwards from 180°W, and the meridian
    /// 180°E belongs to zone 60. Between 56°N and 64°N zone 32 begins at
    /// 3°E already. Between 72°N and 84°N the zones 32, 34 and 36 are left
    /// out: zone 31 ends at 9°E, zone 33 at 21°E, zone 35 at 33°E, and
    /// zone 37 begins there.
    pub open spec fn zone_of(lat: int, lon: int) -> int {
        if lon == 180 * DEGREE {
            60
        } else if 56 * DEGREE <= lat < 64 * DEGREE && 3 * DEGREE <= lon < 12 * DEGREE {
            32
        } else if 72 * DEGREE <= lat < 84 * DEGREE && 0 <= lon < 9 * DEGREE {
            31
        } else if 72 * DEGREE <= lat < 84 * DEGREE && 9 * DEGREE <= lon < 21 * DEGREE {
            33
        } else if 72 * DEGREE <= lat < 84 * DEGREE && 21 * DEGREE <= lon < 33 * DEGREE {
            35
        } else if 72 * DEGREE <= lat < 84 * DEGREE && 33 * DEGREE <= lon < 42 * DEGREE {
            37
        } else {
            (lon + 180 * DEGREE) / (ZONE_WIDTH as int) + 1
        }
    }

    /// The point of the grid that a grid reference names: the south-west
    /// corner of its precision box. There is none where the zone has no
    /// column of the reference's letter.
    ///
    /// The column letter gives the easting of the square's western edge. The
    /// row letter gives the northing of its southern edge less a whole
    /// multiple of 2000 km, and the band decides which: the first at or
    /// above the band's least northing.
    pub open spec fn of_mgrs(m: Mgrs) -> Result<Utm, Errors> {
        let zone = m.gzd.zone as int;
        match m.gsid_100k.col.place_in_set((zone - 1) % 3) {
            Some(column) => Ok(
                Utm {
                    zone: m.gzd.zone,
                    hemisphere: Hemisphere::of_band(m.gzd.band),
                    easting: (100_000 * (column + 1) + m.easting) as i32,
                    northing: (m.gzd.band.resolved_northing(
                        m.gsid_100k.row.northing_in_set(set_of_zone(zone)),
                    ) + m.northing) as i32,
                    datum: Datum::Wgs84,
                    convergence: None,
                    scale: None,
                },
            ),
            None => Err(Errors::InvalidColLetter(m.gsid_100k.col.letter())),
        }
    }

    /// The south-west and the north-east corner of the precision box of a
    /// grid reference.
    pub open spec fn rect_of_mgrs(m: Mgrs) -> Result<(Utm, Utm), Errors> {
        match Self::of_mgrs(m) {
            Ok(south_west) => Ok(
                (
                    south_west,
                    Utm {
                        easting: (south_west.easting + m.accuracy.meters()) as i32,
                        northing: (south_west.northing + m.accuracy.meters()) as i32,
                        ..south_west
                    },
                ),
            ),
            Err(e) => Err(e),
        }
    }

    /// The grid reference of this point in the given band, to the given
    /// precision; there is none where the easting lies in none of the eight
    /// columns, or the northing is negative.
    pub open spec fn mgrs_of(self, band: LatBand, accuracy: Accuracy) -> Option<Mgrs> {
        match (
            ColLetter::of_zone_and_easting(self.zone as int, self.easting as int),
            RowLetter::of_zone_and_northing(self.zone as int, self.northing as int),
        ) {
            (Some(col), Some(row)) => Some(
                Mgrs {
                    gzd: Gzd { zone: self.zone, band },
                    gsid_100k: GridSquareId100k { col, row },
                    easting: cut(self.easting as int % 100_000, accuracy.meters() as int) as usize,
                    northing: cut(self.northing as int % 100_000, accuracy.meters() as int) as usize,
                    accuracy,
                },
            ),
            _ => None,
        }
    }

    /// The text of the point: zone, hemisphere, easting and northing,
    /// divided by spaces.
    pub open spec fn text(self) -> Seq<char> {
        decimal(self.zone as nat, 1) + seq![' '] + seq![self.hemisphere.letter()] + seq![' ']
            + signed_decimal(self.easting as int) + seq![' '] + signed_decimal(
            self.northing as int,
        )
    }

    /// The point with the given zone, hemisphere, easting and northing, on
    /// WGS84.
    pub fn new(zone: u8, hemisphere: Hemisphere, easting: i32, northing: i32) -> (r: Self)
        requires
            1 <= zone <= 60,
        ensures
            r.wf(),
            r == (Utm {
                zone,
                hemisphere,
                easting,
                northing,
                datum: Datum::Wgs84,
                convergence: None,
                scale: None,
            }),
    {
        Utm {
            zone,
            hemisphere,
            easting,
            northing,
            datum: Datum::Wgs84,
            convergence: None,
            scale: None,
        }
    }

    /// The zone in which the point at latitude `lat` and longitude `lon`
    /// lies, both in units of 10^-11 degree.
    pub fn zone_for(lat: i64, lon: i64) -> (zone: u8)
        requires
            -180 * DEGREE <= lon <= 180 * DEGREE,
        ensures
            zone == Self::zone_of(lat as int, lon as int),
            1 <= zone <= 60,
    {
        let mut zone: u8 = if lon == 180 * DEGREE {
            60
        } else {
            ((lon + 180 * DEGREE) / ZONE_WIDTH + 1) as u8
        };
        if 56 * DEGREE <= lat && lat < 64 * DEGREE && 3 * DEGREE <= lon && lon < 12 * DEGREE {
            zone = 32;
        }
        if 72 * DEGREE <= lat && lat < 84 * DEGREE {
            if 0 <= lon && lon < 9 * DEGREE {
                zone = 31;
            } else if 9 * DEGREE <= lon && lon < 21 * DEGREE {
                zone = 33;
            } else if 21 * DEGREE <= lon && lon < 33 * DEGREE {
                zone = 35;
            } else if 33 * DEGREE <= lon && lon < 42 * DEGREE {
                zone = 37;
            }
        }
        zone
    }

    /// The longitude of the central meridian of a zone, in whole degrees.
    pub fn central_meridian(zone: u8) -> (r: i32)
        requires
            1 <= zone <= 60,
        ensures
            r == 6 * zone - 183,
    {
        (zone as i32 - 1) * 6 - 180 + 3
    }

    /// The point of the grid that a grid reference names: the south-west
    /// corner of its precision box. A column letter that the zone does not
    /// have is refused.
    pub fn from_mgrs(mgrs: Mgrs) -> (r: Result<Self, Errors>)
        requires
            mgrs.wf(),
        ensures
            r == Self::of_mgrs(mgrs),
            r is Ok <==> mgrs.gsid_100k.col.place_in_set((mgrs.gzd.zone - 1) % 3) is Some,
            r matches Ok(p) ==> p.wf() && 100_000 <= p.easting < 900_000
                && mgrs.gzd.band.min_northing() <= p.northing < 11_200_000,
    {
        let e100k: usize = match mgrs.gsid_100k.col.as_meters_from_zone(mgrs.gzd.zone) {
            Ok(e) => e,
            Err(e) => { return Err(e); },
        };
        let set: u8 = get_100k_set_for_zone(mgrs.gzd.zone as usize) as u8;
        let n100k: u32 = match mgrs.gsid_100k.row.get_northing_with_set(set) {
            Ok(n) => n,
            Err(e) => { return Err(e); },
        };
        let n_band: u32 = mgrs.gzd.band.resolve_northing(n100k);
        Ok(
            Utm {
                zone: mgrs.gzd.zone,
                hemisphere: Hemisphere::from(mgrs.gzd.band),
                easting: (e100k + mgrs.easting) as i32,
                northing: (n_band as usize + mgrs.northing) as i32,
                datum: Datum::Wgs84,
                convergence: None,
                scale: None,
            },
        )
    }

    /// The south-west and the north-east corner of the precision box of a
    /// grid reference: the point that it names, and the point that lies the
    /// precision east and north of it.
    pub fn rect_from_mgrs(mgrs: Mgrs) -> (r: Result<(Self, Self), Errors>)
        requires
            mgrs.wf(),
        ensures
            r == Self::rect_of_mgrs(mgrs),
            r is Ok <==> Self::of_mgrs(mgrs) is Ok,
    {
        let south_west: Utm = match Self::from_mgrs(mgrs) {
            Ok(p) => p,
            Err(e) => { return Err(e); },
        };
        let side: i32 = mgrs.accuracy.as_distance() as i32;
        let north_east = Utm {
            zone: south_west.zone,
            hemisphere: south_west.hemisphere,
            easting: south_west.easting + side,
            northing: south_west.northing + side,
            datum: south_west.datum,
            convergence: south_west.convergence,
            scale: south_west.scale,
        };
        Ok((south_west, north_east))
    }

    /// The grid reference of this point to the given precision, or to one
    /// metre where none is given. `band` is the latitude band in which the
    /// point lies.
    ///
    /// Easting and northing within the 100 km square are cut off, not
    /// rounded, to the precision.
    pub fn to_mgrs(&self, band: LatBand, accuracy: Option<Accuracy>) -> (r: Option<Mgrs>)
        requires
            self.wf(),
        ensures
            r == self.mgrs_of(
                band,
                match accuracy {
                    Some(a) => a,
                    None => Accuracy::One,
                },
            ),
            r is Some <==> 100_000 <= self.easting < 900_000 && 0 <= self.northing,
            r matches Some(m) ==> m.wf() && m.is_cut(),
    {
        let accuracy: Accuracy = match accuracy {
            Some(a) => a,
            None => Accuracy::One,
        };
        let col: ColLetter = match ColLetter::from_zone_and_easting(self.zone, self.easting) {
            Some(l) => l,
            None => { return None; },
        };
        let row: RowLetter = match RowLetter::from_zone_and_northing(self.zone, self.northing) {
            Some(l) => l,
            None => { return None; },
        };
        let e: usize = (self.easting % 100_000) as usize;
        let n: usize = (self.northing % 100_000) as usize;
        let m = Mgrs {
            gzd: Gzd { zone: self.zone, band },
            gsid_100k: GridSquareId100k { col, row },
            easting: cut_to(e, accuracy),
            northing: cut_to(n, accuracy),
            accuracy,
        };
        Some(m)
    }

    /// The text of the point, such as `31 N 448251 5411932`.
    pub fn as_string(&self) -> (r: String)
        ensures
            r@ == self.text(),
    {
        proof {
            reveal_strlit(" ");
        }
        let mut out = String::new();
        push_decimal(&mut out, self.zone as usize, 1);
        let ghost t1 = decimal(self.zone as nat, 1);
        assert(out@ =~= t1);
        out.append(" ");
        let ghost t2 = t1 + seq![' '];
        assert(out@ =~= t2);
        out.append(letter_str(self.hemisphere.as_char()));
        let ghost t3 = t2 + seq![self.hemisphere.letter()];
        assert(out@ == t3);
        out.append(" ");
        let ghost t4 = t3 + seq![' '];
        assert(out@ =~= t4);
        push_signed_decimal(&mut out, self.easting);
        let ghost t5 = t4 + signed_decimal(self.easting as int);
        assert(out@ == t5);
        out.append(" ");
        let ghost t6 = t5 + seq![' '];
        assert(out@ =~= t6);
        push_signed_decimal(&mut out, self.northing);
        let ghost t7 = t6 + signed_decimal(self.northing as int);
        assert(out@ == t7);
        assert(t7 == self.text());
        out
    }
}

/// The set of a zone begins its columns and rows where the zone's number
/// says.
pub proof fn lemma_set_of_zone(zone: int)
    requires
        1 <= zone,
    ensures
        1 <= set_of_zone(zone) <= 6,
        (set_of_zone(zone) - 1) % 3 == (zone - 1) % 3,
        (set_of_zone(zone) - 1) % 2 == (zone - 1) % 2,
{
}

/// Where a band is to lift a row into the 2000 km in which a northing lies,
/// it does: the first row at or above the band's least northing that lies a
/// whole number of 2000 km above `raw` is the one `blocks` times 2000 km
/// above it, if that row lies less than 2000 km above the least northing.
pub proof fn lemma_resolved_northing(band: LatBand, raw: nat, blocks: nat)
    requires
        raw < 2_000_000,
        band.min_northing() <= raw + 2_000_000 * blocks < band.min_northing() + 2_000_000,
    ensures
        band.resolved_northing(raw) == raw + 2_000_000 * blocks,
{
    let min = band.min_northing();
    if raw >= min {
        assert(blocks == 0) by (nonlinear_arith)
            requires
                raw + 2_000_000 * blocks < min + 2_000_000,
                raw >= min,
        ;
    } else {
        let gap = (min - raw) as nat;
        assert((gap + 1_999_999) / 2_000_000 == blocks) by (nonlinear_arith)
            requires
                gap <= 2_000_000 * blocks < gap + 2_000_000,
        ;
    }
}

/// A grid reference names the point it was made from, cut off to its
/// precision: the point that the grid reference of `p` names lies in the
/// zone of `p`, and less than the precision west and south of `p`, or at
/// `p`.
///
/// This holds of the points whose easting lies in one of the eight columns
/// and whose northing is not negative, where `band` is a band in which the
/// row of `p` lies: the row begins at or above the band's least northing and
/// less than 2000 km above it.
pub proof fn lemma_mgrs_round_trip(p: Utm, band: LatBand, a: Accuracy)
    requires
        p.wf(),
        100_000 <= p.easting < 900_000,
        0 <= p.northing,
        band.min_northing() <= p.northing as int / 100_000 * 100_000 < band.min_northing()
            + 2_000_000,
    ensures
        p.mgrs_of(band, a) is Some,
        p.mgrs_of(band, a).unwrap().wf(),
        p.mgrs_of(band, a).unwrap().is_cut(),
        p.mgrs_of(band, a).unwrap().accuracy == a,
        Utm::of_mgrs(p.mgrs_of(band, a).unwrap()) is Ok,
        ({
            let q = Utm::of_mgrs(p.mgrs_of(band, a).unwrap()).unwrap();
            &&& q.zone == p.zone
            &&& q.easting == cut(p.easting as int, a.meters() as int)
            &&& q.northing == cut(p.northing as int, a.meters() as int)
            &&& 0 <= p.easting - q.easting < a.meters()
            &&& 0 <= p.northing - q.northing < a.meters()
        }),
{
    let zone = p.zone as int;
    let e = p.easting as int;
    let n = p.northing as int;
    let unit = a.meters() as int;
    let set = set_of_zone(zone);
    lemma_set_of_zone(zone);

    // the column
    let column = e / 100_000 - 1;
    let col = ColLetter::of_zone_and_easting(zone, e).unwrap();
    col.lemma_ordinal();
    assert(col.ordinal() == 8 * ((zone - 1) % 3) + column);
    assert(col.place_in_set((zone - 1) % 3) == Some(column as nat));

    // the row
    let line = (n / 100_000) % 20;
    let blocks = (n / 100_000) / 20;
    let row = RowLetter::of_zone_and_northing(zone, n).unwrap();
    row.lemma_ordinal();
    lemma_row_shift(line);
    lemma_row_shift(row.ordinal() as int);
    assert(row.ordinal() == (line + 5 * ((zone - 1) % 2)) % 20);
    assert(row.northing_in_set(set) == 100_000 * line);
    assert(n / 100_000 * 100_000 == 100_000 * line + 2_000_000 * blocks);
    lemma_resolved_northing(band, (100_000 * line) as nat, blocks as nat);

    // the place within the square
    let m = p.mgrs_of(band, a).unwrap();
    lemma_cut(e, a);
    lemma_cut(n, a);
    assert(m.easting == cut(e % 100_000, unit));
    assert(m.northing == cut(n % 100_000, unit));
}

/// Cutting a number off to a precision leaves less than the precision, and
/// does to the number what it does to its last five digits.
pub proof fn lemma_cut(x: int, a: Accuracy)
    requires
        0 <= x,
    ensures
        0 <= x - cut(x, a.meters() as int) < a.meters(),
        cut(x, a.meters() as int) == x / 100_000 * 100_000 + cut(x % 100_000, a.meters() as int),
        0 <= cut(x % 100_000, a.meters() as int) < 100_000,
        is_multiple(cut(x % 100_000, a.meters() as int), a.meters() as int),
{
    match a {
        Accuracy::One => lemma_cut_by(x, 1, 100_000),
        Accuracy::Ten => lemma_cut_by(x, 10, 10_000),
        Accuracy::OneHundred => lemma_cut_by(x, 100, 1000),
        Accuracy::OneThousand => lemma_cut_by(x, 1000, 100),
        Accuracy::TenThousand => lemma_cut_by(x, 10000, 10),
    }
}

/// The same of any unit of which 100 000 is a whole multiple.
proof fn lemma_cut_by(x: int, unit: int, times: int)
    requires
        0 <= x,
        0 < unit,
        0 < times,
        unit * times == 100_000,
    ensures
        0 <= x - cut(x, unit) < unit,
        cut(x, unit) == x / 100_000 * 100_000 + cut(x % 100_000, unit),
        0 <= cut(x % 100_000, unit) < 100_000,
        is_multiple(cut(x % 100_000, unit), unit),
{
    let high = x / 100_000;
    let low = x % 100_000;
    let quotient = low / unit;
    let rest = low % unit;
    lemma_fundamental_div_mod(low, unit);
    lemma_mod_pos_bound(low, unit);
    lemma_div_pos_is_pos(low, unit);
    assert(low == unit * quotient + rest);
    assert(x == (high * times + quotient) * unit + rest) by (nonlinear_arith)
        requires
            x == high * 100_000 + low,
            low == unit * quotient + rest,
            unit * times == 100_000,
    ;
    lemma_fundamental_div_mod_converse(x, unit, high * times + quotient, rest);
    assert(cut(x, unit) == high * 100_000 + quotient * unit) by (nonlinear_arith)
        requires
            cut(x, unit) == (high * times + quotient) * unit,
            unit * times == 100_000,
    ;
    assert(0 <= quotient * unit <= low) by (nonlinear_arith)
        requires
            low == unit * quotient + rest,
            0 <= rest,
            0 <= quotient,
            0 < unit,
    ;
    lemma_mod_multiples_basic(quotient, unit);
}

} // verus!
