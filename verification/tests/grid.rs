use mgrs::band::DEGREE;
use mgrs::{
    Accuracy, ColLetter, Datum, Errors, GridSquareId100k, Gzd, Hemisphere, LatBand, LatLon, Mgrs,
    RowLetter, Utm,
};

fn deg(whole: i64, e7: i64) -> i64 {
    whole * DEGREE + e7 * (DEGREE / 10_000_000)
}

#[test]
fn bands_of_latitudes() {
    assert_eq!(LatBand::from_lat(deg(48, 8_582_000)), Some(LatBand::U));
    assert_eq!(LatBand::from_lat(deg(-80, 0)), Some(LatBand::C));
    assert_eq!(LatBand::from_lat(deg(-72, 0) - 1), Some(LatBand::C));
    assert_eq!(LatBand::from_lat(deg(-72, 0)), Some(LatBand::D));
    assert_eq!(LatBand::from_lat(-1), Some(LatBand::M));
    assert_eq!(LatBand::from_lat(0), Some(LatBand::N));
    assert_eq!(LatBand::from_lat(deg(8, 0)), Some(LatBand::P));
    assert_eq!(LatBand::from_lat(deg(64, 0) - 1), Some(LatBand::V));
    assert_eq!(LatBand::from_lat(deg(64, 0)), Some(LatBand::W));
    assert_eq!(LatBand::from_lat(deg(72, 0) - 1), Some(LatBand::W));
    assert_eq!(LatBand::from_lat(deg(72, 0)), Some(LatBand::X));
    assert_eq!(LatBand::from_lat(deg(80, 0)), Some(LatBand::X));
    assert_eq!(LatBand::from_lat(deg(84, 0)), Some(LatBand::X));
    assert_eq!(LatBand::from_lat(deg(84, 0) + 1), None);
    assert_eq!(LatBand::from_lat(deg(-80, 0) - 1), None);
    assert_eq!(LatBand::from_lat(i64::MAX), None);
    assert_eq!(LatBand::from_lat(i64::MIN), None);
    for i in 0..20usize {
        let b = LatBand::from_index(i).unwrap();
        let south = b.min_lat_degrees();
        assert_eq!(south, 8 * i as i32 - 80);
        assert_eq!(LatBand::from_lat(south as i64 * DEGREE), Some(b));
        assert_eq!(LatBand::from_lat((south as i64 + 8) * DEGREE - 1), Some(b));
    }
}

#[test]
fn least_northings_of_bands() {
    let table = [
        (LatBand::C, 1_100_000u32),
        (LatBand::D, 2_000_000),
        (LatBand::E, 2_800_000),
        (LatBand::F, 3_700_000),
        (LatBand::G, 4_600_000),
        (LatBand::H, 5_500_000),
        (LatBand::J, 6_400_000),
        (LatBand::K, 7_300_000),
        (LatBand::L, 8_200_000),
        (LatBand::M, 9_100_000),
        (LatBand::N, 0),
        (LatBand::P, 800_000),
        (LatBand::Q, 1_700_000),
        (LatBand::R, 2_600_000),
        (LatBand::S, 3_500_000),
        (LatBand::T, 4_400_000),
        (LatBand::U, 5_300_000),
        (LatBand::V, 6_200_000),
        (LatBand::W, 7_000_000),
        (LatBand::X, 7_900_000),
    ];
    for (band, northing) in table {
        assert_eq!(band.get_min_northing(), Ok(northing));
    }
}

#[test]
fn northing_is_lifted_into_the_band() {
    assert_eq!(LatBand::U.resolve_northing(1_400_000), 5_400_000);
    assert_eq!(LatBand::U.resolve_northing(1_300_000), 5_300_000);
    assert_eq!(LatBand::U.resolve_northing(1_200_000), 7_200_000);
    assert_eq!(LatBand::N.resolve_northing(0), 0);
    assert_eq!(LatBand::N.resolve_northing(1_900_000), 1_900_000);
    assert_eq!(LatBand::X.resolve_northing(1_200_000), 9_200_000);
    assert_eq!(LatBand::X.resolve_northing(0), 8_000_000);
    assert_eq!(LatBand::M.resolve_northing(1_000_000), 11_000_000);
    assert_eq!(LatBand::M.resolve_northing(1_100_000), 9_100_000);
    assert_eq!(LatBand::C.resolve_northing(1_099_999), 3_099_999);
    assert_eq!(LatBand::C.resolve_northing(u32::MAX), u32::MAX);
    for i in 0..20usize {
        let band = LatBand::from_index(i).unwrap();
        let least = band.get_min_northing().unwrap();
        for line in 0..20u32 {
            let raw = line * 100_000;
            let n = band.resolve_northing(raw);
            assert!(n >= least && n < least + 2_000_000);
            assert_eq!((n - raw) % 2_000_000, 0);
        }
    }
}

#[test]
fn hemispheres() {
    assert_eq!(Hemisphere::from_lat(0), Hemisphere::N);
    assert_eq!(Hemisphere::from_lat(-1), Hemisphere::S);
    assert_eq!(Hemisphere::from_lat(deg(48, 0)), Hemisphere::N);
    assert_eq!(Hemisphere::from(LatBand::M), Hemisphere::S);
    assert_eq!(Hemisphere::from(LatBand::N), Hemisphere::N);
    assert_eq!(Hemisphere::from(LatBand::C), Hemisphere::S);
    assert_eq!(Hemisphere::from(LatBand::X), Hemisphere::N);
    assert_eq!(Hemisphere::default(), Hemisphere::N);
}

#[test]
fn latitude_limits() {
    // exactly 84 and -80 degrees are points of the grid
    let p = LatLon::new(deg(84, 0), 0).unwrap();
    assert_eq!((p.lat, p.lon, p.datum), (deg(84, 0), 0, Datum::Wgs84));
    assert_eq!((p.convergence, p.scale), (None, None));
    assert!(LatLon::new(deg(-80, 0), 0).is_ok());
    // 84.0000001 and -80.0000001 degrees are not
    assert_eq!(LatLon::new(deg(84, 1), 0), Err(Errors::InvalidLatitude(deg(84, 1))));
    assert_eq!(LatLon::new(deg(-80, -1), 0), Err(Errors::InvalidLatitude(deg(-80, -1))));
    assert_eq!(LatLon::new(deg(84, 0) + 1, 0), Err(Errors::InvalidLatitude(deg(84, 0) + 1)));
    assert_eq!(LatLon::new(deg(-80, 0) - 1, 0), Err(Errors::InvalidLatitude(deg(-80, 0) - 1)));
    assert!(LatLon::new(0, deg(180, 0)).is_ok());
    assert!(LatLon::new(0, deg(-180, 0)).is_ok());
    assert_eq!(LatLon::new(0, deg(180, 0) + 1), Err(Errors::InvalidLongitude(deg(180, 0) + 1)));
    assert_eq!(LatLon::new(0, deg(-180, 0) - 1), Err(Errors::InvalidLongitude(deg(-180, 0) - 1)));
    // the latitude is looked at first
    assert_eq!(LatLon::new(deg(90, 0), deg(200, 0)), Err(Errors::InvalidLatitude(deg(90, 0))));
}

#[test]
fn zones_of_points() {
    // the Eiffel tower
    assert_eq!(Utm::zone_for(deg(48, 8_582_000), deg(2, 2_945_000)), 31);
    assert_eq!(Hemisphere::from_lat(deg(48, 8_582_000)), Hemisphere::N);
    assert_eq!(Utm::zone_for(0, deg(-180, 0)), 1);
    assert_eq!(Utm::zone_for(0, deg(-174, 0) - 1), 1);
    assert_eq!(Utm::zone_for(0, deg(-174, 0)), 2);
    assert_eq!(Utm::zone_for(0, -1), 30);
    assert_eq!(Utm::zone_for(0, 0), 31);
    assert_eq!(Utm::zone_for(0, deg(180, 0) - 1), 60);
    assert_eq!(Utm::zone_for(0, deg(180, 0)), 60);
    assert_eq!(Utm::zone_for(deg(-33, 0), deg(151, 0)), 56);
}

#[test]
fn zones_of_norway_and_svalbard() {
    // lat 60, lon 5 lies in zone 32, not in 31
    assert_eq!(Utm::zone_for(deg(60, 0), deg(5, 0)), 32);
    assert_eq!(Utm::zone_for(deg(60, 0), deg(3, 0) - 1), 31);
    assert_eq!(Utm::zone_for(deg(60, 0), deg(3, 0)), 32);
    assert_eq!(Utm::zone_for(deg(56, 0), deg(3, 0)), 32);
    assert_eq!(Utm::zone_for(deg(56, 0) - 1, deg(3, 0)), 31);
    assert_eq!(Utm::zone_for(deg(64, 0) - 1, deg(5, 0)), 32);
    assert_eq!(Utm::zone_for(deg(64, 0), deg(5, 0)), 31);
    assert_eq!(Utm::zone_for(deg(60, 0), deg(12, 0) - 1), 32);
    assert_eq!(Utm::zone_for(deg(60, 0), deg(12, 0)), 33);
    // Svalbard
    assert_eq!(Utm::zone_for(deg(72, 0), 0), 31);
    assert_eq!(Utm::zone_for(deg(75, 0), deg(9, 0) - 1), 31);
    assert_eq!(Utm::zone_for(deg(75, 0), deg(9, 0)), 33);
    assert_eq!(Utm::zone_for(deg(75, 0), deg(21, 0) - 1), 33);
    assert_eq!(Utm::zone_for(deg(75, 0), deg(21, 0)), 35);
    assert_eq!(Utm::zone_for(deg(75, 0), deg(33, 0) - 1), 35);
    assert_eq!(Utm::zone_for(deg(75, 0), deg(33, 0)), 37);
    assert_eq!(Utm::zone_for(deg(75, 0), deg(42, 0) - 1), 37);
    assert_eq!(Utm::zone_for(deg(75, 0), deg(42, 0)), 38);
    assert_eq!(Utm::zone_for(deg(75, 0), -1), 30);
    assert_eq!(Utm::zone_for(deg(84, 0) - 1, deg(10, 0)), 33);
    assert_eq!(Utm::zone_for(deg(84, 0), deg(10, 0)), 32);
    assert_eq!(Utm::zone_for(deg(72, 0) - 1, deg(10, 0)), 32);
}

#[test]
fn central_meridians() {
    assert_eq!(Utm::central_meridian(1), -177);
    assert_eq!(Utm::central_meridian(30), -3);
    assert_eq!(Utm::central_meridian(31), 3);
    assert_eq!(Utm::central_meridian(32), 9);
    assert_eq!(Utm::central_meridian(60), 177);
}

fn reference(zone: u8, band: LatBand, col: ColLetter, row: RowLetter, e: usize, n: usize, a: Accuracy) -> Mgrs {
    Mgrs {
        gzd: Gzd { zone, band },
        gsid_100k: GridSquareId100k { col, row },
        easting: e,
        northing: n,
        accuracy: a,
    }
}

#[test]
fn point_to_reference() {
    let p = Utm::new(31, Hemisphere::N, 448_251, 5_411_932);
    assert_eq!(p.datum, Datum::Wgs84);
    assert_eq!(
        p.to_mgrs(LatBand::U, None),
        Some(reference(31, LatBand::U, ColLetter::D, RowLetter::Q, 48_251, 11_932, Accuracy::One))
    );
    assert_eq!(
        p.to_mgrs(LatBand::U, Some(Accuracy::Ten)),
        Some(reference(31, LatBand::U, ColLetter::D, RowLetter::Q, 48_250, 11_930, Accuracy::Ten))
    );
    assert_eq!(
        p.to_mgrs(LatBand::U, Some(Accuracy::OneHundred)),
        Some(reference(31, LatBand::U, ColLetter::D, RowLetter::Q, 48_200, 11_900, Accuracy::OneHundred))
    );
    assert_eq!(
        p.to_mgrs(LatBand::U, Some(Accuracy::OneThousand)),
        Some(reference(31, LatBand::U, ColLetter::D, RowLetter::Q, 48_000, 11_000, Accuracy::OneThousand))
    );
    assert_eq!(
        p.to_mgrs(LatBand::U, Some(Accuracy::TenThousand)),
        Some(reference(31, LatBand::U, ColLetter::D, RowLetter::Q, 40_000, 10_000, Accuracy::TenThousand))
    );
    // cut off, never rounded
    let p = Utm::new(31, Hemisphere::N, 499_999, 5_499_999);
    let m = p.to_mgrs(LatBand::U, Some(Accuracy::TenThousand)).unwrap();
    assert_eq!((m.easting, m.northing), (90_000, 90_000));
    // no column, no row
    assert_eq!(Utm::new(31, Hemisphere::N, 99_999, 5_411_932).to_mgrs(LatBand::U, None), None);
    assert_eq!(Utm::new(31, Hemisphere::N, 900_000, 5_411_932).to_mgrs(LatBand::U, None), None);
    assert_eq!(Utm::new(31, Hemisphere::N, 448_251, -1).to_mgrs(LatBand::U, None), None);
}

#[test]
fn reference_to_point() {
    let m = reference(31, LatBand::U, ColLetter::D, RowLetter::Q, 48_251, 11_932, Accuracy::One);
    let p = Utm::from_mgrs(m);
    assert_eq!(p, Ok(Utm::new(31, Hemisphere::N, 448_251, 5_411_932)));
    let m = reference(24, LatBand::X, ColLetter::W, RowLetter::T, 78_300, 90_800, Accuracy::OneHundred);
    assert_eq!(Utm::from_mgrs(m), Ok(Utm::new(24, Hemisphere::N, 578_300, 9_290_800)));
    // a southern band
    let m = reference(56, LatBand::H, ColLetter::L, RowLetter::H, 34_000, 51_000, Accuracy::OneThousand);
    assert_eq!(Utm::from_mgrs(m), Ok(Utm::new(56, Hemisphere::S, 334_000, 6_251_000)));
    // the south-west corner of a square
    let m = reference(31, LatBand::U, ColLetter::D, RowLetter::Q, 0, 0, Accuracy::One);
    assert_eq!(Utm::from_mgrs(m), Ok(Utm::new(31, Hemisphere::N, 400_000, 5_400_000)));
}

#[test]
fn column_letter_of_another_zone_is_refused() {
    let m = reference(31, LatBand::U, ColLetter::J, RowLetter::Q, 48_251, 11_932, Accuracy::One);
    assert_eq!(Utm::from_mgrs(m), Err(Errors::InvalidColLetter('J')));
    assert_eq!(Utm::rect_from_mgrs(m), Err(Errors::InvalidColLetter('J')));
    let m = reference(31, LatBand::U, ColLetter::S, RowLetter::Q, 0, 1, Accuracy::One);
    assert_eq!(Utm::from_mgrs(m), Err(Errors::InvalidColLetter('S')));
    let m = reference(60, LatBand::U, ColLetter::D, RowLetter::Q, 48_251, 11_932, Accuracy::One);
    assert_eq!(Utm::from_mgrs(m), Err(Errors::InvalidColLetter('D')));
    for zone in 1..=60u8 {
        for index in 0..24usize {
            let col = ColLetter::from_index(index).unwrap();
            let m = reference(zone, LatBand::N, col, RowLetter::A, 0, 0, Accuracy::One);
            let own = index / 8 == ((zone - 1) % 3) as usize;
            assert_eq!(Utm::from_mgrs(m).is_ok(), own);
            if own {
                assert_eq!(Utm::from_mgrs(m).unwrap().easting, (index as i32 % 8 + 1) * 100_000);
            }
        }
    }
}

#[test]
fn corners_of_the_box() {
    let m = reference(31, LatBand::U, ColLetter::D, RowLetter::Q, 48_000, 11_000, Accuracy::OneThousand);
    let (south_west, north_east) = Utm::rect_from_mgrs(m).unwrap();
    assert_eq!(south_west, Utm::new(31, Hemisphere::N, 448_000, 5_411_000));
    assert_eq!(north_east, Utm::new(31, Hemisphere::N, 449_000, 5_412_000));
    let m = reference(31, LatBand::U, ColLetter::D, RowLetter::Q, 48_251, 11_932, Accuracy::One);
    let (south_west, north_east) = Utm::rect_from_mgrs(m).unwrap();
    assert_eq!(south_west, Utm::from_mgrs(m).unwrap());
    assert_eq!(north_east, Utm::new(31, Hemisphere::N, 448_252, 5_411_933));
    let m = reference(31, LatBand::U, ColLetter::H, RowLetter::Q, 90_000, 90_000, Accuracy::TenThousand);
    let (_, north_east) = Utm::rect_from_mgrs(m).unwrap();
    assert_eq!((north_east.easting, north_east.northing), (900_000, 5_500_000));
}

#[test]
fn references_that_are_none() {
    let m = reference(31, LatBand::U, ColLetter::D, RowLetter::Q, 48_251, 11_932, Accuracy::One);
    assert!(m.is_valid());
    assert!(reference(1, LatBand::U, ColLetter::D, RowLetter::Q, 0, 99_999, Accuracy::Ten).is_valid());
    assert!(reference(60, LatBand::U, ColLetter::D, RowLetter::Q, 99_999, 0, Accuracy::One).is_valid());
    assert!(!reference(0, LatBand::U, ColLetter::D, RowLetter::Q, 1, 1, Accuracy::One).is_valid());
    assert!(!reference(61, LatBand::U, ColLetter::D, RowLetter::Q, 1, 1, Accuracy::One).is_valid());
    assert!(!reference(31, LatBand::U, ColLetter::D, RowLetter::Q, 100_000, 1, Accuracy::One).is_valid());
    assert!(!reference(31, LatBand::U, ColLetter::D, RowLetter::Q, 1, 100_000, Accuracy::One).is_valid());
}

#[test]
fn reference_of_a_point_names_the_point() {
    let bands = [
        (LatBand::N, 0i32),
        (LatBand::P, 900_000),
        (LatBand::U, 5_300_000),
        (LatBand::X, 9_328_000),
        (LatBand::C, 1_116_000),
        (LatBand::M, 9_999_999),
    ];
    let accuracies = [
        Accuracy::One,
        Accuracy::Ten,
        Accuracy::OneHundred,
        Accuracy::OneThousand,
        Accuracy::TenThousand,
    ];
    for zone in [1u8, 2, 3, 30, 31, 32, 59, 60] {
        for (band, northing) in bands {
            for easting in [100_000i32, 166_021, 400_000, 448_251, 500_000, 833_978, 899_999] {
                for a in accuracies {
                    let p = Utm::new(zone, Hemisphere::from(band), easting, northing);
                    let m = p.to_mgrs(band, Some(a)).unwrap();
                    assert_eq!(m.accuracy, a);
                    let q = Utm::from_mgrs(m).unwrap();
                    let unit = a.as_distance() as i32;
                    assert_eq!(q.zone, zone);
                    assert_eq!(q.hemisphere, p.hemisphere);
                    assert_eq!(q.easting, easting / unit * unit);
                    assert_eq!(q.northing, northing / unit * unit);
                    assert!((p.easting - q.easting).abs() < unit);
                    assert!((p.northing - q.northing).abs() < unit);
                }
            }
        }
    }
}

#[test]
fn a_band_that_does_not_hold_the_point_names_another() {
    let p = Utm::new(31, Hemisphere::N, 448_251, 0);
    let m = p.to_mgrs(LatBand::U, None).unwrap();
    assert_eq!(Utm::from_mgrs(m).unwrap().northing, 6_000_000);
}

#[test]
fn new_reference() {
    let m = Mgrs::new(31, LatBand::U, ColLetter::D, RowLetter::Q, 48251, 11932);
    assert_eq!(m, reference(31, LatBand::U, ColLetter::D, RowLetter::Q, 48251, 11932, Accuracy::One));
    assert_eq!(m.as_string(Accuracy::One), "31U DQ 48251 11932");
    let m = Mgrs::new(4, LatBand::Q, ColLetter::F, RowLetter::J, 12000, 45000);
    assert_eq!(m.accuracy, Accuracy::OneThousand);
    let m = Mgrs::new(4, LatBand::Q, ColLetter::F, RowLetter::J, 0, 40000);
    assert_eq!(m.accuracy, Accuracy::TenThousand);
    // the south-west corner of a square, to the metre
    let m = Mgrs::new(4, LatBand::Q, ColLetter::F, RowLetter::J, 0, 0);
    assert_eq!(m, reference(4, LatBand::Q, ColLetter::F, RowLetter::J, 0, 0, Accuracy::One));
    assert_eq!(m.as_string(Accuracy::One), "04Q FJ 00000 00000");
}

#[test]
fn text_of_references() {
    let m = reference(31, LatBand::U, ColLetter::D, RowLetter::Q, 48_251, 11_932, Accuracy::One);
    assert_eq!(m.as_string(Accuracy::One), "31U DQ 48251 11932");
    assert_eq!(m.as_string(Accuracy::Ten), "31U DQ 4825 1193");
    assert_eq!(m.as_string(Accuracy::OneHundred), "31U DQ 482 119");
    assert_eq!(m.as_string(Accuracy::OneThousand), "31U DQ 48 11");
    assert_eq!(m.as_string(Accuracy::TenThousand), "31U DQ 4 1");
    assert_eq!(m.as_compact_string(Accuracy::One), "31UDQ4825111932");
    assert_eq!(m.as_compact_string(Accuracy::TenThousand), "31UDQ41");
    // zeros in front, to the width of the precision
    let m = reference(4, LatBand::Q, ColLetter::F, RowLetter::J, 5, 709, Accuracy::One);
    assert_eq!(m.as_string(Accuracy::One), "04Q FJ 00005 00709");
    assert_eq!(m.as_string(Accuracy::Ten), "04Q FJ 0000 0070");
    assert_eq!(m.as_string(Accuracy::OneHundred), "04Q FJ 000 007");
    assert_eq!(m.as_compact_string(Accuracy::One), "04QFJ0000500709");
    // cut off, never rounded
    let m = reference(60, LatBand::X, ColLetter::Z, RowLetter::V, 99_999, 99_999, Accuracy::One);
    assert_eq!(m.as_string(Accuracy::TenThousand), "60X ZV 9 9");
    assert_eq!(m.as_string(Accuracy::OneThousand), "60X ZV 99 99");
}

#[test]
fn text_of_points() {
    assert_eq!(Utm::new(31, Hemisphere::N, 448_251, 5_411_932).as_string(), "31 N 448251 5411932");
    assert_eq!(Utm::new(4, Hemisphere::S, 0, 10_000_000).as_string(), "4 S 0 10000000");
    assert_eq!(Utm::new(60, Hemisphere::S, -15, i32::MIN).as_string(), "60 S -15 -2147483648");
}

#[test]
fn datum_names() {
    assert_eq!(Datum::from_str("WGS84"), Ok(Datum::Wgs84));
    assert_eq!(Datum::from_str("wgs84"), Ok(Datum::Wgs84));
    assert_eq!(Datum::from_str("Wgs84"), Ok(Datum::Wgs84));
    assert_eq!(Datum::from_str("NAD27"), Err(Errors::InvalidDatum("NAD27".to_string())));
    assert_eq!(Datum::from_str("WGS84 "), Err(Errors::InvalidDatum("WGS84 ".to_string())));
    assert_eq!(Datum::from_str(""), Err(Errors::InvalidDatum(String::new())));
    assert_eq!(Datum::default(), Datum::Wgs84);
    assert_eq!(Datum::Wgs84.semi_major_axis(), 6_378_137);
    assert_eq!(Datum::Wgs84.semi_minor_axis_micrometers(), 6_356_752_314_245);
    assert_eq!(Datum::Wgs84.inverse_flattening_e9(), 298_257_223_563);
    // the minor axis is the major axis less its flattened part, to the micrometre
    let a = 6_378_137.0f64;
    let b = a - a / (298_257_223_563.0f64 / 1e9);
    assert!((b * 1e6 - 6_356_752_314_245.0f64).abs() < 2.0);
}

#[test]
fn descriptions_of_errors() {
    assert_eq!(Errors::InvalidZoneLetter('x').description(), "invalid zone letter");
    assert_eq!(Errors::InvalidColLetter('x').description(), "invalid column letter");
    assert_eq!(Errors::InvalidRowLetter('x').description(), "invalid row letter");
    assert_eq!(Errors::InvalidNorthingChar('x').description(), "MGRS point given invalid northing");
    assert_eq!(Errors::InvalidEastingChar('x').description(), "MGRS point given invalid easting");
    assert_eq!(Errors::InvalidLatitude(0).description(), "latitude outside UTM limits");
    assert_eq!(Errors::InvalidLongitude(0).description(), "longitude outside UTM limits");
    assert_eq!(Errors::InvalidLatitudeBand('x').description(), "invalid Latitude band letter");
    assert_eq!(Errors::InvalidHemisphereChar('x').description(), "invalid hemisphere letter");
    assert_eq!(Errors::InvalidDatum(String::new()).description(), "invalid map datum was supplied");
}
