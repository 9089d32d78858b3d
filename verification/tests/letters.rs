use mgrs::{ColLetter, Errors, GridSquareId100k, Hemisphere, LatBand, RowLetter};

#[test]
fn col_from_char() {
    let a = 'a';
    let cl = ColLetter::from_char(a).unwrap();
    assert_eq!(cl, ColLetter::A);

    let a = 'A';
    let cl = ColLetter::from_char(a).unwrap();
    assert_eq!(cl, ColLetter::A);
}

#[test]
fn col_from_u32() {
    let c: u32 = 99;
    let cl = ColLetter::from_u32(c).unwrap();
    assert_eq!(cl, ColLetter::C);

    let c: u32 = 67;
    let cl = ColLetter::from_u32(c).unwrap();
    assert_eq!(cl, ColLetter::C);
}

#[test]
fn col_from_str() {
    let c = "c";
    let cl = ColLetter::from_str(c);
    assert_eq!(cl, Ok(ColLetter::C));

    let c = "C";
    let cl = ColLetter::from_str(c);
    assert_eq!(cl, Ok(ColLetter::C));
}

#[test]
fn col_to_char() {
    let cl = ColLetter::C;
    let c = char::from(cl);
    assert_eq!(c, 'C');
}

#[test]
fn row_from_char() {
    let a = 'a';
    let cl = RowLetter::from_char(a).unwrap();
    assert_eq!(cl, RowLetter::A);

    let a = 'A';
    let cl = RowLetter::from_char(a).unwrap();
    assert_eq!(cl, RowLetter::A);
}

#[test]
fn row_from_u32() {
    let c: u32 = 99;
    let cl = RowLetter::from_u32(c).unwrap();
    assert_eq!(cl, RowLetter::C);

    let c: u32 = 67;
    let cl = RowLetter::from_u32(c).unwrap();
    assert_eq!(cl, RowLetter::C);
}

#[test]
fn row_from_str() {
    let c = "c";
    let cl = RowLetter::from_str(c);
    assert_eq!(cl, Ok(RowLetter::C));

    let c = "C";
    let cl = RowLetter::from_str(c);
    assert_eq!(cl, Ok(RowLetter::C));
}

#[test]
fn row_to_char() {
    let cl = RowLetter::C;
    let c = char::from(cl);
    assert_eq!(c, 'C');
}

const COLS: &str = "ABCDEFGHJKLMNPQRSTUVWXYZ";
const ROWS: &str = "ABCDEFGHJKLMNPQRSTUV";
const BANDS: &str = "CDEFGHJKLMNPQRSTUVWX";

#[test]
fn letters_and_places_are_lossless() {
    for (i, c) in COLS.chars().enumerate() {
        let l = ColLetter::from_index(i).unwrap();
        assert_eq!(l.index(), i);
        assert_eq!(l.as_char(), c);
        assert_eq!(char::from(l), c);
        assert_eq!(ColLetter::from_char(c), Ok(l));
        assert_eq!(ColLetter::from_char(c.to_ascii_lowercase()), Ok(l));
        assert_eq!(ColLetter::from_u32(c as u32), Some(l));
    }
    assert_eq!(ColLetter::from_index(24), None);
    for (i, c) in ROWS.chars().enumerate() {
        let l = RowLetter::from_index(i).unwrap();
        assert_eq!(l.index(), i);
        assert_eq!(l.as_char(), c);
        assert_eq!(char::from(l), c);
        assert_eq!(RowLetter::from_char(c), Ok(l));
        assert_eq!(RowLetter::from_char(c.to_ascii_lowercase()), Ok(l));
    }
    assert_eq!(RowLetter::from_index(20), None);
    for (i, c) in BANDS.chars().enumerate() {
        let b = LatBand::from_index(i).unwrap();
        assert_eq!(b.index(), i);
        assert_eq!(b.as_char(), c);
        assert_eq!(char::from(b), c);
        assert_eq!(LatBand::from_char(c), Ok(b));
        assert_eq!(LatBand::from_char(c.to_ascii_lowercase()), Ok(b));
    }
    assert_eq!(LatBand::from_index(20), None);
    assert_eq!(LatBand::M.as_char(), 'M');
}

#[test]
fn i_and_o_are_no_letters() {
    for c in ['I', 'O', 'i', 'o'] {
        assert_eq!(ColLetter::from_char(c), Err(Errors::InvalidColLetter(c)));
        assert_eq!(RowLetter::from_char(c), Err(Errors::InvalidRowLetter(c)));
        assert_eq!(LatBand::from_char(c), Err(Errors::InvalidLatitudeBand(c)));
        assert_eq!(ColLetter::from_u32(c as u32), None);
        assert_eq!(RowLetter::from_u32(c as u32), None);
        assert_eq!(LatBand::from_u32(c as u32), None);
    }
    for c in ['I', 'O'] {
        for set in 1..=6u8 {
            assert_eq!(ColLetter::easting_for_char(c, set), Err(Errors::InvalidColLetter(c)));
            assert_eq!(RowLetter::northing_for_char(c, set), Err(Errors::InvalidRowLetter(c)));
        }
    }
    for zone in 1..=60u8 {
        for index in 0..8u8 {
            let c = ColLetter::letter_at(zone, index).unwrap().as_char();
            assert!(c != 'I' && c != 'O');
        }
        for index in 0..20u8 {
            let c = RowLetter::letter_at(zone, index).unwrap().as_char();
            assert!(c != 'I' && c != 'O');
        }
    }
}

#[test]
fn letters_out_of_range_are_refused() {
    assert_eq!(RowLetter::from_char('W'), Err(Errors::InvalidRowLetter('W')));
    assert_eq!(RowLetter::from_str("z"), Err(Errors::InvalidRowLetter('z')));
    assert_eq!(RowLetter::from_str(""), Err(Errors::InvalidRowLetter('\0')));
    assert_eq!(ColLetter::from_char('1'), Err(Errors::InvalidColLetter('1')));
    assert_eq!(ColLetter::from_str(""), Err(Errors::InvalidColLetter('\0')));
    assert_eq!(ColLetter::from_str("cat"), Ok(ColLetter::C));
    assert_eq!(ColLetter::from_u32(0x143), None);
    assert_eq!(LatBand::from_char('B'), Err(Errors::InvalidLatitudeBand('B')));
    assert_eq!(LatBand::from_char('Y'), Err(Errors::InvalidLatitudeBand('Y')));
    assert_eq!(LatBand::from_str("u"), Ok(LatBand::U));
    assert_eq!(LatBand::from_str(""), Err(Errors::InvalidLatitudeBand('\0')));
    assert_eq!(Hemisphere::from_char('n'), Ok(Hemisphere::N));
    assert_eq!(Hemisphere::from_char('S'), Ok(Hemisphere::S));
    assert_eq!(Hemisphere::from_char('x'), Err(Errors::InvalidHemisphereChar('x')));
    assert_eq!(Hemisphere::from_str("s"), Ok(Hemisphere::S));
    assert_eq!(Hemisphere::from_u32(78), Some(Hemisphere::N));
    assert_eq!(Hemisphere::from_u32(77), None);
    assert_eq!(char::from(Hemisphere::S), 'S');
}

#[test]
fn column_sets() {
    // zone 1: A-H, zone 2: J-R, zone 3: S-Z, then again
    assert_eq!(ColLetter::letter_at(1, 0), Some(ColLetter::A));
    assert_eq!(ColLetter::letter_at(1, 7), Some(ColLetter::H));
    assert_eq!(ColLetter::letter_at(2, 0), Some(ColLetter::J));
    assert_eq!(ColLetter::letter_at(2, 5), Some(ColLetter::P));
    assert_eq!(ColLetter::letter_at(3, 7), Some(ColLetter::Z));
    assert_eq!(ColLetter::letter_at(31, 3), Some(ColLetter::D));
    assert_eq!(ColLetter::letter_at(31, 8), None);
    assert_eq!(ColLetter::from_set_and_index(1, 4), Some(ColLetter::N));
    assert_eq!(ColLetter::from_set_and_index(3, 0), None);
    assert_eq!(ColLetter::from_set_and_index(0, 8), None);
    assert_eq!(ColLetter::N.index_from_set(1), Ok(4));
    assert_eq!(ColLetter::N.index_from_set(0), Err(Errors::InvalidColLetter('N')));
    assert_eq!(ColLetter::N.index_from_set(3), Err(Errors::InvalidColLetter('N')));
    assert_eq!(ColLetter::index_for_easting(448_251), Some(3));
    assert_eq!(ColLetter::index_for_easting(100_000), Some(0));
    assert_eq!(ColLetter::index_for_easting(899_999), Some(7));
    assert_eq!(ColLetter::index_for_easting(99_999), None);
    assert_eq!(ColLetter::index_for_easting(900_000), None);
    assert_eq!(ColLetter::index_for_easting(-1), None);
    assert_eq!(ColLetter::from_zone_and_easting(31, 448_251), Some(ColLetter::D));
    assert_eq!(ColLetter::from_zone_and_easting(32, 448_251), Some(ColLetter::M));
    assert_eq!(ColLetter::from_zone_and_easting(31, 50_000), None);
    assert_eq!(ColLetter::D.as_meters_from_zone(31), Ok(400_000));
    assert_eq!(ColLetter::D.as_meters_from_zone(32), Err(Errors::InvalidColLetter('D')));
}

#[test]
fn column_count_from_origin() {
    assert_eq!(ColLetter::D.get_easting_with_set(1), Ok(400_000));
    assert_eq!(ColLetter::A.get_easting_with_set(4), Ok(100_000));
    assert_eq!(ColLetter::J.get_easting_with_set(2), Ok(100_000));
    assert_eq!(ColLetter::S.get_easting_with_set(6), Ok(100_000));
    // past the eight columns of the set, and once round the alphabet
    assert_eq!(ColLetter::J.get_easting_with_set(1), Ok(900_000));
    assert_eq!(ColLetter::Z.get_easting_with_set(1), Ok(2_400_000));
    assert_eq!(ColLetter::A.get_easting_with_set(2), Ok(1_700_000));
    assert_eq!(ColLetter::H.get_easting_with_set(2), Ok(2_400_000));
    assert_eq!(ColLetter::R.get_easting_with_set(3), Ok(2_400_000));
    assert_eq!(ColLetter::easting_for_char('D', 1), Ok(400_000));
    assert_eq!(ColLetter::easting_for_char('d', 1), Err(Errors::InvalidEastingChar('d')));
    assert_eq!(ColLetter::easting_for_char('@', 2), Err(Errors::InvalidEastingChar('@')));
    assert_eq!(ColLetter::easting_for_char('[', 3), Err(Errors::InvalidEastingChar('[')));
    assert_eq!(ColLetter::easting_for_char('é', 3), Err(Errors::InvalidEastingChar('é')));
    // within a zone's own set the count and the table agree
    for zone in 1..=60u8 {
        let set = mgrs::get_100k_set_for_zone(zone as usize) as u8;
        for index in 0..8u8 {
            let l = ColLetter::letter_at(zone, index).unwrap();
            assert_eq!(l.get_easting_with_set(set).unwrap() as usize, l.as_meters_from_zone(zone).unwrap());
            assert_eq!(l.index_from_set((zone - 1) % 3), Ok(index as usize));
        }
    }
}

#[test]
fn row_sets() {
    assert_eq!(RowLetter::letter_at(1, 0), Some(RowLetter::A));
    assert_eq!(RowLetter::letter_at(1, 19), Some(RowLetter::V));
    assert_eq!(RowLetter::letter_at(2, 0), Some(RowLetter::F));
    assert_eq!(RowLetter::letter_at(2, 14), Some(RowLetter::V));
    assert_eq!(RowLetter::letter_at(2, 15), Some(RowLetter::A));
    assert_eq!(RowLetter::letter_at(2, 19), Some(RowLetter::E));
    assert_eq!(RowLetter::letter_at(2, 20), None);
    assert_eq!(RowLetter::from_set_and_index(2, 0), None);
    assert_eq!(RowLetter::Q.index_from_set(0), Ok(14));
    assert_eq!(RowLetter::Q.index_from_set(1), Ok(9));
    assert_eq!(RowLetter::A.index_from_set(1), Ok(15));
    assert_eq!(RowLetter::A.index_from_set(2), Err(Errors::InvalidRowLetter('A')));
    assert_eq!(RowLetter::index_for_northing(5_411_932), Some(14));
    assert_eq!(RowLetter::index_for_northing(0), Some(0));
    assert_eq!(RowLetter::index_for_northing(1_999_999), Some(19));
    assert_eq!(RowLetter::index_for_northing(2_000_000), Some(0));
    assert_eq!(RowLetter::index_for_northing(-1), None);
    assert_eq!(RowLetter::from_zone_and_northing(31, 5_411_932), Some(RowLetter::Q));
    assert_eq!(RowLetter::from_zone_and_northing(32, 5_411_932), Some(RowLetter::V));
    assert_eq!(RowLetter::from_zone_and_northing(31, -5), None);
    assert_eq!(RowLetter::Q.as_meters_from_zone(31), 1_400_000);
    assert_eq!(RowLetter::Q.as_meters_from_zone(32), 900_000);
}

#[test]
fn row_count_from_origin() {
    assert_eq!(RowLetter::Q.get_northing_with_set(1), Ok(1_400_000));
    assert_eq!(RowLetter::A.get_northing_with_set(1), Ok(0));
    assert_eq!(RowLetter::F.get_northing_with_set(2), Ok(0));
    assert_eq!(RowLetter::V.get_northing_with_set(1), Ok(1_900_000));
    assert_eq!(RowLetter::E.get_northing_with_set(2), Ok(1_900_000));
    assert_eq!(RowLetter::A.get_northing_with_set(6), Ok(1_500_000));
    assert_eq!(RowLetter::northing_for_char('Q', 3), Ok(1_400_000));
    assert_eq!(RowLetter::northing_for_char('W', 1), Err(Errors::InvalidNorthingChar('W')));
    assert_eq!(RowLetter::northing_for_char('q', 1), Err(Errors::InvalidNorthingChar('q')));
    assert_eq!(RowLetter::northing_for_char('5', 2), Err(Errors::InvalidNorthingChar('5')));
    for zone in 1..=60u8 {
        let set = mgrs::get_100k_set_for_zone(zone as usize) as u8;
        for index in 0..20u8 {
            let l = RowLetter::letter_at(zone, index).unwrap();
            assert_eq!(l.get_northing_with_set(set).unwrap() as usize, l.as_meters_from_zone(zone));
            assert_eq!(l.as_meters_from_zone(zone), index as usize * 100_000);
        }
    }
}

#[test]
fn sets_of_zones() {
    assert_eq!(mgrs::get_100k_set_for_zone(1), 1);
    assert_eq!(mgrs::get_100k_set_for_zone(5), 5);
    assert_eq!(mgrs::get_100k_set_for_zone(6), 6);
    assert_eq!(mgrs::get_100k_set_for_zone(7), 1);
    assert_eq!(mgrs::get_100k_set_for_zone(31), 1);
    assert_eq!(mgrs::get_100k_set_for_zone(60), 6);
}

#[test]
fn square_names() {
    let id = GridSquareId100k::new(4, 14, 31);
    assert_eq!((id.col, id.row), (ColLetter::D, RowLetter::Q));
    let id = GridSquareId100k::new(1, 0, 1);
    assert_eq!((id.col, id.row), (ColLetter::A, RowLetter::A));
    let id = GridSquareId100k::new(8, 19, 2);
    assert_eq!((id.col, id.row), (ColLetter::R, RowLetter::E));
    let id = GridSquareId100k::new(6, 3, 2);
    assert_eq!((id.col, id.row), (ColLetter::P, RowLetter::J));
    let id = GridSquareId100k::new(8, 10, 3);
    assert_eq!((id.col, id.row), (ColLetter::Z, RowLetter::L));
    for parm in 1..=60usize {
        for column in 1..=8u32 {
            for row in 0..=19u32 {
                let id = GridSquareId100k::new(column, row, parm);
                assert_eq!(Some(id.col), ColLetter::letter_at(parm as u8, (column - 1) as u8));
                assert_eq!(Some(id.row), RowLetter::letter_at(parm as u8, row as u8));
            }
        }
    }
}
