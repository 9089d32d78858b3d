//! What is written is read again: the text of a grid reference spells the
//! grid reference, cut off to the precision of the text.

use vstd::prelude::*;
use vstd::string::StringSliceAdditionalSpecFns;
use vstd::utf8::{is_ascii_chars, is_ascii_chars_encode_utf8};
use crate::accuracy::Accuracy;
use crate::band::LatBand;
use crate::col::ColLetter;
use crate::errors::Errors;
use crate::mgrs::{accuracy_of, cut, lemma_accuracy_by_division, Mgrs};
use crate::parser::{
    assembled, band_at, col_at, digits_end, digits_value, is_numeric, location_at, parsed,
    read_accuracy, row_at, run_cap, run_unit, skip_space, written_accuracy, zone_at, DigitRuns,
};
use crate::row::RowLetter;
use crate::text::{byte_at, decimal, digit_char};
use crate::utm::{lemma_cut, lemma_mgrs_round_trip, Utm};

verus! {

/// The bytes of a text of ASCII characters.
pub open spec fn ascii_bytes(text: Seq<char>) -> Seq<u8> {
    Seq::new(text.len(), |i: int| text[i] as u8)
}

/// A number below ten to the power `width` is written with `width` digits.
pub proof fn lemma_decimal_digits(x: nat, width: nat)
    requires
        1 <= width <= 5,
        x < run_cap(width as int),
    ensures
        decimal(x, width).len() == width,
        forall|i: int| 0 <= i < width ==> 48 <= #[trigger] decimal(x, width)[i] as u8 <= 57,
    decreases width,
{
    if width == 1 {
        assert(decimal(x, width) =~= seq![digit_char(x)]);
    } else {
        let rest = (width - 1) as nat;
        lemma_decimal_digits(x / 10, rest);
        let head = decimal(x / 10, rest);
        assert(decimal(x, width) =~= head + seq![digit_char(x % 10)]);
        assert forall|i: int| 0 <= i < width implies 48 <= #[trigger] decimal(x, width)[i] as u8
            <= 57 by {
            if i < rest {
                assert(decimal(x, width)[i] == head[i]);
            } else {
                assert(decimal(x, width)[i] == digit_char(x % 10));
            }
        }
    }
}

/// The digits of a number spell the number.
pub proof fn lemma_digits_spell(s: Seq<u8>, from: int, x: nat, width: nat)
    requires
        1 <= width <= 5,
        x < run_cap(width as int),
        0 <= from,
        from + width <= s.len(),
        forall|j: int| 0 <= j < width ==> s[from + j] == #[trigger] decimal(x, width)[j] as u8,
    ensures
        digits_value(s, from, from + width) == x,
        forall|i: int| from <= i < from + width ==> is_numeric(#[trigger] s[i]),
    decreases width,
{
    lemma_decimal_digits(x, width);
    assert forall|i: int| from <= i < from + width implies is_numeric(#[trigger] s[i]) by {
        assert(s[from + (i - from)] == decimal(x, width)[i - from] as u8);
    }
    if width == 1 {
        assert(decimal(x, width) =~= seq![digit_char(x)]);
        assert(s[from + 0] == decimal(x, width)[0] as u8);
        assert(digits_value(s, from, from) == 0);
        assert(digits_value(s, from, from + 1) == 10 * digits_value(s, from, from) + (s[from] - 48));
    } else {
        let rest = (width - 1) as nat;
        let head = decimal(x / 10, rest);
        lemma_decimal_digits(x / 10, rest);
        assert(decimal(x, width) =~= head + seq![digit_char(x % 10)]);
        assert forall|j: int| 0 <= j < rest implies s[from + j] == #[trigger] head[j] as u8 by {
            assert(decimal(x, width)[j] == head[j]);
        }
        lemma_digits_spell(s, from, x / 10, rest);
        assert(decimal(x, width)[width - 1] == digit_char(x % 10));
        assert(s[from + (width - 1)] == decimal(x, width)[width - 1] as u8);
        assert(s[from + width - 1] - 48 == x % 10);
        assert(digits_value(s, from, from + width) == 10 * digits_value(s, from, from + width - 1)
            + (s[from + width - 1] - 48));
    }
}

/// A run of digits ends where the first byte stands that is no digit.
pub proof fn lemma_digits_end(s: Seq<u8>, from: int, count: nat)
    requires
        0 <= from,
        from + count <= s.len(),
        forall|i: int| from <= i < from + count ==> is_numeric(#[trigger] s[i]),
        from + count == s.len() || !is_numeric(s[from + count]),
    ensures
        digits_end(s, from) == from + count,
    decreases count,
{
    if count > 0 {
        assert(is_numeric(s[from]));
        lemma_digits_end(s, from + 1, (count - 1) as nat);
    }
}

/// Whether `s` is made of the parts of a grid reference in their order: the
/// zone in two digits, the band, column and row letters, and easting and
/// northing in `width` digits each, with a blank after the band letter, after
/// the row letter and after the easting, or with none.
#[verifier::opaque]
pub open spec fn spells(
    s: Seq<u8>,
    zone: nat,
    band: LatBand,
    col: ColLetter,
    row: RowLetter,
    e: nat,
    n: nat,
    width: nat,
    spaced: bool,
) -> bool {
    let g: int = if spaced { 1 } else { 0 };
    let at_e = 5 + 2 * g;
    let at_n = at_e + width + g;
    &&& s.len() == at_n + width
    &&& forall|j: int| 0 <= j < 2 ==> s[0 + j] == #[trigger] decimal(zone, 2)[j] as u8
    &&& s[2] == band.letter() as u8
    &&& s[3 + g] == col.letter() as u8
    &&& s[4 + g] == row.letter() as u8
    &&& spaced ==> s[3] == 32 && s[6] == 32 && s[at_e + width] == 32
    &&& forall|j: int| 0 <= j < width ==> s[at_e + j] == #[trigger] decimal(e, width)[j] as u8
    &&& forall|j: int| 0 <= j < width ==> s[at_n + j] == #[trigger] decimal(n, width)[j] as u8
}

/// The text of a grid reference is made of its parts in their order.
proof fn lemma_text_spells(m: Mgrs, a: Accuracy, spaced: bool)
    requires
        m.gzd.wf(),
        m.easting < 100_000,
        m.northing < 100_000,
    ensures
        spells(
            ascii_bytes(m.text(a, spaced)),
            m.gzd.zone as nat,
            m.gzd.band,
            m.gsid_100k.col,
            m.gsid_100k.row,
            m.easting as nat / a.meters(),
            m.northing as nat / a.meters(),
            a.digits() / 2,
            spaced,
        ),
{
    reveal(spells);
    let unit = a.meters();
    let width = a.digits() / 2;
    let zone = m.gzd.zone as nat;
    let e = m.easting as nat / unit;
    let n = m.northing as nat / unit;
    lemma_scaled(m.easting as int, a);
    lemma_scaled(m.northing as int, a);
    let gap = if spaced { seq![' '] } else { Seq::<char>::empty() };
    let g: int = if spaced { 1 } else { 0 };
    let z = decimal(zone, 2);
    let ed = decimal(e, width);
    let nd = decimal(n, width);
    lemma_decimal_digits(zone, 2);
    lemma_decimal_digits(e, width);
    lemma_decimal_digits(n, width);
    let t1 = z + seq![m.gzd.band.letter()];
    let t2 = t1 + gap;
    let t3 = t2 + seq![m.gsid_100k.col.letter()];
    let t4 = t3 + seq![m.gsid_100k.row.letter()];
    let t5 = t4 + gap;
    let t6 = t5 + ed;
    let t7 = t6 + gap;
    let t8 = t7 + nd;
    let text = m.text(a, spaced);
    assert(text == t8);
    let s = ascii_bytes(text);
    let at_e: int = 5 + 2 * g;
    let at_n: int = at_e + width + g;
    assert(t1.len() == 3 && t2.len() == 3 + g && t3.len() == 4 + g && t4.len() == 5 + g);
    assert(t5.len() == at_e && t6.len() == at_e + width && t7.len() == at_n);
    assert(text.len() == at_n + width);
    assert(text[2] == m.gzd.band.letter()) by {
        assert(t1[2] == m.gzd.band.letter());
        assert(t2[2] == t1[2] && t3[2] == t2[2] && t4[2] == t3[2] && t5[2] == t4[2]);
        assert(t6[2] == t5[2] && t7[2] == t6[2] && t8[2] == t7[2]);
    }
    assert(text[3 + g] == m.gsid_100k.col.letter()) by {
        assert(t3[3 + g] == m.gsid_100k.col.letter());
        assert(t4[3 + g] == t3[3 + g] && t5[3 + g] == t4[3 + g]);
        assert(t6[3 + g] == t5[3 + g] && t7[3 + g] == t6[3 + g] && t8[3 + g] == t7[3 + g]);
    }
    assert(text[4 + g] == m.gsid_100k.row.letter()) by {
        assert(t4[4 + g] == m.gsid_100k.row.letter());
        assert(t5[4 + g] == t4[4 + g]);
        assert(t6[4 + g] == t5[4 + g] && t7[4 + g] == t6[4 + g] && t8[4 + g] == t7[4 + g]);
    }
    if spaced {
        assert(text[3] == ' ') by {
            assert(t2[3] == ' ');
            assert(t3[3] == t2[3] && t4[3] == t3[3] && t5[3] == t4[3]);
            assert(t6[3] == t5[3] && t7[3] == t6[3] && t8[3] == t7[3]);
        }
        assert(text[6] == ' ') by {
            assert(t5[6] == ' ');
            assert(t6[6] == t5[6] && t7[6] == t6[6] && t8[6] == t7[6]);
        }
        assert(text[at_e + width] == ' ') by {
            assert(t7[at_e + width] == ' ');
            assert(t8[at_e + width] == t7[at_e + width]);
        }
    }
    assert forall|j: int| 0 <= j < 2 implies s[0 + j] == #[trigger] z[j] as u8 by {
        assert(t1[j] == z[j]);
        assert(t2[j] == t1[j] && t3[j] == t2[j] && t4[j] == t3[j] && t5[j] == t4[j]);
        assert(t6[j] == t5[j] && t7[j] == t6[j] && t8[j] == t7[j]);
    }
    assert forall|j: int| 0 <= j < width implies s[at_e + j] == #[trigger] ed[j] as u8 by {
        assert(t6[at_e + j] == ed[j]);
        assert(t7[at_e + j] == t6[at_e + j] && t8[at_e + j] == t7[at_e + j]);
    }
    assert forall|j: int| 0 <= j < width implies s[at_n + j] == #[trigger] nd[j] as u8 by {
        assert(t8[at_n + j] == nd[j]);
    }
}

/// The beginning of such a text is read as its zone and letters, and the
/// reader comes to stand at the first digit of the easting.
proof fn lemma_head_is_read(
    s: Seq<u8>,
    zone: u8,
    band: LatBand,
    col: ColLetter,
    row: RowLetter,
    e: nat,
    n: nat,
    width: nat,
    spaced: bool,
)
    requires
        1 <= zone <= 60,
        1 <= width <= 5,
        e < run_cap(width as int),
        n < run_cap(width as int),
        spells(s, zone as nat, band, col, row, e, n, width, spaced),
    ensures
        skip_space(s, 0) == 0,
        zone_at(s, 0) == Ok::<(u8, int), Errors>((zone, 2int)),
        skip_space(s, 2) == 2,
        band_at(s, 2) == Ok::<LatBand, Errors>(band),
        skip_space(s, 3) == 3 + (if spaced { 1int } else { 0 }),
        col_at(s, 3 + (if spaced { 1int } else { 0 })) == Ok::<ColLetter, Errors>(col),
        skip_space(s, 4 + (if spaced { 1int } else { 0 })) == 4 + (if spaced { 1int } else { 0 }),
        row_at(s, 4 + (if spaced { 1int } else { 0 })) == Ok::<RowLetter, Errors>(row),
        skip_space(s, 5 + (if spaced { 1int } else { 0 })) == 5 + (if spaced { 2int } else { 0 }),
{
    reveal(spells);
    let g: int = if spaced { 1 } else { 0 };
    let at_e = 5 + 2 * g;
    band.lemma_letter();
    col.lemma_ordinal();
    row.lemma_ordinal();
    lemma_digits_spell(s, 0, zone as nat, 2);
    lemma_digits_spell(s, at_e, e, width);
    reveal_with_fuel(skip_space, 3);
    reveal_with_fuel(digits_value, 3);
    assert(is_numeric(s[0]) && is_numeric(s[1]));
    assert(is_numeric(s[at_e]));
    assert(digits_value(s, 0, 2) == 10 * (s[0] - 48) + (s[1] - 48));
    assert(byte_at(s, 0) == s[0] && byte_at(s, 1) == s[1]);
    assert(byte_at(s, 2) == s[2]);
    assert(byte_at(s, 3 + g) == s[3 + g]);
    assert(byte_at(s, 4 + g) == s[4 + g]);
}

/// The digits of such a text are read as its easting and northing.
proof fn lemma_location_is_read(
    s: Seq<u8>,
    zone: u8,
    band: LatBand,
    col: ColLetter,
    row: RowLetter,
    e: nat,
    n: nat,
    width: nat,
    spaced: bool,
)
    requires
        1 <= width <= 5,
        e < run_cap(width as int),
        n < run_cap(width as int),
        spells(s, zone as nat, band, col, row, e, n, width, spaced),
    ensures
        location_at(s, 5 + (if spaced { 2int } else { 0 })) == Ok::<DigitRuns, Errors>(
            DigitRuns {
                easting: e as usize,
                easting_len: width as usize,
                northing: n as usize,
                northing_len: width as usize,
            },
        ),
        byte_at(s, 5 + (if spaced { 2int } else { 0 })) == decimal(e, width)[0] as u8,
{
    reveal(spells);
    let g: int = if spaced { 1 } else { 0 };
    let at_e = 5 + 2 * g;
    let at_n = at_e + width + g;
    lemma_digits_spell(s, at_e, e, width);
    lemma_digits_spell(s, at_n, n, width);
    reveal_with_fuel(skip_space, 3);
    assert(s[at_e + 0] == decimal(e, width)[0] as u8);
    if spaced {
        lemma_digits_end(s, at_e, width);
        assert(is_numeric(s[at_n]));
        assert(skip_space(s, at_e + width) == at_n);
        lemma_digits_end(s, at_n, width);
        assert(skip_space(s, at_n + width) == at_n + width);
    } else {
        assert forall|i: int| at_e <= i < at_e + 2 * width implies is_numeric(#[trigger] s[i]) by {
            if i >= at_e + width {
                assert(i >= at_n);
            }
        }
        lemma_digits_end(s, at_e, 2 * width);
        assert(skip_space(s, at_e + 2 * width) == at_e + 2 * width);
        assert((2 * width) / 2 == width);
        assert((2 * width) % 2 == 0);
    }
}

/// Such a text is read as the grid reference with its parts.
proof fn lemma_spelled_is_read(
    s: Seq<u8>,
    zone: u8,
    band: LatBand,
    col: ColLetter,
    row: RowLetter,
    e: nat,
    n: nat,
    width: nat,
    spaced: bool,
)
    requires
        1 <= zone <= 60,
        1 <= width <= 5,
        e < run_cap(width as int),
        n < run_cap(width as int),
        spells(s, zone as nat, band, col, row, e, n, width, spaced),
    ensures
        parsed(s) == assembled(
            zone,
            band,
            col,
            row,
            DigitRuns {
                easting: e as usize,
                easting_len: width as usize,
                northing: n as usize,
                northing_len: width as usize,
            },
            decimal(e, width)[0] as u8,
        ),
{
    lemma_head_is_read(s, zone, band, col, row, e, n, width, spaced);
    lemma_location_is_read(s, zone, band, col, row, e, n, width, spaced);
    let g: int = if spaced { 1 } else { 0 };
    let at_zone = skip_space(s, 0);
    assert(at_zone == 0);
    let at_band = skip_space(s, 2);
    assert(at_band == 2);
    let at_col = skip_space(s, at_band + 1);
    assert(at_col == 3 + g);
    let at_row = skip_space(s, at_col + 1);
    assert(at_row == 4 + g);
    let at_digits = skip_space(s, at_row + 1);
    assert(at_digits == 5 + 2 * g);
}

/// The precision that is read from the text of a grid reference to the
/// precision `a`: the one that the digits show as they are written, which is
/// one metre where neither run ends in a zero, however few the digits are;
/// and `a` where all digits are zeros.
pub open spec fn accuracy_read(m: Mgrs, a: Accuracy) -> Accuracy {
    match accuracy_of(m.easting as nat / a.meters(), m.northing as nat / a.meters()) {
        Some(shown) => shown,
        None => a,
    }
}

/// The grid reference that is read from the text of a grid reference to the
/// precision `a`: the same zone and letters, and easting and northing cut
/// off to `a`.
pub open spec fn read_back(m: Mgrs, a: Accuracy) -> Mgrs {
    Mgrs {
        gzd: m.gzd,
        gsid_100k: m.gsid_100k,
        easting: cut(m.easting as int, a.meters() as int) as usize,
        northing: cut(m.northing as int, a.meters() as int) as usize,
        accuracy: accuracy_read(m, a),
    }
}

/// The text of a grid reference to a precision, read, is the grid reference
/// cut off to that precision, whatever its digits are.
pub proof fn lemma_text_is_read(m: Mgrs, a: Accuracy, spaced: bool)
    requires
        m.gzd.wf(),
        m.easting < 100_000,
        m.northing < 100_000,
    ensures
        parsed(ascii_bytes(m.text(a, spaced))) == Ok::<Mgrs, Errors>(read_back(m, a)),
{
    let width = a.digits() / 2;
    let e = m.easting as nat / a.meters();
    let n = m.northing as nat / a.meters();
    let s = ascii_bytes(m.text(a, spaced));
    lemma_scaled(m.easting as int, a);
    lemma_scaled(m.northing as int, a);
    lemma_accuracy_by_division(e, n);
    lemma_text_spells(m, a, spaced);
    lemma_spelled_is_read(
        s,
        m.gzd.zone,
        m.gzd.band,
        m.gsid_100k.col,
        m.gsid_100k.row,
        e,
        n,
        width,
        spaced,
    );
    a.lemma_tables();
    let runs = DigitRuns {
        easting: e as usize,
        easting_len: width as usize,
        northing: n as usize,
        northing_len: width as usize,
    };
    assert(written_accuracy(runs) == Some(a));
    assert(read_accuracy(runs) == Some(accuracy_read(m, a)));
}

/// Decimal digits are ASCII characters.
pub proof fn lemma_decimal_is_ascii(x: nat, width: nat)
    ensures
        is_ascii_chars(decimal(x, width)),
    decreases x, width,
{
    if x < 10 && width <= 1 {
        assert(decimal(x, width) =~= seq![digit_char(x)]);
    } else {
        let rest = if width > 0 { (width - 1) as nat } else { 0 };
        lemma_decimal_is_ascii(x / 10, rest);
        let head = decimal(x / 10, rest);
        assert(decimal(x, width) =~= head + seq![digit_char(x % 10)]);
        assert forall|i: int| 0 <= i < decimal(x, width).len() implies '\0' <= #[trigger] decimal(
            x,
            width,
        )[i] <= '\u{7f}' by {
            if i < head.len() {
                assert(decimal(x, width)[i] == head[i]);
            } else {
                assert(decimal(x, width)[i] == digit_char(x % 10));
            }
        }
    }
}

/// The text of a grid reference is made of ASCII characters.
pub proof fn lemma_text_is_ascii(m: Mgrs, a: Accuracy, spaced: bool)
    ensures
        is_ascii_chars(m.text(a, spaced)),
{
    let unit = a.meters();
    let width = a.digits() / 2;
    let gap = if spaced { seq![' '] } else { Seq::<char>::empty() };
    let z = decimal(m.gzd.zone as nat, 2);
    let ed = decimal(m.easting as nat / unit, width);
    let nd = decimal(m.northing as nat / unit, width);
    lemma_decimal_is_ascii(m.gzd.zone as nat, 2);
    lemma_decimal_is_ascii(m.easting as nat / unit, width);
    lemma_decimal_is_ascii(m.northing as nat / unit, width);
    m.gzd.band.lemma_letter();
    m.gsid_100k.col.lemma_ordinal();
    m.gsid_100k.row.lemma_ordinal();
    let b = seq![m.gzd.band.letter()];
    let c = seq![m.gsid_100k.col.letter()];
    let r = seq![m.gsid_100k.row.letter()];
    assert(is_ascii_chars(gap));
    assert(is_ascii_chars(b));
    assert(is_ascii_chars(c));
    assert(is_ascii_chars(r));
    let t1 = z + b;
    let t2 = t1 + gap;
    let t3 = t2 + c;
    let t4 = t3 + r;
    let t5 = t4 + gap;
    let t6 = t5 + ed;
    let t7 = t6 + gap;
    let t8 = t7 + nd;
    lemma_ascii_joined(z, b);
    lemma_ascii_joined(t1, gap);
    lemma_ascii_joined(t2, c);
    lemma_ascii_joined(t3, r);
    lemma_ascii_joined(t4, gap);
    lemma_ascii_joined(t5, ed);
    lemma_ascii_joined(t6, gap);
    lemma_ascii_joined(t7, nd);
    assert(m.text(a, spaced) == t8);
}

/// Two texts of ASCII characters joined are one.
proof fn lemma_ascii_joined(x: Seq<char>, y: Seq<char>)
    requires
        is_ascii_chars(x),
        is_ascii_chars(y),
    ensures
        is_ascii_chars(x + y),
{
    assert forall|i: int| 0 <= i < (x + y).len() implies '\0' <= #[trigger] (x + y)[i]
        <= '\u{7f}' by {
        if i < x.len() {
            assert((x + y)[i] == x[i]);
        } else {
            assert((x + y)[i] == y[i - x.len()]);
        }
    }
}

/// A string that holds the text of a grid reference to a precision is read
/// as the grid reference cut off to that precision.
pub proof fn lemma_string_is_read(s: &str, m: Mgrs, a: Accuracy, spaced: bool)
    requires
        s@ == m.text(a, spaced),
        m.gzd.wf(),
        m.easting < 100_000,
        m.northing < 100_000,
    ensures
        parsed(s.spec_bytes()) == Ok::<Mgrs, Errors>(read_back(m, a)),
{
    lemma_text_is_ascii(m, a, spaced);
    is_ascii_chars_encode_utf8(s@);
    assert(s.spec_bytes() =~= ascii_bytes(s@));
    lemma_text_is_read(m, a, spaced);
}

/// A point that is written as a grid reference to a precision and read
/// again is the point cut off to that precision: it has the zone, band and
/// letters that were written, and lies less than the precision west and
/// south of the point, or at it.
///
/// This holds of the points whose easting lies in one of the eight columns
/// and whose northing is not negative, where `band` is a band in which the
/// row of the point lies.
pub proof fn lemma_point_is_read(p: Utm, band: LatBand, a: Accuracy, spaced: bool)
    requires
        p.wf(),
        100_000 <= p.easting < 900_000,
        0 <= p.northing,
        band.min_northing() <= p.northing as int / 100_000 * 100_000 < band.min_northing()
            + 2_000_000,
    ensures
        p.mgrs_of(band, Accuracy::One) is Some,
        parsed(ascii_bytes(p.mgrs_of(band, Accuracy::One).unwrap().text(a, spaced))) is Ok,
        ({
            let written = p.mgrs_of(band, Accuracy::One).unwrap();
            let read = parsed(ascii_bytes(written.text(a, spaced))).unwrap();
            &&& read.gzd == written.gzd
            &&& read.gsid_100k == written.gsid_100k
            &&& Utm::of_mgrs(read) is Ok
        }),
        ({
            let read = parsed(
                ascii_bytes(p.mgrs_of(band, Accuracy::One).unwrap().text(a, spaced)),
            ).unwrap();
            let q = Utm::of_mgrs(read).unwrap();
            &&& q.zone == p.zone
            &&& q.easting == cut(p.easting as int, a.meters() as int)
            &&& q.northing == cut(p.northing as int, a.meters() as int)
            &&& 0 <= p.easting - q.easting < a.meters()
            &&& 0 <= p.northing - q.northing < a.meters()
        }),
{
    lemma_mgrs_round_trip(p, band, Accuracy::One);
    lemma_mgrs_round_trip(p, band, a);
    let written = p.mgrs_of(band, Accuracy::One).unwrap();
    let cut_off = p.mgrs_of(band, a).unwrap();
    let e = p.easting as int % 100_000;
    let n = p.northing as int % 100_000;
    lemma_cut(e, Accuracy::One);
    lemma_cut(n, Accuracy::One);
    assert(cut(e, 1) == e);
    assert(cut(n, 1) == n);
    assert(written.easting == e);
    assert(written.northing == n);
    lemma_text_is_read(written, a, spaced);
    let read = parsed(ascii_bytes(written.text(a, spaced))).unwrap();
    assert(read.gzd == cut_off.gzd);
    assert(read.gsid_100k == cut_off.gsid_100k);
    assert(read.easting == cut_off.easting);
    assert(read.northing == cut_off.northing);
    assert(Utm::of_mgrs(read) == Utm::of_mgrs(cut_off));
}

/// A number of metres within a 100 km square, counted in units of a
/// precision, has no more digits than the precision writes, and counted in
/// metres again is the number cut off.
proof fn lemma_scaled(x: int, a: Accuracy)
    requires
        0 <= x < 100_000,
    ensures
        0 <= x / (a.meters() as int) < run_cap(a.digits() as int / 2),
        x / (a.meters() as int) * run_unit(a.digits() as int / 2) == cut(x, a.meters() as int),
        run_unit(a.digits() as int / 2) == a.meters(),
        x / (a.meters() as int) == 0 <==> x < a.meters(),
        1 <= a.digits() / 2 <= 5,
{
    assert(cut(x, 1) == x / 1 * 1);
    assert(cut(x, 10) == x / 10 * 10);
    assert(cut(x, 100) == x / 100 * 100);
    assert(cut(x, 1000) == x / 1000 * 1000);
    assert(cut(x, 10000) == x / 10000 * 10000);
    match a {
        Accuracy::One => {
            assert(x / 1 == x);
        },
        Accuracy::Ten => {
            assert(x / 10 < 10000);
        },
        Accuracy::OneHundred => {
            assert(x / 100 < 1000);
        },
        Accuracy::OneThousand => {
            assert(x / 1000 < 100);
        },
        Accuracy::TenThousand => {
            assert(x / 10000 < 10);
        },
    }
}

} // verus!
