//! Reading grid references from text.
//!
//! A grid reference is read from left to right, without going back: the zone
//! number of one or two digits, the band letter, the column letter, the row
//! letter, and the digits of easting and northing. Bytes below 33 (blanks
//! and control characters) may stand before each part and after the last;
//! letters are taken in either case. The digits are either one run of even
//! length, of which the first half is the easting and the second the
//! northing, or two runs with such bytes between them. A run of `k` digits
//! holds the first `k` of the five digits of a number of metres.

use vstd::prelude::*;
use vstd::string::StringSliceAdditionalSpecFns;
use crate::accuracy::Accuracy;
use crate::band::LatBand;
use crate::col::ColLetter;
use crate::errors::Errors;
use crate::gzd::{GridSquareId100k, Gzd};
use crate::mgrs::{accuracy_of, get_accuracy, is_multiple, lemma_accuracy_by_division, Mgrs};
use crate::row::RowLetter;
use crate::text::byte_at;

verus! {

/// Whether `b` is a decimal digit.
pub open spec fn is_numeric(b: u8) -> bool {
    48 <= b <= 57
}

/// Whether `b` is a blank or a control character.
pub open spec fn is_whitespace(b: u8) -> bool {
    b < 33
}

/// Whether `b` is `I` or `O`, in either case: the letters that no grid
/// reference holds.
pub open spec fn is_exempt_letter(b: u8) -> bool {
    b == 73 || b == 79 || b == 105 || b == 111
}

/// The first place at or after `pos` at which no blank stands.
pub open spec fn skip_space(s: Seq<u8>, pos: int) -> int
    decreases s.len() - pos,
{
    if 0 <= pos < s.len() && is_whitespace(s[pos]) {
        skip_space(s, pos + 1)
    } else {
        pos
    }
}

/// The first place at or after `pos` at which no digit stands.
pub open spec fn digits_end(s: Seq<u8>, pos: int) -> int
    decreases s.len() - pos,
{
    if 0 <= pos < s.len() && is_numeric(s[pos]) {
        digits_end(s, pos + 1)
    } else {
        pos
    }
}

/// The number that the digits from `from` up to, not including, `to` spell.
pub open spec fn digits_value(s: Seq<u8>, from: int, to: int) -> nat
    decreases to - from,
{
    if from >= to {
        0
    } else {
        (10 * digits_value(s, from, to - 1) + (s[to - 1] - 48)) as nat
    }
}

/// Ten to the power `5 - k`: what one unit of a run of `k` digits is worth
/// in metres.
pub open spec fn run_unit(k: int) -> nat {
    if k >= 5 {
        1
    } else if k == 4 {
        10
    } else if k == 3 {
        100
    } else if k == 2 {
        1000
    } else if k == 1 {
        10000
    } else {
        100000
    }
}

/// Ten to the power `k`: the least number that `k` digits cannot spell.
pub open spec fn run_cap(k: int) -> nat {
    if k <= 0 {
        1
    } else if k == 1 {
        10
    } else if k == 2 {
        100
    } else if k == 3 {
        1000
    } else if k == 4 {
        10000
    } else {
        100000
    }
}

/// The digits of easting and northing as they were written: the numbers
/// that the two runs spell, and how many digits each run has.
#[derive(Debug, Copy, Clone, PartialEq, Eq, Structural)]
pub struct DigitRuns {
    /// The number that the digits of the easting spell.
    pub easting: usize,
    /// The number of digits of the easting.
    pub easting_len: usize,
    /// The number that the digits of the northing spell.
    pub northing: usize,
    /// The number of digits of the northing.
    pub northing_len: usize,
}

/// The zone number that stands at `pos`, and the place after it.
///
/// One digit is read, and a second if one follows. Anything but a digit, and
/// a number that is none of 1 to 60, is refused with the first character.
pub open spec fn zone_at(s: Seq<u8>, pos: int) -> Result<(u8, int), Errors> {
    if !is_numeric(byte_at(s, pos)) {
        Err(Errors::InvalidZoneLetter(byte_at(s, pos) as char))
    } else {
        let two = is_numeric(byte_at(s, pos + 1));
        let zone = if two {
            10 * (s[pos] - 48) + (s[pos + 1] - 48)
        } else {
            s[pos] - 48
        };
        if 1 <= zone <= 60 {
            Ok((zone as u8, if two { pos + 2 } else { pos + 1 }))
        } else {
            Err(Errors::InvalidZoneLetter(s[pos] as char))
        }
    }
}

/// The band letter that stands at `pos`.
pub open spec fn band_at(s: Seq<u8>, pos: int) -> Result<LatBand, Errors> {
    match LatBand::of_char(byte_at(s, pos) as char) {
        Some(b) => Ok(b),
        None => Err(Errors::InvalidLatitudeBand(byte_at(s, pos) as char)),
    }
}

/// The column letter that stands at `pos`.
pub open spec fn col_at(s: Seq<u8>, pos: int) -> Result<ColLetter, Errors> {
    match ColLetter::of_char(byte_at(s, pos) as char) {
        Some(l) => Ok(l),
        None => Err(Errors::InvalidColLetter(byte_at(s, pos) as char)),
    }
}

/// The row letter that stands at `pos`.
pub open spec fn row_at(s: Seq<u8>, pos: int) -> Result<RowLetter, Errors> {
    match RowLetter::of_char(byte_at(s, pos) as char) {
        Some(l) => Ok(l),
        None => Err(Errors::InvalidRowLetter(byte_at(s, pos) as char)),
    }
}

/// The digits of easting and northing that stand at `pos` and fill the rest
/// of the text.
///
/// Where one run of digits ends the text, it is cut in half; its eleventh
/// digit, or else the last digit of an odd number of them, is refused as no
/// part of a northing. A byte that is neither digit nor blank is refused as
/// no part of an easting where it follows the first run at once. Where two
/// runs stand, the sixth digit of either is refused, and so is whatever
/// follows the second run but blanks.
pub open spec fn location_at(s: Seq<u8>, pos: int) -> Result<DigitRuns, Errors> {
    let end1 = digits_end(s, pos);
    let next = skip_space(s, end1);
    if next >= s.len() {
        let count = end1 - pos;
        if count > 10 {
            Err(Errors::InvalidNorthingChar(s[pos + 10] as char))
        } else if count % 2 == 1 {
            Err(Errors::InvalidNorthingChar(s[end1 - 1] as char))
        } else {
            Ok(
                DigitRuns {
                    easting: digits_value(s, pos, pos + count / 2) as usize,
                    easting_len: (count / 2) as usize,
                    northing: digits_value(s, pos + count / 2, end1) as usize,
                    northing_len: (count / 2) as usize,
                },
            )
        }
    } else if next == end1 {
        Err(Errors::InvalidEastingChar(s[end1] as char))
    } else {
        let end2 = digits_end(s, next);
        let last = skip_space(s, end2);
        if end1 - pos > 5 {
            Err(Errors::InvalidEastingChar(s[pos + 5] as char))
        } else if end2 - next > 5 {
            Err(Errors::InvalidNorthingChar(s[next + 5] as char))
        } else if last < s.len() {
            Err(Errors::InvalidNorthingChar(s[last] as char))
        } else {
            Ok(
                DigitRuns {
                    easting: digits_value(s, pos, end1) as usize,
                    easting_len: (end1 - pos) as usize,
                    northing: digits_value(s, next, end2) as usize,
                    northing_len: (end2 - next) as usize,
                },
            )
        }
    }
}

/// The precision that the number of digits of the longer run names: ten
/// digits in all, five in the run, name one metre. No digits name none.
pub open spec fn written_accuracy(runs: DigitRuns) -> Option<Accuracy> {
    Accuracy::of_digits(
        2 * (if runs.easting_len >= runs.northing_len {
            runs.easting_len as int
        } else {
            runs.northing_len as int
        }),
    )
}

/// The precision of digits that were read: the one that the digits show as
/// they were written, or, where all are zeros and show none, the one that
/// their number names.
pub open spec fn read_accuracy(runs: DigitRuns) -> Option<Accuracy> {
    match accuracy_of(runs.easting as nat, runs.northing as nat) {
        Some(accuracy) => Some(accuracy),
        None => written_accuracy(runs),
    }
}

/// The grid reference that has the given parts. A run of `k` digits holds
/// the first `k` of the five digits of a number of metres. Where there are
/// no digits at all, the character at which they were to begin is refused.
pub open spec fn assembled(
    zone: u8,
    band: LatBand,
    col: ColLetter,
    row: RowLetter,
    runs: DigitRuns,
    first: u8,
) -> Result<Mgrs, Errors> {
    match read_accuracy(runs) {
        Some(accuracy) => Ok(
            Mgrs {
                gzd: Gzd { zone, band },
                gsid_100k: GridSquareId100k { col, row },
                easting: (runs.easting * run_unit(runs.easting_len as int)) as usize,
                northing: (runs.northing * run_unit(runs.northing_len as int)) as usize,
                accuracy,
            },
        ),
        None => Err(Errors::InvalidEastingChar(first as char)),
    }
}

/// The grid reference that a text spells, or why it spells none.
pub open spec fn parsed(s: Seq<u8>) -> Result<Mgrs, Errors> {
    let at_zone = skip_space(s, 0);
    match zone_at(s, at_zone) {
        Err(e) => Err(e),
        Ok((zone, after_zone)) => {
            let at_band = skip_space(s, after_zone);
            match band_at(s, at_band) {
                Err(e) => Err(e),
                Ok(band) => {
                    let at_col = skip_space(s, at_band + 1);
                    match col_at(s, at_col) {
                        Err(e) => Err(e),
                        Ok(col) => {
                            let at_row = skip_space(s, at_col + 1);
                            match row_at(s, at_row) {
                                Err(e) => Err(e),
                                Ok(row) => {
                                    let at_digits = skip_space(s, at_row + 1);
                                    match location_at(s, at_digits) {
                                        Err(e) => Err(e),
                                        Ok(runs) => assembled(
                                            zone,
                                            band,
                                            col,
                                            row,
                                            runs,
                                            byte_at(s, at_digits),
                                        ),
                                    }
                                },
                            }
                        },
                    }
                },
            }
        },
    }
}

/// Whether `b` is a decimal digit.
pub fn numeric(b: u8) -> (r: bool)
    ensures
        r == is_numeric(b),
{
    48 <= b && b <= 57
}

/// Whether `b` is a band letter, in either case.
pub fn zone_letter(b: u8) -> (r: bool)
    ensures
        r == (LatBand::of_char(b as char) is Some),
{
    ((67 <= b && b <= 88) || (99 <= b && b <= 120)) && !exempt_letters(b)
}

/// Whether `b` is a column letter, in either case.
pub fn col_letter(b: u8) -> (r: bool)
    ensures
        r == (ColLetter::of_char(b as char) is Some),
{
    ((65 <= b && b <= 90) || (97 <= b && b <= 122)) && !exempt_letters(b)
}

/// Whether `b` is a row letter, in either case.
pub fn row_letter(b: u8) -> (r: bool)
    ensures
        r == (RowLetter::of_char(b as char) is Some),
{
    ((65 <= b && b <= 86) || (97 <= b && b <= 118)) && !exempt_letters(b)
}

/// Whether `b` is `I` or `O`, in either case.
pub fn exempt_letters(b: u8) -> (r: bool)
    ensures
        r == is_exempt_letter(b),
{
    b == 73 || b == 79 || b == 111 || b == 105
}

/// Whether `b` is a blank or a control character.
pub fn whitespace(b: u8) -> (r: bool)
    ensures
        r == is_whitespace(b),
{
    b < 33
}

/// Whether a blank or a control character stands among `bytes`.
pub fn contains_whitespace(bytes: &[u8]) -> (r: bool)
    ensures
        r == exists|i: int| 0 <= i < bytes@.len() && is_whitespace(#[trigger] bytes@[i]),
{
    let mut i: usize = 0;
    while i < bytes.len()
        invariant
            i <= bytes@.len(),
            forall|j: int| 0 <= j < i ==> !is_whitespace(#[trigger] bytes@[j]),
        decreases bytes@.len() - i,
    {
        if whitespace(bytes[i]) {
            return true;
        }
        i = i + 1;
    }
    false
}

/// A reader of one grid reference.
#[derive(Debug)]
pub struct MgrsParser<'a> {
    mgrs: &'a [u8],
    pos: usize,
    start: usize,
}

impl<'a> MgrsParser<'a> {
    /// The text that is read.
    pub closed spec fn input(&self) -> Seq<u8> {
        self.mgrs@
    }

    /// The place in the text that the reader has come to.
    pub closed spec fn position(&self) -> int {
        self.pos as int
    }

    /// Whether the reader stands within its text, or at its end.
    pub closed spec fn wf(&self) -> bool {
        self.start <= self.pos <= self.mgrs@.len()
    }

    /// A reader at the beginning of `mgrs`.
    pub fn new(mgrs: &'a [u8]) -> (r: Self)
        ensures
            r.wf(),
            r.input() == mgrs@,
            r.position() == 0,
    {
        MgrsParser { mgrs, pos: 0, start: 0 }
    }

    /// Reads the grid reference.
    pub fn parse(self) -> (r: Result<Mgrs, Errors>)
        requires
            self.wf(),
            self.position() == 0,
        ensures
            r == parsed(self.input()),
            r matches Ok(m) ==> m.wf() && m.is_cut(),
    {
        let mut reader = self;
        reader.stop_at();
        let zone: u8 = match reader.zone_num() {
            Ok(z) => z,
            Err(e) => { return Err(e); },
        };
        reader.stop_at();
        let band: LatBand = match reader.zone_letter() {
            Ok(b) => b,
            Err(e) => { return Err(e); },
        };
        reader.stop_at();
        let col: ColLetter = match reader.col_letter() {
            Ok(l) => l,
            Err(e) => { return Err(e); },
        };
        reader.stop_at();
        let row: RowLetter = match reader.row_letter() {
            Ok(l) => l,
            Err(e) => { return Err(e); },
        };
        reader.stop_at();
        let first: u8 = reader.peek();
        let runs: DigitRuns = match reader.location() {
            Ok(d) => d,
            Err(e) => { return Err(e); },
        };
        assemble(zone, band, col, row, runs, first)
    }

    /// The byte at which the reader stands, or NUL at the end of the text.
    fn peek(&self) -> (b: u8)
        requires
            self.wf(),
        ensures
            b == byte_at(self.mgrs@, self.pos as int),
            self.mgrs@.len() <= usize::MAX,
    {
        let _ = self.mgrs.len();
        if self.pos < self.mgrs.len() {
            self.mgrs[self.pos]
        } else {
            0
        }
    }

    /// Moves on to the next byte that is no blank, or to the end.
    fn stop_at(&mut self)
        requires
            old(self).wf(),
        ensures
            final(self).wf(),
            final(self).mgrs == old(self).mgrs,
            final(self).pos == skip_space(old(self).mgrs@, old(self).pos as int),
            final(self).start == final(self).pos,
    {
        let ghost from: int = self.pos as int;
        while self.pos < self.mgrs.len() && whitespace(self.mgrs[self.pos])
            invariant
                self.mgrs == old(self).mgrs,
                from <= self.pos <= self.mgrs@.len(),
                skip_space(self.mgrs@, from) == skip_space(self.mgrs@, self.pos as int),
            decreases self.mgrs@.len() - self.pos,
        {
            self.pos = self.pos + 1;
        }
        self.start = self.pos;
    }

    /// The end of the run of digits that begins at `from`.
    fn run_end(&self, from: usize) -> (end: usize)
        requires
            from <= self.mgrs@.len(),
        ensures
            end == digits_end(self.mgrs@, from as int),
            from <= end <= self.mgrs@.len(),
            forall|i: int| from <= i < end ==> is_numeric(#[trigger] self.mgrs@[i]),
    {
        let mut end: usize = from;
        while end < self.mgrs.len() && numeric(self.mgrs[end])
            invariant
                from <= end <= self.mgrs@.len(),
                digits_end(self.mgrs@, from as int) == digits_end(self.mgrs@, end as int),
                forall|i: int| from <= i < end ==> is_numeric(#[trigger] self.mgrs@[i]),
            decreases self.mgrs@.len() - end,
        {
            end = end + 1;
        }
        end
    }

    /// The end of the blanks that begin at `from`.
    fn space_end(&self, from: usize) -> (end: usize)
        requires
            from <= self.mgrs@.len(),
        ensures
            end == skip_space(self.mgrs@, from as int),
            from <= end <= self.mgrs@.len(),
    {
        let mut end: usize = from;
        while end < self.mgrs.len() && whitespace(self.mgrs[end])
            invariant
                from <= end <= self.mgrs@.len(),
                skip_space(self.mgrs@, from as int) == skip_space(self.mgrs@, end as int),
            decreases self.mgrs@.len() - end,
        {
            end = end + 1;
        }
        end
    }

    /// The number that the digits from `from` to `to` spell.
    fn number(&self, from: usize, to: usize) -> (r: usize)
        requires
            from <= to <= self.mgrs@.len(),
            to - from <= 5,
            forall|i: int| from <= i < to ==> is_numeric(#[trigger] self.mgrs@[i]),
        ensures
            r == digits_value(self.mgrs@, from as int, to as int),
            r < run_cap(to - from),
            r * run_unit(to - from) < 100_000,
    {
        let mut value: usize = 0;
        let mut i: usize = from;
        while i < to
            invariant
                from <= i <= to <= self.mgrs@.len(),
                to - from <= 5,
                forall|j: int| from <= j < to ==> is_numeric(#[trigger] self.mgrs@[j]),
                value == digits_value(self.mgrs@, from as int, i as int),
                value < run_cap(i - from),
            decreases to - i,
        {
            assert(is_numeric(self.mgrs@[i as int]));
            value = value * 10 + (self.mgrs[i] - 48) as usize;
            i = i + 1;
        }
        proof {
            lemma_run_fits(value as int, to - from);
        }
        value
    }

    /// Reads the zone number.
    fn zone_num(&mut self) -> (r: Result<u8, Errors>)
        requires
            old(self).wf(),
        ensures
            final(self).wf(),
            final(self).mgrs == old(self).mgrs,
            match zone_at(old(self).mgrs@, old(self).pos as int) {
                Ok((zone, next)) => r == Ok::<u8, Errors>(zone) && final(self).pos == next,
                Err(e) => r == Err::<u8, Errors>(e),
            },
    {
        self.start = self.pos;
        let first: u8 = self.peek();
        if !numeric(first) {
            return Err(Errors::InvalidZoneLetter(first as char));
        }
        let mut zone: u8 = first - 48;
        self.pos = self.pos + 1;
        let second: u8 = self.peek();
        if numeric(second) {
            zone = zone * 10 + (second - 48);
            self.pos = self.pos + 1;
        }
        if 1 <= zone && zone <= 60 {
            Ok(zone)
        } else {
            Err(Errors::InvalidZoneLetter(first as char))
        }
    }

    /// Reads the band letter.
    fn zone_letter(&mut self) -> (r: Result<LatBand, Errors>)
        requires
            old(self).wf(),
        ensures
            final(self).wf(),
            final(self).mgrs == old(self).mgrs,
            r == band_at(old(self).mgrs@, old(self).pos as int),
            r is Ok ==> final(self).pos == old(self).pos + 1,
    {
        let b: u8 = self.peek();
        if !zone_letter(b) {
            return Err(Errors::InvalidLatitudeBand(b as char));
        }
        self.pos = self.pos + 1;
        LatBand::from_char(b as char)
    }

    /// Reads the column letter.
    fn col_letter(&mut self) -> (r: Result<ColLetter, Errors>)
        requires
            old(self).wf(),
        ensures
            final(self).wf(),
            final(self).mgrs == old(self).mgrs,
            r == col_at(old(self).mgrs@, old(self).pos as int),
            r is Ok ==> final(self).pos == old(self).pos + 1,
    {
        let b: u8 = self.peek();
        if !col_letter(b) {
            return Err(Errors::InvalidColLetter(b as char));
        }
        self.pos = self.pos + 1;
        ColLetter::from_char(b as char)
    }

    /// Reads the row letter.
    fn row_letter(&mut self) -> (r: Result<RowLetter, Errors>)
        requires
            old(self).wf(),
        ensures
            final(self).wf(),
            final(self).mgrs == old(self).mgrs,
            r == row_at(old(self).mgrs@, old(self).pos as int),
            r is Ok ==> final(self).pos == old(self).pos + 1,
    {
        let b: u8 = self.peek();
        if !row_letter(b) {
            return Err(Errors::InvalidRowLetter(b as char));
        }
        self.pos = self.pos + 1;
        RowLetter::from_char(b as char)
    }

    /// Reads the digits of easting and northing, to the end of the text.
    fn location(&mut self) -> (r: Result<DigitRuns, Errors>)
        requires
            old(self).wf(),
        ensures
            final(self).wf(),
            final(self).mgrs == old(self).mgrs,
            r == location_at(old(self).mgrs@, old(self).pos as int),
            r matches Ok(d) ==> d.easting_len <= 5 && d.northing_len <= 5 && d.easting * run_unit(
                d.easting_len as int,
            ) < 100_000 && d.northing * run_unit(d.northing_len as int) < 100_000,
    {
        self.start = self.pos;
        let from: usize = self.pos;
        let end1: usize = self.run_end(from);
        let next: usize = self.space_end(end1);
        if next >= self.mgrs.len() {
            let count: usize = end1 - from;
            if count > 10 {
                return Err(Errors::InvalidNorthingChar(self.mgrs[from + 10] as char));
            }
            if count % 2 == 1 {
                return Err(Errors::InvalidNorthingChar(self.mgrs[end1 - 1] as char));
            }
            let half: usize = count / 2;
            let e: usize = self.number(from, from + half);
            let n: usize = self.number(from + half, end1);
            self.pos = next;
            Ok(DigitRuns { easting: e, easting_len: half, northing: n, northing_len: half })
        } else if next == end1 {
            Err(Errors::InvalidEastingChar(self.mgrs[end1] as char))
        } else {
            let end2: usize = self.run_end(next);
            let last: usize = self.space_end(end2);
            if end1 - from > 5 {
                return Err(Errors::InvalidEastingChar(self.mgrs[from + 5] as char));
            }
            if end2 - next > 5 {
                return Err(Errors::InvalidNorthingChar(self.mgrs[next + 5] as char));
            }
            if last < self.mgrs.len() {
                return Err(Errors::InvalidNorthingChar(self.mgrs[last] as char));
            }
            let e: usize = self.number(from, end1);
            self.start = next;
            let n: usize = self.number(next, end2);
            self.pos = last;
            Ok(
                DigitRuns {
                    easting: e,
                    easting_len: end1 - from,
                    northing: n,
                    northing_len: end2 - next,
                },
            )
        }
    }
}

/// What one unit of a run of `k` digits is worth in metres.
fn unit_of_run(k: usize) -> (r: usize)
    ensures
        r == run_unit(k as int),
{
    if k >= 5 {
        1
    } else if k == 4 {
        10
    } else if k == 3 {
        100
    } else if k == 2 {
        1000
    } else if k == 1 {
        10000
    } else {
        100000
    }
}

/// Puts the parts of a grid reference together, once all are read. `first`
/// is the byte at which the location began.
pub fn assemble(
    zone: u8,
    band: LatBand,
    col: ColLetter,
    row: RowLetter,
    runs: DigitRuns,
    first: u8,
) -> (r: Result<Mgrs, Errors>)
    requires
        runs.easting * run_unit(runs.easting_len as int) < 100_000,
        runs.northing * run_unit(runs.northing_len as int) < 100_000,
    ensures
        r == assembled(zone, band, col, row, runs, first),
        r matches Ok(m) ==> (m.gzd.wf() <==> m.wf()) && m.is_cut(),
{
    let ue: usize = unit_of_run(runs.easting_len);
    let un: usize = unit_of_run(runs.northing_len);
    proof {
        let e = runs.easting as int;
        let n = runs.northing as int;
        assert(e <= e * ue) by (nonlinear_arith)
            requires
                0 <= e,
                1 <= ue,
        ;
        assert(n <= n * un) by (nonlinear_arith)
            requires
                0 <= n,
                1 <= un,
        ;
        lemma_accuracy_by_division(e as nat, n as nat);
    }
    let accuracy: Accuracy = match get_accuracy(runs.easting, runs.northing) {
        Some(a) => a,
        None => {
            let longer: usize = if runs.easting_len >= runs.northing_len {
                runs.easting_len
            } else {
                runs.northing_len
            };
            let written: Option<Accuracy> = if longer <= 5 {
                Accuracy::from_num_digits(2 * longer)
            } else {
                None
            };
            match written {
                Some(a) => a,
                None => { return Err(Errors::InvalidEastingChar(first as char)); },
            }
        },
    };
    proof {
        lemma_scaled_multiple(runs.easting as int, ue as int, accuracy.meters() as int);
        lemma_scaled_multiple(runs.northing as int, un as int, accuracy.meters() as int);
    }
    Ok(
        Mgrs {
            gzd: Gzd { zone, band },
            gsid_100k: GridSquareId100k { col, row },
            easting: runs.easting * ue,
            northing: runs.northing * un,
            accuracy,
        },
    )
}

/// What `k` digits spell, counted in units of a run of `k` digits, is less
/// than 100 km.
proof fn lemma_run_fits(value: int, k: int)
    requires
        0 <= k <= 5,
        0 <= value < run_cap(k),
    ensures
        value * run_unit(k) < 100_000,
{
    if k == 0 {
        assert(value * 100_000 < 100_000);
    } else if k == 1 {
        assert(value * 10_000 < 100_000);
    } else if k == 2 {
        assert(value * 1000 < 100_000);
    } else if k == 3 {
        assert(value * 100 < 100_000);
    } else if k == 4 {
        assert(value * 10 < 100_000);
    } else {
        assert(value * 1 < 100_000);
    }
}

/// A multiple of a power of ten stays one when it is multiplied by a power
/// of ten.
proof fn lemma_scaled_multiple(x: int, scale: int, unit: int)
    requires
        0 <= x,
        scale == 1 || scale == 10 || scale == 100 || scale == 1000 || scale == 10000 || scale
            == 100000,
        unit == 1 || unit == 10 || unit == 100 || unit == 1000 || unit == 10000,
    ensures
        x % unit == 0 ==> is_multiple(x * scale, unit),
        is_multiple(x, 1),
        is_multiple(x, unit) == (x % unit == 0),
{
    if x % unit == 0 {
        let q = x / unit;
        assert(x == q * unit);
        assert(x * scale == (q * scale) * unit) by (nonlinear_arith)
            requires
                x == q * unit,
        ;
        assert(((q * scale) * unit) % unit == 0) by (nonlinear_arith)
            requires
                unit > 0,
        ;
    }
}

impl Mgrs {
    /// The grid reference that `s` spells.
    pub fn from_str(s: &str) -> (r: Result<Mgrs, Errors>)
        ensures
            r == parsed(s.spec_bytes()),
            r matches Ok(m) ==> m.wf() && m.is_cut(),
    {
        MgrsParser::new(s.as_bytes()).parse()
    }
}

} // verus!
