//! Grid zone designators and the two-letter names of the 100 km squares.

use vstd::prelude::*;
use crate::band::LatBand;
use crate::col::{is_col_code, letter_place, ColLetter};
use crate::row::{is_row_code, lemma_row_shift, RowLetter};

verus! {

/// A grid zone designator such as `28F`: a zone number and a latitude band.
#[derive(Debug, Copy, Clone, PartialEq, Eq, Structural)]
pub struct Gzd {
    /// The longitudinal zone, 6° wide: 1 to 60, eastwards from 180°W.
    pub zone: u8,
    /// The latitude band.
    pub band: LatBand,
}

impl Gzd {
    /// Whether the zone number is one of the 60 zones.
    pub open spec fn wf(self) -> bool {
        1 <= self.zone <= 60
    }
}

/// The name of a 100 km square within a grid zone, such as `FD`.
#[derive(Debug, Copy, Clone, PartialEq, Eq, Structural)]
pub struct GridSquareId100k {
    /// The letter of the column.
    pub col: ColLetter,
    /// The letter of the row.
    pub row: RowLetter,
}

/// No grid letter is `I` or `O`, and neither is read as one: each column,
/// row and band letter has another character, reading `I` or `O` in either
/// case gives no letter, and the count from the origin of a set reaches
/// neither.
pub proof fn lemma_letter_exclusion(
    c: char,
    set: int,
    col: ColLetter,
    row: RowLetter,
    band: LatBand,
)
    ensures
        col.letter() != 'I' && col.letter() != 'O',
        row.letter() != 'I' && row.letter() != 'O',
        band.letter() != 'I' && band.letter() != 'O',
        c == 'I' || c == 'O' || c == 'i' || c == 'o' ==> {
            &&& ColLetter::of_char(c) is None
            &&& RowLetter::of_char(c) is None
            &&& LatBand::of_char(c) is None
            &&& ColLetter::counted_easting(c, set) is Err
            &&& RowLetter::counted_northing(c, set) is Err
        },
        ColLetter::of_char(c) matches Some(l) ==> l.letter() != 'I' && l.letter() != 'O',
        RowLetter::of_char(c) matches Some(l) ==> l.letter() != 'I' && l.letter() != 'O',
{
}

/// The character code of the letter of column `column` (1 to 8), counted
/// from the origin letter of a set of columns.
///
/// The count runs over the codes of all 26 letters first; then `I` and `O`
/// are stepped over where the count has passed them, and a count beyond `Z`
/// goes on at `A`.
fn column_code(col_origin: u8, column: u8) -> (col_int: u8)
    requires
        col_origin == 65 || col_origin == 74 || col_origin == 83,
        1 <= column <= 8,
    ensures
        is_col_code(col_int as int),
        letter_place(col_int as int) == letter_place(col_origin as int) + column - 1,
{
    let mut col_int: u8 = col_origin + column - 1;
    let mut rollover: bool = false;

    if col_int > 90 {
        col_int = col_int - 90 + 65 - 1;
        rollover = true;
    }
    if col_int == 73 || (col_origin < 73 && col_int > 73) || ((col_int > 73 || col_origin < 73)
        && rollover) {
        col_int = col_int + 1;
    }
    if col_int == 79 || (col_origin < 79 && col_int > 79) || ((col_int > 79 || col_origin < 79)
        && rollover) {
        col_int = col_int + 1;
        if col_int == 73 {
            col_int = col_int + 1;
        }
    }
    if col_int > 90 {
        col_int = col_int - 90 + 65 - 1;
    }
    col_int
}

/// The character code of the letter of row `row` (0 to 19), counted from
/// the origin letter of a set of rows, in the same way; a count beyond `V`
/// goes on at `A`.
fn row_code(row_origin: u8, row: u8) -> (row_int: u8)
    requires
        row_origin == 65 || row_origin == 70,
        row <= 19,
    ensures
        is_row_code(row_int as int),
        letter_place(row_int as int) == (letter_place(row_origin as int) + row) % 20,
{
    let mut row_int: u8 = row_origin + row;
    let rollover: bool;

    if row_int > 86 {
        row_int = row_int - 86 + 65 - 1;
        rollover = true;
    } else {
        rollover = false;
    }
    if row_int == 73 || (row_origin < 73 && row_int > 73) || ((row_int > 73 || row_origin < 73)
        && rollover) {
        row_int = row_int + 1;
    }
    if row_int == 79 || (row_origin < 79 && row_int > 79) || ((row_int > 79 || row_origin < 79)
        && rollover) {
        row_int = row_int + 1;
        if row_int == 73 {
            row_int = row_int + 1;
        }
    }
    if row_int > 86 {
        row_int = row_int - 86 + 65 - 1;
    }
    row_int
}

impl GridSquareId100k {
    /// The name of the square in column `column` (1 to 8) and row `row` (0
    /// to 19) of a zone. `parm` is the number of the zone (1 to 60) or of
    /// its set (1 to 6), which give the same letters.
    pub fn new(column: u32, row: u32, parm: usize) -> (r: GridSquareId100k)
        requires
            1 <= column <= 8,
            row <= 19,
            1 <= parm <= 60,
        ensures
            Some(r.col) == ColLetter::of_set_and_index((parm - 1) % 3, column - 1),
            Some(r.row) == RowLetter::of_set_and_index((parm - 1) % 2, row as int),
            r.col.place_in_set((parm - 1) % 3) == Some((column - 1) as nat),
            r.row.place_in_set((parm - 1) % 2) == Some(row as nat),
    {
        // the letters at the origin of the set of the zone
        let index: usize = (parm - 1) % 6;
        let col_origin: u8 = match index % 3 {
            0 => 65,
            1 => 74,
            _ => 83,
        };
        let row_origin: u8 = match index % 2 {
            0 => 65,
            _ => 70,
        };
        let col_int: u8 = column_code(col_origin, column as u8);
        let row_int: u8 = row_code(row_origin, row as u8);
        proof {
            ColLetter::lemma_of_code(col_int);
            RowLetter::lemma_of_code(row_int);
            lemma_row_shift(letter_place(row_int as int));
        }
        let col: ColLetter = match ColLetter::from_u32(col_int as u32) {
            Some(l) => l,
            None => ColLetter::A,
        };
        let row_letter: RowLetter = match RowLetter::from_u32(row_int as u32) {
            Some(l) => l,
            None => RowLetter::A,
        };
        proof {
            col.lemma_ordinal();
            row_letter.lemma_ordinal();
        }
        GridSquareId100k { col, row: row_letter }
    }
}

} // verus!
