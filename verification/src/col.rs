//! Column letters of the 100 km grid squares.

use vstd::prelude::*;
use vstd::std_specs::convert::FromSpecImpl;
use vstd::string::StringSliceAdditionalSpecFns;
use crate::errors::Errors;
use crate::text::byte_at;

verus! {

/// The column letter of a 100 km square: `A` to `Z` without `I` and `O`.
///
/// The 24 letters fall into three sets of eight, `A`-`H`, `J`-`R` and
/// `S`-`Z`. The columns of zone 1 are lettered from the first set, those of
/// zone 2 from the second, those of zone 3 from the third, and so on in
/// turn.
#[derive(Debug, Copy, Clone, PartialEq, Eq, Structural)]
pub enum ColLetter {
    A, B, C, D, E, F, G, H, J, K, L, M, N, P, Q, R, S, T, U, V, W, X, Y, Z,
}

/// Whether `code` is the character code of an upper-case column letter.
pub open spec fn is_col_code(code: int) -> bool {
    65 <= code <= 90 && code != 73 && code != 79
}

/// The place in the alphabet without `I` and `O` of the upper-case letter
/// with the given character code, counted from `A` at 0.
pub open spec fn letter_place(code: int) -> int {
    code - 65 - (if code > 73 { 1int } else { 0 }) - (if code > 79 { 1int } else { 0 })
}

/// The place in the alphabet without `I` and `O` of the letter at which the
/// columns of a set begin. Sets are numbered from 1 to 6, as
/// [`crate::get_100k_set_for_zone`] numbers them.
pub open spec fn col_origin_place(set: int) -> int {
    8 * ((set - 1) % 3)
}

/// The upper-case letter at which the columns of a set begin: `A`, `J` or
/// `S`.
pub fn col_origin_letter(set: u8) -> (r: u8)
    requires
        1 <= set <= 6,
    ensures
        is_col_code(r as int),
        letter_place(r as int) == col_origin_place(set as int),
        r == 65 || r == 74 || r == 83,
{
    match (set - 1) % 3 {
        0 => 65,
        1 => 74,
        _ => 83,
    }
}

impl ColLetter {
    /// A letter is the one at its place.
    pub proof fn lemma_ordinal(self)
        ensures
            Self::of_ordinal(self.ordinal() as int) == Some(self),
            self.ordinal() < 24,
            is_col_code(self.letter() as int),
            letter_place(self.letter() as int) == self.ordinal(),
            Self::of_char(self.letter()) == Some(self),
            Self::of_char((self.letter() as u8) as char) == Some(self),
    {
    }

    /// The upper-case letter with a character code is the one at the place
    /// of that code.
    pub proof fn lemma_of_code(code: u8)
        requires
            is_col_code(code as int),
        ensures
            Self::of_char(code as char) == Self::of_ordinal(letter_place(code as int)),
            Self::of_char(code as char) is Some,
            Self::of_char(code as char).unwrap().ordinal() == letter_place(code as int),
    {
    }

    /// The place of the letter in the alphabet without `I` and `O`, from 0
    /// for `A` to 23 for `Z`.
    pub open spec fn ordinal(self) -> nat {
        match self {
            ColLetter::A => 0, ColLetter::B => 1, ColLetter::C => 2, ColLetter::D => 3,
            ColLetter::E => 4, ColLetter::F => 5, ColLetter::G => 6, ColLetter::H => 7,
            ColLetter::J => 8, ColLetter::K => 9, ColLetter::L => 10, ColLetter::M => 11,
            ColLetter::N => 12, ColLetter::P => 13, ColLetter::Q => 14, ColLetter::R => 15,
            ColLetter::S => 16, ColLetter::T => 17, ColLetter::U => 18, ColLetter::V => 19,
            ColLetter::W => 20, ColLetter::X => 21, ColLetter::Y => 22, ColLetter::Z => 23,
        }
    }

    /// The upper-case character of the letter.
    pub open spec fn letter(self) -> char {
        match self {
            ColLetter::A => 'A', ColLetter::B => 'B', ColLetter::C => 'C', ColLetter::D => 'D',
            ColLetter::E => 'E', ColLetter::F => 'F', ColLetter::G => 'G', ColLetter::H => 'H',
            ColLetter::J => 'J', ColLetter::K => 'K', ColLetter::L => 'L', ColLetter::M => 'M',
            ColLetter::N => 'N', ColLetter::P => 'P', ColLetter::Q => 'Q', ColLetter::R => 'R',
            ColLetter::S => 'S', ColLetter::T => 'T', ColLetter::U => 'U', ColLetter::V => 'V',
            ColLetter::W => 'W', ColLetter::X => 'X', ColLetter::Y => 'Y', ColLetter::Z => 'Z',
        }
    }

    /// The letter at the given place, if there is one.
    pub open spec fn of_ordinal(i: int) -> Option<ColLetter> {
        if i == 0 { Some(ColLetter::A) }
        else if i == 1 { Some(ColLetter::B) }
        else if i == 2 { Some(ColLetter::C) }
        else if i == 3 { Some(ColLetter::D) }
        else if i == 4 { Some(ColLetter::E) }
        else if i == 5 { Some(ColLetter::F) }
        else if i == 6 { Some(ColLetter::G) }
        else if i == 7 { Some(ColLetter::H) }
        else if i == 8 { Some(ColLetter::J) }
        else if i == 9 { Some(ColLetter::K) }
        else if i == 10 { Some(ColLetter::L) }
        else if i == 11 { Some(ColLetter::M) }
        else if i == 12 { Some(ColLetter::N) }
        else if i == 13 { Some(ColLetter::P) }
        else if i == 14 { Some(ColLetter::Q) }
        else if i == 15 { Some(ColLetter::R) }
        else if i == 16 { Some(ColLetter::S) }
        else if i == 17 { Some(ColLetter::T) }
        else if i == 18 { Some(ColLetter::U) }
        else if i == 19 { Some(ColLetter::V) }
        else if i == 20 { Some(ColLetter::W) }
        else if i == 21 { Some(ColLetter::X) }
        else if i == 22 { Some(ColLetter::Y) }
        else if i == 23 { Some(ColLetter::Z) }
        else { None }
    }

    /// The letter that a character names, in either case.
    pub open spec fn of_char(c: char) -> Option<ColLetter> {
        match c {
            'A' | 'a' => Some(ColLetter::A), 'B' | 'b' => Some(ColLetter::B),
            'C' | 'c' => Some(ColLetter::C), 'D' | 'd' => Some(ColLetter::D),
            'E' | 'e' => Some(ColLetter::E), 'F' | 'f' => Some(ColLetter::F),
            'G' | 'g' => Some(ColLetter::G), 'H' | 'h' => Some(ColLetter::H),
            'J' | 'j' => Some(ColLetter::J), 'K' | 'k' => Some(ColLetter::K),
            'L' | 'l' => Some(ColLetter::L), 'M' | 'm' => Some(ColLetter::M),
            'N' | 'n' => Some(ColLetter::N), 'P' | 'p' => Some(ColLetter::P),
            'Q' | 'q' => Some(ColLetter::Q), 'R' | 'r' => Some(ColLetter::R),
            'S' | 's' => Some(ColLetter::S), 'T' | 't' => Some(ColLetter::T),
            'U' | 'u' => Some(ColLetter::U), 'V' | 'v' => Some(ColLetter::V),
            'W' | 'w' => Some(ColLetter::W), 'X' | 'x' => Some(ColLetter::X),
            'Y' | 'y' => Some(ColLetter::Y), 'Z' | 'z' => Some(ColLetter::Z),
            _ => None,
        }
    }

    /// The place of the letter within the set of eight numbered `set` (0, 1
    /// or 2), if the letter belongs to that set.
    pub open spec fn place_in_set(self, set: int) -> Option<nat> {
        if 0 <= set < 3 && 8 * set <= self.ordinal() < 8 * set + 8 {
            Some((self.ordinal() - 8 * set) as nat)
        } else {
            None
        }
    }

    /// The letter at place `index` of the set of eight numbered `set`.
    pub open spec fn of_set_and_index(set: int, index: int) -> Option<ColLetter> {
        if 0 <= set < 3 && 0 <= index < 8 {
            Self::of_ordinal(8 * set + index)
        } else {
            None
        }
    }

    /// The number of the 100 km column in which an easting lies, counted
    /// from 0 for the column that begins at 100 km; there are eight columns.
    pub open spec fn column_of_easting(easting: int) -> Option<nat> {
        if 100_000 <= easting < 900_000 {
            Some((easting / 100_000 - 1) as nat)
        } else {
            None
        }
    }

    /// The letter of the column in which an easting lies, in a zone.
    pub open spec fn of_zone_and_easting(zone: int, easting: int) -> Option<ColLetter> {
        match Self::column_of_easting(easting) {
            Some(i) => Self::of_set_and_index((zone - 1) % 3, i as int),
            None => None,
        }
    }

    /// The easting in metres at which the column of this letter begins,
    /// counted by letters from the origin of a set (1 to 6): the origin
    /// letter stands at 100 km, each further letter 100 km to the east, and
    /// after `Z` the count goes on at `A`.
    pub open spec fn easting_in_set(self, set: int) -> nat {
        (100_000 * (1 + (self.ordinal() - col_origin_place(set)) % 24)) as nat
    }

    /// What counting from the origin of a set gives for any character: the
    /// easting for an upper-case column letter, a refusal for anything else.
    pub open spec fn counted_easting(c: char, set: int) -> Result<u32, Errors> {
        if c == 'I' || c == 'O' {
            Err(Errors::InvalidColLetter(c))
        } else if is_col_code(c as int) {
            Ok((100_000 * (1 + (letter_place(c as int) - col_origin_place(set)) % 24)) as u32)
        } else {
            Err(Errors::InvalidEastingChar(c))
        }
    }

    /// The place of the letter in the alphabet without `I` and `O`.
    pub fn index(&self) -> (r: usize)
        ensures
            r == self.ordinal(),
            r < 24,
    {
        match *self {
            ColLetter::A => 0, ColLetter::B => 1, ColLetter::C => 2, ColLetter::D => 3,
            ColLetter::E => 4, ColLetter::F => 5, ColLetter::G => 6, ColLetter::H => 7,
            ColLetter::J => 8, ColLetter::K => 9, ColLetter::L => 10, ColLetter::M => 11,
            ColLetter::N => 12, ColLetter::P => 13, ColLetter::Q => 14, ColLetter::R => 15,
            ColLetter::S => 16, ColLetter::T => 17, ColLetter::U => 18, ColLetter::V => 19,
            ColLetter::W => 20, ColLetter::X => 21, ColLetter::Y => 22, ColLetter::Z => 23,
        }
    }

    /// The letter at place `i`; `None` where `i` is 24 or more.
    pub fn from_index(i: usize) -> (r: Option<Self>)
        ensures
            r == Self::of_ordinal(i as int),
            r is Some <==> i < 24,
            r matches Some(l) ==> l.ordinal() == i,
    {
        match i {
            0 => Some(ColLetter::A), 1 => Some(ColLetter::B), 2 => Some(ColLetter::C),
            3 => Some(ColLetter::D), 4 => Some(ColLetter::E), 5 => Some(ColLetter::F),
            6 => Some(ColLetter::G), 7 => Some(ColLetter::H), 8 => Some(ColLetter::J),
            9 => Some(ColLetter::K), 10 => Some(ColLetter::L), 11 => Some(ColLetter::M),
            12 => Some(ColLetter::N), 13 => Some(ColLetter::P), 14 => Some(ColLetter::Q),
            15 => Some(ColLetter::R), 16 => Some(ColLetter::S), 17 => Some(ColLetter::T),
            18 => Some(ColLetter::U), 19 => Some(ColLetter::V), 20 => Some(ColLetter::W),
            21 => Some(ColLetter::X), 22 => Some(ColLetter::Y), 23 => Some(ColLetter::Z),
            _ => None,
        }
    }

    /// The easting in metres at which the column of this letter begins in a
    /// zone; refused where the zone has no column of this letter.
    pub fn as_meters_from_zone(&self, zone: u8) -> (r: Result<usize, Errors>)
        requires
            1 <= zone <= 60,
        ensures
            r == match self.place_in_set((zone - 1) % 3) {
                Some(i) => Ok::<usize, Errors>(((i + 1) * 100_000) as usize),
                None => Err::<usize, Errors>(Errors::InvalidColLetter(self.letter())),
            },
    {
        match self.index_from_set((zone - 1) % 3) {
            Ok(i) => Ok((i + 1) * 100_000),
            Err(e) => Err(e),
        }
    }

    /// The number of the 100 km column in which an easting lies: 0 for
    /// eastings from 100 km, up to 7 for eastings below 900 km. `None` for
    /// any other easting.
    pub fn index_for_easting(easting: i32) -> (r: Option<u8>)
        ensures
            r == match Self::column_of_easting(easting as int) {
                Some(i) => Some(i as u8),
                None => None,
            },
            r is Some <==> 100_000 <= easting < 900_000,
            r matches Some(i) ==> i < 8 && (i + 1) * 100_000 <= easting < (i + 2) * 100_000,
    {
        if 100_000 <= easting && easting < 900_000 {
            Some((easting / 100_000 - 1) as u8)
        } else {
            None
        }
    }

    /// The letter of column `index` (0 to 7) in a zone.
    pub fn letter_at(zone: u8, index: u8) -> (r: Option<Self>)
        requires
            1 <= zone <= 60,
        ensures
            r == Self::of_set_and_index((zone - 1) % 3, index as int),
            r is Some <==> index < 8,
    {
        ColLetter::from_set_and_index((zone - 1) % 3, index)
    }

    /// The letter of the column in which an easting lies, in a zone.
    pub fn from_zone_and_easting(zone: u8, easting: i32) -> (r: Option<Self>)
        requires
            1 <= zone <= 60,
        ensures
            r == Self::of_zone_and_easting(zone as int, easting as int),
            r is Some <==> 100_000 <= easting < 900_000,
            r matches Some(l) ==> l.place_in_set((zone - 1) % 3) == Some(
                (easting / 100_000 - 1) as nat,
            ),
    {
        match ColLetter::index_for_easting(easting) {
            Some(i) => ColLetter::letter_at(zone, i),
            None => None,
        }
    }

    /// The place of the letter within the set numbered `set` (0, 1 or 2);
    /// refused where the letter is not one of that set, or there is no such
    /// set.
    pub fn index_from_set(&self, set: u8) -> (r: Result<usize, Errors>)
        ensures
            r == match self.place_in_set(set as int) {
                Some(i) => Ok::<usize, Errors>(i as usize),
                None => Err::<usize, Errors>(Errors::InvalidColLetter(self.letter())),
            },
            r matches Ok(i) ==> i < 8 && Self::of_set_and_index(set as int, i as int) == Some(
                *self,
            ),
    {
        let place: usize = self.index();
        if set < 3 && place / 8 == set as usize {
            Ok(place % 8)
        } else {
            Err(Errors::InvalidColLetter(self.as_char()))
        }
    }

    /// The letter at place `index` (0 to 7) of the set numbered `set` (0, 1
    /// or 2); `None` where there is no such place or set.
    pub fn from_set_and_index(set: u8, index: u8) -> (r: Option<Self>)
        ensures
            r == Self::of_set_and_index(set as int, index as int),
            r is Some <==> set < 3 && index < 8,
            r matches Some(l) ==> l.place_in_set(set as int) == Some(index as nat),
    {
        if set < 3 && index < 8 {
            Self::from_index(8 * (set as usize) + index as usize)
        } else {
            None
        }
    }

    /// The easting in metres at which the column of this letter begins,
    /// counted by letters from the origin of the set (1 to 6).
    pub fn get_easting_with_set(&self, set: u8) -> (r: Result<u32, Errors>)
        requires
            1 <= set <= 6,
        ensures
            r == Ok::<u32, Errors>(self.easting_in_set(set as int) as u32),
            100_000 <= self.easting_in_set(set as int) <= 2_400_000,
    {
        Self::easting_for_char(self.as_char(), set)
    }

    /// Counts from the origin letter of the set (1 to 6) to `c`, a step of
    /// 100 km for each letter, leaving out `I` and `O` and going on at `A`
    /// after `Z` at most once.
    ///
    /// `I` and `O` are refused as no column letters; any other character
    /// that the count does not reach is refused as no part of an easting.
    pub fn easting_for_char(c: char, set: u8) -> (r: Result<u32, Errors>)
        requires
            1 <= set <= 6,
        ensures
            r == Self::counted_easting(c, set as int),
            r is Ok <==> is_col_code(c as int),
    {
        if c == 'I' || c == 'O' {
            return Err(Errors::InvalidColLetter(c));
        }
        let target: u32 = c as u32;
        let ghost origin: int = col_origin_place(set as int);
        let ghost goal: int = letter_place(target as int);
        let ghost valid: bool = is_col_code(target as int);
        let mut cur: u8 = col_origin_letter(set);
        let mut easting: u32 = 100_000;
        let mut rewound: bool = false;
        while cur as u32 != target
            invariant
                target == c as u32,
                target != 73 && target != 79,
                origin == col_origin_place(set as int),
                origin == 0 || origin == 8 || origin == 16,
                goal == letter_place(target as int),
                valid == is_col_code(target as int),
                is_col_code(cur as int),
                !rewound ==> letter_place(cur as int) >= origin && easting == 100_000 * (1
                    + letter_place(cur as int) - origin),
                rewound ==> easting == 100_000 * (25 + letter_place(cur as int) - origin),
                valid && !rewound && goal >= origin ==> letter_place(cur as int) <= goal,
                valid && rewound ==> goal < origin && letter_place(cur as int) <= goal,
            decreases (if rewound { 0int } else { 24 }) + 23 - letter_place(cur as int),
        {
            cur = cur + 1;
            if cur == 73 {
                cur = cur + 1;
            }
            if cur == 79 {
                cur = cur + 1;
            }
            if cur > 90 {
                if rewound {
                    return Err(Errors::InvalidEastingChar(c));
                }
                cur = 65;
                rewound = true;
            }
            easting = easting + 100_000;
        }
        Ok(easting)
    }

    /// The upper-case character of the letter.
    pub fn as_char(&self) -> (r: char)
        ensures
            r == self.letter(),
            Self::of_char(r) == Some(*self),
            is_col_code(r as int),
            letter_place(r as int) == self.ordinal(),
    {
        match *self {
            ColLetter::A => 'A', ColLetter::B => 'B', ColLetter::C => 'C', ColLetter::D => 'D',
            ColLetter::E => 'E', ColLetter::F => 'F', ColLetter::G => 'G', ColLetter::H => 'H',
            ColLetter::J => 'J', ColLetter::K => 'K', ColLetter::L => 'L', ColLetter::M => 'M',
            ColLetter::N => 'N', ColLetter::P => 'P', ColLetter::Q => 'Q', ColLetter::R => 'R',
            ColLetter::S => 'S', ColLetter::T => 'T', ColLetter::U => 'U', ColLetter::V => 'V',
            ColLetter::W => 'W', ColLetter::X => 'X', ColLetter::Y => 'Y', ColLetter::Z => 'Z',
        }
    }

    /// The letter that the character `c` names, in either case.
    pub fn from_char(c: char) -> (r: Result<Self, Errors>)
        ensures
            r == match Self::of_char(c) {
                Some(l) => Ok::<ColLetter, Errors>(l),
                None => Err::<ColLetter, Errors>(Errors::InvalidColLetter(c)),
            },
    {
        match c {
            'A' | 'a' => Ok(ColLetter::A), 'B' | 'b' => Ok(ColLetter::B),
            'C' | 'c' => Ok(ColLetter::C), 'D' | 'd' => Ok(ColLetter::D),
            'E' | 'e' => Ok(ColLetter::E), 'F' | 'f' => Ok(ColLetter::F),
            'G' | 'g' => Ok(ColLetter::G), 'H' | 'h' => Ok(ColLetter::H),
            'J' | 'j' => Ok(ColLetter::J), 'K' | 'k' => Ok(ColLetter::K),
            'L' | 'l' => Ok(ColLetter::L), 'M' | 'm' => Ok(ColLetter::M),
            'N' | 'n' => Ok(ColLetter::N), 'P' | 'p' => Ok(ColLetter::P),
            'Q' | 'q' => Ok(ColLetter::Q), 'R' | 'r' => Ok(ColLetter::R),
            'S' | 's' => Ok(ColLetter::S), 'T' | 't' => Ok(ColLetter::T),
            'U' | 'u' => Ok(ColLetter::U), 'V' | 'v' => Ok(ColLetter::V),
            'W' | 'w' => Ok(ColLetter::W), 'X' | 'x' => Ok(ColLetter::X),
            'Y' | 'y' => Ok(ColLetter::Y), 'Z' | 'z' => Ok(ColLetter::Z),
            _ => Err(Errors::InvalidColLetter(c)),
        }
    }

    /// The letter with the character code `c`, in either case.
    pub fn from_u32(c: u32) -> (r: Option<Self>)
        ensures
            r == (if c < 128 { Self::of_char(c as char) } else { None }),
    {
        if c < 128 {
            match Self::from_char((c as u8) as char) {
                Ok(l) => Some(l),
                Err(_) => None,
            }
        } else {
            None
        }
    }

    /// The letter that the first byte of `s` names; the rest of `s` is not
    /// read.
    pub fn from_str(s: &str) -> (r: Result<Self, Errors>)
        ensures
            r == match Self::of_char(byte_at(s.spec_bytes(), 0) as char) {
                Some(l) => Ok::<ColLetter, Errors>(l),
                None => Err::<ColLetter, Errors>(
                    Errors::InvalidColLetter(byte_at(s.spec_bytes(), 0) as char),
                ),
            },
    {
        let bytes = s.as_bytes();
        let z: u8 = if bytes.len() > 0 { bytes[0] } else { 0 };
        Self::from_char(z as char)
    }
}

impl Default for ColLetter {
    /// The first letter.
    fn default() -> (r: Self)
        ensures
            r == ColLetter::A,
    {
        ColLetter::A
    }
}

impl From<ColLetter> for char {
    /// The upper-case character of the letter.
    fn from(l: ColLetter) -> (r: char) {
        l.as_char()
    }
}

impl FromSpecImpl<ColLetter> for char {
    open spec fn obeys_from_spec() -> bool {
        true
    }

    open spec fn from_spec(l: ColLetter) -> Self {
        l.letter()
    }
}

} // verus!
