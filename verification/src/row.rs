//! Row letters of the 100 km grid squares.

use vstd::prelude::*;
use vstd::std_specs::convert::FromSpecImpl;
use vstd::string::StringSliceAdditionalSpecFns;
use crate::col::letter_place;
use crate::errors::Errors;
use crate::text::byte_at;

verus! {

/// The row letter of a 100 km square: `A` to `V` without `I` and `O`.
///
/// The 20 letters repeat northwards every 2000 km. In the zones with an odd
/// number the rows are lettered from `A` at the equator, in those with an
/// even number from `F`.
#[derive(Debug, Copy, Clone, PartialEq, Eq, Structural)]
pub enum RowLetter {
    A, B, C, D, E, F, G, H, J, K, L, M, N, P, Q, R, S, T, U, V,
}

/// Whether `code` is the character code of an upper-case row letter.
pub open spec fn is_row_code(code: int) -> bool {
    65 <= code <= 86 && code != 73 && code != 79
}

/// The place in the alphabet without `I` and `O` of the letter at which the
/// rows of a set begin. Sets are numbered from 1 to 6, as
/// [`crate::get_100k_set_for_zone`] numbers them.
pub open spec fn row_origin_place(set: int) -> int {
    5 * ((set - 1) % 2)
}

/// The upper-case letter at which the rows of a set begin: `A` or `F`.
pub fn row_origin_letter(set: u8) -> (r: u8)
    requires
        1 <= set <= 6,
    ensures
        is_row_code(r as int),
        letter_place(r as int) == row_origin_place(set as int),
        r == 65 || r == 70,
{
    match (set - 1) % 2 {
        0 => 65,
        _ => 70,
    }
}

/// Counting five places on and five places back around the 20 letters
/// comes to the same place.
pub proof fn lemma_row_shift(place: int)
    requires
        0 <= place < 20,
    ensures
        place % 20 == place,
        (place - 5) % 20 == (if place >= 5 { place - 5 } else { place + 15 }),
        ((place - 5) % 20 + 5) % 20 == place,
        (place + 5) % 20 == (if place < 15 { place + 5 } else { place - 15 }),
        ((place + 5) % 20 - 5) % 20 == place,
{
}

impl RowLetter {
    /// A letter is the one at its place.
    pub proof fn lemma_ordinal(self)
        ensures
            Self::of_ordinal(self.ordinal() as int) == Some(self),
            self.ordinal() < 20,
            is_row_code(self.letter() as int),
            letter_place(self.letter() as int) == self.ordinal(),
            Self::of_char(self.letter()) == Some(self),
            Self::of_char((self.letter() as u8) as char) == Some(self),
    {
    }

    /// The upper-case letter with a character code is the one at the place
    /// of that code.
    pub proof fn lemma_of_code(code: u8)
        requires
            is_row_code(code as int),
        ensures
            Self::of_char(code as char) == Self::of_ordinal(letter_place(code as int)),
            Self::of_char(code as char) is Some,
            Self::of_char(code as char).unwrap().ordinal() == letter_place(code as int),
    {
    }

    /// The place of the letter in the alphabet without `I` and `O`, from 0
    /// for `A` to 19 for `V`.
    pub open spec fn ordinal(self) -> nat {
        match self {
            RowLetter::A => 0, RowLetter::B => 1, RowLetter::C => 2, RowLetter::D => 3,
            RowLetter::E => 4, RowLetter::F => 5, RowLetter::G => 6, RowLetter::H => 7,
            RowLetter::J => 8, RowLetter::K => 9, RowLetter::L => 10, RowLetter::M => 11,
            RowLetter::N => 12, RowLetter::P => 13, RowLetter::Q => 14, RowLetter::R => 15,
            RowLetter::S => 16, RowLetter::T => 17, RowLetter::U => 18, RowLetter::V => 19,
        }
    }

    /// The upper-case character of the letter.
    pub open spec fn letter(self) -> char {
        match self {
            RowLetter::A => 'A', RowLetter::B => 'B', RowLetter::C => 'C', RowLetter::D => 'D',
            RowLetter::E => 'E', RowLetter::F => 'F', RowLetter::G => 'G', RowLetter::H => 'H',
            RowLetter::J => 'J', RowLetter::K => 'K', RowLetter::L => 'L', RowLetter::M => 'M',
            RowLetter::N => 'N', RowLetter::P => 'P', RowLetter::Q => 'Q', RowLetter::R => 'R',
            RowLetter::S => 'S', RowLetter::T => 'T', RowLetter::U => 'U', RowLetter::V => 'V',
        }
    }

    /// The letter at the given place, if there is one.
    pub open spec fn of_ordinal(i: int) -> Option<RowLetter> {
        if i == 0 { Some(RowLetter::A) }
        else if i == 1 { Some(RowLetter::B) }
        else if i == 2 { Some(RowLetter::C) }
        else if i == 3 { Some(RowLetter::D) }
        else if i == 4 { Some(RowLetter::E) }
        else if i == 5 { Some(RowLetter::F) }
        else if i == 6 { Some(RowLetter::G) }
        else if i == 7 { Some(RowLetter::H) }
        else if i == 8 { Some(RowLetter::J) }
        else if i == 9 { Some(RowLetter::K) }
        else if i == 10 { Some(RowLetter::L) }
        else if i == 11 { Some(RowLetter::M) }
        else if i == 12 { Some(RowLetter::N) }
        else if i == 13 { Some(RowLetter::P) }
        else if i == 14 { Some(RowLetter::Q) }
        else if i == 15 { Some(RowLetter::R) }
        else if i == 16 { Some(RowLetter::S) }
        else if i == 17 { Some(RowLetter::T) }
        else if i == 18 { Some(RowLetter::U) }
        else if i == 19 { Some(RowLetter::V) }
        else { None }
    }

    /// The letter that a character names, in either case.
    pub open spec fn of_char(c: char) -> Option<RowLetter> {
        match c {
            'A' | 'a' => Some(RowLetter::A), 'B' | 'b' => Some(RowLetter::B),
            'C' | 'c' => Some(RowLetter::C), 'D' | 'd' => Some(RowLetter::D),
            'E' | 'e' => Some(RowLetter::E), 'F' | 'f' => Some(RowLetter::F),
            'G' | 'g' => Some(RowLetter::G), 'H' | 'h' => Some(RowLetter::H),
            'J' | 'j' => Some(RowLetter::J), 'K' | 'k' => Some(RowLetter::K),
            'L' | 'l' => Some(RowLetter::L), 'M' | 'm' => Some(RowLetter::M),
            'N' | 'n' => Some(RowLetter::N), 'P' | 'p' => Some(RowLetter::P),
            'Q' | 'q' => Some(RowLetter::Q), 'R' | 'r' => Some(RowLetter::R),
            'S' | 's' => Some(RowLetter::S), 'T' | 't' => Some(RowLetter::T),
            'U' | 'u' => Some(RowLetter::U), 'V' | 'v' => Some(RowLetter::V),
            _ => None,
        }
    }

    /// The number of the row that the letter names in the set numbered
    /// `set` (0 or 1), counted from the row at the equator: set 0 begins at
    /// `A`, set 1 at `F`, and both go on at `A` after `V`.
    pub open spec fn place_in_set(self, set: int) -> Option<nat> {
        if 0 <= set < 2 {
            Some(((self.ordinal() - 5 * set) % 20) as nat)
        } else {
            None
        }
    }

    /// The letter of row `index` of the set numbered `set`.
    pub open spec fn of_set_and_index(set: int, index: int) -> Option<RowLetter> {
        if 0 <= set < 2 && 0 <= index < 20 {
            Self::of_ordinal((index + 5 * set) % 20)
        } else {
            None
        }
    }

    /// The number of the 100 km row in which a northing lies, counted from
    /// the last whole multiple of 2000 km.
    pub open spec fn row_of_northing(northing: int) -> Option<nat> {
        if 0 <= northing {
            Some(((northing / 100_000) % 20) as nat)
        } else {
            None
        }
    }

    /// The letter of the row in which a northing lies, in a zone.
    pub open spec fn of_zone_and_northing(zone: int, northing: int) -> Option<RowLetter> {
        match Self::row_of_northing(northing) {
            Some(i) => Self::of_set_and_index((zone - 1) % 2, i as int),
            None => None,
        }
    }

    /// The northing in metres, less an unknown whole multiple of 2000 km, at
    /// which the row of this letter begins, counted by letters from the
    /// origin of a set (1 to 6): the origin letter stands at 0, each further
    /// letter 100 km to the north, and after `V` the count goes on at `A`.
    pub open spec fn northing_in_set(self, set: int) -> nat {
        (100_000 * ((self.ordinal() - row_origin_place(set)) % 20)) as nat
    }

    /// What counting from the origin of a set gives for any character: the
    /// northing for an upper-case row letter, a refusal for anything else.
    pub open spec fn counted_northing(c: char, set: int) -> Result<u32, Errors> {
        if c == 'I' || c == 'O' {
            Err(Errors::InvalidRowLetter(c))
        } else if is_row_code(c as int) {
            Ok((100_000 * ((letter_place(c as int) - row_origin_place(set)) % 20)) as u32)
        } else {
            Err(Errors::InvalidNorthingChar(c))
        }
    }

    /// The place of the letter in the alphabet without `I` and `O`.
    pub fn index(&self) -> (r: usize)
        ensures
            r == self.ordinal(),
            r < 20,
    {
        match *self {
            RowLetter::A => 0, RowLetter::B => 1, RowLetter::C => 2, RowLetter::D => 3,
            RowLetter::E => 4, RowLetter::F => 5, RowLetter::G => 6, RowLetter::H => 7,
            RowLetter::J => 8, RowLetter::K => 9, RowLetter::L => 10, RowLetter::M => 11,
            RowLetter::N => 12, RowLetter::P => 13, RowLetter::Q => 14, RowLetter::R => 15,
            RowLetter::S => 16, RowLetter::T => 17, RowLetter::U => 18, RowLetter::V => 19,
        }
    }

    /// The letter at place `i`; `None` where `i` is 20 or more.
    pub fn from_index(i: usize) -> (r: Option<Self>)
        ensures
            r == Self::of_ordinal(i as int),
            r is Some <==> i < 20,
            r matches Some(l) ==> l.ordinal() == i,
    {
        match i {
            0 => Some(RowLetter::A), 1 => Some(RowLetter::B), 2 => Some(RowLetter::C),
            3 => Some(RowLetter::D), 4 => Some(RowLetter::E), 5 => Some(RowLetter::F),
            6 => Some(RowLetter::G), 7 => Some(RowLetter::H), 8 => Some(RowLetter::J),
            9 => Some(RowLetter::K), 10 => Some(RowLetter::L), 11 => Some(RowLetter::M),
            12 => Some(RowLetter::N), 13 => Some(RowLetter::P), 14 => Some(RowLetter::Q),
            15 => Some(RowLetter::R), 16 => Some(RowLetter::S), 17 => Some(RowLetter::T),
            18 => Some(RowLetter::U), 19 => Some(RowLetter::V),
            _ => None,
        }
    }

    /// The northing in metres, less an unknown whole multiple of 2000 km, at
    /// which the row of this letter begins in a zone.
    pub fn as_meters_from_zone(&self, zone: u8) -> (r: usize)
        requires
            1 <= zone <= 60,
        ensures
            Some(r as nat) == match self.place_in_set((zone - 1) % 2) {
                Some(i) => Some(i * 100_000),
                None => None,
            },
            r < 2_000_000,
            r % 100_000 == 0,
    {
        match self.index_from_set((zone - 1) % 2) {
            Ok(i) => i * 100_000,
            Err(_) => 0,
        }
    }

    /// The number of the 100 km row in which a northing lies, counted from
    /// the last whole multiple of 2000 km: 0 to 19. `None` for a negative
    /// northing.
    pub fn index_for_northing(northing: i32) -> (r: Option<u8>)
        ensures
            r == match Self::row_of_northing(northing as int) {
                Some(i) => Some(i as u8),
                None => None,
            },
            r is Some <==> 0 <= northing,
            r matches Some(i) ==> i < 20,
    {
        if 0 <= northing {
            Some(((northing / 100_000) % 20) as u8)
        } else {
            None
        }
    }

    /// The letter of row `index` (0 to 19) in a zone.
    pub fn letter_at(zone: u8, index: u8) -> (r: Option<Self>)
        requires
            1 <= zone <= 60,
        ensures
            r == Self::of_set_and_index((zone - 1) % 2, index as int),
            r is Some <==> index < 20,
    {
        RowLetter::from_set_and_index((zone - 1) % 2, index)
    }

    /// The letter of the row in which a northing lies, in a zone.
    pub fn from_zone_and_northing(zone: u8, northing: i32) -> (r: Option<Self>)
        requires
            1 <= zone <= 60,
        ensures
            r == Self::of_zone_and_northing(zone as int, northing as int),
            r is Some <==> 0 <= northing,
            r matches Some(l) ==> l.place_in_set((zone - 1) % 2) == Some(
                ((northing / 100_000) % 20) as nat,
            ),
    {
        match RowLetter::index_for_northing(northing) {
            Some(i) => RowLetter::letter_at(zone, i),
            None => None,
        }
    }

    /// The number of the row that the letter names in the set numbered
    /// `set` (0 or 1); refused where there is no such set.
    pub fn index_from_set(&self, set: u8) -> (r: Result<usize, Errors>)
        ensures
            r == match self.place_in_set(set as int) {
                Some(i) => Ok::<usize, Errors>(i as usize),
                None => Err::<usize, Errors>(Errors::InvalidRowLetter(self.letter())),
            },
            r is Ok <==> set < 2,
            r matches Ok(i) ==> i < 20 && Self::of_set_and_index(set as int, i as int) == Some(
                *self,
            ),
    {
        let place: usize = self.index();
        proof {
            lemma_row_shift(place as int);
            self.lemma_ordinal();
        }
        if set == 0 {
            Ok(place)
        } else if set == 1 {
            Ok(if place >= 5 { place - 5 } else { place + 15 })
        } else {
            Err(Errors::InvalidRowLetter(self.as_char()))
        }
    }

    /// The letter of row `index` (0 to 19) of the set numbered `set` (0 or
    /// 1); `None` where there is no such row or set.
    pub fn from_set_and_index(set: u8, index: u8) -> (r: Option<Self>)
        ensures
            r == Self::of_set_and_index(set as int, index as int),
            r is Some <==> set < 2 && index < 20,
            r matches Some(l) ==> l.place_in_set(set as int) == Some(index as nat),
    {
        if set < 2 && index < 20 {
            let place: usize = (index as usize + 5 * (set as usize)) % 20;
            proof {
                lemma_row_shift(place as int);
            }
            Self::from_index(place)
        } else {
            None
        }
    }

    /// The northing in metres, less an unknown whole multiple of 2000 km, at
    /// which the row of this letter begins, counted by letters from the
    /// origin of the set (1 to 6).
    pub fn get_northing_with_set(&self, set: u8) -> (r: Result<u32, Errors>)
        requires
            1 <= set <= 6,
        ensures
            r == Ok::<u32, Errors>(self.northing_in_set(set as int) as u32),
            self.northing_in_set(set as int) <= 1_900_000,
    {
        Self::northing_for_char(self.as_char(), set)
    }

    /// Counts from the origin letter of the set (1 to 6) to `c`, a step of
    /// 100 km for each letter, leaving out `I` and `O` and going on at `A`
    /// after `V` at most once.
    ///
    /// `I` and `O` are refused as no row letters; any other character that
    /// the count does not reach is refused as no part of a northing.
    pub fn northing_for_char(c: char, set: u8) -> (r: Result<u32, Errors>)
        requires
            1 <= set <= 6,
        ensures
            r == Self::counted_northing(c, set as int),
            r is Ok <==> is_row_code(c as int),
    {
        if c == 'I' || c == 'O' {
            return Err(Errors::InvalidRowLetter(c));
        }
        let target: u32 = c as u32;
        if target > 86 {
            return Err(Errors::InvalidNorthingChar(c));
        }
        let ghost origin: int = row_origin_place(set as int);
        let ghost goal: int = letter_place(target as int);
        let ghost valid: bool = is_row_code(target as int);
        let mut cur: u8 = row_origin_letter(set);
        let mut northing: u32 = 0;
        let mut rewound: bool = false;
        while cur as u32 != target
            invariant
                target == c as u32,
                target != 73 && target != 79,
                origin == row_origin_place(set as int),
                origin == 0 || origin == 5,
                goal == letter_place(target as int),
                valid == is_row_code(target as int),
                is_row_code(cur as int),
                !rewound ==> letter_place(cur as int) >= origin && northing == 100_000 * (
                letter_place(cur as int) - origin),
                rewound ==> northing == 100_000 * (20 + letter_place(cur as int) - origin),
                valid && !rewound && goal >= origin ==> letter_place(cur as int) <= goal,
                valid && rewound ==> goal < origin && letter_place(cur as int) <= goal,
            decreases (if rewound { 0int } else { 20 }) + 19 - letter_place(cur as int),
        {
            cur = cur + 1;
            if cur == 73 {
                cur = cur + 1;
            }
            if cur == 79 {
                cur = cur + 1;
            }
            if cur > 86 {
                if rewound {
                    return Err(Errors::InvalidNorthingChar(c));
                }
                cur = 65;
                rewound = true;
            }
            northing = northing + 100_000;
        }
        Ok(northing)
    }

    /// The upper-case character of the letter.
    pub fn as_char(&self) -> (r: char)
        ensures
            r == self.letter(),
            Self::of_char(r) == Some(*self),
            is_row_code(r as int),
            letter_place(r as int) == self.ordinal(),
    {
        match *self {
            RowLetter::A => 'A', RowLetter::B => 'B', RowLetter::C => 'C', RowLetter::D => 'D',
            RowLetter::E => 'E', RowLetter::F => 'F', RowLetter::G => 'G', RowLetter::H => 'H',
            RowLetter::J => 'J', RowLetter::K => 'K', RowLetter::L => 'L', RowLetter::M => 'M',
            RowLetter::N => 'N', RowLetter::P => 'P', RowLetter::Q => 'Q', RowLetter::R => 'R',
            RowLetter::S => 'S', RowLetter::T => 'T', RowLetter::U => 'U', RowLetter::V => 'V',
        }
    }

    /// The letter that the character `c` names, in either case.
    pub fn from_char(c: char) -> (r: Result<Self, Errors>)
        ensures
            r == match Self::of_char(c) {
                Some(l) => Ok::<RowLetter, Errors>(l),
                None => Err::<RowLetter, Errors>(Errors::InvalidRowLetter(c)),
            },
    {
        match c {
            'A' | 'a' => Ok(RowLetter::A), 'B' | 'b' => Ok(RowLetter::B),
            'C' | 'c' => Ok(RowLetter::C), 'D' | 'd' => Ok(RowLetter::D),
            'E' | 'e' => Ok(RowLetter::E), 'F' | 'f' => Ok(RowLetter::F),
            'G' | 'g' => Ok(RowLetter::G), 'H' | 'h' => Ok(RowLetter::H),
            'J' | 'j' => Ok(RowLetter::J), 'K' | 'k' => Ok(RowLetter::K),
            'L' | 'l' => Ok(RowLetter::L), 'M' | 'm' => Ok(RowLetter::M),
            'N' | 'n' => Ok(RowLetter::N), 'P' | 'p' => Ok(RowLetter::P),
            'Q' | 'q' => Ok(RowLetter::Q), 'R' | 'r' => Ok(RowLetter::R),
            'S' | 's' => Ok(RowLetter::S), 'T' | 't' => Ok(RowLetter::T),
            'U' | 'u' => Ok(RowLetter::U), 'V' | 'v' => Ok(RowLetter::V),
            _ => Err(Errors::InvalidRowLetter(c)),
        }
    }

    /// The letter with the character code `c`, in either case.
    pub fn from_u32(c: u32) -> (r: Option<Self>)
        ensures
            r == (if c < 128 { Self::of_char(c as char) } else { None }),
    {
        if c < 128 {
            match Self::from_char((c as u8) as char) {
                Ok(l) => Some(l),
                Err(_) => None,
            }
        } else {
            None
        }
    }

    /// The letter that the first byte of `s` names; the rest of `s` is not
    /// read.
    pub fn from_str(s: &str) -> (r: Result<Self, Errors>)
        ensures
            r == match Self::of_char(byte_at(s.spec_bytes(), 0) as char) {
                Some(l) => Ok::<RowLetter, Errors>(l),
                None => Err::<RowLetter, Errors>(
                    Errors::InvalidRowLetter(byte_at(s.spec_bytes(), 0) as char),
                ),
            },
    {
        let bytes = s.as_bytes();
        let z: u8 = if bytes.len() > 0 { bytes[0] } else { 0 };
        Self::from_char(z as char)
    }
}

impl Default for RowLetter {
    /// The first letter.
    fn default() -> (r: Self)
        ensures
            r == RowLetter::A,
    {
        RowLetter::A
    }
}

impl From<RowLetter> for char {
    /// The upper-case character of the letter.
    fn from(l: RowLetter) -> (r: char) {
        l.as_char()
    }
}

impl FromSpecImpl<RowLetter> for char {
    open spec fn obeys_from_spec() -> bool {
        true
    }

    open spec fn from_spec(l: RowLetter) -> Self {
        l.letter()
    }
}

} // verus!
