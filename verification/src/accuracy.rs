//! The precision of a grid reference.

use vstd::prelude::*;

verus! {

/// Precision of a grid reference, from one metre (finest) to ten kilometres
/// (coarsest).
#[derive(Debug, Copy, Clone, PartialEq, Eq, Structural)]
pub enum Accuracy {
    /// 1 m, written with 10 digits.
    One,
    /// 10 m, written with 8 digits.
    Ten,
    /// 100 m, written with 6 digits.
    OneHundred,
    /// 1 km, written with 4 digits.
    OneThousand,
    /// 10 km, written with 2 digits.
    TenThousand,
}

impl Accuracy {
    /// The ordinal of this precision: 1 for the finest, 5 for the coarsest.
    pub open spec fn ordinal(self) -> nat {
        match self {
            Accuracy::One => 1,
            Accuracy::Ten => 2,
            Accuracy::OneHundred => 3,
            Accuracy::OneThousand => 4,
            Accuracy::TenThousand => 5,
        }
    }

    /// The side of the precision box in metres: `10^(ordinal - 1)`.
    pub open spec fn meters(self) -> nat {
        match self {
            Accuracy::One => 1,
            Accuracy::Ten => 10,
            Accuracy::OneHundred => 100,
            Accuracy::OneThousand => 1000,
            Accuracy::TenThousand => 10000,
        }
    }

    /// The number of digits of easting and northing together:
    /// `2 * (6 - ordinal)`.
    pub open spec fn digits(self) -> nat {
        match self {
            Accuracy::One => 10,
            Accuracy::Ten => 8,
            Accuracy::OneHundred => 6,
            Accuracy::OneThousand => 4,
            Accuracy::TenThousand => 2,
        }
    }

    /// The precision with the given ordinal, if there is one.
    pub open spec fn of_ordinal(a: int) -> Option<Accuracy> {
        if a == 1 {
            Some(Accuracy::One)
        } else if a == 2 {
            Some(Accuracy::Ten)
        } else if a == 3 {
            Some(Accuracy::OneHundred)
        } else if a == 4 {
            Some(Accuracy::OneThousand)
        } else if a == 5 {
            Some(Accuracy::TenThousand)
        } else {
            None
        }
    }

    /// The precision whose box has the given side in metres, if there is
    /// one.
    pub open spec fn of_meters(m: int) -> Option<Accuracy> {
        if m == 1 {
            Some(Accuracy::One)
        } else if m == 10 {
            Some(Accuracy::Ten)
        } else if m == 100 {
            Some(Accuracy::OneHundred)
        } else if m == 1000 {
            Some(Accuracy::OneThousand)
        } else if m == 10000 {
            Some(Accuracy::TenThousand)
        } else {
            None
        }
    }

    /// The precision written with the given total number of digits, if there
    /// is one.
    pub open spec fn of_digits(d: int) -> Option<Accuracy> {
        if d == 10 {
            Some(Accuracy::One)
        } else if d == 8 {
            Some(Accuracy::Ten)
        } else if d == 6 {
            Some(Accuracy::OneHundred)
        } else if d == 4 {
            Some(Accuracy::OneThousand)
        } else if d == 2 {
            Some(Accuracy::TenThousand)
        } else {
            None
        }
    }

    /// Ordinal, metres and digits each name the precision, and go together:
    /// the box of the precision with ordinal `k` is `10^(k - 1)` metres wide
    /// and written with `2 (6 - k)` digits.
    pub proof fn lemma_tables(self)
        ensures
            Self::of_ordinal(self.ordinal() as int) == Some(self),
            Self::of_meters(self.meters() as int) == Some(self),
            Self::of_digits(self.digits() as int) == Some(self),
            self.digits() == 2 * (6 - self.ordinal()),
            self.meters() == vstd::arithmetic::power::pow(10, (self.ordinal() - 1) as nat),
    {
        reveal_with_fuel(vstd::arithmetic::power::pow, 6);
    }

    /// The precision with the given ordinal (1 to 5).
    pub fn from_numeric(a: usize) -> (r: Option<Self>)
        ensures
            r == Self::of_ordinal(a as int),
            r matches Some(acc) ==> acc.ordinal() == a,
            r is Some <==> 1 <= a <= 5,
    {
        match a {
            1 => Some(Accuracy::One),
            2 => Some(Accuracy::Ten),
            3 => Some(Accuracy::OneHundred),
            4 => Some(Accuracy::OneThousand),
            5 => Some(Accuracy::TenThousand),
            _ => None,
        }
    }

    /// The precision whose box has the given side in metres.
    pub fn from_distance(a: usize) -> (r: Option<Self>)
        ensures
            r == Self::of_meters(a as int),
            r matches Some(acc) ==> acc.meters() == a,
            r is Some <==> (a == 1 || a == 10 || a == 100 || a == 1000 || a == 10000),
    {
        match a {
            1 => Some(Accuracy::One),
            10 => Some(Accuracy::Ten),
            100 => Some(Accuracy::OneHundred),
            1000 => Some(Accuracy::OneThousand),
            10000 => Some(Accuracy::TenThousand),
            _ => None,
        }
    }

    /// The precision written with the given total number of digits.
    pub fn from_num_digits(a: usize) -> (r: Option<Self>)
        ensures
            r == Self::of_digits(a as int),
            r matches Some(acc) ==> acc.digits() == a,
            r is Some <==> (a == 2 || a == 4 || a == 6 || a == 8 || a == 10),
    {
        match a {
            10 => Some(Accuracy::One),
            8 => Some(Accuracy::Ten),
            6 => Some(Accuracy::OneHundred),
            4 => Some(Accuracy::OneThousand),
            2 => Some(Accuracy::TenThousand),
            _ => None,
        }
    }

    /// The ordinal, 1 to 5.
    pub fn as_numeric(&self) -> (r: usize)
        ensures
            r == self.ordinal(),
    {
        match *self {
            Accuracy::One => 1,
            Accuracy::Ten => 2,
            Accuracy::OneHundred => 3,
            Accuracy::OneThousand => 4,
            Accuracy::TenThousand => 5,
        }
    }

    /// The side of the precision box in metres.
    pub fn as_distance(&self) -> (r: usize)
        ensures
            r == self.meters(),
    {
        match *self {
            Accuracy::One => 1,
            Accuracy::Ten => 10,
            Accuracy::OneHundred => 100,
            Accuracy::OneThousand => 1000,
            Accuracy::TenThousand => 10000,
        }
    }

    /// The total number of digits of easting and northing.
    pub fn as_num_digits(&self) -> (r: usize)
        ensures
            r == self.digits(),
    {
        match *self {
            Accuracy::One => 10,
            Accuracy::Ten => 8,
            Accuracy::OneHundred => 6,
            Accuracy::OneThousand => 4,
            Accuracy::TenThousand => 2,
        }
    }
}

impl Default for Accuracy {
    /// One metre.
    fn default() -> (r: Self)
        ensures
            r == Accuracy::One,
    {
        Accuracy::One
    }
}

} // verus!
