//! Grid references: a grid zone, a 100 km square and a place within it.

use vstd::prelude::*;
use vstd::string::StringExecFns;
use crate::accuracy::Accuracy;
use crate::band::LatBand;
use crate::col::ColLetter;
use crate::gzd::{GridSquareId100k, Gzd};
use crate::row::RowLetter;
use crate::text::{decimal, decimal_len, digit_char, letter_str, push_decimal};

verus! {

/// `x` cut off, not rounded, to a whole multiple of `unit`.
pub open spec fn cut(x: int, unit: int) -> int {
    x / unit * unit
}

/// Whether `x` is a whole multiple of `unit`.
pub open spec fn is_multiple(x: int, unit: int) -> bool {
    x % unit == 0
}

/// The length of `s` without the zeros at its end.
pub open spec fn trimmed_len(s: Seq<char>) -> nat
    decreases s.len(),
{
    if s.len() == 0 {
        0
    } else if s.last() == '0' {
        trimmed_len(s.drop_last())
    } else {
        s.len()
    }
}

/// The number of zeros at the end of `s`.
pub open spec fn trailing_zeros(s: Seq<char>) -> nat {
    (s.len() - trimmed_len(s)) as nat
}

/// The number of characters that are left of `x`, written with at least five
/// digits, when the zeros at its end are taken away.
pub open spec fn significant_digits(x: nat) -> nat {
    trimmed_len(decimal(x, 5))
}

/// The precision of a pair of numbers of metres within a 100 km square, as
/// far as their digits show it: each is written with five digits, the zeros
/// at the end are taken away, and the longer of the two stands for both.
pub open spec fn accuracy_of(e: nat, n: nat) -> Option<Accuracy> {
    let se = significant_digits(e);
    let sn = significant_digits(n);
    Accuracy::of_digits(2 * (if se >= sn { se as int } else { sn as int }))
}

/// `trimmed_len(decimal(x, width))`, by arithmetic.
pub open spec fn significant_len(x: nat, width: nat) -> nat
    decreases x, width,
{
    if x % 10 != 0 {
        decimal_len(x, width)
    } else if x < 10 && width <= 1 {
        0
    } else {
        significant_len(x / 10, if width > 0 { (width - 1) as nat } else { 0 })
    }
}

/// Taking the zeros from the end of the digits of `x` is dividing `x` by ten
/// for as long as it can be divided.
pub proof fn lemma_significant_len(x: nat, width: nat)
    ensures
        trimmed_len(decimal(x, width)) == significant_len(x, width),
    decreases x, width,
{
    crate::text::lemma_decimal_len(x, width);
    let s = decimal(x, width);
    if x < 10 && width <= 1 {
        assert(s =~= seq![digit_char(x)]);
        assert(s.last() == digit_char(x));
        assert((s.last() == '0') == (x == 0));
        if x == 0 {
            assert(s.drop_last().len() == 0);
            assert(trimmed_len(s.drop_last()) == 0);
        }
    } else {
        let rest = if width > 0 { (width - 1) as nat } else { 0 };
        assert(s =~= decimal(x / 10, rest) + seq![digit_char(x % 10)]);
        assert(s.last() == digit_char(x % 10));
        assert((s.last() == '0') == (x % 10 == 0));
        assert(s.drop_last() =~= decimal(x / 10, rest));
        lemma_significant_len(x / 10, rest);
    }
}

/// The number of significant digits of a number below 100 000 is 0 for 0
/// and else 5 less the number of times that ten divides it.
pub proof fn lemma_significant_digits_small(x: nat)
    requires
        x < 100_000,
    ensures
        significant_digits(x) == if x == 0 {
            0nat
        } else if x % 10 != 0 {
            5
        } else if x % 100 != 0 {
            4
        } else if x % 1000 != 0 {
            3
        } else if x % 10000 != 0 {
            2
        } else {
            1
        },
{
    lemma_significant_len(x, 5);
    reveal_with_fuel(significant_len, 6);
    reveal_with_fuel(decimal_len, 6);
}

/// The precision that the digits of two numbers below 100 000 show, by
/// division: the coarsest of which both are whole multiples, and none where
/// both are 0.
pub open spec fn accuracy_by_division(e: nat, n: nat) -> Option<Accuracy> {
    if e == 0 && n == 0 {
        None
    } else if e % 10 != 0 || n % 10 != 0 {
        Some(Accuracy::One)
    } else if e % 100 != 0 || n % 100 != 0 {
        Some(Accuracy::Ten)
    } else if e % 1000 != 0 || n % 1000 != 0 {
        Some(Accuracy::OneHundred)
    } else if e % 10000 != 0 || n % 10000 != 0 {
        Some(Accuracy::OneThousand)
    } else {
        Some(Accuracy::TenThousand)
    }
}

/// The precision that the digits of two numbers below 100 000 show is the
/// coarsest of which both are whole multiples; there is none where both are
/// 0.
pub proof fn lemma_accuracy_by_division(e: nat, n: nat)
    requires
        e < 100_000,
        n < 100_000,
    ensures
        accuracy_of(e, n) == accuracy_by_division(e, n),
        accuracy_of(e, n) matches Some(a) ==> is_multiple(e as int, a.meters() as int)
            && is_multiple(n as int, a.meters() as int),
        accuracy_of(e, n) is None <==> e == 0 && n == 0,
        is_multiple(e as int, 1) && is_multiple(n as int, 1),
{
    lemma_significant_digits_small(e);
    lemma_significant_digits_small(n);
    assert(is_multiple(e as int, 1) && is_multiple(n as int, 1));
    assert(is_multiple(e as int, 10) == (e % 10 == 0));
    assert(is_multiple(e as int, 100) == (e % 100 == 0));
    assert(is_multiple(e as int, 1000) == (e % 1000 == 0));
    assert(is_multiple(e as int, 10000) == (e % 10000 == 0));
    assert(is_multiple(n as int, 10) == (n % 10 == 0));
    assert(is_multiple(n as int, 100) == (n % 100 == 0));
    assert(is_multiple(n as int, 1000) == (n % 1000 == 0));
    assert(is_multiple(n as int, 10000) == (n % 10000 == 0));
}

/// Two numbers of at most five digits of which one does not end in a zero
/// show a precision of one metre; so do two in which no digit is a zero.
pub proof fn lemma_accuracy_without_zeros(e: nat, n: nat)
    requires
        e < 100_000,
        n < 100_000,
        decimal(e, 5).last() != '0' || decimal(n, 5).last() != '0',
    ensures
        accuracy_of(e, n) == Some(Accuracy::One),
{
    lemma_significant_digits_small(e);
    lemma_significant_digits_small(n);
    crate::text::lemma_decimal_len(e, 5);
    crate::text::lemma_decimal_len(n, 5);
    assert(trimmed_len(decimal(e, 5)) == 5 || trimmed_len(decimal(n, 5)) == 5);
}

/// More zeros at the end of the digits never give a finer precision: where
/// easting and northing, of at most five digits each, both end in at least
/// as many zeros as another pair, the precision they show is at least as
/// coarse.
pub proof fn lemma_accuracy_monotone(e1: nat, n1: nat, e2: nat, n2: nat)
    requires
        e1 < 100_000 && n1 < 100_000 && e2 < 100_000 && n2 < 100_000,
        trailing_zeros(decimal(e2, 5)) >= trailing_zeros(decimal(e1, 5)),
        trailing_zeros(decimal(n2, 5)) >= trailing_zeros(decimal(n1, 5)),
        accuracy_of(e1, n1) is Some,
        accuracy_of(e2, n2) is Some,
    ensures
        accuracy_of(e2, n2).unwrap().meters() >= accuracy_of(e1, n1).unwrap().meters(),
        accuracy_of(e2, n2).unwrap().digits() <= accuracy_of(e1, n1).unwrap().digits(),
{
    lemma_significant_digits_small(e1);
    lemma_significant_digits_small(n1);
    lemma_significant_digits_small(e2);
    lemma_significant_digits_small(n2);
    crate::text::lemma_decimal_len(e1, 5);
    crate::text::lemma_decimal_len(n1, 5);
    crate::text::lemma_decimal_len(e2, 5);
    crate::text::lemma_decimal_len(n2, 5);
    reveal_with_fuel(decimal_len, 6);
}

/// The number of significant digits of `x`, or 6 where there are more than
/// five.
fn significant_digits_capped(x: usize) -> (r: usize)
    ensures
        r == if significant_digits(x as nat) <= 5 {
            significant_digits(x as nat)
        } else {
            6
        },
{
    proof {
        lemma_significant_len(x as nat, 5);
    }
    let mut v: usize = x;
    let mut w: usize = 5;
    while v % 10 == 0 && !(v < 10 && w <= 1)
        invariant
            w <= 5,
            significant_len(x as nat, 5) == significant_len(v as nat, w as nat),
        decreases v, w,
    {
        v = v / 10;
        w = if w > 0 { w - 1 } else { 0 };
    }
    proof {
        reveal_with_fuel(decimal_len, 7);
    }
    if v % 10 == 0 {
        0
    } else if v >= 100_000 {
        6
    } else if v >= 10_000 {
        5
    } else if v >= 1000 {
        if w > 4 { w } else { 4 }
    } else if v >= 100 {
        if w > 3 { w } else { 3 }
    } else if v >= 10 {
        if w > 2 { w } else { 2 }
    } else {
        if w > 1 { w } else { 1 }
    }
}

/// The precision of a pair of numbers of metres within a 100 km square, as
/// far as their digits show it.
///
/// Each number is written with five digits, zeros in front; the zeros at the
/// end are taken away; the longer of the two is the number of digits of
/// each, and twice that number names the precision. There is none where
/// both numbers are 0, or where more than five digits are left.
pub fn get_accuracy(e: usize, n: usize) -> (r: Option<Accuracy>)
    ensures
        r == accuracy_of(e as nat, n as nat),
        e < 100_000 && n < 100_000 ==> r == accuracy_by_division(e as nat, n as nat),
{
    proof {
        if e < 100_000 && n < 100_000 {
            lemma_accuracy_by_division(e as nat, n as nat);
        }
    }
    let se: usize = significant_digits_capped(e);
    let sn: usize = significant_digits_capped(n);
    if se >= sn {
        Accuracy::from_num_digits(2 * se)
    } else {
        Accuracy::from_num_digits(2 * sn)
    }
}

/// A grid reference: a quantized, letter-encoded place in the UTM grid.
#[derive(Debug, Copy, Clone, PartialEq, Eq, Structural)]
pub struct Mgrs {
    /// The grid zone.
    pub gzd: Gzd,
    /// The 100 km square within the grid zone.
    pub gsid_100k: GridSquareId100k,
    /// Metres east of the square's western edge.
    pub easting: usize,
    /// Metres north of the square's southern edge.
    pub northing: usize,
    /// The precision to which easting and northing are given.
    pub accuracy: Accuracy,
}

impl Mgrs {
    /// Whether this is a grid reference: the zone is one of the 60, and the
    /// place lies within the square.
    pub open spec fn wf(self) -> bool {
        &&& self.gzd.wf()
        &&& self.easting < 100_000
        &&& self.northing < 100_000
    }

    /// Whether the place is given to no more than the precision: easting
    /// and northing are whole multiples of it.
    pub open spec fn is_cut(self) -> bool {
        &&& is_multiple(self.easting as int, self.accuracy.meters() as int)
        &&& is_multiple(self.northing as int, self.accuracy.meters() as int)
    }

    /// The text of the grid reference to the given precision, with spaces
    /// between its parts or without.
    ///
    /// The zone is written with two digits; the band, column and row letters
    /// follow; easting and northing are cut off, not rounded, to the
    /// precision, and each is written with as many digits as the precision
    /// has for it, zeros in front.
    pub open spec fn text(self, accuracy: Accuracy, spaced: bool) -> Seq<char> {
        let digits = accuracy.digits() / 2;
        let unit = accuracy.meters();
        let gap = if spaced { seq![' '] } else { Seq::<char>::empty() };
        decimal(self.gzd.zone as nat, 2) + seq![self.gzd.band.letter()] + gap
            + seq![self.gsid_100k.col.letter()] + seq![self.gsid_100k.row.letter()] + gap
            + decimal(self.easting as nat / unit, digits) + gap + decimal(
            self.northing as nat / unit,
            digits,
        )
    }

    /// The grid reference with the given parts. Its precision is the one
    /// that the digits of `easting` and `northing` show, and one metre where
    /// both are 0.
    pub fn new(
        zone: u8,
        band: LatBand,
        e100k: ColLetter,
        n100k: RowLetter,
        easting: usize,
        northing: usize,
    ) -> (r: Self)
        requires
            1 <= zone <= 60,
            easting < 100_000,
            northing < 100_000,
        ensures
            r.wf(),
            r.is_cut(),
            r.gzd == (Gzd { zone, band }),
            r.gsid_100k == (GridSquareId100k { col: e100k, row: n100k }),
            r.easting == easting,
            r.northing == northing,
            r.accuracy == match accuracy_of(easting as nat, northing as nat) {
                Some(a) => a,
                None => Accuracy::One,
            },
    {
        proof {
            lemma_accuracy_by_division(easting as nat, northing as nat);
        }
        let accuracy: Accuracy = match get_accuracy(easting, northing) {
            Some(a) => a,
            None => Accuracy::One,
        };
        Mgrs {
            gzd: Gzd { zone, band },
            gsid_100k: GridSquareId100k { col: e100k, row: n100k },
            easting,
            northing,
            accuracy,
        }
    }

    /// Whether this is a grid reference: the zone is one of the 60, and the
    /// place lies within the square.
    pub fn is_valid(&self) -> (r: bool)
        ensures
            r == self.wf(),
    {
        1 <= self.gzd.zone && self.gzd.zone <= 60 && self.easting < 100_000 && self.northing
            < 100_000
    }

    /// The text of the grid reference to the given precision, its parts
    /// divided by spaces: `31U DQ 48251 11932`.
    pub fn as_string(&self, accuracy: Accuracy) -> (r: String)
        ensures
            r@ == self.text(accuracy, true),
    {
        self.write(accuracy, true)
    }

    /// The text of the grid reference to the given precision, without
    /// spaces: `31UDQ4825111932`.
    pub fn as_compact_string(&self, accuracy: Accuracy) -> (r: String)
        ensures
            r@ == self.text(accuracy, false),
    {
        self.write(accuracy, false)
    }

    fn write(&self, accuracy: Accuracy, spaced: bool) -> (r: String)
        ensures
            r@ == self.text(accuracy, spaced),
    {
        let digits: usize = accuracy.as_num_digits() / 2;
        let unit: usize = accuracy.as_distance();
        proof {
            reveal_strlit(" ");
            reveal_strlit("");
        }
        let gap: &'static str = if spaced { " " } else { "" };
        let ghost g: Seq<char> = if spaced { seq![' '] } else { Seq::<char>::empty() };
        assert(gap@ =~= g);
        let mut out = String::new();
        push_decimal(&mut out, self.gzd.zone as usize, 2);
        let ghost t1 = decimal(self.gzd.zone as nat, 2);
        assert(out@ =~= t1);
        out.append(letter_str(self.gzd.band.as_char()));
        let ghost t2 = t1 + seq![self.gzd.band.letter()];
        assert(out@ == t2);
        out.append(gap);
        let ghost t3 = t2 + g;
        assert(out@ == t3);
        out.append(letter_str(self.gsid_100k.col.as_char()));
        let ghost t4 = t3 + seq![self.gsid_100k.col.letter()];
        assert(out@ == t4);
        out.append(letter_str(self.gsid_100k.row.as_char()));
        let ghost t5 = t4 + seq![self.gsid_100k.row.letter()];
        assert(out@ == t5);
        out.append(gap);
        let ghost t6 = t5 + g;
        assert(out@ == t6);
        push_decimal(&mut out, self.easting / unit, digits);
        let ghost t7 = t6 + decimal(self.easting as nat / (unit as nat), digits as nat);
        assert(out@ == t7);
        out.append(gap);
        let ghost t8 = t7 + g;
        assert(out@ == t8);
        push_decimal(&mut out, self.northing / unit, digits);
        let ghost t9 = t8 + decimal(self.northing as nat / (unit as nat), digits as nat);
        assert(out@ == t9);
        assert(t9 == self.text(accuracy, spaced));
        out
    }
}

} // verus!
