//! Decimal numbers and letters as text.

use vstd::prelude::*;
use vstd::string::StringExecFns;

verus! {

/// The byte at `i`, or NUL where the text has ended.
pub open spec fn byte_at(s: Seq<u8>, i: int) -> u8 {
    if 0 <= i < s.len() {
        s[i]
    } else {
        0
    }
}

/// The character of a decimal digit.
pub open spec fn digit_char(d: nat) -> char {
    (48 + d) as char
}

/// The decimal digits of `x`, with zeros in front to make at least `width`
/// characters.
pub open spec fn decimal(x: nat, width: nat) -> Seq<char>
    decreases x, width,
{
    if x < 10 && width <= 1 {
        seq![digit_char(x)]
    } else {
        decimal(x / 10, if width > 0 { (width - 1) as nat } else { 0 }) + seq![digit_char(x % 10)]
    }
}

/// The number of characters of `decimal(x, width)`.
pub open spec fn decimal_len(x: nat, width: nat) -> nat
    decreases x, width,
{
    if x < 10 && width <= 1 {
        1
    } else {
        1 + decimal_len(x / 10, if width > 0 { (width - 1) as nat } else { 0 })
    }
}

/// The decimal digits of a number that may be negative, with a minus sign in
/// front where it is.
pub open spec fn signed_decimal(x: int) -> Seq<char> {
    if x < 0 {
        seq!['-'] + decimal((-x) as nat, 1)
    } else {
        decimal(x as nat, 1)
    }
}

/// `decimal_len` is the length of `decimal`.
pub proof fn lemma_decimal_len(x: nat, width: nat)
    ensures
        decimal(x, width).len() == decimal_len(x, width),
        decimal_len(x, width) >= width,
        decimal_len(x, width) >= 1,
    decreases x, width,
{
    if x < 10 && width <= 1 {
    } else {
        lemma_decimal_len(x / 10, if width > 0 { (width - 1) as nat } else { 0 });
    }
}

/// The one-character text of the digit `d`.
pub fn digit_str(d: usize) -> (r: &'static str)
    requires
        d < 10,
    ensures
        r@ == seq![digit_char(d as nat)],
{
    proof {
        reveal_strlit("0");
        reveal_strlit("1");
        reveal_strlit("2");
        reveal_strlit("3");
        reveal_strlit("4");
        reveal_strlit("5");
        reveal_strlit("6");
        reveal_strlit("7");
        reveal_strlit("8");
        reveal_strlit("9");
    }
    let r = match d {
        0 => "0",
        1 => "1",
        2 => "2",
        3 => "3",
        4 => "4",
        5 => "5",
        6 => "6",
        7 => "7",
        8 => "8",
        _ => "9",
    };
    assert(r@ =~= seq![digit_char(d as nat)]);
    r
}

/// The one-character text of the upper-case letter `c`.
pub fn letter_str(c: char) -> (r: &'static str)
    requires
        'A' <= c <= 'Z',
    ensures
        r@ == seq![c],
{
    proof {
        reveal_strlit("A");
        reveal_strlit("B");
        reveal_strlit("C");
        reveal_strlit("D");
        reveal_strlit("E");
        reveal_strlit("F");
        reveal_strlit("G");
        reveal_strlit("H");
        reveal_strlit("I");
        reveal_strlit("J");
        reveal_strlit("K");
        reveal_strlit("L");
        reveal_strlit("M");
        reveal_strlit("N");
        reveal_strlit("O");
        reveal_strlit("P");
        reveal_strlit("Q");
        reveal_strlit("R");
        reveal_strlit("S");
        reveal_strlit("T");
        reveal_strlit("U");
        reveal_strlit("V");
        reveal_strlit("W");
        reveal_strlit("X");
        reveal_strlit("Y");
        reveal_strlit("Z");
    }
    let r = match c {
        'A' => "A",
        'B' => "B",
        'C' => "C",
        'D' => "D",
        'E' => "E",
        'F' => "F",
        'G' => "G",
        'H' => "H",
        'I' => "I",
        'J' => "J",
        'K' => "K",
        'L' => "L",
        'M' => "M",
        'N' => "N",
        'O' => "O",
        'P' => "P",
        'Q' => "Q",
        'R' => "R",
        'S' => "S",
        'T' => "T",
        'U' => "U",
        'V' => "V",
        'W' => "W",
        'X' => "X",
        'Y' => "Y",
        _ => "Z",
    };
    assert(r@ =~= seq![c]);
    r
}

/// Writes the decimal digits of `x` to the end of `out`, with zeros in front
/// to make at least `width` characters.
pub fn push_decimal(out: &mut String, x: usize, width: usize)
    ensures
        final(out)@ == old(out)@ + decimal(x as nat, width as nat),
    decreases x, width,
{
    if x < 10 && width <= 1 {
        out.append(digit_str(x));
    } else {
        let rest: usize = if width > 0 { width - 1 } else { 0 };
        push_decimal(out, x / 10, rest);
        out.append(digit_str(x % 10));
        assert(out@ =~= old(out)@ + decimal(x as nat, width as nat));
    }
}

/// Writes the decimal digits of `x` to the end of `out`, with a minus sign
/// in front where `x` is negative.
pub fn push_signed_decimal(out: &mut String, x: i32)
    ensures
        final(out)@ == old(out)@ + signed_decimal(x as int),
{
    if x < 0 {
        proof {
            reveal_strlit("-");
        }
        out.append("-");
        let ghost t1 = old(out)@ + seq!['-'];
        assert(out@ =~= t1);
        push_decimal(out, (-(x as i64)) as usize, 1);
        assert(out@ =~= old(out)@ + signed_decimal(x as int));
    } else {
        push_decimal(out, x as usize, 1);
    }
}

} // verus!
