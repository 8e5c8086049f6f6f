//! Text renderings of numbers — decimal for the vector-path coordinates,
//! fixed-width hexadecimal for ticket identifiers — and string equality.

use vstd::prelude::*;
use vstd::string::StringExecFns;

verus! {

/// The one-character text of a decimal digit.
pub open spec fn dec_digit_seq(d: nat) -> Seq<char> {
    if d == 0 {
        "0"@
    } else if d == 1 {
        "1"@
    } else if d == 2 {
        "2"@
    } else if d == 3 {
        "3"@
    } else if d == 4 {
        "4"@
    } else if d == 5 {
        "5"@
    } else if d == 6 {
        "6"@
    } else if d == 7 {
        "7"@
    } else if d == 8 {
        "8"@
    } else {
        "9"@
    }
}

/// The decimal text of `n`, most significant digit first, no leading zeros.
pub open spec fn dec_rep(n: nat) -> Seq<char>
    decreases n,
{
    if n < 10 {
        dec_digit_seq(n)
    } else {
        dec_rep(n / 10) + dec_digit_seq(n % 10)
    }
}

/// The one-character text of a hexadecimal digit, lower case.
pub open spec fn hex_digit_seq(d: nat) -> Seq<char> {
    if d < 10 {
        dec_digit_seq(d)
    } else if d == 10 {
        "a"@
    } else if d == 11 {
        "b"@
    } else if d == 12 {
        "c"@
    } else if d == 13 {
        "d"@
    } else if d == 14 {
        "e"@
    } else {
        "f"@
    }
}

/// The hexadecimal text of `n` in exactly `width` digits, most significant
/// first; digits beyond `width` are dropped.
pub open spec fn hex_digits(n: nat, width: nat) -> Seq<char>
    decreases width,
{
    if width == 0 {
        Seq::<char>::empty()
    } else {
        hex_digits(n / 16, (width - 1) as nat) + hex_digit_seq(n % 16)
    }
}

fn dec_digit_str(d: u32) -> (r: &'static str)
    requires
        d < 10,
    ensures
        r@ == dec_digit_seq(d as nat),
{
    match d {
        0 => "0",
        1 => "1",
        2 => "2",
        3 => "3",
        4 => "4",
        5 => "5",
        6 => "6",
        7 => "7",
        8 => "8",
        _ => "9",
    }
}

fn hex_digit_str(d: u32) -> (r: &'static str)
    requires
        d < 16,
    ensures
        r@ == hex_digit_seq(d as nat),
{
    match d {
        0 => "0",
        1 => "1",
        2 => "2",
        3 => "3",
        4 => "4",
        5 => "5",
        6 => "6",
        7 => "7",
        8 => "8",
        9 => "9",
        10 => "a",
        11 => "b",
        12 => "c",
        13 => "d",
        14 => "e",
        _ => "f",
    }
}

/// The decimal text of a number, as written into path data and view boxes.
pub fn dec_u32(n: u32) -> (r: String)
    ensures
        r@ == dec_rep(n as nat),
    decreases n,
{
    if n < 10 {
        dec_digit_str(n).to_owned()
    } else {
        let mut s = dec_u32(n / 10);
        s.append(dec_digit_str(n % 10));
        s
    }
}

/// The hexadecimal text of `n` in exactly `width` digits, lower case.
pub fn hex_u128(n: u128, width: u32) -> (r: String)
    ensures
        r@ == hex_digits(n as nat, width as nat),
    decreases width,
{
    if width == 0 {
        String::new()
    } else {
        let mut s = hex_u128(n / 16, width - 1);
        s.append(hex_digit_str((n % 16) as u32));
        s
    }
}

/// Whether two strings hold the same characters.
pub fn str_eq(a: &str, b: &str) -> (r: bool)
    ensures
        r == (a@ == b@),
{
    let sa: String = a.to_owned();
    let sb: String = b.to_owned();
    sa.eq(&sb)
}

} // verus!
