//! Small verified string helpers used by the rendering code: fixed-width
//! uppercase hex, space padding, and string-view equality.

use vstd::prelude::*;
use vstd::string::*;

verus! {

/// One uppercase hex digit, as a one-character string view.
pub open spec fn spec_hex_digit_seq(d: int) -> Seq<char> {
    if d == 0 {
        "0"@
    } else if d == 1 {
        "1"@
    } else if d == 2 {
        "2"@
    } else if d == 3 {
        "3"@
    } else if d == 4 {
        "4"@
    } else if d == 5 {
        "5"@
    } else if d == 6 {
        "6"@
    } else if d == 7 {
        "7"@
    } else if d == 8 {
        "8"@
    } else if d == 9 {
        "9"@
    } else if d == 10 {
        "A"@
    } else if d == 11 {
        "B"@
    } else if d == 12 {
        "C"@
    } else if d == 13 {
        "D"@
    } else if d == 14 {
        "E"@
    } else {
        "F"@
    }
}

/// `v` rendered as exactly `digits` uppercase hex digits, most significant
/// first (so the value is shown in big-endian display order).
pub open spec fn spec_hex_seq(v: int, digits: nat) -> Seq<char>
    decreases digits,
{
    if digits == 0 {
        Seq::empty()
    } else {
        spec_hex_seq(v / 16, (digits - 1) as nat) + spec_hex_digit_seq(v % 16)
    }
}

/// `n` space characters.
pub open spec fn spec_spaces(n: nat) -> Seq<char>
    decreases n,
{
    if n == 0 {
        Seq::empty()
    } else {
        spec_spaces((n - 1) as nat) + " "@
    }
}

fn hex_digit_str(d: u8) -> (r: &'static str)
    requires
        d < 16,
    ensures
        r@ == spec_hex_digit_seq(d as int),
{
    match d {
        0 => "0",
        1 => "1",
        2 => "2",
        3 => "3",
        4 => "4",
        5 => "5",
        6 => "6",
        7 => "7",
        8 => "8",
        9 => "9",
        10 => "A",
        11 => "B",
        12 => "C",
        13 => "D",
        14 => "E",
        _ => "F",
    }
}

/// Renders `v` as exactly `digits` uppercase hex digits.
pub fn hex_str(v: u64, digits: usize) -> (r: String)
    ensures
        r@ == spec_hex_seq(v as int, digits as nat),
    decreases digits,
{
    if digits == 0 {
        String::new()
    } else {
        let mut s = hex_str(v / 16, digits - 1);
        s.append(hex_digit_str((v % 16) as u8));
        s
    }
}

/// A string of `n` spaces.
pub fn spaces(n: usize) -> (r: String)
    ensures
        r@ == spec_spaces(n as nat),
    decreases n,
{
    if n == 0 {
        String::new()
    } else {
        let mut s = spaces(n - 1);
        s.append(" ");
        s
    }
}

/// Whether two string slices have equal character views.
pub fn str_view_eq(a: &str, b: &str) -> (r: bool)
    ensures
        r == (a@ == b@),
{
    let la = a.unicode_len();
    let lb = b.unicode_len();
    if la != lb {
        return false;
    }
    let mut i: usize = 0;
    while i < la
        invariant
            la == a@.len(),
            la == b@.len(),
            i <= la,
            forall|j: int| 0 <= j < i ==> a@[j] == b@[j],
        decreases la - i,
    {
        if a.get_char(i) != b.get_char(i) {
            return false;
        }
        i += 1;
    }
    proof {
        assert(a@ =~= b@);
    }
    true
}

} // verus!
