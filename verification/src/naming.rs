//! The names under which tiles are kept.
//!
//! A tile is named by its level, its row and its column, in that order and
//! in decimal, joined by underscores and led by a prefix where there is one.

use vstd::prelude::*;
use vstd::string::StringExecFns;

verus! {

/// The character of a decimal digit.
pub open spec fn digit_char(d: nat) -> char {
    if d == 0 {
        '0'
    } else if d == 1 {
        '1'
    } else if d == 2 {
        '2'
    } else if d == 3 {
        '3'
    } else if d == 4 {
        '4'
    } else if d == 5 {
        '5'
    } else if d == 6 {
        '6'
    } else if d == 7 {
        '7'
    } else if d == 8 {
        '8'
    } else {
        '9'
    }
}

/// The decimal numeral of a number, without leading zeros.
pub open spec fn decimal_digits(n: nat) -> Seq<char>
    decreases n,
{
    if n < 10 {
        seq![digit_char(n)]
    } else {
        decimal_digits(n / 10).push(digit_char(n % 10))
    }
}

/// The name of the tile in column `x` of row `y` at level `z`.
pub open spec fn file_name_of(x: u32, y: u32, z: u32, prefix: Seq<char>) -> Seq<char> {
    let lead = if prefix.len() == 0 {
        prefix
    } else {
        prefix.push('_')
    };
    lead + decimal_digits(z as nat) + seq!['_'] + decimal_digits(y as nat) + seq!['_']
        + decimal_digits(x as nat)
}

fn digit_str(d: u32) -> (s: &'static str)
    requires
        d < 10,
    ensures
        s@ == seq![digit_char(d as nat)],
{
    proof {
        reveal_strlit("0");
        reveal_strlit("1");
        reveal_strlit("2");
        reveal_strlit("3");
        reveal_strlit("4");
        reveal_strlit("5");
        reveal_strlit("6");
        reveal_strlit("7");
        reveal_strlit("8");
        reveal_strlit("9");
    }
    let s = if d == 0 {
        "0"
    } else if d == 1 {
        "1"
    } else if d == 2 {
        "2"
    } else if d == 3 {
        "3"
    } else if d == 4 {
        "4"
    } else if d == 5 {
        "5"
    } else if d == 6 {
        "6"
    } else if d == 7 {
        "7"
    } else if d == 8 {
        "8"
    } else {
        "9"
    };
    assert(s@ =~= seq![digit_char(d as nat)]);
    s
}

/// Appends the decimal numeral of `n` to a string.
pub fn push_decimal(text: &mut String, n: u32)
    ensures
        final(text)@ == old(text)@ + decimal_digits(n as nat),
    decreases n,
{
    if n >= 10 {
        push_decimal(text, n / 10);
    }
    text.append(digit_str(n % 10));
    assert(text@ =~= old(text)@ + decimal_digits(n as nat));
}

/// Builds the name of the tile in column `x` of row `y` at level `z`:
/// `prefix_z_y_x`, or `z_y_x` where the prefix is empty.
pub fn get_file_name(x: u32, y: u32, z: u32, prefix: &str) -> (name: String)
    ensures
        name@ == file_name_of(x, y, z, prefix@),
{
    proof {
        reveal_strlit("_");
    }
    let mut name = String::from_str(prefix);
    if !prefix.is_empty() {
        name.append("_");
    }
    let ghost lead = name@;
    assert(lead =~= if prefix@.len() == 0 {
        prefix@
    } else {
        prefix@.push('_')
    });
    push_decimal(&mut name, z);
    name.append("_");
    push_decimal(&mut name, y);
    name.append("_");
    push_decimal(&mut name, x);
    assert(name@ =~= file_name_of(x, y, z, prefix@));
    name
}

} // verus!
