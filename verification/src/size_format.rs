//! Byte counts as text, in binary units with two decimals.

use crate::text::{decimal, decimal_chars, digit_char, push_all, string_of};
use vstd::prelude::*;

verus! {

/// The names of the units, smallest first.
pub open spec fn unit_names() -> Seq<Seq<char>> {
    seq!["B"@, "KB"@, "MB"@, "GB"@, "TB"@, "PB"@]
}

/// The number of bytes in one unit.
pub open spec fn unit_bytes(unit: nat) -> nat {
    if unit == 0 {
        1
    } else if unit == 1 {
        0x400
    } else if unit == 2 {
        0x10_0000
    } else if unit == 3 {
        0x4000_0000
    } else if unit == 4 {
        0x100_0000_0000
    } else {
        0x4_0000_0000_0000
    }
}

/// The largest unit, up to `largest`, of which `size` holds at least one.
pub open spec fn unit_for(size: nat, largest: nat) -> nat {
    let fitting: nat = if size < unit_bytes(1) {
        0
    } else if size < unit_bytes(2) {
        1
    } else if size < unit_bytes(3) {
        2
    } else if size < unit_bytes(4) {
        3
    } else if size < unit_bytes(5) {
        4
    } else {
        5
    };
    if fitting < largest {
        fitting
    } else {
        largest
    }
}

/// `size` in hundredths of `unit`, rounded to the nearest; a tie goes to the even one.
pub open spec fn hundredths(size: nat, unit: nat) -> nat {
    let scaled = size * 100;
    let whole = scaled / unit_bytes(unit);
    let rest = scaled % unit_bytes(unit);
    if 2 * rest > unit_bytes(unit) || (2 * rest == unit_bytes(unit) && whole % 2 == 1) {
        whole + 1
    } else {
        whole
    }
}

/// A number of hundredths as text: the whole part, a point, two decimals.
pub open spec fn two_decimals(h: nat) -> Seq<char> {
    decimal(h / 100).push('.').push(digit_char((h % 100) / 10)).push(digit_char(h % 10))
}

/// The text for `size` bytes, in units up to `largest` (an index into
/// `unit_names`; beyond the last unit it has no effect). With `plain_bytes`, a size below one
/// kibibyte is written as a whole number of bytes.
pub open spec fn size_text(size: nat, largest: nat, plain_bytes: bool) -> Seq<char> {
    let unit = unit_for(size, largest);
    if plain_bytes && unit == 0 {
        decimal(size) + " "@ + unit_names()[0]
    } else {
        two_decimals(hundredths(size, unit)) + " "@ + unit_names()[unit as int]
    }
}

/// The name of a unit.
fn unit_name(unit: usize) -> (name: &'static str)
    requires
        unit <= 5,
    ensures
        name@ == unit_names()[unit as int],
{
    if unit == 0 {
        "B"
    } else if unit == 1 {
        "KB"
    } else if unit == 2 {
        "MB"
    } else if unit == 3 {
        "GB"
    } else if unit == 4 {
        "TB"
    } else {
        "PB"
    }
}

/// The number of bytes in one unit.
pub fn bytes_per_unit(unit: usize) -> (bytes: u64)
    ensures
        bytes == unit_bytes(unit as nat),
{
    if unit == 0 {
        1
    } else if unit == 1 {
        0x400
    } else if unit == 2 {
        0x10_0000
    } else if unit == 3 {
        0x4000_0000
    } else if unit == 4 {
        0x100_0000_0000
    } else {
        0x4_0000_0000_0000
    }
}

/// The unit in which `size` is written.
pub fn choose_unit(size: u64, largest: usize) -> (unit: usize)
    ensures
        unit == unit_for(size as nat, largest as nat),
        unit <= 5,
        unit <= largest,
{
    let fitting: usize = if size < 0x400 {
        0
    } else if size < 0x10_0000 {
        1
    } else if size < 0x4000_0000 {
        2
    } else if size < 0x100_0000_0000 {
        3
    } else if size < 0x4_0000_0000_0000 {
        4
    } else {
        5
    };
    if fitting < largest {
        fitting
    } else {
        largest
    }
}

/// `size` in hundredths of `unit`, rounded half to even.
pub fn to_hundredths(size: u64, unit: usize) -> (h: u128)
    ensures
        h == hundredths(size as nat, unit as nat),
{
    let per = bytes_per_unit(unit) as u128;
    let scaled: u128 = size as u128 * 100;
    let whole = scaled / per;
    let rest = scaled % per;
    if 2 * rest > per || (2 * rest == per && whole % 2 == 1) {
        whole + 1
    } else {
        whole
    }
}

/// The text of `size` bytes; see `size_text`.
pub fn format_size_in(size: u64, largest: usize, plain_bytes: bool) -> (s: String)
    ensures
        s@ == size_text(size as nat, largest as nat, plain_bytes),
{
    let unit = choose_unit(size, largest);
    let mut out: Vec<char> = Vec::new();
    if plain_bytes && unit == 0 {
        let digits = decimal_chars(size);
        push_all(&mut out, &digits);
    } else {
        let h = to_hundredths(size, unit);
        let whole = h / 100;
        assert(whole <= u64::MAX) by {
            assert(unit_bytes(unit as nat) >= 1);
            assert(size as nat * 100 / unit_bytes(unit as nat) <= size as nat * 100) by (nonlinear_arith)
                requires
                    unit_bytes(unit as nat) >= 1,
            ;
        }
        let digits = decimal_chars(whole as u64);
        push_all(&mut out, &digits);
        out.push('.');
        out.push(((48 + (h % 100) / 10) as u8) as char);
        out.push(((48 + h % 10) as u8) as char);
    }
    out.push(' ');
    let name = crate::text::chars_of(unit_name(unit));
    push_all(&mut out, &name);
    proof {
        reveal_strlit(" ");
        assert(" "@ =~= seq![' ']);
        assert(out@ =~= size_text(size as nat, largest as nat, plain_bytes));
    }
    string_of(&out)
}

} // verus!
