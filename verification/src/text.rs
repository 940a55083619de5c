//! Small text-building helpers shared by the argument builders and the
//! session-key derivation: appending single characters to a `String` and
//! rendering small integers in decimal.

use vstd::prelude::*;

verus! {

/// Relies on `String::push`: appends exactly one character to the string.
#[verifier::external_body]
pub(crate) fn push_char(s: &mut String, c: char)
    ensures
        final(s)@ == old(s)@.push(c),
{
    s.push(c);
}

/// The decimal digit character for a value below ten.
pub open spec fn dec_digit(d: int) -> char {
    if d == 0 {
        '0'
    } else if d == 1 {
        '1'
    } else if d == 2 {
        '2'
    } else if d == 3 {
        '3'
    } else if d == 4 {
        '4'
    } else if d == 5 {
        '5'
    } else if d == 6 {
        '6'
    } else if d == 7 {
        '7'
    } else if d == 8 {
        '8'
    } else {
        '9'
    }
}

/// The usual decimal rendering of a non-negative integer: no sign, no
/// leading zeros except for zero itself.
pub open spec fn dec_of(n: int) -> Seq<char>
    decreases n,
{
    if n < 10 {
        seq![dec_digit(n)]
    } else {
        dec_of(n / 10).push(dec_digit(n % 10))
    }
}

fn digit_char(d: u8) -> (c: char)
    requires
        d < 10,
    ensures
        c == dec_digit(d as int),
{
    match d {
        0 => '0',
        1 => '1',
        2 => '2',
        3 => '3',
        4 => '4',
        5 => '5',
        6 => '6',
        7 => '7',
        8 => '8',
        _ => '9',
    }
}

/// Renders a byte-sized count (transition step, frame rate) in decimal, as
/// it is passed on a renderer command line.
pub fn u8_to_string(n: u8) -> (r: String)
    ensures
        r@ == dec_of(n as int),
{
    let mut r = String::new();
    if n >= 100 {
        push_char(&mut r, digit_char(n / 100));
    }
    if n >= 10 {
        push_char(&mut r, digit_char((n / 10) % 10));
    }
    push_char(&mut r, digit_char(n % 10));
    proof {
        let ni = n as int;
        if ni >= 100 {
            assert(ni / 10 / 10 == ni / 100);
            assert(ni / 100 < 10);
            assert(dec_of(ni) == dec_of(ni / 10).push(dec_digit(ni % 10)));
            assert(dec_of(ni / 10) == dec_of(ni / 100).push(dec_digit(ni / 10 % 10)));
            assert(dec_of(ni / 100) == seq![dec_digit(ni / 100)]);
            assert(r@ =~= dec_of(ni));
        } else if ni >= 10 {
            assert(ni / 10 < 10);
            assert(ni / 10 % 10 == ni / 10);
            assert(dec_of(ni) == dec_of(ni / 10).push(dec_digit(ni % 10)));
            assert(dec_of(ni / 10) == seq![dec_digit(ni / 10)]);
            assert(r@ =~= dec_of(ni));
        } else {
            assert(ni % 10 == ni);
            assert(r@ =~= dec_of(ni));
        }
    }
    r
}

} // verus!
