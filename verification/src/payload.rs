//! Parsing of the compositor status tools' structured output.
//!
//! The CLI status tools print a JSON array of monitor objects, sometimes
//! prefixed with diagnostic text; `json_payload` discards everything
//! before the first structural delimiter, and `parse_status` extracts one
//! entry per object: its "name" string and its "active" flag (an object
//! without the flag counts as active). Other keys are skipped after a
//! structural check (balanced nesting, well-formed strings and numbers);
//! their content is not otherwise inspected. Names and the two known keys
//! must be plain ASCII; escapes denoting characters beyond ASCII are
//! rejected, and the two key names are recognized in their unescaped
//! spelling only.

use vstd::prelude::*;
use vstd::slice::slice_subrange;
use crate::monitors::{DiscoveryError, MonitorEntry};
use crate::text::push_char;

verus! {

/// JSON insignificant whitespace.
pub open spec fn is_ws(b: u8) -> bool {
    b == 32 || b == 9 || b == 10 || b == 13
}

/// The first non-whitespace position at or after `i`.
pub open spec fn skip_ws(s: Seq<u8>, i: int) -> int
    decreases s.len() - i,
{
    if 0 <= i < s.len() && is_ws(s[i]) {
        skip_ws(s, i + 1)
    } else {
        i
    }
}

/// The first position of `b` at or after `i`, if any.
pub open spec fn first_from(s: Seq<u8>, i: int, b: u8) -> Option<int>
    decreases s.len() - i,
{
    if !(0 <= i < s.len()) {
        None
    } else if s[i] == b {
        Some(i)
    } else {
        first_from(s, i + 1, b)
    }
}

/// Where the structured payload begins: at the first opening bracket, or
/// failing that the first opening brace, or position zero when neither
/// occurs.
pub open spec fn payload_start(s: Seq<u8>) -> int {
    match first_from(s, 0, 91) {
        Some(i) => i,
        None => match first_from(s, 0, 123) {
            Some(i) => i,
            None => 0,
        },
    }
}

/// The value of a hexadecimal digit.
pub open spec fn hex_val(b: u8) -> Option<u8> {
    if 48 <= b <= 57 {
        Some((b - 48) as u8)
    } else if 97 <= b <= 102 {
        Some((b - 87) as u8)
    } else if 65 <= b <= 70 {
        Some((b - 55) as u8)
    } else {
        None
    }
}

/// The character denoted by a single-letter escape.
pub open spec fn simple_escape(b: u8) -> Option<char> {
    if b == 34 {
        Some('"')
    } else if b == 92 {
        Some('\\')
    } else if b == 47 {
        Some('/')
    } else if b == 98 {
        Some('\u{0008}')
    } else if b == 102 {
        Some('\u{000c}')
    } else if b == 110 {
        Some('\n')
    } else if b == 114 {
        Some('\r')
    } else if b == 116 {
        Some('\t')
    } else {
        None
    }
}

/// Scans a string body from just after the opening quote to just after
/// the closing one, without decoding: escapes are skipped pairwise, raw
/// control bytes are rejected, anything else (non-ASCII bytes included)
/// passes through opaquely.
pub open spec fn scan_string(s: Seq<u8>, i: int) -> Option<int>
    decreases s.len() - i,
{
    if !(0 <= i < s.len()) {
        None
    } else if s[i] == 34 {
        Some(i + 1)
    } else if s[i] == 92 {
        if i + 1 < s.len() {
            scan_string(s, i + 2)
        } else {
            None
        }
    } else if s[i] < 32 {
        None
    } else {
        scan_string(s, i + 1)
    }
}

/// Decodes a string body from just after the opening quote: the decoded
/// characters and the position after the closing quote. Only ASCII
/// content is accepted — a raw byte beyond ASCII, or an escape denoting a
/// character beyond ASCII, rejects the string.
pub open spec fn decode_string(s: Seq<u8>, i: int) -> Option<(Seq<char>, int)>
    decreases s.len() - i,
{
    if !(0 <= i < s.len()) {
        None
    } else if s[i] == 34 {
        Some((Seq::empty(), i + 1))
    } else if s[i] == 92 {
        if i + 1 >= s.len() {
            None
        } else if s[i + 1] == 117 {
            if s.len() - i >= 6 {
                match (hex_val(s[i + 2]), hex_val(s[i + 3]), hex_val(s[i + 4]), hex_val(
                    s[i + 5],
                )) {
                    (Some(h0), Some(h1), Some(h2), Some(h3)) => {
                        let cp = h0 * 4096 + h1 * 256 + h2 * 16 + h3;
                        if cp < 128 {
                            match decode_string(s, i + 6) {
                                Some((t, j)) => Some((seq![cp as char] + t, j)),
                                None => None,
                            }
                        } else {
                            None
                        }
                    },
                    _ => None,
                }
            } else {
                None
            }
        } else {
            match simple_escape(s[i + 1]) {
                Some(c) => match decode_string(s, i + 2) {
                    Some((t, j)) => Some((seq![c] + t, j)),
                    None => None,
                },
                None => None,
            }
        }
    } else if 32 <= s[i] < 128 {
        match decode_string(s, i + 1) {
            Some((t, j)) => Some((seq![s[i] as char] + t, j)),
            None => None,
        }
    } else {
        None
    }
}

/// The position after the run of decimal digits starting at `i`.
pub open spec fn digits_end(s: Seq<u8>, i: int) -> int
    decreases s.len() - i,
{
    if 0 <= i < s.len() && 48 <= s[i] <= 57 {
        digits_end(s, i + 1)
    } else {
        i
    }
}

/// Scans a JSON number starting at `i`: an optional minus sign, an
/// integer part without leading zeros, an optional fraction and an
/// optional exponent; the position after it.
pub open spec fn scan_number(s: Seq<u8>, i: int) -> Option<int> {
    let j = if 0 <= i < s.len() && s[i] == 45 {
        i + 1
    } else {
        i
    };
    if !(0 <= j < s.len() && 48 <= s[j] <= 57) {
        None
    } else {
        let k = if s[j] == 48 {
            j + 1
        } else {
            digits_end(s, j)
        };
        let m = if k < s.len() && s[k] == 46 {
            if k + 1 < s.len() && 48 <= s[k + 1] <= 57 {
                digits_end(s, k + 1)
            } else {
                -1
            }
        } else {
            k
        };
        if m < 0 {
            None
        } else {
            let e = if m < s.len() && (s[m] == 101 || s[m] == 69) {
                let p = if m + 1 < s.len() && (s[m + 1] == 43 || s[m + 1] == 45) {
                    m + 2
                } else {
                    m + 1
                };
                if p < s.len() && 48 <= s[p] <= 57 {
                    digits_end(s, p)
                } else {
                    -1
                }
            } else {
                m
            };
            if e < 0 {
                None
            } else {
                Some(e)
            }
        }
    }
}

/// Whether the literal `lit` occurs at `i`.
pub open spec fn has_lit(s: Seq<u8>, i: int, lit: Seq<u8>) -> bool {
    0 <= i && i + lit.len() <= s.len() && s.subrange(i, i + lit.len()) == lit
}

/// The bytes of "true", "false" and "null".
pub open spec fn lit_true() -> Seq<u8> {
    seq![116u8, 114u8, 117u8, 101u8]
}

pub open spec fn lit_false() -> Seq<u8> {
    seq![102u8, 97u8, 108u8, 115u8, 101u8]
}

pub open spec fn lit_null() -> Seq<u8> {
    seq![110u8, 117u8, 108u8, 108u8]
}

/// Skips one value whose first byte stands at `i` (whitespace already
/// skipped): a string, number, literal, object or array; the position
/// after it.
pub open spec fn skip_value(s: Seq<u8>, i: int) -> Option<int>
    decreases s.len() - i, 0int,
{
    if !(0 <= i < s.len()) {
        None
    } else if s[i] == 34 {
        scan_string(s, i + 1)
    } else if s[i] == 123 {
        skip_object_body(s, i + 1)
    } else if s[i] == 91 {
        skip_array_body(s, i + 1)
    } else if s[i] == 116 {
        if has_lit(s, i, lit_true()) {
            Some(i + 4)
        } else {
            None
        }
    } else if s[i] == 102 {
        if has_lit(s, i, lit_false()) {
            Some(i + 5)
        } else {
            None
        }
    } else if s[i] == 110 {
        if has_lit(s, i, lit_null()) {
            Some(i + 4)
        } else {
            None
        }
    } else if s[i] == 45 || (48 <= s[i] <= 57) {
        scan_number(s, i)
    } else {
        None
    }
}

/// Skips an object body from just after the opening brace to just after
/// the matching closing one.
pub open spec fn skip_object_body(s: Seq<u8>, i: int) -> Option<int>
    decreases s.len() - i, 2int,
{
    if !(0 <= i <= s.len()) {
        None
    } else {
        let j = skip_ws(s, i);
        if j < s.len() && s[j] == 125 {
            Some(j + 1)
        } else if i <= j <= s.len() {
            skip_members(s, j)
        } else {
            None
        }
    }
}

/// Skips members from the first key's quote onward, up to just after the
/// object's closing brace.
pub open spec fn skip_members(s: Seq<u8>, i: int) -> Option<int>
    decreases s.len() - i, 1int,
{
    if !(0 <= i < s.len() && s[i] == 34) {
        None
    } else {
        match scan_string(s, i + 1) {
            None => None,
            Some(j) => {
                let k = skip_ws(s, j);
                if !(i < k < s.len() && s[k] == 58) {
                    None
                } else {
                    let v = skip_ws(s, k + 1);
                    if !(k < v && v <= s.len()) {
                        None
                    } else {
                        match skip_value(s, v) {
                            None => None,
                            Some(w) => {
                                let x = skip_ws(s, w);
                                if !(v < x && x < s.len()) {
                                    None
                                } else if s[x] == 125 {
                                    Some(x + 1)
                                } else if s[x] == 44 {
                                    let y = skip_ws(s, x + 1);
                                    if x < y && y <= s.len() {
                                        skip_members(s, y)
                                    } else {
                                        None
                                    }
                                } else {
                                    None
                                }
                            },
                        }
                    }
                }
            },
        }
    }
}

/// Skips an array body from just after the opening bracket to just after
/// the matching closing one.
pub open spec fn skip_array_body(s: Seq<u8>, i: int) -> Option<int>
    decreases s.len() - i, 2int,
{
    if !(0 <= i <= s.len()) {
        None
    } else {
        let j = skip_ws(s, i);
        if j < s.len() && s[j] == 93 {
            Some(j + 1)
        } else if i <= j <= s.len() {
            skip_elements(s, j)
        } else {
            None
        }
    }
}

/// Skips elements from the first element's first byte onward, up to just
/// after the array's closing bracket.
pub open spec fn skip_elements(s: Seq<u8>, i: int) -> Option<int>
    decreases s.len() - i, 1int,
{
    if !(0 <= i < s.len()) {
        None
    } else {
        match skip_value(s, i) {
            None => None,
            Some(w) => {
                let x = skip_ws(s, w);
                if !(i < x && x < s.len()) {
                    None
                } else if s[x] == 93 {
                    Some(x + 1)
                } else if s[x] == 44 {
                    let y = skip_ws(s, x + 1);
                    if x < y && y <= s.len() {
                        skip_elements(s, y)
                    } else {
                        None
                    }
                } else {
                    None
                }
            },
        }
    }
}

/// The raw (undecoded) bytes of a key whose opening quote stands at `i`
/// and whose closing quote stands just before `j`.
pub open spec fn raw_key(s: Seq<u8>, i: int, j: int) -> Seq<u8> {
    s.subrange(i + 1, j - 1)
}

/// The bytes of the two keys this parser understands.
pub open spec fn key_name() -> Seq<u8> {
    seq![110u8, 97u8, 109u8, 101u8]
}

pub open spec fn key_active() -> Seq<u8> {
    seq![97u8, 99u8, 116u8, 105u8, 118u8, 101u8]
}

/// Parses members from the first key's quote onward, accumulating the
/// "name" and "active" fields: the entry and the position after the
/// object's closing brace. A repeated known key, a "name" that is not a
/// string, an "active" that is not a boolean literal, or an object that
/// ends without a "name" is an error; unknown keys are skipped. An
/// absent "active" counts as active.
pub open spec fn parse_members(
    s: Seq<u8>,
    i: int,
    name: Option<Seq<char>>,
    active: Option<bool>,
) -> Option<(Seq<char>, bool, int)>
    decreases s.len() - i,
{
    if !(0 <= i < s.len() && s[i] == 34) {
        None
    } else {
        match scan_string(s, i + 1) {
            None => None,
            Some(j) => {
                let k = skip_ws(s, j);
                if !(i < k < s.len() && s[k] == 58) {
                    None
                } else {
                    let v = skip_ws(s, k + 1);
                    if !(k < v && v < s.len()) {
                        None
                    } else {
                        let stepped = parse_one_member(s, i, j, v, name, active);
                        match stepped {
                            None => None,
                            Some((name2, active2, w)) => {
                                let x = skip_ws(s, w);
                                if !(v < x && x < s.len()) {
                                    None
                                } else if s[x] == 125 {
                                    match name2 {
                                        Some(nm) => Some(
                                            (
                                                nm,
                                                if active2 is Some {
                                                    active2->0
                                                } else {
                                                    true
                                                },
                                                x + 1,
                                            ),
                                        ),
                                        None => None,
                                    }
                                } else if s[x] == 44 {
                                    let y = skip_ws(s, x + 1);
                                    if x < y && y <= s.len() {
                                        parse_members(s, y, name2, active2)
                                    } else {
                                        None
                                    }
                                } else {
                                    None
                                }
                            },
                        }
                    }
                }
            },
        }
    }
}

/// Handles one member whose key spans `i..j` and whose value starts at
/// `v`: binds "name" or "active", or skips an unknown key's value; the
/// updated fields and the position after the value.
pub open spec fn parse_one_member(
    s: Seq<u8>,
    i: int,
    j: int,
    v: int,
    name: Option<Seq<char>>,
    active: Option<bool>,
) -> Option<(Option<Seq<char>>, Option<bool>, int)> {
    if raw_key(s, i, j) == key_name() {
        if name is Some {
            None
        } else if v < s.len() && s[v] == 34 {
            match decode_string(s, v + 1) {
                Some((nm, w)) => Some((Some(nm), active, w)),
                None => None,
            }
        } else {
            None
        }
    } else if raw_key(s, i, j) == key_active() {
        if active is Some {
            None
        } else if has_lit(s, v, lit_true()) {
            Some((name, Some(true), v + 4))
        } else if has_lit(s, v, lit_false()) {
            Some((name, Some(false), v + 5))
        } else {
            None
        }
    } else {
        match skip_value(s, v) {
            Some(w) => Some((name, active, w)),
            None => None,
        }
    }
}

/// Parses array elements from the first element's first byte onward:
/// each must be a monitor object; the entries and the position after the
/// closing bracket.
pub open spec fn parse_entries(s: Seq<u8>, i: int, acc: Seq<(Seq<char>, bool)>) -> Option<
    (Seq<(Seq<char>, bool)>, int),
>
    decreases s.len() - i,
{
    if !(0 <= i < s.len() && s[i] == 123) {
        None
    } else {
        let j = skip_ws(s, i + 1);
        if !(i < j && j < s.len()) {
            None
        } else {
            match parse_members(s, j, None, None) {
                None => None,
                Some((nm, act, w)) => {
                    let x = skip_ws(s, w);
                    if !(i < x && x < s.len()) {
                        None
                    } else if s[x] == 93 {
                        Some((acc.push((nm, act)), x + 1))
                    } else if s[x] == 44 {
                        let y = skip_ws(s, x + 1);
                        if x < y && y <= s.len() {
                            parse_entries(s, y, acc.push((nm, act)))
                        } else {
                            None
                        }
                    } else {
                        None
                    }
                },
            }
        }
    }
}

/// The monitor entries denoted by a structured payload: a JSON array of
/// monitor objects with nothing but whitespace around it, or nothing
/// when the payload is malformed.
pub open spec fn spec_parse_monitors(s: Seq<u8>) -> Option<Seq<(Seq<char>, bool)>> {
    let i = skip_ws(s, 0);
    if !(0 <= i < s.len() && s[i] == 91) {
        None
    } else {
        let j = skip_ws(s, i + 1);
        if !(i < j && j < s.len()) {
            None
        } else if s[j] == 93 {
            if skip_ws(s, j + 1) == s.len() {
                Some(Seq::empty())
            } else {
                None
            }
        } else {
            match parse_entries(s, j, Seq::empty()) {
                None => None,
                Some((entries, w)) => {
                    if skip_ws(s, w) == s.len() {
                        Some(entries)
                    } else {
                        None
                    }
                },
            }
        }
    }
}

/// The first non-whitespace position at or after `i`.
fn ws_end(s: &[u8], i: usize) -> (r: usize)
    requires
        i <= s@.len(),
    ensures
        r == skip_ws(s@, i as int),
        i <= r <= s@.len(),
    decreases s@.len() - i,
{
    if i < s.len() && (s[i] == 32 || s[i] == 9 || s[i] == 10 || s[i] == 13) {
        ws_end(s, i + 1)
    } else {
        i
    }
}

/// The first position of `b` at or after `i`, if any.
fn find_from(s: &[u8], i: usize, b: u8) -> (r: Option<usize>)
    requires
        i <= s@.len(),
    ensures
        r is Some <==> first_from(s@, i as int, b) is Some,
        r is Some ==> Some(r->0 as int) == first_from(s@, i as int, b) && i <= r->0 < s@.len(),
    decreases s@.len() - i,
{
    if i >= s.len() {
        None
    } else if s[i] == b {
        Some(i)
    } else {
        find_from(s, i + 1, b)
    }
}

/// Cuts the structured payload out of the raw tool output: everything
/// from the first opening bracket (or, failing that, the first opening
/// brace) onward; the whole output when neither occurs.
pub fn json_payload(s: &[u8]) -> (r: &[u8])
    ensures
        r@ == s@.subrange(payload_start(s@), s@.len() as int),
{
    let start = match find_from(s, 0, 91) {
        Some(i) => i,
        None => match find_from(s, 0, 123) {
            Some(i) => i,
            None => 0,
        },
    };
    slice_subrange(s, start, s.len())
}

/// The value of a hexadecimal digit byte.
fn hex_digit(b: u8) -> (r: Option<u8>)
    ensures
        r == hex_val(b),
{
    if 48 <= b && b <= 57 {
        Some(b - 48)
    } else if 97 <= b && b <= 102 {
        Some(b - 87)
    } else if 65 <= b && b <= 70 {
        Some(b - 55)
    } else {
        None
    }
}

/// The character denoted by a single-letter escape byte.
fn escape_char(b: u8) -> (r: Option<char>)
    ensures
        r == simple_escape(b),
{
    if b == 34 {
        Some('"')
    } else if b == 92 {
        Some('\\')
    } else if b == 47 {
        Some('/')
    } else if b == 98 {
        Some('\u{0008}')
    } else if b == 102 {
        Some('\u{000c}')
    } else if b == 110 {
        Some('\n')
    } else if b == 114 {
        Some('\r')
    } else if b == 116 {
        Some('\t')
    } else {
        None
    }
}

/// Scans past a string body, from just after the opening quote.
fn scan_string_end(s: &[u8], i: usize) -> (r: Option<usize>)
    requires
        i <= s@.len(),
    ensures
        r is Some <==> scan_string(s@, i as int) is Some,
        r is Some ==> Some(r->0 as int) == scan_string(s@, i as int) && i < r->0 <= s@.len(),
    decreases s@.len() - i,
{
    if i >= s.len() {
        None
    } else if s[i] == 34 {
        Some(i + 1)
    } else if s[i] == 92 {
        if i + 1 < s.len() {
            scan_string_end(s, i + 2)
        } else {
            None
        }
    } else if s[i] < 32 {
        None
    } else {
        scan_string_end(s, i + 1)
    }
}

/// Decodes a string body from just after the opening quote, appending
/// its characters to `acc`; the position after the closing quote. When
/// the string is rejected, whatever was appended is discarded by the
/// caller.
fn decode_into(s: &[u8], i: usize, acc: &mut String) -> (r: Option<usize>)
    requires
        i <= s@.len(),
    ensures
        r is Some <==> decode_string(s@, i as int) is Some,
        r is Some ==> final(acc)@ == old(acc)@ + (decode_string(s@, i as int)->0).0 && Some(
            r->0 as int,
        ) == Some((decode_string(s@, i as int)->0).1) && i < r->0 <= s@.len(),
    decreases s@.len() - i,
{
    if i >= s.len() {
        return None;
    }
    let b = s[i];
    if b == 34 {
        assert(old(acc)@ + Seq::<char>::empty() =~= old(acc)@);
        Some(i + 1)
    } else if b == 92 {
        if i + 1 >= s.len() {
            None
        } else if s[i + 1] == 117 {
            if s.len() - i >= 6 {
                let h0 = hex_digit(s[i + 2]);
                let h1 = hex_digit(s[i + 3]);
                let h2 = hex_digit(s[i + 4]);
                let h3 = hex_digit(s[i + 5]);
                match (h0, h1, h2, h3) {
                    (Some(h0), Some(h1), Some(h2), Some(h3)) => {
                        let cp: u32 = (h0 as u32) * 4096 + (h1 as u32) * 256 + (h2 as u32) * 16 + (
                        h3 as u32);
                        if cp < 128 {
                            let c = (cp as u8) as char;
                            push_char(acc, c);
                            let ghost mid = acc@;
                            let r = decode_into(s, i + 6, acc);
                            proof {
                                if r is Some {
                                    let t = (decode_string(s@, i + 6)->0).0;
                                    assert(old(acc)@ + (seq![c] + t) =~= (old(acc)@.push(c)) + t);
                                    assert(old(acc)@.push(c) =~= old(acc)@ + seq![c]);
                                }
                            }
                            r
                        } else {
                            None
                        }
                    },
                    _ => None,
                }
            } else {
                None
            }
        } else {
            match escape_char(s[i + 1]) {
                Some(c) => {
                    push_char(acc, c);
                    let r = decode_into(s, i + 2, acc);
                    proof {
                        if r is Some {
                            let t = (decode_string(s@, i + 2)->0).0;
                            assert(old(acc)@ + (seq![c] + t) =~= (old(acc)@.push(c)) + t);
                        }
                    }
                    r
                },
                None => None,
            }
        }
    } else if 32 <= b && b < 128 {
        let c = b as char;
        push_char(acc, c);
        let r = decode_into(s, i + 1, acc);
        proof {
            if r is Some {
                let t = (decode_string(s@, i + 1)->0).0;
                assert(old(acc)@ + (seq![c] + t) =~= (old(acc)@.push(c)) + t);
            }
        }
        r
    } else {
        None
    }
}

/// The position after the run of decimal digits starting at `i`.
fn digits_end_at(s: &[u8], i: usize) -> (r: usize)
    requires
        i <= s@.len(),
    ensures
        r == digits_end(s@, i as int),
        i <= r <= s@.len(),
        (i < s@.len() && 48 <= s@[i as int] <= 57) ==> r > i,
    decreases s@.len() - i,
{
    if i < s.len() && 48 <= s[i] && s[i] <= 57 {
        digits_end_at(s, i + 1)
    } else {
        i
    }
}

/// Scans past a number starting at `i`.
fn scan_number_end(s: &[u8], i: usize) -> (r: Option<usize>)
    requires
        i < s@.len(),
    ensures
        r is Some <==> scan_number(s@, i as int) is Some,
        r is Some ==> Some(r->0 as int) == scan_number(s@, i as int) && i < r->0 <= s@.len(),
{
    let j = if s[i] == 45 {
        i + 1
    } else {
        i
    };
    if !(j < s.len() && 48 <= s[j] && s[j] <= 57) {
        return None;
    }
    let k = if s[j] == 48 {
        j + 1
    } else {
        digits_end_at(s, j)
    };
    let m_ok: bool;
    let m: usize;
    if k < s.len() && s[k] == 46 {
        if k + 1 < s.len() && 48 <= s[k + 1] && s[k + 1] <= 57 {
            m = digits_end_at(s, k + 1);
            m_ok = true;
        } else {
            m = 0;
            m_ok = false;
        }
    } else {
        m = k;
        m_ok = true;
    }
    if !m_ok {
        return None;
    }
    if m < s.len() && (s[m] == 101 || s[m] == 69) {
        let p = if m + 1 < s.len() && (s[m + 1] == 43 || s[m + 1] == 45) {
            m + 2
        } else {
            m + 1
        };
        if p < s.len() && 48 <= s[p] && s[p] <= 57 {
            Some(digits_end_at(s, p))
        } else {
            None
        }
    } else {
        Some(m)
    }
}

/// Whether "true" stands at `i`.
fn true_at(s: &[u8], i: usize) -> (r: bool)
    requires
        i <= s@.len(),
    ensures
        r == has_lit(s@, i as int, lit_true()),
{
    let r = s.len() - i >= 4 && s[i] == 116 && s[i + 1] == 114 && s[i + 2] == 117 && s[i + 3]
        == 101;
    proof {
        if r {
            assert(s@.subrange(i as int, i + 4) =~= lit_true());
        } else if i + 4 <= s@.len() && s@.subrange(i as int, i + 4) == lit_true() {
            assert(s@[i as int] == lit_true()[0]);
            assert(s@[i + 1] == lit_true()[1]);
            assert(s@[i + 2] == lit_true()[2]);
            assert(s@[i + 3] == lit_true()[3]);
        }
    }
    r
}

/// Whether "false" stands at `i`.
fn false_at(s: &[u8], i: usize) -> (r: bool)
    requires
        i <= s@.len(),
    ensures
        r == has_lit(s@, i as int, lit_false()),
{
    let r = s.len() - i >= 5 && s[i] == 102 && s[i + 1] == 97 && s[i + 2] == 108 && s[i + 3] == 115
        && s[i + 4] == 101;
    proof {
        if r {
            assert(s@.subrange(i as int, i + 5) =~= lit_false());
        } else if i + 5 <= s@.len() && s@.subrange(i as int, i + 5) == lit_false() {
            assert(s@[i as int] == lit_false()[0]);
            assert(s@[i + 1] == lit_false()[1]);
            assert(s@[i + 2] == lit_false()[2]);
            assert(s@[i + 3] == lit_false()[3]);
            assert(s@[i + 4] == lit_false()[4]);
        }
    }
    r
}

/// Whether "null" stands at `i`.
fn null_at(s: &[u8], i: usize) -> (r: bool)
    requires
        i <= s@.len(),
    ensures
        r == has_lit(s@, i as int, lit_null()),
{
    let r = s.len() - i >= 4 && s[i] == 110 && s[i + 1] == 117 && s[i + 2] == 108 && s[i + 3]
        == 108;
    proof {
        if r {
            assert(s@.subrange(i as int, i + 4) =~= lit_null());
        } else if i + 4 <= s@.len() && s@.subrange(i as int, i + 4) == lit_null() {
            assert(s@[i as int] == lit_null()[0]);
            assert(s@[i + 1] == lit_null()[1]);
            assert(s@[i + 2] == lit_null()[2]);
            assert(s@[i + 3] == lit_null()[3]);
        }
    }
    r
}

/// Skips past one value whose first byte stands at `i`.
fn skip_value_at(s: &[u8], i: usize) -> (r: Option<usize>)
    requires
        i <= s@.len(),
    ensures
        r is Some <==> skip_value(s@, i as int) is Some,
        r is Some ==> Some(r->0 as int) == skip_value(s@, i as int) && i < r->0 <= s@.len(),
    decreases s@.len() - i, 0int,
{
    if i >= s.len() {
        None
    } else if s[i] == 34 {
        scan_string_end(s, i + 1)
    } else if s[i] == 123 {
        skip_object_body_at(s, i + 1)
    } else if s[i] == 91 {
        skip_array_body_at(s, i + 1)
    } else if s[i] == 116 {
        if true_at(s, i) {
            Some(i + 4)
        } else {
            None
        }
    } else if s[i] == 102 {
        if false_at(s, i) {
            Some(i + 5)
        } else {
            None
        }
    } else if s[i] == 110 {
        if null_at(s, i) {
            Some(i + 4)
        } else {
            None
        }
    } else if s[i] == 45 || (48 <= s[i] && s[i] <= 57) {
        scan_number_end(s, i)
    } else {
        None
    }
}

/// Skips past an object body, from just after the opening brace.
fn skip_object_body_at(s: &[u8], i: usize) -> (r: Option<usize>)
    requires
        i <= s@.len(),
    ensures
        r is Some <==> skip_object_body(s@, i as int) is Some,
        r is Some ==> Some(r->0 as int) == skip_object_body(s@, i as int) && i < r->0 <= s@.len(),
    decreases s@.len() - i, 2int,
{
    let j = ws_end(s, i);
    if j < s.len() && s[j] == 125 {
        Some(j + 1)
    } else {
        skip_members_at(s, j)
    }
}

/// Skips past members, from the first key's quote.
fn skip_members_at(s: &[u8], i: usize) -> (r: Option<usize>)
    requires
        i <= s@.len(),
    ensures
        r is Some <==> skip_members(s@, i as int) is Some,
        r is Some ==> Some(r->0 as int) == skip_members(s@, i as int) && i < r->0 <= s@.len(),
    decreases s@.len() - i, 1int,
{
    if !(i < s.len() && s[i] == 34) {
        return None;
    }
    let j = match scan_string_end(s, i + 1) {
        None => {
            return None;
        },
        Some(j) => j,
    };
    let k = ws_end(s, j);
    if !(i < k && k < s.len() && s[k] == 58) {
        return None;
    }
    let v = ws_end(s, k + 1);
    if !(k < v && v <= s.len()) {
        return None;
    }
    let w = match skip_value_at(s, v) {
        None => {
            return None;
        },
        Some(w) => w,
    };
    let x = ws_end(s, w);
    if !(v < x && x < s.len()) {
        return None;
    }
    if s[x] == 125 {
        Some(x + 1)
    } else if s[x] == 44 {
        let y = ws_end(s, x + 1);
        if x < y && y <= s.len() {
            skip_members_at(s, y)
        } else {
            None
        }
    } else {
        None
    }
}

/// Skips past an array body, from just after the opening bracket.
fn skip_array_body_at(s: &[u8], i: usize) -> (r: Option<usize>)
    requires
        i <= s@.len(),
    ensures
        r is Some <==> skip_array_body(s@, i as int) is Some,
        r is Some ==> Some(r->0 as int) == skip_array_body(s@, i as int) && i < r->0 <= s@.len(),
    decreases s@.len() - i, 2int,
{
    let j = ws_end(s, i);
    if j < s.len() && s[j] == 93 {
        Some(j + 1)
    } else {
        skip_elements_at(s, j)
    }
}

/// Skips past elements, from the first element's first byte.
fn skip_elements_at(s: &[u8], i: usize) -> (r: Option<usize>)
    requires
        i <= s@.len(),
    ensures
        r is Some <==> skip_elements(s@, i as int) is Some,
        r is Some ==> Some(r->0 as int) == skip_elements(s@, i as int) && i < r->0 <= s@.len(),
    decreases s@.len() - i, 1int,
{
    if i >= s.len() {
        return None;
    }
    let w = match skip_value_at(s, i) {
        None => {
            return None;
        },
        Some(w) => w,
    };
    let x = ws_end(s, w);
    if !(i < x && x < s.len()) {
        return None;
    }
    if s[x] == 93 {
        Some(x + 1)
    } else if s[x] == 44 {
        let y = ws_end(s, x + 1);
        if x < y && y <= s.len() {
            skip_elements_at(s, y)
        } else {
            None
        }
    } else {
        None
    }
}

/// Whether the key spanning `i..j` (quotes included) is "name".
fn key_is_name(s: &[u8], i: usize, j: usize) -> (r: bool)
    requires
        i + 2 <= j && j <= s@.len(),
    ensures
        r == (raw_key(s@, i as int, j as int) == key_name()),
{
    let r = j - i == 6 && s[i + 1] == 110 && s[i + 2] == 97 && s[i + 3] == 109 && s[i + 4] == 101;
    proof {
        let rk = raw_key(s@, i as int, j as int);
        if r {
            assert(rk =~= key_name());
        } else if rk == key_name() {
            assert(rk.len() == 4);
            assert(s@[i + 1] == rk[0]);
            assert(s@[i + 2] == rk[1]);
            assert(s@[i + 3] == rk[2]);
            assert(s@[i + 4] == rk[3]);
        }
    }
    r
}

/// Whether the key spanning `i..j` (quotes included) is "active".
fn key_is_active(s: &[u8], i: usize, j: usize) -> (r: bool)
    requires
        i + 2 <= j && j <= s@.len(),
    ensures
        r == (raw_key(s@, i as int, j as int) == key_active()),
{
    let r = j - i == 8 && s[i + 1] == 97 && s[i + 2] == 99 && s[i + 3] == 116 && s[i + 4] == 105
        && s[i + 5] == 118 && s[i + 6] == 101;
    proof {
        let rk = raw_key(s@, i as int, j as int);
        if r {
            assert(rk =~= key_active());
        } else if rk == key_active() {
            assert(rk.len() == 6);
            assert(s@[i + 1] == rk[0]);
            assert(s@[i + 2] == rk[1]);
            assert(s@[i + 3] == rk[2]);
            assert(s@[i + 4] == rk[3]);
            assert(s@[i + 5] == rk[4]);
            assert(s@[i + 6] == rk[5]);
        }
    }
    r
}

/// Handles one member whose key spans `i..j` and whose value starts at
/// `v`.
fn parse_one_member_at(
    s: &[u8],
    i: usize,
    j: usize,
    v: usize,
    name: Option<String>,
    active: Option<bool>,
) -> (r: Option<(Option<String>, Option<bool>, usize)>)
    requires
        i + 2 <= j && j <= s@.len(),
        v < s@.len(),
    ensures
        r is Some <==> parse_one_member(
            s@,
            i as int,
            j as int,
            v as int,
            name.deep_view(),
            active,
        ) is Some,
        r is Some ==> {
            let sp = parse_one_member(
                s@,
                i as int,
                j as int,
                v as int,
                name.deep_view(),
                active,
            )->0;
            (r->0).0.deep_view() == sp.0 && (r->0).1 == sp.1 && (r->0).2 == sp.2 && v < (r->0).2
                <= s@.len()
        },
{
    if key_is_name(s, i, j) {
        if name.is_some() {
            None
        } else if s[v] == 34 {
            let mut nm = String::new();
            match decode_into(s, v + 1, &mut nm) {
                Some(w) => {
                    proof {
                        assert(Seq::<char>::empty() + ((decode_string(s@, v + 1)->0).0)
                            =~= ((decode_string(s@, v + 1)->0).0));
                    }
                    Some((Some(nm), active, w))
                },
                None => None,
            }
        } else {
            None
        }
    } else if key_is_active(s, i, j) {
        // Binding the length tells the verifier the positions below fit in usize.
        let n: usize = s.len();
        proof {
            assert(v < n);
        }
        if active.is_some() {
            None
        } else if true_at(s, v) {
            proof {
                assert(lit_true().len() == 4);
            }
            Some((name, Some(true), v + 4))
        } else if false_at(s, v) {
            proof {
                assert(lit_false().len() == 5);
            }
            Some((name, Some(false), v + 5))
        } else {
            None
        }
    } else {
        match skip_value_at(s, v) {
            Some(w) => Some((name, active, w)),
            None => None,
        }
    }
}

/// Parses members from the first key's quote onward, accumulating the
/// two known fields.
fn parse_members_at(s: &[u8], i: usize, name: Option<String>, active: Option<bool>) -> (r: Option<
    (String, bool, usize),
>)
    requires
        i <= s@.len(),
    ensures
        r is Some <==> parse_members(s@, i as int, name.deep_view(), active) is Some,
        r is Some ==> {
            let sp = parse_members(s@, i as int, name.deep_view(), active)->0;
            (r->0).0@ == sp.0 && (r->0).1 == sp.1 && (r->0).2 == sp.2 && i < (r->0).2 <= s@.len()
        },
    decreases s@.len() - i,
{
    if !(i < s.len() && s[i] == 34) {
        return None;
    }
    let j = match scan_string_end(s, i + 1) {
        None => {
            return None;
        },
        Some(j) => j,
    };
    let k = ws_end(s, j);
    if !(i < k && k < s.len() && s[k] == 58) {
        return None;
    }
    let v = ws_end(s, k + 1);
    if !(k < v && v < s.len()) {
        return None;
    }
    let stepped = parse_one_member_at(s, i, j, v, name, active);
    let (name2, active2, w) = match stepped {
        None => {
            return None;
        },
        Some(t) => t,
    };
    let x = ws_end(s, w);
    if !(v < x && x < s.len()) {
        return None;
    }
    if s[x] == 125 {
        match name2 {
            Some(nm) => Some(
                (
                    nm,
                    match active2 {
                        Some(a) => a,
                        None => true,
                    },
                    x + 1,
                ),
            ),
            None => None,
        }
    } else if s[x] == 44 {
        let y = ws_end(s, x + 1);
        if x < y && y <= s.len() {
            parse_members_at(s, y, name2, active2)
        } else {
            None
        }
    } else {
        None
    }
}

/// Parses array elements from the first element's first byte onward.
fn parse_entries_at(s: &[u8], i: usize, acc: Vec<MonitorEntry>) -> (r: Option<
    (Vec<MonitorEntry>, usize),
>)
    requires
        i <= s@.len(),
    ensures
        r is Some <==> parse_entries(s@, i as int, acc.deep_view()) is Some,
        r is Some ==> {
            let sp = parse_entries(s@, i as int, acc.deep_view())->0;
            (r->0).0.deep_view() == sp.0 && (r->0).1 == sp.1 && i < (r->0).1 <= s@.len()
        },
    decreases s@.len() - i,
{
    if !(i < s.len() && s[i] == 123) {
        return None;
    }
    let j = ws_end(s, i + 1);
    if !(i < j && j < s.len()) {
        return None;
    }
    let (nm, act, w) = match parse_members_at(s, j, None, None) {
        None => {
            return None;
        },
        Some(t) => t,
    };
    let x = ws_end(s, w);
    if !(i < x && x < s.len()) {
        return None;
    }
    let mut acc2 = acc;
    let ghost pre = acc2.deep_view();
    let ghost nmv = nm@;
    acc2.push(MonitorEntry { name: nm, active: act });
    proof {
        assert(acc2.deep_view() =~= pre.push((nmv, act)));
    }
    if s[x] == 93 {
        Some((acc2, x + 1))
    } else if s[x] == 44 {
        let y = ws_end(s, x + 1);
        if x < y && y <= s.len() {
            parse_entries_at(s, y, acc2)
        } else {
            None
        }
    } else {
        None
    }
}

/// Parses a structured payload into its monitor entries: a JSON array of
/// monitor objects, with nothing but whitespace around it. Anything else
/// is a malformed payload.
pub fn parse_monitors(input: &[u8]) -> (r: Result<Vec<MonitorEntry>, DiscoveryError>)
    ensures
        r is Ok <==> spec_parse_monitors(input@) is Some,
        r is Ok ==> r->Ok_0.deep_view() == spec_parse_monitors(input@)->0,
        r is Err ==> r->Err_0 == DiscoveryError::MalformedPayload,
{
    let i = ws_end(input, 0);
    if !(i < input.len() && input[i] == 91) {
        return Err(DiscoveryError::MalformedPayload);
    }
    let j = ws_end(input, i + 1);
    if !(i < j && j < input.len()) {
        return Err(DiscoveryError::MalformedPayload);
    }
    if input[j] == 93 {
        if ws_end(input, j + 1) == input.len() {
            let entries: Vec<MonitorEntry> = Vec::new();
            proof {
                assert(entries.deep_view() =~= Seq::<(Seq<char>, bool)>::empty());
            }
            Ok(entries)
        } else {
            Err(DiscoveryError::MalformedPayload)
        }
    } else {
        let start: Vec<MonitorEntry> = Vec::new();
        proof {
            assert(start.deep_view() =~= Seq::<(Seq<char>, bool)>::empty());
        }
        match parse_entries_at(input, j, start) {
            None => Err(DiscoveryError::MalformedPayload),
            Some((entries, w)) => {
                if ws_end(input, w) == input.len() {
                    Ok(entries)
                } else {
                    Err(DiscoveryError::MalformedPayload)
                }
            },
        }
    }
}

/// The monitor entries denoted by the raw output of a status tool,
/// diagnostic prefix and all.
pub open spec fn spec_status(s: Seq<u8>) -> Option<Seq<(Seq<char>, bool)>> {
    spec_parse_monitors(s.subrange(payload_start(s), s.len() as int))
}

/// Parses the raw output of a compositor status tool: discards anything
/// before the first structural delimiter, then parses the payload.
pub fn parse_status(raw: &[u8]) -> (r: Result<Vec<MonitorEntry>, DiscoveryError>)
    ensures
        r is Ok <==> spec_status(raw@) is Some,
        r is Ok ==> r->Ok_0.deep_view() == spec_status(raw@)->0,
        r is Err ==> r->Err_0 == DiscoveryError::MalformedPayload,
{
    let p = json_payload(raw);
    parse_monitors(p)
}

} // verus!
