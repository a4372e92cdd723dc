//! Small utilities: human-readable byte counts and package-name validation.

use vstd::prelude::*;
use vstd::arithmetic::div_mod::{lemma_div_is_ordered, lemma_div_is_ordered_by_denominator};

verus! {

/// The decimal digit `d` as a character.
pub open spec fn spec_digit_char(d: nat) -> char {
    if d == 0 {
        '0'
    } else if d == 1 {
        '1'
    } else if d == 2 {
        '2'
    } else if d == 3 {
        '3'
    } else if d == 4 {
        '4'
    } else if d == 5 {
        '5'
    } else if d == 6 {
        '6'
    } else if d == 7 {
        '7'
    } else if d == 8 {
        '8'
    } else {
        '9'
    }
}

/// The decimal digits of `n`, most significant first, without leading zeros
/// (`0` itself is the single digit `0`).
pub open spec fn spec_decimal(n: nat) -> Seq<char>
    decreases n,
{
    if n < 10 {
        seq![spec_digit_char(n)]
    } else {
        spec_decimal(n / 10).push(spec_digit_char(n % 10))
    }
}

/// Which unit `format_bytes` renders `bytes` in: the number of times 1024
/// divides it down below 1024, capped at terabytes.
pub open spec fn spec_unit_index(bytes: nat) -> nat {
    if bytes < 1024 {
        0
    } else if bytes < 1048576 {
        1
    } else if bytes < 1073741824 {
        2
    } else if bytes < 1099511627776 {
        3
    } else {
        4
    }
}

/// 1024 raised to the unit index.
pub open spec fn spec_unit_scale(k: nat) -> nat {
    if k == 0 {
        1
    } else if k == 1 {
        1024
    } else if k == 2 {
        1048576
    } else if k == 3 {
        1073741824
    } else {
        1099511627776
    }
}

/// The unit suffix for a unit index, including the separating space.
pub open spec fn spec_unit_suffix(k: nat) -> Seq<char> {
    if k == 0 {
        seq![' ', 'B']
    } else if k == 1 {
        seq![' ', 'K', 'B']
    } else if k == 2 {
        seq![' ', 'M', 'B']
    } else if k == 3 {
        seq![' ', 'G', 'B']
    } else {
        seq![' ', 'T', 'B']
    }
}

/// What `format_bytes` renders: plain bytes below 1024, and otherwise the
/// scaled value with exactly one decimal digit (tenths, rounded toward
/// zero) and the unit suffix.
pub open spec fn spec_format_bytes(bytes: nat) -> Seq<char> {
    let k = spec_unit_index(bytes);
    if k == 0 {
        spec_decimal(bytes) + spec_unit_suffix(0)
    } else {
        let tenths = bytes * 10 / spec_unit_scale(k);
        spec_decimal(tenths / 10) + seq!['.', spec_digit_char(tenths % 10)] + spec_unit_suffix(k)
    }
}

/// The decimal digit `d` as a character.
fn digit_char(d: u64) -> (r: char)
    requires
        d < 10,
    ensures
        r == spec_digit_char(d as nat),
{
    if d == 0 {
        '0'
    } else if d == 1 {
        '1'
    } else if d == 2 {
        '2'
    } else if d == 3 {
        '3'
    } else if d == 4 {
        '4'
    } else if d == 5 {
        '5'
    } else if d == 6 {
        '6'
    } else if d == 7 {
        '7'
    } else if d == 8 {
        '8'
    } else {
        '9'
    }
}

/// The decimal digits of `n`, most significant first.
fn decimal_chars(n: u64) -> (r: Vec<char>)
    ensures
        r@ == spec_decimal(n as nat),
    decreases n,
{
    if n < 10 {
        let mut v: Vec<char> = Vec::new();
        v.push(digit_char(n));
        proof {
            assert(v@ =~= seq![spec_digit_char(n as nat)]);
        }
        v
    } else {
        let mut v = decimal_chars(n / 10);
        v.push(digit_char(n % 10));
        v
    }
}

/// Relies on String::from_iter over characters: the string of exactly the
/// given characters, in order.
#[verifier::external_body]
fn chars_to_string(v: Vec<char>) -> (r: String)
    ensures
        r@ == v@,
{
    v.into_iter().collect()
}

/// Render a byte count for humans: plain bytes below 1024, and otherwise
/// the count scaled by the largest fitting power of 1024 (up to terabytes),
/// with one decimal digit, rounded toward zero.
pub fn format_bytes(bytes: u64) -> (r: String)
    ensures
        r@ == spec_format_bytes(bytes as nat),
{
    if bytes < 1024 {
        let mut v = decimal_chars(bytes);
        v.push(' ');
        v.push('B');
        proof {
            assert(v@ =~= spec_decimal(bytes as nat) + spec_unit_suffix(0));
        }
        chars_to_string(v)
    } else {
        let (scale, c1, c2): (u64, char, char) = if bytes < 1048576 {
            (1024, 'K', 'B')
        } else if bytes < 1073741824 {
            (1048576, 'M', 'B')
        } else if bytes < 1099511627776 {
            (1073741824, 'G', 'B')
        } else {
            (1099511627776, 'T', 'B')
        };
        let wide: u128 = (bytes as u128) * 10 / (scale as u128);
        proof {
            let x = (bytes as int) * 10;
            lemma_div_is_ordered_by_denominator(x, 1024, scale as int);
            lemma_div_is_ordered(x, u64::MAX as int * 10, 1024);
        }
        let tenths: u64 = wide as u64;
        let mut v = decimal_chars(tenths / 10);
        v.push('.');
        v.push(digit_char(tenths % 10));
        v.push(' ');
        v.push(c1);
        v.push(c2);
        proof {
            let k = spec_unit_index(bytes as nat);
            let t = bytes as nat * 10 / spec_unit_scale(k);
            assert(tenths == t);
            assert(v@ =~= spec_decimal(t / 10) + seq!['.', spec_digit_char(t % 10)]
                + spec_unit_suffix(k));
        }
        chars_to_string(v)
    }
}

/// A character allowed anywhere in a package name: ASCII letters and digits,
/// and the separators `-`, `_`, `.`.
pub open spec fn spec_name_char_ok(c: char) -> bool {
    ||| ('a' as u32) <= (c as u32) <= ('z' as u32)
    ||| ('A' as u32) <= (c as u32) <= ('Z' as u32)
    ||| ('0' as u32) <= (c as u32) <= ('9' as u32)
    ||| c == '-'
    ||| c == '_'
    ||| c == '.'
}

/// A separator character, allowed only in the middle of a name.
pub open spec fn spec_name_separator(c: char) -> bool {
    c == '-' || c == '_' || c == '.'
}

/// A valid package name: 1 to 214 characters, all of them letters, digits or
/// separators, neither starting nor ending with a separator.
pub open spec fn spec_valid_package_name(s: Seq<char>) -> bool {
    &&& 1 <= s.len() <= 214
    &&& forall|i: int| 0 <= i < s.len() ==> spec_name_char_ok(#[trigger] s[i])
    &&& !spec_name_separator(s[0])
    &&& !spec_name_separator(s[s.len() - 1])
}

/// Whether `c` may appear in a package name.
fn name_char_ok(c: char) -> (r: bool)
    ensures
        r == spec_name_char_ok(c),
{
    let u = c as u32;
    (97 <= u && u <= 122) || (65 <= u && u <= 90) || (48 <= u && u <= 57) || c == '-' || c == '_'
        || c == '.'
}

/// Validate a package name: nonempty, at most 214 characters, only letters,
/// digits and the separators `-`, `_`, `.`, with no separator at either end.
pub fn is_valid_package_name(name: &str) -> (r: bool)
    ensures
        r == spec_valid_package_name(name@),
{
    let n = name.unicode_len();
    if n == 0 || n > 214 {
        return false;
    }
    let mut i: usize = 0;
    while i < n
        invariant
            n == name@.len(),
            i <= n,
            forall|j: int| 0 <= j < i ==> spec_name_char_ok(#[trigger] name@[j]),
        decreases n - i,
    {
        if !name_char_ok(name.get_char(i)) {
            return false;
        }
        i = i + 1;
    }
    let first = name.get_char(0);
    if first == '-' || first == '_' || first == '.' {
        return false;
    }
    let last = name.get_char(n - 1);
    if last == '-' || last == '_' || last == '.' {
        return false;
    }
    true
}

} // verus!
