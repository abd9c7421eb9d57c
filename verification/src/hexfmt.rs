//! Plain-text formatting helpers for trace output: uppercase hexadecimal
//! rendering of bytes and words, and space padding for trace element paths.

use vstd::prelude::*;
use vstd::string::StrSliceExecFns;

verus! {

/// The uppercase hexadecimal digit for a nibble value.
pub open spec fn spec_hex_digit(n: int) -> char {
    seq!['0', '1', '2', '3', '4', '5', '6', '7', '8', '9', 'A', 'B', 'C', 'D', 'E', 'F'][n]
}

/// Relies on String::push: appends exactly the one character.
#[verifier::external_body]
pub(crate) fn push_char(s: &mut String, c: char)
    ensures
        final(s)@ == old(s)@.push(c),
{
    s.push(c);
}

pub(crate) fn hex_digit(n: u8) -> (c: char)
    requires
        n < 16,
    ensures
        c == spec_hex_digit(n as int),
{
    match n {
        0 => '0',
        1 => '1',
        2 => '2',
        3 => '3',
        4 => '4',
        5 => '5',
        6 => '6',
        7 => '7',
        8 => '8',
        9 => '9',
        10 => 'A',
        11 => 'B',
        12 => 'C',
        13 => 'D',
        14 => 'E',
        _ => 'F',
    }
}

/// A byte as `0x` followed by two uppercase hexadecimal digits.
pub open spec fn spec_hex_u8(v: u8) -> Seq<char> {
    seq!['0', 'x', spec_hex_digit(v as int / 16), spec_hex_digit(v as int % 16)]
}

pub fn hex_u8(v: u8) -> (s: String)
    ensures
        s@ == spec_hex_u8(v),
{
    let mut s = String::new();
    push_char(&mut s, '0');
    push_char(&mut s, 'x');
    push_char(&mut s, hex_digit(v / 16));
    push_char(&mut s, hex_digit(v % 16));
    proof {
        assert(s@ =~= spec_hex_u8(v));
    }
    s
}

/// A 16-bit word as `0x` followed by four uppercase hexadecimal digits.
pub open spec fn spec_hex_u16(v: u16) -> Seq<char> {
    seq![
        '0',
        'x',
        spec_hex_digit(v as int / 4096 % 16),
        spec_hex_digit(v as int / 256 % 16),
        spec_hex_digit(v as int / 16 % 16),
        spec_hex_digit(v as int % 16),
    ]
}

pub fn hex_u16(v: u16) -> (s: String)
    ensures
        s@ == spec_hex_u16(v),
{
    let mut s = String::new();
    push_char(&mut s, '0');
    push_char(&mut s, 'x');
    push_char(&mut s, hex_digit(((v / 4096) % 16) as u8));
    push_char(&mut s, hex_digit(((v / 256) % 16) as u8));
    push_char(&mut s, hex_digit(((v / 16) % 16) as u8));
    push_char(&mut s, hex_digit((v % 16) as u8));
    proof {
        assert(s@ =~= spec_hex_u16(v));
    }
    s
}

/// `n` space characters (none when `n` is not positive).
pub open spec fn spec_spaces(n: int) -> Seq<char>
    decreases n,
{
    if n <= 0 {
        Seq::empty()
    } else {
        spec_spaces(n - 1).push(' ')
    }
}

/// `s` padded on the right with spaces to at least 12 characters.
pub open spec fn spec_pad12(s: Seq<char>) -> Seq<char> {
    s + spec_spaces(12 - s.len())
}

pub fn pad12(s: &str) -> (r: String)
    ensures
        r@ == spec_pad12(s@),
{
    let mut r = s.to_owned();
    let mut k = s.unicode_len();
    proof {
        assert(r@ =~= s@ + spec_spaces(k - s@.len()));
    }
    while k < 12
        invariant
            k >= s@.len(),
            k == s@.len() || k <= 12,
            r@ == s@ + spec_spaces(k - s@.len()),
        decreases 12 - k,
    {
        push_char(&mut r, ' ');
        k += 1;
        proof {
            assert(r@ =~= s@ + spec_spaces(k - s@.len()));
        }
    }
    proof {
        assert(spec_spaces(k - s@.len()) =~= spec_spaces(12 - s@.len()));
        assert(r@ =~= spec_pad12(s@));
    }
    r
}

} // verus!
