//! Canonical text form of the disk identifier: lowercase hex digits in
//! the usual 8-4-4-4-12 grouping.

use crate::guid::DiskGuid;
use vstd::prelude::*;

verus! {

broadcast use vstd::array::group_array_axioms;

/// The lowercase hex digit for a value below sixteen.
pub open spec fn hex_char(n: u8) -> char
    recommends
        n < 16,
{
    if n == 0 {
        '0'
    } else if n == 1 {
        '1'
    } else if n == 2 {
        '2'
    } else if n == 3 {
        '3'
    } else if n == 4 {
        '4'
    } else if n == 5 {
        '5'
    } else if n == 6 {
        '6'
    } else if n == 7 {
        '7'
    } else if n == 8 {
        '8'
    } else if n == 9 {
        '9'
    } else if n == 10 {
        'a'
    } else if n == 11 {
        'b'
    } else if n == 12 {
        'c'
    } else if n == 13 {
        'd'
    } else if n == 14 {
        'e'
    } else {
        'f'
    }
}

/// The two hex digits of one byte, high digit first.
pub open spec fn spec_hex_byte(b: u8) -> Seq<char> {
    seq![hex_char(b / 16), hex_char(b % 16)]
}

/// The eight hex digits of a 32-bit value, most significant first.
pub open spec fn spec_hex_u32(v: u32) -> Seq<char> {
    spec_hex_byte((v / 0x1000000) as u8) + spec_hex_byte(((v / 0x10000) % 0x100) as u8)
        + spec_hex_byte(((v / 0x100) % 0x100) as u8) + spec_hex_byte((v % 0x100) as u8)
}

/// The four hex digits of a 16-bit value, most significant first.
pub open spec fn spec_hex_u16(v: u16) -> Seq<char> {
    spec_hex_byte((v / 0x100) as u8) + spec_hex_byte((v % 0x100) as u8)
}

/// The canonical hyphenated text of a GUID: the three little-endian
/// fields printed most-significant-digit first, then the eight verbatim
/// bytes, grouped 8-4-4-4-12.
pub open spec fn spec_guid_text(g: DiskGuid) -> Seq<char> {
    spec_hex_u32(g.d1) + seq!['-'] + spec_hex_u16(g.d2) + seq!['-'] + spec_hex_u16(g.d3)
        + seq!['-'] + spec_hex_byte(g.d4@[0]) + spec_hex_byte(g.d4@[1]) + seq!['-']
        + spec_hex_byte(g.d4@[2]) + spec_hex_byte(g.d4@[3]) + spec_hex_byte(g.d4@[4])
        + spec_hex_byte(g.d4@[5]) + spec_hex_byte(g.d4@[6]) + spec_hex_byte(g.d4@[7])
}

/// Relies on String::push: appends the given character to the end of the
/// string.
#[verifier::external_body]
fn push_char(s: &mut String, c: char)
    ensures
        final(s)@ == old(s)@.push(c),
{
    s.push(c);
}

/// The lowercase hex digit for a value below sixteen.
fn hex_char_of(n: u8) -> (c: char)
    requires
        n < 16,
    ensures
        c == hex_char(n),
{
    if n == 0 {
        '0'
    } else if n == 1 {
        '1'
    } else if n == 2 {
        '2'
    } else if n == 3 {
        '3'
    } else if n == 4 {
        '4'
    } else if n == 5 {
        '5'
    } else if n == 6 {
        '6'
    } else if n == 7 {
        '7'
    } else if n == 8 {
        '8'
    } else if n == 9 {
        '9'
    } else if n == 10 {
        'a'
    } else if n == 11 {
        'b'
    } else if n == 12 {
        'c'
    } else if n == 13 {
        'd'
    } else if n == 14 {
        'e'
    } else {
        'f'
    }
}

/// Appends the two hex digits of `b`, high digit first.
fn push_hex_byte(s: &mut String, b: u8)
    ensures
        final(s)@ == old(s)@ + spec_hex_byte(b),
{
    let hi = hex_char_of(b / 16);
    let lo = hex_char_of(b % 16);
    push_char(s, hi);
    push_char(s, lo);
    proof {
        assert(s@ =~= old(s)@ + spec_hex_byte(b));
    }
}

impl DiskGuid {
    /// Renders the GUID in its canonical hyphenated lowercase hex form.
    pub fn hyphenated_string(&self) -> (s: String)
        ensures
            s@ == spec_guid_text(*self),
    {
        let mut s = String::new();
        push_hex_byte(&mut s, (self.d1 / 0x1000000) as u8);
        push_hex_byte(&mut s, ((self.d1 / 0x10000) % 0x100) as u8);
        push_hex_byte(&mut s, ((self.d1 / 0x100) % 0x100) as u8);
        push_hex_byte(&mut s, (self.d1 % 0x100) as u8);
        push_char(&mut s, '-');
        push_hex_byte(&mut s, (self.d2 / 0x100) as u8);
        push_hex_byte(&mut s, (self.d2 % 0x100) as u8);
        push_char(&mut s, '-');
        push_hex_byte(&mut s, (self.d3 / 0x100) as u8);
        push_hex_byte(&mut s, (self.d3 % 0x100) as u8);
        push_char(&mut s, '-');
        push_hex_byte(&mut s, self.d4[0]);
        push_hex_byte(&mut s, self.d4[1]);
        push_char(&mut s, '-');
        push_hex_byte(&mut s, self.d4[2]);
        push_hex_byte(&mut s, self.d4[3]);
        push_hex_byte(&mut s, self.d4[4]);
        push_hex_byte(&mut s, self.d4[5]);
        push_hex_byte(&mut s, self.d4[6]);
        push_hex_byte(&mut s, self.d4[7]);
        proof {
            assert(s@ =~= spec_guid_text(*self));
        }
        s
    }
}

} // verus!
