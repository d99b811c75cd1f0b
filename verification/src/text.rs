//! Canonical textual rendering: `XX-XX-XX-XX-XX-XX`, uppercase hexadecimal.

use vstd::prelude::*;

use crate::addr6::MacAddr6;

verus! {

/// The uppercase hexadecimal digit for a value below sixteen.
pub open spec fn hex_digit(n: u8) -> char
    recommends
        n < 16,
{
    if n == 0 { '0' }
    else if n == 1 { '1' }
    else if n == 2 { '2' }
    else if n == 3 { '3' }
    else if n == 4 { '4' }
    else if n == 5 { '5' }
    else if n == 6 { '6' }
    else if n == 7 { '7' }
    else if n == 8 { '8' }
    else if n == 9 { '9' }
    else if n == 10 { 'A' }
    else if n == 11 { 'B' }
    else if n == 12 { 'C' }
    else if n == 13 { 'D' }
    else if n == 14 { 'E' }
    else { 'F' }
}

fn hex_digit_char(n: u8) -> (c: char)
    requires
        n < 16,
    ensures
        c == hex_digit(n),
{
    if n == 0 { '0' }
    else if n == 1 { '1' }
    else if n == 2 { '2' }
    else if n == 3 { '3' }
    else if n == 4 { '4' }
    else if n == 5 { '5' }
    else if n == 6 { '6' }
    else if n == 7 { '7' }
    else if n == 8 { '8' }
    else if n == 9 { '9' }
    else if n == 10 { 'A' }
    else if n == 11 { 'B' }
    else if n == 12 { 'C' }
    else if n == 13 { 'D' }
    else if n == 14 { 'E' }
    else { 'F' }
}

/// The two-character uppercase hexadecimal rendering of one byte: high
/// nibble first, zero-padded.
pub open spec fn byte_text(b: u8) -> Seq<char> {
    seq![hex_digit(b / 16), hex_digit(b % 16)]
}

/// The canonical rendering of a six-byte sequence: `XX-XX-XX-XX-XX-XX`,
/// two uppercase hexadecimal digits per byte, joined by hyphens, in byte
/// order. Fixed seventeen characters.
pub open spec fn canonical_text(s: Seq<u8>) -> Seq<char>
    recommends
        s.len() == 6,
{
    byte_text(s[0]) + seq!['-'] + byte_text(s[1]) + seq!['-'] + byte_text(s[2]) + seq!['-']
        + byte_text(s[3]) + seq!['-'] + byte_text(s[4]) + seq!['-'] + byte_text(s[5])
}

/// Relies on `String::push`: appends the given character at the end of the
/// string.
#[verifier::external_body]
fn push_char(s: &mut String, c: char)
    ensures
        final(s)@ == old(s)@.push(c),
{
    s.push(c);
}

fn push_byte_text(s: &mut String, b: u8)
    ensures
        final(s)@ == old(s)@ + byte_text(b),
{
    let hi = hex_digit_char(b / 16);
    let lo = hex_digit_char(b % 16);
    push_char(s, hi);
    push_char(s, lo);
    proof {
        assert(s@ =~= old(s)@ + byte_text(b));
    }
}

impl MacAddr6 {
    /// Renders the address in canonical text form: two-digit uppercase
    /// hexadecimal per byte, zero-padded, joined by hyphens, in byte order.
    pub fn to_canonical_string(&self) -> (r: String)
        ensures
            r@ == canonical_text(self@),
    {
        let bytes = self.as_bytes();
        let mut s = String::new();
        push_byte_text(&mut s, bytes[0]);
        push_char(&mut s, '-');
        push_byte_text(&mut s, bytes[1]);
        push_char(&mut s, '-');
        push_byte_text(&mut s, bytes[2]);
        push_char(&mut s, '-');
        push_byte_text(&mut s, bytes[3]);
        push_char(&mut s, '-');
        push_byte_text(&mut s, bytes[4]);
        push_char(&mut s, '-');
        push_byte_text(&mut s, bytes[5]);
        proof {
            assert(s@ =~= canonical_text(self@));
        }
        s
    }
}

} // verus!
