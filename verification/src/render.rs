//! Pointer-style text rendering of the held address.
//!
//! A handle renders the way a raw pointer conventionally does: `0x` followed
//! by the address in minimal lowercase hexadecimal digits.

use crate::handle::NonNullMut;
use vstd::prelude::*;

verus! {

/// The lowercase hexadecimal digit character for a value below sixteen.
pub open spec fn hex_digit(d: nat) -> char
    recommends
        d < 16,
{
    if d == 0 {
        '0'
    } else if d == 1 {
        '1'
    } else if d == 2 {
        '2'
    } else if d == 3 {
        '3'
    } else if d == 4 {
        '4'
    } else if d == 5 {
        '5'
    } else if d == 6 {
        '6'
    } else if d == 7 {
        '7'
    } else if d == 8 {
        '8'
    } else if d == 9 {
        '9'
    } else if d == 10 {
        'a'
    } else if d == 11 {
        'b'
    } else if d == 12 {
        'c'
    } else if d == 13 {
        'd'
    } else if d == 14 {
        'e'
    } else {
        'f'
    }
}

/// The minimal lowercase hexadecimal rendering of `n`: most significant
/// digit first, a single digit (possibly `0`) for values below sixteen.
pub open spec fn hex_digits(n: nat) -> Seq<char>
    decreases n,
{
    if n < 16 {
        seq![hex_digit(n)]
    } else {
        hex_digits(n / 16).push(hex_digit(n % 16))
    }
}

/// Relies on `String::push`: it appends the character to the end of the
/// string and changes nothing else.
pub assume_specification [ String::push ](s: &mut String, c: char)
    ensures
        final(s)@ == old(s)@.push(c),
;

/// The character for a digit value below sixteen.
fn hex_digit_char(d: usize) -> (c: char)
    requires
        d < 16,
    ensures
        c == hex_digit(d as nat),
{
    if d == 0 {
        '0'
    } else if d == 1 {
        '1'
    } else if d == 2 {
        '2'
    } else if d == 3 {
        '3'
    } else if d == 4 {
        '4'
    } else if d == 5 {
        '5'
    } else if d == 6 {
        '6'
    } else if d == 7 {
        '7'
    } else if d == 8 {
        '8'
    } else if d == 9 {
        '9'
    } else if d == 10 {
        'a'
    } else if d == 11 {
        'b'
    } else if d == 12 {
        'c'
    } else if d == 13 {
        'd'
    } else if d == 14 {
        'e'
    } else {
        'f'
    }
}

/// Append the hexadecimal digits of `n` to `out`, most significant first.
fn push_hex_digits(n: usize, out: &mut String)
    ensures
        final(out)@ == old(out)@ + hex_digits(n as nat),
    decreases n,
{
    if n >= 16 {
        push_hex_digits(n / 16, out);
    }
    let c = hex_digit_char(n % 16);
    out.push(c);
    proof {
        assert(out@ =~= old(out)@ + hex_digits(n as nat));
    }
}

impl<T: ?Sized> NonNullMut<T> {
    /// The address in the conventional textual form of a pointer: `0x`
    /// followed by its minimal lowercase hexadecimal digits.  Debug-style
    /// and pointer-style rendering coincide for a handle.
    pub fn pointer_string(self) -> (s: String)
        ensures
            s@ == seq!['0', 'x'] + hex_digits(self.address() as nat),
    {
        let mut s = String::new();
        s.push('0');
        s.push('x');
        push_hex_digits(self.addr(), &mut s);
        proof {
            assert(s@ =~= seq!['0', 'x'] + hex_digits(self.address() as nat));
        }
        s
    }
}

} // verus!
