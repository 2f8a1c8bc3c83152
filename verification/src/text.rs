//! Small building blocks for text: comparing, appending a character, and
//! writing a number in decimal.

use vstd::prelude::*;
use vstd::string::*;

verus! {

/// Appends one character to a string.
///
/// Trusted: this is `String::push` of the standard library, which appends the
/// given character to the end of the string and changes nothing else.
#[verifier::external_body]
pub(crate) fn push_char(s: &mut String, c: char)
    ensures
        final(s)@ == old(s)@.push(c),
{
    s.push(c)
}

/// Whether two string slices hold the same characters.
pub fn str_eq(a: &str, b: &str) -> (r: bool)
    ensures
        r == (a@ == b@),
{
    let x = a.to_owned();
    let y = b.to_owned();
    x == y
}

/// The character of one decimal digit.
pub open spec fn digit_char(d: nat) -> char
    recommends
        d < 10,
{
    ((48 + d) as u8) as char
}

/// The decimal notation of a natural number, most significant digit first,
/// without leading zeros.
pub open spec fn decimal_digits(n: nat) -> Seq<char>
    decreases n,
{
    if n < 10 {
        seq![digit_char(n)]
    } else {
        decimal_digits(n / 10).push(digit_char(n % 10))
    }
}

/// Writes a number in decimal.
pub fn decimal(n: usize) -> (s: String)
    ensures
        s@ == decimal_digits(n as nat),
    decreases n,
{
    if n < 10 {
        let mut s = String::new();
        push_char(&mut s, (48u8 + n as u8) as char);
        assert(s@ =~= seq![digit_char(n as nat)]);
        s
    } else {
        let mut s = decimal(n / 10);
        push_char(&mut s, (48u8 + (n % 10) as u8) as char);
        s
    }
}

/// The characters that a sequence of bytes stands for when each byte is read
/// as the code point of the same number.
pub open spec fn bytes_as_chars(bytes: Seq<u8>) -> Seq<char> {
    Seq::new(bytes.len(), |i: int| bytes[i] as char)
}

/// Appends to `s` each byte of `bytes`, read as the code point of the same
/// number.
pub fn push_bytes(s: &mut String, bytes: &[u8])
    ensures
        final(s)@ == old(s)@ + bytes_as_chars(bytes@),
{
    let mut i: usize = 0;
    while i < bytes.len()
        invariant
            i <= bytes.len(),
            s@ == old(s)@ + bytes_as_chars(bytes@).subrange(0, i as int),
        decreases bytes.len() - i,
    {
        push_char(s, bytes[i] as char);
        assert(s@ =~= old(s)@ + bytes_as_chars(bytes@).subrange(0, i + 1));
        i = i + 1;
    }
    assert(bytes_as_chars(bytes@).subrange(0, i as int) =~= bytes_as_chars(bytes@));
}

} // verus!
