//! Byte-level token syntax: character classes, digits, and the routines
//! that append them to a buffer.

use vstd::prelude::*;

verus! {

/// The bytes of a run of ASCII characters.
pub open spec fn ascii(s: Seq<char>) -> Seq<u8> {
    Seq::new(s.len(), |i: int| s[i] as u8)
}

/// The character for a digit below ten.
pub open spec fn digit(d: int) -> u8 {
    ('0' as u8 + d) as u8
}

/// The decimal digits of `n`, most significant first, without leading zeros.
pub open spec fn decimal(n: nat) -> Seq<u8>
    decreases n,
{
    if n < 10 {
        seq![digit(n as int)]
    } else {
        decimal(n / 10).push(digit((n % 10) as int))
    }
}

/// An integer token: a minus sign for a negative number, then its digits.
pub open spec fn int_token(i: int) -> Seq<u8> {
    if i < 0 {
        seq!['-' as u8] + decimal((-i) as nat)
    } else {
        decimal(i as nat)
    }
}

/// The upper-case hexadecimal character for a value below sixteen.
pub open spec fn hex_digit(d: int) -> u8 {
    if d < 10 {
        digit(d)
    } else {
        ('A' as u8 + d - 10) as u8
    }
}

/// The two hexadecimal characters of a byte, high nibble first.
pub open spec fn hex_pair(b: u8) -> Seq<u8> {
    seq![hex_digit(b as int / 16), hex_digit(b as int % 16)]
}

/// The three octal characters of a byte, most significant first.
pub open spec fn octal_triple(b: u8) -> Seq<u8> {
    seq![digit(b as int / 64), digit(b as int / 8 % 8), digit(b as int % 8)]
}

/// A run of `n` space characters.
pub open spec fn spaces(n: nat) -> Seq<u8> {
    Seq::new(n, |i: int| ' ' as u8)
}

/// White space: the six bytes that separate tokens.
pub open spec fn is_white_space(b: u8) -> bool {
    b == 0x00 || b == 0x09 || b == 0x0a || b == 0x0c || b == 0x0d || b == 0x20
}

/// The ten delimiter characters `( ) < > [ ] { } / %`.
pub open spec fn is_delimiter(b: u8) -> bool {
    b == '(' as u8 || b == ')' as u8 || b == '<' as u8 || b == '>' as u8 || b == '[' as u8 || b
        == ']' as u8 || b == '{' as u8 || b == '}' as u8 || b == '/' as u8 || b == '%' as u8
}

/// A byte that may stand for itself inside a name: printable ASCII that is
/// neither a delimiter nor the number sign.
pub open spec fn is_plain_name_byte(b: u8) -> bool {
    '!' as u8 <= b <= '~' as u8 && !is_delimiter(b) && b != '#' as u8
}

/// Whether `b` may stand for itself inside a name.
pub fn plain_name_byte(b: u8) -> (plain: bool)
    ensures
        plain == is_plain_name_byte(b),
{
    0x21 <= b && b <= 0x7e && b != 0x23 && b != 0x28 && b != 0x29 && b != 0x3c && b != 0x3e && b
        != 0x5b && b != 0x5d && b != 0x7b && b != 0x7d && b != 0x2f && b != 0x25
}

/// Appends every byte of `bytes`.
pub fn push_all(buf: &mut Vec<u8>, bytes: &[u8])
    ensures
        final(buf)@ == old(buf)@ + bytes@,
{
    let mut i: usize = 0;
    while i < bytes.len()
        invariant
            i <= bytes.len(),
            buf@ == old(buf)@ + bytes@.take(i as int),
        decreases bytes.len() - i,
    {
        buf.push(bytes[i]);
        i += 1;
        assert(bytes@.take(i as int) =~= bytes@.take(i - 1).push(bytes@[i - 1]));
    }
    assert(bytes@.take(i as int) =~= bytes@);
}

/// Appends `n` space characters.
pub fn push_spaces(buf: &mut Vec<u8>, n: u8)
    ensures
        final(buf)@ == old(buf)@ + spaces(n as nat),
{
    let mut i: u8 = 0;
    while i < n
        invariant
            i <= n,
            buf@ == old(buf)@ + spaces(i as nat),
        decreases n - i,
    {
        buf.push(0x20);
        i += 1;
        assert(spaces(i as nat) =~= spaces((i - 1) as nat).push(' ' as u8));
    }
}

/// Appends the decimal digits of `n`.
pub fn push_decimal(buf: &mut Vec<u8>, n: u32)
    ensures
        final(buf)@ == old(buf)@ + decimal(n as nat),
    decreases n,
{
    if n >= 10 {
        push_decimal(buf, n / 10);
    }
    let d: u8 = (n % 10) as u8;
    buf.push(0x30 + d);
    assert(buf@ =~= old(buf)@ + decimal(n as nat));
}

/// Appends an integer token.
pub fn push_int(buf: &mut Vec<u8>, i: i32)
    ensures
        final(buf)@ == old(buf)@ + int_token(i as int),
{
    if i < 0 {
        buf.push(0x2d);
        let m: i64 = -(i as i64);
        push_decimal(buf, m as u32);
    } else {
        push_decimal(buf, i as u32);
    }
    assert(buf@ =~= old(buf)@ + int_token(i as int));
}

/// The upper-case hexadecimal character for `d`.
fn hex_char(d: u8) -> (c: u8)
    requires
        d < 16,
    ensures
        c == hex_digit(d as int),
{
    if d < 10 {
        0x30 + d
    } else {
        0x41 + (d - 10)
    }
}

/// Appends the two hexadecimal characters of `b`.
pub fn push_hex(buf: &mut Vec<u8>, b: u8)
    ensures
        final(buf)@ == old(buf)@ + hex_pair(b),
{
    buf.push(hex_char(b / 16));
    buf.push(hex_char(b % 16));
    assert(buf@ =~= old(buf)@ + hex_pair(b));
}

/// Appends the three octal characters of `b`.
pub fn push_octal(buf: &mut Vec<u8>, b: u8)
    ensures
        final(buf)@ == old(buf)@ + octal_triple(b),
{
    buf.push(0x30 + b / 64);
    buf.push(0x30 + b / 8 % 8);
    buf.push(0x30 + b % 8);
    assert(buf@ =~= old(buf)@ + octal_triple(b));
}

} // verus!
