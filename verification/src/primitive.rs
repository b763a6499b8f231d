//! Scalar values and their tokens: booleans, integers, names, literal
//! strings and indirect references.

use vstd::prelude::*;
use vstd::string::{is_ascii, is_ascii_spec_bytes, StringSliceAdditionalSpecFns};
use crate::syntax::{
    ascii, decimal, hex_pair, int_token, is_plain_name_byte, octal_triple, plain_name_byte,
    push_all, push_decimal, push_hex, push_int, push_octal,
};

verus! {

/// The concatenation of `f(b)` over the bytes `b` of `s`, in order.
pub open spec fn expand(s: Seq<u8>, f: spec_fn(u8) -> Seq<u8>) -> Seq<u8>
    decreases s.len(),
{
    if s.len() == 0 {
        Seq::empty()
    } else {
        expand(s.drop_last(), f) + f(s.last())
    }
}

/// One more byte expands to one more piece at the end.
pub proof fn lemma_expand_step(s: Seq<u8>, i: int, f: spec_fn(u8) -> Seq<u8>)
    requires
        0 <= i < s.len(),
    ensures
        expand(s.take(i + 1), f) == expand(s.take(i), f) + f(s[i]),
{
    assert(s.take(i + 1).drop_last() =~= s.take(i));
}

/// How one byte of a name is written: itself, or `#` and two hexadecimal
/// characters.
pub open spec fn name_byte(b: u8) -> Seq<u8> {
    if is_plain_name_byte(b) {
        seq![b]
    } else {
        seq!['#' as u8] + hex_pair(b)
    }
}

/// A name token: a solidus, then each byte of the name.
pub open spec fn name_token(name: Seq<u8>) -> Seq<u8> {
    seq!['/' as u8] + expand(name, |b: u8| name_byte(b))
}

/// How one byte of a literal string is written.
pub open spec fn literal_byte(b: u8) -> Seq<u8> {
    if b == '(' as u8 || b == ')' as u8 || b == '\\' as u8 {
        seq!['\\' as u8, b]
    } else if b == 0x0a {
        seq!['\\' as u8, 'n' as u8]
    } else if b == 0x0d {
        seq!['\\' as u8, 'r' as u8]
    } else if b == 0x09 {
        seq!['\\' as u8, 't' as u8]
    } else if b == 0x08 {
        seq!['\\' as u8, 'b' as u8]
    } else if b == 0x0c {
        seq!['\\' as u8, 'f' as u8]
    } else if ' ' as u8 <= b <= '~' as u8 {
        seq![b]
    } else {
        seq!['\\' as u8] + octal_triple(b)
    }
}

/// Whether every byte is below 128.
pub open spec fn all_ascii(s: Seq<u8>) -> bool {
    forall|i: int| 0 <= i < s.len() ==> s[i] < 128
}

/// A string token: a parenthesised literal with escapes where every byte is
/// ASCII, else the bytes in hexadecimal between angle brackets.
pub open spec fn str_token(s: Seq<u8>) -> Seq<u8> {
    if all_ascii(s) {
        seq!['(' as u8] + expand(s, |b: u8| literal_byte(b)) + seq![')' as u8]
    } else {
        seq!['<' as u8] + expand(s, |b: u8| hex_pair(b)) + seq!['>' as u8]
    }
}

/// A boolean token.
pub open spec fn bool_token(b: bool) -> Seq<u8> {
    if b {
        ascii("true"@)
    } else {
        ascii("false"@)
    }
}

/// The token of a reference to the object numbered `id`, generation zero.
pub open spec fn ref_token(id: int) -> Seq<u8> {
    decimal(id as nat) + seq![' ' as u8, '0' as u8, ' ' as u8, 'R' as u8]
}

/// A value with a token form.
pub trait Primitive: Sized {
    /// The bytes that stand for this value.
    spec fn token(&self) -> Seq<u8>;

    /// Appends this value's token.
    fn write(self, buf: &mut Vec<u8>)
        ensures
            final(buf)@ == old(buf)@ + self.token(),
    ;
}

/// A name: a bare identifier such as a dictionary key or a type tag.
#[derive(Clone, Copy, Debug)]
pub struct Name<'a>(pub &'a [u8]);

/// A string of bytes, written as a literal or hexadecimal string.
#[derive(Clone, Copy, Debug)]
pub struct Str<'a>(pub &'a [u8]);

/// The number of an indirect object: a positive integer.
#[derive(Clone, Copy, Debug)]
pub struct Ref(i32);

impl<'a> Name<'a> {
    /// The bytes of the name.
    pub open spec fn view(self) -> Seq<u8> {
        self.0@
    }

    /// The name spelled by `text`, as its UTF-8 bytes.
    pub fn text(text: &'a str) -> (name: Name<'a>)
        ensures
            name@ == text.spec_bytes(),
            is_ascii(text) ==> name@ == ascii(text@),
    {
        proof {
            is_ascii_spec_bytes(text);
        }
        Name(text.as_bytes())
    }
}

impl<'a> Str<'a> {
    /// The bytes of the string.
    pub open spec fn view(self) -> Seq<u8> {
        self.0@
    }

    /// The string spelled by `text`, as its UTF-8 bytes.
    pub fn text(text: &'a str) -> (s: Str<'a>)
        ensures
            s@ == text.spec_bytes(),
            is_ascii(text) ==> s@ == ascii(text@),
    {
        proof {
            is_ascii_spec_bytes(text);
        }
        Str(text.as_bytes())
    }
}

impl Ref {
    #[verifier::type_invariant]
    spec fn positive(self) -> bool {
        self.0 > 0
    }

    /// The object number.
    pub closed spec fn view(self) -> int {
        self.0 as int
    }

    /// The reference to object number `id`.
    pub fn new(id: i32) -> (r: Ref)
        requires
            id > 0,
        ensures
            r@ == id,
    {
        Ref(id)
    }

    /// The object number, which is positive.
    pub fn get(self) -> (id: i32)
        ensures
            id == self@,
            id > 0,
    {
        proof {
            use_type_invariant(&self);
        }
        self.0
    }
}

impl Primitive for bool {
    open spec fn token(&self) -> Seq<u8> {
        bool_token(*self)
    }

    fn write(self, buf: &mut Vec<u8>) {
        if self {
            proof {
                reveal_strlit("true");
            }
            push_all(buf, &[0x74, 0x72, 0x75, 0x65]);
            assert(buf@ =~= old(buf)@ + ascii("true"@));
        } else {
            proof {
                reveal_strlit("false");
            }
            push_all(buf, &[0x66, 0x61, 0x6c, 0x73, 0x65]);
            assert(buf@ =~= old(buf)@ + ascii("false"@));
        }
    }
}

impl Primitive for i32 {
    open spec fn token(&self) -> Seq<u8> {
        int_token(*self as int)
    }

    fn write(self, buf: &mut Vec<u8>) {
        push_int(buf, self);
    }
}

impl Primitive for Ref {
    open spec fn token(&self) -> Seq<u8> {
        ref_token(self@)
    }

    fn write(self, buf: &mut Vec<u8>) {
        let id: i32 = self.get();
        push_decimal(buf, id as u32);
        push_all(buf, &[0x20, 0x30, 0x20, 0x52]);
        assert(buf@ =~= old(buf)@ + ref_token(self@));
    }
}

impl<'a> Primitive for Name<'a> {
    open spec fn token(&self) -> Seq<u8> {
        name_token(self@)
    }

    fn write(self, buf: &mut Vec<u8>) {
        let ghost each = |b: u8| name_byte(b);
        buf.push(0x2f);
        let mut i: usize = 0;
        while i < self.0.len()
            invariant
                i <= self.0.len(),
                each == |b: u8| name_byte(b),
                buf@ == old(buf)@ + seq!['/' as u8] + expand(self@.take(i as int), each),
            decreases self.0.len() - i,
        {
            let b: u8 = self.0[i];
            let ghost before = buf@;
            if plain_name_byte(b) {
                buf.push(b);
            } else {
                buf.push(0x23);
                push_hex(buf, b);
            }
            proof {
                assert(buf@ =~= before + name_byte(b));
                lemma_expand_step(self@, i as int, each);
            }
            i += 1;
        }
        assert(self@.take(i as int) =~= self@);
        assert(buf@ =~= old(buf)@ + name_token(self@));
    }
}

/// Whether every byte of `bytes` is below 128.
pub fn every_byte_ascii(bytes: &[u8]) -> (yes: bool)
    ensures
        yes == all_ascii(bytes@),
{
    let mut i: usize = 0;
    while i < bytes.len()
        invariant
            i <= bytes.len(),
            all_ascii(bytes@.take(i as int)),
        decreases bytes.len() - i,
    {
        if bytes[i] >= 128 {
            return false;
        }
        i += 1;
        assert forall|j: int| 0 <= j < i implies bytes@.take(i as int)[j] < 128 by {
            if j < i - 1 {
                assert(bytes@.take(i - 1)[j] < 128);
            }
        }
    }
    assert(bytes@.take(i as int) =~= bytes@);
    true
}

/// Appends one byte of a literal string, escaped where the syntax asks.
fn push_literal_byte(buf: &mut Vec<u8>, b: u8)
    ensures
        final(buf)@ == old(buf)@ + literal_byte(b),
{
    if b == 0x28 || b == 0x29 || b == 0x5c {
        buf.push(0x5c);
        buf.push(b);
    } else if b == 0x0a {
        buf.push(0x5c);
        buf.push(0x6e);
    } else if b == 0x0d {
        buf.push(0x5c);
        buf.push(0x72);
    } else if b == 0x09 {
        buf.push(0x5c);
        buf.push(0x74);
    } else if b == 0x08 {
        buf.push(0x5c);
        buf.push(0x62);
    } else if b == 0x0c {
        buf.push(0x5c);
        buf.push(0x66);
    } else if 0x20 <= b && b <= 0x7e {
        buf.push(b);
    } else {
        buf.push(0x5c);
        push_octal(buf, b);
    }
    assert(buf@ =~= old(buf)@ + literal_byte(b));
}

impl<'a> Primitive for Str<'a> {
    open spec fn token(&self) -> Seq<u8> {
        str_token(self@)
    }

    fn write(self, buf: &mut Vec<u8>) {
        let literal = every_byte_ascii(self.0);
        let ghost each = if literal {
            |b: u8| literal_byte(b)
        } else {
            |b: u8| hex_pair(b)
        };
        let ghost open = if literal {
            seq!['(' as u8]
        } else {
            seq!['<' as u8]
        };
        buf.push(if literal { 0x28 } else { 0x3c });
        let mut i: usize = 0;
        while i < self.0.len()
            invariant
                i <= self.0.len(),
                each == if literal {
                    |b: u8| literal_byte(b)
                } else {
                    |b: u8| hex_pair(b)
                },
                buf@ == old(buf)@ + open + expand(self@.take(i as int), each),
            decreases self.0.len() - i,
        {
            let b: u8 = self.0[i];
            let ghost before = buf@;
            if literal {
                push_literal_byte(buf, b);
            } else {
                push_hex(buf, b);
            }
            proof {
                assert(buf@ =~= before + each(b));
                lemma_expand_step(self@, i as int, each);
            }
            i += 1;
        }
        buf.push(if literal { 0x29 } else { 0x3e });
        assert(self@.take(i as int) =~= self@);
        assert(buf@ =~= old(buf)@ + str_token(self@));
    }
}

} // verus!
