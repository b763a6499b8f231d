//! Real numbers in decimal notation.

use vstd::prelude::*;
use crate::primitive::Primitive;
use crate::syntax::push_all;

verus! {

/// Whether `b` is one of the characters `0` to `9`.
pub open spec fn is_digit(b: u8) -> bool {
    '0' as u8 <= b <= '9' as u8
}

/// A run of one or more digits.
pub open spec fn is_digits(s: Seq<u8>) -> bool {
    s.len() > 0 && forall|i: int| 0 <= i < s.len() ==> is_digit(#[trigger] s[i])
}

/// Digits, or digits, a decimal point at `k`, and digits.
pub open spec fn is_unsigned_real(s: Seq<u8>) -> bool {
    is_digits(s) || exists|k: int| point_at(s, k)
}

/// Whether `s` is digits, a decimal point at index `k`, and digits.
pub open spec fn point_at(s: Seq<u8>, k: int) -> bool {
    &&& 0 < k < s.len() - 1
    &&& s[k] == '.' as u8
    &&& is_digits(s.take(k))
    &&& is_digits(s.skip(k + 1))
}

/// Whether `s` starts with a minus sign.
pub open spec fn has_sign(s: Seq<u8>) -> bool {
    s.len() > 0 && s[0] == '-' as u8
}

/// The notation of a real number: an optional minus sign, one or more
/// digits, and optionally a decimal point followed by one or more digits.
pub open spec fn is_real(s: Seq<u8>) -> bool {
    if has_sign(s) {
        is_unsigned_real(s.skip(1))
    } else {
        is_unsigned_real(s)
    }
}

/// A real number, held in decimal notation.
#[derive(Clone, Copy, Debug)]
pub struct Real<'a> {
    text: &'a [u8],
}

/// The index of the first byte of `text` at or after `from` that is no
/// digit, or the length of `text`.
fn skip_digits(text: &[u8], from: usize) -> (to: usize)
    requires
        from <= text.len(),
    ensures
        from <= to <= text.len(),
        forall|i: int| from <= i < to ==> is_digit(#[trigger] text@[i]),
        to < text.len() ==> !is_digit(text@[to as int]),
{
    let mut i: usize = from;
    while i < text.len() && 0x30 <= text[i] && text[i] <= 0x39
        invariant
            from <= i <= text.len(),
            forall|j: int| from <= j < i ==> is_digit(#[trigger] text@[j]),
        decreases text.len() - i,
    {
        i += 1;
    }
    i
}

impl<'a> Real<'a> {
    #[verifier::type_invariant]
    spec fn well_formed(self) -> bool {
        is_real(self.text@)
    }

    /// The notation of the number.
    pub closed spec fn view(self) -> Seq<u8> {
        self.text@
    }

    /// Reads `text` as a real number: `Some` exactly when `text` is the
    /// notation of one.
    pub fn parse(text: &'a [u8]) -> (number: Option<Real<'a>>)
        ensures
            number.is_some() == is_real(text@),
            number matches Some(r) ==> r@ == text@,
    {
        let signed = text.len() > 0 && text[0] == 0x2d;
        let start: usize = if signed { 1 } else { 0 };
        let ghost body = text@.skip(start as int);
        assert(is_real(text@) == is_unsigned_real(body)) by {
            if !signed {
                assert(body =~= text@);
            }
        }
        let dot = skip_digits(text, start);
        if dot == start {
            // No digit leads the number.
            assert(!is_unsigned_real(body)) by {
                if body.len() > 0 {
                    assert(body[0] == text@[start as int]);
                    assert forall|k: int| !point_at(body, k) by {
                        if 0 < k < body.len() - 1 {
                            assert(body.take(k)[0] == body[0]);
                        }
                    }
                }
            }
            return None;
        }
        if dot == text.len() {
            assert(is_digits(body)) by {
                assert forall|i: int| 0 <= i < body.len() implies is_digit(#[trigger] body[i]) by {
                    assert(body[i] == text@[start + i]);
                }
            }
            return Some(Real { text });
        }
        let ghost k0 = dot - start;
        assert(body[k0] == text@[dot as int]);
        if text[dot] != 0x2e {
            // Something other than a digit or a decimal point.
            assert(!is_unsigned_real(body)) by {
                assert forall|k: int| !point_at(body, k) by {
                    if 0 < k < body.len() - 1 {
                        if k < k0 {
                            assert(body[k] == text@[start + k]);
                        } else if k > k0 {
                            assert(body.take(k)[k0] == body[k0]);
                        }
                    }
                }
            }
            return None;
        }
        let end = skip_digits(text, dot + 1);
        if end == dot + 1 || end != text.len() {
            // No digit follows the point, or something follows the digits.
            assert(!is_unsigned_real(body)) by {
                assert(!is_digit(body[k0]));
                assert forall|k: int| !point_at(body, k) by {
                    if 0 < k < body.len() - 1 {
                        if k < k0 {
                            assert(body[k] == text@[start + k]);
                        } else if k > k0 {
                            assert(body.take(k)[k0] == body[k0]);
                        } else if end == dot + 1 {
                            assert(body.skip(k + 1)[0] == text@[end as int]);
                        } else {
                            assert(body.skip(k + 1)[end - dot - 1] == text@[end as int]);
                        }
                    }
                }
            }
            return None;
        }
        assert(point_at(body, k0)) by {
            assert forall|i: int| 0 <= i < k0 implies is_digit(#[trigger] body.take(k0)[i]) by {
                assert(body.take(k0)[i] == text@[start + i]);
            }
            assert forall|i: int| 0 <= i < body.skip(k0 + 1).len() implies is_digit(
                #[trigger] body.skip(k0 + 1)[i],
            ) by {
                assert(body.skip(k0 + 1)[i] == text@[dot + 1 + i]);
            }
        }
        Some(Real { text })
    }
}

impl<'a> Primitive for Real<'a> {
    open spec fn token(&self) -> Seq<u8> {
        self@
    }

    fn write(self, buf: &mut Vec<u8>) {
        push_all(buf, self.text);
    }
}

} // verus!
