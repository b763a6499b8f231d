//! The object cursor and the dictionary and array builders.
//!
//! A builder borrows the buffer it appends to. Its contracts speak of two
//! byte sequences: `written()`, what the buffer holds now, and the view of
//! `final(..)` of its `sink()`, what the buffer will hold when the borrow
//! ends.

use vstd::prelude::*;
use crate::primitive::{name_token, Name, Primitive};
use crate::syntax::{push_spaces, spaces};

verus! {

/// The indentation one level below `indent`: two columns more, at most 255.
pub open spec fn deeper(indent: u8) -> u8 {
    if indent >= 254 {
        255u8
    } else {
        (indent + 2) as u8
    }
}

/// The opening delimiter of a dictionary.
pub open spec fn dict_open() -> Seq<u8> {
    seq!['<' as u8, '<' as u8]
}

/// What precedes the value of a key in a dictionary at `indent`: a line
/// break, the deeper indentation, the key's name token and a space.
pub open spec fn key_lead(indent: u8, key: Seq<u8>) -> Seq<u8> {
    seq![0x0au8] + spaces(deeper(indent) as nat) + name_token(key) + seq![' ' as u8]
}

/// One key with its value token.
pub open spec fn entry(indent: u8, key: Seq<u8>, value: Seq<u8>) -> Seq<u8> {
    key_lead(indent, key) + value
}

/// The entries of `items`, each a key with its value token, in order.
pub open spec fn entries(indent: u8, items: Seq<(Seq<u8>, Seq<u8>)>) -> Seq<u8>
    decreases items.len(),
{
    if items.len() == 0 {
        Seq::empty()
    } else {
        entries(indent, items.drop_last()) + entry(indent, items.last().0, items.last().1)
    }
}

/// The key and the value token of each of `items`.
pub open spec fn tokens_of<T: Primitive>(items: Seq<(Name<'_>, T)>) -> Seq<(Seq<u8>, Seq<u8>)> {
    Seq::new(items.len(), |i: int| (items[i].0@, items[i].1.token()))
}

/// A whole dictionary at `indent` that holds `items`.
pub open spec fn dict_bytes(indent: u8, items: Seq<(Seq<u8>, Seq<u8>)>) -> Seq<u8> {
    dict_open() + entries(indent, items) + dict_close(indent, items.len() == 0)
}

/// The closing delimiter of a dictionary at `indent`, on a line of its own
/// unless the dictionary is empty.
pub open spec fn dict_close(indent: u8, empty: bool) -> Seq<u8> {
    if empty {
        seq!['>' as u8, '>' as u8]
    } else {
        seq![0x0au8] + spaces(indent as nat) + seq!['>' as u8, '>' as u8]
    }
}

/// The opening delimiter of an array.
pub open spec fn array_open() -> Seq<u8> {
    seq!['[' as u8]
}

/// What precedes an item of an array: a space, except before the first.
pub open spec fn item_lead(first: bool) -> Seq<u8> {
    if first {
        Seq::empty()
    } else {
        seq![' ' as u8]
    }
}

/// The closing delimiter of an array.
pub open spec fn array_close() -> Seq<u8> {
    seq![']' as u8]
}

/// The permission to write one value at the end of a buffer.
///
/// Every method takes the cursor by value, so it writes at most once.
pub struct Obj<'a> {
    buf: &'a mut Vec<u8>,
    indent: u8,
}

/// An open dictionary: keys and values are appended in call order until
/// `finish` writes the closing delimiter.
pub struct Dict<'a> {
    buf: &'a mut Vec<u8>,
    indent: u8,
    empty: bool,
}

/// An open array: items are appended in call order until `finish` writes
/// the closing delimiter.
pub struct Array<'a> {
    buf: &'a mut Vec<u8>,
    indent: u8,
    empty: bool,
}

impl<'a> Obj<'a> {
    /// The borrowed buffer.
    pub closed spec fn sink(self) -> &'a mut Vec<u8> {
        self.buf
    }

    /// The bytes in the buffer now.
    pub open spec fn written(self) -> Seq<u8> {
        self.sink()@
    }

    /// The column at which the value's closing delimiter would stand.
    pub closed spec fn indent(self) -> u8 {
        self.indent
    }

    /// A cursor at the end of `buf`, at the left margin.
    pub fn new(buf: &'a mut Vec<u8>) -> (obj: Obj<'a>)
        ensures
            obj.written() == old(buf)@,
            obj.indent() == 0,
            final(buf)@ == final(obj.sink())@,
    {
        Obj { buf, indent: 0 }
    }

    /// A cursor at the end of `buf`, for a value that stands at `indent`.
    pub fn direct(buf: &'a mut Vec<u8>, indent: u8) -> (obj: Obj<'a>)
        ensures
            obj.written() == old(buf)@,
            obj.indent() == indent,
            final(buf)@ == final(obj.sink())@,
    {
        Obj { buf, indent }
    }

    /// Writes `value` as the one value of this cursor.
    pub fn write_scalar<T: Primitive>(self, value: T)
        ensures
            final(self.sink())@ == self.written() + value.token(),
    {
        value.write(self.buf);
    }

    /// Opens a dictionary as the one value of this cursor.
    pub fn begin_dict(self) -> (dict: Dict<'a>)
        ensures
            dict.written() == self.written() + dict_open(),
            dict.indent() == self.indent(),
            dict.is_empty(),
            final(dict.sink())@ == final(self.sink())@,
    {
        let ghost before = self.buf@;
        self.buf.push(0x3c);
        self.buf.push(0x3c);
        assert(self.buf@ =~= before + dict_open());
        Dict { buf: self.buf, indent: self.indent, empty: true }
    }

    /// Opens an array as the one value of this cursor.
    pub fn begin_array(self) -> (array: Array<'a>)
        ensures
            array.written() == self.written() + array_open(),
            array.indent() == self.indent(),
            array.is_empty(),
            final(array.sink())@ == final(self.sink())@,
    {
        let ghost before = self.buf@;
        self.buf.push(0x5b);
        assert(self.buf@ =~= before + array_open());
        Array { buf: self.buf, indent: self.indent, empty: true }
    }
}

impl<'a> Dict<'a> {
    /// The borrowed buffer.
    pub closed spec fn sink(self) -> &'a mut Vec<u8> {
        self.buf
    }

    /// The bytes in the buffer now.
    pub open spec fn written(self) -> Seq<u8> {
        self.sink()@
    }

    /// The column at which the closing delimiter will stand.
    pub closed spec fn indent(self) -> u8 {
        self.indent
    }

    /// Whether no key has been written yet.
    pub closed spec fn is_empty(self) -> bool {
        self.empty
    }

    /// Whether this is the dictionary `before` with `bytes` appended and at
    /// least one key written.
    pub open spec fn follows(self, before: Self, bytes: Seq<u8>) -> bool {
        &&& self.written() == before.written() + bytes
        &&& self.indent() == before.indent()
        &&& !self.is_empty()
    }

    /// Writes `key` and returns the cursor for its value. The dictionary is
    /// out of reach until that cursor is used up; it then holds whatever was
    /// written through the cursor.
    pub fn key(&mut self, key: Name<'_>) -> (obj: Obj<'_>)
        ensures
            obj.written() == old(self).written() + key_lead(old(self).indent(), key@),
            obj.indent() == deeper(old(self).indent()),
            final(self).written() == final(obj.sink())@,
            final(self).indent() == old(self).indent(),
            !final(self).is_empty(),
            final(final(self).sink())@ == final(old(self).sink())@,
    {
        let inner: u8 = self.indent.saturating_add(2);
        self.empty = false;
        self.buf.push(0x0a);
        push_spaces(self.buf, inner);
        key.write(self.buf);
        self.buf.push(0x20);
        assert(self.buf@ =~= old(self).written() + key_lead(old(self).indent(), key@));
        Obj { buf: &mut *self.buf, indent: inner }
    }

    /// Writes `key` with the scalar `value`.
    pub fn pair<T: Primitive>(&mut self, key: Name<'_>, value: T) -> (dict: &mut Self)
        ensures
            dict.follows(*old(self), entry(old(self).indent(), key@, value.token())),
            final(dict.sink())@ == final(old(self).sink())@,
            *final(self) == *final(dict),
    {
        self.key(key).write_scalar(value);
        assert(self.written() =~= old(self).written() + entry(
            old(self).indent(),
            key@,
            value.token(),
        ));
        self
    }

    /// Writes each of `items` as a key with its scalar value, in order.
    pub fn pairs<T: Primitive + Copy>(&mut self, items: &[(Name<'_>, T)]) -> (dict: &mut Self)
        ensures
            dict.written() == old(self).written() + entries(
                old(self).indent(),
                tokens_of(items@),
            ),
            dict.indent() == old(self).indent(),
            dict.is_empty() == (old(self).is_empty() && items@.len() == 0),
            final(dict.sink())@ == final(old(self).sink())@,
            *final(self) == *final(dict),
    {
        let ghost all = tokens_of(items@);
        let mut i: usize = 0;
        assert(self.written() =~= old(self).written() + entries(self.indent(), all.take(0)));
        while i < items.len()
            invariant
                i <= items.len(),
                all == tokens_of(items@),
                self.written() == old(self).written() + entries(
                    old(self).indent(),
                    all.take(i as int),
                ),
                self.indent() == old(self).indent(),
                self.is_empty() == (old(self).is_empty() && i == 0),
                final(self.sink())@ == final(old(self).sink())@,
            decreases items.len() - i,
        {
            let (key, value) = items[i];
            self.pair(key, value);
            proof {
                assert(all.take(i + 1).drop_last() =~= all.take(i as int));
                assert(all.take(i + 1).last() == (key@, value.token()));
                assert(self.written() =~= old(self).written() + entries(
                    old(self).indent(),
                    all.take(i + 1),
                ));
            }
            i += 1;
        }
        assert(all.take(i as int) =~= all);
        self
    }

    /// Writes the closing delimiter and ends the dictionary.
    pub fn finish(self)
        ensures
            final(self.sink())@ == self.written() + dict_close(self.indent(), self.is_empty()),
    {
        let ghost before = self.buf@;
        if !self.empty {
            self.buf.push(0x0a);
            push_spaces(self.buf, self.indent);
        }
        self.buf.push(0x3e);
        self.buf.push(0x3e);
        assert(self.buf@ =~= before + dict_close(self.indent, self.empty));
    }
}

impl<'a> Array<'a> {
    /// The borrowed buffer.
    pub closed spec fn sink(self) -> &'a mut Vec<u8> {
        self.buf
    }

    /// The bytes in the buffer now.
    pub open spec fn written(self) -> Seq<u8> {
        self.sink()@
    }

    /// The column at which the array stands.
    pub closed spec fn indent(self) -> u8 {
        self.indent
    }

    /// Whether no item has been written yet.
    pub closed spec fn is_empty(self) -> bool {
        self.empty
    }

    /// Whether this is the array `before` with `bytes` appended and at least
    /// one item written.
    pub open spec fn follows(self, before: Self, bytes: Seq<u8>) -> bool {
        &&& self.written() == before.written() + bytes
        &&& self.indent() == before.indent()
        &&& !self.is_empty()
    }

    /// Returns the cursor for the next item. The array is out of reach until
    /// that cursor is used up; it then holds whatever was written through
    /// the cursor.
    pub fn push(&mut self) -> (obj: Obj<'_>)
        ensures
            obj.written() == old(self).written() + item_lead(old(self).is_empty()),
            obj.indent() == old(self).indent(),
            final(self).written() == final(obj.sink())@,
            final(self).indent() == old(self).indent(),
            !final(self).is_empty(),
            final(final(self).sink())@ == final(old(self).sink())@,
    {
        if !self.empty {
            self.buf.push(0x20);
        }
        self.empty = false;
        assert(self.buf@ =~= old(self).written() + item_lead(old(self).is_empty()));
        Obj { buf: &mut *self.buf, indent: self.indent }
    }

    /// Writes the scalar `value` as the next item.
    pub fn item<T: Primitive>(&mut self, value: T) -> (array: &mut Self)
        ensures
            array.follows(*old(self), item_lead(old(self).is_empty()) + value.token()),
            final(array.sink())@ == final(old(self).sink())@,
            *final(self) == *final(array),
    {
        self.push().write_scalar(value);
        assert(self.written() =~= old(self).written() + (item_lead(old(self).is_empty())
            + value.token()));
        self
    }

    /// Writes the closing delimiter and ends the array.
    pub fn finish(self)
        ensures
            final(self.sink())@ == self.written() + array_close(),
    {
        let ghost before = self.buf@;
        self.buf.push(0x5d);
        assert(self.buf@ =~= before + array_close());
    }
}

} // verus!
