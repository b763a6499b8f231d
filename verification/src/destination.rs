//! Destinations: a page and the part of it to show.

use vstd::prelude::*;
use crate::number::Real;
use crate::object::{array_close, array_open, item_lead, Array, Obj};
use crate::primitive::{name_token, ref_token, Name, Primitive, Ref};
use crate::syntax::{ascii, int_token};

verus! {

/// The token of an optional zoom factor: the number, or zero where none is
/// given.
pub open spec fn zoom_token(zoom: Option<Real<'_>>) -> Seq<u8> {
    match zoom {
        Some(factor) => factor.token(),
        None => int_token(0),
    }
}

/// Writer for a destination array. Each of the methods that choose the view
/// writes the rest of the array and closes it.
pub struct Destination<'a> {
    array: Array<'a>,
}

impl<'a> Destination<'a> {
    /// The array being written.
    pub closed spec fn view(self) -> Array<'a> {
        self.array
    }

    /// Opens a destination array as the value of `obj` and writes the page
    /// it leads to.
    pub fn start(obj: Obj<'a>, page: Ref) -> (dest: Destination<'a>)
        ensures
            dest@.written() == obj.written() + array_open() + ref_token(page@),
            dest@.indent() == obj.indent(),
            !dest@.is_empty(),
            final(dest@.sink())@ == final(obj.sink())@,
    {
        let mut array = obj.begin_array();
        array.item(page);
        assert(array.written() =~= obj.written() + array_open() + ref_token(page@));
        Destination { array }
    }

    /// Shows the page with its upper-left corner at (`left`, `top`) and the
    /// given zoom factor.
    pub fn xyz(self, left: Real<'_>, top: Real<'_>, zoom: Option<Real<'_>>)
        ensures
            final(self@.sink())@ == self@.written() + item_lead(self@.is_empty()) + name_token(
                ascii("XYZ"@),
            ) + seq![' ' as u8] + left.token() + seq![' ' as u8] + top.token() + seq![' ' as u8]
                + zoom_token(zoom) + array_close(),
    {
        proof {
            reveal_strlit("XYZ");
        }
        let ghost before = self.array.written();
        let ghost first = self.array.is_empty();
        let mut array = self.array;
        array.item(Name::text("XYZ"));
        array.item(left);
        array.item(top);
        match zoom {
            Some(factor) => {
                array.item(factor);
            },
            None => {
                array.item(0i32);
            },
        }
        assert(array.written() =~= before + item_lead(first) + name_token(ascii("XYZ"@)) + seq![
            ' ' as u8,
        ] + left.token() + seq![' ' as u8] + top.token() + seq![' ' as u8] + zoom_token(zoom));
        array.finish();
    }

    /// Shows the whole page, fitted into the window.
    pub fn fit(self)
        ensures
            final(self@.sink())@ == self@.written() + item_lead(self@.is_empty()) + name_token(
                ascii("Fit"@),
            ) + array_close(),
    {
        proof {
            reveal_strlit("Fit");
        }
        let mut array = self.array;
        array.item(Name::text("Fit"));
        array.finish();
    }
}

} // verus!
