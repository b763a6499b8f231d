//! File specifications: which file an action refers to.

use vstd::prelude::*;
use crate::object::{dict_close, dict_open, entry, Dict, Obj};
use crate::primitive::{bool_token, name_token, str_token, Name, Str};
use crate::syntax::ascii;

verus! {

/// Writer for a file specification dictionary.
pub struct FileSpec<'a> {
    dict: Dict<'a>,
}

impl<'a> FileSpec<'a> {
    /// The dictionary being written.
    pub closed spec fn view(self) -> Dict<'a> {
        self.dict
    }

    /// Opens a file specification dictionary as the value of `obj` and
    /// writes its type tag.
    pub fn new(obj: Obj<'a>) -> (file: FileSpec<'a>)
        ensures
            file@.written() == obj.written() + dict_open() + entry(
                obj.indent(),
                ascii("Type"@),
                name_token(ascii("Filespec"@)),
            ),
            file@.indent() == obj.indent(),
            !file@.is_empty(),
            final(file@.sink())@ == final(obj.sink())@,
    {
        proof {
            reveal_strlit("Type");
            reveal_strlit("Filespec");
        }
        let mut dict = obj.begin_dict();
        dict.pair(Name::text("Type"), Name::text("Filespec"));
        FileSpec { dict }
    }

    /// Writes the `/FS` attribute to set the file system that the path is
    /// read in.
    pub fn file_system(&mut self, fs: Name<'_>) -> (file: &mut Self)
        ensures
            file@.follows(old(self)@, entry(old(self)@.indent(), ascii("FS"@), name_token(fs@))),
            final(file@.sink())@ == final(old(self)@.sink())@,
            *final(self) == *final(file),
    {
        proof {
            reveal_strlit("FS");
        }
        self.dict.pair(Name::text("FS"), fs);
        self
    }

    /// Writes the `/F` attribute to set the path of the file.
    pub fn path(&mut self, path: Str<'_>) -> (file: &mut Self)
        ensures
            file@.follows(old(self)@, entry(old(self)@.indent(), ascii("F"@), str_token(path@))),
            final(file@.sink())@ == final(old(self)@.sink())@,
            *final(self) == *final(file),
    {
        proof {
            reveal_strlit("F");
        }
        self.dict.pair(Name::text("F"), path);
        self
    }

    /// Writes the `/V` attribute to set whether the file may change while
    /// the document is open.
    pub fn volatile(&mut self, dont_cache: bool) -> (file: &mut Self)
        ensures
            file@.follows(
                old(self)@,
                entry(old(self)@.indent(), ascii("V"@), bool_token(dont_cache)),
            ),
            final(file@.sink())@ == final(old(self)@.sink())@,
            *final(self) == *final(file),
    {
        proof {
            reveal_strlit("V");
        }
        self.dict.pair(Name::text("V"), dont_cache);
        self
    }

    /// Writes the closing delimiter and ends the dictionary.
    pub fn finish(self)
        ensures
            final(self@.sink())@ == self@.written() + dict_close(
                self@.indent(),
                self@.is_empty(),
            ),
    {
        self.dict.finish();
    }
}

} // verus!
