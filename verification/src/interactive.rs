//! Slide transitions and interactive actions.

use vstd::prelude::*;
use crate::destination::Destination;
use crate::files::FileSpec;
use crate::number::Real;
use crate::object::{
    array_open, deeper, dict_close, dict_open, entry, key_lead, Dict, Obj,
};
use crate::primitive::{
    bool_token, name_token, ref_token, str_token, Name, Primitive, Ref, Str,
};
use crate::syntax::{ascii, int_token};

verus! {

/// The kind of transition.
pub enum TransitionStyle {
    /// Split the slide down the middle.
    Split,
    /// Multiple lines roll up the slide.
    Blinds,
    /// The new slide is revealed in a growing box.
    Box,
    /// Single line that sweeps across the slide.
    Wipe,
    /// Slide dissolves gradually.
    Dissolve,
    /// Like dissolve, but starts on one side.
    Glitter,
    /// No effect.
    R,
    /// Changes are flown in.
    Fly,
    /// Old page slides out, new page slides in.
    Push,
    /// New page slides in to cover the old one.
    Cover,
    /// Old page slides out to uncover the new one.
    Uncover,
    /// A cross-fade.
    Fade,
}

impl TransitionStyle {
    /// The name that stands for this style.
    pub open spec fn name(self) -> Seq<u8> {
        match self {
            Self::Split => ascii("Split"@),
            Self::Blinds => ascii("Blinds"@),
            Self::Box => ascii("Box"@),
            Self::Wipe => ascii("Wipe"@),
            Self::Dissolve => ascii("Dissolve"@),
            Self::Glitter => ascii("Glitter"@),
            Self::R => ascii("R"@),
            Self::Fly => ascii("Fly"@),
            Self::Push => ascii("Push"@),
            Self::Cover => ascii("Cover"@),
            Self::Uncover => ascii("Uncover"@),
            Self::Fade => ascii("Fade"@),
        }
    }

    /// The name that stands for this style.
    pub fn to_name(self) -> (name: Name<'static>)
        ensures
            name@ == self.name(),
    {
        proof {
            reveal_strlit("Split");
            reveal_strlit("Blinds");
            reveal_strlit("Box");
            reveal_strlit("Wipe");
            reveal_strlit("Dissolve");
            reveal_strlit("Glitter");
            reveal_strlit("R");
            reveal_strlit("Fly");
            reveal_strlit("Push");
            reveal_strlit("Cover");
            reveal_strlit("Uncover");
            reveal_strlit("Fade");
        }
        match self {
            Self::Split => Name::text("Split"),
            Self::Blinds => Name::text("Blinds"),
            Self::Box => Name::text("Box"),
            Self::Wipe => Name::text("Wipe"),
            Self::Dissolve => Name::text("Dissolve"),
            Self::Glitter => Name::text("Glitter"),
            Self::R => Name::text("R"),
            Self::Fly => Name::text("Fly"),
            Self::Push => Name::text("Push"),
            Self::Cover => Name::text("Cover"),
            Self::Uncover => Name::text("Uncover"),
            Self::Fade => Name::text("Fade"),
        }
    }
}

/// The angle at which the transition plays.
#[derive(Debug, Copy, Clone, Eq, PartialEq, Hash)]
pub enum TransitionAngle {
    LeftToRight,
    BottomToTop,
    RightToLeft,
    TopToBottom,
    TopLeftToBottomRight,
    /// No direction in the `Fly` style; written as the name `None`.
    NoDirection,
}

impl TransitionAngle {
    /// The token that stands for this angle: its degrees, or the name
    /// `None`.
    pub open spec fn token(self) -> Seq<u8> {
        match self {
            Self::LeftToRight => int_token(0),
            Self::BottomToTop => int_token(90),
            Self::RightToLeft => int_token(180),
            Self::TopToBottom => int_token(270),
            Self::TopLeftToBottomRight => int_token(315),
            Self::NoDirection => name_token(ascii("None"@)),
        }
    }

    /// Writes this angle as the one value of `obj`.
    pub fn write_to_obj(&self, obj: Obj<'_>)
        ensures
            final(obj.sink())@ == obj.written() + self.token(),
    {
        match self {
            Self::LeftToRight => obj.write_scalar(0i32),
            Self::BottomToTop => obj.write_scalar(90i32),
            Self::RightToLeft => obj.write_scalar(180i32),
            Self::TopToBottom => obj.write_scalar(270i32),
            Self::TopLeftToBottomRight => obj.write_scalar(315i32),
            Self::NoDirection => {
                proof {
                    reveal_strlit("None");
                }
                obj.write_scalar(Name::text("None"))
            },
        }
    }
}

/// The name for the dimension in which a transition plays.
pub open spec fn dimension_name(vertical: bool) -> Seq<u8> {
    if vertical {
        ascii("V"@)
    } else {
        ascii("H"@)
    }
}

/// The name for the direction of motion of a transition.
pub open spec fn direction_name(outward: bool) -> Seq<u8> {
    if outward {
        ascii("O"@)
    } else {
        ascii("I"@)
    }
}

/// Writer for a transition dictionary.
pub struct Transition<'a> {
    dict: Dict<'a>,
}

impl<'a> Transition<'a> {
    /// The dictionary being written.
    pub closed spec fn view(self) -> Dict<'a> {
        self.dict
    }

    /// Opens a transition dictionary as the value of `obj` and writes its
    /// type tag.
    pub fn new(obj: Obj<'a>) -> (trans: Transition<'a>)
        ensures
            trans@.written() == obj.written() + dict_open() + entry(
                obj.indent(),
                ascii("Type"@),
                name_token(ascii("Trans"@)),
            ),
            trans@.indent() == obj.indent(),
            !trans@.is_empty(),
            final(trans@.sink())@ == final(obj.sink())@,
    {
        proof {
            reveal_strlit("Type");
            reveal_strlit("Trans");
        }
        let mut dict = obj.begin_dict();
        dict.pair(Name::text("Type"), Name::text("Trans"));
        Transition { dict }
    }

    /// Writes the `/S` attribute to set the transition style.
    pub fn style(&mut self, kind: TransitionStyle) -> (trans: &mut Self)
        ensures
            trans@.follows(
                old(self)@,
                entry(old(self)@.indent(), ascii("S"@), name_token(kind.name())),
            ),
            final(trans@.sink())@ == final(old(self)@.sink())@,
            *final(self) == *final(trans),
    {
        proof {
            reveal_strlit("S");
        }
        self.dict.pair(Name::text("S"), kind.to_name());
        self
    }

    /// Writes the `/D` attribute to set the transition duration in seconds.
    pub fn duration(&mut self, seconds: Real<'_>) -> (trans: &mut Self)
        ensures
            trans@.follows(
                old(self)@,
                entry(old(self)@.indent(), ascii("D"@), seconds.token()),
            ),
            final(trans@.sink())@ == final(old(self)@.sink())@,
            *final(self) == *final(trans),
    {
        proof {
            reveal_strlit("D");
        }
        self.dict.pair(Name::text("D"), seconds);
        self
    }

    /// Writes the `/Dm` attribute to set the dimension in which the
    /// transition plays: vertical, or horizontal if the argument is `false`.
    pub fn dimension(&mut self, vertical: bool) -> (trans: &mut Self)
        ensures
            trans@.follows(
                old(self)@,
                entry(old(self)@.indent(), ascii("Dm"@), name_token(dimension_name(vertical))),
            ),
            final(trans@.sink())@ == final(old(self)@.sink())@,
            *final(self) == *final(trans),
    {
        proof {
            reveal_strlit("Dm");
            reveal_strlit("V");
            reveal_strlit("H");
        }
        let name = if vertical {
            Name::text("V")
        } else {
            Name::text("H")
        };
        self.dict.pair(Name::text("Dm"), name);
        self
    }

    /// Writes the `/M` attribute to set the direction of motion: outward, or
    /// inward if the argument is `false`.
    pub fn direction(&mut self, outward: bool) -> (trans: &mut Self)
        ensures
            trans@.follows(
                old(self)@,
                entry(old(self)@.indent(), ascii("M"@), name_token(direction_name(outward))),
            ),
            final(trans@.sink())@ == final(old(self)@.sink())@,
            *final(self) == *final(trans),
    {
        proof {
            reveal_strlit("M");
            reveal_strlit("O");
            reveal_strlit("I");
        }
        let name = if outward {
            Name::text("O")
        } else {
            Name::text("I")
        };
        self.dict.pair(Name::text("M"), name);
        self
    }

    /// Writes the `/Di` attribute to set the transition angle.
    pub fn angle(&mut self, angle: TransitionAngle) -> (trans: &mut Self)
        ensures
            trans@.follows(
                old(self)@,
                entry(old(self)@.indent(), ascii("Di"@), angle.token()),
            ),
            final(trans@.sink())@ == final(old(self)@.sink())@,
            *final(self) == *final(trans),
    {
        proof {
            reveal_strlit("Di");
        }
        angle.write_to_obj(self.dict.key(Name::text("Di")));
        assert(self@.written() =~= old(self)@.written() + entry(
            old(self)@.indent(),
            ascii("Di"@),
            angle.token(),
        ));
        self
    }

    /// Writes the `/SS` attribute to set the scale for the `Fly` transition.
    pub fn scale(&mut self, scale: Real<'_>) -> (trans: &mut Self)
        ensures
            trans@.follows(
                old(self)@,
                entry(old(self)@.indent(), ascii("SS"@), scale.token()),
            ),
            final(trans@.sink())@ == final(old(self)@.sink())@,
            *final(self) == *final(trans),
    {
        proof {
            reveal_strlit("SS");
        }
        self.dict.pair(Name::text("SS"), scale);
        self
    }

    /// Writes the `/F` attribute to set the opacity for the `Fly` transition.
    pub fn opaque(&mut self, opaque: Real<'_>) -> (trans: &mut Self)
        ensures
            trans@.follows(
                old(self)@,
                entry(old(self)@.indent(), ascii("F"@), opaque.token()),
            ),
            final(trans@.sink())@ == final(old(self)@.sink())@,
            *final(self) == *final(trans),
    {
        proof {
            reveal_strlit("F");
        }
        self.dict.pair(Name::text("F"), opaque);
        self
    }

    /// Writes the closing delimiter and ends the dictionary.
    pub fn finish(self)
        ensures
            final(self@.sink())@ == self@.written() + dict_close(
                self@.indent(),
                self@.is_empty(),
            ),
    {
        self.dict.finish();
    }
}

/// What kind of action to perform.
pub enum ActionType {
    /// Go to a destination in the document.
    GoTo,
    /// Go to a destination in another document.
    RemoteGoTo,
    /// Launch an application.
    Launch,
    /// Open a URI.
    Uri,
}

impl ActionType {
    /// The name that stands for this kind of action.
    pub open spec fn name(self) -> Seq<u8> {
        match self {
            Self::GoTo => ascii("GoTo"@),
            Self::RemoteGoTo => ascii("GoToR"@),
            Self::Launch => ascii("Launch"@),
            Self::Uri => ascii("URI"@),
        }
    }

    /// The name that stands for this kind of action.
    pub fn to_name(self) -> (name: Name<'static>)
        ensures
            name@ == self.name(),
    {
        proof {
            reveal_strlit("GoTo");
            reveal_strlit("GoToR");
            reveal_strlit("Launch");
            reveal_strlit("URI");
        }
        match self {
            Self::GoTo => Name::text("GoTo"),
            Self::RemoteGoTo => Name::text("GoToR"),
            Self::Launch => Name::text("Launch"),
            Self::Uri => Name::text("URI"),
        }
    }
}

/// Writer for an action dictionary.
pub struct Action<'a> {
    dict: Dict<'a>,
}

impl<'a> Action<'a> {
    /// The dictionary being written.
    pub closed spec fn view(self) -> Dict<'a> {
        self.dict
    }

    /// Opens an action dictionary as the value of `obj` and writes its type
    /// tag.
    pub fn new(obj: Obj<'a>) -> (action: Action<'a>)
        ensures
            action@.written() == obj.written() + dict_open() + entry(
                obj.indent(),
                ascii("Type"@),
                name_token(ascii("Action"@)),
            ),
            action@.indent() == obj.indent(),
            !action@.is_empty(),
            final(action@.sink())@ == final(obj.sink())@,
    {
        proof {
            reveal_strlit("Type");
            reveal_strlit("Action");
        }
        let mut dict = obj.begin_dict();
        dict.pair(Name::text("Type"), Name::text("Action"));
        Action { dict }
    }

    /// Writes the `/S` attribute to set the action type.
    pub fn action_type(&mut self, kind: ActionType) -> (action: &mut Self)
        ensures
            action@.follows(
                old(self)@,
                entry(old(self)@.indent(), ascii("S"@), name_token(kind.name())),
            ),
            final(action@.sink())@ == final(old(self)@.sink())@,
            *final(self) == *final(action),
    {
        proof {
            reveal_strlit("S");
        }
        self.dict.pair(Name::text("S"), kind.to_name());
        self
    }

    /// Starts writing the `/D` attribute to set the destination of this
    /// GoTo-type action: an array that begins with `page`. The action is out
    /// of reach until the destination is complete.
    pub fn dest_direct(&mut self, page: Ref) -> (dest: Destination<'_>)
        ensures
            dest@.written() == old(self)@.written() + key_lead(old(self)@.indent(), ascii("D"@))
                + array_open() + ref_token(page@),
            dest@.indent() == deeper(old(self)@.indent()),
            !dest@.is_empty(),
            final(self)@.written() == final(dest@.sink())@,
            final(self)@.indent() == old(self)@.indent(),
            !final(self)@.is_empty(),
            final(final(self)@.sink())@ == final(old(self)@.sink())@,
    {
        proof {
            reveal_strlit("D");
        }
        Destination::start(self.dict.key(Name::text("D")), page)
    }

    /// Writes the `/D` attribute to set the destination of this GoTo-type
    /// action to a named destination.
    pub fn dest_name(&mut self, name: Name<'_>) -> (action: &mut Self)
        ensures
            action@.follows(
                old(self)@,
                entry(old(self)@.indent(), ascii("D"@), name_token(name@)),
            ),
            final(action@.sink())@ == final(old(self)@.sink())@,
            *final(self) == *final(action),
    {
        proof {
            reveal_strlit("D");
        }
        self.dict.pair(Name::text("D"), name);
        self
    }

    /// Starts writing the `/F` attribute, setting which file to go to or
    /// which application to launch. The action is out of reach until the
    /// file specification is finished.
    pub fn file(&mut self) -> (file: FileSpec<'_>)
        ensures
            file@.written() == old(self)@.written() + key_lead(old(self)@.indent(), ascii("F"@))
                + dict_open() + entry(
                deeper(old(self)@.indent()),
                ascii("Type"@),
                name_token(ascii("Filespec"@)),
            ),
            file@.indent() == deeper(old(self)@.indent()),
            !file@.is_empty(),
            final(self)@.written() == final(file@.sink())@,
            final(self)@.indent() == old(self)@.indent(),
            !final(self)@.is_empty(),
            final(final(self)@.sink())@ == final(old(self)@.sink())@,
    {
        proof {
            reveal_strlit("F");
        }
        FileSpec::new(self.dict.key(Name::text("F")))
    }

    /// Writes the `/NewWindow` attribute to set whether this remote GoTo
    /// action should open the referenced destination in another window.
    pub fn new_window(&mut self, new: bool) -> (action: &mut Self)
        ensures
            action@.follows(
                old(self)@,
                entry(old(self)@.indent(), ascii("NewWindow"@), bool_token(new)),
            ),
            final(action@.sink())@ == final(old(self)@.sink())@,
            *final(self) == *final(action),
    {
        proof {
            reveal_strlit("NewWindow");
        }
        self.dict.pair(Name::text("NewWindow"), new);
        self
    }

    /// Writes the `/URI` attribute to set where this link action goes.
    pub fn uri(&mut self, uri: Str<'_>) -> (action: &mut Self)
        ensures
            action@.follows(
                old(self)@,
                entry(old(self)@.indent(), ascii("URI"@), str_token(uri@)),
            ),
            final(action@.sink())@ == final(old(self)@.sink())@,
            *final(self) == *final(action),
    {
        proof {
            reveal_strlit("URI");
        }
        self.dict.pair(Name::text("URI"), uri);
        self
    }

    /// Writes the `/IsMap` attribute to set if the click position of the
    /// user's cursor inside the link rectangle should be appended to the
    /// referenced URI as a query parameter.
    pub fn is_map(&mut self, map: bool) -> (action: &mut Self)
        ensures
            action@.follows(
                old(self)@,
                entry(old(self)@.indent(), ascii("IsMap"@), bool_token(map)),
            ),
            final(action@.sink())@ == final(old(self)@.sink())@,
            *final(self) == *final(action),
    {
        proof {
            reveal_strlit("IsMap");
        }
        self.dict.pair(Name::text("IsMap"), map);
        self
    }

    /// Writes the closing delimiter and ends the dictionary.
    pub fn finish(self)
        ensures
            final(self@.sink())@ == self@.written() + dict_close(
                self@.indent(),
                self@.is_empty(),
            ),
    {
        self.dict.finish();
    }
}

} // verus!
