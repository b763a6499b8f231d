//! A typed builder for the objects of a page-description document:
//! dictionaries, arrays and scalars, appended to a byte buffer in the
//! format's textual object syntax.
//!
//! An [`Obj`] is the permission to write one value at the end of a buffer.
//! It is used up by writing a scalar, or by opening a [`Dict`] or an
//! [`Array`], which must be finished to emit its closing delimiter.
//! [`Transition`] and [`Action`] are dictionaries with a fixed menu of keys.
//!
//! Every function states, over the byte sequences defined in `syntax`,
//! `primitive` and `object`, exactly which bytes it appends.

pub mod syntax;
pub mod primitive;
pub mod object;
pub mod interactive;
pub mod number;
pub mod destination;
pub mod files;
pub mod laws;

pub use destination::Destination;
pub use files::FileSpec;
pub use interactive::{Action, ActionType, Transition, TransitionAngle, TransitionStyle};
pub use number::Real;
pub use object::{Array, Dict, Obj};
pub use primitive::{Name, Primitive, Ref, Str};
