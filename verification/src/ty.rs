//! The model of a field's declared type and its shape.
//!
//! A declared type is a path name with at most one generic argument, which is
//! all the resolution rules ever inspect.  A type whose source form is richer
//! (a tuple, a multi-argument generic) is carried as its token text in `path`
//! with no argument, which makes every shape test on it answer `false`, as it
//! should.

use vstd::prelude::*;
use vstd::string::StringExecFns;
use crate::text::str_eq;

verus! {

/// A declared type: a path name, with one generic argument if the source
/// wrote one (`Option<String>` has path `Option` and argument `String`).
#[derive(Debug, PartialEq, Eq)]
pub struct Ty {
    pub path: String,
    pub arg: Option<Box<Ty>>,
}

impl Clone for Ty {
    fn clone(&self) -> (r: Self)
        ensures
            r == *self,
        decreases *self,
    {
        Ty {
            path: self.path.clone(),
            arg: match &self.arg {
                Some(b) => Some(Box::new((**b).clone())),
                None => None,
            },
        }
    }
}

/// The classification of a declared type: bare, optional-wrapped, or
/// list-wrapped, each carrying the relevant type.
#[derive(Debug, PartialEq, Eq)]
pub enum TypeShape {
    Bare(Ty),
    Optional(Ty),
    List(Ty),
}

/// Whether the type is the plain name `name`, with no generic argument.
pub open spec fn spec_is_ident(t: Ty, name: Seq<char>) -> bool {
    t.path@ == name && t.arg is None
}

/// The inner type of a single-level `outer<inner>` wrapper, if the type has
/// that form.
pub open spec fn spec_inner_type(t: Ty, outer: Seq<char>) -> Option<Ty> {
    match t.arg {
        Some(b) => if t.path@ == outer {
            Some(*b)
        } else {
            None
        },
        None => None,
    }
}

/// Whether the type is `Option`-wrapped.
pub open spec fn spec_is_optional(t: Ty) -> bool {
    spec_inner_type(t, "Option"@) is Some
}

/// One-level shape classification: `Option<T>` is optional-wrapped, `Vec<T>`
/// is list-wrapped, everything else is bare.  Nested wrappers are not looked
/// into: only the outermost wrapper counts.
pub open spec fn spec_shape(t: Ty) -> TypeShape {
    match spec_inner_type(t, "Option"@) {
        Some(inner) => TypeShape::Optional(inner),
        None => match spec_inner_type(t, "Vec"@) {
            Some(inner) => TypeShape::List(inner),
            None => TypeShape::Bare(t),
        },
    }
}

/// The token text of the type: its path, then `<argument>` if one is there.
pub open spec fn spec_ty_text(t: Ty) -> Seq<char>
    decreases t,
{
    t.path@ + spec_ty_arg_text(t.arg)
}

/// The token text of the generic-argument part of a type.
pub open spec fn spec_ty_arg_text(arg: Option<Box<Ty>>) -> Seq<char>
    decreases arg,
{
    match arg {
        None => Seq::empty(),
        Some(b) => "<"@ + spec_ty_text(*b) + ">"@,
    }
}

impl Ty {
    /// Whether the type is the plain name `name`.
    pub fn is_ident(&self, name: &str) -> (r: bool)
        ensures
            r == spec_is_ident(*self, name@),
    {
        match &self.arg {
            Some(_) => false,
            None => str_eq(self.path.as_str(), name),
        }
    }

    /// Renders the type's token text.
    pub fn render(&self) -> (out: String)
        ensures
            out@ == spec_ty_text(*self),
        decreases *self,
    {
        let mut out = self.path.clone();
        match &self.arg {
            Some(b) => {
                let mut sfx = String::new();
                sfx.append("<");
                let inner = (**b).render();
                sfx.append(inner.as_str());
                sfx.append(">");
                proof {
                    assert(sfx@ =~= "<"@ + spec_ty_text(**b) + ">"@);
                }
                out.append(sfx.as_str());
            },
            None => {
                proof {
                    assert(out@ + Seq::<char>::empty() =~= out@);
                }
            },
        }
        out
    }
}

/// The inner type of a single-level `outer<inner>` wrapper, if the type has
/// that form.
pub fn get_inner_type<'a>(ty: &'a Ty, outer: &str) -> (r: Option<&'a Ty>)
    ensures
        match r {
            Some(t) => spec_inner_type(*ty, outer@) == Some(*t),
            None => spec_inner_type(*ty, outer@) is None,
        },
{
    match &ty.arg {
        Some(b) => {
            if str_eq(ty.path.as_str(), outer) {
                Some(&**b)
            } else {
                None
            }
        },
        None => None,
    }
}

/// One-level shape classification of a declared type.
pub fn classify(ty: &Ty) -> (s: TypeShape)
    ensures
        s == spec_shape(*ty),
{
    match get_inner_type(ty, "Option") {
        Some(inner) => TypeShape::Optional(inner.clone()),
        None => match get_inner_type(ty, "Vec") {
            Some(inner) => TypeShape::List(inner.clone()),
            None => TypeShape::Bare(ty.clone()),
        },
    }
}

} // verus!
