//! The resolver: combines the directive scanner with the type-shape inspector
//! to pick exactly one prompt kind per field, enforce the shape invariants,
//! apply default-kind inference, and drive per-record method emission.

pub mod confirm;
pub mod input;
pub mod multiselect;
pub mod password;
pub mod select;

use vstd::prelude::*;
use vstd::string::StringExecFns;
use crate::emit::spec_field_name;
use crate::meta::{Directive, Field, PromptKind, Record, ResolveError};
use crate::text::str_eq;
use crate::theme::ThemeChoice;
use crate::ty::{get_inner_type, spec_inner_type, spec_is_ident, spec_is_optional, Ty};
use crate::dialoguer_list::confirm::Confirm;
use crate::dialoguer_list::input::Input;
use crate::dialoguer_list::multiselect::{MultiSelect, MultiSelectV};
use crate::dialoguer_list::password::Password;
use crate::dialoguer_list::select::{Select, SelectV};

verus! {

/// One field's canonical prompt specification: the resolved kind, with the
/// resolved item type for the two list-backed kinds.
#[derive(Debug, PartialEq, Eq)]
pub enum DialoguerList {
    Input(Input),
    Password(Password),
    Confirm(Confirm),
    Select(Select, Ty),
    MultiSelect(MultiSelect, Ty),
}

/// The mathematical value of a canonical prompt specification.
pub ghost enum DialoguerListV {
    Input(Input),
    Password(Password),
    Confirm(Confirm),
    Select(SelectV, Ty),
    MultiSelect(MultiSelectV, Ty),
}

impl View for DialoguerList {
    type V = DialoguerListV;

    open spec fn view(&self) -> DialoguerListV {
        match *self {
            DialoguerList::Input(s) => DialoguerListV::Input(s),
            DialoguerList::Password(s) => DialoguerListV::Password(s),
            DialoguerList::Confirm(s) => DialoguerListV::Confirm(s),
            DialoguerList::Select(s, t) => DialoguerListV::Select(s@, t),
            DialoguerList::MultiSelect(s, t) => DialoguerListV::MultiSelect(s@, t),
        }
    }
}

/// The first recognized directive among a field's attributes, in declaration
/// order, with its kind; unrecognized tags are skipped.
pub open spec fn spec_scan(attrs: Seq<Directive>) -> Option<(PromptKind, Directive)>
    decreases attrs.len(),
{
    if attrs.len() == 0 {
        None
    } else {
        match spec_recognize(attrs[0].tag@) {
            Some(k) => Some((k, attrs[0])),
            None => spec_scan(attrs.drop_first()),
        }
    }
}

/// The directive scanner: walks the field's attributes in declaration order
/// and hands back the first whose tag names a recognized kind, if any does.
pub fn scan(field: &Field) -> (r: Option<(PromptKind, &Directive)>)
    ensures
        match r {
            Some(p) => spec_scan(field.attrs@) == Some((p.0, *p.1)),
            None => spec_scan(field.attrs@) is None,
        },
{
    proof {
        assert(field.attrs@.skip(0) =~= field.attrs@);
    }
    let mut i: usize = 0;
    while i < field.attrs.len()
        invariant
            i <= field.attrs@.len(),
            spec_scan(field.attrs@.skip(i as int)) == spec_scan(field.attrs@),
        decreases field.attrs@.len() - i,
    {
        let attr = &field.attrs[i];
        proof {
            let rest = field.attrs@.skip(i as int);
            assert(rest[0] == field.attrs@[i as int]);
            assert(rest.drop_first() =~= field.attrs@.skip(i as int + 1));
        }
        match DialoguerList::get_dialogue(attr) {
            Some(k) => {
                return Some((k, attr));
            },
            None => {},
        }
        i = i + 1;
    }
    proof {
        assert(field.attrs@.skip(i as int) =~= Seq::<Directive>::empty());
    }
    None
}

/// The prompt kind a directive tag names, if it names one at all.
pub open spec fn spec_recognize(tag: Seq<char>) -> Option<PromptKind> {
    if tag == "input"@ {
        Some(PromptKind::Input)
    } else if tag == "password"@ {
        Some(PromptKind::Password)
    } else if tag == "confirm"@ {
        Some(PromptKind::Confirm)
    } else if tag == "select"@ {
        Some(PromptKind::Select)
    } else if tag == "multiselect"@ {
        Some(PromptKind::MultiSelect)
    } else {
        None
    }
}

/// Whether the type is the plain name `name`, or `outer<name>`.
pub open spec fn spec_is_name_or_wrapped(t: Ty, name: Seq<char>, outer: Seq<char>) -> bool {
    match spec_inner_type(t, outer) {
        Some(inner) => spec_is_ident(inner, name),
        None => spec_is_ident(t, name),
    }
}

/// The item type a `select` on this field resolves to: the inner type of an
/// optional-shaped field, else the field's own type.
pub open spec fn spec_select_item(ty: Ty) -> Ty {
    match spec_inner_type(ty, "Option"@) {
        Some(inner) => inner,
        None => ty,
    }
}

/// Resolution when a recognized directive is attached: the shape invariant of
/// the named kind is enforced, then the kind's own grammar parses the pairs.
pub open spec fn spec_dispatch(ty: Ty, k: PromptKind, d: Directive) -> Result<
    DialoguerListV,
    ResolveError,
> {
    match k {
        PromptKind::Input => match input::spec_parse(d) {
            Ok(s) => Ok(DialoguerListV::Input(s)),
            Err(e) => Err(e),
        },
        PromptKind::Password => if spec_is_name_or_wrapped(ty, "String"@, "Option"@) {
            match password::spec_parse(d) {
                Ok(s) => Ok(DialoguerListV::Password(s)),
                Err(e) => Err(e),
            }
        } else {
            Err(ResolveError::PasswordShape)
        },
        PromptKind::Confirm => if spec_is_name_or_wrapped(ty, "bool"@, "Option"@) {
            match confirm::spec_parse(d) {
                Ok(s) => Ok(DialoguerListV::Confirm(s)),
                Err(e) => Err(e),
            }
        } else {
            Err(ResolveError::ConfirmShape)
        },
        PromptKind::Select => match select::spec_parse(d) {
            Ok(s) => Ok(DialoguerListV::Select(s, spec_select_item(ty))),
            Err(e) => Err(e),
        },
        PromptKind::MultiSelect => match spec_inner_type(ty, "Vec"@) {
            Some(item) => match multiselect::spec_parse(d) {
                Ok(s) => Ok(DialoguerListV::MultiSelect(s, item)),
                Err(e) => Err(e),
            },
            None => Err(ResolveError::MultiSelectShape),
        },
    }
}

/// Default-kind inference for a field with no recognized directive: a
/// list-shaped field collects several values, a boolean field asks yes/no,
/// anything else asks for free text — each with the empty spec.
pub open spec fn spec_default_kind(ty: Ty) -> DialoguerListV {
    match spec_inner_type(ty, "Vec"@) {
        Some(item) => DialoguerListV::MultiSelect(multiselect::spec_empty(), item),
        None => if spec_is_name_or_wrapped(ty, "bool"@, "Option"@) {
            DialoguerListV::Confirm(Confirm { prompt: None, default: None })
        } else {
            DialoguerListV::Input(Input { prompt: None })
        },
    }
}

/// Resolution over the field's attributes in declaration order: the first
/// recognized directive decides; with none, default-kind inference decides.
pub open spec fn spec_resolve_attrs(ty: Ty, attrs: Seq<Directive>) -> Result<
    DialoguerListV,
    ResolveError,
>
    decreases attrs.len(),
{
    if attrs.len() == 0 {
        Ok(spec_default_kind(ty))
    } else {
        match spec_recognize(attrs[0].tag@) {
            Some(k) => spec_dispatch(ty, k, attrs[0]),
            None => spec_resolve_attrs(ty, attrs.drop_first()),
        }
    }
}

/// The canonical prompt specification a field resolves to, or the diagnostic
/// that resolution fails with.  Resolution is total: every field gets exactly
/// one of the two.
pub open spec fn spec_resolve(field: Field) -> Result<DialoguerListV, ResolveError> {
    spec_resolve_attrs(field.ty, field.attrs@)
}

/// The emitted method text for a resolved specification.
pub open spec fn spec_method_text_of(
    dl: DialoguerListV,
    name: Seq<char>,
    optional: bool,
    theme: ThemeChoice,
) -> Seq<char> {
    match dl {
        DialoguerListV::Input(s) => input::spec_method_text(s, name, optional, theme),
        DialoguerListV::Password(s) => password::spec_method_text(s, name, optional, theme),
        DialoguerListV::Confirm(s) => confirm::spec_method_text(s, name, optional, theme),
        DialoguerListV::Select(s, t) => select::spec_method_text(s, name, t, optional, theme),
        DialoguerListV::MultiSelect(s, t) => multiselect::spec_method_text(s, name, t, theme),
    }
}

impl DialoguerList {
    /// The prompt kind an attribute's tag names, if it names one.
    fn get_dialogue(attr: &Directive) -> (r: Option<PromptKind>)
        ensures
            r == spec_recognize(attr.tag@),
    {
        if str_eq(attr.tag.as_str(), "input") {
            Some(PromptKind::Input)
        } else if str_eq(attr.tag.as_str(), "password") {
            Some(PromptKind::Password)
        } else if str_eq(attr.tag.as_str(), "confirm") {
            Some(PromptKind::Confirm)
        } else if str_eq(attr.tag.as_str(), "select") {
            Some(PromptKind::Select)
        } else if str_eq(attr.tag.as_str(), "multiselect") {
            Some(PromptKind::MultiSelect)
        } else {
            None
        }
    }

    /// Whether the type is the plain name `name`, or `outer<name>`.
    fn is_some_type(ty: &Ty, name: &str, outer: &str) -> (r: bool)
        ensures
            r == spec_is_name_or_wrapped(*ty, name@, outer@),
    {
        match get_inner_type(ty, outer) {
            Some(inner) => inner.is_ident(name),
            None => ty.is_ident(name),
        }
    }

    /// Resolves one field to its canonical prompt specification, walking its
    /// attributes in declaration order and honoring the first recognized
    /// directive; with none attached, default-kind inference decides.
    pub fn parse_field(field: &Field) -> (r: Result<DialoguerList, ResolveError>)
        ensures
            r matches Ok(dl) ==> spec_resolve(*field) == Ok::<DialoguerListV, ResolveError>(dl@),
            r matches Err(e) ==> spec_resolve(*field) == Err::<DialoguerListV, ResolveError>(e),
    {
        proof {
            assert(field.attrs@.skip(0) =~= field.attrs@);
        }
        let mut i: usize = 0;
        while i < field.attrs.len()
            invariant
                i <= field.attrs@.len(),
                spec_resolve_attrs(field.ty, field.attrs@.skip(i as int)) == spec_resolve(*field),
            decreases field.attrs@.len() - i,
        {
            let attr = &field.attrs[i];
            proof {
                let rest = field.attrs@.skip(i as int);
                assert(rest[0] == field.attrs@[i as int]);
                assert(rest.drop_first() =~= field.attrs@.skip(i as int + 1));
            }
            match Self::get_dialogue(attr) {
                Some(PromptKind::Input) => {
                    return match Input::parse_field_attr(attr) {
                        Ok(s) => Ok(DialoguerList::Input(s)),
                        Err(e) => Err(e),
                    };
                },
                Some(PromptKind::Password) => {
                    if Self::is_some_type(&field.ty, "String", "Option") {
                        return match Password::parse_field_attr(attr) {
                            Ok(s) => Ok(DialoguerList::Password(s)),
                            Err(e) => Err(e),
                        };
                    } else {
                        return Err(ResolveError::PasswordShape);
                    }
                },
                Some(PromptKind::Confirm) => {
                    if Self::is_some_type(&field.ty, "bool", "Option") {
                        return match Confirm::parse_field_attr(attr) {
                            Ok(s) => Ok(DialoguerList::Confirm(s)),
                            Err(e) => Err(e),
                        };
                    } else {
                        return Err(ResolveError::ConfirmShape);
                    }
                },
                Some(PromptKind::Select) => {
                    let item: Ty = match get_inner_type(&field.ty, "Option") {
                        Some(t) => t.clone(),
                        None => field.ty.clone(),
                    };
                    return match Select::parse_field_attr(attr) {
                        Ok(s) => Ok(DialoguerList::Select(s, item)),
                        Err(e) => Err(e),
                    };
                },
                Some(PromptKind::MultiSelect) => {
                    match get_inner_type(&field.ty, "Vec") {
                        Some(t) => {
                            let item = t.clone();
                            return match MultiSelect::parse_field_attr(attr) {
                                Ok(s) => Ok(DialoguerList::MultiSelect(s, item)),
                                Err(e) => Err(e),
                            };
                        },
                        None => {
                            return Err(ResolveError::MultiSelectShape);
                        },
                    }
                },
                None => {},
            }
            i = i + 1;
        }
        proof {
            assert(field.attrs@.skip(i as int) =~= Seq::<Directive>::empty());
        }
        match get_inner_type(&field.ty, "Vec") {
            Some(t) => Ok(DialoguerList::MultiSelect(MultiSelect::default(), t.clone())),
            None => {
                if Self::is_some_type(&field.ty, "bool", "Option") {
                    Ok(DialoguerList::Confirm(Confirm::default()))
                } else {
                    Ok(DialoguerList::Input(Input::default()))
                }
            },
        }
    }

    /// Renders the emitted method for this resolved specification.
    pub fn generate_method(
        &self,
        field_name: &Option<String>,
        optional: bool,
        theme: ThemeChoice,
    ) -> (r: Result<String, ResolveError>)
        ensures
            r matches Ok(out) && out@ == spec_method_text_of(
                self@,
                spec_field_name(*field_name),
                optional,
                theme,
            ),
    {
        match self {
            DialoguerList::Input(s) => s.generate_method(field_name, optional, theme),
            DialoguerList::Password(s) => s.generate_method(field_name, optional, theme),
            DialoguerList::Confirm(s) => s.generate_method(field_name, optional, theme),
            DialoguerList::Select(s, t) => s.generate_method(field_name, t, optional, theme),
            DialoguerList::MultiSelect(s, t) => s.generate_method(field_name, t, theme),
        }
    }
}

/// Resolves one field and renders its method: the text the field's resolved
/// specification calls for, or the diagnostic resolution fails with.
pub fn generate_for_field(field: &Field, theme: ThemeChoice) -> (r: Result<String, ResolveError>)
    ensures
        spec_resolve(*field) matches Ok(dl) ==> r matches Ok(out) && out@ == spec_method_text_of(
            dl,
            spec_field_name(field.name),
            spec_is_optional(field.ty),
            theme,
        ),
        spec_resolve(*field) matches Err(e) ==> r == Err::<String, ResolveError>(e),
{
    let dl = match DialoguerList::parse_field(field) {
        Ok(d) => d,
        Err(e) => {
            return Err(e);
        },
    };
    let optional = match get_inner_type(&field.ty, "Option") {
        Some(_) => true,
        None => false,
    };
    dl.generate_method(&field.name, optional, theme)
}

/// The concatenated method texts of a record's fields, each followed by one
/// space — or the diagnostic of the first field whose resolution fails.
pub open spec fn spec_gen_fields(fields: Seq<Field>, theme: ThemeChoice) -> Result<
    Seq<char>,
    ResolveError,
>
    decreases fields.len(),
{
    if fields.len() == 0 {
        Ok(Seq::empty())
    } else {
        match spec_gen_fields(fields.drop_last(), theme) {
            Err(e) => Err(e),
            Ok(init) => match spec_resolve(fields.last()) {
                Err(e) => Err(e),
                Ok(dl) => Ok(
                    init + spec_method_text_of(
                        dl,
                        spec_field_name(fields.last().name),
                        spec_is_optional(fields.last().ty),
                        theme,
                    ) + " "@,
                ),
            },
        }
    }
}

/// The full emitted block for one record.
pub open spec fn spec_impl_text(name: Seq<char>, body: Seq<char>) -> Seq<char> {
    "impl "@ + name + " { "@ + body + "}"@
}

/// A failing prefix decides the whole pass: once some prefix of the fields
/// fails, the record fails with that prefix's diagnostic.
proof fn lemma_gen_fields_error_persists(fields: Seq<Field>, k: int, theme: ThemeChoice)
    requires
        0 <= k <= fields.len(),
        spec_gen_fields(fields.take(k), theme) is Err,
    ensures
        spec_gen_fields(fields, theme) == spec_gen_fields(fields.take(k), theme),
    decreases fields.len() - k,
{
    if k == fields.len() {
        assert(fields.take(k) =~= fields);
    } else {
        assert(fields.take(k + 1).drop_last() =~= fields.take(k));
        lemma_gen_fields_error_persists(fields, k + 1, theme);
    }
}

/// Generates the whole record: one method per field, wrapped in one block —
/// or the diagnostic of the first failing field, with no partial output.
pub fn generate_impl(record: &Record, theme: ThemeChoice) -> (r: Result<String, ResolveError>)
    ensures
        spec_gen_fields(record.fields@, theme) matches Ok(body) ==> r matches Ok(out) && out@
            == spec_impl_text(record.name@, body),
        spec_gen_fields(record.fields@, theme) matches Err(e) ==> r == Err::<String, ResolveError>(
            e,
        ),
{
    let mut body = String::new();
    proof {
        assert(record.fields@.take(0) =~= Seq::<Field>::empty());
    }
    let mut i: usize = 0;
    while i < record.fields.len()
        invariant
            i <= record.fields@.len(),
            spec_gen_fields(record.fields@.take(i as int), theme) == Ok::<Seq<char>, ResolveError>(
                body@,
            ),
        decreases record.fields@.len() - i,
    {
        let field = &record.fields[i];
        proof {
            let t1 = record.fields@.take(i as int + 1);
            assert(t1.drop_last() =~= record.fields@.take(i as int));
            assert(t1.last() == record.fields@[i as int]);
        }
        match generate_for_field(field, theme) {
            Ok(m) => {
                body.append(m.as_str());
                body.append(" ");
            },
            Err(e) => {
                proof {
                    lemma_gen_fields_error_persists(record.fields@, i as int + 1, theme);
                }
                return Err(e);
            },
        }
        i = i + 1;
    }
    proof {
        assert(record.fields@.take(record.fields@.len() as int) =~= record.fields@);
    }
    let mut out = String::from_str("impl ");
    out.append(record.name.as_str());
    out.append(" { ");
    out.append(body.as_str());
    out.append("}");
    Ok(out)
}

} // verus!
