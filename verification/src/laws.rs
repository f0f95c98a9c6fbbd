//! The library's general laws, stated over the resolution and synthesis
//! specs and proved once for all inputs.

use vstd::prelude::*;
use crate::dialoguer_list::confirm::Confirm;
use crate::dialoguer_list::input::Input;
use crate::dialoguer_list::multiselect;
use crate::dialoguer_list::password;
use crate::dialoguer_list::select;
use crate::dialoguer_list::select::SelectV;
use crate::dialoguer_list::{
    spec_dispatch, spec_recognize, spec_resolve, spec_resolve_attrs, spec_default_kind,
    spec_is_name_or_wrapped, spec_method_text_of, spec_scan, spec_select_item, DialoguerListV,
};
use crate::theme::ThemeChoice;
use crate::emit::{spec_options_param, spec_prompt_param};
use crate::meta::{Directive, Field, PromptKind, ResolveError};
use crate::text::dec_digits;
use crate::ty::{spec_inner_type, spec_shape, spec_ty_text, Ty, TypeShape};

verus! {

/// With no recognized directive attached, resolution is default-kind
/// inference, and always succeeds.
pub proof fn lemma_resolve_unannotated(ty: Ty, attrs: Seq<Directive>)
    requires
        forall|j: int| 0 <= j < attrs.len() ==> spec_recognize(#[trigger] attrs[j].tag@) is None,
    ensures
        spec_resolve_attrs(ty, attrs) == Ok::<DialoguerListV, ResolveError>(spec_default_kind(ty)),
    decreases attrs.len(),
{
    if attrs.len() > 0 {
        assert(spec_recognize(attrs[0].tag@) is None);
        assert forall|j: int| 0 <= j < attrs.drop_first().len() implies spec_recognize(
            #[trigger] attrs.drop_first()[j].tag@,
        ) is None by {
            assert(attrs.drop_first()[j] == attrs[j + 1]);
        }
        lemma_resolve_unannotated(ty, attrs.drop_first());
    }
}

/// A list-shaped field with no recognized directive resolves to a
/// pick-several prompt over the list's item type, with the empty spec.
pub proof fn lemma_unannotated_list_field(field: Field, item: Ty)
    requires
        spec_shape(field.ty) == TypeShape::List(item),
        forall|j: int| 0 <= j < field.attrs@.len() ==> spec_recognize(
            #[trigger] field.attrs@[j].tag@,
        ) is None,
    ensures
        spec_resolve(field) == Ok::<DialoguerListV, ResolveError>(
            DialoguerListV::MultiSelect(multiselect::spec_empty(), item),
        ),
{
    lemma_resolve_unannotated(field.ty, field.attrs@);
}

/// A `bool` or `Option<bool>` field with no recognized directive resolves to
/// a yes/no prompt with the empty spec.
pub proof fn lemma_unannotated_bool_field(field: Field)
    requires
        spec_is_name_or_wrapped(field.ty, "bool"@, "Option"@),
        forall|j: int| 0 <= j < field.attrs@.len() ==> spec_recognize(
            #[trigger] field.attrs@[j].tag@,
        ) is None,
    ensures
        spec_resolve(field) == Ok::<DialoguerListV, ResolveError>(
            DialoguerListV::Confirm(Confirm { prompt: None, default: None }),
        ),
{
    lemma_resolve_unannotated(field.ty, field.attrs@);
    reveal_strlit("Option");
    reveal_strlit("Vec");
    assert("Option"@.len() == 6);
    assert("Vec"@.len() == 3);
    assert(spec_inner_type(field.ty, "Vec"@) is None);
}

/// Any other field with no recognized directive resolves to a free-text
/// prompt with the empty spec.
pub proof fn lemma_unannotated_other_field(field: Field)
    requires
        spec_inner_type(field.ty, "Vec"@) is None,
        !spec_is_name_or_wrapped(field.ty, "bool"@, "Option"@),
        forall|j: int| 0 <= j < field.attrs@.len() ==> spec_recognize(
            #[trigger] field.attrs@[j].tag@,
        ) is None,
    ensures
        spec_resolve(field) == Ok::<DialoguerListV, ResolveError>(
            DialoguerListV::Input(Input { prompt: None }),
        ),
{
    lemma_resolve_unannotated(field.ty, field.attrs@);
}

/// What the scanner finds decides resolution: the first recognized directive
/// dispatches to its kind's parser under the field's shape, and a field the
/// scanner finds nothing on falls to default-kind inference.
pub proof fn lemma_resolution_by_scan(ty: Ty, attrs: Seq<Directive>)
    ensures
        spec_scan(attrs) matches Some(p) ==> spec_resolve_attrs(ty, attrs) == spec_dispatch(
            ty,
            p.0,
            p.1,
        ),
        spec_scan(attrs) is None ==> spec_resolve_attrs(ty, attrs) == Ok::<
            DialoguerListV,
            ResolveError,
        >(spec_default_kind(ty)),
    decreases attrs.len(),
{
    if attrs.len() > 0 {
        if spec_recognize(attrs[0].tag@) is None {
            lemma_resolution_by_scan(ty, attrs.drop_first());
        }
    }
}

/// The first recognized directive decides resolution, whatever stands before
/// it (skipped as unrecognized) or after it (ignored).
pub proof fn lemma_first_recognized_decides(
    ty: Ty,
    attrs: Seq<Directive>,
    k: int,
    kind: PromptKind,
)
    requires
        0 <= k < attrs.len(),
        spec_recognize(attrs[k].tag@) == Some(kind),
        forall|j: int| 0 <= j < k ==> spec_recognize(#[trigger] attrs[j].tag@) is None,
    ensures
        spec_resolve_attrs(ty, attrs) == spec_dispatch(ty, kind, attrs[k]),
    decreases k,
{
    if k > 0 {
        assert(spec_recognize(attrs[0].tag@) is None);
        assert forall|j: int| 0 <= j < k - 1 implies spec_recognize(
            #[trigger] attrs.drop_first()[j].tag@,
        ) is None by {
            assert(attrs.drop_first()[j] == attrs[j + 1]);
        }
        assert(attrs.drop_first()[k - 1] == attrs[k]);
        lemma_first_recognized_decides(ty, attrs.drop_first(), k - 1, kind);
    }
}

/// A `password` directive on a `String` or `Option<String>` field resolves to
/// a masked prompt carrying whatever its grammar parsed.
pub proof fn lemma_password_on_string_shape(field: Field, k: int, s: password::Password)
    requires
        0 <= k < field.attrs@.len(),
        spec_recognize(field.attrs@[k].tag@) == Some(PromptKind::Password),
        forall|j: int| 0 <= j < k ==> spec_recognize(#[trigger] field.attrs@[j].tag@) is None,
        spec_is_name_or_wrapped(field.ty, "String"@, "Option"@),
        password::spec_parse(field.attrs@[k]) == Ok::<password::Password, ResolveError>(s),
    ensures
        spec_resolve(field) == Ok::<DialoguerListV, ResolveError>(DialoguerListV::Password(s)),
{
    lemma_first_recognized_decides(field.ty, field.attrs@, k, PromptKind::Password);
}

/// A `password` directive on any other shape fails with the type-mismatch
/// diagnostic, whatever its option pairs hold.
pub proof fn lemma_password_shape_mismatch(field: Field, k: int)
    requires
        0 <= k < field.attrs@.len(),
        spec_recognize(field.attrs@[k].tag@) == Some(PromptKind::Password),
        forall|j: int| 0 <= j < k ==> spec_recognize(#[trigger] field.attrs@[j].tag@) is None,
        !spec_is_name_or_wrapped(field.ty, "String"@, "Option"@),
    ensures
        spec_resolve(field) == Err::<DialoguerListV, ResolveError>(ResolveError::PasswordShape),
{
    lemma_first_recognized_decides(field.ty, field.attrs@, k, PromptKind::Password);
}

/// A `multiselect` directive on a field that is not list-shaped fails with
/// the list-only diagnostic, whatever its option pairs hold.
pub proof fn lemma_multiselect_shape_mismatch(field: Field, k: int)
    requires
        0 <= k < field.attrs@.len(),
        spec_recognize(field.attrs@[k].tag@) == Some(PromptKind::MultiSelect),
        forall|j: int| 0 <= j < k ==> spec_recognize(#[trigger] field.attrs@[j].tag@) is None,
        spec_inner_type(field.ty, "Vec"@) is None,
    ensures
        spec_resolve(field) == Err::<DialoguerListV, ResolveError>(ResolveError::MultiSelectShape),
{
    lemma_first_recognized_decides(field.ty, field.attrs@, k, PromptKind::MultiSelect);
}

/// A `select` directive resolves its item type to the inner type of an
/// optional-shaped field, and to the field's own type otherwise.
pub proof fn lemma_select_item_type(field: Field, k: int, s: SelectV)
    requires
        0 <= k < field.attrs@.len(),
        spec_recognize(field.attrs@[k].tag@) == Some(PromptKind::Select),
        forall|j: int| 0 <= j < k ==> spec_recognize(#[trigger] field.attrs@[j].tag@) is None,
        select::spec_parse(field.attrs@[k]) == Ok::<SelectV, ResolveError>(s),
    ensures
        spec_inner_type(field.ty, "Option"@) matches Some(inner) ==> spec_resolve(field)
            == Ok::<DialoguerListV, ResolveError>(DialoguerListV::Select(s, inner)),
        spec_inner_type(field.ty, "Option"@) is None ==> spec_resolve(field)
            == Ok::<DialoguerListV, ResolveError>(DialoguerListV::Select(s, field.ty)),
        spec_resolve(field) == Ok::<DialoguerListV, ResolveError>(
            DialoguerListV::Select(s, spec_select_item(field.ty)),
        ),
{
    lemma_first_recognized_decides(field.ty, field.attrs@, k, PromptKind::Select);
}

/// The runtime parameters of an emitted pick-one method: none when both
/// `prompt` and `options` were supplied in the directive; `prompt` then
/// `options` when neither was; `options` alone when only `prompt` was.
pub proof fn lemma_select_params(s: SelectV, item: Ty)
    ensures
        s.prompt is Some && s.options is Some ==> spec_prompt_param(s.prompt)
            + spec_options_param(s.options, spec_ty_text(item)) == Seq::<char>::empty(),
        s.prompt is None && s.options is None ==> spec_prompt_param(s.prompt)
            + spec_options_param(s.options, spec_ty_text(item)) == "prompt: &str, "@ + (
        "options: &["@ + spec_ty_text(item) + "], "@),
        s.prompt is Some && s.options is None ==> spec_prompt_param(s.prompt)
            + spec_options_param(s.options, spec_ty_text(item)) == "options: &["@ + spec_ty_text(
            item,
        ) + "], "@,
{
    if s.prompt is Some && s.options is Some {
        assert(spec_prompt_param(s.prompt) + spec_options_param(s.options, spec_ty_text(item))
            =~= Seq::<char>::empty());
    }
    if s.prompt is None && s.options is None {
        assert(spec_prompt_param(s.prompt) + spec_options_param(s.options, spec_ty_text(item))
            =~= "prompt: &str, "@ + ("options: &["@ + spec_ty_text(item) + "], "@));
    }
    if s.prompt is Some && s.options is None {
        assert(spec_prompt_param(s.prompt) + spec_options_param(s.options, spec_ty_text(item))
            =~= "options: &["@ + spec_ty_text(item) + "], "@);
    }
}

/// The default-index configuration step of an emitted pick-one method is
/// absent — empty text, not a zero-valued step — exactly when the directive
/// carried no `default` key, and otherwise names the supplied index.
pub proof fn lemma_select_default_step(s: SelectV)
    ensures
        s.default is None ==> select::spec_default_part(s.default) == Seq::<char>::empty(),
        s.default matches Some(n) ==> select::spec_default_part(s.default) == ".default("@
            + dec_digits(n as nat) + ")"@,
{
}

/// The generated surface: whatever the resolved kind, the emitted method is
/// named after the field, takes the record by mutable access with its runtime
/// parameters after it, and hands the record back for chaining.
#[verifier::rlimit(100)]
#[verifier::spinoff_prover]
pub proof fn lemma_method_surface(
    dl: DialoguerListV,
    name: Seq<char>,
    optional: bool,
    theme: ThemeChoice,
)
    ensures
        spec_method_text_of(dl, name, optional, theme).take(7) == "pub fn "@,
        spec_method_text_of(dl, name, optional, theme).skip(7).take(name.len() as int) == name,
        spec_method_text_of(dl, name, optional, theme).skip(7 + name.len() as int).take(12)
            == "(&mut self, "@,
        spec_method_text_of(dl, name, optional, theme).skip(
            spec_method_text_of(dl, name, optional, theme).len() - 8,
        ) == "; self }"@,
{
    reveal_strlit("pub fn ");
    reveal_strlit("(&mut self, ");
    reveal_strlit("; self }");
    let t = spec_method_text_of(dl, name, optional, theme);
    match dl {
        DialoguerListV::Input(_) => {
            assert(t.take(7) =~= "pub fn "@);
            assert(t.skip(7).take(name.len() as int) =~= name);
            assert(t.skip(7 + name.len() as int).take(12) =~= "(&mut self, "@);
            assert(t.skip(t.len() - 8) =~= "; self }"@);
        },
        DialoguerListV::Password(_) => {
            assert(t.take(7) =~= "pub fn "@);
            assert(t.skip(7).take(name.len() as int) =~= name);
            assert(t.skip(7 + name.len() as int).take(12) =~= "(&mut self, "@);
            assert(t.skip(t.len() - 8) =~= "; self }"@);
        },
        DialoguerListV::Confirm(_) => {
            assert(t.take(7) =~= "pub fn "@);
            assert(t.skip(7).take(name.len() as int) =~= name);
            assert(t.skip(7 + name.len() as int).take(12) =~= "(&mut self, "@);
            assert(t.skip(t.len() - 8) =~= "; self }"@);
        },
        DialoguerListV::Select(s, item) => {
            assert(t.take(7) =~= "pub fn "@);
            assert(t.skip(7).take(name.len() as int) =~= name);
            assert(t.skip(7 + name.len() as int).take(12) =~= "(&mut self, "@);
            let x = "pub fn "@ + name + "(&mut self, "@ + spec_prompt_param(s.prompt)
                + spec_options_param(s.options, spec_ty_text(item)) + ") -> &mut Self { "@
                + crate::emit::spec_gen_options(s.options, spec_ty_text(item))
                + "let res = dialogue_macro::dialoguer::Select"@ + crate::theme::spec_theme_suffix(
                theme,
            ) + crate::emit::spec_prompt_part(s.prompt) + select::spec_default_part(s.default)
                + ".items(options).interact().unwrap(); self."@ + name + " = "@
                + crate::emit::spec_wrap_some(optional, "options[res].clone().into()"@);
            assert(t.skip(x.len() as int) =~= "; self }"@);
            assert(t.len() == x.len() + 8);
            assert(t.skip(t.len() - 8) == t.skip(x.len() as int));
        },
        DialoguerListV::MultiSelect(_, _) => {
            assert(t.take(7) =~= "pub fn "@);
            assert(t.skip(7).take(name.len() as int) =~= name);
            assert(t.skip(7 + name.len() as int).take(12) =~= "(&mut self, "@);
            reveal_strlit(" = res.iter().map(|i| options[*i].clone().into()).collect(); self }");
            assert(t.skip(t.len() - 8) =~= "; self }"@);
        },
    }
}

} // verus!
