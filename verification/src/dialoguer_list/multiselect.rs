//! The MultiSelect kind: pick several of N options.  Its grammar recognizes
//! `prompt` (string literal), `defaults` (array of unsigned integer literals)
//! and `options` (literal array).

use vstd::prelude::*;
use vstd::string::StringExecFns;
use crate::meta::{clone_elems, ArrayElem, Directive, MetaPair, MetaValue, PromptKind, ResolveError};
use crate::text::{dec_digits, render_u64, str_eq};
use crate::theme::{spec_theme_suffix, render_theme_suffix, ThemeChoice};
use crate::ty::{spec_ty_text, Ty};
use crate::emit::{
    spec_field_name, render_field_name, spec_prompt_param, render_prompt_param, spec_prompt_part,
    render_prompt_part, spec_options_param, render_options_param, spec_gen_options,
    render_gen_options, spec_opt_elems,
};

verus! {

/// The resolved specification of a pick-several prompt.
#[derive(Debug, PartialEq, Eq)]
pub struct MultiSelect {
    pub prompt: Option<String>,
    pub defaults: Option<Vec<u64>>,
    pub options: Option<Vec<ArrayElem>>,
}

/// The mathematical value of a pick-several spec: the two literal arrays are
/// sequences of their elements.
pub ghost struct MultiSelectV {
    pub prompt: Option<String>,
    pub defaults: Option<Seq<u64>>,
    pub options: Option<Seq<ArrayElem>>,
}

/// The sequence of preselected indices, if the spec holds one.
pub open spec fn spec_opt_ints(o: Option<Vec<u64>>) -> Option<Seq<u64>> {
    match o {
        Some(v) => Some(v@),
        None => None,
    }
}

impl View for MultiSelect {
    type V = MultiSelectV;

    open spec fn view(&self) -> MultiSelectV {
        MultiSelectV {
            prompt: self.prompt,
            defaults: spec_opt_ints(self.defaults),
            options: spec_opt_elems(self.options),
        }
    }
}

/// The empty spec: every option absent.
pub open spec fn spec_empty() -> MultiSelectV {
    MultiSelectV { prompt: None, defaults: None, options: None }
}

impl Default for MultiSelect {
    /// The empty spec: every option absent.
    fn default() -> (r: Self)
        ensures
            r@ == spec_empty(),
    {
        MultiSelect { prompt: None, defaults: None, options: None }
    }
}

/// Whether every element of a literal array is an unsigned integer literal.
pub open spec fn spec_all_ints(v: Seq<ArrayElem>) -> bool {
    forall|k: int| 0 <= k < v.len() ==> v[k] is Int
}

/// The integers of a literal array whose elements are all integer literals.
pub open spec fn spec_ints_of(v: Seq<ArrayElem>) -> Seq<u64> {
    v.map_values(|e: ArrayElem| e->Int_0)
}

/// What one option pair does to the spec parsed so far.
pub open spec fn spec_step(acc: MultiSelectV, p: MetaPair) -> Result<MultiSelectV, ResolveError> {
    if p.key@ == "prompt"@ {
        match p.value {
            Some(MetaValue::Str(s)) => Ok(MultiSelectV { prompt: Some(s), ..acc }),
            Some(_) => Err(ResolveError::ExpectedStringLit),
            None => Err(ResolveError::MissingValue),
        }
    } else if p.key@ == "defaults"@ {
        match p.value {
            Some(MetaValue::Arr(v)) => if spec_all_ints(v@) {
                Ok(MultiSelectV { defaults: Some(spec_ints_of(v@)), ..acc })
            } else {
                Err(ResolveError::ExpectedIntArrayLit)
            },
            Some(_) => Err(ResolveError::ExpectedIntArrayLit),
            None => Err(ResolveError::MissingValue),
        }
    } else if p.key@ == "options"@ {
        match p.value {
            Some(MetaValue::Arr(v)) => Ok(MultiSelectV { options: Some(v@), ..acc }),
            Some(_) => Err(ResolveError::ExpectedArrayLit),
            None => Err(ResolveError::MissingValue),
        }
    } else {
        Err(ResolveError::UnknownKey(PromptKind::MultiSelect))
    }
}

/// The option pairs folded in order; the first failing pair decides the
/// result, and a later value for a key replaces an earlier one.
pub open spec fn spec_parse_pairs(
    acc: MultiSelectV,
    ps: Seq<MetaPair>,
) -> Result<MultiSelectV, ResolveError>
    decreases ps.len(),
{
    if ps.len() == 0 {
        Ok(acc)
    } else {
        match spec_step(acc, ps[0]) {
            Ok(a) => spec_parse_pairs(a, ps.drop_first()),
            Err(e) => Err(e),
        }
    }
}

/// The spec a `multiselect` directive parses to.
pub open spec fn spec_parse(d: Directive) -> Result<MultiSelectV, ResolveError> {
    spec_parse_pairs(spec_empty(), d.pairs@)
}

/// The source text of the preselected indices, comma-separated.
pub open spec fn spec_ints_text(v: Seq<u64>) -> Seq<char>
    decreases v.len(),
{
    if v.len() == 0 {
        Seq::empty()
    } else if v.len() == 1 {
        dec_digits(v[0] as nat)
    } else {
        spec_ints_text(v.drop_last()) + ", "@ + dec_digits(v.last() as nat)
    }
}

/// Renders the preselected indices, comma-separated.
pub fn render_ints(v: &Vec<u64>) -> (out: String)
    ensures
        out@ == spec_ints_text(v@),
{
    let mut out = String::new();
    let mut i: usize = 0;
    while i < v.len()
        invariant
            i <= v@.len(),
            out@ == spec_ints_text(v@.take(i as int)),
        decreases v@.len() - i,
    {
        if i > 0 {
            out.append(", ");
        }
        let digits = render_u64(v[i]);
        out.append(digits.as_str());
        proof {
            let t1 = v@.take(i + 1);
            if i == 0 {
                assert(t1.len() == 1);
                assert(t1[0] == v@[0]);
                assert(Seq::<char>::empty() + dec_digits(v@[0] as nat) =~= dec_digits(
                    v@[0] as nat,
                ));
            } else {
                assert(t1.drop_last() =~= v@.take(i as int));
                assert(t1.last() == v@[i as int]);
            }
        }
        i = i + 1;
    }
    proof {
        assert(v@.take(v@.len() as int) =~= v@);
    }
    out
}

/// The preselected-indices configuration step: present exactly when the spec
/// holds defaults, and never emitted with a placeholder.
pub open spec fn spec_defaults_part(d: Option<Seq<u64>>) -> Seq<char> {
    match d {
        Some(v) => ".defaults(&["@ + spec_ints_text(v) + "])"@,
        None => Seq::empty(),
    }
}

/// Renders the preselected-indices configuration step, if one is owed.
pub fn render_defaults_part(d: &Option<Vec<u64>>) -> (out: String)
    ensures
        out@ == spec_defaults_part(spec_opt_ints(*d)),
{
    match d {
        Some(v) => {
            let mut out = String::from_str(".defaults(&[");
            let ints = render_ints(v);
            out.append(ints.as_str());
            out.append("])");
            out
        },
        None => String::new(),
    }
}

/// The full text of the emitted pick-several method.  A pick-several field is
/// list-shaped, so the collected values are assigned without optional
/// wrapping.
pub open spec fn spec_method_text(
    s: MultiSelectV,
    name: Seq<char>,
    item_ty: Ty,
    theme: ThemeChoice,
) -> Seq<char> {
    "pub fn "@ + name + "(&mut self, "@ + spec_prompt_param(s.prompt)
        + spec_options_param(s.options, spec_ty_text(item_ty)) + ") -> &mut Self { "@
        + spec_gen_options(s.options, spec_ty_text(item_ty))
        + "let res = dialogue_macro::dialoguer::MultiSelect"@ + spec_theme_suffix(theme)
        + spec_prompt_part(s.prompt) + spec_defaults_part(s.defaults)
        + ".items(options).interact().unwrap(); self."@ + name
        + " = res.iter().map(|i| options[*i].clone().into()).collect(); self }"@
}

impl MultiSelect {
    /// Parses a `multiselect` directive's option pairs.
    pub fn parse_field_attr(attr: &Directive) -> (r: Result<MultiSelect, ResolveError>)
        ensures
            r matches Ok(s) ==> spec_parse(*attr) == Ok::<MultiSelectV, ResolveError>(s@),
            r matches Err(e) ==> spec_parse(*attr) == Err::<MultiSelectV, ResolveError>(e),
    {
        let mut res = MultiSelect { prompt: None, defaults: None, options: None };
        proof {
            assert(attr.pairs@.skip(0) =~= attr.pairs@);
        }
        let mut i: usize = 0;
        while i < attr.pairs.len()
            invariant
                i <= attr.pairs@.len(),
                spec_parse_pairs(res@, attr.pairs@.skip(i as int)) == spec_parse(*attr),
            decreases attr.pairs@.len() - i,
        {
            let p = &attr.pairs[i];
            proof {
                let rest = attr.pairs@.skip(i as int);
                assert(rest[0] == attr.pairs@[i as int]);
                assert(rest.drop_first() =~= attr.pairs@.skip(i as int + 1));
            }
            if str_eq(p.key.as_str(), "prompt") {
                match &p.value {
                    Some(MetaValue::Str(s)) => {
                        res = MultiSelect {
                            prompt: Some(s.clone()),
                            defaults: res.defaults,
                            options: res.options,
                        };
                    },
                    Some(_) => {
                        return Err(ResolveError::ExpectedStringLit);
                    },
                    None => {
                        return Err(ResolveError::MissingValue);
                    },
                }
            } else if str_eq(p.key.as_str(), "defaults") {
                match &p.value {
                    Some(MetaValue::Arr(v)) => {
                        match extract_ints(v) {
                            Some(ints) => {
                                res = MultiSelect {
                                    prompt: res.prompt,
                                    defaults: Some(ints),
                                    options: res.options,
                                };
                            },
                            None => {
                                return Err(ResolveError::ExpectedIntArrayLit);
                            },
                        }
                    },
                    Some(_) => {
                        return Err(ResolveError::ExpectedIntArrayLit);
                    },
                    None => {
                        return Err(ResolveError::MissingValue);
                    },
                }
            } else if str_eq(p.key.as_str(), "options") {
                match &p.value {
                    Some(MetaValue::Arr(v)) => {
                        let copied = clone_elems(v);
                        res = MultiSelect {
                            prompt: res.prompt,
                            defaults: res.defaults,
                            options: Some(copied),
                        };
                    },
                    Some(_) => {
                        return Err(ResolveError::ExpectedArrayLit);
                    },
                    None => {
                        return Err(ResolveError::MissingValue);
                    },
                }
            } else {
                return Err(ResolveError::UnknownKey(PromptKind::MultiSelect));
            }
            i = i + 1;
        }
        proof {
            assert(attr.pairs@.skip(i as int) =~= Seq::<MetaPair>::empty());
        }
        Ok(res)
    }

    /// Renders the emitted method for a resolved pick-several spec over the
    /// resolved item type.
    pub fn generate_method(
        &self,
        field_name: &Option<String>,
        inner_ty: &Ty,
        theme: ThemeChoice,
    ) -> (r: Result<String, ResolveError>)
        ensures
            r matches Ok(out) && out@ == spec_method_text(
                self@,
                spec_field_name(*field_name),
                *inner_ty,
                theme,
            ),
    {
        let ty_text = inner_ty.render();
        let mut out = String::from_str("pub fn ");
        let name = render_field_name(field_name);
        out.append(name.as_str());
        out.append("(&mut self, ");
        let pparam = render_prompt_param(&self.prompt);
        out.append(pparam.as_str());
        let oparam = render_options_param(&self.options, ty_text.as_str());
        out.append(oparam.as_str());
        out.append(") -> &mut Self { ");
        let gen_opts = render_gen_options(&self.options, ty_text.as_str());
        out.append(gen_opts.as_str());
        out.append("let res = dialogue_macro::dialoguer::MultiSelect");
        let suffix = render_theme_suffix(theme);
        out.append(suffix.as_str());
        let prompt = render_prompt_part(&self.prompt);
        out.append(prompt.as_str());
        let dflts = render_defaults_part(&self.defaults);
        out.append(dflts.as_str());
        out.append(".items(options).interact().unwrap(); self.");
        out.append(name.as_str());
        out.append(" = res.iter().map(|i| options[*i].clone().into()).collect(); self }");
        Ok(out)
    }
}

/// The integers of a literal array, if every element is an unsigned integer
/// literal.
fn extract_ints(v: &Vec<ArrayElem>) -> (r: Option<Vec<u64>>)
    ensures
        match r {
            Some(ints) => spec_all_ints(v@) && ints@ == spec_ints_of(v@),
            None => !spec_all_ints(v@),
        },
{
    let mut ints: Vec<u64> = Vec::new();
    let mut j: usize = 0;
    while j < v.len()
        invariant
            j <= v@.len(),
            forall|k: int| 0 <= k < j ==> v@[k] is Int,
            ints@ == spec_ints_of(v@.take(j as int)),
        decreases v@.len() - j,
    {
        match &v[j] {
            ArrayElem::Int(n) => {
                ints.push(*n);
                proof {
                    assert(ints@ =~= spec_ints_of(v@.take(j + 1)));
                }
            },
            _ => {
                return None;
            },
        }
        j = j + 1;
    }
    proof {
        assert(v@.take(v@.len() as int) =~= v@);
    }
    Some(ints)
}

} // verus!
