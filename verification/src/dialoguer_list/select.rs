//! The Select kind: pick one of N options.  Its grammar recognizes `prompt`
//! (string literal), `default` (unsigned integer literal) and `options`
//! (literal array).

use vstd::prelude::*;
use vstd::string::StringExecFns;
use crate::meta::{clone_elems, ArrayElem, Directive, MetaPair, MetaValue, PromptKind, ResolveError};
use crate::text::{dec_digits, render_u64, str_eq};
use crate::theme::{spec_theme_suffix, render_theme_suffix, ThemeChoice};
use crate::ty::{spec_ty_text, Ty};
use crate::emit::{
    spec_field_name, render_field_name, spec_prompt_param, render_prompt_param, spec_prompt_part,
    render_prompt_part, spec_wrap_some, render_wrap_some, spec_options_param, render_options_param,
    spec_gen_options, render_gen_options, spec_opt_elems,
};

verus! {

/// The resolved specification of a pick-one prompt.
#[derive(Debug, PartialEq, Eq)]
pub struct Select {
    pub prompt: Option<String>,
    pub default: Option<u64>,
    pub options: Option<Vec<ArrayElem>>,
}

/// The mathematical value of a pick-one spec: the options literal is a
/// sequence of its elements.
pub ghost struct SelectV {
    pub prompt: Option<String>,
    pub default: Option<u64>,
    pub options: Option<Seq<ArrayElem>>,
}

impl View for Select {
    type V = SelectV;

    open spec fn view(&self) -> SelectV {
        SelectV { prompt: self.prompt, default: self.default, options: spec_opt_elems(self.options) }
    }
}

/// The empty spec: every option absent.
pub open spec fn spec_empty() -> SelectV {
    SelectV { prompt: None, default: None, options: None }
}

impl Default for Select {
    /// The empty spec: every option absent.
    fn default() -> (r: Self)
        ensures
            r@ == spec_empty(),
    {
        Select { prompt: None, default: None, options: None }
    }
}

/// What one option pair does to the spec parsed so far.
pub open spec fn spec_step(acc: SelectV, p: MetaPair) -> Result<SelectV, ResolveError> {
    if p.key@ == "prompt"@ {
        match p.value {
            Some(MetaValue::Str(s)) => Ok(SelectV { prompt: Some(s), ..acc }),
            Some(_) => Err(ResolveError::ExpectedStringLit),
            None => Err(ResolveError::MissingValue),
        }
    } else if p.key@ == "default"@ {
        match p.value {
            Some(MetaValue::Int(n)) => Ok(SelectV { default: Some(n), ..acc }),
            Some(_) => Err(ResolveError::ExpectedIntLit),
            None => Err(ResolveError::MissingValue),
        }
    } else if p.key@ == "options"@ {
        match p.value {
            Some(MetaValue::Arr(v)) => Ok(SelectV { options: Some(v@), ..acc }),
            Some(_) => Err(ResolveError::ExpectedArrayLit),
            None => Err(ResolveError::MissingValue),
        }
    } else {
        Err(ResolveError::UnknownKey(PromptKind::Select))
    }
}

/// The option pairs folded in order; the first failing pair decides the
/// result, and a later value for a key replaces an earlier one.
pub open spec fn spec_parse_pairs(acc: SelectV, ps: Seq<MetaPair>) -> Result<SelectV, ResolveError>
    decreases ps.len(),
{
    if ps.len() == 0 {
        Ok(acc)
    } else {
        match spec_step(acc, ps[0]) {
            Ok(a) => spec_parse_pairs(a, ps.drop_first()),
            Err(e) => Err(e),
        }
    }
}

/// The spec a `select` directive parses to.
pub open spec fn spec_parse(d: Directive) -> Result<SelectV, ResolveError> {
    spec_parse_pairs(spec_empty(), d.pairs@)
}

/// The default-index configuration step: present exactly when the spec holds
/// a default, and never emitted with a placeholder.
pub open spec fn spec_default_part(d: Option<u64>) -> Seq<char> {
    match d {
        Some(n) => ".default("@ + dec_digits(n as nat) + ")"@,
        None => Seq::empty(),
    }
}

/// Renders the default-index configuration step, if one is owed.
pub fn render_default_part(d: &Option<u64>) -> (out: String)
    ensures
        out@ == spec_default_part(*d),
{
    match d {
        Some(n) => {
            let mut out = String::from_str(".default(");
            let digits = render_u64(*n);
            out.append(digits.as_str());
            out.append(")");
            out
        },
        None => String::new(),
    }
}

/// The full text of the emitted pick-one method.
pub open spec fn spec_method_text(
    s: SelectV,
    name: Seq<char>,
    item_ty: Ty,
    optional: bool,
    theme: ThemeChoice,
) -> Seq<char> {
    "pub fn "@ + name + "(&mut self, "@ + spec_prompt_param(s.prompt)
        + spec_options_param(s.options, spec_ty_text(item_ty)) + ") -> &mut Self { "@
        + spec_gen_options(s.options, spec_ty_text(item_ty))
        + "let res = dialogue_macro::dialoguer::Select"@ + spec_theme_suffix(theme)
        + spec_prompt_part(s.prompt) + spec_default_part(s.default)
        + ".items(options).interact().unwrap(); self."@ + name + " = "@
        + spec_wrap_some(optional, "options[res].clone().into()"@) + "; self }"@
}

impl Select {
    /// Parses a `select` directive's option pairs.
    pub fn parse_field_attr(attr: &Directive) -> (r: Result<Select, ResolveError>)
        ensures
            r matches Ok(s) ==> spec_parse(*attr) == Ok::<SelectV, ResolveError>(s@),
            r matches Err(e) ==> spec_parse(*attr) == Err::<SelectV, ResolveError>(e),
    {
        let mut res = Select { prompt: None, default: None, options: None };
        proof {
            assert(attr.pairs@.skip(0) =~= attr.pairs@);
        }
        let mut i: usize = 0;
        while i < attr.pairs.len()
            invariant
                i <= attr.pairs@.len(),
                spec_parse_pairs(res@, attr.pairs@.skip(i as int)) == spec_parse(*attr),
            decreases attr.pairs@.len() - i,
        {
            let p = &attr.pairs[i];
            proof {
                let rest = attr.pairs@.skip(i as int);
                assert(rest[0] == attr.pairs@[i as int]);
                assert(rest.drop_first() =~= attr.pairs@.skip(i as int + 1));
            }
            if str_eq(p.key.as_str(), "prompt") {
                match &p.value {
                    Some(MetaValue::Str(s)) => {
                        res = Select { prompt: Some(s.clone()), default: res.default, options: res.options };
                    },
                    Some(_) => {
                        return Err(ResolveError::ExpectedStringLit);
                    },
                    None => {
                        return Err(ResolveError::MissingValue);
                    },
                }
            } else if str_eq(p.key.as_str(), "default") {
                match &p.value {
                    Some(MetaValue::Int(n)) => {
                        res = Select { prompt: res.prompt, default: Some(*n), options: res.options };
                    },
                    Some(_) => {
                        return Err(ResolveError::ExpectedIntLit);
                    },
                    None => {
                        return Err(ResolveError::MissingValue);
                    },
                }
            } else if str_eq(p.key.as_str(), "options") {
                match &p.value {
                    Some(MetaValue::Arr(v)) => {
                        let copied = clone_elems(v);
                        res = Select { prompt: res.prompt, default: res.default, options: Some(copied) };
                    },
                    Some(_) => {
                        return Err(ResolveError::ExpectedArrayLit);
                    },
                    None => {
                        return Err(ResolveError::MissingValue);
                    },
                }
            } else {
                return Err(ResolveError::UnknownKey(PromptKind::Select));
            }
            i = i + 1;
        }
        proof {
            assert(attr.pairs@.skip(i as int) =~= Seq::<MetaPair>::empty());
        }
        Ok(res)
    }

    /// Renders the emitted method for a resolved pick-one spec over the
    /// resolved item type.
    pub fn generate_method(
        &self,
        field_name: &Option<String>,
        inner_ty: &Ty,
        optional: bool,
        theme: ThemeChoice,
    ) -> (r: Result<String, ResolveError>)
        ensures
            r matches Ok(out) && out@ == spec_method_text(
                self@,
                spec_field_name(*field_name),
                *inner_ty,
                optional,
                theme,
            ),
    {
        let ty_text = inner_ty.render();
        let mut out = String::from_str("pub fn ");
        let name = render_field_name(field_name);
        out.append(name.as_str());
        out.append("(&mut self, ");
        let pparam = render_prompt_param(&self.prompt);
        out.append(pparam.as_str());
        let oparam = render_options_param(&self.options, ty_text.as_str());
        out.append(oparam.as_str());
        out.append(") -> &mut Self { ");
        let gen_opts = render_gen_options(&self.options, ty_text.as_str());
        out.append(gen_opts.as_str());
        out.append("let res = dialogue_macro::dialoguer::Select");
        let suffix = render_theme_suffix(theme);
        out.append(suffix.as_str());
        let prompt = render_prompt_part(&self.prompt);
        out.append(prompt.as_str());
        let dflt = render_default_part(&self.default);
        out.append(dflt.as_str());
        out.append(".items(options).interact().unwrap(); self.");
        out.append(name.as_str());
        out.append(" = ");
        let value = render_wrap_some(optional, "options[res].clone().into()");
        out.append(value.as_str());
        out.append("; self }");
        Ok(out)
    }
}

} // verus!
