//! The Confirm kind: a yes/no question.  Its grammar recognizes `prompt`
//! (string literal) and `default` (boolean literal).

use vstd::prelude::*;
use vstd::string::StringExecFns;
use crate::meta::{Directive, MetaPair, MetaValue, PromptKind, ResolveError};
use crate::text::{bool_text, str_eq};
use crate::theme::{spec_theme_suffix, render_theme_suffix, ThemeChoice};
use crate::emit::{
    spec_field_name, render_field_name, spec_prompt_param, render_prompt_param, spec_prompt_part,
    render_prompt_part, spec_wrap_some, render_wrap_some,
};

verus! {

/// The resolved specification of a yes/no prompt.
#[derive(Debug, PartialEq, Eq)]
pub struct Confirm {
    pub prompt: Option<String>,
    pub default: Option<bool>,
}

impl Default for Confirm {
    /// The empty spec: every option absent.
    fn default() -> (r: Self)
        ensures
            r == (Confirm { prompt: None::<String>, default: None::<bool> }),
    {
        Confirm { prompt: None, default: None }
    }
}

/// What one option pair does to the spec parsed so far.
pub open spec fn spec_step(acc: Confirm, p: MetaPair) -> Result<Confirm, ResolveError> {
    if p.key@ == "prompt"@ {
        match p.value {
            Some(MetaValue::Str(s)) => Ok(Confirm { prompt: Some(s), ..acc }),
            Some(_) => Err(ResolveError::ExpectedStringLit),
            None => Err(ResolveError::MissingValue),
        }
    } else if p.key@ == "default"@ {
        match p.value {
            Some(MetaValue::Bool(b)) => Ok(Confirm { default: Some(b), ..acc }),
            Some(_) => Err(ResolveError::ExpectedBoolLit),
            None => Err(ResolveError::MissingValue),
        }
    } else {
        Err(ResolveError::UnknownKey(PromptKind::Confirm))
    }
}

/// The option pairs folded in order; the first failing pair decides the
/// result, and a later value for a key replaces an earlier one.
pub open spec fn spec_parse_pairs(acc: Confirm, ps: Seq<MetaPair>) -> Result<Confirm, ResolveError>
    decreases ps.len(),
{
    if ps.len() == 0 {
        Ok(acc)
    } else {
        match spec_step(acc, ps[0]) {
            Ok(a) => spec_parse_pairs(a, ps.drop_first()),
            Err(e) => Err(e),
        }
    }
}

/// The spec a `confirm` directive parses to.
pub open spec fn spec_parse(d: Directive) -> Result<Confirm, ResolveError> {
    spec_parse_pairs(Confirm { prompt: None, default: None }, d.pairs@)
}

/// The default-answer configuration step: present exactly when the spec holds
/// a default, and never emitted with a placeholder.
pub open spec fn spec_default_part(d: Option<bool>) -> Seq<char> {
    match d {
        Some(b) => ".default("@ + bool_text(b) + ")"@,
        None => Seq::empty(),
    }
}

/// Renders the default-answer configuration step, if one is owed.
pub fn render_default_part(d: &Option<bool>) -> (out: String)
    ensures
        out@ == spec_default_part(*d),
{
    match d {
        Some(b) => {
            let mut out = String::from_str(".default(");
            if *b {
                out.append("true");
            } else {
                out.append("false");
            }
            out.append(")");
            out
        },
        None => String::new(),
    }
}

/// The full text of the emitted yes/no method.
pub open spec fn spec_method_text(
    s: Confirm,
    name: Seq<char>,
    optional: bool,
    theme: ThemeChoice,
) -> Seq<char> {
    "pub fn "@ + name + "(&mut self, "@ + spec_prompt_param(s.prompt)
        + ") -> &mut Self { let res = dialogue_macro::dialoguer::Confirm"@
        + spec_theme_suffix(theme) + spec_prompt_part(s.prompt) + spec_default_part(s.default)
        + ".interact().unwrap(); self."@ + name + " = "@
        + spec_wrap_some(optional, "res.into()"@) + "; self }"@
}

impl Confirm {
    /// Parses a `confirm` directive's option pairs.
    pub fn parse_field_attr(attr: &Directive) -> (r: Result<Confirm, ResolveError>)
        ensures
            r == spec_parse(*attr),
    {
        let mut res = Confirm { prompt: None, default: None };
        proof {
            assert(attr.pairs@.skip(0) =~= attr.pairs@);
        }
        let mut i: usize = 0;
        while i < attr.pairs.len()
            invariant
                i <= attr.pairs@.len(),
                spec_parse_pairs(res, attr.pairs@.skip(i as int)) == spec_parse(*attr),
            decreases attr.pairs@.len() - i,
        {
            let p = &attr.pairs[i];
            proof {
                let rest = attr.pairs@.skip(i as int);
                assert(rest[0] == attr.pairs@[i as int]);
                assert(rest.drop_first() =~= attr.pairs@.skip(i as int + 1));
            }
            if str_eq(p.key.as_str(), "prompt") {
                match &p.value {
                    Some(MetaValue::Str(s)) => {
                        res = Confirm { prompt: Some(s.clone()), default: res.default };
                    },
                    Some(_) => {
                        return Err(ResolveError::ExpectedStringLit);
                    },
                    None => {
                        return Err(ResolveError::MissingValue);
                    },
                }
            } else if str_eq(p.key.as_str(), "default") {
                match &p.value {
                    Some(MetaValue::Bool(b)) => {
                        res = Confirm { prompt: res.prompt, default: Some(*b) };
                    },
                    Some(_) => {
                        return Err(ResolveError::ExpectedBoolLit);
                    },
                    None => {
                        return Err(ResolveError::MissingValue);
                    },
                }
            } else {
                return Err(ResolveError::UnknownKey(PromptKind::Confirm));
            }
            i = i + 1;
        }
        proof {
            assert(attr.pairs@.skip(i as int) =~= Seq::<MetaPair>::empty());
        }
        Ok(res)
    }

    /// Renders the emitted method for a resolved yes/no spec.
    pub fn generate_method(
        &self,
        field_name: &Option<String>,
        optional: bool,
        theme: ThemeChoice,
    ) -> (r: Result<String, ResolveError>)
        ensures
            r matches Ok(out) && out@ == spec_method_text(
                *self,
                spec_field_name(*field_name),
                optional,
                theme,
            ),
    {
        let mut out = String::from_str("pub fn ");
        let name = render_field_name(field_name);
        out.append(name.as_str());
        out.append("(&mut self, ");
        let param = render_prompt_param(&self.prompt);
        out.append(param.as_str());
        out.append(") -> &mut Self { let res = dialogue_macro::dialoguer::Confirm");
        let suffix = render_theme_suffix(theme);
        out.append(suffix.as_str());
        let prompt = render_prompt_part(&self.prompt);
        out.append(prompt.as_str());
        let dflt = render_default_part(&self.default);
        out.append(dflt.as_str());
        out.append(".interact().unwrap(); self.");
        out.append(name.as_str());
        out.append(" = ");
        let value = render_wrap_some(optional, "res.into()");
        out.append(value.as_str());
        out.append("; self }");
        Ok(out)
    }
}

} // verus!
