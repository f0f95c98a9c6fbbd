//! The Password kind: masked free-text entry.  Its grammar recognizes one
//! option key, `prompt`, carrying a string literal.

use vstd::prelude::*;
use vstd::string::StringExecFns;
use crate::meta::{Directive, MetaPair, MetaValue, PromptKind, ResolveError};
use crate::text::str_eq;
use crate::theme::{spec_theme_suffix, render_theme_suffix, ThemeChoice};
use crate::emit::{
    spec_field_name, render_field_name, spec_prompt_param, render_prompt_param, spec_prompt_part,
    render_prompt_part, spec_wrap_some, render_wrap_some,
};

verus! {

/// The resolved specification of a masked prompt.
#[derive(Debug, PartialEq, Eq)]
pub struct Password {
    pub prompt: Option<String>,
}

impl Default for Password {
    /// The empty spec: every option absent.
    fn default() -> (r: Self)
        ensures
            r == (Password { prompt: None::<String> }),
    {
        Password { prompt: None }
    }
}

/// What one option pair does to the spec parsed so far.
pub open spec fn spec_step(acc: Password, p: MetaPair) -> Result<Password, ResolveError> {
    if p.key@ == "prompt"@ {
        match p.value {
            Some(MetaValue::Str(s)) => Ok(Password { prompt: Some(s) }),
            Some(_) => Err(ResolveError::ExpectedStringLit),
            None => Err(ResolveError::MissingValue),
        }
    } else {
        Err(ResolveError::UnknownKey(PromptKind::Password))
    }
}

/// The option pairs folded in order; the first failing pair decides the
/// result, and a later value for a key replaces an earlier one.
pub open spec fn spec_parse_pairs(acc: Password, ps: Seq<MetaPair>) -> Result<Password, ResolveError>
    decreases ps.len(),
{
    if ps.len() == 0 {
        Ok(acc)
    } else {
        match spec_step(acc, ps[0]) {
            Ok(a) => spec_parse_pairs(a, ps.drop_first()),
            Err(e) => Err(e),
        }
    }
}

/// The spec a `password` directive parses to.
pub open spec fn spec_parse(d: Directive) -> Result<Password, ResolveError> {
    spec_parse_pairs(Password { prompt: None }, d.pairs@)
}

/// The full text of the emitted masked-entry method.
pub open spec fn spec_method_text(
    s: Password,
    name: Seq<char>,
    optional: bool,
    theme: ThemeChoice,
) -> Seq<char> {
    "pub fn "@ + name + "(&mut self, "@ + spec_prompt_param(s.prompt)
        + ") -> &mut Self { let res = dialogue_macro::dialoguer::Password"@
        + spec_theme_suffix(theme) + spec_prompt_part(s.prompt)
        + ".interact().unwrap(); self."@ + name + " = "@
        + spec_wrap_some(optional, "res.into()"@) + "; self }"@
}

impl Password {
    /// Parses a `password` directive's option pairs.
    pub fn parse_field_attr(attr: &Directive) -> (r: Result<Password, ResolveError>)
        ensures
            r == spec_parse(*attr),
    {
        let mut res = Password { prompt: None };
        proof {
            assert(attr.pairs@.skip(0) =~= attr.pairs@);
        }
        let mut i: usize = 0;
        while i < attr.pairs.len()
            invariant
                i <= attr.pairs@.len(),
                spec_parse_pairs(res, attr.pairs@.skip(i as int)) == spec_parse(*attr),
            decreases attr.pairs@.len() - i,
        {
            let p = &attr.pairs[i];
            proof {
                let rest = attr.pairs@.skip(i as int);
                assert(rest[0] == attr.pairs@[i as int]);
                assert(rest.drop_first() =~= attr.pairs@.skip(i as int + 1));
            }
            if str_eq(p.key.as_str(), "prompt") {
                match &p.value {
                    Some(MetaValue::Str(s)) => {
                        res = Password { prompt: Some(s.clone()) };
                    },
                    Some(_) => {
                        return Err(ResolveError::ExpectedStringLit);
                    },
                    None => {
                        return Err(ResolveError::MissingValue);
                    },
                }
            } else {
                return Err(ResolveError::UnknownKey(PromptKind::Password));
            }
            i = i + 1;
        }
        proof {
            assert(attr.pairs@.skip(i as int) =~= Seq::<MetaPair>::empty());
        }
        Ok(res)
    }

    /// Renders the emitted method for a resolved masked-entry spec.
    pub fn generate_method(
        &self,
        field_name: &Option<String>,
        optional: bool,
        theme: ThemeChoice,
    ) -> (r: Result<String, ResolveError>)
        ensures
            r matches Ok(out) && out@ == spec_method_text(
                *self,
                spec_field_name(*field_name),
                optional,
                theme,
            ),
    {
        let mut out = String::from_str("pub fn ");
        let name = render_field_name(field_name);
        out.append(name.as_str());
        out.append("(&mut self, ");
        let param = render_prompt_param(&self.prompt);
        out.append(param.as_str());
        out.append(") -> &mut Self { let res = dialogue_macro::dialoguer::Password");
        let suffix = render_theme_suffix(theme);
        out.append(suffix.as_str());
        let prompt = render_prompt_part(&self.prompt);
        out.append(prompt.as_str());
        out.append(".interact().unwrap(); self.");
        out.append(name.as_str());
        out.append(" = ");
        let value = render_wrap_some(optional, "res.into()");
        out.append(value.as_str());
        out.append("; self }");
        Ok(out)
    }
}

} // verus!
