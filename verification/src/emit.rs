//! Pieces of emitted method text shared by every prompt kind: the method
//! name, the deferred `prompt` parameter, the baked-in prompt text, and the
//! wrapping of an assigned value for optional-shaped fields.

use vstd::prelude::*;
use vstd::string::StringExecFns;
use crate::meta::ArrayElem;
use crate::text::{bool_text, dec_digits, escaped, escape_str, render_u64};

verus! {

/// The emitted method's name: the field's name, or nothing for a nameless
/// field.
pub open spec fn spec_field_name(n: Option<String>) -> Seq<char> {
    match n {
        Some(s) => s@,
        None => Seq::empty(),
    }
}

/// Renders the emitted method's name.
pub fn render_field_name(n: &Option<String>) -> (out: String)
    ensures
        out@ == spec_field_name(*n),
{
    match n {
        Some(s) => s.clone(),
        None => String::new(),
    }
}

/// A string literal as it stands in source text: quoted and escaped.
pub open spec fn spec_str_lit(s: Seq<char>) -> Seq<char> {
    "\""@ + escaped(s) + "\""@
}

/// Renders a string literal: quoted and escaped.
pub fn render_str_lit(s: &str) -> (out: String)
    ensures
        out@ == spec_str_lit(s@),
{
    let mut out = String::from_str("\"");
    let esc = escape_str(s);
    out.append(esc.as_str());
    out.append("\"");
    out
}

/// The deferred `prompt` parameter: present exactly when the spec holds no
/// prompt text, and first among the runtime parameters.
pub open spec fn spec_prompt_param(p: Option<String>) -> Seq<char> {
    match p {
        Some(_) => Seq::empty(),
        None => "prompt: &str, "@,
    }
}

/// Renders the deferred `prompt` parameter, if one is needed.
pub fn render_prompt_param(p: &Option<String>) -> (out: String)
    ensures
        out@ == spec_prompt_param(*p),
{
    match p {
        Some(_) => String::new(),
        None => String::from_str("prompt: &str, "),
    }
}

/// The prompt-text configuration step: the spec's text baked in as a literal,
/// or the runtime parameter in its place.
pub open spec fn spec_prompt_part(p: Option<String>) -> Seq<char> {
    match p {
        Some(s) => ".with_prompt("@ + spec_str_lit(s@) + ")"@,
        None => ".with_prompt(prompt)"@,
    }
}

/// Renders the prompt-text configuration step.
pub fn render_prompt_part(p: &Option<String>) -> (out: String)
    ensures
        out@ == spec_prompt_part(*p),
{
    match p {
        Some(s) => {
            let mut out = String::from_str(".with_prompt(");
            let lit = render_str_lit(s.as_str());
            out.append(lit.as_str());
            out.append(")");
            out
        },
        None => String::from_str(".with_prompt(prompt)"),
    }
}

/// The assigned value, wrapped as present when the field is optional-shaped.
pub open spec fn spec_wrap_some(optional: bool, inner: Seq<char>) -> Seq<char> {
    if optional {
        "Some("@ + inner + ")"@
    } else {
        inner
    }
}

/// Renders the assigned value, wrapped as present for optional-shaped fields.
pub fn render_wrap_some(optional: bool, inner: &str) -> (out: String)
    ensures
        out@ == spec_wrap_some(optional, inner@),
{
    if optional {
        let mut out = String::from_str("Some(");
        out.append(inner);
        out.append(")");
        out
    } else {
        String::from_str(inner)
    }
}

/// The source text of one array-element literal.
pub open spec fn spec_elem_text(e: ArrayElem) -> Seq<char> {
    match e {
        ArrayElem::Str(s) => spec_str_lit(s@),
        ArrayElem::Int(n) => dec_digits(n as nat),
        ArrayElem::Bool(b) => bool_text(b),
    }
}

/// The source text of an array's elements, comma-separated.
pub open spec fn spec_elems_text(v: Seq<ArrayElem>) -> Seq<char>
    decreases v.len(),
{
    if v.len() == 0 {
        Seq::empty()
    } else if v.len() == 1 {
        spec_elem_text(v[0])
    } else {
        spec_elems_text(v.drop_last()) + ", "@ + spec_elem_text(v.last())
    }
}

/// Renders one array-element literal.
pub fn render_elem(e: &ArrayElem) -> (out: String)
    ensures
        out@ == spec_elem_text(*e),
{
    match e {
        ArrayElem::Str(s) => render_str_lit(s.as_str()),
        ArrayElem::Int(n) => render_u64(*n),
        ArrayElem::Bool(b) => {
            if *b {
                String::from_str("true")
            } else {
                String::from_str("false")
            }
        },
    }
}

/// Renders an array's elements, comma-separated.
pub fn render_elems(v: &Vec<ArrayElem>) -> (out: String)
    ensures
        out@ == spec_elems_text(v@),
{
    let mut out = String::new();
    let mut i: usize = 0;
    while i < v.len()
        invariant
            i <= v@.len(),
            out@ == spec_elems_text(v@.take(i as int)),
        decreases v@.len() - i,
    {
        let ghost prev = out@;
        if i > 0 {
            out.append(", ");
        }
        let piece = render_elem(&v[i]);
        out.append(piece.as_str());
        proof {
            let t1 = v@.take(i + 1);
            if i == 0 {
                assert(t1.len() == 1);
                assert(t1[0] == v@[0]);
                assert(Seq::<char>::empty() + spec_elem_text(v@[0]) =~= spec_elem_text(v@[0]));
            } else {
                assert(t1.drop_last() =~= v@.take(i as int));
                assert(t1.last() == v@[i as int]);
            }
        }
        i = i + 1;
    }
    proof {
        assert(v@.take(v@.len() as int) =~= v@);
    }
    out
}

/// The elements of an options literal as a sequence, if one is there.
pub open spec fn spec_opt_elems(o: Option<Vec<ArrayElem>>) -> Option<Seq<ArrayElem>> {
    match o {
        Some(v) => Some(v@),
        None => None,
    }
}

/// The deferred `options` parameter: present exactly when the spec holds no
/// options literal, and positioned after `prompt` among runtime parameters.
pub open spec fn spec_options_param(o: Option<Seq<ArrayElem>>, ty: Seq<char>) -> Seq<char> {
    match o {
        Some(_) => Seq::empty(),
        None => "options: &["@ + ty + "], "@,
    }
}

/// Renders the deferred `options` parameter, if one is needed.
pub fn render_options_param(o: &Option<Vec<ArrayElem>>, ty_text: &str) -> (out: String)
    ensures
        out@ == spec_options_param(spec_opt_elems(*o), ty_text@),
{
    match o {
        Some(_) => String::new(),
        None => {
            let mut out = String::from_str("options: &[");
            out.append(ty_text);
            out.append("], ");
            out
        },
    }
}

/// The statically-embedded options list: a typed local holding the literal
/// array, present exactly when the spec holds an options literal.
pub open spec fn spec_gen_options(o: Option<Seq<ArrayElem>>, ty: Seq<char>) -> Seq<char> {
    match o {
        Some(v) => "let options: &["@ + ty + "] = &vec!["@ + spec_elems_text(v) + "]; "@,
        None => Seq::empty(),
    }
}

/// Renders the statically-embedded options list, if one is owed.
pub fn render_gen_options(o: &Option<Vec<ArrayElem>>, ty_text: &str) -> (out: String)
    ensures
        out@ == spec_gen_options(spec_opt_elems(*o), ty_text@),
{
    match o {
        Some(v) => {
            let mut out = String::from_str("let options: &[");
            out.append(ty_text);
            out.append("] = &vec![");
            let elems = render_elems(v);
            out.append(elems.as_str());
            out.append("]; ");
            out
        },
        None => String::new(),
    }
}

} // verus!
