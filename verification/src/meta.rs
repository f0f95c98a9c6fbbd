//! The model of directives attached to a field, the five recognized prompt
//! kinds, and the diagnostics that resolution can produce.

use vstd::prelude::*;
use vstd::string::StringExecFns;
use crate::ty::Ty;

verus! {

/// A scalar literal standing as one element of a literal array.
#[derive(Debug, PartialEq, Eq)]
pub enum ArrayElem {
    Str(String),
    Int(u64),
    Bool(bool),
}

impl Clone for ArrayElem {
    fn clone(&self) -> (r: Self)
        ensures
            r == *self,
    {
        match self {
            ArrayElem::Str(s) => ArrayElem::Str(s.clone()),
            ArrayElem::Int(n) => ArrayElem::Int(*n),
            ArrayElem::Bool(b) => ArrayElem::Bool(*b),
        }
    }
}

/// A literal value on the right-hand side of a directive option.
#[derive(Debug, PartialEq, Eq)]
pub enum MetaValue {
    Str(String),
    Int(u64),
    Bool(bool),
    Arr(Vec<ArrayElem>),
}

/// One `key = value` element inside a directive's parentheses; `value` is
/// `None` when the key stands alone, with no `=`.
#[derive(Debug, PartialEq, Eq)]
pub struct MetaPair {
    pub key: String,
    pub value: Option<MetaValue>,
}

/// One attribute attached to a field: its tag and its option pairs, in
/// declaration order.
#[derive(Debug, PartialEq, Eq)]
pub struct Directive {
    pub tag: String,
    pub pairs: Vec<MetaPair>,
}

/// A field of the record under generation: its name (absent for tuple
/// fields), its declared type, and its attributes in declaration order.
#[derive(Debug, PartialEq, Eq)]
pub struct Field {
    pub name: Option<String>,
    pub ty: Ty,
    pub attrs: Vec<Directive>,
}

/// The record under generation: its name and its fields in order.
#[derive(Debug, PartialEq, Eq)]
pub struct Record {
    pub name: String,
    pub fields: Vec<Field>,
}

/// The five recognized prompt kinds.
#[derive(Debug, Clone, Copy, PartialEq, Eq, Structural)]
pub enum PromptKind {
    Input,
    Password,
    Confirm,
    Select,
    MultiSelect,
}

/// A resolution diagnostic.  Shape mismatches cite the field's declared type;
/// all other diagnostics cite the directive's option pairs.
#[derive(Debug, Clone, Copy, PartialEq, Eq, Structural)]
pub enum ResolveError {
    /// An option value was not the string literal its key requires.
    ExpectedStringLit,
    /// An option value was not the unsigned integer literal its key requires.
    ExpectedIntLit,
    /// An option value was not the boolean literal its key requires.
    ExpectedBoolLit,
    /// An option value was not the literal array its key requires.
    ExpectedArrayLit,
    /// An option value was not an array made of unsigned integer literals.
    ExpectedIntArrayLit,
    /// A recognized key stood alone, with no `= value` after it.
    MissingValue,
    /// A key that the named kind's grammar does not recognize.
    UnknownKey(PromptKind),
    /// `password` on a field that is neither `String` nor `Option<String>`.
    PasswordShape,
    /// `confirm` on a field that is neither `bool` nor `Option<bool>`.
    ConfirmShape,
    /// `multiselect` on a field that is not `Vec`-shaped.
    MultiSelectShape,
}

/// The diagnostic message for each resolution error.
pub open spec fn spec_message(e: ResolveError) -> Seq<char> {
    match e {
        ResolveError::ExpectedStringLit => "expected string literal"@,
        ResolveError::ExpectedIntLit => "expected unsigned integer literal"@,
        ResolveError::ExpectedBoolLit => "expected bool literal"@,
        ResolveError::ExpectedArrayLit => "expected array literal"@,
        ResolveError::ExpectedIntArrayLit => "expected array of unsigned integer literals"@,
        ResolveError::MissingValue => "expected `=`"@,
        ResolveError::UnknownKey(PromptKind::Input) => "expected `prompt`"@,
        ResolveError::UnknownKey(PromptKind::Password) => "expected `prompt`"@,
        ResolveError::UnknownKey(PromptKind::Confirm) => "expected `prompt` or `default`"@,
        ResolveError::UnknownKey(PromptKind::Select) => "expected `prompt`, `default` or `options`"@,
        ResolveError::UnknownKey(PromptKind::MultiSelect) => "expected `prompt`, `defaults` or `options`"@,
        ResolveError::PasswordShape => "Password only support String or Option<String> type"@,
        ResolveError::ConfirmShape => "Confirm only support bool or Option<bool> type"@,
        ResolveError::MultiSelectShape => "multiselect only support Vec type"@,
    }
}

/// Whether the diagnostic is attached to the field's declared type rather
/// than to the directive.
pub open spec fn spec_cites_field_type(e: ResolveError) -> bool {
    e is PasswordShape || e is ConfirmShape || e is MultiSelectShape
}

impl ResolveError {
    /// The diagnostic message.
    pub fn message(&self) -> (m: String)
        ensures
            m@ == spec_message(*self),
    {
        match self {
            ResolveError::ExpectedStringLit => String::from_str("expected string literal"),
            ResolveError::ExpectedIntLit => String::from_str("expected unsigned integer literal"),
            ResolveError::ExpectedBoolLit => String::from_str("expected bool literal"),
            ResolveError::ExpectedArrayLit => String::from_str("expected array literal"),
            ResolveError::ExpectedIntArrayLit => String::from_str(
                "expected array of unsigned integer literals",
            ),
            ResolveError::MissingValue => String::from_str("expected `=`"),
            ResolveError::UnknownKey(PromptKind::Input) => String::from_str("expected `prompt`"),
            ResolveError::UnknownKey(PromptKind::Password) => String::from_str("expected `prompt`"),
            ResolveError::UnknownKey(PromptKind::Confirm) => String::from_str(
                "expected `prompt` or `default`",
            ),
            ResolveError::UnknownKey(PromptKind::Select) => String::from_str(
                "expected `prompt`, `default` or `options`",
            ),
            ResolveError::UnknownKey(PromptKind::MultiSelect) => String::from_str(
                "expected `prompt`, `defaults` or `options`",
            ),
            ResolveError::PasswordShape => String::from_str(
                "Password only support String or Option<String> type",
            ),
            ResolveError::ConfirmShape => String::from_str(
                "Confirm only support bool or Option<bool> type",
            ),
            ResolveError::MultiSelectShape => String::from_str("multiselect only support Vec type"),
        }
    }

    /// Whether the diagnostic is attached to the field's declared type.
    pub fn cites_field_type(&self) -> (r: bool)
        ensures
            r == spec_cites_field_type(*self),
    {
        match self {
            ResolveError::PasswordShape => true,
            ResolveError::ConfirmShape => true,
            ResolveError::MultiSelectShape => true,
            _ => false,
        }
    }
}

/// Copies a vector of array elements, element for element.
pub fn clone_elems(v: &Vec<ArrayElem>) -> (r: Vec<ArrayElem>)
    ensures
        r@ == v@,
{
    let mut r: Vec<ArrayElem> = Vec::new();
    let mut i: usize = 0;
    while i < v.len()
        invariant
            i <= v@.len(),
            r@ == v@.take(i as int),
        decreases v@.len() - i,
    {
        r.push(v[i].clone());
        proof {
            assert(r@ =~= v@.take(i + 1));
        }
        i = i + 1;
    }
    proof {
        assert(v@.take(v@.len() as int) =~= v@);
    }
    r
}

} // verus!
