use dialogue_core::dialoguer_list::confirm::Confirm;
use dialogue_core::dialoguer_list::input::Input;
use dialogue_core::dialoguer_list::multiselect::MultiSelect;
use dialogue_core::dialoguer_list::password::Password;
use dialogue_core::dialoguer_list::select::Select;
use dialogue_core::dialoguer_list::{scan, DialoguerList};
use dialogue_core::meta::PromptKind;
use dialogue_core::meta::{ArrayElem, Directive, Field, MetaPair, MetaValue, ResolveError};
use dialogue_core::ty::{classify, get_inner_type, Ty, TypeShape};

fn bare(path: &str) -> Ty {
    Ty { path: String::from(path), arg: None }
}

fn wrapped(outer: &str, inner: &str) -> Ty {
    Ty { path: String::from(outer), arg: Some(Box::new(bare(inner))) }
}

fn pair(key: &str, value: MetaValue) -> MetaPair {
    MetaPair { key: String::from(key), value: Some(value) }
}

fn directive(tag: &str, pairs: Vec<MetaPair>) -> Directive {
    Directive { tag: String::from(tag), pairs }
}

fn field(name: &str, ty: Ty, attrs: Vec<Directive>) -> Field {
    Field { name: Some(String::from(name)), ty, attrs }
}

#[test]
fn classify_shapes() {
    assert_eq!(classify(&bare("String")), TypeShape::Bare(bare("String")));
    assert_eq!(classify(&wrapped("Option", "bool")), TypeShape::Optional(bare("bool")));
    assert_eq!(classify(&wrapped("Vec", "String")), TypeShape::List(bare("String")));
    // only the outermost wrapper counts
    let nested = Ty {
        path: String::from("Option"),
        arg: Some(Box::new(wrapped("Vec", "u8"))),
    };
    assert_eq!(classify(&nested), TypeShape::Optional(wrapped("Vec", "u8")));
}

#[test]
fn inner_type_of_wrapper() {
    let t = wrapped("Option", "String");
    assert_eq!(get_inner_type(&t, "Option"), Some(&bare("String")));
    assert_eq!(get_inner_type(&t, "Vec"), None);
    assert_eq!(get_inner_type(&bare("Option"), "Option"), None);
}

#[test]
fn unannotated_list_defaults_to_multiselect() {
    let f = field("tags", wrapped("Vec", "String"), vec![]);
    let got = DialoguerList::parse_field(&f).unwrap();
    assert_eq!(
        got,
        DialoguerList::MultiSelect(
            MultiSelect { prompt: None, defaults: None, options: None },
            bare("String"),
        )
    );
}

#[test]
fn unannotated_bool_defaults_to_confirm() {
    let f = field("done", bare("bool"), vec![]);
    let got = DialoguerList::parse_field(&f).unwrap();
    assert_eq!(got, DialoguerList::Confirm(Confirm { prompt: None, default: None }));
    let f2 = field("done", wrapped("Option", "bool"), vec![]);
    let got2 = DialoguerList::parse_field(&f2).unwrap();
    assert_eq!(got2, DialoguerList::Confirm(Confirm { prompt: None, default: None }));
}

#[test]
fn unannotated_other_defaults_to_input() {
    let f = field("name", bare("String"), vec![]);
    let got = DialoguerList::parse_field(&f).unwrap();
    assert_eq!(got, DialoguerList::Input(Input { prompt: None }));
    let f2 = field("age", wrapped("Option", "u32"), vec![]);
    let got2 = DialoguerList::parse_field(&f2).unwrap();
    assert_eq!(got2, DialoguerList::Input(Input { prompt: None }));
}

#[test]
fn password_on_optional_string_resolves() {
    let f = field("secret", wrapped("Option", "String"), vec![directive("password", vec![])]);
    let got = DialoguerList::parse_field(&f).unwrap();
    assert_eq!(got, DialoguerList::Password(Password { prompt: None }));
}

#[test]
fn password_on_integer_fails_with_type_mismatch() {
    let f = field("secret", bare("i32"), vec![directive("password", vec![])]);
    let err = DialoguerList::parse_field(&f).unwrap_err();
    assert_eq!(err, ResolveError::PasswordShape);
    assert_eq!(err.message(), "Password only support String or Option<String> type");
    assert!(err.cites_field_type());
}

#[test]
fn confirm_on_non_bool_fails_with_type_mismatch() {
    let f = field("ok", bare("String"), vec![directive("confirm", vec![])]);
    let err = DialoguerList::parse_field(&f).unwrap_err();
    assert_eq!(err, ResolveError::ConfirmShape);
    assert_eq!(err.message(), "Confirm only support bool or Option<bool> type");
    assert!(err.cites_field_type());
}

#[test]
fn multiselect_on_bare_string_fails_with_list_only() {
    let f = field("tags", bare("String"), vec![directive("multiselect", vec![])]);
    let err = DialoguerList::parse_field(&f).unwrap_err();
    assert_eq!(err, ResolveError::MultiSelectShape);
    assert_eq!(err.message(), "multiselect only support Vec type");
    assert!(err.cites_field_type());
}

#[test]
fn select_on_optional_takes_inner_item_type() {
    let f = field("choice", wrapped("Option", "String"), vec![directive("select", vec![])]);
    let got = DialoguerList::parse_field(&f).unwrap();
    assert_eq!(
        got,
        DialoguerList::Select(
            Select { prompt: None, default: None, options: None },
            bare("String"),
        )
    );
}

#[test]
fn select_on_bare_takes_own_item_type() {
    let f = field("choice", bare("u32"), vec![directive("select", vec![])]);
    let got = DialoguerList::parse_field(&f).unwrap();
    assert_eq!(
        got,
        DialoguerList::Select(Select { prompt: None, default: None, options: None }, bare("u32"))
    );
}

#[test]
fn first_recognized_directive_wins() {
    let f = field(
        "ok",
        bare("bool"),
        vec![
            directive("serde", vec![]),
            directive("confirm", vec![pair("default", MetaValue::Bool(false))]),
            directive("input", vec![]),
        ],
    );
    let got = DialoguerList::parse_field(&f).unwrap();
    assert_eq!(got, DialoguerList::Confirm(Confirm { prompt: None, default: Some(false) }));
}

#[test]
fn unrecognized_directives_are_skipped() {
    let f = field("name", bare("String"), vec![directive("doc", vec![]), directive("serde", vec![])]);
    let got = DialoguerList::parse_field(&f).unwrap();
    assert_eq!(got, DialoguerList::Input(Input { prompt: None }));
}

#[test]
fn select_parses_all_three_keys() {
    let attr = directive(
        "select",
        vec![
            pair("prompt", MetaValue::Str(String::from("Pick"))),
            pair("default", MetaValue::Int(1)),
            pair(
                "options",
                MetaValue::Arr(vec![
                    ArrayElem::Str(String::from("a")),
                    ArrayElem::Str(String::from("b")),
                ]),
            ),
        ],
    );
    let got = Select::parse_field_attr(&attr).unwrap();
    assert_eq!(
        got,
        Select {
            prompt: Some(String::from("Pick")),
            default: Some(1),
            options: Some(vec![
                ArrayElem::Str(String::from("a")),
                ArrayElem::Str(String::from("b")),
            ]),
        }
    );
}

#[test]
fn later_key_value_replaces_earlier() {
    let attr = directive(
        "input",
        vec![
            pair("prompt", MetaValue::Str(String::from("first"))),
            pair("prompt", MetaValue::Str(String::from("second"))),
        ],
    );
    let got = Input::parse_field_attr(&attr).unwrap();
    assert_eq!(got, Input { prompt: Some(String::from("second")) });
}

#[test]
fn unknown_key_is_a_hard_failure() {
    let attr = directive("select", vec![pair("colour", MetaValue::Bool(true))]);
    let err = Select::parse_field_attr(&attr).unwrap_err();
    assert_eq!(err.message(), "expected `prompt`, `default` or `options`");
    let attr2 = directive("input", vec![pair("default", MetaValue::Bool(true))]);
    let err2 = Input::parse_field_attr(&attr2).unwrap_err();
    assert_eq!(err2.message(), "expected `prompt`");
    let attr3 = directive("confirm", vec![pair("options", MetaValue::Int(0))]);
    let err3 = Confirm::parse_field_attr(&attr3).unwrap_err();
    assert_eq!(err3.message(), "expected `prompt` or `default`");
    let attr4 = directive("multiselect", vec![pair("default", MetaValue::Int(0))]);
    let err4 = MultiSelect::parse_field_attr(&attr4).unwrap_err();
    assert_eq!(err4.message(), "expected `prompt`, `defaults` or `options`");
}

#[test]
fn wrong_literal_kind_is_a_hard_failure() {
    let attr = directive("input", vec![pair("prompt", MetaValue::Int(3))]);
    assert_eq!(Input::parse_field_attr(&attr).unwrap_err(), ResolveError::ExpectedStringLit);
    let attr2 = directive("confirm", vec![pair("default", MetaValue::Str(String::from("yes")))]);
    assert_eq!(Confirm::parse_field_attr(&attr2).unwrap_err(), ResolveError::ExpectedBoolLit);
    let attr3 = directive("select", vec![pair("default", MetaValue::Str(String::from("0")))]);
    assert_eq!(Select::parse_field_attr(&attr3).unwrap_err(), ResolveError::ExpectedIntLit);
    let attr4 = directive("select", vec![pair("options", MetaValue::Int(3))]);
    assert_eq!(Select::parse_field_attr(&attr4).unwrap_err(), ResolveError::ExpectedArrayLit);
}

#[test]
fn missing_value_is_a_hard_failure() {
    let attr = Directive {
        tag: String::from("input"),
        pairs: vec![MetaPair { key: String::from("prompt"), value: None }],
    };
    let err = Input::parse_field_attr(&attr).unwrap_err();
    assert_eq!(err, ResolveError::MissingValue);
    assert_eq!(err.message(), "expected `=`");
    assert!(!err.cites_field_type());
}

#[test]
fn multiselect_defaults_must_be_integer_array() {
    let attr = directive(
        "multiselect",
        vec![pair("defaults", MetaValue::Arr(vec![ArrayElem::Int(0), ArrayElem::Int(2)]))],
    );
    let got = MultiSelect::parse_field_attr(&attr).unwrap();
    assert_eq!(got.defaults, Some(vec![0, 2]));
    let bad = directive(
        "multiselect",
        vec![pair(
            "defaults",
            MetaValue::Arr(vec![ArrayElem::Int(0), ArrayElem::Str(String::from("x"))]),
        )],
    );
    assert_eq!(
        MultiSelect::parse_field_attr(&bad).unwrap_err(),
        ResolveError::ExpectedIntArrayLit
    );
    let not_array = directive("multiselect", vec![pair("defaults", MetaValue::Int(0))]);
    assert_eq!(
        MultiSelect::parse_field_attr(&not_array).unwrap_err(),
        ResolveError::ExpectedIntArrayLit
    );
}

#[test]
fn scanner_returns_first_recognized_directive() {
    let f = field(
        "choice",
        bare("String"),
        vec![
            directive("doc", vec![]),
            directive("select", vec![pair("default", MetaValue::Int(1))]),
            directive("confirm", vec![]),
        ],
    );
    let (kind, attr) = scan(&f).unwrap();
    assert_eq!(kind, PromptKind::Select);
    assert_eq!(attr, &directive("select", vec![pair("default", MetaValue::Int(1))]));
    let unannotated = field("choice", bare("String"), vec![directive("doc", vec![])]);
    assert!(scan(&unannotated).is_none());
}

#[test]
fn shape_check_precedes_option_parsing() {
    // the shape failure is reported even though the pairs would not parse
    let f = field(
        "tags",
        bare("String"),
        vec![directive("multiselect", vec![pair("bogus", MetaValue::Int(1))])],
    );
    assert_eq!(DialoguerList::parse_field(&f).unwrap_err(), ResolveError::MultiSelectShape);
}
