use dialogue_core::dialoguer_list::{generate_for_field, generate_impl, DialoguerList};
use dialogue_core::meta::{ArrayElem, Directive, Field, MetaPair, MetaValue, Record, ResolveError};
use dialogue_core::theme::{get_theme, theme_choice_from_index, ThemeChoice};
use dialogue_core::ty::Ty;

fn bare(path: &str) -> Ty {
    Ty { path: String::from(path), arg: None }
}

fn wrapped(outer: &str, inner: &str) -> Ty {
    Ty { path: String::from(outer), arg: Some(Box::new(bare(inner))) }
}

fn pair(key: &str, value: MetaValue) -> MetaPair {
    MetaPair { key: String::from(key), value: Some(value) }
}

fn directive(tag: &str, pairs: Vec<MetaPair>) -> Directive {
    Directive { tag: String::from(tag), pairs }
}

fn field(name: &str, ty: Ty, attrs: Vec<Directive>) -> Field {
    Field { name: Some(String::from(name)), ty, attrs }
}

fn str_options(items: &[&str]) -> MetaValue {
    MetaValue::Arr(items.iter().map(|s| ArrayElem::Str(String::from(*s))).collect())
}

#[test]
fn select_fully_static_takes_no_parameters() {
    // record field `choice: String`, select(prompt="Pick", options=["a","b","c"])
    let f = field(
        "choice",
        bare("String"),
        vec![directive(
            "select",
            vec![
                pair("prompt", MetaValue::Str(String::from("Pick"))),
                pair("options", str_options(&["a", "b", "c"])),
            ],
        )],
    );
    let got = generate_for_field(&f, ThemeChoice::Unthemed).unwrap();
    assert_eq!(
        got,
        "pub fn choice(&mut self, ) -> &mut Self { \
         let options: &[String] = &vec![\"a\", \"b\", \"c\"]; \
         let res = dialogue_macro::dialoguer::Select::new()\
         .with_prompt(\"Pick\").items(options).interact().unwrap(); \
         self.choice = options[res].clone().into(); self }"
    );
    assert!(!got.contains(".default("));
    assert!(!got.contains("prompt: &str"));
}

#[test]
fn select_fully_deferred_takes_prompt_then_options() {
    let f = field("choice", bare("String"), vec![directive("select", vec![])]);
    let got = generate_for_field(&f, ThemeChoice::Unthemed).unwrap();
    assert_eq!(
        got,
        "pub fn choice(&mut self, prompt: &str, options: &[String], ) -> &mut Self { \
         let res = dialogue_macro::dialoguer::Select::new()\
         .with_prompt(prompt).items(options).interact().unwrap(); \
         self.choice = options[res].clone().into(); self }"
    );
    let p = got.find("prompt: &str").unwrap();
    let o = got.find("options: &[String]").unwrap();
    assert!(p < o);
}

#[test]
fn select_with_prompt_only_takes_options_parameter() {
    let f = field(
        "choice",
        bare("String"),
        vec![directive("select", vec![pair("prompt", MetaValue::Str(String::from("Pick")))])],
    );
    let got = generate_for_field(&f, ThemeChoice::Unthemed).unwrap();
    assert!(got.starts_with("pub fn choice(&mut self, options: &[String], ) -> &mut Self {"));
    assert!(!got.contains("prompt: &str"));
}

#[test]
fn select_with_default_bakes_index_step() {
    let f = field(
        "choice",
        bare("String"),
        vec![directive(
            "select",
            vec![pair("default", MetaValue::Int(10)), pair("options", str_options(&["a"]))],
        )],
    );
    let got = generate_for_field(&f, ThemeChoice::Unthemed).unwrap();
    assert!(got.contains(".default(10)"));
}

#[test]
fn select_on_optional_wraps_assignment() {
    let f = field("choice", wrapped("Option", "String"), vec![directive("select", vec![])]);
    let got = generate_for_field(&f, ThemeChoice::Unthemed).unwrap();
    assert!(got.contains("self.choice = Some(options[res].clone().into());"));
    // the item type is the inner type, not the wrapper
    assert!(got.contains("options: &[String]"));
    assert!(!got.contains("Option<String>"));
}

#[test]
fn unannotated_vec_field_defers_prompt_and_options() {
    // record field `tags: Vec<String>`, no directive
    let f = field("tags", wrapped("Vec", "String"), vec![]);
    let got = generate_for_field(&f, ThemeChoice::Unthemed).unwrap();
    assert_eq!(
        got,
        "pub fn tags(&mut self, prompt: &str, options: &[String], ) -> &mut Self { \
         let res = dialogue_macro::dialoguer::MultiSelect::new()\
         .with_prompt(prompt).items(options).interact().unwrap(); \
         self.tags = res.iter().map(|i| options[*i].clone().into()).collect(); self }"
    );
}

#[test]
fn confirm_with_default_on_optional_bool() {
    // record field `ok: Option<bool>`, confirm(default=true)
    let f = field(
        "ok",
        wrapped("Option", "bool"),
        vec![directive("confirm", vec![pair("default", MetaValue::Bool(true))])],
    );
    let got = generate_for_field(&f, ThemeChoice::Unthemed).unwrap();
    assert_eq!(
        got,
        "pub fn ok(&mut self, prompt: &str, ) -> &mut Self { \
         let res = dialogue_macro::dialoguer::Confirm::new()\
         .with_prompt(prompt).default(true).interact().unwrap(); \
         self.ok = Some(res.into()); self }"
    );
}

#[test]
fn password_on_integer_aborts_generation() {
    // record field `secret: i32`, password directive
    let f = field("secret", bare("i32"), vec![directive("password", vec![])]);
    let err = generate_for_field(&f, ThemeChoice::Unthemed).unwrap_err();
    assert_eq!(err, ResolveError::PasswordShape);
    assert_eq!(err.message(), "Password only support String or Option<String> type");
}

#[test]
fn input_with_baked_prompt_is_escaped() {
    let f = field(
        "name",
        bare("String"),
        vec![directive(
            "input",
            vec![pair("prompt", MetaValue::Str(String::from("say \"hi\" \\ back")))],
        )],
    );
    let got = generate_for_field(&f, ThemeChoice::Unthemed).unwrap();
    assert!(got.contains(".with_prompt(\"say \\\"hi\\\" \\\\ back\")"));
}

#[test]
fn themed_construction_forms() {
    let f = field("name", bare("String"), vec![]);
    let unthemed = generate_for_field(&f, ThemeChoice::Unthemed).unwrap();
    assert!(unthemed.contains("dialogue_macro::dialoguer::Input::new()"));
    let bundled = generate_for_field(&f, ThemeChoice::DefaultColorful).unwrap();
    assert!(bundled.contains(
        "dialogue_macro::dialoguer::Input::with_theme(\
         &dialogue_macro::dialoguer::theme::ColorfulTheme::default())"
    ));
    let external = generate_for_field(&f, ThemeChoice::ExternalColorful).unwrap();
    assert!(external.contains(
        "dialogue_macro::dialoguer::Input::with_theme(&dialogue_macro::ColorfulTheme::default())"
    ));
}

#[test]
fn password_on_optional_string_emits_masked_prompt() {
    let f = field(
        "secret",
        wrapped("Option", "String"),
        vec![directive("password", vec![pair("prompt", MetaValue::Str(String::from("Pass?")))])],
    );
    let got = generate_for_field(&f, ThemeChoice::Unthemed).unwrap();
    assert_eq!(
        got,
        "pub fn secret(&mut self, ) -> &mut Self { \
         let res = dialogue_macro::dialoguer::Password::new()\
         .with_prompt(\"Pass?\").interact().unwrap(); \
         self.secret = Some(res.into()); self }"
    );
}

#[test]
fn nested_item_type_is_rendered_with_its_argument() {
    // Vec<Option<u8>>: the multiselect item type is Option<u8>
    let inner = Ty {
        path: String::from("Option"),
        arg: Some(Box::new(bare("u8"))),
    };
    let f = Field {
        name: Some(String::from("marks")),
        ty: Ty { path: String::from("Vec"), arg: Some(Box::new(inner)) },
        attrs: vec![],
    };
    let got = generate_for_field(&f, ThemeChoice::Unthemed).unwrap();
    assert!(got.contains("options: &[Option<u8>], "));
}

#[test]
fn theme_selector_mapping() {
    assert_eq!(theme_choice_from_index(0), Some(ThemeChoice::Unthemed));
    assert_eq!(theme_choice_from_index(1), Some(ThemeChoice::DefaultColorful));
    assert_eq!(theme_choice_from_index(2), Some(ThemeChoice::ExternalColorful));
    assert_eq!(theme_choice_from_index(3), None);
    assert_eq!(get_theme(ThemeChoice::Unthemed), None);
    assert_eq!(
        get_theme(ThemeChoice::DefaultColorful).unwrap(),
        "&dialogue_macro::dialoguer::theme::ColorfulTheme::default()"
    );
    assert_eq!(
        get_theme(ThemeChoice::ExternalColorful).unwrap(),
        "&dialogue_macro::ColorfulTheme::default()"
    );
}

#[test]
fn multiselect_defaults_step_is_baked() {
    let f = field(
        "tags",
        wrapped("Vec", "String"),
        vec![directive(
            "multiselect",
            vec![pair("defaults", MetaValue::Arr(vec![ArrayElem::Int(0), ArrayElem::Int(2)]))],
        )],
    );
    let got = generate_for_field(&f, ThemeChoice::Unthemed).unwrap();
    assert!(got.contains(".defaults(&[0, 2])"));
}

#[test]
fn mixed_literal_options_embed_each_kind() {
    let f = field(
        "pick",
        bare("u32"),
        vec![directive(
            "select",
            vec![pair(
                "options",
                MetaValue::Arr(vec![
                    ArrayElem::Int(7),
                    ArrayElem::Bool(false),
                    ArrayElem::Str(String::from("x")),
                ]),
            )],
        )],
    );
    let got = generate_for_field(&f, ThemeChoice::Unthemed).unwrap();
    assert!(got.contains("let options: &[u32] = &vec![7, false, \"x\"];"));
}

#[test]
fn nameless_field_emits_empty_name() {
    let f = Field { name: None, ty: bare("String"), attrs: vec![] };
    let got = generate_for_field(&f, ThemeChoice::Unthemed).unwrap();
    assert!(got.starts_with("pub fn (&mut self, prompt: &str, )"));
}

#[test]
fn generate_method_dispatches_by_kind() {
    let f = field("ok", bare("bool"), vec![]);
    let dl = DialoguerList::parse_field(&f).unwrap();
    let got = dl.generate_method(&f.name, false, ThemeChoice::Unthemed).unwrap();
    assert!(got.contains("dialogue_macro::dialoguer::Confirm::new()"));
    assert!(got.contains("self.ok = res.into();"));
}

#[test]
fn record_emits_one_method_per_field() {
    let rec = Record {
        name: String::from("User"),
        fields: vec![
            field("name", bare("String"), vec![]),
            field("ok", bare("bool"), vec![]),
        ],
    };
    let got = generate_impl(&rec, ThemeChoice::Unthemed).unwrap();
    assert!(got.starts_with("impl User { pub fn name(&mut self, prompt: &str, )"));
    assert!(got.ends_with("self.ok = res.into(); self } }"));
    assert_eq!(got.matches("pub fn ").count(), 2);
}

#[test]
fn record_with_failing_field_emits_nothing() {
    let rec = Record {
        name: String::from("User"),
        fields: vec![
            field("name", bare("String"), vec![]),
            field("secret", bare("i32"), vec![directive("password", vec![])]),
            field("ok", bare("bool"), vec![]),
        ],
    };
    assert_eq!(generate_impl(&rec, ThemeChoice::Unthemed).unwrap_err(), ResolveError::PasswordShape);
}

#[test]
fn empty_record_emits_empty_block() {
    let rec = Record { name: String::from("Unit"), fields: vec![] };
    assert_eq!(generate_impl(&rec, ThemeChoice::Unthemed).unwrap(), "impl Unit { }");
}
