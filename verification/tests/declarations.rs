use syn::punctuated::Punctuated;
use utils::{
    apply_arg, apply_args, apply_attr, handle_field, read_attrs, try_handle_field, Attribute,
    DeriveError, Field, FieldType, Meta, Settings,
};

fn meta(meta: syn::Meta) -> Meta {
    let path = meta.path().get_ident().map(|ident| ident.to_string());
    match meta {
        syn::Meta::Path(_) => Meta::Path(path),
        syn::Meta::List(_) => Meta::List(path),
        syn::Meta::NameValue(syn::MetaNameValue {
            value: syn::Expr::Lit(syn::ExprLit { lit: syn::Lit::Str(text), .. }),
            ..
        }) => Meta::NameValue(path, Some(text.value())),
        syn::Meta::NameValue(_) => Meta::NameValue(path, None),
    }
}

/// The attribute that `source` writes, like `#[utils(var_or_file)]`.
fn attr(source: &str) -> Attribute {
    let item: syn::DeriveInput =
        syn::parse_str(&format!("{} struct S;", source)).expect("an attribute");
    let attr = &item.attrs[0];
    Attribute {
        path: attr.path().get_ident().map(|ident| ident.to_string()),
        args: attr
            .parse_args_with(Punctuated::<syn::Meta, syn::token::Comma>::parse_terminated)
            .ok()
            .map(|args| args.into_iter().map(meta).collect()),
    }
}

fn field(attrs: Vec<Attribute>) -> Field {
    Field { ident: String::from("name"), ty: FieldType::Text, attrs }
}

fn plain() -> Settings {
    Settings { var_or_file: false, name: None }
}

fn settings_of(sources: &[&str]) -> Result<(bool, Option<String>), DeriveError> {
    let attrs = || sources.iter().map(|source| attr(source)).collect::<Vec<_>>();
    let read = read_attrs(&attrs()).map(|settings| (settings.var_or_file, settings.name));
    let handled = try_handle_field(field(attrs())).map(|f| (f.var_or_file, f.name));
    assert_eq!(read, handled);
    handled
}

fn some(text: &str) -> Option<String> {
    Some(String::from(text))
}

#[test]
fn attributes_as_values() {
    assert_eq!(
        attr("#[utils(var_or_file, name = \"TEST_NAME\")]"),
        Attribute {
            path: some("utils"),
            args: Some(vec![
                Meta::Path(some("var_or_file")),
                Meta::NameValue(some("name"), some("TEST_NAME")),
            ]),
        }
    );
    assert_eq!(attr("#[utils]"), Attribute { path: some("utils"), args: None });
    assert_eq!(attr("#[utils = \"x\"]"), Attribute { path: some("utils"), args: None });
    assert_eq!(attr("#[utils()]"), Attribute { path: some("utils"), args: Some(vec![]) });
    assert_eq!(attr("#[utils(name =)]"), Attribute { path: some("utils"), args: None });
    assert_eq!(
        attr("#[a::b(c::d, e(f), g = 1)]"),
        Attribute {
            path: None,
            args: Some(vec![
                Meta::Path(None),
                Meta::List(some("e")),
                Meta::NameValue(some("g"), None),
            ]),
        }
    );
}

#[test]
fn field_without_attributes() {
    let out = handle_field(Field {
        ident: String::from("guest_id"),
        ty: FieldType::Optional(Box::new(FieldType::U64)),
        attrs: vec![],
    });
    assert_eq!(out.ident, "guest_id");
    assert!(matches!(out.ty, FieldType::Optional(_)));
    assert!(!out.var_or_file);
    assert_eq!(out.name, None);
}

#[test]
fn field_with_accepted_attributes() {
    let out = handle_field(Field {
        ident: String::from("name"),
        ty: FieldType::Text,
        attrs: vec![attr("#[doc = \"The name.\"]"), attr("#[utils(var_or_file, name = \"N\")]")],
    });
    assert_eq!(out.ident, "name");
    assert_eq!(out.ty, FieldType::Text);
    assert!(out.var_or_file);
    assert_eq!(out.name, some("N"));
}

#[test]
fn both_arguments_in_one_attribute() {
    assert_eq!(
        settings_of(&["#[utils(var_or_file, name = \"TEST_NAME\")]"]),
        Ok((true, some("TEST_NAME")))
    );
    assert_eq!(
        settings_of(&["#[utils(name = \"TEST_NAME\", var_or_file,)]"]),
        Ok((true, some("TEST_NAME")))
    );
}

#[test]
fn arguments_over_several_attributes() {
    assert_eq!(
        settings_of(&["#[utils(var_or_file)]", "#[doc = \"d\"]", "#[utils(name = \"A\")]"]),
        Ok((true, some("A")))
    );
}

#[test]
fn last_name_wins() {
    assert_eq!(
        settings_of(&["#[utils(name = \"A\", name = \"B\")]"]),
        Ok((false, some("B")))
    );
    assert_eq!(
        settings_of(&["#[utils(name = \"A\")]", "#[utils(name = \"C\")]"]),
        Ok((false, some("C")))
    );
}

#[test]
fn empty_arguments_change_nothing() {
    assert_eq!(settings_of(&["#[utils()]"]), Ok((false, None)));
    assert_eq!(settings_of(&["#[utils(  )]"]), Ok((false, None)));
}

#[test]
fn name_holds_what_the_literal_denotes() {
    assert_eq!(
        settings_of(&[r#"#[utils(name = "with \"quotes\" and \n")]"#]),
        Ok((false, some("with \"quotes\" and \n")))
    );
    assert_eq!(
        settings_of(&[r###"#[utils(name = r#"raw "text""#)]"###]),
        Ok((false, some("raw \"text\"")))
    );
    assert_eq!(settings_of(&["#[utils(name = \"\")]"]), Ok((false, some(""))));
}

#[test]
fn other_attributes_are_not_read() {
    assert_eq!(
        settings_of(&[
            "#[serde(rename = \"x\", unknown(=))]",
            "#[doc = \"d\"]",
            "#[inline]",
            "#[a::utils(var_or_file)]",
            "#[Utils(var_or_file)]",
            "#[utils2(var_or_file)]",
        ]),
        Ok((false, None))
    );
}

#[test]
fn unknown_arguments_are_refused() {
    for args in [
        "other",
        "var_or_file = true",
        "var_or_file(x)",
        "name",
        "name = 5",
        "name = b\"bytes\"",
        "name = 'c'",
        "name = OTHER",
        "name = (\"A\")",
        "name(\"A\")",
        "Name = \"A\"",
        "a::var_or_file",
        "var_or_file, other",
        "name = \"A\", file",
    ] {
        assert_eq!(
            settings_of(&[&format!("#[utils({})]", args)]),
            Err(DeriveError::UnknownArgument),
            "{}",
            args
        );
    }
}

#[test]
fn arguments_that_are_no_list_are_refused() {
    for args in ["name =", "=", "var_or_file name", "\"text\"", "5", ",", "name = \"A\" \"B\""] {
        assert_eq!(
            settings_of(&[&format!("#[utils({})]", args)]),
            Err(DeriveError::MalformedArguments),
            "{}",
            args
        );
    }
    assert_eq!(settings_of(&["#[utils]"]), Err(DeriveError::MalformedArguments));
    assert_eq!(settings_of(&["#[utils = \"x\"]"]), Err(DeriveError::MalformedArguments));
}

#[test]
fn first_refused_attribute_decides() {
    assert_eq!(
        settings_of(&["#[utils(other)]", "#[utils(name =)]"]),
        Err(DeriveError::UnknownArgument)
    );
    assert_eq!(
        settings_of(&["#[utils(name =)]", "#[utils(other)]"]),
        Err(DeriveError::MalformedArguments)
    );
    assert_eq!(
        settings_of(&["#[utils(var_or_file, other, name = 5)]"]),
        Err(DeriveError::UnknownArgument)
    );
}

#[test]
fn one_argument_at_a_time() {
    let on = apply_arg(&Meta::Path(some("var_or_file")), plain()).expect("accepted");
    assert!(on.var_or_file);
    assert_eq!(on.name, None);
    let named = apply_arg(&Meta::NameValue(some("name"), some("KEY")), on).expect("accepted");
    assert!(named.var_or_file);
    assert_eq!(named.name, some("KEY"));
    let renamed = apply_arg(&Meta::NameValue(some("name"), some("K2")), named).expect("accepted");
    assert!(renamed.var_or_file);
    assert_eq!(renamed.name, some("K2"));
    for arg in [
        Meta::Path(None),
        Meta::Path(some("name")),
        Meta::Path(some("other")),
        Meta::List(some("var_or_file")),
        Meta::List(None),
        Meta::NameValue(some("name"), None),
        Meta::NameValue(None, some("KEY")),
        Meta::NameValue(some("var_or_file"), some("KEY")),
    ] {
        assert_eq!(apply_arg(&arg, plain()).err(), Some(DeriveError::UnknownArgument));
    }
}

#[test]
fn arguments_in_their_order() {
    let args = vec![
        Meta::NameValue(some("name"), some("A")),
        Meta::Path(some("var_or_file")),
        Meta::NameValue(some("name"), some("B")),
    ];
    let out = apply_args(&args, plain()).expect("accepted");
    assert!(out.var_or_file);
    assert_eq!(out.name, some("B"));
    let out = apply_args(&vec![], Settings { var_or_file: true, name: some("kept") })
        .expect("accepted");
    assert!(out.var_or_file);
    assert_eq!(out.name, some("kept"));
    let bad = vec![Meta::Path(some("var_or_file")), Meta::List(some("x"))];
    assert_eq!(apply_args(&bad, plain()).err(), Some(DeriveError::UnknownArgument));
}

#[test]
fn one_attribute_at_a_time() {
    let other = Attribute { path: some("other"), args: None };
    let kept = apply_attr(&other, Settings { var_or_file: true, name: None }).expect("not read");
    assert!(kept.var_or_file);
    let out = apply_attr(&attr("#[utils(name = \"N\")]"), kept).expect("accepted");
    assert!(out.var_or_file);
    assert_eq!(out.name, some("N"));
    let bare = Attribute { path: some("utils"), args: None };
    assert_eq!(apply_attr(&bare, plain()).err(), Some(DeriveError::MalformedArguments));
}
