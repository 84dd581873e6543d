use zerok_macros::args::{parse_args, Arg, Constr, Error, SubArg};

fn ident_path(s: &str) -> Arg {
    Arg::Path {
        ident: Some(String::from(s)),
    }
}

fn list(name: &str, args: Vec<SubArg>) -> Arg {
    Arg::List {
        ident: Some(String::from(name)),
        args,
    }
}

fn sub_ident(s: &str) -> SubArg {
    SubArg::Path {
        ident: Some(String::from(s)),
        tokens: String::from(s),
    }
}

#[test]
fn no_arguments_gives_defaults() {
    let cfg = parse_args(&Vec::new()).unwrap();
    assert!(matches!(cfg.constr, Constr::DefaultInstance));
    assert!(cfg.test_ark);
    assert!(cfg.test_serde);
    assert!(cfg.types.is_empty());
}

#[test]
fn bare_random_uses_conventional_name() {
    let cfg = parse_args(&vec![ident_path("random")]).unwrap();
    match cfg.constr {
        Constr::Random(f) => assert_eq!(f, "random"),
        _ => panic!("expected random construction"),
    }
}

#[test]
fn bare_arbitrary_selected() {
    let cfg = parse_args(&vec![ident_path("arbitrary")]).unwrap();
    assert!(matches!(cfg.constr, Constr::Arbitrary));
}

#[test]
fn random_with_name() {
    let cfg = parse_args(&vec![list("random", vec![sub_ident("random_for_test")])]).unwrap();
    match cfg.constr {
        Constr::Random(f) => assert_eq!(f, "random_for_test"),
        _ => panic!("expected random construction"),
    }
}

#[test]
fn constr_with_name() {
    let cfg = parse_args(&vec![list("constr", vec![sub_ident("new")])]).unwrap();
    match cfg.constr {
        Constr::Method(f) => assert_eq!(f, "new"),
        _ => panic!("expected named constructor"),
    }
}

#[test]
fn last_scalar_argument_wins() {
    let cfg = parse_args(&vec![
        ident_path("random"),
        list("constr", vec![sub_ident("new")]),
    ])
    .unwrap();
    assert!(matches!(cfg.constr, Constr::Method(_)));

    let cfg = parse_args(&vec![
        list("ark", vec![SubArg::Bool(false)]),
        list("ark", vec![SubArg::Bool(true)]),
    ])
    .unwrap();
    assert!(cfg.test_ark);
}

#[test]
fn ark_and_serde_toggles() {
    let cfg = parse_args(&vec![
        list("ark", vec![SubArg::Bool(false)]),
        list("serde", vec![SubArg::Bool(false)]),
    ])
    .unwrap();
    assert!(!cfg.test_ark);
    assert!(!cfg.test_serde);
}

#[test]
fn repeated_types_accumulate_in_order() {
    let cfg = parse_args(&vec![
        list("types", vec![sub_ident("u64")]),
        list("types", vec![sub_ident("u32"), sub_ident("bool")]),
    ])
    .unwrap();
    assert_eq!(cfg.types.len(), 2);
    assert_eq!(cfg.types[0], vec!["u64".to_string()]);
    assert_eq!(cfg.types[1], vec!["u32".to_string(), "bool".to_string()]);
}

#[test]
fn quoted_type_string_is_parsed_and_rendered() {
    let cfg = parse_args(&vec![list(
        "types",
        vec![SubArg::Str(String::from("Vec<u64>"))],
    )])
    .unwrap();
    // The canonical token rendering differs from the raw string: the type
    // really went through the parser.
    assert_eq!(cfg.types[0], vec!["Vec < u64 >".to_string()]);
}

#[test]
fn unknown_path_is_invalid_argument() {
    assert_eq!(
        parse_args(&vec![ident_path("foo")]).unwrap_err(),
        Error::InvalidArgument
    );
}

#[test]
fn non_ident_path_is_invalid_argument() {
    assert_eq!(
        parse_args(&vec![Arg::Path { ident: None }]).unwrap_err(),
        Error::InvalidArgument
    );
}

#[test]
fn literal_argument_is_invalid_argument() {
    assert_eq!(parse_args(&vec![Arg::Other]).unwrap_err(), Error::InvalidArgument);
}

#[test]
fn unknown_list_is_invalid_attribute() {
    assert_eq!(
        parse_args(&vec![list("foo", vec![])]).unwrap_err(),
        Error::InvalidAttribute
    );
}

#[test]
fn non_ident_list_is_invalid_attribute() {
    assert_eq!(
        parse_args(&vec![Arg::List {
            ident: None,
            args: vec![]
        }])
        .unwrap_err(),
        Error::InvalidAttribute
    );
}

#[test]
fn random_arity_checked() {
    assert_eq!(
        parse_args(&vec![list("random", vec![])]).unwrap_err(),
        Error::RandomArity
    );
    assert_eq!(
        parse_args(&vec![list("random", vec![sub_ident("a"), sub_ident("b")])]).unwrap_err(),
        Error::RandomArity
    );
}

#[test]
fn random_argument_must_be_identifier() {
    assert_eq!(
        parse_args(&vec![list("random", vec![SubArg::Bool(true)])]).unwrap_err(),
        Error::RandomNotIdent
    );
    assert_eq!(
        parse_args(&vec![list(
            "random",
            vec![SubArg::Path {
                ident: None,
                tokens: String::from("a::b")
            }]
        )])
        .unwrap_err(),
        Error::RandomNotIdent
    );
}

#[test]
fn constr_arity_and_kind_checked() {
    assert_eq!(
        parse_args(&vec![list("constr", vec![])]).unwrap_err(),
        Error::ConstrArity
    );
    assert_eq!(
        parse_args(&vec![list("constr", vec![SubArg::Bool(true)])]).unwrap_err(),
        Error::ConstrNotIdent
    );
}

#[test]
fn ark_arity_and_kind_checked() {
    assert_eq!(
        parse_args(&vec![list("ark", vec![])]).unwrap_err(),
        Error::ArkArity
    );
    assert_eq!(
        parse_args(&vec![list("ark", vec![sub_ident("yes")])]).unwrap_err(),
        Error::ArkNotBool
    );
}

#[test]
fn serde_arity_and_kind_checked() {
    assert_eq!(
        parse_args(&vec![list("serde", vec![SubArg::Bool(true), SubArg::Bool(false)])])
            .unwrap_err(),
        Error::SerdeArity
    );
    assert_eq!(
        parse_args(&vec![list("serde", vec![sub_ident("no")])]).unwrap_err(),
        Error::SerdeNotBool
    );
}

#[test]
fn types_element_must_be_type() {
    assert_eq!(
        parse_args(&vec![list("types", vec![SubArg::Bool(true)])]).unwrap_err(),
        Error::ExpectedType
    );
    assert_eq!(
        parse_args(&vec![list("types", vec![SubArg::Other])]).unwrap_err(),
        Error::ExpectedType
    );
}

#[test]
fn unparseable_type_string_rejected() {
    assert_eq!(
        parse_args(&vec![list("types", vec![SubArg::Str(String::from("]]]"))])]).unwrap_err(),
        Error::InvalidTypeString
    );
}

#[test]
fn leftmost_error_wins() {
    assert_eq!(
        parse_args(&vec![list("random", vec![]), ident_path("foo")]).unwrap_err(),
        Error::RandomArity
    );
}

#[test]
fn error_messages_name_the_argument() {
    assert_eq!(Error::InvalidArgument.message(), "invalid argument");
    assert_eq!(Error::InvalidAttribute.message(), "invalid attribute");
    assert_eq!(Error::RandomArity.message(), "random attribute takes 1 argument");
    assert_eq!(
        Error::RandomNotIdent.message(),
        "random argument must be an identifier"
    );
    assert_eq!(Error::ArkNotBool.message(), "ark argument must be a boolean");
    assert_eq!(Error::ExpectedStructOrEnum.message(), "expected struct or enum");
}
