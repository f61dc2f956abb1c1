use enum_helper::decl::{FieldShape, TypeDecl, VariantDecl};
use enum_helper::enum_of_keys_impl::attrs::{EnumOfKeysAttribute, VariantAttribute};
use enum_helper::enum_of_keys_impl::expand;
use enum_helper::enum_of_keys_impl::variant::Variant;
use enum_helper::errors::BuildError;
use enum_helper::simple_serde::DeserializeMethod;
use enum_helper::tokens::Tok;

fn w(s: &str) -> Tok {
    Tok::Word(s.to_string())
}

fn plain_variant(name: &str, shape: FieldShape) -> VariantDecl {
    VariantDecl {
        name: name.to_string(),
        shape,
        key_attr: None,
        compare_attrs: vec![],
        inner_attrs: vec![],
    }
}

fn default_variant(name: &str, shape: FieldShape, attr: Vec<Tok>) -> VariantDecl {
    VariantDecl {
        name: name.to_string(),
        shape,
        key_attr: Some(attr),
        compare_attrs: vec![],
        inner_attrs: vec![],
    }
}

fn test_enum_decl(key_attr: Vec<Tok>) -> TypeDecl {
    TypeDecl {
        name: "TestEnum".to_string(),
        is_enum: true,
        variants: vec![
            plain_variant("A", FieldShape::Unnamed(1)),
            plain_variant("B", FieldShape::Unit),
            plain_variant(
                "C",
                FieldShape::Named(vec!["a".to_string(), "b".to_string()]),
            ),
            default_variant("Default", FieldShape::Unnamed(1), vec![w("default")]),
        ],
        key_attr: Some(key_attr),
        compare_attr: None,
        serde_attr: None,
        inner_attrs: vec![],
        non_exhaustive: false,
    }
}

#[test]
fn enum_of_keys_attr_parse() {
    let toks = vec![
        w("TestEnumKeys"),
        Tok::CommaSign,
        w("default_in_cow"),
        Tok::CommaSign,
        w("serde"),
        Tok::OpenParen,
        w("try_from_string"),
        Tok::CloseParen,
        Tok::CommaSign,
        w("impl_strum"),
    ];
    let ea = EnumOfKeysAttribute::parse(&toks).unwrap();
    assert_eq!(ea.name, "TestEnumKeys");
    assert!(ea.store_default_in_cow);
    assert!(!ea.impl_common_traits);
    assert!(ea.impl_strum);
    let s = ea.serde.unwrap();
    // impl_strum makes the codec serialize through the cheap string reference
    assert!(s.has_as_ref_str);
    assert!(matches!(s.deserialize_method, DeserializeMethod::TryFromString));
}

#[test]
fn enum_of_keys_attr_missing_name() {
    assert!(matches!(
        EnumOfKeysAttribute::parse(&vec![]),
        Err(BuildError::MissingKeyTypeName)
    ));
    assert!(matches!(
        EnumOfKeysAttribute::parse(&vec![Tok::EqSign]),
        Err(BuildError::MissingKeyTypeName)
    ));
}

#[test]
fn variant_attr_parse() {
    let named = VariantAttribute::parse(&vec![w("default"), Tok::EqSign, w("a")]).unwrap();
    assert_eq!(named.default.unwrap().key_name, "a");
    let bare = VariantAttribute::parse(&vec![w("default")]).unwrap();
    assert_eq!(bare.default.unwrap().key_name, "value");
    assert!(VariantAttribute::parse(&vec![w("bogus")]).is_err());
}

#[test]
fn keys_expand_no_cow_output() {
    let decl = test_enum_decl(vec![w("TestEnumKeys"), Tok::CommaSign, w("impl_common_traits")]);
    let out = expand(&decl).unwrap();
    assert!(out.contains("pub enum TestEnumKeys {"));
    assert!(out.contains("#[derive(Clone, Debug, PartialEq, Eq)]"));
    assert!(out.contains("    Default(String),\n"));
    assert!(out.contains("impl enum_helper::HasKeyEnum for TestEnum"));
    assert!(out.contains("TestEnum::Default(value) => TestEnumKeys::Default(value.clone()),"));
    assert!(out.contains("(TestEnum::C { .. }, TestEnumKeys::C) => true,"));
    assert!(out.contains("(TestEnum::Default(value), TestEnumKeys::Default(b)) => value == b,"));
    assert!(!out.contains("to_owned"));
}

#[test]
fn keys_expand_cow_output() {
    let decl = test_enum_decl(vec![w("TestEnumKeys"), Tok::CommaSign, w("default_in_cow")]);
    let out = expand(&decl).unwrap();
    assert!(out.contains("pub enum TestEnumKeys<'a> {"));
    assert!(out.contains("    Default(::std::borrow::Cow<'a, str>),\n"));
    assert!(out.contains("pub fn to_owned(&self) -> TestEnumKeys<'static>"));
    assert!(out.contains("TestEnum::Default(value) => TestEnumKeys::Default(::std::borrow::Cow::Borrowed(value.as_str())),"));
    assert!(out.contains("TestEnum::Default(value) => TestEnumKeys::Default(::std::borrow::Cow::Owned(value.to_owned())),"));
    assert!(out.contains("impl enum_helper::KeyEnum for TestEnumKeys<'_>"));
}

#[test]
fn keys_expand_carries_attrs() {
    let mut decl = test_enum_decl(vec![w("Keys")]);
    decl.inner_attrs = vec!["derive(Hash)".to_string()];
    decl.non_exhaustive = true;
    let out = expand(&decl).unwrap();
    assert!(out.contains("#[derive(Hash)]\n"));
    assert!(out.contains("#[non_exhaustive]\n"));
}

#[test]
fn keys_expand_serde_settings() {
    let decl = test_enum_decl(vec![
        w("Keys"),
        Tok::CommaSign,
        w("serde"),
        Tok::OpenParen,
        w("as_ref"),
        Tok::CloseParen,
    ]);
    let out = expand(&decl).unwrap();
    assert!(out.contains("impl serde::Serialize for Keys"));
    assert!(out.contains("serializer.serialize_str(self.as_ref())"));
    assert!(out.contains("impl<'de> serde::Deserialize<'de> for Keys"));
    assert!(out.contains("core::str::FromStr"));
}

#[test]
fn keys_expand_serde_on_cow_key() {
    let decl = test_enum_decl(vec![
        w("Keys"),
        Tok::CommaSign,
        w("default_in_cow"),
        Tok::CommaSign,
        w("serde"),
        Tok::CommaSign,
    ]);
    let out = expand(&decl).unwrap();
    assert!(out.contains("impl serde::Serialize for Keys<'_>"));
    assert!(out.contains("impl<'de> serde::Deserialize<'de> for Keys<'static>"));
    assert!(out.contains("type Value = Keys<'static>;"));
}

#[test]
fn keys_expand_not_enum() {
    let mut decl = test_enum_decl(vec![w("Keys")]);
    decl.is_enum = false;
    assert!(matches!(expand(&decl), Err(BuildError::NotAVariantType)));
}

#[test]
fn keys_expand_missing_key_attr() {
    let mut decl = test_enum_decl(vec![w("Keys")]);
    decl.key_attr = None;
    assert!(matches!(expand(&decl), Err(BuildError::MissingKeyTypeName)));
}

#[test]
fn keys_expand_default_on_unit() {
    let mut decl = test_enum_decl(vec![w("Keys")]);
    decl.variants[3] = default_variant("Default", FieldShape::Unit, vec![w("default")]);
    assert!(matches!(expand(&decl), Err(BuildError::DefaultOnUnitVariant)));
}

#[test]
fn keys_expand_unknown_carrier_field() {
    let mut decl = test_enum_decl(vec![w("Keys")]);
    decl.variants[3] = default_variant(
        "Default",
        FieldShape::Named(vec!["a".to_string(), "b".to_string()]),
        vec![w("default"), Tok::EqSign, w("missing")],
    );
    assert!(matches!(expand(&decl), Err(BuildError::UnknownCarrierField)));
    // and the same designation with an existing field passes
    let mut good = test_enum_decl(vec![w("Keys")]);
    good.variants[3] = default_variant(
        "Default",
        FieldShape::Named(vec!["a".to_string(), "b".to_string()]),
        vec![w("default"), Tok::EqSign, w("a")],
    );
    let out = expand(&good).unwrap();
    assert!(out.contains("TestEnum::Default { a, .. } => Keys::Default(a.clone()),"));
}

#[test]
fn keys_expand_single_named_default() {
    let mut decl = test_enum_decl(vec![w("Keys")]);
    decl.variants[3] = default_variant(
        "Default",
        FieldShape::Named(vec!["a".to_string()]),
        vec![w("default"), Tok::EqSign, w("a")],
    );
    let out = expand(&decl).unwrap();
    assert!(out.contains("TestEnum::Default { a } => Keys::Default(a.clone()),"));
}

#[test]
fn keys_expand_multi_tuple_default() {
    let mut decl = test_enum_decl(vec![w("Keys")]);
    decl.variants[3] = default_variant(
        "Default",
        FieldShape::Unnamed(2),
        vec![w("default"), Tok::EqSign, w("value")],
    );
    let out = expand(&decl).unwrap();
    assert!(out.contains("TestEnum::Default(value, ..) => Keys::Default(value.clone()),"));
    assert!(out.contains("(TestEnum::Default(value, ..), Keys::Default(b)) => value == b,"));
}

#[test]
fn keys_expand_grammar_error_in_variant() {
    let mut decl = test_enum_decl(vec![w("Keys")]);
    decl.variants[1].key_attr = Some(vec![w("unknown_option")]);
    assert!(matches!(expand(&decl), Err(BuildError::Grammar(_))));
}

#[test]
fn variant_partial_eq_line_exact() {
    let vd = plain_variant("B", FieldShape::Unit);
    let v = Variant::new(&vd, false).unwrap();
    let mut out = String::new();
    v.create_partial_eq_line("TestEnum", "TestEnumKeys", &mut out);
    assert_eq!(out, "            (TestEnum::B, TestEnumKeys::B) => true,\n");
    let mut line = String::new();
    v.create_get_key_line("TestEnum", "TestEnumKeys", &mut line);
    assert_eq!(line, "            TestEnum::B => TestEnumKeys::B,\n");
}
