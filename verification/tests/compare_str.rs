use enum_helper::compare_str::{
    equals_str, expand, CompareToStrAttribute, CompareToStrVariant, TypeAttribute,
};
use enum_helper::decl::{FieldShape, TypeDecl, VariantDecl};
use enum_helper::errors::BuildError;
use enum_helper::tokens::Tok;

fn w(s: &str) -> Tok {
    Tok::Word(s.to_string())
}

fn lit(s: &str) -> Tok {
    Tok::StrLit(s.to_string())
}

fn uuid_variant() -> VariantDecl {
    VariantDecl {
        name: "UUID".to_string(),
        shape: FieldShape::Named(vec!["format".to_string(), "version".to_string()]),
        key_attr: None,
        compare_attrs: vec![vec![
            w("equals"),
            Tok::OpenBracket,
            lit("uuid::Uuid"),
            Tok::CommaSign,
            lit("Uuid"),
            Tok::CloseBracket,
            Tok::CommaSign,
            w("contains"),
            Tok::OpenBracket,
            lit("uuid"),
            Tok::CloseBracket,
        ]],
        inner_attrs: vec![],
    }
}

fn filepath_variant() -> VariantDecl {
    VariantDecl {
        name: "FilePath".to_string(),
        shape: FieldShape::Unit,
        key_attr: None,
        compare_attrs: vec![vec![
            w("equals"),
            Tok::OpenBracket,
            lit("PathBuf"),
            Tok::CommaSign,
            lit("Path"),
            Tok::CloseBracket,
        ]],
        inner_attrs: vec![],
    }
}

fn other_types_decl() -> TypeDecl {
    TypeDecl {
        name: "OtherTypes".to_string(),
        is_enum: true,
        variants: vec![
            uuid_variant(),
            filepath_variant(),
            VariantDecl {
                name: "Tuple".to_string(),
                shape: FieldShape::Unnamed(2),
                key_attr: None,
                compare_attrs: vec![vec![
                    w("equals"),
                    Tok::OpenBracket,
                    lit("TupleThing"),
                    Tok::CloseBracket,
                ]],
                inner_attrs: vec![],
            },
            VariantDecl {
                name: "Tuple2".to_string(),
                shape: FieldShape::Unnamed(1),
                key_attr: None,
                compare_attrs: vec![vec![
                    w("equals"),
                    Tok::OpenBracket,
                    lit("TupleThing2"),
                    Tok::CloseBracket,
                ]],
                inner_attrs: vec![],
            },
        ],
        key_attr: None,
        compare_attr: None,
        serde_attr: None,
        inner_attrs: vec![],
        non_exhaustive: false,
    }
}

/// Builds the matcher records exactly as the generator does with the
/// default switches: each variant's own name is registered after the
/// explicit literals.
fn matcher_variants(decl: &TypeDecl) -> Vec<CompareToStrVariant> {
    let mut vs = Vec::new();
    for vd in &decl.variants {
        let mut v = CompareToStrVariant::try_from(vd).unwrap();
        v.attributes.equals.push(v.name.clone());
        vs.push(v);
    }
    vs
}

#[test]
fn compare_str_test() {
    let decl = other_types_decl();
    assert!(expand(&decl).is_ok());
    let ta = TypeAttribute::default();
    let vs = matcher_variants(&decl);
    assert!(equals_str(&ta, &vs, 0, "uuid::Uuid"));
    assert!(equals_str(&ta, &vs, 0, "Uuid"));
    assert!(equals_str(&ta, &vs, 1, "PathBuf"));
    assert!(equals_str(&ta, &vs, 1, "Path"));
}

#[test]
fn compare_precedence() {
    let vd = VariantDecl {
        name: "V".to_string(),
        shape: FieldShape::Unit,
        key_attr: None,
        compare_attrs: vec![vec![
            w("equals"),
            Tok::OpenBracket,
            lit("A"),
            Tok::CloseBracket,
            Tok::CommaSign,
            w("contains"),
            Tok::OpenBracket,
            lit("B"),
            Tok::CloseBracket,
        ]],
        inner_attrs: vec![],
    };
    let v = CompareToStrVariant::try_from(&vd).unwrap();
    assert!(v.matches_str(false, "B"));
    assert!(v.matches_str(false, "A"));
    assert!(v.matches_str(false, "xBx"));
    assert!(!v.matches_str(false, "C"));
}

#[test]
fn compare_case_folding() {
    let vd = VariantDecl {
        name: "V".to_string(),
        shape: FieldShape::Unit,
        key_attr: None,
        compare_attrs: vec![vec![
            w("equals"),
            Tok::OpenBracket,
            lit("Uuid"),
            Tok::CloseBracket,
        ]],
        inner_attrs: vec![],
    };
    let v = CompareToStrVariant::try_from(&vd).unwrap();
    assert!(v.matches_str(true, "Uuid"));
    assert!(v.matches_str(true, "uuid"));
    assert!(v.matches_str(false, "Uuid"));
    assert!(!v.matches_str(false, "uuid"));
}

#[test]
fn compare_empty_lists_never_match() {
    let vd = VariantDecl {
        name: "V".to_string(),
        shape: FieldShape::Unit,
        key_attr: None,
        compare_attrs: vec![],
        inner_attrs: vec![],
    };
    let v = CompareToStrVariant::try_from(&vd).unwrap();
    assert!(!v.matches_str(false, "V"));
    assert!(!v.matches_str(false, ""));
}

#[test]
fn compare_type_attr_parse_flags() {
    let toks = vec![
        w("partial_eq"),
        Tok::EqSign,
        Tok::BoolLit(false),
        Tok::CommaSign,
        w("to_lowercase"),
    ];
    let ta = TypeAttribute::parse(&toks).unwrap();
    assert!(!ta.partial_eq);
    assert!(ta.to_lowercase);
    assert!(ta.include_variant);
}

#[test]
fn compare_grammar_rejection() {
    // an unknown clause fails the whole site, even after a valid clause
    let toks = vec![
        w("equals"),
        Tok::OpenBracket,
        lit("A"),
        Tok::CloseBracket,
        Tok::CommaSign,
        w("bogus"),
    ];
    assert!(CompareToStrAttribute::parse(&toks).is_err());
    let type_toks = vec![w("unknown_flag")];
    let e = TypeAttribute::parse(&type_toks).unwrap_err();
    assert_eq!(e.expected.len(), 3);
    assert_eq!(e.expected[0], "include_variant");
    let mut bad_decl = other_types_decl();
    bad_decl.compare_attr = Some(type_toks);
    assert!(matches!(expand(&bad_decl), Err(BuildError::Grammar(_))));
}

#[test]
fn compare_expand_rejects_non_enum() {
    let mut decl = other_types_decl();
    decl.is_enum = false;
    assert!(matches!(expand(&decl), Err(BuildError::NotAVariantType)));
}

#[test]
fn compare_expand_output_shape() {
    let decl = other_types_decl();
    let out = expand(&decl).unwrap();
    assert!(out.contains("impl OtherTypes {"));
    assert!(out.contains("pub fn equals_str"));
    assert!(out.contains("Self::UUID { .. } => other == \"uuid::Uuid\""));
    assert!(out.contains("other.contains(\"uuid\")"));
    assert!(out.contains("impl core::cmp::PartialEq<str> for OtherTypes"));
    assert!(out.contains("impl core::cmp::PartialEq<OtherTypes> for str"));
    assert!(out.contains("impl core::cmp::PartialEq<OtherTypes> for &str"));
    // the implicit equals literal for the variant's own name comes last
    assert!(out.contains("other == \"TupleThing2\" || other == \"Tuple2\""));
}

#[test]
fn compare_expand_escapes_literals() {
    let vd = VariantDecl {
        name: "V".to_string(),
        shape: FieldShape::Unit,
        key_attr: None,
        compare_attrs: vec![vec![
            w("equals"),
            Tok::OpenBracket,
            lit("say \"hi\\\""),
            Tok::CloseBracket,
        ]],
        inner_attrs: vec![],
    };
    let decl = TypeDecl {
        name: "Quoted".to_string(),
        is_enum: true,
        variants: vec![vd],
        key_attr: None,
        compare_attr: None,
        serde_attr: None,
        inner_attrs: vec![],
        non_exhaustive: false,
    };
    let out = expand(&decl).unwrap();
    assert!(out.contains("other == \"say \\\"hi\\\\\\\"\""));
}
