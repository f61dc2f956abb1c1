use enum_helper::decl::{TypeDecl, VariantDecl};
use enum_helper::simple_serde::{
    expand_deserialize, expand_inner_deserialize, expand_inner_serialize, expand_serialize,
    DeserializeMethod, KeyNames, SerdeSettings,
};
use enum_helper::tokens::Tok;
use enum_helper::{CowStr, KeyValue};

fn w(s: &str) -> Tok {
    Tok::Word(s.to_string())
}

fn bare_decl(serde_attr: Option<Vec<Tok>>) -> TypeDecl {
    TypeDecl {
        name: "TestOne".to_string(),
        is_enum: true,
        variants: Vec::<VariantDecl>::new(),
        key_attr: None,
        compare_attr: None,
        serde_attr,
        inner_attrs: vec![],
        non_exhaustive: false,
    }
}

#[test]
fn serde_settings_parse() {
    let s = SerdeSettings::parse(&vec![w("as_ref"), Tok::CommaSign, w("try_from_string")]).unwrap();
    assert!(s.has_as_ref_str);
    assert!(matches!(s.deserialize_method, DeserializeMethod::TryFromString));
    let d = SerdeSettings::parse(&vec![]).unwrap();
    assert!(!d.has_as_ref_str);
    assert!(matches!(d.deserialize_method, DeserializeMethod::FromStr));
    let e = SerdeSettings::parse(&vec![w("bogus")]).unwrap_err();
    assert_eq!(e.expected.len(), 3);
    assert_eq!(e.expected[2], "try_from_string");
}

#[test]
fn serialize_output() {
    let out = expand_serialize(&bare_decl(None)).unwrap();
    assert!(out.contains("impl serde::Serialize for TestOne"));
    assert!(out.contains("let string = self.to_string();"));
    let as_ref = expand_serialize(&bare_decl(Some(vec![w("as_ref")]))).unwrap();
    assert!(as_ref.contains("serializer.serialize_str(self.as_ref())"));
    assert!(!as_ref.contains("to_string"));
}

#[test]
fn deserialize_output() {
    let out = expand_deserialize(&bare_decl(None)).unwrap();
    assert!(out.contains("impl<'de> serde::Deserialize<'de> for TestOne"));
    assert!(out.contains("core::str::FromStr>::from_str(value)"));
    assert!(out.contains("deserializer.deserialize_str(VisitorImpl)"));
    let tf = expand_deserialize(&bare_decl(Some(vec![w("try_from_string")]))).unwrap();
    assert!(tf.contains("core::convert::TryFrom<String>>::try_from(value)"));
    assert!(tf.contains("deserializer.deserialize_string(VisitorImpl)"));
}

#[test]
fn serde_grammar_error() {
    assert!(expand_serialize(&bare_decl(Some(vec![w("nope")]))).is_err());
    assert!(expand_deserialize(&bare_decl(Some(vec![Tok::CommaSign]))).is_err());
}

#[test]
fn inner_expanders_agree_with_settings() {
    let s = SerdeSettings { has_as_ref_str: true, deserialize_method: DeserializeMethod::FromStr };
    assert!(expand_inner_serialize(&s, "K").contains("self.as_ref()"));
    assert!(expand_inner_deserialize(&s, "K").contains("type Value = K;"));
}

fn names() -> KeyNames {
    KeyNames {
        names: vec!["A".to_string(), "B".to_string(), "Other".to_string()],
        default_index: Some(2),
    }
}

#[test]
fn codec_round_trip() {
    let n = names();
    // every variant, including the default with an arbitrary payload
    let samples = vec![
        KeyValue { tag: 0, carrier: None },
        KeyValue { tag: 1, carrier: None },
        KeyValue { tag: 2, carrier: Some(CowStr { owned: true, text: "hello".to_string() }) },
    ];
    for k in &samples {
        let wire = n.key_to_string(k);
        let back = n.key_from_string(wire.as_str()).unwrap();
        assert_eq!(back.tag, k.tag);
        match (&back.carrier, &k.carrier) {
            (None, None) => {},
            (Some(x), Some(y)) => assert_eq!(x.text, y.text),
            _ => panic!("carrier shape changed across the round trip"),
        }
    }
}

#[test]
fn codec_parses_names_and_fallback() {
    let n = names();
    assert_eq!(n.key_from_string("B").unwrap().tag, 1);
    let fall = n.key_from_string("unheard-of").unwrap();
    assert_eq!(fall.tag, 2);
    assert_eq!(fall.carrier.unwrap().text, "unheard-of");
    // a default payload that collides with a variant name parses as that
    // variant: the one family of strings the round trip cannot cover
    assert_eq!(n.key_from_string("A").unwrap().tag, 0);
}

#[test]
fn codec_without_default_rejects_unknown() {
    let n = KeyNames {
        names: vec!["A".to_string(), "B".to_string()],
        default_index: None,
    };
    assert!(n.key_from_string("C").is_none());
    assert_eq!(n.key_from_string("A").unwrap().tag, 0);
}
