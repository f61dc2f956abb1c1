use enum_helper::{CowStr, HasKeyEnum, KeyValue, LookupByKey, TaggedValue};

fn tv(tag: usize, carrier: Option<&str>, payload: &[&str]) -> TaggedValue {
    TaggedValue {
        tag,
        carrier: carrier.map(|s| s.to_string()),
        payload: payload.iter().map(|s| s.to_string()).collect(),
    }
}

fn key_equal(a: &KeyValue, b: &KeyValue) -> bool {
    a.tag == b.tag
        && match (&a.carrier, &b.carrier) {
            (None, None) => true,
            (Some(x), Some(y)) => x.text == y.text,
            _ => false,
        }
}

#[test]
fn general_test_test() {
    let values: Vec<TaggedValue> = vec![
        tv(0, None, &["A-data"]),
        tv(1, None, &[]),
        tv(2, None, &["a", "1"]),
        tv(3, Some("anything"), &[]),
    ];
    let keys: Vec<KeyValue> = values.iter().map(|v| v.get_key()).collect();
    for key in &keys {
        let option = values.get_by_key(key);
        assert!(option.is_some());
        println!("{:?}", option.unwrap());
    }
}

#[test]
fn key_erases_payload() {
    let a = tv(7, None, &["left", "payload"]);
    let b = tv(7, None, &["entirely", "different", "payload"]);
    assert!(key_equal(&a.get_key(), &b.get_key()));
    assert!(a.key_eq(&b.get_key()));
    let c = tv(8, None, &["left", "payload"]);
    assert!(!key_equal(&a.get_key(), &c.get_key()));
}

#[test]
fn default_key_carries_value() {
    let v = tv(3, Some("x"), &[]);
    let key_x = KeyValue { tag: 3, carrier: Some(CowStr { owned: true, text: "x".to_string() }) };
    let key_y = KeyValue { tag: 3, carrier: Some(CowStr { owned: true, text: "y".to_string() }) };
    assert!(key_equal(&v.get_key(), &key_x));
    assert!(v.key_eq(&key_x));
    assert!(!key_equal(&v.get_key(), &key_y));
    assert!(!v.key_eq(&key_y));
}

#[test]
fn cow_upgrade_idempotent() {
    let borrowed = KeyValue {
        tag: 3,
        carrier: Some(CowStr { owned: false, text: "value".to_string() }),
    };
    let once = borrowed.to_owned();
    let twice = once.to_owned();
    assert!(key_equal(&once, &twice));
    assert!(key_equal(&once, &borrowed));
    assert!(once.carrier.as_ref().unwrap().owned);
    assert!(twice.carrier.as_ref().unwrap().owned);
    // on a key without a carrier the upgrade changes nothing either
    let plain = KeyValue { tag: 1, carrier: None };
    assert!(key_equal(&plain.to_owned(), &plain));
}

#[test]
fn lookup_all_by_key_in_order() {
    let values: Vec<TaggedValue> = vec![
        tv(0, None, &["first-a"]),
        tv(1, None, &["first-b"]),
        tv(1, None, &["second-b"]),
    ];
    let key_b = values[1].get_key();
    let all = values.get_all_by_key(&key_b);
    assert_eq!(all.len(), 2);
    assert_eq!(all[0].payload[0], "first-b");
    assert_eq!(all[1].payload[0], "second-b");
    let first = values.get_by_key(&key_b).unwrap();
    assert_eq!(first.payload[0], "first-b");
}

#[test]
fn lookup_absent_key() {
    let values: Vec<TaggedValue> = vec![tv(0, None, &[]), tv(1, None, &[])];
    let key_c = KeyValue { tag: 2, carrier: None };
    assert!(!values.has_key(&key_c));
    assert!(values.get_by_key(&key_c).is_none());
    assert!(values.get_all_by_key(&key_c).is_empty());
    assert!(values.has_key(&KeyValue { tag: 1, carrier: None }));
}
