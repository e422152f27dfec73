use environmentd::base64url::decode;
use environmentd::string_map::{KeyValueArg, StringMap};
use environmentd::text::decimal_text;

#[test]
fn numbers_are_rendered_in_decimal() {
    for n in [0, 9, 10, 99, 100, 6875, u64::MAX] {
        assert_eq!(decimal_text(n), n.to_string());
    }
}

#[test]
fn base64_is_decoded_with_and_without_padding() {
    assert_eq!(decode(b""), Some(vec![]));
    assert_eq!(decode(b"-__-AA=="), Some(vec![0xfb, 0xff, 0xfe, 0x00]));
    assert_eq!(decode(b"-__-AA"), Some(vec![0xfb, 0xff, 0xfe, 0x00]));
    assert_eq!(decode(b"-__-"), Some(vec![0xfb, 0xff, 0xfe]));
    assert_eq!(decode(b"YWI="), Some(b"ab".to_vec()));
    assert_eq!(decode(b"YWI"), Some(b"ab".to_vec()));
}

#[test]
fn what_is_not_base64_is_rejected() {
    for text in ["A", "A=", "====", "YW=", "YWJj=", "+//+", "YW Jj", "YWJ", "YB"] {
        assert_eq!(decode(text.as_bytes()), None, "{}", text);
    }
}

#[test]
fn last_argument_for_a_key_holds() {
    let arg = |key: &str, value: &str| KeyValueArg {
        key: key.to_string(),
        value: value.to_string(),
    };
    let map = StringMap::from_args(vec![arg("a", "1"), arg("b", "2"), arg("a", "3")]);
    assert_eq!(map.get(&"a".to_string()), Some(&"3".to_string()));
    assert_eq!(map.get(&"b".to_string()), Some(&"2".to_string()));
    assert_eq!(map.get(&"c".to_string()), None);
    let mut entries = map.into_entries();
    entries.sort();
    assert_eq!(
        entries,
        vec![
            ("a".to_string(), "3".to_string()),
            ("b".to_string(), "2".to_string())
        ]
    );
}

#[test]
fn inserting_replaces_the_value() {
    let mut map = StringMap::new();
    map.insert("k".to_string(), "old".to_string());
    map.insert("k".to_string(), "new".to_string());
    assert_eq!(map.get(&"k".to_string()), Some(&"new".to_string()));
    assert_eq!(map.into_entries().len(), 1);
}
