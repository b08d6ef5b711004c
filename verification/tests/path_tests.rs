use jp::nav::{navigate, object_keys, parse_index};
use jp::path::{normalize, reconstruct, split_segments};
use jp::value::JsonValue;

#[test]
fn normalize_prefixes_and_replaces_dots() {
    assert_eq!(normalize("a.b.c"), "/a/b/c");
    assert_eq!(normalize("a"), "/a");
    assert_eq!(normalize(""), "/");
    assert_eq!(normalize("a..b"), "/a//b");
}

#[test]
fn reconstruct_strips_and_replaces_slashes() {
    assert_eq!(reconstruct("/a/b/c"), "a.b.c");
    assert_eq!(reconstruct("/a"), "a");
    assert_eq!(reconstruct("/"), "");
    assert_eq!(reconstruct(""), "");
}

#[test]
fn reconstruct_inverts_normalize() {
    for pattern in ["", "a", "a.b.c", "key.0.deep"] {
        assert_eq!(reconstruct(&normalize(pattern)), pattern);
    }
}

#[test]
fn normalize_inverts_reconstruct_on_pointers() {
    for pointer in ["/", "/a", "/a/b/c", "/key/0/deep"] {
        assert_eq!(normalize(&reconstruct(pointer)), pointer);
    }
}

#[test]
fn split_keeps_only_nonempty_segments() {
    assert_eq!(split_segments("/a/b"), vec!["a".to_string(), "b".to_string()]);
    assert_eq!(split_segments("/a//b"), vec!["a".to_string(), "b".to_string()]);
    assert_eq!(split_segments("/"), Vec::<String>::new());
    assert_eq!(split_segments("//"), Vec::<String>::new());
    assert_eq!(split_segments("/a/"), vec!["a".to_string()]);
}

#[test]
fn parse_index_accepts_plain_decimals() {
    assert_eq!(parse_index("0"), Some(0));
    assert_eq!(parse_index("12"), Some(12));
    assert_eq!(parse_index("9007"), Some(9007));
}

#[test]
fn parse_index_rejects_malformed_segments() {
    assert_eq!(parse_index(""), None);
    assert_eq!(parse_index("01"), None);
    assert_eq!(parse_index("1x"), None);
    assert_eq!(parse_index("x"), None);
    assert_eq!(parse_index("-1"), None);
    assert_eq!(parse_index("99999999999999999999999999999999"), None);
}

#[test]
fn navigate_descends_objects_and_arrays() {
    let doc = JsonValue::Obj(vec![(
        "a".to_string(),
        JsonValue::Arr(vec![
            JsonValue::Num("10".to_string()),
            JsonValue::Obj(vec![("b".to_string(), JsonValue::Bool(true))]),
        ]),
    )]);

    let segs = vec!["a".to_string(), "1".to_string(), "b".to_string()];
    match navigate(&doc, &segs) {
        Some(JsonValue::Bool(b)) => assert!(*b),
        other => panic!("expected the boolean leaf, got {:?}", other),
    }

    let root = navigate(&doc, &Vec::new());
    assert!(matches!(root, Some(JsonValue::Obj(_))));

    assert!(navigate(&doc, &vec!["a".to_string(), "2".to_string()]).is_none());
    assert!(navigate(&doc, &vec!["z".to_string()]).is_none());
}

#[test]
fn object_keys_lists_keys_in_order() {
    let doc = JsonValue::Obj(vec![
        ("y".to_string(), JsonValue::Null),
        ("x".to_string(), JsonValue::Null),
    ]);
    match object_keys(&doc) {
        Some(JsonValue::Arr(items)) => {
            assert_eq!(items.len(), 2);
            assert!(matches!(&items[0], JsonValue::Str(s) if s == "y"));
            assert!(matches!(&items[1], JsonValue::Str(s) if s == "x"));
        },
        other => panic!("expected a key array, got {:?}", other),
    }
}

#[test]
fn object_keys_refuses_non_objects() {
    assert!(object_keys(&JsonValue::Null).is_none());
    assert!(object_keys(&JsonValue::Arr(Vec::new())).is_none());
    assert!(object_keys(&JsonValue::Str("s".to_string())).is_none());
}
