use jp::error::JpErr;
use jp::query::{load_document, run, run_query};
use jp::value::JsonValue;

#[test]
fn simple_nested_lookup() {
    let out = run("{\"a\": {\"b\": 1}}", "a.b", false, false);
    assert_eq!(out.unwrap(), "1");
}

#[test]
fn missing_path_reports_dotted_form_and_code_four() {
    let out = run("{\"a\": {\"b\": 1}}", "a.c", false, false);
    match out {
        Err(JpErr::InvalidQuery(path)) => {
            assert_eq!(path, "a.c");
            assert_eq!(JpErr::InvalidQuery(path).exit_code(), 4);
        },
        other => panic!("expected an invalid-query failure, got {:?}", other),
    }
}

#[test]
fn empty_input_is_code_five_regardless_of_pattern() {
    match run("", "a.b", false, false) {
        Err(e) => {
            assert!(matches!(e, JpErr::EmptyFileError));
            assert_eq!(e.exit_code(), 5);
        },
        Ok(out) => panic!("expected a failure, got {:?}", out),
    }
    match run("", "", true, true) {
        Err(e) => assert_eq!(e.exit_code(), 5),
        Ok(out) => panic!("expected a failure, got {:?}", out),
    }
}

#[test]
fn malformed_input_is_code_three() {
    match run("{not json", "", false, false) {
        Err(e) => {
            assert!(matches!(e, JpErr::JsonParseError));
            assert_eq!(e.exit_code(), 3);
        },
        Ok(out) => panic!("expected a failure, got {:?}", out),
    }
}

#[test]
fn key_listing_preserves_insertion_order() {
    let out = run("{\"x\":1,\"y\":2}", "", true, false);
    assert_eq!(out.unwrap(), "[\"x\",\"y\"]");
}

#[test]
fn key_listing_order_is_not_alphabetical() {
    let out = run("{\"y\":2,\"x\":1}", "", true, false);
    assert_eq!(out.unwrap(), "[\"y\",\"x\"]");
}

#[test]
fn array_index_navigation() {
    let out = run("[10,20,30]", "1", false, false);
    assert_eq!(out.unwrap(), "20");
}

#[test]
fn empty_pattern_prints_whole_document_compact() {
    let out = run("{\"a\": {\"b\": 1}}", "", false, false);
    assert_eq!(out.unwrap(), "{\"a\":{\"b\":1}}");
}

#[test]
fn empty_pattern_prints_whole_document_pretty() {
    let out = run("{\"a\": 1}", "", false, true);
    assert_eq!(out.unwrap(), "{\n  \"a\": 1\n}");
}

#[test]
fn two_runs_give_byte_identical_output() {
    let first = run("{\"a\":[1,{\"b\":\"c\"}]}", "a.1", true, true).unwrap();
    let second = run("{\"a\":[1,{\"b\":\"c\"}]}", "a.1", true, true).unwrap();
    assert_eq!(first, second);
}

#[test]
fn key_listing_on_non_object_is_code_six() {
    match run("{\"a\": 1}", "a", true, false) {
        Err(JpErr::KeyListingOnNonObject(path)) => {
            assert_eq!(path, "a");
            assert_eq!(JpErr::KeyListingOnNonObject(path).exit_code(), 6);
        },
        other => panic!("expected a key-listing failure, got {:?}", other),
    }
}

#[test]
fn key_listing_on_array_document_is_code_six() {
    match run("[1,2,3]", "", true, false) {
        Err(e) => assert_eq!(e.exit_code(), 6),
        Ok(out) => panic!("expected a failure, got {:?}", out),
    }
}

#[test]
fn mixed_object_and_array_descent() {
    let out = run("{\"a\":[{\"b\":2}]}", "a.0.b", false, false);
    assert_eq!(out.unwrap(), "2");
}

#[test]
fn out_of_range_index_is_a_miss() {
    match run("[10,20,30]", "3", false, false) {
        Err(e) => assert_eq!(e.exit_code(), 4),
        Ok(out) => panic!("expected a failure, got {:?}", out),
    }
}

#[test]
fn leading_zero_index_is_a_miss() {
    match run("[10,20,30]", "01", false, false) {
        Err(JpErr::InvalidQuery(path)) => assert_eq!(path, "01"),
        other => panic!("expected an invalid-query failure, got {:?}", other),
    }
}

#[test]
fn non_numeric_segment_on_array_is_a_miss() {
    match run("[10,20,30]", "x", false, false) {
        Err(e) => assert_eq!(e.exit_code(), 4),
        Ok(out) => panic!("expected a failure, got {:?}", out),
    }
}

#[test]
fn descending_into_a_scalar_is_a_miss() {
    match run("{\"a\": 5}", "a.b", false, false) {
        Err(JpErr::InvalidQuery(path)) => assert_eq!(path, "a.b"),
        other => panic!("expected an invalid-query failure, got {:?}", other),
    }
}

#[test]
fn root_scalar_documents_resolve() {
    assert_eq!(run("true", "", false, false).unwrap(), "true");
    assert_eq!(run("null", "", false, false).unwrap(), "null");
    assert_eq!(run("\"hi\"", "", false, false).unwrap(), "\"hi\"");
    assert_eq!(run("3.5", "", false, false).unwrap(), "3.5");
}

#[test]
fn non_ascii_keys_navigate() {
    let out = run("{\"caf\u{e9}\": {\"\u{3053}\": 9}}", "caf\u{e9}.\u{3053}", false, false);
    assert_eq!(out.unwrap(), "9");
}

#[test]
fn string_values_render_quoted() {
    let out = run("{\"a\": \"text\"}", "a", false, false);
    assert_eq!(out.unwrap(), "\"text\"");
}

#[test]
fn load_document_distinguishes_empty_and_malformed() {
    assert!(matches!(load_document(""), Err(JpErr::EmptyFileError)));
    assert!(matches!(load_document("{oops"), Err(JpErr::JsonParseError)));
    assert!(load_document("[]").is_ok());
}

#[test]
fn run_query_on_a_built_tree() {
    let doc = JsonValue::Obj(vec![(
        "a".to_string(),
        JsonValue::Arr(vec![JsonValue::Num("7".to_string())]),
    )]);
    let out = run_query(&doc, "a.0", false, false);
    assert_eq!(out.unwrap(), "7");
}

#[test]
fn exit_codes_cover_every_failure_kind() {
    assert_eq!(JpErr::FileOpenError("f.json".to_string()).exit_code(), 1);
    assert_eq!(JpErr::FileReadError.exit_code(), 2);
    assert_eq!(JpErr::JsonParseError.exit_code(), 3);
    assert_eq!(JpErr::InvalidQuery("a".to_string()).exit_code(), 4);
    assert_eq!(JpErr::EmptyFileError.exit_code(), 5);
    assert_eq!(JpErr::KeyListingOnNonObject("a".to_string()).exit_code(), 6);
}
