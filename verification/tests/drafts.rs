use ajv_core::draft::{select_draft, DraftVersion};
use ajv_core::registry::Ajv;
use serde_json::Value;

fn v(text: &str) -> Value {
    serde_json::from_str(text).unwrap()
}

#[test]
fn each_canonical_hint_selects_its_draft() {
    let cases = [
        ("http://json-schema.org/draft-04/schema#", DraftVersion::Draft4),
        ("http://json-schema.org/draft-06/schema#", DraftVersion::Draft6),
        ("http://json-schema.org/draft-07/schema#", DraftVersion::Draft7),
        ("https://json-schema.org/draft/2019-09/schema", DraftVersion::Draft201909),
        ("https://json-schema.org/draft/2020-12/schema", DraftVersion::Draft202012),
    ];
    for (uri, expected) in cases {
        assert_eq!(select_draft(&Some(uri.to_string())), Some(expected));
    }
}

#[test]
fn unrecognized_or_absent_hints_select_nothing() {
    assert_eq!(select_draft(&None), None);
    assert_eq!(select_draft(&Some("draft-07".to_string())), None);
    assert_eq!(
        select_draft(&Some("http://json-schema.org/draft-07/schema".to_string())),
        None,
    );
}

#[test]
fn unrecognized_hint_does_not_abort_compilation() {
    let ajv = Ajv::new();
    let validator = ajv
        .compile(v(r#"{"type": "integer"}"#), Some("no-such-draft".to_string()))
        .unwrap();
    assert!(validator.is_valid(&v("3")));
    assert!(!validator.is_valid(&v("\"x\"")));
}

#[test]
fn draft4_exclusive_minimum_is_a_boolean_modifier() {
    let ajv = Ajv::new();
    let validator = ajv
        .compile(
            v(r#"{"minimum": 5, "exclusiveMinimum": true}"#),
            Some("http://json-schema.org/draft-04/schema#".to_string()),
        )
        .unwrap();
    assert!(!validator.is_valid(&v("5")));
    assert!(validator.is_valid(&v("6")));
}

#[test]
fn draft202012_exclusive_minimum_is_a_numeric_keyword() {
    let ajv = Ajv::new();
    let validator = ajv
        .compile(
            v(r#"{"exclusiveMinimum": 5}"#),
            Some("https://json-schema.org/draft/2020-12/schema".to_string()),
        )
        .unwrap();
    assert!(!validator.is_valid(&v("5")));
    assert!(validator.is_valid(&v("5.5")));
    assert!(validator.is_valid(&v("6")));
}

#[test]
fn the_same_schema_text_follows_the_pinned_draft() {
    let schema_text = r##"{
        "$ref": "#/definitions/int",
        "maximum": 3,
        "definitions": {"int": {"type": "integer"}}
    }"##;
    let ajv = Ajv::new();
    let draft7 = ajv
        .compile(
            v(schema_text),
            Some("http://json-schema.org/draft-07/schema#".to_string()),
        )
        .unwrap();
    let draft202012 = ajv
        .compile(
            v(schema_text),
            Some("https://json-schema.org/draft/2020-12/schema".to_string()),
        )
        .unwrap();
    assert!(draft7.is_valid(&v("2")));
    assert!(draft202012.is_valid(&v("2")));
    assert!(draft7.is_valid(&v("5")));
    assert!(!draft202012.is_valid(&v("5")));
}
