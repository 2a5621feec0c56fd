use ajv_core::compile::CompileError;
use ajv_core::registry::Ajv;
use ajv_core::validator::NapiValidator;
use serde_json::Value;

fn v(text: &str) -> Value {
    serde_json::from_str(text).unwrap()
}

fn compile(schema: &str) -> NapiValidator {
    Ajv::new().compile(v(schema), None).unwrap()
}

#[test]
fn is_valid_and_validate_agree() {
    let validator = compile(r#"{"type": "integer", "minimum": 3}"#);
    for text in ["1", "3", "7", "\"x\"", "null", "[3]", "{\"a\": 3}"] {
        let value = v(text);
        let fast = validator.is_valid(&value);
        let report = validator.validate(value);
        assert_eq!(fast, report.valid);
        assert_eq!(report.valid, report.errors.is_none());
    }
}

#[test]
fn string_and_buffer_paths_agree_with_the_value_path() {
    let validator = compile(r#"{"type": "object", "required": ["a"]}"#);
    for text in ["{\"a\": 1}", "{}", "[]", "3"] {
        let by_value = validator.is_valid(&v(text));
        let by_string = validator.is_valid_string(text.to_string()).unwrap();
        let by_buffer = validator.is_valid_buffer(text.as_bytes().to_vec()).unwrap();
        let report_string = validator.validate_string(text.to_string()).unwrap();
        let report_buffer = validator.validate_buffer(text.as_bytes().to_vec()).unwrap();
        assert_eq!(by_string, by_value);
        assert_eq!(by_buffer, by_value);
        assert_eq!(report_string.valid, by_value);
        assert_eq!(report_buffer.valid, by_value);
    }
}

#[test]
fn malformed_text_is_rejected_before_validation() {
    let validator = compile(r#"{"type": "integer"}"#);
    assert!(validator.validate_string("{not json".to_string()).is_err());
    assert!(validator.is_valid_string("{not json".to_string()).is_err());
    assert!(validator.validate_buffer(b"{not json".to_vec()).is_err());
    assert!(validator.is_valid_buffer(b"[1,".to_vec()).is_err());
}

#[test]
fn invalid_instance_reports_at_least_one_error() {
    let validator = compile(r#"{"type": "string"}"#);
    let report = validator.validate(v("5"));
    assert!(!report.valid);
    let errors = report.errors.unwrap();
    assert!(!errors.is_empty());
    assert!(!errors[0].message.is_empty());
    assert_eq!(errors[0].instance_path, "");
    assert_eq!(errors[0].schema_path, "/type");
}

#[test]
fn all_of_is_a_conjunction() {
    let both = compile(r#"{"allOf": [{"type": "integer"}, {"minimum": 5}]}"#);
    assert!(both.is_valid(&v("6")));
    assert!(!both.is_valid(&v("4")));
    assert!(!both.is_valid(&v("\"x\"")));
    let first = compile(r#"{"type": "integer"}"#);
    let second = compile(r#"{"minimum": 5}"#);
    for text in ["4", "5", "6", "\"x\"", "4.5", "null"] {
        let value = v(text);
        assert_eq!(
            both.is_valid(&value),
            first.is_valid(&value) && second.is_valid(&value),
        );
    }
}

#[test]
fn all_of_failure_names_the_failing_branch() {
    let validator = compile(r#"{"allOf": [{"type": "integer"}, {"minimum": 5}]}"#);
    let report = validator.validate(v("4"));
    assert!(!report.valid);
    let errors = report.errors.unwrap();
    assert!(errors.iter().any(|e| e.schema_path.ends_with("/allOf/1/minimum")));
}

#[test]
fn one_of_requires_exactly_one_branch() {
    let validator = compile(r#"{"oneOf": [{"type": "string"}, {"type": "number"}]}"#);
    assert!(validator.is_valid(&v("\"x\"")));
    assert!(validator.is_valid(&v("5")));
    assert!(!validator.is_valid(&v("true")));
    let overlapping = compile(r#"{"oneOf": [{"type": "integer"}, {"minimum": 0}]}"#);
    assert!(overlapping.is_valid(&v("-3")));
    assert!(overlapping.is_valid(&v("0.5")));
    assert!(!overlapping.is_valid(&v("5")));
    assert!(!overlapping.is_valid(&v("-0.5")));
}

#[test]
fn error_paths_point_at_the_offending_value() {
    let validator = compile(
        r#"{"properties": {"items": {"items": {"type": "integer"}}}}"#,
    );
    let report = validator.validate(v(r#"{"items": [1, "two"]}"#));
    assert!(!report.valid);
    let errors = report.errors.unwrap();
    assert!(errors.iter().any(|e| e.instance_path == "/items/1"));
}

#[test]
fn cyclic_schema_compiles_and_validates_nested_structures() {
    let ajv = Ajv::new();
    let schema = v(r##"{"$id": "#a", "properties": {"self": {"$ref": "#a"}}}"##);
    let validator = ajv
        .compile(schema, Some("http://json-schema.org/draft-07/schema#".to_string()))
        .unwrap();
    assert!(validator.is_valid(&v(r#"{"self": {"self": {}}}"#)));
    assert!(validator.is_valid(&v(r#"{"self": {"self": {"self": {"self": {}}}}}"#)));
}

#[test]
fn reference_to_a_registered_schema_is_resolved_at_compile_time() {
    let mut ajv = Ajv::new();
    ajv.add_schema(
        v(r#"{"type": "integer"}"#),
        Some("https://example.com/int".to_string()),
    )
    .unwrap();
    let validator = ajv
        .compile(v(r#"{"$ref": "https://example.com/int"}"#), None)
        .unwrap();
    assert!(validator.is_valid(&v("5")));
    assert!(!validator.is_valid(&v("\"x\"")));
}

#[test]
fn reference_chains_across_registered_schemas_are_followed() {
    let mut ajv = Ajv::new();
    ajv.add_schema(
        v(r#"{"$id": "https://example.com/b", "type": "integer"}"#),
        None,
    )
    .unwrap();
    ajv.add_schema(
        v(r#"{"$id": "https://example.com/a", "$ref": "https://example.com/b"}"#),
        None,
    )
    .unwrap();
    let validator = ajv
        .compile(v(r#"{"$ref": "https://example.com/a"}"#), None)
        .unwrap();
    assert!(validator.is_valid(&v("7")));
    assert!(!validator.is_valid(&v("[]")));
}

#[test]
fn compile_applies_the_lenient_trailing_slash_resolution() {
    let mut ajv = Ajv::new();
    ajv.add_schema(
        v(r#"{"type": "integer"}"#),
        Some("https://example.com/int".to_string()),
    )
    .unwrap();
    let validator = ajv
        .compile(v(r#"{"$ref": "https://example.com/int/"}"#), None)
        .unwrap();
    assert!(validator.is_valid(&v("5")));
    assert!(!validator.is_valid(&v("true")));
}

#[test]
fn compile_finds_a_registration_that_carries_the_trailing_slash() {
    let mut ajv = Ajv::new();
    ajv.add_schema(
        v(r#"{"type": "integer"}"#),
        Some("https://example.com/int/".to_string()),
    )
    .unwrap();
    let validator = ajv
        .compile(v(r#"{"$ref": "https://example.com/int"}"#), None)
        .unwrap();
    assert!(validator.is_valid(&v("5")));
    assert!(!validator.is_valid(&v("\"x\"")));
}

#[test]
fn unresolvable_reference_fails_compilation_with_the_uri() {
    let ajv = Ajv::new();
    let err = ajv
        .compile(v(r#"{"$ref": "https://example.com/absent"}"#), None)
        .err().unwrap();
    match err {
        CompileError::SchemaNotFound { uri } => {
            assert!(uri.contains("example.com/absent"));
        },
        CompileError::InvalidSchema { reason } => {
            panic!("expected a missing-schema failure, got: {}", reason);
        },
    }
}

#[test]
fn structurally_invalid_schema_fails_compilation_with_a_cause() {
    let ajv = Ajv::new();
    let err = ajv.compile(v(r#"{"type": 5}"#), None).err().unwrap();
    match err {
        CompileError::InvalidSchema { reason } => assert!(!reason.is_empty()),
        CompileError::SchemaNotFound { .. } => {
            panic!("expected a structural failure, not a missing schema");
        },
    }
}

#[test]
fn format_validation_is_enforced() {
    let validator = compile(r#"{"type": "string", "format": "date"}"#);
    assert!(validator.is_valid(&v("\"2024-02-29\"")));
    assert!(!validator.is_valid(&v("\"not-a-date\"")));
}

#[test]
fn registry_mutation_after_compiling_does_not_change_the_validator() {
    let mut ajv = Ajv::new();
    ajv.add_schema(
        v(r#"{"type": "integer"}"#),
        Some("https://example.com/s".to_string()),
    )
    .unwrap();
    let validator = ajv
        .compile(v(r#"{"$ref": "https://example.com/s"}"#), None)
        .unwrap();
    ajv.add_schema(
        v(r#"{"type": "string"}"#),
        Some("https://example.com/s".to_string()),
    )
    .unwrap();
    assert!(validator.is_valid(&v("5")));
    assert!(!validator.is_valid(&v("\"x\"")));
}
