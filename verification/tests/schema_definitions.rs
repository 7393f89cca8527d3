//! Validation against named definitions of one registry document, and the
//! duplicate-key check on JSON text. The registry here holds the three
//! definitions these tests use, written out in full.
use coagent::schema::{parse_json_no_duplicate_keys, SchemaRegistry};

const REGISTRY: &str = r#"{
  "$schema": "https://json-schema.org/draft/2020-12/schema",
  "$defs": {
    "review_result_v1": {
      "type": "object",
      "additionalProperties": false,
      "required": ["schema_version", "task_id", "request_id", "status", "verdict", "summary", "confidence"],
      "properties": {
        "schema_version": { "const": "review_result_v1" },
        "task_id": { "type": "string", "minLength": 1 },
        "request_id": { "type": "string", "minLength": 1 },
        "status": { "enum": ["ok", "error"] },
        "verdict": { "enum": ["pass", "needs_fix", "blocked"] },
        "summary": { "type": "string", "minLength": 1 },
        "confidence": { "type": "number", "minimum": 0, "maximum": 1 }
      }
    },
    "pure_review_result_v1": {
      "type": "object",
      "required": ["verdict", "summary", "findings", "tests_to_run", "risks", "assumptions", "confidence"],
      "properties": {
        "verdict": { "enum": ["pass", "needs_fix", "blocked"] },
        "summary": { "type": "string" },
        "findings": { "type": "array" },
        "tests_to_run": { "type": "array" },
        "risks": { "type": "array" },
        "assumptions": { "type": "array" },
        "confidence": { "type": "number", "minimum": 0, "maximum": 1 }
      }
    },
    "review_diff_input_v1": {
      "type": "object",
      "required": ["schema_version", "task_id", "request_id", "mode", "goal", "repo", "artifacts", "permission_level", "output_schema"],
      "properties": {
        "schema_version": { "const": "review_diff_input_v1" },
        "mode": { "const": "review_diff" },
        "goal": { "type": "string", "minLength": 1 },
        "repo": { "type": "object", "required": ["root"] },
        "artifacts": { "type": "object", "required": ["diff_path"] },
        "permission_level": { "const": "L1_DIFF_REVIEW" },
        "output_schema": { "const": "review_result_v1" }
      }
    }
  }
}"#;

fn registry() -> SchemaRegistry {
    SchemaRegistry::load_from_str("coagent-v1.schema.json", REGISTRY).expect("schema registry loads")
}

fn review_result(schema_version: &str, confidence: &str, extra: &str) -> String {
    format!(
        r#"{{"schema_version":"{schema_version}","task_id":"TASK-schema","request_id":"REQ-schema","status":"ok","verdict":"pass","summary":"No findings.","confidence":{confidence}{extra}}}"#
    )
}

fn valid_review_result() -> String {
    review_result("review_result_v1", "0.91", "")
}

fn review_diff_input(output_schema: &str) -> String {
    format!(
        r#"{{"schema_version":"review_diff_input_v1","task_id":"TASK-schema","request_id":"REQ-schema","mode":"review_diff","goal":"Review the current diff.","repo":{{"root":".","base_branch":"main","working_branch":"codex/v1"}},"artifacts":{{"context_path":".agent/context/review.json","diff_path":".agent/diffs/current.diff"}},"permission_level":"L1_DIFF_REVIEW","output_schema":"{output_schema}"}}"#
    )
}

#[test]
fn validates_review_result_v1_from_root_schema_registry() {
    let result = registry().validate("review_result_v1", &valid_review_result());
    assert!(result.valid, "expected valid payload, got {:?}", result.errors);
}

#[test]
fn validates_review_diff_input_v1_from_root_schema_registry() {
    let result = registry().validate("review_diff_input_v1", &review_diff_input("review_result_v1"));
    assert!(result.valid, "expected valid payload, got {:?}", result.errors);
}

#[test]
fn unknown_expected_schema_fails_closed() {
    let result = registry().validate("unknown_schema_v1", &valid_review_result());

    assert!(!result.valid);
    assert!(
        result
            .errors
            .iter()
            .any(|error| error.message.contains("missing $defs/unknown_schema_v1")),
        "expected missing definition error, got {:?}",
        result.errors
    );
}

#[test]
fn rejects_schema_version_that_does_not_match_expected_schema() {
    let payload = review_result("security_audit_v1", "0.91", "");
    let result = registry().validate("review_result_v1", &payload);

    assert!(!result.valid);
    assert!(result.errors.iter().any(|error| error.path.contains("schema_version")));
}

#[test]
fn rejects_payload_valid_for_different_schema() {
    let result = registry().validate("review_result_v1", &review_diff_input("review_result_v1"));

    assert!(!result.valid);
    assert!(result.errors.iter().any(|error| error.path.contains("schema_version")));
}

#[test]
fn rejects_review_diff_input_output_schema_mismatch() {
    let result = registry().validate("review_diff_input_v1", &review_diff_input("security_audit_v1"));

    assert!(!result.valid);
    assert!(result.errors.iter().any(|error| error.path.contains("output_schema")));
}

#[test]
fn rejects_confidence_outside_allowed_range() {
    let payload = review_result("review_result_v1", "1.1", "");
    let result = registry().validate("review_result_v1", &payload);

    assert!(!result.valid);
    assert!(result.errors.iter().any(|error| error.path.contains("confidence")));
}

#[test]
fn rejects_unexpected_top_level_field_when_schema_disallows_it() {
    let payload = review_result("review_result_v1", "0.91", r#","unexpected":"not allowed""#);
    let result = registry().validate("review_result_v1", &payload);

    assert!(!result.valid);
    assert!(result.errors.iter().any(|error| error.message.contains("unexpected")));
}

#[test]
fn schema_registry_handles_boundary_numeric_values() {
    let registry = registry();
    let pure = |summary: &str, confidence: &str| {
        format!(
            r#"{{"verdict":"pass","summary":"{summary}","findings":[],"tests_to_run":[],"risks":[],"assumptions":[],"confidence":{confidence}}}"#
        )
    };

    let result = registry.validate("pure_review_result_v1", &pure("boundary test", "0.0"));
    assert!(result.valid, "confidence=0.0 should be valid");

    let result = registry.validate("pure_review_result_v1", &pure("max boundary", "1.0"));
    assert!(result.valid, "confidence=1.0 should be valid");

    let result = registry.validate("pure_review_result_v1", &pure("over max", "1.001"));
    assert!(!result.valid, "confidence>1.0 should be invalid");
}

#[test]
fn rejects_duplicate_json_keys_before_schema_validation() {
    let duplicate = r#"{
        "schema_version": "review_result_v1",
        "schema_version": "security_audit_v1",
        "task_id": "TASK-schema",
        "request_id": "REQ-schema",
        "status": "ok",
        "verdict": "pass",
        "summary": "No findings.",
        "confidence": 0.91
    }"#;

    let error = parse_json_no_duplicate_keys(duplicate).expect_err("duplicate key should fail");

    assert!(error.message().contains("duplicate key"));
    assert_eq!(
        error.message(),
        "invalid JSON: duplicate key `schema_version` at line 3 column 24"
    );
}

#[test]
fn malformed_json_returns_schema_error_without_panic() {
    let error = parse_json_no_duplicate_keys(r#"{ "schema_version": "#)
        .expect_err("malformed JSON should fail");

    assert!(error.message().contains("invalid JSON"));
}

#[test]
fn schema_registry_rejects_deeply_nested_duplicate_keys() {
    let payload = r#"{
        "outer": {
            "middle": {
                "inner": 1,
                "inner": 2
            }
        }
    }"#;
    let err = parse_json_no_duplicate_keys(payload).expect_err("duplicate at depth 3");
    assert!(err.message().contains("duplicate"));
}

#[test]
fn schema_registry_rejects_non_utf8_like_garbage() {
    assert!(parse_json_no_duplicate_keys("").is_err());
    assert!(parse_json_no_duplicate_keys("not json at all {{{[").is_err());
    assert!(parse_json_no_duplicate_keys("   \n\t  ").is_err());

    let result = registry().validate("pure_review_result_v1", r#"{"verdict":"pass"}"#);
    assert!(!result.valid, "missing fields should be invalid");
    assert!(result.errors.iter().any(|e| e.message.contains("summary")));
}

#[test]
fn keys_are_compared_per_object_and_after_decoding() {
    // The same key in sibling objects, in arrays and as values is fine.
    assert!(parse_json_no_duplicate_keys(r#"{"a":{"k":1},"b":{"k":2},"c":["a","a"],"d":"a"}"#).is_ok());
    // Braces and quotes inside strings are text, not structure.
    assert!(parse_json_no_duplicate_keys(r#"{"a":"}{\"a\":","b":1}"#).is_ok());
    // An escaped spelling of a key is the same key.
    let error = parse_json_no_duplicate_keys(r#"{"a":1,"\u0061":2}"#).unwrap_err();
    assert_eq!(error.message(), "invalid JSON: duplicate key `a` at line 1 column 15");
    // A repeat after a nested object still counts for the outer object.
    let error = parse_json_no_duplicate_keys(r#"{"x":{"y":1},"z":[{"x":1}],"x":3}"#).unwrap_err();
    assert_eq!(error.message(), "invalid JSON: duplicate key `x` at line 1 column 30");
    assert!(parse_json_no_duplicate_keys("[1, 2, {}]").is_ok());
}

#[test]
fn duplicate_key_is_reported_where_the_parser_stops() {
    // The parser stops at the repeated key, before it sees the missing brace.
    let error = parse_json_no_duplicate_keys(r#"{"a":1,"a":2"#).unwrap_err();
    assert_eq!(error.message(), "invalid JSON: duplicate key `a` at line 1 column 10");
    // Whitespace after the key is read before the position is taken.
    let error = parse_json_no_duplicate_keys(r#"{"a":1,"a"   :2}"#).unwrap_err();
    assert_eq!(error.message(), "invalid JSON: duplicate key `a` at line 1 column 13");
    // Columns count UTF-8 bytes.
    let error = parse_json_no_duplicate_keys("{\"\u{e9}\":1,\"\u{e9}\":2}").unwrap_err();
    assert_eq!(error.message(), "invalid JSON: duplicate key `\u{e9}` at line 1 column 12");
    // A syntax error met before the repeated key is what gets reported.
    let error = parse_json_no_duplicate_keys(r#"{"a":1,,"a":2}"#).unwrap_err();
    assert!(error.message().starts_with("invalid JSON: "));
    assert!(!error.message().contains("duplicate key"));
}
