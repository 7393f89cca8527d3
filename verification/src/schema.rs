//! The schema registry: named JSON Schema definitions under `$defs`, a
//! validation of a payload against one of them, and the validation
//! result as the JSON payload the runtime records.
use vstd::prelude::*;

use crate::json::{json_quote, quote};
use crate::duplicate_keys::{
    first_duplicate, first_duplicate_end, first_duplicate_key, last_line_start,
    lemma_last_line_start_bounds, line_and_start, newline_count, skip_whitespace, skip_ws,
};
use crate::text::{concat2, concat3, nat_digits, owned, strings_contain, strings_view, usize_string};

verus! {

/// One violation at a JSON pointer path.
#[derive(Debug, Clone, PartialEq, Eq)]
pub struct SchemaValidationError {
    pub path: String,
    pub message: String,
}

/// The outcome of validating a payload against one schema.
#[derive(Debug, Clone, PartialEq, Eq)]
pub struct SchemaValidationResult {
    pub expected_schema: String,
    pub valid: bool,
    pub errors: Vec<SchemaValidationError>,
}

/// Errors as path and message text.
pub open spec fn errors_view(errors: Seq<SchemaValidationError>) -> Seq<(Seq<char>, Seq<char>)> {
    errors.map_values(|e: SchemaValidationError| (e.path@, e.message@))
}

/// One error as a JSON object, keys sorted.
pub open spec fn error_object(e: (Seq<char>, Seq<char>)) -> Seq<char> {
    "{\"message\":"@ + json_quote(e.1) + ",\"path\":"@ + json_quote(e.0) + "}"@
}

/// Error objects joined with commas.
pub open spec fn error_objects(errors: Seq<(Seq<char>, Seq<char>)>) -> Seq<char>
    decreases errors.len(),
{
    if errors.len() == 0 {
        Seq::empty()
    } else if errors.len() == 1 {
        error_object(errors[0])
    } else {
        error_objects(errors.drop_last()) + ","@ + error_object(errors.last())
    }
}

/// The recorded payload of a validation result, keys in sorted order as
/// the JSON writer emits an object; `request_id` only when given.
pub open spec fn validation_payload(
    expected_schema: Seq<char>,
    valid: bool,
    errors: Seq<(Seq<char>, Seq<char>)>,
    task_id: Seq<char>,
    request_id: Option<Seq<char>>,
) -> Seq<char> {
    "{\"errors\":["@ + error_objects(errors) + "],\"expected_schema\":"@ + json_quote(
        expected_schema,
    ) + match request_id {
        Some(r) => ",\"request_id\":"@ + json_quote(r),
        None => Seq::empty(),
    } + ",\"schema_version\":\"schema_validation_result_v1\",\"task_id\":"@ + json_quote(task_id)
        + ",\"valid\":"@ + if valid {
        "true"@
    } else {
        "false"@
    } + "}"@
}

/// The errors as JSON objects joined with commas; see `error_objects`.
pub(crate) fn write_error_objects(errors: &Vec<SchemaValidationError>) -> (r: String)
    ensures
        r@ == error_objects(errors_view(errors@)),
{
    let ghost views = errors_view(errors@);
    let mut out = String::new();
    let mut i: usize = 0;
    while i < errors.len()
        invariant
            i <= errors.len(),
            views == errors_view(errors@),
            out@ == error_objects(views.subrange(0, i as int)),
        decreases errors.len() - i,
    {
        proof {
            assert(views.subrange(0, i + 1).drop_last() =~= views.subrange(0, i as int));
        }
        if i > 0 {
            out.append(",");
        }
        let e = &errors[i];
        out.append("{\"message\":");
        out.append(quote(e.message.as_str()).as_str());
        out.append(",\"path\":");
        out.append(quote(e.path.as_str()).as_str());
        out.append("}");
        proof {
            assert(views[i as int] == (e.path@, e.message@));
            assert(out@ =~= error_objects(views.subrange(0, i + 1)));
        }
        i = i + 1;
    }
    assert(views.subrange(0, errors.len() as int) =~= views);
    out
}

impl SchemaValidationResult {
    /// The JSON payload recording this result for `task_id`.
    pub fn to_payload(&self, task_id: &str, request_id: Option<&str>) -> (r: String)
        ensures
            r@ == validation_payload(
                self.expected_schema@,
                self.valid,
                errors_view(self.errors@),
                task_id@,
                match request_id {
                    Some(x) => Some(x@),
                    None => None,
                },
            ),
    {
        let mut out = owned("{\"errors\":[");
        out.append(write_error_objects(&self.errors).as_str());
        out.append("],\"expected_schema\":");
        out.append(quote(self.expected_schema.as_str()).as_str());
        match request_id {
            Some(r) => {
                out.append(",\"request_id\":");
                out.append(quote(r).as_str());
            },
            None => {},
        }
        out.append(",\"schema_version\":\"schema_validation_result_v1\",\"task_id\":");
        out.append(quote(task_id).as_str());
        out.append(",\"valid\":");
        if self.valid {
            out.append("true");
        } else {
            out.append("false");
        }
        out.append("}");
        out
    }
}

/// Failures of the schema registry.
#[derive(Debug, Clone)]
pub enum SchemaError {
    ReadSchema { path: String, detail: String },
    ParseSchema { path: String, detail: String },
    MissingDefinition(String),
    InvalidJson(String),
}

pub open spec fn schema_error_message(e: SchemaError) -> Seq<char> {
    match e {
        SchemaError::ReadSchema { path, detail } => "failed to read schema registry "@ + path@ + ": "@
            + detail@,
        SchemaError::ParseSchema { path, detail } => "invalid schema registry JSON in "@ + path@
            + ": "@ + detail@,
        SchemaError::MissingDefinition(name) => "schema registry is missing $defs/"@ + name@,
        SchemaError::InvalidJson(detail) => "invalid JSON: "@ + detail@,
    }
}

impl SchemaError {
    /// The human-readable message.
    pub fn message(&self) -> (r: String)
        ensures
            r@ == schema_error_message(*self),
    {
        match self {
            SchemaError::ReadSchema { path, detail } => {
                let mut m = concat2("failed to read schema registry ", path.as_str());
                m.append(": ");
                m.append(detail.as_str());
                m
            },
            SchemaError::ParseSchema { path, detail } => {
                let mut m = concat2("invalid schema registry JSON in ", path.as_str());
                m.append(": ");
                m.append(detail.as_str());
                m
            },
            SchemaError::MissingDefinition(name) => concat2(
                "schema registry is missing $defs/",
                name.as_str(),
            ),
            SchemaError::InvalidJson(detail) => concat2("invalid JSON: ", detail.as_str()),
        }
    }
}

/// What `serde_json` reports when `text` is no JSON document; `None` when it is one.
pub uninterp spec fn json_parse_failure(text: Seq<char>) -> Option<Seq<char>>;

/// Parses `text` with `serde_json`, giving the parser's message on failure.
#[verifier::external_body]
fn parse_failure(text: &str) -> (r: Option<String>)
    ensures
        match r {
            Some(m) => json_parse_failure(text@) == Some(m@),
            None => json_parse_failure(text@) is None,
        },
{
    match serde_json::from_str::<serde_json::Value>(text) {
        Ok(_) => None,
        Err(e) => Some(e.to_string()),
    }
}

/// Whether `serde_json`, reading `text` as one JSON value, runs out of
/// input before meeting any other error: `text` is the valid beginning of
/// a longer document.
pub uninterp spec fn json_text_open(text: Seq<char>) -> bool;

/// Parses `text` with `serde_json` and says whether the only error is the
/// end of the input.
#[verifier::external_body]
fn ends_before_error(text: &str) -> (r: bool)
    ensures
        r == json_text_open(text@),
{
    match serde_json::from_str::<serde_json::Value>(text) {
        Ok(_) => false,
        Err(e) => e.is_eof(),
    }
}

/// `str::len`: the length of `s` in UTF-8 bytes.
#[verifier::external_body]
fn utf8_len(s: &str) -> (r: usize)
    ensures
        r == vstd::utf8::encode_utf8(s@).len(),
{
    s.len()
}

/// The line (from 1) and the column (in bytes from the line's start) that
/// the parser reports for a repeated key ending at `end`: the position of
/// the first character after the key and the whitespace that follows it.
pub open spec fn duplicate_position(text: Seq<char>, end: int) -> (nat, nat) {
    let q = skip_whitespace(text, end);
    let before = text.subrange(0, q);
    (
        1 + newline_count(before),
        vstd::utf8::encode_utf8(text.subrange(last_line_start(before), q)).len(),
    )
}

/// The message for a key that an object repeats, with its position.
pub open spec fn duplicate_key_message(text: Seq<char>, key: Seq<char>, end: int) -> Seq<char> {
    let (line, column) = duplicate_position(text, end);
    "duplicate key `"@ + key + "` at line "@ + nat_digits(line) + " column "@ + nat_digits(column)
}

/// A repeated key is what stops the parse: some object repeats a key, and
/// the text up to that key is the valid beginning of a document.
pub open spec fn stops_at_duplicate(text: Seq<char>) -> bool {
    first_duplicate_key(text) is Some && json_text_open(text.subrange(0, first_duplicate_end(text)))
}

/// Reads `input` as one JSON document in which no object repeats a key,
/// stopping at the first problem in reading order: a key repeated within
/// its object (reported with its position), or any other parse error
/// (reported with the parser's message). A string slice is shorter than
/// `usize::MAX` characters, since it fits in memory.
pub fn parse_json_no_duplicate_keys(input: &str) -> (r: Result<(), SchemaError>)
    requires
        input@.len() < usize::MAX,
    ensures
        if stops_at_duplicate(input@) {
            r matches Err(SchemaError::InvalidJson(d)) && d@ == duplicate_key_message(
                input@,
                first_duplicate_key(input@)->0,
                first_duplicate_end(input@),
            )
        } else {
            match json_parse_failure(input@) {
                Some(m) => r matches Err(SchemaError::InvalidJson(d)) && d@ == m,
                None => r is Ok,
            }
        },
{
    let (duplicate, end) = first_duplicate(input);
    match duplicate {
        Some(k) => {
            if ends_before_error(input.substring_char(0, end)) {
                let q = skip_ws(input, end);
                let (line, start) = line_and_start(input, q);
                proof {
                    lemma_last_line_start_bounds(input@.subrange(0, q as int));
                }
                let column = utf8_len(input.substring_char(start, q));
                let mut m = concat3("duplicate key `", k.as_str(), "` at line ");
                m.append(usize_string(line).as_str());
                m.append(" column ");
                m.append(usize_string(column).as_str());
                return Err(SchemaError::InvalidJson(m));
            }
        },
        None => {},
    }
    match parse_failure(input) {
        Some(m) => Err(SchemaError::InvalidJson(m)),
        None => Ok(()),
    }
}

/// The keys of the object member `key` of the JSON object in `text`, in
/// the order `serde_json` walks its map; `None` when there is no such
/// object member.
pub uninterp spec fn json_object_keys(text: Seq<char>, key: Seq<char>) -> Option<Seq<Seq<char>>>;

/// Reads the keys of object member `key` with `serde_json`.
#[verifier::external_body]
fn object_member_keys(text: &str, key: &str) -> (r: Option<Vec<String>>)
    ensures
        match r {
            Some(keys) => json_object_keys(text@, key@) == Some(strings_view(keys@)),
            None => json_object_keys(text@, key@) is None,
        },
{
    match serde_json::from_str::<serde_json::Value>(text) {
        Ok(value) => value.get(key).and_then(|v| v.as_object()).map(
            |object| object.keys().cloned().collect(),
        ),
        Err(_) => None,
    }
}

/// The compact JSON text `serde_json` writes for member `key` of the JSON
/// object in `text`; `None` without such a member.
pub uninterp spec fn json_member_text(text: Seq<char>, key: Seq<char>) -> Option<Seq<char>>;

/// Reads member `key` with `serde_json` and writes it back as compact text.
#[verifier::external_body]
fn member_text(text: &str, key: &str) -> (r: Option<String>)
    ensures
        match r {
            Some(m) => json_member_text(text@, key@) == Some(m@),
            None => json_member_text(text@, key@) is None,
        },
{
    match serde_json::from_str::<serde_json::Value>(text) {
        Ok(value) => value.get(key).map(|v| v.to_string()),
        Err(_) => None,
    }
}

/// The outcome of checking a payload against a schema document.
#[derive(Debug, Clone)]
pub enum SchemaCheck {
    /// The violations, each with its instance path and message.
    Errors(Vec<SchemaValidationError>),
    /// The schema document does not compile; the compiler's message.
    InvalidSchema(String),
    /// The payload text is no JSON document; the parser's message.
    InvalidPayload(String),
}

pub enum SchemaCheckView {
    Errors(Seq<(Seq<char>, Seq<char>)>),
    InvalidSchema(Seq<char>),
    InvalidPayload(Seq<char>),
}

impl View for SchemaCheck {
    type V = SchemaCheckView;

    open spec fn view(&self) -> SchemaCheckView {
        match self {
            SchemaCheck::Errors(errors) => SchemaCheckView::Errors(errors_view(errors@)),
            SchemaCheck::InvalidSchema(m) => SchemaCheckView::InvalidSchema(m@),
            SchemaCheck::InvalidPayload(m) => SchemaCheckView::InvalidPayload(m@),
        }
    }
}

/// What `jsonschema` reports for the payload text `payload` against the
/// schema document text `schema`, both read with `serde_json`.
pub uninterp spec fn schema_check(schema: Seq<char>, payload: Seq<char>) -> SchemaCheckView;

/// Compiles `schema` with `jsonschema::validator_for` and lists the
/// violations of `payload` with `iter_errors`.
#[verifier::external_body]
fn check_against_schema(schema: &str, payload: &str) -> (r: SchemaCheck)
    ensures
        r@ == schema_check(schema@, payload@),
{
    let schema: serde_json::Value = match serde_json::from_str(schema) {
        Ok(v) => v,
        Err(e) => return SchemaCheck::InvalidSchema(e.to_string()),
    };
    let payload: serde_json::Value = match serde_json::from_str(payload) {
        Ok(v) => v,
        Err(e) => return SchemaCheck::InvalidPayload(e.to_string()),
    };
    match jsonschema::validator_for(&schema) {
        Ok(v) => SchemaCheck::Errors(v.iter_errors(&payload).map(|e| SchemaValidationError { path: e.instance_path().to_string(), message: e.to_string() }).collect()),
        Err(e) => SchemaCheck::InvalidSchema(e.to_string()),
    }
}

/// The schema document that checks a payload against definition `name`
/// of `defs` (the `$defs` object's text), keys in sorted order.
pub open spec fn wrapper_schema_text(defs: Seq<char>, name: Seq<char>) -> Seq<char> {
    "{\"$defs\":"@ + defs + ",\"$schema\":\"https://json-schema.org/draft/2020-12/schema\",\"allOf\":[{\"$ref\":"@
        + json_quote("#/$defs/"@ + name) + "}]}"@
}

/// A registry of schema definitions read from one document.
#[derive(Debug, Clone)]
pub struct SchemaRegistry {
    schema_path: String,
    definitions: Option<Vec<String>>,
    defs_text: String,
}

/// The mathematical content of a registry.
pub struct SchemaRegistryView {
    pub schema_path: Seq<char>,
    /// The names under `$defs`, `None` when the document has no `$defs` object.
    pub definitions: Option<Seq<Seq<char>>>,
    /// The `$defs` object as compact JSON text.
    pub defs_text: Seq<char>,
}

impl View for SchemaRegistry {
    type V = SchemaRegistryView;

    closed spec fn view(&self) -> SchemaRegistryView {
        SchemaRegistryView {
            schema_path: self.schema_path@,
            definitions: match self.definitions {
                Some(names) => Some(strings_view(names@)),
                None => None,
            },
            defs_text: self.defs_text@,
        }
    }
}

/// The registry holds definition `name`.
pub open spec fn defines(r: SchemaRegistryView, name: Seq<char>) -> bool {
    match r.definitions {
        Some(names) => names.contains(name),
        None => false,
    }
}

/// The result of validating payload text `payload` against definition
/// `name`, as expected schema, validity and errors.
pub open spec fn validation_spec(r: SchemaRegistryView, name: Seq<char>, payload: Seq<char>) -> (
    bool,
    Seq<(Seq<char>, Seq<char>)>,
) {
    if !defines(r, name) {
        (false, seq![(Seq::empty(), "schema registry is missing $defs/"@ + name)])
    } else {
        match schema_check(wrapper_schema_text(r.defs_text, name), payload) {
            SchemaCheckView::Errors(errors) => (errors.len() == 0, errors),
            SchemaCheckView::InvalidSchema(m) => (
                false,
                seq![(Seq::empty(), "invalid schema wrapper: "@ + m)],
            ),
            SchemaCheckView::InvalidPayload(m) => (false, seq![(Seq::empty(), "invalid JSON: "@ + m)]),
        }
    }
}

fn single_error(expected_schema: &str, message: String) -> (r: SchemaValidationResult)
    ensures
        r.expected_schema@ == expected_schema@,
        !r.valid,
        errors_view(r.errors@) == seq![(Seq::<char>::empty(), message@)],
{
    let mut errors: Vec<SchemaValidationError> = Vec::new();
    errors.push(SchemaValidationError { path: String::new(), message });
    assert(errors_view(errors@) =~= seq![(Seq::<char>::empty(), message@)]);
    SchemaValidationResult { expected_schema: owned(expected_schema), valid: false, errors }
}

impl SchemaRegistry {
    /// The registry of the schema document `schema_text`, read from
    /// `schema_path`; refused when the text is no JSON document.
    pub fn load_from_str(schema_path: &str, schema_text: &str) -> (r: Result<Self, SchemaError>)
        ensures
            match json_parse_failure(schema_text@) {
                Some(detail) => r matches Err(SchemaError::ParseSchema { path, detail: d })
                    && path@ == schema_path@ && d@ == detail,
                None => r matches Ok(reg) && reg@.schema_path == schema_path@ && reg@.definitions
                    == json_object_keys(schema_text@, "$defs"@) && reg@.defs_text == match json_member_text(
                    schema_text@,
                    "$defs"@,
                ) {
                    Some(t) => t,
                    None => Seq::empty(),
                },
            },
    {
        match parse_failure(schema_text) {
            Some(detail) => Err(SchemaError::ParseSchema { path: owned(schema_path), detail }),
            None => {
                let definitions = object_member_keys(schema_text, "$defs");
                let defs_text = match member_text(schema_text, "$defs") {
                    Some(t) => t,
                    None => String::new(),
                };
                Ok(SchemaRegistry { schema_path: owned(schema_path), definitions, defs_text })
            },
        }
    }

    /// Where the schema document was read from.
    pub fn schema_path(&self) -> (r: &str)
        ensures
            r@ == self@.schema_path,
    {
        self.schema_path.as_str()
    }

    /// Validates the JSON text `payload` against definition `expected_schema`.
    pub fn validate(&self, expected_schema: &str, payload: &str) -> (r: SchemaValidationResult)
        ensures
            r.expected_schema@ == expected_schema@,
            (r.valid, errors_view(r.errors@)) == validation_spec(self@, expected_schema@, payload@),
    {
        let known = match &self.definitions {
            Some(names) => strings_contain(names, expected_schema),
            None => false,
        };
        if !known {
            return single_error(
                expected_schema,
                concat2("schema registry is missing $defs/", expected_schema),
            );
        }
        let reference = concat2("#/$defs/", expected_schema);
        let mut schema = owned("{\"$defs\":");
        schema.append(self.defs_text.as_str());
        schema.append(
            ",\"$schema\":\"https://json-schema.org/draft/2020-12/schema\",\"allOf\":[{\"$ref\":",
        );
        schema.append(quote(reference.as_str()).as_str());
        schema.append("}]}");
        assert(schema@ =~= wrapper_schema_text(self@.defs_text, expected_schema@));
        match check_against_schema(schema.as_str(), payload) {
            SchemaCheck::Errors(errors) => {
                let valid = errors.len() == 0;
                SchemaValidationResult { expected_schema: owned(expected_schema), valid, errors }
            },
            SchemaCheck::InvalidSchema(m) => single_error(
                expected_schema,
                concat2("invalid schema wrapper: ", m.as_str()),
            ),
            SchemaCheck::InvalidPayload(m) => single_error(
                expected_schema,
                concat2("invalid JSON: ", m.as_str()),
            ),
        }
    }
}

} // verus!
