//! The runtime worker's JSON-RPC protocol: request envelope checks,
//! method routing, error codes and the response frames.
use vstd::prelude::*;

use crate::basic_kernel::{permission_level_from_str, permission_name};
use crate::json::{json_quote, quote};
use crate::policy::PermissionLevel;
use crate::text::{decimal, decimal_string, has_prefix, owned, starts_with, str_eq};

verus! {

/// A JSON-RPC error: its code and message.
#[derive(Debug, Clone, Copy, PartialEq, Eq)]
pub struct JsonRpcError {
    pub code: i64,
    pub message: &'static str,
}

pub fn parse_error() -> (e: JsonRpcError)
    ensures
        e.code == -32700,
        e.message@ == "Parse error"@,
{
    JsonRpcError { code: -32700, message: "Parse error" }
}

pub fn invalid_request() -> (e: JsonRpcError)
    ensures
        e.code == -32600,
        e.message@ == "Invalid Request"@,
{
    JsonRpcError { code: -32600, message: "Invalid Request" }
}

pub fn method_not_found() -> (e: JsonRpcError)
    ensures
        e.code == -32601,
        e.message@ == "Method not found"@,
{
    JsonRpcError { code: -32601, message: "Method not found" }
}

pub fn invalid_params() -> (e: JsonRpcError)
    ensures
        e.code == -32602,
        e.message@ == "Invalid params"@,
{
    JsonRpcError { code: -32602, message: "Invalid params" }
}

pub fn runtime_unavailable() -> (e: JsonRpcError)
    ensures
        e.code == -32008,
        e.message@ == "runtime_unavailable"@,
{
    JsonRpcError { code: -32008, message: "runtime_unavailable" }
}

pub fn runtime_internal_error() -> (e: JsonRpcError)
    ensures
        e.code == -32010,
        e.message@ == "runtime_internal_error"@,
{
    JsonRpcError { code: -32010, message: "runtime_internal_error" }
}

/// The methods the worker serves.
#[derive(Debug, Clone, Copy, PartialEq, Eq, Structural)]
pub enum WorkerMethod {
    Initialize,
    ValidateSchema,
    EvaluateOperation,
    WriteAudit,
    Shutdown,
}

pub open spec fn method_of(name: Seq<char>) -> Option<WorkerMethod> {
    if name == "runtime.initialize"@ {
        Some(WorkerMethod::Initialize)
    } else if name == "runtime.validate_schema"@ {
        Some(WorkerMethod::ValidateSchema)
    } else if name == "runtime.evaluate_operation"@ {
        Some(WorkerMethod::EvaluateOperation)
    } else if name == "runtime.write_audit"@ {
        Some(WorkerMethod::WriteAudit)
    } else if name == "runtime.shutdown"@ {
        Some(WorkerMethod::Shutdown)
    } else {
        None
    }
}

/// The method named `name`; unknown names are `Method not found`.
pub fn route(name: &str) -> (r: Result<WorkerMethod, JsonRpcError>)
    ensures
        match method_of(name@) {
            Some(m) => r == Ok::<WorkerMethod, JsonRpcError>(m),
            None => r matches Err(e) && e.code == -32601,
        },
{
    if str_eq(name, "runtime.initialize") {
        Ok(WorkerMethod::Initialize)
    } else if str_eq(name, "runtime.validate_schema") {
        Ok(WorkerMethod::ValidateSchema)
    } else if str_eq(name, "runtime.evaluate_operation") {
        Ok(WorkerMethod::EvaluateOperation)
    } else if str_eq(name, "runtime.write_audit") {
        Ok(WorkerMethod::WriteAudit)
    } else if str_eq(name, "runtime.shutdown") {
        Ok(WorkerMethod::Shutdown)
    } else {
        Err(method_not_found())
    }
}

/// What the worker reads of a request line before dispatching it.
#[derive(Debug, Clone)]
pub struct Envelope {
    /// The line is a JSON document.
    pub parsed: bool,
    /// It has the shape of a request: string `jsonrpc` and `method`.
    pub request_shaped: bool,
    /// Its `id` member, as JSON text, when present and not null.
    pub id: Option<String>,
    /// Its `jsonrpc` member.
    pub version: String,
}

/// The answer to a line that is refused before dispatch: the error, and
/// the id to echo (`None` answers with a null id).
pub open spec fn envelope_refusal(env: Envelope) -> Option<(Option<Seq<char>>, i64)> {
    if !env.parsed {
        Some((None, -32700i64))
    } else if !env.request_shaped {
        Some((None, -32600i64))
    } else {
        match env.id {
            None => Some((None, -32600i64)),
            Some(id) => if env.version@ != "2.0"@ {
                Some((Some(id@), -32600i64))
            } else {
                None
            },
        }
    }
}

/// Checks a request line's envelope: parse errors, malformed requests,
/// missing ids and other protocol versions are refused.
pub fn check_envelope(env: &Envelope) -> (r: Option<(Option<String>, JsonRpcError)>)
    ensures
        match envelope_refusal(*env) {
            Some((id, code)) => r matches Some((rid, e)) && e.code == code && match rid {
                Some(x) => id == Some(x@),
                None => id is None,
            },
            None => r is None,
        },
{
    if !env.parsed {
        return Some((None, parse_error()));
    }
    if !env.request_shaped {
        return Some((None, invalid_request()));
    }
    match &env.id {
        None => Some((None, invalid_request())),
        Some(id) => {
            if !str_eq(env.version.as_str(), "2.0") {
                Some((Some(owned(id.as_str())), invalid_request()))
            } else {
                None
            }
        },
    }
}

/// A request id taken from a JSON-RPC id: string ids that start with `REQ-`.
pub fn request_id_from_jsonrpc_id(id: Option<&str>) -> (r: Option<String>)
    ensures
        match id {
            Some(s) => if has_prefix(s@, "REQ-"@) {
                r matches Some(x) && x@ == s@
            } else {
                r is None
            },
            None => r is None,
        },
{
    match id {
        Some(s) => {
            if starts_with(s, "REQ-") {
                Some(owned(s))
            } else {
                None
            }
        },
        None => None,
    }
}

/// A permission level from its wire name; unknown names are `Invalid params`.
pub fn permission_level_param(value: &str) -> (r: Result<PermissionLevel, JsonRpcError>)
    ensures
        match r {
            Ok(level) => permission_name(level) == value@,
            Err(e) => e.code == -32602 && forall|v: PermissionLevel| permission_name(v) != value@,
        },
{
    match permission_level_from_str(value) {
        Some(level) => Ok(level),
        None => Err(invalid_params()),
    }
}

/// The success response for request `id` (JSON text) with `result` (JSON text).
pub open spec fn success_text(id: Seq<char>, result: Seq<char>) -> Seq<char> {
    "{\"id\":"@ + id + ",\"jsonrpc\":\"2.0\",\"result\":"@ + result + "}"@
}

/// The error response, with `null` for an unknown id.
pub open spec fn error_text(id: Option<Seq<char>>, e: JsonRpcError) -> Seq<char> {
    "{\"error\":{\"code\":"@ + decimal(e.code as int) + ",\"message\":"@ + json_quote(e.message@)
        + "},\"id\":"@ + match id {
        Some(i) => i,
        None => "null"@,
    } + ",\"jsonrpc\":\"2.0\"}"@
}

pub fn success_response(id: &str, result: &str) -> (r: String)
    ensures
        r@ == success_text(id@, result@),
{
    let mut out = owned("{\"id\":");
    out.append(id);
    out.append(",\"jsonrpc\":\"2.0\",\"result\":");
    out.append(result);
    out.append("}");
    out
}

pub fn error_response(id: Option<&str>, e: JsonRpcError) -> (r: String)
    ensures
        r@ == error_text(
            match id {
                Some(i) => Some(i@),
                None => None,
            },
            e,
        ),
{
    let mut out = owned("{\"error\":{\"code\":");
    out.append(decimal_string(e.code).as_str());
    out.append(",\"message\":");
    out.append(quote(e.message).as_str());
    out.append("},\"id\":");
    match id {
        Some(i) => out.append(i),
        None => out.append("null"),
    }
    out.append(",\"jsonrpc\":\"2.0\"}");
    out
}

/// The result of the shutdown method; the worker stops after answering it.
pub fn shutdown_result() -> (r: &'static str)
    ensures
        r@ == "{\"shutdown\":true}"@,
{
    "{\"shutdown\":true}"
}

/// The result of a successful initialization.
pub fn initialized_result() -> (r: &'static str)
    ensures
        r@ == "{\"initialized\":true}"@,
{
    "{\"initialized\":true}"
}

/// The result of a written audit event, keys sorted.
pub fn audit_result(id: i64, task_sequence: i64) -> (r: String)
    ensures
        r@ == "{\"id\":"@ + decimal(id as int) + ",\"task_sequence\":"@ + decimal(task_sequence as int)
            + "}"@,
{
    let mut out = owned("{\"id\":");
    out.append(decimal_string(id).as_str());
    out.append(",\"task_sequence\":");
    out.append(decimal_string(task_sequence).as_str());
    out.append("}");
    out
}

/// The worker serves exactly five methods, each under its own name:
/// `runtime.initialize`, `runtime.validate_schema`,
/// `runtime.evaluate_operation`, `runtime.write_audit` and
/// `runtime.shutdown`; every other name is unknown.
pub proof fn lemma_worker_methods(name: Seq<char>)
    ensures
        method_of("runtime.initialize"@) == Some(WorkerMethod::Initialize),
        method_of("runtime.validate_schema"@) == Some(WorkerMethod::ValidateSchema),
        method_of("runtime.evaluate_operation"@) == Some(WorkerMethod::EvaluateOperation),
        method_of("runtime.write_audit"@) == Some(WorkerMethod::WriteAudit),
        method_of("runtime.shutdown"@) == Some(WorkerMethod::Shutdown),
        method_of(name) is None <==> !set![
            "runtime.initialize"@,
            "runtime.validate_schema"@,
            "runtime.evaluate_operation"@,
            "runtime.write_audit"@,
            "runtime.shutdown"@,
        ].contains(name),
{
    reveal_strlit("runtime.initialize");
    reveal_strlit("runtime.validate_schema");
    reveal_strlit("runtime.evaluate_operation");
    reveal_strlit("runtime.write_audit");
    reveal_strlit("runtime.shutdown");
    assert("runtime.initialize"@ != "runtime.validate_schema"@) by {
        assert("runtime.initialize"@.len() != "runtime.validate_schema"@.len());
    }
    assert("runtime.initialize"@ != "runtime.evaluate_operation"@) by {
        assert("runtime.initialize"@.len() != "runtime.evaluate_operation"@.len());
    }
    assert("runtime.initialize"@ != "runtime.write_audit"@) by {
        assert("runtime.initialize"@.len() != "runtime.write_audit"@.len());
    }
    assert("runtime.initialize"@ != "runtime.shutdown"@) by {
        assert("runtime.initialize"@.len() != "runtime.shutdown"@.len());
    }
    assert("runtime.validate_schema"@ != "runtime.evaluate_operation"@) by {
        assert("runtime.validate_schema"@.len() != "runtime.evaluate_operation"@.len());
    }
    assert("runtime.validate_schema"@ != "runtime.write_audit"@) by {
        assert("runtime.validate_schema"@.len() != "runtime.write_audit"@.len());
    }
    assert("runtime.validate_schema"@ != "runtime.shutdown"@) by {
        assert("runtime.validate_schema"@.len() != "runtime.shutdown"@.len());
    }
    assert("runtime.evaluate_operation"@ != "runtime.write_audit"@) by {
        assert("runtime.evaluate_operation"@.len() != "runtime.write_audit"@.len());
    }
    assert("runtime.evaluate_operation"@ != "runtime.shutdown"@) by {
        assert("runtime.evaluate_operation"@.len() != "runtime.shutdown"@.len());
    }
    assert("runtime.write_audit"@ != "runtime.shutdown"@) by {
        assert("runtime.write_audit"@[8] != "runtime.shutdown"@[8]);
    }
}

/// A request line is dispatched exactly when it is JSON, has the shape of
/// a request, carries an id and speaks version `2.0`. Otherwise: a line
/// that is not JSON is a parse error (-32700) answered with a null id; a
/// line that is not request-shaped or has no id is an invalid request
/// (-32600) answered with a null id; another version is an invalid request
/// answered with the request's own id.
pub proof fn lemma_envelope_checks(env: Envelope)
    ensures
        envelope_refusal(env) is None <==> env.parsed && env.request_shaped && env.id is Some
            && env.version@ == "2.0"@,
        !env.parsed ==> envelope_refusal(env) == Some((None::<Seq<char>>, -32700i64)),
        env.parsed && (!env.request_shaped || env.id is None) ==> envelope_refusal(env) == Some(
            (None::<Seq<char>>, -32600i64),
        ),
        env.parsed && env.request_shaped && env.id is Some && env.version@ != "2.0"@
            ==> envelope_refusal(env) == Some((Some(env.id->0@), -32600i64)),
{
}

/// Only ids that are strings starting with `REQ-` name a request: such an
/// id is taken whole, every other id gives no request id.
pub proof fn lemma_request_ids(id: Seq<char>)
    ensures
        has_prefix(id, "REQ-"@) <==> id.len() >= 4 && id.subrange(0, 4) == "REQ-"@,
{
    reveal_strlit("REQ-");
}

} // verus!
