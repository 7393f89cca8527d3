//! Declarative MCP tool specifications and the registry that holds them,
//! plus the review_diff tool's input shape and its response metadata.
use vstd::prelude::*;

use crate::policy::PermissionLevel;
use crate::text::{owned, str_eq, strings_view};

verus! {

/// Declarative specification of one MCP tool: schemas, permission,
/// artifact paths and the backend capability it needs.
#[derive(Debug, Clone)]
pub struct ToolSpec {
    pub name: String,
    pub version: String,
    pub input_schema: String,
    pub output_schema: String,
    pub permission_level: PermissionLevel,
    pub read_paths: Vec<String>,
    pub write_paths: Vec<String>,
    pub required_capability: String,
    pub default_backend_id: String,
}

/// The fields of the built-in review_diff tool.
pub open spec fn is_review_diff_spec(t: ToolSpec) -> bool {
    &&& t.name@ == "coagent.review_diff"@
    &&& t.version@ == "1.0.0"@
    &&& t.input_schema@ == "review_diff_input_v1"@
    &&& t.output_schema@ == "review_result_v1"@
    &&& t.permission_level == PermissionLevel::L1DiffReview
    &&& strings_view(t.read_paths@) == seq![
        ".agent/diffs/**"@,
        ".agent/context/**"@,
        ".agent/logs/**"@,
    ]
    &&& strings_view(t.write_paths@) == seq![".agent/results/**"@]
    &&& t.required_capability@ == "code.review.diff"@
    &&& t.default_backend_id@ == "mock"@
}

/// The fields of the built-in runtime_status tool.
pub open spec fn is_runtime_status_spec(t: ToolSpec) -> bool {
    &&& t.name@ == "coagent.runtime_status"@
    &&& t.version@ == "1.0.0"@
    &&& t.input_schema@ == "runtime_status_input_v1"@
    &&& t.output_schema@ == "runtime_status_v1"@
    &&& t.permission_level == PermissionLevel::L0Readonly
    &&& t.read_paths@.len() == 0
    &&& t.write_paths@.len() == 0
    &&& t.required_capability@ == "runtime.status"@
    &&& t.default_backend_id@ == "mock"@
}

impl ToolSpec {
    /// The standard review_diff tool specification.
    pub fn review_diff() -> (r: Self)
        ensures
            is_review_diff_spec(r),
    {
        let mut read_paths: Vec<String> = Vec::new();
        read_paths.push(owned(".agent/diffs/**"));
        read_paths.push(owned(".agent/context/**"));
        read_paths.push(owned(".agent/logs/**"));
        let mut write_paths: Vec<String> = Vec::new();
        write_paths.push(owned(".agent/results/**"));
        let r = ToolSpec {
            name: owned("coagent.review_diff"),
            version: owned("1.0.0"),
            input_schema: owned("review_diff_input_v1"),
            output_schema: owned("review_result_v1"),
            permission_level: PermissionLevel::L1DiffReview,
            read_paths,
            write_paths,
            required_capability: owned("code.review.diff"),
            default_backend_id: owned("mock"),
        };
        assert(strings_view(r.read_paths@) =~= seq![
            ".agent/diffs/**"@,
            ".agent/context/**"@,
            ".agent/logs/**"@,
        ]);
        assert(strings_view(r.write_paths@) =~= seq![".agent/results/**"@]);
        r
    }

    /// The standard runtime_status tool specification: read-only, no paths.
    pub fn runtime_status() -> (r: Self)
        ensures
            is_runtime_status_spec(r),
    {
        ToolSpec {
            name: owned("coagent.runtime_status"),
            version: owned("1.0.0"),
            input_schema: owned("runtime_status_input_v1"),
            output_schema: owned("runtime_status_v1"),
            permission_level: PermissionLevel::L0Readonly,
            read_paths: Vec::new(),
            write_paths: Vec::new(),
            required_capability: owned("runtime.status"),
            default_backend_id: owned("mock"),
        }
    }
}

/// The first spec in `s` named `name`.
pub open spec fn find_spec(s: Seq<ToolSpec>, name: Seq<char>) -> Option<ToolSpec>
    decreases s.len(),
{
    if s.len() == 0 {
        None
    } else if s[0].name@ == name {
        Some(s[0])
    } else {
        find_spec(s.drop_first(), name)
    }
}

/// The names of the specs, in registration order.
pub open spec fn spec_names(s: Seq<ToolSpec>) -> Seq<Seq<char>> {
    s.map_values(|t: ToolSpec| t.name@)
}

/// Registered tool specs, in registration order; lookups find the first
/// spec with a given name.
pub struct ToolSpecRegistry {
    specs: Vec<ToolSpec>,
}

impl View for ToolSpecRegistry {
    type V = Seq<ToolSpec>;

    closed spec fn view(&self) -> Seq<ToolSpec> {
        self.specs@
    }
}

impl ToolSpecRegistry {
    /// An empty registry.
    pub fn new() -> (r: Self)
        ensures
            r@ == Seq::<ToolSpec>::empty(),
    {
        ToolSpecRegistry { specs: Vec::new() }
    }

    /// Appends `spec`.
    pub fn register(&mut self, spec: ToolSpec)
        ensures
            final(self)@ == old(self)@.push(spec),
    {
        self.specs.push(spec);
    }

    /// The first registered spec named `name`.
    pub fn get(&self, name: &str) -> (r: Option<&ToolSpec>)
        ensures
            match r {
                Some(t) => find_spec(self@, name@) == Some(*t),
                None => find_spec(self@, name@) is None,
            },
    {
        let mut i: usize = 0;
        assert(self@.subrange(0, self@.len() as int) =~= self@);
        while i < self.specs.len()
            invariant
                i <= self.specs.len(),
                find_spec(self@, name@) == find_spec(self@.subrange(i as int, self@.len() as int), name@),
            decreases self.specs.len() - i,
        {
            let t = &self.specs[i];
            proof {
                let rest = self@.subrange(i as int, self@.len() as int);
                assert(rest.drop_first() =~= self@.subrange(i + 1, self@.len() as int));
                assert(rest[0] == self@[i as int]);
            }
            if str_eq(t.name.as_str(), name) {
                return Some(t);
            }
            i = i + 1;
        }
        None
    }

    /// The registered names, in registration order.
    pub fn list_names(&self) -> (r: Vec<String>)
        ensures
            strings_view(r@) == spec_names(self@),
    {
        let mut r: Vec<String> = Vec::new();
        let mut i: usize = 0;
        while i < self.specs.len()
            invariant
                i <= self.specs.len(),
                r@.len() == i,
                strings_view(r@) == spec_names(self@.subrange(0, i as int)),
            decreases self.specs.len() - i,
        {
            let ghost before = r@;
            r.push(owned(self.specs[i].name.as_str()));
            proof {
                let want = spec_names(self@.subrange(0, i + 1));
                assert forall|k: int| 0 <= k < r@.len() implies strings_view(r@)[k] == want[k] by {
                    if k < i {
                        assert(r@[k] == before[k]);
                        assert(strings_view(before)[k] == spec_names(self@.subrange(0, i as int))[k]);
                    }
                }
                assert(strings_view(r@) =~= want);
            }
            i = i + 1;
        }
        assert(self@.subrange(0, self@.len() as int) =~= self@);
        r
    }

    /// The registry of built-in tools: review_diff, then runtime_status.
    pub fn default_registry() -> (r: Self)
        ensures
            r@.len() == 2,
            is_review_diff_spec(r@[0]),
            is_runtime_status_spec(r@[1]),
    {
        let mut registry = Self::new();
        registry.register(ToolSpec::review_diff());
        registry.register(ToolSpec::runtime_status());
        registry
    }
}

/// Registering a spec makes it findable by its name, unless an earlier
/// spec of the same name shadows it; other names are unaffected.
pub proof fn lemma_register_then_get(s: Seq<ToolSpec>, t: ToolSpec, name: Seq<char>)
    ensures
        find_spec(s.push(t), name) == (match find_spec(s, name) {
            Some(found) => Some(found),
            None => if t.name@ == name {
                Some(t)
            } else {
                None
            },
        }),
    decreases s.len(),
{
    if s.len() == 0 {
        assert(s.push(t).drop_first() =~= Seq::<ToolSpec>::empty());
    } else {
        assert(s.push(t).drop_first() =~= s.drop_first().push(t));
        lemma_register_then_get(s.drop_first(), t, name);
    }
}

/// Repository information of a review request.
#[derive(Debug, Clone)]
pub struct RepoInfo {
    pub root: String,
    pub base_branch: Option<String>,
    pub working_branch: Option<String>,
}

/// Artifact paths of a review request.
#[derive(Debug, Clone)]
pub struct Artifacts {
    pub diff_path: String,
    pub context_path: Option<String>,
    pub test_log_path: Option<String>,
    pub build_log_path: Option<String>,
}

/// Optional limits of a review request.
#[derive(Debug, Clone)]
pub struct Budget {
    pub max_minutes: Option<i64>,
    pub max_output_chars: Option<i64>,
    pub max_steps: Option<i64>,
}

/// Input of the review_diff tool.
#[derive(Debug, Clone)]
pub struct ReviewDiffInput {
    pub schema_version: String,
    pub task_id: Option<String>,
    pub request_id: Option<String>,
    pub mode: Option<String>,
    pub goal: String,
    pub repo: RepoInfo,
    pub artifacts: Artifacts,
    pub focus: Vec<String>,
    pub constraints: Vec<String>,
    pub budget: Option<Budget>,
    pub permission_level: String,
    pub output_schema: String,
}

/// A validation failure at a JSON pointer path.
#[derive(Debug, Clone)]
pub struct ValidationError {
    pub path: String,
    pub message: String,
}

impl ReviewDiffInput {
    /// Schema validation is the single authority over this input, so the
    /// input's own check accepts every value.
    pub fn validate(&self) -> (r: Result<(), ValidationError>)
        ensures
            r is Ok,
    {
        Ok(())
    }
}

/// Metadata the server attaches to a review result.
#[derive(Debug, Clone)]
pub struct ReviewMetadata {
    pub schema_version: String,
    pub task_id: String,
    pub request_id: String,
    pub status: String,
    pub operation: String,
    pub runtime_decision: String,
}

impl ReviewMetadata {
    /// The metadata of a successful, allowed review_diff call.
    pub fn for_allowed_review(task_id: &str, request_id: &str) -> (r: Self)
        ensures
            r.schema_version@ == "review_result_v1"@,
            r.task_id@ == task_id@,
            r.request_id@ == request_id@,
            r.status@ == "ok"@,
            r.operation@ == "coagent.review_diff"@,
            r.runtime_decision@ == "allow"@,
    {
        ReviewMetadata {
            schema_version: owned("review_result_v1"),
            task_id: owned(task_id),
            request_id: owned(request_id),
            status: owned("ok"),
            operation: owned("coagent.review_diff"),
            runtime_decision: owned("allow"),
        }
    }
}

} // verus!
