//! Tool registry and policy engine: which operations exist, what
//! permission each one needs, which artifact paths it may touch, and the
//! decision for an operation request with the reasons behind it.
use vstd::prelude::*;

use crate::artifact::{
    authorize_spec, ArtifactPolicy, ArtifactPolicyError, ArtifactPolicyView, RealPathProbe,
    RealPathProbeView, ResourceAccess,
};
use crate::text::{clone_strings, concat2, owned, str_eq};

verus! {

#[derive(Debug, Clone, Copy, PartialEq, Eq, Structural)]
pub enum PermissionLevel {
    L0Readonly,
    L1DiffReview,
    L2PatchOnly,
    L3IsolatedWorktree,
}

#[derive(Debug, Clone, Copy, PartialEq, Eq, Structural)]
pub enum RuntimeDecisionValue {
    Allow,
    Deny,
    RequireApproval,
    RetryableError,
    FatalError,
}

/// Which backend executes a tool.
#[derive(Debug, Clone, Copy, PartialEq, Eq, Structural)]
pub enum BackendBinding {
    Mock,
    ReasonixAcp,
}

/// Whether an allowed request still waits for a human decision.
#[derive(Debug, Clone, Copy, PartialEq, Eq, Structural)]
pub enum ApprovalPolicy {
    Never,
    Required,
}

#[derive(Debug, Clone, PartialEq, Eq)]
pub struct ResourceSet {
    pub read_paths: Vec<String>,
    pub write_paths: Vec<String>,
    pub network: bool,
}

#[derive(Debug, Clone, PartialEq, Eq)]
pub struct RuntimeOperationRequest {
    pub task_id: String,
    pub request_id: Option<String>,
    pub operation: String,
    pub permission_level: PermissionLevel,
    pub resources: ResourceSet,
}

#[derive(Debug, Clone, PartialEq, Eq)]
pub struct PolicyEvaluationResult {
    pub decision: RuntimeDecisionValue,
    pub reasons: Vec<String>,
}

#[derive(Debug, Clone, PartialEq, Eq)]
pub struct ToolCapabilities {
    pub read_allow: Vec<String>,
    pub write_allow: Vec<String>,
    pub deny: Vec<String>,
    pub network: bool,
}

/// What the filesystem says about each candidate path of a request: one
/// probe per read path and one per write path, in the same order.
#[derive(Debug, Clone, PartialEq, Eq)]
pub struct ResourceProbes {
    pub read: Vec<RealPathProbe>,
    pub write: Vec<RealPathProbe>,
}

pub open spec fn strings_view(v: Seq<String>) -> Seq<Seq<char>> {
    v.map_values(|s: String| s@)
}

pub open spec fn probes_view(v: Seq<RealPathProbe>) -> Seq<RealPathProbeView> {
    v.map_values(|p: RealPathProbe| p@)
}

#[derive(Debug, Clone, PartialEq, Eq)]
pub struct ToolDefinition {
    operation: String,
    required_permission: PermissionLevel,
    backend_binding: BackendBinding,
    approval_policy: ApprovalPolicy,
    input_schema: String,
    output_schema: String,
    capabilities: ToolCapabilities,
}

impl ToolDefinition {
    pub fn new(
        operation: &str,
        required_permission: PermissionLevel,
        backend_binding: BackendBinding,
        approval_policy: ApprovalPolicy,
        input_schema: &str,
        output_schema: &str,
        capabilities: ToolCapabilities,
    ) -> (t: Self)
        ensures
            t.spec_operation() == operation@,
            t.spec_required_permission() == required_permission,
            t.spec_backend_binding() == backend_binding,
            t.spec_approval_policy() == approval_policy,
            t.spec_input_schema() == input_schema@,
            t.spec_output_schema() == output_schema@,
            t.spec_capabilities() == capabilities,
    {
        ToolDefinition {
            operation: owned(operation),
            required_permission,
            backend_binding,
            approval_policy,
            input_schema: owned(input_schema),
            output_schema: owned(output_schema),
            capabilities,
        }
    }

    pub closed spec fn spec_operation(&self) -> Seq<char> {
        self.operation@
    }

    pub closed spec fn spec_required_permission(&self) -> PermissionLevel {
        self.required_permission
    }

    pub closed spec fn spec_backend_binding(&self) -> BackendBinding {
        self.backend_binding
    }

    pub closed spec fn spec_approval_policy(&self) -> ApprovalPolicy {
        self.approval_policy
    }

    pub closed spec fn spec_input_schema(&self) -> Seq<char> {
        self.input_schema@
    }

    pub closed spec fn spec_output_schema(&self) -> Seq<char> {
        self.output_schema@
    }

    pub closed spec fn spec_capabilities(&self) -> ToolCapabilities {
        self.capabilities
    }

    pub fn operation(&self) -> (r: &str)
        ensures
            r@ == self.spec_operation(),
    {
        self.operation.as_str()
    }

    pub fn required_permission(&self) -> (r: PermissionLevel)
        ensures
            r == self.spec_required_permission(),
    {
        self.required_permission
    }

    pub fn backend_binding(&self) -> (r: BackendBinding)
        ensures
            r == self.spec_backend_binding(),
    {
        self.backend_binding
    }

    pub fn approval_policy(&self) -> (r: ApprovalPolicy)
        ensures
            r == self.spec_approval_policy(),
    {
        self.approval_policy
    }

    pub fn input_schema(&self) -> (r: &str)
        ensures
            r@ == self.spec_input_schema(),
    {
        self.input_schema.as_str()
    }

    pub fn output_schema(&self) -> (r: &str)
        ensures
            r@ == self.spec_output_schema(),
    {
        self.output_schema.as_str()
    }

    pub fn capabilities(&self) -> (r: &ToolCapabilities)
        ensures
            *r == self.spec_capabilities(),
    {
        &self.capabilities
    }

}

/// The last tool registered under `op` among the first `n` entries.
pub open spec fn lookup_tool(s: Seq<ToolDefinition>, op: Seq<char>) -> Option<ToolDefinition>
    decreases s.len(),
{
    if s.len() == 0 {
        None
    } else if s.last().spec_operation() == op {
        Some(s.last())
    } else {
        lookup_tool(s.drop_last(), op)
    }
}

/// No two tools share an operation name.
pub open spec fn unique_operations(s: Seq<ToolDefinition>) -> bool {
    forall|i: int, j: int|
        0 <= i < s.len() && 0 <= j < s.len() && i != j ==> s[i].spec_operation()
            != s[j].spec_operation()
}

/// Registering `t`: it replaces the tool with the same operation in place,
/// or goes after all others.
pub open spec fn register_spec(s: Seq<ToolDefinition>, t: ToolDefinition) -> Seq<ToolDefinition> {
    if exists|i: int| 0 <= i < s.len() && s[i].spec_operation() == t.spec_operation() {
        let i = choose|i: int| 0 <= i < s.len() && s[i].spec_operation() == t.spec_operation();
        s.update(i, t)
    } else {
        s.push(t)
    }
}

/// The files the diff review tool may read.
pub open spec fn review_diff_read_allow() -> Seq<Seq<char>> {
    seq![
        ".agent/context/**"@,
        ".agent/diffs/**"@,
        ".agent/logs/**"@,
        "docs/**"@,
        "crates/**"@,
        "packages/**"@,
        "schemas/**"@,
    ]
}

/// The files the diff review tool may write.
pub open spec fn review_diff_write_allow() -> Seq<Seq<char>> {
    seq![".agent/results/**"@, ".agent/logs/**"@]
}

/// The files the diff review tool may never touch.
pub open spec fn review_diff_deny() -> Seq<Seq<char>> {
    seq![".agent/secrets/**"@, ".git/**"@]
}

/// The contract of the built-in diff review tool, whatever name it is
/// registered under: diff-review permission, the Reasonix binding, no
/// approval, its input and output schemas, its path globs and no network.
pub open spec fn is_review_diff_tool(t: ToolDefinition) -> bool {
    &&& t.spec_required_permission() == PermissionLevel::L1DiffReview
    &&& t.spec_backend_binding() == BackendBinding::ReasonixAcp
    &&& t.spec_approval_policy() == ApprovalPolicy::Never
    &&& t.spec_input_schema() == "review_diff_input_v1"@
    &&& t.spec_output_schema() == "coagent_review_wrapper_v1"@
    &&& strings_view(t.spec_capabilities().read_allow@) == review_diff_read_allow()
    &&& strings_view(t.spec_capabilities().write_allow@) == review_diff_write_allow()
    &&& strings_view(t.spec_capabilities().deny@) == review_diff_deny()
    &&& t.spec_capabilities().network == false
}

/// Tools keyed by operation name; registering a name again replaces it.
#[derive(Debug, Clone)]
pub struct ToolRegistry {
    tools: Vec<ToolDefinition>,
}

impl View for ToolRegistry {
    type V = Seq<ToolDefinition>;

    closed spec fn view(&self) -> Seq<ToolDefinition> {
        self.tools@
    }
}

impl ToolRegistry {
    pub closed spec fn wf(&self) -> bool {
        unique_operations(self.tools@)
    }

    pub fn new() -> (r: Self)
        ensures
            r.wf(),
            r@ == Seq::<ToolDefinition>::empty(),
    {
        ToolRegistry { tools: Vec::new() }
    }

    fn review_diff_tool(operation: &str) -> (t: ToolDefinition)
        ensures
            t.spec_operation() == operation@,
            is_review_diff_tool(t),
    {
        let mut read_allow: Vec<String> = Vec::new();
        read_allow.push(owned(".agent/context/**"));
        read_allow.push(owned(".agent/diffs/**"));
        read_allow.push(owned(".agent/logs/**"));
        read_allow.push(owned("docs/**"));
        read_allow.push(owned("crates/**"));
        read_allow.push(owned("packages/**"));
        read_allow.push(owned("schemas/**"));
        let mut write_allow: Vec<String> = Vec::new();
        write_allow.push(owned(".agent/results/**"));
        write_allow.push(owned(".agent/logs/**"));
        let mut deny: Vec<String> = Vec::new();
        deny.push(owned(".agent/secrets/**"));
        deny.push(owned(".git/**"));
        let t = ToolDefinition::new(
            operation,
            PermissionLevel::L1DiffReview,
            BackendBinding::ReasonixAcp,
            ApprovalPolicy::Never,
            "review_diff_input_v1",
            "coagent_review_wrapper_v1",
            ToolCapabilities { read_allow, write_allow, deny, network: false },
        );
        assert(strings_view(t.spec_capabilities().read_allow@) =~= review_diff_read_allow());
        assert(strings_view(t.spec_capabilities().write_allow@) =~= review_diff_write_allow());
        assert(strings_view(t.spec_capabilities().deny@) =~= review_diff_deny());
        t
    }

    /// The built-in diff review tool, registered under its runtime name
    /// `reasonix.review_diff` and its MCP name `coagent.review_diff`.
    pub fn review_diff() -> (r: Self)
        ensures
            r.wf(),
            r@.len() == 2,
            r@[0].spec_operation() == "reasonix.review_diff"@,
            r@[1].spec_operation() == "coagent.review_diff"@,
            is_review_diff_tool(r@[0]),
            is_review_diff_tool(r@[1]),
    {
        let runtime_name = Self::review_diff_tool("reasonix.review_diff");
        let mcp_name = Self::review_diff_tool("coagent.review_diff");
        let mut tools: Vec<ToolDefinition> = Vec::new();
        tools.push(runtime_name);
        tools.push(mcp_name);
        proof {
            reveal_strlit("reasonix.review_diff");
            reveal_strlit("coagent.review_diff");
            assert(tools@[0].spec_operation()[0] != tools@[1].spec_operation()[0]);
        }
        ToolRegistry { tools }
    }

    /// Adds `tool`, replacing a tool with the same operation name.
    pub fn register(self, tool: ToolDefinition) -> (r: Self)
        requires
            self.wf(),
        ensures
            r.wf(),
            r@ == register_spec(self@, tool),
    {
        let mut tools = self.tools;
        let mut i: usize = 0;
        while i < tools.len()
            invariant
                i <= tools.len(),
                tools@ == self@,
                unique_operations(self@),
                forall|j: int| 0 <= j < i ==> tools@[j].spec_operation() != tool.spec_operation(),
            decreases tools.len() - i,
        {
            if str_eq(tools[i].operation.as_str(), tool.operation.as_str()) {
                let ghost k = i as int;
                proof {
                    let c = choose|c: int|
                        0 <= c < self@.len() && self@[c].spec_operation()
                            == tool.spec_operation();
                    assert(c == k);
                }
                let ghost tv = tool;
                tools.set(i, tool);
                proof {
                    assert(tools@ =~= self@.update(k, tv));
                    assert forall|a: int, b: int|
                        0 <= a < tools@.len() && 0 <= b < tools@.len() && a != b
                        implies tools@[a].spec_operation() != tools@[b].spec_operation() by {
                        if a != k && b != k {
                        } else if a == k {
                            assert(self@[b].spec_operation() != self@[k].spec_operation());
                        } else {
                            assert(self@[a].spec_operation() != self@[k].spec_operation());
                        }
                    }
                }
                return ToolRegistry { tools };
            }
            i = i + 1;
        }
        let ghost tv = tool;
        tools.push(tool);
        proof {
            assert(tools@ =~= self@.push(tv));
            assert forall|a: int, b: int|
                0 <= a < tools@.len() && 0 <= b < tools@.len() && a != b
                implies tools@[a].spec_operation() != tools@[b].spec_operation() by {
                if a < self@.len() && b < self@.len() {
                } else if a < self@.len() {
                    assert(tools@[a] == self@[a]);
                } else {
                    assert(tools@[b] == self@[b]);
                }
            }
        }
        ToolRegistry { tools }
    }

    /// The tool registered under `operation`, if any.
    pub fn get(&self, operation: &str) -> (r: Option<&ToolDefinition>)
        requires
            self.wf(),
        ensures
            match r {
                Some(t) => lookup_tool(self@, operation@) == Some(*t),
                None => lookup_tool(self@, operation@) is None,
            },
    {
        let mut i: usize = self.tools.len();
        assert(self@.subrange(0, i as int) =~= self@);
        while i > 0
            invariant
                i <= self.tools.len(),
                lookup_tool(self@, operation@) == lookup_tool(self@.subrange(0, i as int), operation@),
            decreases i,
        {
            let t = &self.tools[i - 1];
            proof {
                assert(self@.subrange(0, i as int).drop_last() =~= self@.subrange(0, i - 1));
            }
            if str_eq(t.operation.as_str(), operation) {
                return Some(t);
            }
            i = i - 1;
        }
        None
    }

    /// A well-formed registry holds each operation name at most once.
    pub proof fn lemma_wf_unique(&self)
        requires
            self.wf(),
        ensures
            unique_operations(self@),
    {
    }

    /// All registered tools, in registration order.
    pub fn tools(&self) -> (r: &[ToolDefinition])
        ensures
            r@ == self@,
    {
        self.tools.as_slice()
    }
}

/// With unique names, `lookup_tool` finds the entry that holds the name.
proof fn lemma_lookup_finds_unique(s: Seq<ToolDefinition>, i: int)
    requires
        unique_operations(s),
        0 <= i < s.len(),
    ensures
        lookup_tool(s, s[i].spec_operation()) == Some(s[i]),
    decreases s.len(),
{
    if i != s.len() - 1 {
        assert(s.last().spec_operation() != s[i].spec_operation());
        let t = s.drop_last();
        assert(t[i] == s[i]);
        assert(unique_operations(t));
        lemma_lookup_finds_unique(t, i);
    }
}

/// A name no entry holds is not found.
proof fn lemma_lookup_absent(s: Seq<ToolDefinition>, op: Seq<char>)
    requires
        forall|i: int| 0 <= i < s.len() ==> s[i].spec_operation() != op,
    ensures
        lookup_tool(s, op) is None,
    decreases s.len(),
{
    if s.len() > 0 {
        let t = s.drop_last();
        assert forall|i: int| 0 <= i < t.len() implies t[i].spec_operation() != op by {
            assert(t[i] == s[i]);
        }
        lemma_lookup_absent(t, op);
    }
}

/// `lookup_tool` finds something only under a name some entry holds.
proof fn lemma_lookup_some_has_entry(s: Seq<ToolDefinition>, op: Seq<char>)
    requires
        lookup_tool(s, op) is Some,
    ensures
        exists|i: int| 0 <= i < s.len() && s[i].spec_operation() == op && lookup_tool(s, op) == Some(s[i]),
    decreases s.len(),
{
    if s.last().spec_operation() != op {
        let t = s.drop_last();
        lemma_lookup_some_has_entry(t, op);
        let i = choose|i: int| 0 <= i < t.len() && t[i].spec_operation() == op && lookup_tool(t, op) == Some(t[i]);
        assert(s[i] == t[i]);
    } else {
        assert(s[s.len() - 1] == s.last());
    }
}

/// What a registry answers after a registration: the new tool under its
/// own name, and exactly what it answered before under every other name.
pub proof fn lemma_register_then_lookup(s: Seq<ToolDefinition>, t: ToolDefinition, op: Seq<char>)
    requires
        unique_operations(s),
    ensures
        unique_operations(register_spec(s, t)),
        lookup_tool(register_spec(s, t), t.spec_operation()) == Some(t),
        op != t.spec_operation() ==> lookup_tool(register_spec(s, t), op) == lookup_tool(s, op),
{
    let r = register_spec(s, t);
    if exists|i: int| 0 <= i < s.len() && s[i].spec_operation() == t.spec_operation() {
        let k = choose|i: int| 0 <= i < s.len() && s[i].spec_operation() == t.spec_operation();
        assert(r == s.update(k, t));
        assert(unique_operations(r)) by {
            assert forall|i: int, j: int|
                0 <= i < r.len() && 0 <= j < r.len() && i != j implies r[i].spec_operation()
                != r[j].spec_operation() by {
                if i != k && j != k {
                    assert(r[i] == s[i] && r[j] == s[j]);
                } else if i == k {
                    assert(r[j] == s[j]);
                } else {
                    assert(r[i] == s[i]);
                }
            }
        }
        lemma_lookup_finds_unique(r, k);
        if op != t.spec_operation() {
            if lookup_tool(s, op) is Some {
                lemma_lookup_some_has_entry(s, op);
                let i = choose|i: int| 0 <= i < s.len() && s[i].spec_operation() == op && lookup_tool(s, op) == Some(s[i]);
                assert(i != k);
                assert(r[i] == s[i]);
                lemma_lookup_finds_unique(r, i);
            } else {
                assert forall|i: int| 0 <= i < r.len() implies r[i].spec_operation() != op by {
                    if i != k {
                        assert(r[i] == s[i]);
                        if s[i].spec_operation() == op {
                            lemma_lookup_finds_unique(s, i);
                        }
                    }
                }
                lemma_lookup_absent(r, op);
            }
        }
    } else {
        assert(r == s.push(t));
        assert(unique_operations(r)) by {
            assert forall|i: int, j: int|
                0 <= i < r.len() && 0 <= j < r.len() && i != j implies r[i].spec_operation()
                != r[j].spec_operation() by {
                if i < s.len() && j < s.len() {
                    assert(r[i] == s[i] && r[j] == s[j]);
                } else if i < s.len() {
                    assert(r[i] == s[i]);
                } else {
                    assert(r[j] == s[j]);
                }
            }
        }
        assert(r.last() == t);
        if op != t.spec_operation() {
            assert(r.drop_last() =~= s);
        }
    }
}

/// One operation the engine knows, with the artifact policy built for it.
#[derive(Debug, Clone)]
pub struct RegisteredOperation {
    operation: String,
    required_permission: PermissionLevel,
    network: bool,
    approval_policy: ApprovalPolicy,
    artifact_policy: ArtifactPolicy,
}

/// A registered operation as mathematical values.
pub struct RegisteredOperationView {
    pub operation: Seq<char>,
    pub required_permission: PermissionLevel,
    pub network: bool,
    pub approval_policy: ApprovalPolicy,
    pub artifact_policy: ArtifactPolicyView,
}

impl View for RegisteredOperation {
    type V = RegisteredOperationView;

    closed spec fn view(&self) -> RegisteredOperationView {
        RegisteredOperationView {
            operation: self.operation@,
            required_permission: self.required_permission,
            network: self.network,
            approval_policy: self.approval_policy,
            artifact_policy: self.artifact_policy@,
        }
    }
}

pub open spec fn lookup_operation(s: Seq<RegisteredOperationView>, op: Seq<char>) -> Option<
    RegisteredOperationView,
>
    decreases s.len(),
{
    if s.len() == 0 {
        None
    } else if s.last().operation == op {
        Some(s.last())
    } else {
        lookup_operation(s.drop_last(), op)
    }
}

/// The policy engine's registered operations and default artifact policy.
pub struct PolicyEngineView {
    pub operations: Seq<RegisteredOperationView>,
    pub artifact_policy: ArtifactPolicyView,
}

/// `Debug` name of an artifact policy error.
pub open spec fn artifact_error_name(e: ArtifactPolicyError) -> Seq<char> {
    match e {
        ArtifactPolicyError::PathTraversal => "PathTraversal"@,
        ArtifactPolicyError::OutsideRepo => "OutsideRepo"@,
        ArtifactPolicyError::SymlinkEscape => "SymlinkEscape"@,
        ArtifactPolicyError::DeniedByDenylist => "DeniedByDenylist"@,
        ArtifactPolicyError::NotAllowed => "NotAllowed"@,
        ArtifactPolicyError::InvalidRepoRoot => "InvalidRepoRoot"@,
    }
}

pub fn artifact_error_text(e: ArtifactPolicyError) -> (r: &'static str)
    ensures
        r@ == artifact_error_name(e),
{
    match e {
        ArtifactPolicyError::PathTraversal => "PathTraversal",
        ArtifactPolicyError::OutsideRepo => "OutsideRepo",
        ArtifactPolicyError::SymlinkEscape => "SymlinkEscape",
        ArtifactPolicyError::DeniedByDenylist => "DeniedByDenylist",
        ArtifactPolicyError::NotAllowed => "NotAllowed",
        ArtifactPolicyError::InvalidRepoRoot => "InvalidRepoRoot",
    }
}

/// One reason per path the artifact policy refuses, among the first `n`,
/// in order: `<label><error name>`.
pub open spec fn path_reasons(
    ap: ArtifactPolicyView,
    access: ResourceAccess,
    paths: Seq<Seq<char>>,
    probes: Seq<RealPathProbeView>,
    label: Seq<char>,
    n: int,
) -> Seq<Seq<char>>
    decreases n,
{
    if n <= 0 {
        Seq::empty()
    } else {
        let prev = path_reasons(ap, access, paths, probes, label, n - 1);
        match authorize_spec(ap, access, paths[n - 1], probes[n - 1]) {
            Ok(_) => prev,
            Err(e) => prev.push(label + artifact_error_name(e)),
        }
    }
}

pub open spec fn read_label() -> Seq<char> {
    "read path denied: "@
}

pub open spec fn write_label() -> Seq<char> {
    "write path denied: "@
}

/// The reasons to refuse `request` under a registered operation, in the
/// order permission, network, read paths, write paths.
pub open spec fn refusal_reasons(
    reg: RegisteredOperationView,
    request: RuntimeOperationRequest,
    probes: ResourceProbes,
) -> Seq<Seq<char>> {
    let perm = if request.permission_level != reg.required_permission {
        seq!["permission level does not match "@ + reg.operation]
    } else {
        Seq::empty()
    };
    let net = if request.resources.network && !reg.network {
        seq!["network access is denied by default"@]
    } else {
        Seq::empty()
    };
    let reads = strings_view(request.resources.read_paths@);
    let writes = strings_view(request.resources.write_paths@);
    perm + net + path_reasons(
        reg.artifact_policy,
        ResourceAccess::Read,
        reads,
        probes_view(probes.read@),
        read_label(),
        reads.len() as int,
    ) + path_reasons(
        reg.artifact_policy,
        ResourceAccess::Write,
        writes,
        probes_view(probes.write@),
        write_label(),
        writes.len() as int,
    )
}

/// The decision and reasons for `request`: an unknown operation is denied
/// outright; otherwise any refusal reason denies; a clean request is
/// allowed, or waits for approval when its operation requires one.
pub open spec fn evaluate_spec(
    e: PolicyEngineView,
    request: RuntimeOperationRequest,
    probes: ResourceProbes,
) -> (RuntimeDecisionValue, Seq<Seq<char>>) {
    match lookup_operation(e.operations, request.operation@) {
        None => (RuntimeDecisionValue::Deny, seq!["unknown operation "@ + request.operation@]),
        Some(reg) => {
            let reasons = refusal_reasons(reg, request, probes);
            if reasons.len() > 0 {
                (RuntimeDecisionValue::Deny, reasons)
            } else if reg.approval_policy == ApprovalPolicy::Required {
                (RuntimeDecisionValue::RequireApproval, seq!["approval required for "@ + reg.operation])
            } else {
                (RuntimeDecisionValue::Allow, Seq::empty())
            }
        },
    }
}

/// A request is allowed only with no reason given, denied only with at
/// least one, and an unknown operation is always denied.
pub proof fn lemma_decision_agrees_with_reasons(
    e: PolicyEngineView,
    request: RuntimeOperationRequest,
    probes: ResourceProbes,
)
    ensures
        evaluate_spec(e, request, probes).0 == RuntimeDecisionValue::Allow ==> evaluate_spec(
            e,
            request,
            probes,
        ).1.len() == 0,
        evaluate_spec(e, request, probes).0 == RuntimeDecisionValue::Deny ==> evaluate_spec(
            e,
            request,
            probes,
        ).1.len() > 0,
        evaluate_spec(e, request, probes).0 == RuntimeDecisionValue::Allow || evaluate_spec(
            e,
            request,
            probes,
        ).0 == RuntimeDecisionValue::Deny || evaluate_spec(e, request, probes).0
            == RuntimeDecisionValue::RequireApproval,
        lookup_operation(e.operations, request.operation@) is None ==> evaluate_spec(
            e,
            request,
            probes,
        ).0 == RuntimeDecisionValue::Deny,
{
}

/// A permission level other than the registered one, or network access the
/// operation does not grant, denies the request whatever its paths.
pub proof fn lemma_permission_and_network_gates(
    e: PolicyEngineView,
    request: RuntimeOperationRequest,
    probes: ResourceProbes,
)
    requires
        lookup_operation(e.operations, request.operation@) matches Some(reg) && (
        request.permission_level != reg.required_permission || (request.resources.network
            && !reg.network)),
    ensures
        evaluate_spec(e, request, probes).0 == RuntimeDecisionValue::Deny,
{
}

/// A request with a path the operation's artifact policy refuses is denied.
pub proof fn lemma_refused_path_denies(
    e: PolicyEngineView,
    request: RuntimeOperationRequest,
    probes: ResourceProbes,
    i: int,
)
    requires
        lookup_operation(e.operations, request.operation@) matches Some(reg) && 0 <= i
            < request.resources.read_paths@.len() && i < probes.read@.len() && authorize_spec(
            reg.artifact_policy,
            ResourceAccess::Read,
            request.resources.read_paths@[i]@,
            probes.read@[i]@,
        ) is Err,
    ensures
        evaluate_spec(e, request, probes).0 == RuntimeDecisionValue::Deny,
{
    let reg = lookup_operation(e.operations, request.operation@)->Some_0;
    let reads = strings_view(request.resources.read_paths@);
    let pv = probes_view(probes.read@);
    lemma_path_reasons_nonempty(reg.artifact_policy, ResourceAccess::Read, reads, pv, read_label(), reads.len() as int, i);
    assert(refusal_reasons(reg, request, probes).len() > 0);
}

proof fn lemma_path_reasons_nonempty(
    ap: ArtifactPolicyView,
    access: ResourceAccess,
    paths: Seq<Seq<char>>,
    probes: Seq<RealPathProbeView>,
    label: Seq<char>,
    n: int,
    i: int,
)
    requires
        0 <= i < n,
        authorize_spec(ap, access, paths[i], probes[i]) is Err,
    ensures
        path_reasons(ap, access, paths, probes, label, n).len() > 0,
    decreases n,
{
    if i < n - 1 {
        lemma_path_reasons_nonempty(ap, access, paths, probes, label, n - 1, i);
    }
}

#[derive(Debug, Clone)]
pub struct PolicyEngine {
    operations: Vec<RegisteredOperation>,
    artifact_policy: ArtifactPolicy,
}

impl View for PolicyEngine {
    type V = PolicyEngineView;

    closed spec fn view(&self) -> PolicyEngineView {
        PolicyEngineView {
            operations: self.operations@.map_values(|r: RegisteredOperation| r@),
            artifact_policy: self.artifact_policy@,
        }
    }
}

/// Upserting an operation: the entry with the same name is replaced in
/// place, otherwise it goes last.
pub open spec fn upsert_operation(
    s: Seq<RegisteredOperationView>,
    r: RegisteredOperationView,
) -> Seq<RegisteredOperationView> {
    if exists|i: int| 0 <= i < s.len() && s[i].operation == r.operation {
        let i = choose|i: int| 0 <= i < s.len() && s[i].operation == r.operation;
        s.update(i, r)
    } else {
        s.push(r)
    }
}

pub open spec fn unique_operation_names(s: Seq<RegisteredOperationView>) -> bool {
    forall|i: int, j: int|
        0 <= i < s.len() && 0 <= j < s.len() && i != j ==> s[i].operation != s[j].operation
}

impl PolicyEngine {
    pub closed spec fn wf(&self) -> bool {
        unique_operation_names(self@.operations)
    }

    /// An engine with no operation and `artifact_policy` as the policy new
    /// operations get.
    pub fn new(artifact_policy: ArtifactPolicy) -> (r: Self)
        ensures
            r.wf(),
            r@.operations == Seq::<RegisteredOperationView>::empty(),
            r@.artifact_policy == artifact_policy@,
    {
        let r = PolicyEngine { operations: Vec::new(), artifact_policy };
        assert(r@.operations =~= Seq::<RegisteredOperationView>::empty());
        r
    }

    fn upsert(self, op: RegisteredOperation) -> (r: Self)
        requires
            self.wf(),
        ensures
            r.wf(),
            r@.operations == upsert_operation(self@.operations, op@),
            r@.artifact_policy == self@.artifact_policy,
    {
        let mut s = self;
        let ghost ops = s@.operations;
        let mut i: usize = 0;
        while i < s.operations.len()
            invariant
                i <= s.operations.len(),
                s@ == self@,
                ops == self@.operations,
                unique_operation_names(ops),
                forall|j: int| 0 <= j < i ==> ops[j].operation != op@.operation,
            decreases s.operations.len() - i,
        {
            if str_eq(s.operations[i].operation.as_str(), op.operation.as_str()) {
                let ghost k = i as int;
                proof {
                    let c = choose|c: int| 0 <= c < ops.len() && ops[c].operation == op@.operation;
                    assert(c == k);
                }
                let ghost opv = op@;
                s.operations.set(i, op);
                proof {
                    assert(s@.operations =~= ops.update(k, opv));
                    assert forall|a: int, b: int|
                        0 <= a < s@.operations.len() && 0 <= b < s@.operations.len() && a != b
                        implies s@.operations[a].operation != s@.operations[b].operation by {
                        if a != k && b != k {
                        } else if a == k {
                            assert(ops[b].operation != ops[k].operation);
                        } else {
                            assert(ops[a].operation != ops[k].operation);
                        }
                    }
                }
                return s;
            }
            i = i + 1;
        }
        let ghost opv = op@;
        s.operations.push(op);
        proof {
            assert(s@.operations =~= ops.push(opv));
        }
        s
    }

    /// Registers `operation` with no capabilities beyond the engine's
    /// artifact policy, replacing an operation of the same name.
    pub fn register_operation(self, operation: &str, required_permission: PermissionLevel) -> (r:
        Self)
        requires
            self.wf(),
        ensures
            r.wf(),
            r@.artifact_policy == self@.artifact_policy,
            r@.operations == upsert_operation(
                self@.operations,
                RegisteredOperationView {
                    operation: operation@,
                    required_permission,
                    network: false,
                    approval_policy: ApprovalPolicy::Never,
                    artifact_policy: self@.artifact_policy,
                },
            ),
            r@ == with_registered_operation(self@, operation@, required_permission),
    {
        let ap = self.artifact_policy.duplicate();
        let op = RegisteredOperation {
            operation: owned(operation),
            required_permission,
            network: false,
            approval_policy: ApprovalPolicy::Never,
            artifact_policy: ap,
        };
        self.upsert(op)
    }

    /// The engine that knows `reasonix.review_diff` at `L1DiffReview`.
    pub fn review_diff(artifact_policy: ArtifactPolicy) -> (r: Self)
        ensures
            r.wf(),
            r@.operations == seq![
                RegisteredOperationView {
                    operation: "reasonix.review_diff"@,
                    required_permission: PermissionLevel::L1DiffReview,
                    network: false,
                    approval_policy: ApprovalPolicy::Never,
                    artifact_policy: artifact_policy@,
                },
            ],
    {
        let e = Self::new(artifact_policy).register_operation(
            "reasonix.review_diff",
            PermissionLevel::L1DiffReview,
        );
        assert(e@.operations =~= seq![
            RegisteredOperationView {
                operation: "reasonix.review_diff"@,
                required_permission: PermissionLevel::L1DiffReview,
                network: false,
                approval_policy: ApprovalPolicy::Never,
                artifact_policy: artifact_policy@,
            },
        ]);
        e
    }

    /// An engine with one operation per registry tool, each with an artifact
    /// policy for `repo_root` built from the tool's capabilities; a root
    /// that did not resolve on disk is refused.
    pub fn from_tool_registry(
        repo_root: &str,
        repo_root_real: Option<String>,
        registry: ToolRegistry,
    ) -> (r: Result<Self, ArtifactPolicyError>)
        requires
            registry.wf(),
        ensures
            repo_root_real is None ==> r == Err::<Self, ArtifactPolicyError>(
                ArtifactPolicyError::InvalidRepoRoot,
            ),
            repo_root_real matches Some(canonical_root) ==> r matches Ok(e) && e.wf() && e@.operations.len()
                == registry@.len() && (forall|i: int|
                0 <= i < registry@.len() ==> #[trigger] e@.operations[i] == tool_operation(
                    repo_root@,
                    canonical_root@,
                    registry@[i],
                )) && e@.artifact_policy == empty_policy(repo_root@, canonical_root@),
    {
        let root_real = match repo_root_real {
            None => {
                return Err(ArtifactPolicyError::InvalidRepoRoot);
            },
            Some(canonical_root) => canonical_root,
        };
        let base = match ArtifactPolicy::new(repo_root, Some(root_real.clone())) {
            Ok(p) => p,
            Err(e) => {
                return Err(e);
            },
        };
        let mut engine = PolicyEngine { operations: Vec::new(), artifact_policy: base };
        let tools = registry.tools();
        let mut i: usize = 0;
        while i < tools.len()
            invariant
                i <= tools.len(),
                tools@ == registry@,
                unique_operations(registry@),
                engine.operations@.len() == i,
                engine@.artifact_policy == empty_policy(repo_root@, root_real@),
                forall|j: int|
                    0 <= j < i ==> #[trigger] engine@.operations[j] == tool_operation(
                        repo_root@,
                        root_real@,
                        registry@[j],
                    ),
            decreases tools.len() - i,
        {
            let tool = &tools[i];
            let caps = &tool.capabilities;
            let ap = match ArtifactPolicy::new(repo_root, Some(root_real.clone())) {
                Ok(p) => p,
                Err(e) => {
                    return Err(e);
                },
            };
            let ap = ap.allow_read(clone_strings(&caps.read_allow)).allow_write(
                clone_strings(&caps.write_allow),
            ).deny(clone_strings(&caps.deny));
            let op = RegisteredOperation {
                operation: tool.operation.clone(),
                required_permission: tool.required_permission,
                network: caps.network,
                approval_policy: tool.approval_policy,
                artifact_policy: ap,
            };
            proof {
                let e = empty_policy(repo_root@, root_real@);
                assert(e.read_allow + strings_view(caps.read_allow@).map_values(
                    |p: Seq<char>| crate::artifact::normalized_pattern(p),
                ) =~= strings_view(caps.read_allow@).map_values(
                    |p: Seq<char>| crate::artifact::normalized_pattern(p),
                ));
                assert(e.write_allow + strings_view(caps.write_allow@).map_values(
                    |p: Seq<char>| crate::artifact::normalized_pattern(p),
                ) =~= strings_view(caps.write_allow@).map_values(
                    |p: Seq<char>| crate::artifact::normalized_pattern(p),
                ));
                assert(e.deny + strings_view(caps.deny@).map_values(
                    |p: Seq<char>| crate::artifact::normalized_pattern(p),
                ) =~= strings_view(caps.deny@).map_values(
                    |p: Seq<char>| crate::artifact::normalized_pattern(p),
                ));
                assert(op@ == tool_operation(repo_root@, root_real@, registry@[i as int]));
            }
            let ghost before = engine@.operations;
            engine.operations.push(op);
            proof {
                assert(engine@.operations =~= before.push(op@));
            }
            i = i + 1;
        }
        proof {
            assert forall|a: int, b: int|
                0 <= a < engine@.operations.len() && 0 <= b < engine@.operations.len() && a != b
                implies engine@.operations[a].operation != engine@.operations[b].operation by {
                assert(engine@.operations[a] == tool_operation(repo_root@, root_real@, registry@[a]));
                assert(engine@.operations[b] == tool_operation(repo_root@, root_real@, registry@[b]));
            }
        }
        Ok(engine)
    }

    /// The decision for `request`; see `evaluate_spec`. `probes` holds what
    /// the filesystem says about each read and write path's candidate.
    pub fn evaluate(&self, request: &RuntimeOperationRequest, probes: &ResourceProbes) -> (r:
        PolicyEvaluationResult)
        requires
            self.wf(),
            probes.read@.len() == request.resources.read_paths@.len(),
            probes.write@.len() == request.resources.write_paths@.len(),
        ensures
            (r.decision, strings_view(r.reasons@)) == evaluate_spec(self@, *request, *probes),
    {
        let mut reasons: Vec<String> = Vec::new();
        let found = self.find(request.operation.as_str());
        let registered = match found {
            None => {
                reasons.push(concat2("unknown operation ", request.operation.as_str()));
                proof {
                    assert(strings_view(reasons@) =~= seq!["unknown operation "@ + request.operation@]);
                }
                return PolicyEvaluationResult { decision: RuntimeDecisionValue::Deny, reasons };
            },
            Some(reg) => reg,
        };
        if request.permission_level != registered.required_permission {
            reasons.push(concat2("permission level does not match ", registered.operation.as_str()));
        }
        if request.resources.network && !registered.network {
            reasons.push(owned("network access is denied by default"));
        }
        let ghost head = strings_view(reasons@);
        proof {
            let perm = if request.permission_level != registered@.required_permission {
                seq!["permission level does not match "@ + registered@.operation]
            } else {
                Seq::<Seq<char>>::empty()
            };
            let net = if request.resources.network && !registered@.network {
                seq!["network access is denied by default"@]
            } else {
                Seq::<Seq<char>>::empty()
            };
            assert(head =~= perm + net);
        }
        collect_path_reasons(
            &registered.artifact_policy,
            ResourceAccess::Read,
            &request.resources.read_paths,
            &probes.read,
            "read path denied: ",
            &mut reasons,
        );
        let ghost mid = strings_view(reasons@);
        collect_path_reasons(
            &registered.artifact_policy,
            ResourceAccess::Write,
            &request.resources.write_paths,
            &probes.write,
            "write path denied: ",
            &mut reasons,
        );
        proof {
            assert(strings_view(reasons@) =~= refusal_reasons(registered@, *request, *probes));
        }
        if reasons.len() > 0 {
            PolicyEvaluationResult { decision: RuntimeDecisionValue::Deny, reasons }
        } else if registered.approval_policy == ApprovalPolicy::Required {
            reasons.push(concat2("approval required for ", registered.operation.as_str()));
            proof {
                assert(strings_view(reasons@) =~= seq!["approval required for "@ + registered@.operation]);
            }
            PolicyEvaluationResult { decision: RuntimeDecisionValue::RequireApproval, reasons }
        } else {
            PolicyEvaluationResult { decision: RuntimeDecisionValue::Allow, reasons }
        }
    }

    fn find(&self, operation: &str) -> (r: Option<&RegisteredOperation>)
        ensures
            match r {
                Some(reg) => lookup_operation(self@.operations, operation@) == Some(reg@),
                None => lookup_operation(self@.operations, operation@) is None,
            },
    {
        let mut i: usize = self.operations.len();
        assert(self@.operations.subrange(0, i as int) =~= self@.operations);
        while i > 0
            invariant
                i <= self.operations.len(),
                lookup_operation(self@.operations, operation@) == lookup_operation(
                    self@.operations.subrange(0, i as int),
                    operation@,
                ),
            decreases i,
        {
            let reg = &self.operations[i - 1];
            proof {
                assert(self@.operations.subrange(0, i as int).drop_last() =~= self@.operations.subrange(
                    0,
                    i - 1,
                ));
                assert(self@.operations.subrange(0, i as int).last() == reg@);
            }
            if str_eq(reg.operation.as_str(), operation) {
                return Some(reg);
            }
            i = i - 1;
        }
        proof {
            assert(self@.operations.subrange(0, 0) =~= Seq::<RegisteredOperationView>::empty());
        }
        None
    }
}

/// The artifact policy for `repo_root` with empty lists.
pub open spec fn empty_policy(repo_root: Seq<char>, canonical_root: Seq<char>) -> ArtifactPolicyView {
    ArtifactPolicyView {
        repo_root,
        repo_root_real: canonical_root,
        read_allow: Seq::empty(),
        write_allow: Seq::empty(),
        deny: Seq::empty(),
    }
}

/// The operation the engine builds for a registry tool.
pub open spec fn tool_operation(
    repo_root: Seq<char>,
    canonical_root: Seq<char>,
    t: ToolDefinition,
) -> RegisteredOperationView {
    let caps = t.spec_capabilities();
    RegisteredOperationView {
        operation: t.spec_operation(),
        required_permission: t.spec_required_permission(),
        network: caps.network,
        approval_policy: t.spec_approval_policy(),
        artifact_policy: ArtifactPolicyView {
            read_allow: strings_view(caps.read_allow@).map_values(
                |p: Seq<char>| crate::artifact::normalized_pattern(p),
            ),
            write_allow: strings_view(caps.write_allow@).map_values(
                |p: Seq<char>| crate::artifact::normalized_pattern(p),
            ),
            deny: strings_view(caps.deny@).map_values(
                |p: Seq<char>| crate::artifact::normalized_pattern(p),
            ),
            ..empty_policy(repo_root, canonical_root)
        },
    }
}

fn collect_path_reasons(
    ap: &ArtifactPolicy,
    access: ResourceAccess,
    paths: &Vec<String>,
    probes: &Vec<RealPathProbe>,
    label: &str,
    reasons: &mut Vec<String>,
)
    requires
        probes@.len() == paths@.len(),
    ensures
        strings_view(final(reasons)@) == strings_view(old(reasons)@) + path_reasons(
            ap@,
            access,
            strings_view(paths@),
            probes_view(probes@),
            label@,
            paths@.len() as int,
        ),
{
    let ghost start = strings_view(reasons@);
    let mut i: usize = 0;
    while i < paths.len()
        invariant
            i <= paths.len(),
            probes@.len() == paths@.len(),
            strings_view(reasons@) == start + path_reasons(
                ap@,
                access,
                strings_view(paths@),
                probes_view(probes@),
                label@,
                i as int,
            ),
        decreases paths.len() - i,
    {
        let outcome = ap.authorize(access, paths[i].as_str(), &probes[i]);
        let ghost prev = strings_view(reasons@);
        match outcome {
            Ok(_) => {},
            Err(e) => {
                let reason = concat2(label, artifact_error_text(e));
                reasons.push(reason);
                assert(strings_view(reasons@) =~= prev.push(label@ + artifact_error_name(e)));
            },
        }
        i = i + 1;
    }
}

// Types kept for callers that build evaluation records directly.
#[derive(Debug, Clone, PartialEq, Eq)]
pub struct PolicyEvaluationRequest {
    pub operation: String,
    pub permission_level: PermissionLevel,
    pub resources: ResourceSet,
}

#[derive(Debug, Clone, PartialEq, Eq)]
pub struct RuntimeDecision {
    pub task_id: String,
    pub request_id: Option<String>,
    pub operation: String,
    pub decision: RuntimeDecisionValue,
    pub reasons: Vec<String>,
}

#[derive(Debug, Clone, PartialEq, Eq)]
pub struct RoutingMetadata {
    pub project_key_hash: String,
    pub session_key_hash: String,
    pub lane: String,
}

/// Register then get: after `reg.register(t)`, the name of `t` finds `t`
/// (the last registration under a name wins), every other name finds what
/// it found before, and a new registry finds nothing.
pub proof fn lemma_registry_register_then_get(reg: &ToolRegistry, t: ToolDefinition, op: Seq<char>)
    requires
        reg.wf(),
    ensures
        lookup_tool(register_spec(reg@, t), t.spec_operation()) == Some(t),
        op != t.spec_operation() ==> lookup_tool(register_spec(reg@, t), op) == lookup_tool(reg@, op),
        lookup_tool(Seq::<ToolDefinition>::empty(), op) is None,
{
    reg.lemma_wf_unique();
    lemma_register_then_lookup(reg@, t, op);
}

/// With distinct names, `lookup_operation` finds the entry holding a name.
proof fn lemma_op_lookup_finds_unique(s: Seq<RegisteredOperationView>, i: int)
    requires
        unique_operation_names(s),
        0 <= i < s.len(),
    ensures
        lookup_operation(s, s[i].operation) == Some(s[i]),
    decreases s.len(),
{
    if i != s.len() - 1 {
        let t = s.drop_last();
        assert(t[i] == s[i]);
        assert(unique_operation_names(t));
        lemma_op_lookup_finds_unique(t, i);
    }
}

/// A name no entry holds is not found.
proof fn lemma_op_lookup_absent(s: Seq<RegisteredOperationView>, op: Seq<char>)
    requires
        forall|i: int| 0 <= i < s.len() ==> s[i].operation != op,
    ensures
        lookup_operation(s, op) is None,
    decreases s.len(),
{
    if s.len() > 0 {
        let t = s.drop_last();
        assert forall|i: int| 0 <= i < t.len() implies t[i].operation != op by {
            assert(t[i] == s[i]);
        }
        lemma_op_lookup_absent(t, op);
    }
}

/// `lookup_operation` finds something only under a name some entry holds.
proof fn lemma_op_lookup_some_has_entry(s: Seq<RegisteredOperationView>, op: Seq<char>)
    requires
        lookup_operation(s, op) is Some,
    ensures
        exists|i: int| 0 <= i < s.len() && s[i].operation == op && lookup_operation(s, op) == Some(s[i]),
    decreases s.len(),
{
    if s.last().operation != op {
        let t = s.drop_last();
        lemma_op_lookup_some_has_entry(t, op);
        let i = choose|i: int| 0 <= i < t.len() && t[i].operation == op && lookup_operation(t, op) == Some(t[i]);
        assert(s[i] == t[i]);
    } else {
        assert(s[s.len() - 1] == s.last());
    }
}

/// Upserting `r`: its name finds `r`, every other name finds what it
/// found before, and names stay distinct.
proof fn lemma_upsert_then_lookup(s: Seq<RegisteredOperationView>, r: RegisteredOperationView, op: Seq<char>)
    requires
        unique_operation_names(s),
    ensures
        unique_operation_names(upsert_operation(s, r)),
        lookup_operation(upsert_operation(s, r), r.operation) == Some(r),
        op != r.operation ==> lookup_operation(upsert_operation(s, r), op) == lookup_operation(s, op),
{
    let u = upsert_operation(s, r);
    if exists|i: int| 0 <= i < s.len() && s[i].operation == r.operation {
        let k = choose|i: int| 0 <= i < s.len() && s[i].operation == r.operation;
        assert(u == s.update(k, r));
        assert forall|i: int, j: int|
            0 <= i < u.len() && 0 <= j < u.len() && i != j implies u[i].operation != u[j].operation by {
            if i != k && j != k {
                assert(u[i] == s[i] && u[j] == s[j]);
            } else if i == k {
                assert(u[j] == s[j]);
            } else {
                assert(u[i] == s[i]);
            }
        }
        lemma_op_lookup_finds_unique(u, k);
        if op != r.operation {
            if lookup_operation(s, op) is Some {
                lemma_op_lookup_some_has_entry(s, op);
                let i = choose|i: int| 0 <= i < s.len() && s[i].operation == op && lookup_operation(s, op) == Some(s[i]);
                assert(u[i] == s[i]);
                lemma_op_lookup_finds_unique(u, i);
            } else {
                assert forall|i: int| 0 <= i < u.len() implies u[i].operation != op by {
                    if i != k {
                        assert(u[i] == s[i]);
                        if s[i].operation == op {
                            lemma_op_lookup_finds_unique(s, i);
                        }
                    }
                }
                lemma_op_lookup_absent(u, op);
            }
        }
    } else {
        assert(u == s.push(r));
        assert forall|i: int, j: int|
            0 <= i < u.len() && 0 <= j < u.len() && i != j implies u[i].operation != u[j].operation by {
            if i < s.len() && j < s.len() {
                assert(u[i] == s[i] && u[j] == s[j]);
            } else if i < s.len() {
                assert(u[i] == s[i]);
            } else {
                assert(u[j] == s[j]);
            }
        }
        assert(u.drop_last() =~= s);
        if op != r.operation {
            assert(lookup_operation(u, op) == lookup_operation(u.drop_last(), op));
        }
    }
}

/// No path reason is given exactly when every one of the first `n` paths
/// is authorized.
pub proof fn lemma_no_path_reason_iff_authorized(
    ap: ArtifactPolicyView,
    access: ResourceAccess,
    paths: Seq<Seq<char>>,
    probes: Seq<RealPathProbeView>,
    label: Seq<char>,
    n: int,
)
    requires
        0 <= n,
    ensures
        path_reasons(ap, access, paths, probes, label, n).len() == 0 <==> forall|i: int|
            0 <= i < n ==> #[trigger] authorize_spec(ap, access, paths[i], probes[i]) is Ok,
    decreases n,
{
    if n > 0 {
        lemma_no_path_reason_iff_authorized(ap, access, paths, probes, label, n - 1);
        if path_reasons(ap, access, paths, probes, label, n).len() == 0 {
            assert forall|i: int| 0 <= i < n implies #[trigger] authorize_spec(ap, access, paths[i], probes[i]) is Ok by {
                if authorize_spec(ap, access, paths[i], probes[i]) is Err {
                    lemma_path_reasons_nonempty(ap, access, paths, probes, label, n, i);
                }
            }
        }
        if forall|i: int| 0 <= i < n ==> #[trigger] authorize_spec(ap, access, paths[i], probes[i]) is Ok {
            assert(authorize_spec(ap, access, paths[n - 1], probes[n - 1]) is Ok);
        }
    }
}

/// Every read path and every write path of `request` is authorized by
/// `ap`, given what the filesystem says about each.
pub open spec fn all_paths_authorized(
    ap: ArtifactPolicyView,
    request: RuntimeOperationRequest,
    probes: ResourceProbes,
) -> bool {
    &&& forall|i: int|
        0 <= i < request.resources.read_paths@.len() ==> #[trigger] authorize_spec(
            ap,
            ResourceAccess::Read,
            request.resources.read_paths@[i]@,
            probes.read@[i]@,
        ) is Ok
    &&& forall|i: int|
        0 <= i < request.resources.write_paths@.len() ==> #[trigger] authorize_spec(
            ap,
            ResourceAccess::Write,
            request.resources.write_paths@[i]@,
            probes.write@[i]@,
        ) is Ok
}

/// The engine after `register_operation(op, level)`, as its contract gives it.
pub open spec fn with_registered_operation(e: PolicyEngineView, op: Seq<char>, level: PermissionLevel) -> PolicyEngineView {
    PolicyEngineView {
        operations: upsert_operation(
            e.operations,
            RegisteredOperationView {
                operation: op,
                required_permission: level,
                network: false,
                approval_policy: ApprovalPolicy::Never,
                artifact_policy: e.artifact_policy,
            },
        ),
        artifact_policy: e.artifact_policy,
    }
}

/// After registering `op` at `level`, a request for `op` is allowed exactly
/// when it asks for that level, no network, and every path it names is
/// authorized by the engine's artifact policy; a request for any other
/// operation is decided as before.
pub proof fn lemma_registered_operation_decision(
    engine: &PolicyEngine,
    op: Seq<char>,
    level: PermissionLevel,
    request: RuntimeOperationRequest,
    probes: ResourceProbes,
)
    requires
        engine.wf(),
        probes.read@.len() == request.resources.read_paths@.len(),
        probes.write@.len() == request.resources.write_paths@.len(),
    ensures
        request.operation@ == op ==> (evaluate_spec(with_registered_operation(engine@, op, level), request, probes).0
            == RuntimeDecisionValue::Allow <==> (request.permission_level == level
            && !request.resources.network && all_paths_authorized(
            engine@.artifact_policy,
            request,
            probes,
        ))),
        request.operation@ != op ==> evaluate_spec(with_registered_operation(engine@, op, level), request, probes)
            == evaluate_spec(engine@, request, probes),
{
    let e = engine@;
    let reg = RegisteredOperationView {
        operation: op,
        required_permission: level,
        network: false,
        approval_policy: ApprovalPolicy::Never,
        artifact_policy: e.artifact_policy,
    };
    lemma_upsert_then_lookup(e.operations, reg, request.operation@);
    let reads = strings_view(request.resources.read_paths@);
    let writes = strings_view(request.resources.write_paths@);
    let rp = probes_view(probes.read@);
    let wp = probes_view(probes.write@);
    lemma_no_path_reason_iff_authorized(e.artifact_policy, ResourceAccess::Read, reads, rp, read_label(), reads.len() as int);
    lemma_no_path_reason_iff_authorized(e.artifact_policy, ResourceAccess::Write, writes, wp, write_label(), writes.len() as int);
    if request.operation@ == op {
        let reasons = refusal_reasons(reg, request, probes);
        let rr = path_reasons(e.artifact_policy, ResourceAccess::Read, reads, rp, read_label(), reads.len() as int);
        let wr = path_reasons(e.artifact_policy, ResourceAccess::Write, writes, wp, write_label(), writes.len() as int);
        if all_paths_authorized(e.artifact_policy, request, probes) {
            assert forall|i: int| 0 <= i < reads.len() implies #[trigger] authorize_spec(e.artifact_policy, ResourceAccess::Read, reads[i], rp[i]) is Ok by {
                assert(reads[i] == request.resources.read_paths@[i]@);
                assert(rp[i] == probes.read@[i]@);
            }
            assert forall|i: int| 0 <= i < writes.len() implies #[trigger] authorize_spec(e.artifact_policy, ResourceAccess::Write, writes[i], wp[i]) is Ok by {
                assert(writes[i] == request.resources.write_paths@[i]@);
                assert(wp[i] == probes.write@[i]@);
            }
        }
        if rr.len() == 0 && wr.len() == 0 {
            assert forall|i: int| 0 <= i < request.resources.read_paths@.len() implies #[trigger] authorize_spec(
                e.artifact_policy, ResourceAccess::Read, request.resources.read_paths@[i]@, probes.read@[i]@) is Ok by {
                assert(reads[i] == request.resources.read_paths@[i]@);
                assert(rp[i] == probes.read@[i]@);
            }
            assert forall|i: int| 0 <= i < request.resources.write_paths@.len() implies #[trigger] authorize_spec(
                e.artifact_policy, ResourceAccess::Write, request.resources.write_paths@[i]@, probes.write@[i]@) is Ok by {
                assert(writes[i] == request.resources.write_paths@[i]@);
                assert(wp[i] == probes.write@[i]@);
            }
        }
        assert(reasons.len() == 0 <==> (request.permission_level == level && !request.resources.network
            && rr.len() == 0 && wr.len() == 0));
    }
}

/// An engine with no operation registered fails closed: every request is
/// denied, with the unknown-operation reason alone.
pub proof fn lemma_empty_engine_fails_closed(
    e: PolicyEngineView,
    request: RuntimeOperationRequest,
    probes: ResourceProbes,
)
    requires
        e.operations.len() == 0,
    ensures
        evaluate_spec(e, request, probes) == (
            RuntimeDecisionValue::Deny,
            seq!["unknown operation "@ + request.operation@],
        ),
{
    assert(lookup_operation(e.operations, request.operation@) is None);
}

} // verus!
