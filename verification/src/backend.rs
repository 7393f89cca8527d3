//! Backend descriptions and selection: which agent backend serves a tool,
//! by configuration override, tool binding, capability or preference.
use vstd::prelude::*;

use crate::config::BackendId;
use crate::policy::{BackendBinding, ToolDefinition};
use crate::profile::{model_of_args, AgentProfile};
use crate::text::{clone_strings, concat2, owned, str_eq, strings_contain, strings_view};
use crate::tools::ToolSpec;

verus! {

/// Capabilities a backend advertises.
#[derive(Debug, Clone)]
pub struct BackendCapabilities {
    pub tags: Vec<String>,
    pub max_tokens: Option<u64>,
    pub supports_streaming: bool,
}

impl Default for BackendCapabilities {
    /// No tags, no token limit, no streaming.
    fn default() -> (r: Self)
        ensures
            r.tags@.len() == 0,
            r.max_tokens is None,
            !r.supports_streaming,
    {
        BackendCapabilities { tags: Vec::new(), max_tokens: None, supports_streaming: false }
    }
}

/// Errors of a backend invocation.
#[derive(Debug, Clone)]
pub enum BackendError {
    Unavailable(String),
    Protocol(String),
    SchemaViolation(String),
    Timeout,
}

pub open spec fn backend_error_message(e: BackendError) -> Seq<char> {
    match e {
        BackendError::Unavailable(m) => "backend unavailable: "@ + m@,
        BackendError::Protocol(m) => "protocol error: "@ + m@,
        BackendError::SchemaViolation(m) => "schema violation: "@ + m@,
        BackendError::Timeout => "timeout"@,
    }
}

impl BackendError {
    /// The human-readable message.
    pub fn message(&self) -> (r: String)
        ensures
            r@ == backend_error_message(*self),
    {
        match self {
            BackendError::Unavailable(m) => concat2("backend unavailable: ", m.as_str()),
            BackendError::Protocol(m) => concat2("protocol error: ", m.as_str()),
            BackendError::SchemaViolation(m) => concat2("schema violation: ", m.as_str()),
            BackendError::Timeout => owned("timeout"),
        }
    }
}

/// A request dispatched to a backend agent; `context` is the JSON text of
/// the tool-specific context projection.
#[derive(Debug, Clone)]
pub struct BackendRequest {
    pub goal: String,
    pub operation: String,
    pub output_schema: String,
    pub read_paths: Vec<String>,
    pub context: String,
}

/// What selection reads of a backend: its id and capability tags.
#[derive(Debug, Clone)]
pub struct BackendInfo {
    pub id: String,
    pub tags: Vec<String>,
}

/// `tags` holds `tag`.
pub open spec fn has_tag(tags: Seq<String>, tag: Seq<char>) -> bool {
    exists|j: int| 0 <= j < tags.len() && (#[trigger] tags[j])@ == tag
}

/// The index of the first backend in `available` (from `i` on) that
/// advertises `tag`.
pub open spec fn first_with_tag(available: Seq<BackendInfo>, tag: Seq<char>, i: int) -> Option<int>
    decreases available.len() - i,
{
    if i < 0 || i >= available.len() {
        None
    } else if has_tag(available[i].tags@, tag) {
        Some(i)
    } else {
        first_with_tag(available, tag, i + 1)
    }
}

/// Some backend in `available` has id `id`.
pub open spec fn has_backend(available: Seq<BackendInfo>, id: Seq<char>) -> bool {
    exists|j: int| 0 <= j < available.len() && (#[trigger] available[j]).id@ == id
}

fn tags_contain(tags: &Vec<String>, tag: &str) -> (r: bool)
    ensures
        r == has_tag(tags@, tag@),
{
    let r = strings_contain(tags, tag);
    proof {
        if r {
            let k = choose|k: int| 0 <= k < strings_view(tags@).len() && strings_view(tags@)[k] == tag@;
            assert(tags@[k]@ == tag@);
        } else {
            assert forall|j: int| 0 <= j < tags@.len() implies (#[trigger] tags@[j])@ != tag@ by {
                assert(strings_view(tags@)[j] == tags@[j]@);
            }
        }
    }
    r
}

fn first_index_with_tag(available: &Vec<BackendInfo>, tag: &str) -> (r: Option<usize>)
    ensures
        match r {
            Some(i) => first_with_tag(available@, tag@, 0) == Some(i as int) && i < available@.len(),
            None => first_with_tag(available@, tag@, 0) is None,
        },
{
    let mut i: usize = 0;
    while i < available.len()
        invariant
            i <= available.len(),
            first_with_tag(available@, tag@, 0) == first_with_tag(available@, tag@, i as int),
        decreases available.len() - i,
    {
        if tags_contain(&available[i].tags, tag) {
            return Some(i);
        }
        i = i + 1;
    }
    None
}

/// Capability match first, then the tool's default backend.
pub struct DefaultBackendSelector;

impl DefaultBackendSelector {
    /// The id of the first available backend advertising
    /// `required_capability`, else `default_backend`.
    pub fn select(
        &self,
        required_capability: &str,
        default_backend: &str,
        available: &Vec<BackendInfo>,
    ) -> (r: String)
        ensures
            r@ == match first_with_tag(available@, required_capability@, 0) {
                Some(i) => available@[i].id@,
                None => default_backend@,
            },
    {
        match first_index_with_tag(available, required_capability) {
            Some(i) => owned(available[i].id.as_str()),
            None => owned(default_backend),
        }
    }
}

/// An explicit preference, with a fallback.
pub struct PreferredBackendSelector {
    pub preferred_backend: String,
    pub fallback_backend: String,
}

impl PreferredBackendSelector {
    /// The preferred backend when it is available, else the fallback;
    /// capabilities are not consulted.
    pub fn select(
        &self,
        required_capability: &str,
        default_backend: &str,
        available: &Vec<BackendInfo>,
    ) -> (r: String)
        ensures
            r@ == if has_backend(available@, self.preferred_backend@) {
                self.preferred_backend@
            } else {
                self.fallback_backend@
            },
    {
        let mut i: usize = 0;
        while i < available.len()
            invariant
                i <= available.len(),
                forall|k: int| 0 <= k < i ==> (#[trigger] available@[k]).id@ != self.preferred_backend@,
            decreases available.len() - i,
        {
            if str_eq(available[i].id.as_str(), self.preferred_backend.as_str()) {
                return owned(self.preferred_backend.as_str());
            }
            i = i + 1;
        }
        owned(self.fallback_backend.as_str())
    }
}

/// The position of the backend registered as `id`, searching from `i` on.
pub open spec fn index_of_backend(s: Seq<BackendInfo>, id: Seq<char>, i: int) -> Option<int>
    decreases s.len() - i,
{
    if i < 0 || i >= s.len() {
        None
    } else if s[i].id@ == id {
        Some(i)
    } else {
        index_of_backend(s, id, i + 1)
    }
}

/// No two backends share an id.
pub open spec fn unique_backend_ids(s: Seq<BackendInfo>) -> bool {
    forall|a: int, b: int|
        0 <= a < s.len() && 0 <= b < s.len() && a != b ==> (#[trigger] s[a]).id@ != (#[trigger] s[b]).id@
}

/// A found position holds the id; nothing from `i` on holds it when none is found.
proof fn lemma_index_of_backend(s: Seq<BackendInfo>, id: Seq<char>, i: int)
    requires
        0 <= i,
    ensures
        match index_of_backend(s, id, i) {
            Some(k) => i <= k < s.len() && s[k].id@ == id,
            None => forall|j: int| i <= j < s.len() ==> (#[trigger] s[j]).id@ != id,
        },
    decreases s.len() - i,
{
    if i < s.len() && s[i].id@ != id {
        lemma_index_of_backend(s, id, i + 1);
    }
}

/// The first position holding `id` from `k` on is `m` when `m` holds it
/// and nothing between them does.
proof fn lemma_index_of_backend_at(s: Seq<BackendInfo>, id: Seq<char>, k: int, m: int)
    requires
        0 <= k <= m < s.len(),
        s[m].id@ == id,
        forall|j: int| k <= j < m ==> (#[trigger] s[j]).id@ != id,
    ensures
        index_of_backend(s, id, k) == Some(m),
    decreases m - k,
{
    if k < m {
        lemma_index_of_backend_at(s, id, k + 1, m);
    }
}

/// The registry contents after registering `backend` into `s`.
pub open spec fn registered(s: Seq<BackendInfo>, backend: BackendInfo) -> Seq<BackendInfo> {
    match index_of_backend(s, backend.id@, 0) {
        Some(i) => s.update(i, backend),
        None => s.push(backend),
    }
}

/// A registered backend is found again under its id, and every other id
/// still finds what it found before.
pub proof fn lemma_register_then_get(s: Seq<BackendInfo>, backend: BackendInfo, other: Seq<char>)
    requires
        unique_backend_ids(s),
        other != backend.id@,
    ensures
        index_of_backend(registered(s, backend), backend.id@, 0) matches Some(k)
            && registered(s, backend)[k] == backend,
        match index_of_backend(s, other, 0) {
            Some(j) => index_of_backend(registered(s, backend), other, 0) == Some(j)
                && registered(s, backend)[j] == s[j],
            None => index_of_backend(registered(s, backend), other, 0) is None,
        },
{
    let t = registered(s, backend);
    lemma_index_of_backend(s, backend.id@, 0);
    lemma_index_of_backend(s, other, 0);
    match index_of_backend(s, backend.id@, 0) {
        Some(i) => {
            assert forall|j: int| 0 <= j < i implies (#[trigger] t[j]).id@ != backend.id@ by {
                assert(t[j] == s[j]);
            }
            lemma_index_of_backend_at(t, backend.id@, 0, i);
        },
        None => {
            assert forall|j: int| 0 <= j < s.len() implies (#[trigger] t[j]).id@ != backend.id@ by {
                assert(t[j] == s[j]);
            }
            lemma_index_of_backend_at(t, backend.id@, 0, s.len() as int);
        },
    }
    match index_of_backend(s, other, 0) {
        Some(j) => {
            assert forall|x: int| 0 <= x < j implies (#[trigger] t[x]).id@ != other by {
                if t[x] != s[x] {
                    assert(t[x] == backend);
                }
            }
            assert(t[j] == s[j]);
            lemma_index_of_backend_at(t, other, 0, j);
        },
        None => {
            lemma_index_of_backend(t, other, 0);
            if let Some(y) = index_of_backend(t, other, 0) {
                if y < s.len() {
                    assert(t[y] == s[y] || t[y] == backend);
                }
            }
        },
    }
}

/// The backends a server knows, each under its own id, in the order they
/// were first registered.
pub struct BackendRegistry {
    backends: Vec<BackendInfo>,
}

impl View for BackendRegistry {
    type V = Seq<BackendInfo>;

    closed spec fn view(&self) -> Seq<BackendInfo> {
        self.backends@
    }
}

impl BackendRegistry {
    pub closed spec fn wf(&self) -> bool {
        unique_backend_ids(self.backends@)
    }

    pub fn new() -> (r: Self)
        ensures
            r.wf(),
            r@ == Seq::<BackendInfo>::empty(),
    {
        BackendRegistry { backends: Vec::new() }
    }

    /// A well-formed registry holds each id at most once.
    pub proof fn lemma_wf_unique(&self)
        requires
            self.wf(),
        ensures
            unique_backend_ids(self@),
    {
    }

    fn position(&self, id: &str) -> (r: Option<usize>)
        ensures
            match r {
                Some(i) => index_of_backend(self@, id@, 0) == Some(i as int) && i < self@.len(),
                None => index_of_backend(self@, id@, 0) is None,
            },
    {
        let mut i: usize = 0;
        while i < self.backends.len()
            invariant
                i <= self.backends@.len(),
                index_of_backend(self@, id@, 0) == index_of_backend(self@, id@, i as int),
            decreases self.backends@.len() - i,
        {
            if str_eq(self.backends[i].id.as_str(), id) {
                return Some(i);
            }
            i = i + 1;
        }
        None
    }

    /// Registers `backend` under its id, replacing the backend registered
    /// under the same id.
    pub fn register(&mut self, backend: BackendInfo)
        requires
            old(self).wf(),
        ensures
            final(self).wf(),
            final(self)@ == registered(old(self)@, backend),
    {
        proof {
            lemma_index_of_backend(self@, backend.id@, 0);
        }
        match self.position(backend.id.as_str()) {
            Some(i) => {
                self.backends.set(i, backend);
            },
            None => {
                self.backends.push(backend);
            },
        }
    }

    /// The backend registered as `id`.
    pub fn get(&self, id: &str) -> (r: Option<&BackendInfo>)
        ensures
            match index_of_backend(self@, id@, 0) {
                Some(i) => r matches Some(b) && *b == self@[i],
                None => r is None,
            },
    {
        match self.position(id) {
            Some(i) => Some(&self.backends[i]),
            None => None,
        }
    }

    /// The first registered backend advertising `tag`, else the one
    /// registered as `default_id`, which must then exist.
    pub fn select_by_tag(&self, tag: &str, default_id: &str) -> (r: &BackendInfo)
        requires
            first_with_tag(self@, tag@, 0) is Some || index_of_backend(self@, default_id@, 0) is Some,
        ensures
            match first_with_tag(self@, tag@, 0) {
                Some(i) => *r == self@[i],
                None => match index_of_backend(self@, default_id@, 0) {
                    Some(j) => *r == self@[j],
                    None => false,
                },
            },
    {
        match first_index_with_tag(&self.backends, tag) {
            Some(i) => &self.backends[i],
            None => match self.position(default_id) {
                Some(j) => &self.backends[j],
                None => {
                    proof {
                        assert(false);
                    }
                    &self.backends[0]
                },
            },
        }
    }

    /// The registered ids, in registration order.
    pub fn list_ids(&self) -> (r: Vec<String>)
        ensures
            strings_view(r@) == self@.map_values(|b: BackendInfo| b.id@),
    {
        let mut ids: Vec<String> = Vec::new();
        let mut i: usize = 0;
        while i < self.backends.len()
            invariant
                i <= self.backends@.len(),
                strings_view(ids@) == self@.subrange(0, i as int).map_values(|b: BackendInfo| b.id@),
            decreases self.backends@.len() - i,
        {
            let ghost before = ids@;
            ids.push(owned(self.backends[i].id.as_str()));
            proof {
                assert(strings_view(ids@) =~= strings_view(before).push(self@[i as int].id@));
                assert(self@.subrange(0, i + 1).map_values(|b: BackendInfo| b.id@) =~= self@.subrange(
                    0,
                    i as int,
                ).map_values(|b: BackendInfo| b.id@).push(self@[i as int].id@));
            }
            i = i + 1;
        }
        assert(self@.subrange(0, self@.len() as int) =~= self@);
        ids
    }
}

/// A backend that answers every review with a fixed pass.
#[derive(Debug, Clone)]
pub struct MockBackend {
    pub id: String,
}

impl MockBackend {
    pub fn new(id: &str) -> (r: Self)
        ensures
            r.id@ == id@,
    {
        MockBackend { id: owned(id) }
    }

    pub fn backend_id(&self) -> (r: &str)
        ensures
            r@ == self.id@,
    {
        self.id.as_str()
    }

    /// Tag `mock`, no token limit, no streaming.
    pub fn capabilities(&self) -> (r: BackendCapabilities)
        ensures
            strings_view(r.tags@) == seq!["mock"@],
            r.max_tokens is None,
            !r.supports_streaming,
    {
        let mut tags: Vec<String> = Vec::new();
        tags.push(owned("mock"));
        assert(strings_view(tags@) =~= seq!["mock"@]);
        BackendCapabilities { tags, max_tokens: None, supports_streaming: false }
    }

    /// The id and tags selection reads.
    pub fn info(&self) -> (r: BackendInfo)
        ensures
            r.id@ == self.id@,
            strings_view(r.tags@) == seq!["mock"@],
    {
        BackendInfo { id: owned(self.id.as_str()), tags: self.capabilities().tags }
    }

    /// The output schema of the mock's responses.
    pub fn output_schema() -> (r: &'static str)
        ensures
            r@ == "pure_review_result_v1"@,
    {
        "pure_review_result_v1"
    }
}

/// How a Reasonix session is launched: model and working directory.
#[derive(Debug, Clone)]
pub struct ReasonixLaunch {
    pub model: String,
    pub cwd: String,
}

/// An ACP backend driven by an agent profile.
#[derive(Debug, Clone)]
pub struct AcpBackend {
    pub profile: AgentProfile,
    pub launch: ReasonixLaunch,
}

impl AcpBackend {
    /// The backend for `profile`: its runner uses the model named after
    /// `--model` in the profile's arguments and the profile's directory.
    pub fn new(profile: AgentProfile) -> (r: Self)
        ensures
            r.profile == profile,
            r.launch.model@ == model_of_args(strings_view(profile.args@)),
            r.launch.cwd@ == profile.cwd@,
    {
        let model = profile.model();
        let cwd = owned(profile.cwd.as_str());
        AcpBackend { profile, launch: ReasonixLaunch { model, cwd } }
    }

    /// The backend for the default Reasonix profile.
    pub fn with_model(model: &str, cwd: &str) -> (r: Self)
        ensures
            r.profile.backend_id@ == "reasonix"@,
            r.launch.model@ == model@,
            r.launch.cwd@ == cwd@,
    {
        let profile = AgentProfile::reasonix(cwd, model);
        proof {
            crate::profile::lemma_reasonix_profile_model(model@);
        }
        Self::new(profile)
    }

    pub fn backend_id(&self) -> (r: &str)
        ensures
            r@ == self.profile.backend_id@,
    {
        self.profile.backend_id.as_str()
    }

    /// The profile's tags, streaming, no token limit.
    pub fn capabilities(&self) -> (r: BackendCapabilities)
        ensures
            r.tags@ == self.profile.capabilities@,
            r.max_tokens is None,
            r.supports_streaming,
    {
        BackendCapabilities {
            tags: self.profile.capability_tags(),
            max_tokens: None,
            supports_streaming: true,
        }
    }

    /// The id and tags selection reads.
    pub fn info(&self) -> (r: BackendInfo)
        ensures
            r.id@ == self.profile.backend_id@,
            r.tags@ == self.profile.capabilities@,
    {
        BackendInfo { id: owned(self.profile.backend_id.as_str()), tags: self.profile.capability_tags() }
    }
}

/// The backend that serves a tool.
#[derive(Debug, Clone)]
pub enum Backend {
    Mock,
    Reasonix(ReasonixLaunch),
}

/// The backend named by `id`, Reasonix with `model` in `repo_root`.
pub open spec fn backend_for_id(id: BackendId, model: Seq<char>, repo_root: Seq<char>, b: Backend) -> bool {
    match id {
        BackendId::Mock => b is Mock,
        BackendId::Reasonix => b matches Backend::Reasonix(l) && l.model@ == model && l.cwd@
            == repo_root,
    }
}

/// The backend a tool binding names.
pub open spec fn backend_for_binding(
    binding: BackendBinding,
    model: Seq<char>,
    repo_root: Seq<char>,
    b: Backend,
) -> bool {
    match binding {
        BackendBinding::Mock => b is Mock,
        BackendBinding::ReasonixAcp => b matches Backend::Reasonix(l) && l.model@ == model
            && l.cwd@ == repo_root,
    }
}

fn reasonix_backend(model: &str, repo_root: &str) -> (r: Backend)
    ensures
        r matches Backend::Reasonix(l) && l.model@ == model@ && l.cwd@ == repo_root@,
{
    Backend::Reasonix(ReasonixLaunch { model: owned(model), cwd: owned(repo_root) })
}

impl Backend {
    /// The backend a configuration names.
    pub fn from_config(backend_id: BackendId, reasonix_model: &str, repo_root: &str) -> (r: Self)
        ensures
            backend_for_id(backend_id, reasonix_model@, repo_root@, r),
    {
        match backend_id {
            BackendId::Mock => Backend::Mock,
            BackendId::Reasonix => reasonix_backend(reasonix_model, repo_root),
        }
    }

    /// The backend a tool definition is bound to.
    pub fn from_tool_binding(tool: &ToolDefinition, reasonix_model: &str, repo_root: &str) -> (r:
        Self)
        ensures
            backend_for_binding(tool.spec_backend_binding(), reasonix_model@, repo_root@, r),
    {
        match tool.backend_binding() {
            BackendBinding::Mock => Backend::Mock,
            BackendBinding::ReasonixAcp => reasonix_backend(reasonix_model, repo_root),
        }
    }

    /// A configured override wins over the tool's own binding.
    pub fn from_configured_tool(
        backend_override: Option<BackendId>,
        tool: &ToolDefinition,
        reasonix_model: &str,
        repo_root: &str,
    ) -> (r: Self)
        ensures
            match backend_override {
                Some(id) => backend_for_id(id, reasonix_model@, repo_root@, r),
                None => backend_for_binding(
                    tool.spec_backend_binding(),
                    reasonix_model@,
                    repo_root@,
                    r,
                ),
            },
    {
        match backend_override {
            Some(backend_id) => Self::from_config(backend_id, reasonix_model, repo_root),
            None => Self::from_tool_binding(tool, reasonix_model, repo_root),
        }
    }
}

/// Capability selection between Reasonix and the mock, in that order,
/// names the Reasonix backend.
pub open spec fn selection_names_reasonix(
    tool_spec: ToolSpec,
    mock_backend: BackendInfo,
    reasonix_backend: BackendInfo,
) -> bool {
    let available = seq![reasonix_backend, mock_backend];
    let selected = match first_with_tag(available, tool_spec.required_capability@, 0) {
        Some(i) => available[i].id@,
        None => tool_spec.default_backend_id@,
    };
    selected == reasonix_backend.id@
}

/// The id of the backend the server starts with: the configured override,
/// else the capability selection between Reasonix and the mock (in that
/// order), falling back to the mock unless the selection names Reasonix.
pub fn select_startup_backend(
    backend_override: Option<BackendId>,
    tool_spec: &ToolSpec,
    mock_backend: &BackendInfo,
    reasonix_backend: &BackendInfo,
) -> (r: String)
    ensures
        r@ == (match backend_override {
            Some(id) => match id {
                BackendId::Mock => mock_backend.id@,
                BackendId::Reasonix => reasonix_backend.id@,
            },
            None => if selection_names_reasonix(*tool_spec, *mock_backend, *reasonix_backend) {
                reasonix_backend.id@
            } else {
                mock_backend.id@
            },
        }),
{
    match backend_override {
        Some(id) => match id {
            BackendId::Mock => owned(mock_backend.id.as_str()),
            BackendId::Reasonix => owned(reasonix_backend.id.as_str()),
        },
        None => {
            let mut available: Vec<BackendInfo> = Vec::new();
            available.push(BackendInfo {
                id: owned(reasonix_backend.id.as_str()),
                tags: clone_strings(&reasonix_backend.tags),
            });
            available.push(BackendInfo {
                id: owned(mock_backend.id.as_str()),
                tags: clone_strings(&mock_backend.tags),
            });
            let selector = DefaultBackendSelector;
            let selected = selector.select(
                tool_spec.required_capability.as_str(),
                tool_spec.default_backend_id.as_str(),
                &available,
            );
            proof {
                let want = seq![*reasonix_backend, *mock_backend];
                let cap = tool_spec.required_capability@;
                assert(available@[0].tags@ == want[0].tags@);
                assert(available@[1].tags@ == want[1].tags@);
                assert(first_with_tag(available@, cap, 2) is None);
                assert(first_with_tag(want, cap, 2) is None);
                assert(first_with_tag(available@, cap, 1) == first_with_tag(want, cap, 1));
                assert(first_with_tag(available@, cap, 0) == first_with_tag(want, cap, 0));
                assert(available@[0].id@ == want[0].id@);
                assert(available@[1].id@ == want[1].id@);
            }
            if str_eq(selected.as_str(), reasonix_backend.id.as_str()) {
                owned(reasonix_backend.id.as_str())
            } else {
                owned(mock_backend.id.as_str())
            }
        },
    }
}

} // verus!
