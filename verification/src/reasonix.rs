//! The Reasonix ACP runner's decisions: its errors and which of them
//! drop or retry a session, its counters, the permission answers it gives,
//! the prompt it sends, and the session life cycle of one review run.
use vstd::prelude::*;

use crate::backend::BackendError;
use crate::context::{context_section, ContextProjection};
use crate::json::{json_leaf, leaf_at, JsonLeaf, JsonLeafView};
use crate::sandbox::SandboxConfig;
use crate::schema::json_parse_failure;
use crate::text::{concat2, concat3, contains_seq, contains_str, opt_view, owned, replace_all,
    replace_str, str_eq};

verus! {

/// Failures of a Reasonix session.
#[derive(Debug, Clone, PartialEq, Eq)]
pub enum ReasonixError {
    Spawn(String),
    Io(String),
    Protocol(String),
    Timeout(String),
}

pub open spec fn reasonix_error_message(e: ReasonixError) -> Seq<char> {
    match e {
        ReasonixError::Spawn(m) => "spawn: "@ + m@,
        ReasonixError::Io(m) => "I/O: "@ + m@,
        ReasonixError::Protocol(m) => "protocol: "@ + m@,
        ReasonixError::Timeout(m) => "timeout: "@ + m@,
    }
}

/// Errors that poison the ACP stream, so the session is dropped.
pub open spec fn drops_session(e: ReasonixError) -> bool {
    !(e is Spawn)
}

/// Errors worth one retry on a fresh session: I/O and protocol errors,
/// except running out of tool calls.
pub open spec fn retryable(e: ReasonixError) -> bool {
    (e is Io || e is Protocol) && !contains_seq(
        reasonix_error_message(e),
        "max observed tool calls"@,
    )
}

impl ReasonixError {
    /// The human-readable message.
    pub fn message(&self) -> (r: String)
        ensures
            r@ == reasonix_error_message(*self),
    {
        match self {
            ReasonixError::Spawn(m) => concat2("spawn: ", m.as_str()),
            ReasonixError::Io(m) => concat2("I/O: ", m.as_str()),
            ReasonixError::Protocol(m) => concat2("protocol: ", m.as_str()),
            ReasonixError::Timeout(m) => concat2("timeout: ", m.as_str()),
        }
    }

    /// Whether the current session must be dropped after this error.
    pub fn should_drop_session(&self) -> (r: bool)
        ensures
            r == drops_session(*self),
    {
        match self {
            ReasonixError::Spawn(_) => false,
            _ => true,
        }
    }

    /// Whether one retry on a fresh session is allowed.
    pub fn is_retryable(&self) -> (r: bool)
        ensures
            r == retryable(*self),
    {
        match self {
            ReasonixError::Io(_) | ReasonixError::Protocol(_) => {
                let m = self.message();
                !contains_str(m.as_str(), "max observed tool calls")
            },
            _ => false,
        }
    }

    /// The backend error this failure surfaces as.
    pub fn to_backend_error(&self) -> (r: BackendError)
        ensures
            match *self {
                ReasonixError::Spawn(m) => r matches BackendError::Unavailable(x) && x@ == m@,
                ReasonixError::Io(m) => r matches BackendError::Unavailable(x) && x@ == m@,
                ReasonixError::Protocol(m) => r matches BackendError::Protocol(x) && x@ == m@,
                ReasonixError::Timeout(_) => r is Timeout,
            },
    {
        match self {
            ReasonixError::Spawn(m) => BackendError::Unavailable(owned(m.as_str())),
            ReasonixError::Io(m) => BackendError::Unavailable(owned(m.as_str())),
            ReasonixError::Protocol(m) => BackendError::Protocol(owned(m.as_str())),
            ReasonixError::Timeout(_) => BackendError::Timeout,
        }
    }
}

/// The error when the CLI cannot be started.
pub open spec fn spawn_error_message(command: Seq<char>, not_found: bool, detail: Seq<char>) -> Seq<char> {
    if not_found {
        "Reasonix CLI not found at '"@ + command
            + "'. Set COAGENT_REASONIX_PATH or add reasonix to PATH. Original error: "@ + detail
    } else {
        "failed to start Reasonix CLI '"@ + command
            + "'. Check COAGENT_REASONIX_PATH, PATH, and the sandbox environment. Original error: "@
            + detail
    }
}

/// The spawn error for `command`; `not_found` when the executable is
/// missing, `detail` the operating system's message.
pub fn spawn_error(command: &str, not_found: bool, detail: &str) -> (r: ReasonixError)
    ensures
        r matches ReasonixError::Spawn(m) && m@ == spawn_error_message(command@, not_found, detail@),
{
    let mut m = if not_found {
        owned("Reasonix CLI not found at '")
    } else {
        owned("failed to start Reasonix CLI '")
    };
    m.append(command);
    if not_found {
        m.append("'. Set COAGENT_REASONIX_PATH or add reasonix to PATH. Original error: ");
    } else {
        m.append(
            "'. Check COAGENT_REASONIX_PATH, PATH, and the sandbox environment. Original error: ",
        );
    }
    m.append(detail);
    ReasonixError::Spawn(m)
}

/// The error when the ACP process closes its output.
pub fn closed_stdout_error() -> (r: ReasonixError)
    ensures
        r matches ReasonixError::Protocol(m) && m@ == "ACP process closed stdout"@,
{
    ReasonixError::Protocol(owned("ACP process closed stdout"))
}

/// The error when a prompt outlives its deadline.
pub fn prompt_timeout_error() -> (r: ReasonixError)
    ensures
        r matches ReasonixError::Timeout(m) && m@ == "ACP prompt timed out"@,
{
    ReasonixError::Timeout(owned("ACP prompt timed out"))
}

/// The error when the collected reply is no review.
pub fn parse_review_error(detail: &str) -> (r: ReasonixError)
    ensures
        r matches ReasonixError::Protocol(m) && m@ == "parse review: "@ + detail@,
{
    ReasonixError::Protocol(concat2("parse review: ", detail))
}

/// Counters of one runner, reported by the runtime status tool.
#[derive(Debug, Clone, PartialEq, Eq)]
pub struct ReasonixRunnerStats {
    pub has_session: bool,
    pub session_created_count: u64,
    pub prompt_count: u64,
    pub reconnect_count: u64,
    pub timeout_count: u64,
    pub protocol_error_count: u64,
    pub io_error_count: u64,
    pub spawn_error_count: u64,
    pub tool_call_count: u64,
    pub tool_call_update_count: u64,
    pub completed_tool_call_count: u64,
    pub failed_tool_call_count: u64,
    pub permission_request_count: u64,
    pub auto_allowed_permission_count: u64,
    pub auto_rejected_permission_count: u64,
    pub last_error: Option<String>,
}

impl Default for ReasonixRunnerStats {
    /// No session, every counter zero, no error.
    fn default() -> (r: Self)
        ensures
            r@ == zero_stats(),
    {
        ReasonixRunnerStats {
            has_session: false,
            session_created_count: 0,
            prompt_count: 0,
            reconnect_count: 0,
            timeout_count: 0,
            protocol_error_count: 0,
            io_error_count: 0,
            spawn_error_count: 0,
            tool_call_count: 0,
            tool_call_update_count: 0,
            completed_tool_call_count: 0,
            failed_tool_call_count: 0,
            permission_request_count: 0,
            auto_allowed_permission_count: 0,
            auto_rejected_permission_count: 0,
            last_error: None,
        }
    }
}

/// The counters with the last error as text.
pub struct StatsView {
    pub has_session: bool,
    pub session_created_count: u64,
    pub prompt_count: u64,
    pub reconnect_count: u64,
    pub timeout_count: u64,
    pub protocol_error_count: u64,
    pub io_error_count: u64,
    pub spawn_error_count: u64,
    pub tool_call_count: u64,
    pub tool_call_update_count: u64,
    pub completed_tool_call_count: u64,
    pub failed_tool_call_count: u64,
    pub permission_request_count: u64,
    pub auto_allowed_permission_count: u64,
    pub auto_rejected_permission_count: u64,
    pub last_error: Option<Seq<char>>,
}

impl View for ReasonixRunnerStats {
    type V = StatsView;

    open spec fn view(&self) -> StatsView {
        StatsView {
            has_session: self.has_session,
            session_created_count: self.session_created_count,
            prompt_count: self.prompt_count,
            reconnect_count: self.reconnect_count,
            timeout_count: self.timeout_count,
            protocol_error_count: self.protocol_error_count,
            io_error_count: self.io_error_count,
            spawn_error_count: self.spawn_error_count,
            tool_call_count: self.tool_call_count,
            tool_call_update_count: self.tool_call_update_count,
            completed_tool_call_count: self.completed_tool_call_count,
            failed_tool_call_count: self.failed_tool_call_count,
            permission_request_count: self.permission_request_count,
            auto_allowed_permission_count: self.auto_allowed_permission_count,
            auto_rejected_permission_count: self.auto_rejected_permission_count,
            last_error: opt_view(self.last_error),
        }
    }
}

pub open spec fn zero_stats() -> StatsView {
    StatsView {
        has_session: false,
        session_created_count: 0,
        prompt_count: 0,
        reconnect_count: 0,
        timeout_count: 0,
        protocol_error_count: 0,
        io_error_count: 0,
        spawn_error_count: 0,
        tool_call_count: 0,
        tool_call_update_count: 0,
        completed_tool_call_count: 0,
        failed_tool_call_count: 0,
        permission_request_count: 0,
        auto_allowed_permission_count: 0,
        auto_rejected_permission_count: 0,
        last_error: None,
    }
}

/// No counter is at its maximum, so each can count one more event.
pub open spec fn counters_have_room(s: StatsView) -> bool {
    &&& s.session_created_count < u64::MAX
    &&& s.prompt_count < u64::MAX
    &&& s.reconnect_count < u64::MAX
    &&& s.timeout_count < u64::MAX
    &&& s.protocol_error_count < u64::MAX
    &&& s.io_error_count < u64::MAX
    &&& s.spawn_error_count < u64::MAX
    &&& s.tool_call_count < u64::MAX
    &&& s.tool_call_update_count < u64::MAX
    &&& s.completed_tool_call_count < u64::MAX
    &&& s.failed_tool_call_count < u64::MAX
    &&& s.permission_request_count < u64::MAX
    &&& s.auto_allowed_permission_count < u64::MAX
    &&& s.auto_rejected_permission_count < u64::MAX
}

/// Whether every counter can count one more event.
pub fn counters_have_room_now(s: &ReasonixRunnerStats) -> (r: bool)
    ensures
        r == counters_have_room(s@),
{
    s.session_created_count < u64::MAX && s.prompt_count < u64::MAX && s.reconnect_count
        < u64::MAX && s.timeout_count < u64::MAX && s.protocol_error_count < u64::MAX
        && s.io_error_count < u64::MAX && s.spawn_error_count < u64::MAX && s.tool_call_count
        < u64::MAX && s.tool_call_update_count < u64::MAX && s.completed_tool_call_count
        < u64::MAX && s.failed_tool_call_count < u64::MAX && s.permission_request_count
        < u64::MAX && s.auto_allowed_permission_count < u64::MAX
        && s.auto_rejected_permission_count < u64::MAX
}

/// The counters after recording error `e`: its kind counted, its message
/// kept as the last error.
pub open spec fn with_error(s: StatsView, e: ReasonixError) -> StatsView {
    let kept = StatsView { last_error: Some(reasonix_error_message(e)), ..s };
    match e {
        ReasonixError::Spawn(_) => StatsView {
            spawn_error_count: (s.spawn_error_count + 1) as u64,
            ..kept
        },
        ReasonixError::Io(_) => StatsView { io_error_count: (s.io_error_count + 1) as u64, ..kept },
        ReasonixError::Protocol(_) => StatsView {
            protocol_error_count: (s.protocol_error_count + 1) as u64,
            ..kept
        },
        ReasonixError::Timeout(_) => StatsView {
            timeout_count: (s.timeout_count + 1) as u64,
            ..kept
        },
    }
}

/// The counters after a new session: it is held and counted.
pub open spec fn with_session_created(s: StatsView) -> StatsView {
    StatsView {
        has_session: true,
        session_created_count: (s.session_created_count + 1) as u64,
        ..s
    }
}

/// The counters after one more prompt.
pub open spec fn with_prompt(s: StatsView) -> StatsView {
    StatsView { prompt_count: (s.prompt_count + 1) as u64, ..s }
}

/// The counters after one more reconnect.
pub open spec fn with_reconnect(s: StatsView) -> StatsView {
    StatsView { reconnect_count: (s.reconnect_count + 1) as u64, ..s }
}

/// The counters with the session flag set to `held`.
pub open spec fn with_session_flag(s: StatsView, held: bool) -> StatsView {
    StatsView { has_session: held, ..s }
}

impl ReasonixRunnerStats {
    /// A copy of the counters.
    pub fn snapshot(&self) -> (r: Self)
        ensures
            r@ == self@,
    {
        ReasonixRunnerStats {
            has_session: self.has_session,
            session_created_count: self.session_created_count,
            prompt_count: self.prompt_count,
            reconnect_count: self.reconnect_count,
            timeout_count: self.timeout_count,
            protocol_error_count: self.protocol_error_count,
            io_error_count: self.io_error_count,
            spawn_error_count: self.spawn_error_count,
            tool_call_count: self.tool_call_count,
            tool_call_update_count: self.tool_call_update_count,
            completed_tool_call_count: self.completed_tool_call_count,
            failed_tool_call_count: self.failed_tool_call_count,
            permission_request_count: self.permission_request_count,
            auto_allowed_permission_count: self.auto_allowed_permission_count,
            auto_rejected_permission_count: self.auto_rejected_permission_count,
            last_error: crate::text::clone_opt(&self.last_error),
        }
    }

    /// Counts error `e` by kind and keeps its message as the last error.
    pub fn record_error(&mut self, e: &ReasonixError)
        requires
            old(self).spawn_error_count < u64::MAX,
            old(self).io_error_count < u64::MAX,
            old(self).protocol_error_count < u64::MAX,
            old(self).timeout_count < u64::MAX,
        ensures
            final(self)@ == with_error(old(self)@, *e),
    {
        match e {
            ReasonixError::Spawn(_) => self.spawn_error_count = self.spawn_error_count + 1,
            ReasonixError::Io(_) => self.io_error_count = self.io_error_count + 1,
            ReasonixError::Protocol(_) => self.protocol_error_count = self.protocol_error_count + 1,
            ReasonixError::Timeout(_) => self.timeout_count = self.timeout_count + 1,
        }
        self.last_error = Some(e.message());
    }

    /// A session was created and is now held.
    pub fn record_session_created(&mut self)
        requires
            old(self).session_created_count < u64::MAX,
        ensures
            final(self)@ == with_session_created(old(self)@),
    {
        self.has_session = true;
        self.session_created_count = self.session_created_count + 1;
    }

    /// Whether a session is held.
    pub fn set_has_session(&mut self, held: bool)
        ensures
            final(self)@ == with_session_flag(old(self)@, held),
    {
        self.has_session = held;
    }

    /// One more prompt was sent.
    pub fn record_prompt(&mut self)
        requires
            old(self).prompt_count < u64::MAX,
        ensures
            final(self)@ == with_prompt(old(self)@),
    {
        self.prompt_count = self.prompt_count + 1;
    }

    /// One more reconnect was attempted.
    pub fn record_reconnect(&mut self)
        requires
            old(self).reconnect_count < u64::MAX,
        ensures
            final(self)@ == with_reconnect(old(self)@),
    {
        self.reconnect_count = self.reconnect_count + 1;
    }
}

/// What the runtime status tool reports: the selected backend, the
/// repository root, and the Reasonix counters when Reasonix is selected.
#[derive(Debug, Clone)]
pub struct RuntimeStatusResponse {
    pub backend: String,
    pub repo_root: String,
    pub reasonix: Option<ReasonixRunnerStats>,
}

/// The runtime status for `backend_id` in `repo_root`.
pub fn runtime_status_response(
    backend_id: &str,
    repo_root: &str,
    reasonix: Option<&ReasonixRunnerStats>,
) -> (r: RuntimeStatusResponse)
    ensures
        r.backend@ == backend_id@,
        r.repo_root@ == repo_root@,
        match reasonix {
            Some(s) => r.reasonix matches Some(x) && x@ == s@,
            None => r.reasonix is None,
        },
{
    RuntimeStatusResponse {
        backend: owned(backend_id),
        repo_root: owned(repo_root),
        reasonix: match reasonix {
            Some(s) => Some(s.snapshot()),
            None => None,
        },
    }
}

/// Tools a review may run without asking: they only read.
pub open spec fn read_only_tool(title: Seq<char>) -> bool {
    title == "read_file"@ || title == "grep"@ || title == "glob"@ || title == "ls"@ || title
        == "list_files"@
}

/// Whether the tool titled `title` only reads; its kind is not consulted.
pub fn is_read_only_tool(title: &str, kind: &str) -> (r: bool)
    ensures
        r == read_only_tool(title@),
{
    str_eq(title, "read_file") || str_eq(title, "grep") || str_eq(title, "glob") || str_eq(
        title,
        "ls",
    ) || str_eq(title, "list_files")
}

/// The answer to a permission request.
#[derive(Debug, Clone, Copy, PartialEq, Eq, Structural)]
pub enum PermissionAnswer {
    AllowOnce,
    RejectOnce,
}

pub open spec fn permission_option_name(a: PermissionAnswer) -> Seq<char> {
    match a {
        PermissionAnswer::AllowOnce => "allow_once"@,
        PermissionAnswer::RejectOnce => "reject_once"@,
    }
}

impl PermissionAnswer {
    /// The option id sent back to the agent.
    pub fn option_id(&self) -> (r: &'static str)
        ensures
            r@ == permission_option_name(*self),
    {
        match self {
            PermissionAnswer::AllowOnce => "allow_once",
            PermissionAnswer::RejectOnce => "reject_once",
        }
    }
}

/// Answers a permission request for the tool titled `title` (the title
/// `?` when the request names none): read-only tools are allowed once,
/// every other tool rejected once; both are counted.
pub fn answer_permission_request(
    stats: &mut ReasonixRunnerStats,
    title: &str,
    kind: &str,
) -> (r: PermissionAnswer)
    requires
        counters_have_room(old(stats)@),
    ensures
        r == (if read_only_tool(title@) {
            PermissionAnswer::AllowOnce
        } else {
            PermissionAnswer::RejectOnce
        }),
        final(stats)@ == permission_counted(old(stats)@, read_only_tool(title@)),
{
    stats.permission_request_count = stats.permission_request_count + 1;
    if is_read_only_tool(title, kind) {
        stats.auto_allowed_permission_count = stats.auto_allowed_permission_count + 1;
        PermissionAnswer::AllowOnce
    } else {
        stats.auto_rejected_permission_count = stats.auto_rejected_permission_count + 1;
        PermissionAnswer::RejectOnce
    }
}

/// The counters after a permission request, allowed or rejected.
pub open spec fn permission_counted(s: StatsView, allowed: bool) -> StatsView {
    if allowed {
        StatsView {
            permission_request_count: (s.permission_request_count + 1) as u64,
            auto_allowed_permission_count: (s.auto_allowed_permission_count + 1) as u64,
            ..s
        }
    } else {
        StatsView {
            permission_request_count: (s.permission_request_count + 1) as u64,
            auto_rejected_permission_count: (s.auto_rejected_permission_count + 1) as u64,
            ..s
        }
    }
}

/// The environment variables a Reasonix process may see.
pub open spec fn reasonix_env_names() -> Seq<Seq<char>> {
    seq![
        "PATH"@,
        "PATHEXT"@,
        "SYSTEMROOT"@,
        "WINDIR"@,
        "COMSPEC"@,
        "APPDATA"@,
        "HOME"@,
        "USERPROFILE"@,
        "DEEPSEEK_API_KEY"@,
        "COAGENT_FAKE_REASONIX_CASE"@,
    ]
}

/// The sandbox of a Reasonix process: default settings with an
/// environment allow list of the platform basics and the API key.
pub fn reasonix_sandbox() -> (r: SandboxConfig)
    ensures
        r.working_directory is None,
        r.env_allowlist@.map_values(|s: String| s@) == reasonix_env_names(),
        r.env_denylist@.len() == 0,
{
    let mut names: Vec<String> = Vec::new();
    names.push(owned("PATH"));
    names.push(owned("PATHEXT"));
    names.push(owned("SYSTEMROOT"));
    names.push(owned("WINDIR"));
    names.push(owned("COMSPEC"));
    names.push(owned("APPDATA"));
    names.push(owned("HOME"));
    names.push(owned("USERPROFILE"));
    names.push(owned("DEEPSEEK_API_KEY"));
    names.push(owned("COAGENT_FAKE_REASONIX_CASE"));
    assert(names@.map_values(|s: String| s@) =~= reasonix_env_names());
    SandboxConfig::new().with_env_allowlist(names)
}

/// The prompt template; `{goal}`, `{diff_path}` and `{context_section}`
/// are filled in, in that order.
pub const REASONIX_REVIEW_PROMPT_TEMPLATE: &'static str = r#"
You are reviewing a code diff.

GOAL: {goal}
DIFF PATH: {diff_path}
{context_section}
Read the available files above, analyze the diff, then return your review as a single JSON object.
Do not call tools, tasks, commands, or external agents.
Return ONLY the JSON. No markdown, no explanation, no surrounding text.

{
  "verdict": "PICK_ONE: pass | needs_fix | risky | unknown | not_applicable",
  "summary": "concise one-sentence summary",
  "findings": [
    {
      "id": "F-001",
      "severity": "PICK_ONE: blocker | major | minor | note",
      "category": "security | correctness | performance | style | maintainability | testing | documentation | architecture",
      "file": "relative/path/to/file.ext",
      "line": 42,
      "issue": "concise description of the problem",
      "evidence": "specific code or reasoning",
      "recommendation": "suggested fix",
      "confidence": 0.95
    }
  ],
  "tests_to_run": ["cargo test -p ..."],
  "risks": ["potential risk if merged as-is"],
  "assumptions": ["assumption made during review"],
  "confidence": 0.85
}

RULES:
1. verdict MUST be one of: pass, needs_fix, risky, unknown, not_applicable
2. severity MUST be one of: blocker, major, minor, note
3. Every finding REQUIRES: severity, category, issue, confidence
4. confidence is 0.0-1.0 (0 = completely uncertain, 1 = completely certain)
5. If no issues found: "findings": []
6. Return ONLY the JSON object
7. Do not call tools, tasks, commands, or external agents
"#;

/// The review prompt: the template with goal, diff path and context
/// section substituted one after the other.
pub open spec fn review_prompt(goal: Seq<char>, diff_path: Seq<char>, c: ContextProjection) -> Seq<char> {
    replace_all(
        replace_all(
            replace_all(REASONIX_REVIEW_PROMPT_TEMPLATE@, "{goal}"@, goal),
            "{diff_path}"@,
            diff_path,
        ),
        "{context_section}"@,
        context_section(c),
    )
}

/// The prompt for a review of `diff_path` with goal `goal`.
pub fn build_review_prompt(goal: &str, diff_path: &str, context: &ContextProjection) -> (r: String)
    ensures
        r@ == review_prompt(goal@, diff_path@, *context),
{
    proof {
        reveal_strlit("{goal}");
        reveal_strlit("{diff_path}");
        reveal_strlit("{context_section}");
    }
    let section = context.render_context_section();
    let with_goal = replace_str(REASONIX_REVIEW_PROMPT_TEMPLATE, "{goal}", goal);
    let with_diff = replace_str(with_goal.as_str(), "{diff_path}", diff_path);
    replace_str(with_diff.as_str(), "{context_section}", section.as_str())
}

/// Where one review run stands.
#[derive(Debug, Clone, PartialEq, Eq)]
pub enum RunPhase {
    /// Nothing done yet.
    Start,
    /// Connecting a session because none was held.
    Connecting,
    /// The prompt is out on the held session.
    Prompting,
    /// The prompt failed with the error held here; a fresh session is
    /// connecting for the one retry.
    Reconnecting(ReasonixError),
    /// The retry prompt is out on the fresh session.
    Retrying,
    /// The run has ended.
    Done,
}

/// What the session side reports back to a run.
#[derive(Debug, Clone, PartialEq, Eq)]
pub enum RunEvent {
    /// The run starts; whether a session is already held.
    Begin(bool),
    Connected,
    ConnectFailed(ReasonixError),
    PromptSucceeded,
    PromptFailed(ReasonixError),
}

/// What the session side does next.
#[derive(Debug, Clone, PartialEq, Eq)]
pub enum RunAction {
    /// Start a session; none is held.
    Connect,
    /// Send the prompt on the session in use.
    SendPrompt,
    /// Drop the held session and start a fresh one.
    DropAndReconnect,
    /// Keep the session in use and return the review.
    ReturnReview,
    /// Keep the session in use, if any, and fail with this error.
    Fail(ReasonixError),
    /// Drop the session in use and fail with this error.
    DropAndFail(ReasonixError),
}

/// The events a phase expects.
pub open spec fn event_fits(phase: RunPhase, event: RunEvent) -> bool {
    match phase {
        RunPhase::Start => event is Begin,
        RunPhase::Connecting | RunPhase::Reconnecting(_) => event is Connected || event is ConnectFailed,
        RunPhase::Prompting | RunPhase::Retrying => event is PromptSucceeded || event is PromptFailed,
        RunPhase::Done => false,
    }
}

/// The error reported when the fresh session for a retry cannot start.
pub open spec fn recovery_failure(first: ReasonixError, connect: ReasonixError) -> Seq<char> {
    "session recovery failed after "@ + reasonix_error_message(first) + ": "@
        + reasonix_error_message(connect)
}

/// One step of a review run: the next phase, the counters and the action.
pub open spec fn run_step(phase: RunPhase, s: StatsView, event: RunEvent) -> (RunPhase, StatsView, RunAction) {
    match (phase, event) {
        (RunPhase::Start, RunEvent::Begin(held)) => if held {
            (RunPhase::Prompting, with_prompt(s), RunAction::SendPrompt)
        } else {
            (RunPhase::Connecting, s, RunAction::Connect)
        },
        (RunPhase::Connecting, RunEvent::Connected) => (
            RunPhase::Prompting,
            with_prompt(with_session_created(s)),
            RunAction::SendPrompt,
        ),
        (RunPhase::Connecting, RunEvent::ConnectFailed(e)) => (
            RunPhase::Done,
            with_error(s, e),
            RunAction::Fail(e),
        ),
        (RunPhase::Prompting, RunEvent::PromptSucceeded) => (
            RunPhase::Done,
            s,
            RunAction::ReturnReview,
        ),
        (RunPhase::Prompting, RunEvent::PromptFailed(e)) => if !drops_session(e) {
            (RunPhase::Done, with_error(s, e), RunAction::Fail(e))
        } else if !retryable(e) {
            (RunPhase::Done, with_session_flag(with_error(s, e), false), RunAction::DropAndFail(e))
        } else {
            (
                RunPhase::Reconnecting(e),
                with_reconnect(with_session_flag(with_error(s, e), false)),
                RunAction::DropAndReconnect,
            )
        },
        (RunPhase::Reconnecting(first), RunEvent::Connected) => (
            RunPhase::Retrying,
            with_prompt(with_session_created(s)),
            RunAction::SendPrompt,
        ),
        (RunPhase::Reconnecting(first), RunEvent::ConnectFailed(ce)) => {
            let failed = ReasonixError::Protocol(
                choose|m: String| m@ == recovery_failure(first, ce),
            );
            (RunPhase::Done, with_error(s, ce), RunAction::Fail(failed))
        },
        (RunPhase::Retrying, RunEvent::PromptSucceeded) => (
            RunPhase::Done,
            with_session_flag(s, true),
            RunAction::ReturnReview,
        ),
        (RunPhase::Retrying, RunEvent::PromptFailed(e)) => if drops_session(e) {
            (RunPhase::Done, with_session_flag(with_error(s, e), false), RunAction::DropAndFail(e))
        } else {
            (RunPhase::Done, with_session_flag(with_error(s, e), true), RunAction::Fail(e))
        },
        _ => (RunPhase::Done, s, RunAction::Connect),
    }
}

/// Two actions agree, errors compared by kind and message.
pub open spec fn same_action(a: RunAction, b: RunAction) -> bool {
    match (a, b) {
        (RunAction::Fail(x), RunAction::Fail(y)) => same_error(x, y),
        (RunAction::DropAndFail(x), RunAction::DropAndFail(y)) => same_error(x, y),
        _ => a == b,
    }
}

/// Two errors of the same kind with the same message text.
pub open spec fn same_error(x: ReasonixError, y: ReasonixError) -> bool {
    reasonix_error_message(x) == reasonix_error_message(y) && match (x, y) {
        (ReasonixError::Spawn(_), ReasonixError::Spawn(_)) => true,
        (ReasonixError::Io(_), ReasonixError::Io(_)) => true,
        (ReasonixError::Protocol(_), ReasonixError::Protocol(_)) => true,
        (ReasonixError::Timeout(_), ReasonixError::Timeout(_)) => true,
        _ => false,
    }
}

/// One review run of the runner: the session life cycle around a prompt,
/// with at most one reconnect and retry.
pub struct ReviewRun {
    pub phase: RunPhase,
    pub stats: ReasonixRunnerStats,
}

impl ReviewRun {
    /// A run that has not started, over the runner's counters.
    pub fn new(stats: ReasonixRunnerStats) -> (r: Self)
        ensures
            r.phase == RunPhase::Start,
            r.stats == stats,
    {
        ReviewRun { phase: RunPhase::Start, stats }
    }

    /// Takes `event` and says what to do next; see `run_step`.
    pub fn step(&mut self, event: RunEvent) -> (action: RunAction)
        requires
            event_fits(old(self).phase, event),
            counters_have_room(old(self).stats@),
        ensures
            final(self).phase == run_step(old(self).phase, old(self).stats@, event).0,
            final(self).stats@ == run_step(old(self).phase, old(self).stats@, event).1,
            same_action(action, run_step(old(self).phase, old(self).stats@, event).2),
    {
        let mut phase = RunPhase::Done;
        std::mem::swap(&mut phase, &mut self.phase);
        match phase {
            RunPhase::Start => match event {
                RunEvent::Begin(held) => {
                    if held {
                        self.stats.record_prompt();
                        self.phase = RunPhase::Prompting;
                        RunAction::SendPrompt
                    } else {
                        self.phase = RunPhase::Connecting;
                        RunAction::Connect
                    }
                },
                _ => {
                    self.phase = RunPhase::Done;
                    RunAction::Connect
                },
            },
            RunPhase::Connecting => match event {
                RunEvent::Connected => {
                    self.stats.record_session_created();
                    self.stats.record_prompt();
                    self.phase = RunPhase::Prompting;
                    RunAction::SendPrompt
                },
                RunEvent::ConnectFailed(e) => {
                    self.stats.record_error(&e);
                    self.phase = RunPhase::Done;
                    RunAction::Fail(e)
                },
                _ => {
                    self.phase = RunPhase::Done;
                    RunAction::Connect
                },
            },
            RunPhase::Prompting => match event {
                RunEvent::PromptSucceeded => {
                    self.phase = RunPhase::Done;
                    RunAction::ReturnReview
                },
                RunEvent::PromptFailed(e) => {
                    self.stats.record_error(&e);
                    if !e.should_drop_session() {
                        self.phase = RunPhase::Done;
                        RunAction::Fail(e)
                    } else {
                        self.stats.set_has_session(false);
                        if !e.is_retryable() {
                            self.phase = RunPhase::Done;
                            RunAction::DropAndFail(e)
                        } else {
                            self.stats.record_reconnect();
                            self.phase = RunPhase::Reconnecting(e);
                            RunAction::DropAndReconnect
                        }
                    }
                },
                _ => {
                    self.phase = RunPhase::Done;
                    RunAction::Connect
                },
            },
            RunPhase::Reconnecting(first) => match event {
                RunEvent::Connected => {
                    self.stats.record_session_created();
                    self.stats.record_prompt();
                    self.phase = RunPhase::Retrying;
                    RunAction::SendPrompt
                },
                RunEvent::ConnectFailed(ce) => {
                    self.stats.record_error(&ce);
                    self.phase = RunPhase::Done;
                    let first_text = first.message();
                    let connect_text = ce.message();
                    let mut m = owned("session recovery failed after ");
                    m.append(first_text.as_str());
                    m.append(": ");
                    m.append(connect_text.as_str());
                    proof {
                        let want = recovery_failure(first, ce);
                        assert(m@ =~= want);
                        let chosen = choose|x: String| x@ == want;
                        assert(chosen@ == want);
                        assert(reasonix_error_message(ReasonixError::Protocol(chosen))
                            =~= reasonix_error_message(ReasonixError::Protocol(m)));
                    }
                    RunAction::Fail(ReasonixError::Protocol(m))
                },
                _ => {
                    self.phase = RunPhase::Done;
                    RunAction::Connect
                },
            },
            RunPhase::Retrying => match event {
                RunEvent::PromptSucceeded => {
                    self.stats.set_has_session(true);
                    self.phase = RunPhase::Done;
                    RunAction::ReturnReview
                },
                RunEvent::PromptFailed(e) => {
                    self.stats.record_error(&e);
                    self.phase = RunPhase::Done;
                    if e.should_drop_session() {
                        self.stats.set_has_session(false);
                        RunAction::DropAndFail(e)
                    } else {
                        self.stats.set_has_session(true);
                        RunAction::Fail(e)
                    }
                },
                _ => {
                    self.phase = RunPhase::Done;
                    RunAction::Connect
                },
            },
            RunPhase::Done => {
                self.phase = RunPhase::Done;
                RunAction::Connect
            },
        }
    }
}

/// A run sends at most two prompts: after the retry prompt, whatever
/// happens, the run ends without connecting or prompting again.
pub proof fn lemma_single_retry(s: StatsView, event: RunEvent)
    requires
        event_fits(RunPhase::Retrying, event),
    ensures
        run_step(RunPhase::Retrying, s, event).0 == RunPhase::Done,
        !(run_step(RunPhase::Retrying, s, event).2 is SendPrompt),
        !(run_step(RunPhase::Retrying, s, event).2 is Connect),
        !(run_step(RunPhase::Retrying, s, event).2 is DropAndReconnect),
{
}

/// Timeouts and spawn failures of the first prompt are never retried:
/// a timeout drops the session, a spawn failure keeps it.
pub proof fn lemma_no_retry_after_timeout_or_spawn(s: StatsView, e: ReasonixError)
    requires
        e is Timeout || e is Spawn,
    ensures
        run_step(RunPhase::Prompting, s, RunEvent::PromptFailed(e)).0 == RunPhase::Done,
        e is Timeout ==> run_step(RunPhase::Prompting, s, RunEvent::PromptFailed(e)).2
            == RunAction::DropAndFail(e),
        e is Spawn ==> run_step(RunPhase::Prompting, s, RunEvent::PromptFailed(e)).2
            == RunAction::Fail(e),
{
}

/// Every failure of a run is recorded: its kind is counted and its
/// message kept as the last error.
pub proof fn lemma_failures_are_recorded(phase: RunPhase, s: StatsView, e: ReasonixError)
    requires
        phase is Connecting || phase is Prompting || phase is Reconnecting || phase is Retrying,
        counters_have_room(s),
    ensures
        ({
            let event = if phase is Connecting || phase is Reconnecting {
                RunEvent::ConnectFailed(e)
            } else {
                RunEvent::PromptFailed(e)
            };
            run_step(phase, s, event).1.last_error == Some(reasonix_error_message(e))
        }),
{
}

/// The session flag after a run that ended says whether a session is
/// held: dropped sessions clear it, a successful retry sets it.
pub proof fn lemma_session_flag_tracks_drops(phase: RunPhase, s: StatsView, e: ReasonixError)
    requires
        phase is Prompting || phase is Retrying,
        drops_session(e),
    ensures
        !run_step(phase, s, RunEvent::PromptFailed(e)).1.has_session,
        phase is Retrying ==> run_step(phase, s, RunEvent::PromptSucceeded).1.has_session,
{
}

/// What the runner reads of one ACP frame.
#[derive(Debug, Clone)]
pub struct AcpFrame {
    /// The frame has an `id` member, of any JSON type.
    pub has_id: bool,
    /// The `id` when it is an integer in the range of `i64` or `u64`.
    pub id_number: Option<i128>,
    /// The frame has a `method` member, of any JSON type.
    pub has_method: bool,
    /// The `method` when it is a string.
    pub method: Option<String>,
    /// `None` without an `error` member; else the error's string `message`, if any.
    pub error: Option<Option<String>>,
    /// `params.update.sessionUpdate` when it is a string; `None` also when
    /// there is no `params.update` object member.
    pub session_update: Option<String>,
    /// The frame has a `params.update` member.
    pub has_update: bool,
    /// `params.update.content.text` when it is a string.
    pub text: Option<String>,
    /// `params.update.status` when it is a string.
    pub status: Option<String>,
    /// `params.toolCall.title` when it is a string.
    pub tool_title: Option<String>,
    /// `params.toolCall.kind` when it is a string.
    pub tool_kind: Option<String>,
    /// `result.sessionId` when it is a string.
    pub session_id: Option<String>,
}

/// An `AcpFrame` over plain values.
pub struct AcpFrameView {
    pub has_id: bool,
    pub id_number: Option<int>,
    pub has_method: bool,
    pub method: Option<Seq<char>>,
    pub error: Option<Option<Seq<char>>>,
    pub session_update: Option<Seq<char>>,
    pub has_update: bool,
    pub text: Option<Seq<char>>,
    pub status: Option<Seq<char>>,
    pub tool_title: Option<Seq<char>>,
    pub tool_kind: Option<Seq<char>>,
    pub session_id: Option<Seq<char>>,
}

impl View for AcpFrame {
    type V = AcpFrameView;

    open spec fn view(&self) -> AcpFrameView {
        AcpFrameView {
            has_id: self.has_id,
            id_number: match self.id_number {
                Some(n) => Some(n as int),
                None => None,
            },
            has_method: self.has_method,
            method: opt_view(self.method),
            error: match self.error {
                Some(m) => Some(opt_view(m)),
                None => None,
            },
            session_update: opt_view(self.session_update),
            has_update: self.has_update,
            text: opt_view(self.text),
            status: opt_view(self.status),
            tool_title: opt_view(self.tool_title),
            tool_kind: opt_view(self.tool_kind),
            session_id: opt_view(self.session_id),
        }
    }
}

/// What a line holds at `pointer`, reading a line that is not JSON as
/// holding nothing.
pub open spec fn leaf_of(line: Seq<char>, pointer: Seq<char>) -> JsonLeafView {
    match json_leaf(line, pointer) {
        Some(l) => l,
        None => JsonLeafView::Missing,
    }
}

/// The string a leaf holds, if it is one.
pub open spec fn leaf_string(l: JsonLeafView) -> Option<Seq<char>> {
    match l {
        JsonLeafView::Text(s) => Some(s),
        _ => None,
    }
}

/// The frame a line of the agent's output is: the members the runner
/// reads, each at its JSON pointer; `None` when the line is not JSON.
pub open spec fn acp_frame_of(line: Seq<char>) -> Option<AcpFrameView> {
    if json_leaf(line, "/id"@) is None {
        None
    } else {
        Some(
            AcpFrameView {
                has_id: !(leaf_of(line, "/id"@) is Missing),
                id_number: match leaf_of(line, "/id"@) {
                    JsonLeafView::Integer(n) => Some(n),
                    _ => None,
                },
                has_method: !(leaf_of(line, "/method"@) is Missing),
                method: leaf_string(leaf_of(line, "/method"@)),
                error: if leaf_of(line, "/error"@) is Missing {
                    None
                } else {
                    Some(leaf_string(leaf_of(line, "/error/message"@)))
                },
                session_update: leaf_string(leaf_of(line, "/params/update/sessionUpdate"@)),
                has_update: !(leaf_of(line, "/params/update"@) is Missing),
                text: leaf_string(leaf_of(line, "/params/update/content/text"@)),
                status: leaf_string(leaf_of(line, "/params/update/status"@)),
                tool_title: leaf_string(leaf_of(line, "/params/toolCall/title"@)),
                tool_kind: leaf_string(leaf_of(line, "/params/toolCall/kind"@)),
                session_id: leaf_string(leaf_of(line, "/result/sessionId"@)),
            },
        )
    }
}

/// Reads the value at `pointer` of `line`, passing a parse failure on.
fn read_leaf(line: &str, pointer: &str) -> (r: Result<JsonLeaf, String>)
    ensures
        match r {
            Ok(l) => json_leaf(line@, pointer@) == Some(l@) && json_parse_failure(line@) is None,
            Err(m) => json_leaf(line@, pointer@) is None && json_parse_failure(line@) == Some(m@),
        },
{
    leaf_at(line, pointer)
}

fn string_of(l: JsonLeaf) -> (r: Option<String>)
    ensures
        opt_view(r) == leaf_string(l@),
{
    match l {
        JsonLeaf::Text(s) => Some(s),
        _ => None,
    }
}

fn is_present(l: &JsonLeaf) -> (r: bool)
    ensures
        r == !(l@ is Missing),
{
    match l {
        JsonLeaf::Missing => false,
        _ => true,
    }
}

/// Reads one line of the agent's output as a frame; see `acp_frame_of`.
/// A line that is not JSON gives the parser's message.
pub fn parse_acp_line(line: &str) -> (r: Result<AcpFrame, String>)
    ensures
        match r {
            Ok(f) => acp_frame_of(line@) == Some(f@),
            Err(m) => acp_frame_of(line@) is None && json_parse_failure(line@) == Some(m@),
        },
{
    let id = match read_leaf(line, "/id") {
        Ok(l) => l,
        Err(m) => return Err(m),
    };
    let method = match read_leaf(line, "/method") {
        Ok(l) => l,
        Err(m) => return Err(m),
    };
    let error = match read_leaf(line, "/error") {
        Ok(l) => l,
        Err(m) => return Err(m),
    };
    let message = match read_leaf(line, "/error/message") {
        Ok(l) => l,
        Err(m) => return Err(m),
    };
    let update = match read_leaf(line, "/params/update") {
        Ok(l) => l,
        Err(m) => return Err(m),
    };
    let kind = match read_leaf(line, "/params/update/sessionUpdate") {
        Ok(l) => l,
        Err(m) => return Err(m),
    };
    let text = match read_leaf(line, "/params/update/content/text") {
        Ok(l) => l,
        Err(m) => return Err(m),
    };
    let status = match read_leaf(line, "/params/update/status") {
        Ok(l) => l,
        Err(m) => return Err(m),
    };
    let title = match read_leaf(line, "/params/toolCall/title") {
        Ok(l) => l,
        Err(m) => return Err(m),
    };
    let tool_kind = match read_leaf(line, "/params/toolCall/kind") {
        Ok(l) => l,
        Err(m) => return Err(m),
    };
    let session = match read_leaf(line, "/result/sessionId") {
        Ok(l) => l,
        Err(m) => return Err(m),
    };
    let has_id = is_present(&id);
    let id_number = match id {
        JsonLeaf::Integer(n) => Some(n),
        _ => None,
    };
    let has_method = is_present(&method);
    let error = if is_present(&error) {
        Some(string_of(message))
    } else {
        None
    };
    let has_update = is_present(&update);
    let frame = AcpFrame {
        has_id,
        id_number,
        has_method,
        method: string_of(method),
        error,
        session_update: string_of(kind),
        has_update,
        text: string_of(text),
        status: string_of(status),
        tool_title: string_of(title),
        tool_kind: string_of(tool_kind),
        session_id: string_of(session),
    };
    assert(frame@ == acp_frame_of(line@)->0);
    Ok(frame)
}

/// The frame's `id` read as a signed 64-bit integer.
pub open spec fn id_as_i64(f: AcpFrameView) -> Option<int> {
    match f.id_number {
        Some(n) => if i64::MIN <= n <= i64::MAX {
            Some(n)
        } else {
            None
        },
        None => None,
    }
}

/// The frame's `id` read as an unsigned 64-bit integer.
pub open spec fn id_as_u64(f: AcpFrameView) -> Option<int> {
    match f.id_number {
        Some(n) => if 0 <= n <= u64::MAX {
            Some(n)
        } else {
            None
        },
        None => None,
    }
}

fn frame_id_i64(f: &AcpFrame) -> (r: Option<i64>)
    ensures
        match r {
            Some(n) => id_as_i64(f@) == Some(n as int),
            None => id_as_i64(f@) is None,
        },
{
    match f.id_number {
        Some(n) => if -9223372036854775808i128 <= n && n <= 9223372036854775807i128 {
            Some(n as i64)
        } else {
            None
        },
        None => None,
    }
}

fn frame_id_u64(f: &AcpFrame) -> (r: Option<u64>)
    ensures
        match r {
            Some(n) => id_as_u64(f@) == Some(n as int),
            None => id_as_u64(f@) is None,
        },
{
    match f.id_number {
        Some(n) => if 0i128 <= n && n <= 18446744073709551615i128 {
            Some(n as u64)
        } else {
            None
        },
        None => None,
    }
}

fn opt_is(s: &Option<String>, v: &str) -> (r: bool)
    ensures
        r == (opt_view(*s) == Some(v@)),
{
    match s {
        Some(x) => str_eq(x.as_str(), v),
        None => false,
    }
}

/// The most tool calls a prompt may report before its review.
pub const MAX_OBSERVED_TOOL_CALLS_PER_PROMPT: u64 = 5;

/// What a prompt has gathered so far.
#[derive(Debug, Clone)]
pub struct PromptState {
    /// The agent's message chunks, concatenated.
    pub collected: String,
    /// Tool calls reported before the review.
    pub observed_tool_calls: u64,
}

/// The prompt's next move after one frame.
#[derive(Debug, Clone, PartialEq, Eq)]
pub enum PromptAction {
    /// Read the next frame.
    Continue,
    /// Answer the agent's permission request `request_id`, then go on.
    AnswerPermission(u64, PermissionAnswer),
    /// The prompt's response arrived: parse the collected text as the review.
    ParseCollected,
    /// A tool call came after a complete review: return that review.
    ReturnCollected,
    /// The prompt failed.
    Fail(ReasonixError),
}

/// The message for running out of tool calls after `n` of them.
pub open spec fn too_many_tool_calls(n: nat) -> Seq<char> {
    "max observed tool calls (5) exceeded: "@ + crate::text::nat_digits(n)
        + " tool_call events before review JSON"@
}

/// A frame is a request of the agent to the runner: it has an id and a
/// method that is not a session update, and its id is not the prompt's.
pub open spec fn is_agent_request(f: AcpFrameView, prompt_id: u64) -> bool {
    f.has_id && f.has_method && f.method != Some("session/update"@) && id_as_i64(f) != Some(
        (prompt_id as i64) as int,
    )
}

/// What one step of a prompt does: from gathered state `before` and
/// counters `s0`, taking frame `f` of prompt `prompt_id`, it reaches
/// `after` and `s1` and answers `action`; `parses` says whether the text
/// collected before the frame parses as a review.
pub open spec fn prompt_step_post(
    before: PromptState,
    after: PromptState,
    s0: StatsView,
    s1: StatsView,
    f: AcpFrameView,
    prompt_id: u64,
    parses: bool,
    action: PromptAction,
) -> bool {
    &&& !(action is Fail) ==> after.observed_tool_calls
        < MAX_OBSERVED_TOOL_CALLS_PER_PROMPT
    &&& if is_agent_request(f, prompt_id) {
        &&& after.collected@ == before.collected@
        &&& after.observed_tool_calls == before.observed_tool_calls
        &&& if f.method == Some("session/request_permission"@) {
            let title = match f.tool_title {
                Some(t) => t,
                None => "?"@,
            };
            let reply_id = match id_as_i64(f) {
                Some(n) => n as i64,
                None => 0i64,
            };
            &&& action == PromptAction::AnswerPermission(
                reply_id as u64,
                if read_only_tool(title) {
                    PermissionAnswer::AllowOnce
                } else {
                    PermissionAnswer::RejectOnce
                },
            )
            &&& s1 == permission_counted(s0, read_only_tool(title))
        } else {
            action == PromptAction::Continue && s1 == s0
        }
    } else if id_as_i64(f) == Some((prompt_id as i64) as int) {
        &&& after.collected@ == before.collected@
        &&& s1 == s0
        &&& match f.error {
            Some(message) => action matches PromptAction::Fail(ReasonixError::Protocol(m))
                && m@ == match message {
                Some(text) => text,
                None => "unknown error"@,
            },
            None => action == PromptAction::ParseCollected,
        }
    } else if f.method == Some("session/update"@) && f.has_update {
        match f.session_update {
            Some(kind) => if kind == "agent_message_chunk"@ {
                &&& action == PromptAction::Continue
                &&& s1 == s0
                &&& after.collected@ == before.collected@ + match f.text {
                    Some(t) => t,
                    None => Seq::empty(),
                }
            } else if kind == "tool_call"@ {
                &&& after.collected@ == before.collected@
                &&& if parses {
                    action == PromptAction::ReturnCollected && s1
                        == s0
                } else {
                    let n = before.observed_tool_calls + 1;
                    &&& s1 == (StatsView {
                        tool_call_count: (s0.tool_call_count + 1) as u64,
                        ..s0
                    })
                    &&& if n >= MAX_OBSERVED_TOOL_CALLS_PER_PROMPT {
                        action matches PromptAction::Fail(ReasonixError::Protocol(m))
                            && m@ == too_many_tool_calls(n as nat)
                    } else {
                        action == PromptAction::Continue
                            && after.observed_tool_calls == n
                    }
                }
            } else if kind == "tool_call_update"@ {
                &&& action == PromptAction::Continue
                &&& after.collected@ == before.collected@
                &&& s1 == (StatsView {
                    tool_call_update_count: (s0.tool_call_update_count + 1) as u64,
                    completed_tool_call_count: if f.status == Some(
                        "completed"@,
                    ) {
                        (s0.completed_tool_call_count + 1) as u64
                    } else {
                        s0.completed_tool_call_count
                    },
                    failed_tool_call_count: if f.status == Some("failed"@) {
                        (s0.failed_tool_call_count + 1) as u64
                    } else {
                        s0.failed_tool_call_count
                    },
                    ..s0
                })
            } else {
                action == PromptAction::Continue && s1 == s0
                    && after.collected@ == before.collected@
            },
            None => action == PromptAction::Continue && s1 == s0
                && after.collected@ == before.collected@,
        }
    } else {
        action == PromptAction::Continue && s1 == s0
            && after.collected@ == before.collected@
    }
}

impl PromptState {
    /// Nothing gathered yet.
    pub fn new() -> (r: Self)
        ensures
            r.collected@.len() == 0,
            r.observed_tool_calls == 0,
    {
        PromptState { collected: String::new(), observed_tool_calls: 0 }
    }

    /// Takes one frame of prompt `prompt_id`; `collected_parses` says
    /// whether the text collected before this frame parses as a review.
    pub fn step(
        &mut self,
        stats: &mut ReasonixRunnerStats,
        frame: &AcpFrame,
        prompt_id: u64,
        collected_parses: bool,
    ) -> (action: PromptAction)
        requires
            old(self).observed_tool_calls < MAX_OBSERVED_TOOL_CALLS_PER_PROMPT,
            counters_have_room(old(stats)@),
        ensures
            prompt_step_post(
                *old(self),
                *final(self),
                old(stats)@,
                final(stats)@,
                frame@,
                prompt_id,
                collected_parses,
                action,
            ),
    {
        let id = frame_id_i64(frame);
        let is_update = opt_is(&frame.method, "session/update");
        let for_prompt = match id {
            Some(n) => n == prompt_id as i64,
            None => false,
        };
        if frame.has_id && frame.has_method && !is_update && !for_prompt {
            if opt_is(&frame.method, "session/request_permission") {
                let title = match &frame.tool_title {
                    Some(t) => t.as_str(),
                    None => "?",
                };
                let kind = match &frame.tool_kind {
                    Some(k) => k.as_str(),
                    None => "?",
                };
                proof {
                    reveal_strlit("?");
                }
                let answer = answer_permission_request(stats, title, kind);
                let reply: i64 = match id {
                    Some(n) => n,
                    None => 0,
                };
                return PromptAction::AnswerPermission(reply as u64, answer);
            }
            return PromptAction::Continue;
        }
        if for_prompt {
            match &frame.error {
                Some(message) => {
                    let text = match message {
                        Some(m) => owned(m.as_str()),
                        None => owned("unknown error"),
                    };
                    return PromptAction::Fail(ReasonixError::Protocol(text));
                },
                None => {
                    return PromptAction::ParseCollected;
                },
            }
        }
        if is_update && frame.has_update {
            match &frame.session_update {
                Some(kind) => {
                    if str_eq(kind.as_str(), "agent_message_chunk") {
                        match &frame.text {
                            Some(t) => self.collected.append(t.as_str()),
                            None => {},
                        }
                        return PromptAction::Continue;
                    } else if str_eq(kind.as_str(), "tool_call") {
                        if collected_parses {
                            return PromptAction::ReturnCollected;
                        }
                        self.observed_tool_calls = self.observed_tool_calls + 1;
                        stats.tool_call_count = stats.tool_call_count + 1;
                        if self.observed_tool_calls >= MAX_OBSERVED_TOOL_CALLS_PER_PROMPT {
                            let mut m = owned("max observed tool calls (5) exceeded: ");
                            let digits = crate::text::u64_string(self.observed_tool_calls);
                            m.append(digits.as_str());
                            m.append(" tool_call events before review JSON");
                            return PromptAction::Fail(ReasonixError::Protocol(m));
                        }
                        return PromptAction::Continue;
                    } else if str_eq(kind.as_str(), "tool_call_update") {
                        proof {
                            reveal_strlit("completed");
                            reveal_strlit("failed");
                            assert("completed"@.len() == 9);
                            assert("failed"@.len() == 6);
                            assert("completed"@ != "failed"@);
                        }
                        let ghost before = stats@;
                        let completed = opt_is(&frame.status, "completed");
                        let failed = opt_is(&frame.status, "failed");
                        stats.tool_call_update_count = stats.tool_call_update_count + 1;
                        if completed {
                            stats.completed_tool_call_count = stats.completed_tool_call_count + 1;
                        } else if failed {
                            stats.failed_tool_call_count = stats.failed_tool_call_count + 1;
                        }
                        assert(completed ==> !failed);
                        assert(stats@ == (StatsView {
                            tool_call_update_count: (before.tool_call_update_count + 1) as u64,
                            completed_tool_call_count: if completed {
                                (before.completed_tool_call_count + 1) as u64
                            } else {
                                before.completed_tool_call_count
                            },
                            failed_tool_call_count: if failed {
                                (before.failed_tool_call_count + 1) as u64
                            } else {
                                before.failed_tool_call_count
                            },
                            ..before
                        }));
                        return PromptAction::Continue;
                    }
                    return PromptAction::Continue;
                },
                None => {
                    return PromptAction::Continue;
                },
            }
        }
        PromptAction::Continue
    }
}

/// The runner's next move while waiting for the response to a request.
#[derive(Debug, Clone, PartialEq, Eq)]
pub enum ResponseStep {
    /// A notification; wait for the next frame.
    Skip,
    /// The awaited response.
    Accept,
    /// The exchange failed.
    Reject(ReasonixError),
}

/// How a frame answers request `expected_id`, errors prefixed with `context`.
pub open spec fn response_outcome(context: Seq<char>, expected_id: u64, f: AcpFrameView) -> (
    bool,
    bool,
    Option<Seq<char>>,
) {
    // (skip, accept, rejection message)
    match id_as_u64(f) {
        None => if f.has_method {
            (true, false, None)
        } else {
            (false, false, Some(context + ": response frame missing id"@))
        },
        Some(id) => if id != expected_id {
            (false, false, Some(context + ": unexpected response id"@))
        } else {
            match f.error {
                Some(message) => (
                    false,
                    false,
                    Some(context + ": "@ + match message {
                        Some(m) => m,
                        None => "unknown error"@,
                    }),
                ),
                None => (false, true, None),
            }
        },
    }
}

/// `r` is how frame `f` answers request `expected_id`; see `response_outcome`.
pub open spec fn response_step_post(
    context: Seq<char>,
    expected_id: u64,
    f: AcpFrameView,
    r: ResponseStep,
) -> bool {
    let (skip, accept, rejection) = response_outcome(context, expected_id, f);
    &&& skip <==> r is Skip
    &&& accept <==> r is Accept
    &&& match rejection {
        Some(m) => r matches ResponseStep::Reject(ReasonixError::Protocol(x)) && x@ == m,
        None => !(r is Reject),
    }
}

/// Reads one frame while waiting for the response to request `expected_id`.
pub fn response_step(context: &str, expected_id: u64, frame: &AcpFrame) -> (r: ResponseStep)
    ensures
        response_step_post(context@, expected_id, frame@, r),
{
    match frame_id_u64(frame) {
        None => {
            if frame.has_method {
                ResponseStep::Skip
            } else {
                ResponseStep::Reject(
                    ReasonixError::Protocol(concat2(context, ": response frame missing id")),
                )
            }
        },
        Some(id) => {
            if id != expected_id {
                return ResponseStep::Reject(
                    ReasonixError::Protocol(concat2(context, ": unexpected response id")),
                );
            }
            match &frame.error {
                Some(message) => {
                    let text = match message {
                        Some(m) => m.as_str(),
                        None => "unknown error",
                    };
                    ResponseStep::Reject(ReasonixError::Protocol(concat3(context, ": ", text)))
                },
                None => ResponseStep::Accept,
            }
        },
    }
}

/// The error for a frame that is not JSON, `detail` the parser's message.
pub fn invalid_frame_error(context: Option<&str>, detail: &str) -> (r: ReasonixError)
    ensures
        r matches ReasonixError::Protocol(m) && m@ == match context {
            Some(c) => c@ + ": invalid frame: "@ + detail@,
            None => "invalid frame: "@ + detail@,
        },
{
    match context {
        Some(c) => ReasonixError::Protocol(concat3(c, ": invalid frame: ", detail)),
        None => ReasonixError::Protocol(concat2("invalid frame: ", detail)),
    }
}

/// The session id of a `session/new` response.
pub fn session_id_of(frame: &AcpFrame) -> (r: Result<String, ReasonixError>)
    ensures
        match frame.session_id {
            Some(id) => r matches Ok(x) && x@ == id@,
            None => r matches Err(ReasonixError::Protocol(m)) && m@ == "missing sessionId"@,
        },
{
    match &frame.session_id {
        Some(id) => Ok(owned(id.as_str())),
        None => Err(ReasonixError::Protocol(owned("missing sessionId"))),
    }
}

/// A JSON-RPC request frame, keys in sorted order as the JSON writer
/// emits an object; `params` is JSON text.
pub open spec fn request_frame_text(id: u64, method: Seq<char>, params: Seq<char>) -> Seq<char> {
    "{\"id\":"@ + crate::text::nat_digits(id as nat) + ",\"jsonrpc\":\"2.0\",\"method\":"@
        + crate::json::json_quote(method) + ",\"params\":"@ + params + "}"@
}

/// The frame of request `id` calling `method` with `params` (JSON text).
pub fn request_frame(id: u64, method: &str, params: &str) -> (r: String)
    ensures
        r@ == request_frame_text(id, method@, params@),
{
    let mut out = owned("{\"id\":");
    out.append(crate::text::u64_string(id).as_str());
    out.append(",\"jsonrpc\":\"2.0\",\"method\":");
    out.append(crate::json::quote(method).as_str());
    out.append(",\"params\":");
    out.append(params);
    out.append("}");
    out
}

/// The parameters of the ACP `initialize` request.
pub fn initialize_params() -> (r: &'static str)
    ensures
        r@ == "{\"clientInfo\":{\"name\":\"coagent\",\"version\":\"0.1.0\"},\"protocolVersion\":1}"@,
{
    "{\"clientInfo\":{\"name\":\"coagent\",\"version\":\"0.1.0\"},\"protocolVersion\":1}"
}

/// The parameters of the ACP `session/new` request for directory `cwd`.
pub fn session_new_params(cwd: &str) -> (r: String)
    ensures
        r@ == "{\"cwd\":"@ + crate::json::json_quote(cwd@) + "}"@,
{
    concat3("{\"cwd\":", crate::json::quote(cwd).as_str(), "}")
}

/// The parameters of a `session/prompt` request: one text block.
pub fn prompt_params(session_id: &str, prompt: &str) -> (r: String)
    ensures
        r@ == "{\"prompt\":[{\"text\":"@ + crate::json::json_quote(prompt@)
            + ",\"type\":\"text\"}],\"sessionId\":"@ + crate::json::json_quote(session_id@) + "}"@,
{
    let mut out = owned("{\"prompt\":[{\"text\":");
    out.append(crate::json::quote(prompt).as_str());
    out.append(",\"type\":\"text\"}],\"sessionId\":");
    out.append(crate::json::quote(session_id).as_str());
    out.append("}");
    out
}

/// The response frame answering permission request `request_id`.
pub fn permission_response(request_id: u64, answer: PermissionAnswer) -> (r: String)
    ensures
        r@ == "{\"id\":"@ + crate::text::nat_digits(request_id as nat)
            + ",\"jsonrpc\":\"2.0\",\"result\":{\"optionId\":\""@ + permission_option_name(answer)
            + "\",\"outcome\":\"selected\"}}"@,
{
    let mut out = owned("{\"id\":");
    out.append(crate::text::u64_string(request_id).as_str());
    out.append(",\"jsonrpc\":\"2.0\",\"result\":{\"optionId\":\"");
    out.append(answer.option_id());
    out.append("\",\"outcome\":\"selected\"}}");
    out
}

/// Takes one line of prompt `prompt_id`'s output. A line that is not JSON
/// fails the prompt with the invalid-frame error and changes nothing; any
/// other line is the frame `acp_frame_of` reads, taken as
/// `PromptState::step` takes it.
pub fn prompt_step_line(
    state: &mut PromptState,
    stats: &mut ReasonixRunnerStats,
    line: &str,
    prompt_id: u64,
    collected_parses: bool,
) -> (action: PromptAction)
    requires
        old(state).observed_tool_calls < MAX_OBSERVED_TOOL_CALLS_PER_PROMPT,
        counters_have_room(old(stats)@),
    ensures
        match acp_frame_of(line@) {
            Some(f) => prompt_step_post(
                *old(state),
                *final(state),
                old(stats)@,
                final(stats)@,
                f,
                prompt_id,
                collected_parses,
                action,
            ),
            None => {
                &&& json_parse_failure(line@) is Some
                &&& action matches PromptAction::Fail(ReasonixError::Protocol(m)) && m@
                    == "invalid frame: "@ + json_parse_failure(line@)->0
                &&& *final(state) == *old(state)
                &&& final(stats)@ == old(stats)@
            },
        },
{
    match parse_acp_line(line) {
        Ok(frame) => state.step(stats, &frame, prompt_id, collected_parses),
        Err(detail) => PromptAction::Fail(invalid_frame_error(None, detail.as_str())),
    }
}

/// Takes one line while waiting for the response to request `expected_id`,
/// errors prefixed with `context`. A line that is not JSON is rejected
/// with the invalid-frame error; any other line is the frame
/// `acp_frame_of` reads, answered as `response_step` answers it and handed
/// back beside the answer.
pub fn response_line(context: &str, expected_id: u64, line: &str) -> (r: (
    ResponseStep,
    Option<AcpFrame>,
))
    ensures
        match acp_frame_of(line@) {
            Some(f) => r.1 matches Some(x) && x@ == f && response_step_post(
                context@,
                expected_id,
                f,
                r.0,
            ),
            None => {
                &&& json_parse_failure(line@) is Some
                &&& r.1 is None
                &&& r.0 matches ResponseStep::Reject(ReasonixError::Protocol(m)) && m@ == context@
                    + ": invalid frame: "@ + json_parse_failure(line@)->0
            },
        },
{
    match parse_acp_line(line) {
        Ok(frame) => {
            let step = response_step(context, expected_id, &frame);
            (step, Some(frame))
        },
        Err(detail) => (
            ResponseStep::Reject(invalid_frame_error(Some(context), detail.as_str())),
            None,
        ),
    }
}

/// The read-only tools are exactly `read_file`, `grep`, `glob`, `ls` and
/// `list_files`. A permission request for one of them is allowed once and
/// counted among the allowed requests; a request for any other tool is
/// rejected once and counted among the rejected ones. Either way the
/// request itself is counted and no other counter moves.
pub proof fn lemma_read_only_tools(title: Seq<char>, s: StatsView)
    requires
        counters_have_room(s),
    ensures
        read_only_tool(title) <==> set!["read_file"@, "grep"@, "glob"@, "ls"@, "list_files"@].contains(
            title,
        ),
        read_only_tool("read_file"@),
        read_only_tool("grep"@),
        read_only_tool("glob"@),
        read_only_tool("ls"@),
        read_only_tool("list_files"@),
        ({
            let a = permission_counted(s, true);
            &&& a.permission_request_count == s.permission_request_count + 1
            &&& a.auto_allowed_permission_count == s.auto_allowed_permission_count + 1
            &&& a.auto_rejected_permission_count == s.auto_rejected_permission_count
            &&& a.tool_call_count == s.tool_call_count
            &&& a.prompt_count == s.prompt_count
        }),
        ({
            let d = permission_counted(s, false);
            &&& d.permission_request_count == s.permission_request_count + 1
            &&& d.auto_rejected_permission_count == s.auto_rejected_permission_count + 1
            &&& d.auto_allowed_permission_count == s.auto_allowed_permission_count
            &&& d.tool_call_count == s.tool_call_count
            &&& d.prompt_count == s.prompt_count
        }),
{
}

} // verus!
