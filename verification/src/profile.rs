//! Agent backend profiles: how a backend process is launched, what it can
//! do and how far it is trusted.
use vstd::prelude::*;

use crate::text::{clone_strings, owned, str_eq, strings_view};

verus! {

/// Session scoping policy for ACP backends.
#[derive(Debug, Clone, Copy, PartialEq, Eq, Structural)]
pub enum SessionPolicy {
    /// One session per backend globally.
    PerBackend,
    /// One session per project directory.
    PerProject,
    /// One session per task.
    PerTask,
    /// One session per project and task.
    PerProjectTask,
}

/// Trust level of a backend: what it is allowed to do.
#[derive(Debug, Clone, Copy, PartialEq, Eq, Structural)]
pub enum TrustLevel {
    /// Read-only review, no workspace writes.
    ReviewOnly,
    /// May propose patches but not apply them.
    PatchProposal,
    /// May execute in an isolated sandbox.
    IsolatedExecution,
}

/// Launch and policy profile of an ACP-compatible backend agent.
#[derive(Debug, Clone)]
pub struct AgentProfile {
    pub backend_id: String,
    pub display_name: String,
    pub command: String,
    pub args: Vec<String>,
    pub cwd: String,
    pub capabilities: Vec<String>,
    pub session_policy: SessionPolicy,
    pub trust_level: TrustLevel,
    pub timeout_ms: u64,
    pub max_retries: u32,
}

/// The model used when a profile's arguments name none.
pub open spec fn default_model() -> Seq<char> {
    "deepseek-v4-flash"@
}

/// The first index of `"--model"` in `args`, from `i` on.
pub open spec fn model_flag_from(args: Seq<Seq<char>>, i: int) -> Option<int>
    decreases args.len() - i,
{
    if i < 0 || i >= args.len() {
        None
    } else if args[i] == "--model"@ {
        Some(i)
    } else {
        model_flag_from(args, i + 1)
    }
}

/// The argument after the first `"--model"`, or the default model when
/// there is no such flag or nothing follows it.
pub open spec fn model_of_args(args: Seq<Seq<char>>) -> Seq<char> {
    match model_flag_from(args, 0) {
        Some(i) => if i + 1 < args.len() {
            args[i + 1]
        } else {
            default_model()
        },
        None => default_model(),
    }
}

/// The model a backend launched with `args` runs.
pub fn model_from_args(args: &Vec<String>) -> (r: String)
    ensures
        r@ == model_of_args(strings_view(args@)),
{
    let ghost views = strings_view(args@);
    let mut i: usize = 0;
    while i < args.len()
        invariant
            i <= args.len(),
            views == strings_view(args@),
            model_flag_from(views, 0) == model_flag_from(views, i as int),
        decreases args.len() - i,
    {
        if str_eq(args[i].as_str(), "--model") {
            if i + 1 < args.len() {
                return owned(args[i + 1].as_str());
            } else {
                return owned("deepseek-v4-flash");
            }
        }
        i = i + 1;
    }
    owned("deepseek-v4-flash")
}

impl AgentProfile {
    /// The default Reasonix profile for working directory `cwd`.
    pub fn reasonix(cwd: &str, model: &str) -> (r: Self)
        ensures
            r.backend_id@ == "reasonix"@,
            r.display_name@ == "Reasonix (DeepSeek)"@,
            r.command@ == "reasonix"@,
            strings_view(r.args@) == seq!["acp"@, "--model"@, model@],
            r.cwd@ == cwd@,
            strings_view(r.capabilities@) == seq!["code.review.diff"@],
            r.session_policy == SessionPolicy::PerProjectTask,
            r.trust_level == TrustLevel::ReviewOnly,
            r.timeout_ms == 180000,
            r.max_retries == 1,
    {
        let mut args: Vec<String> = Vec::new();
        args.push(owned("acp"));
        args.push(owned("--model"));
        args.push(owned(model));
        let mut capabilities: Vec<String> = Vec::new();
        capabilities.push(owned("code.review.diff"));
        let r = AgentProfile {
            backend_id: owned("reasonix"),
            display_name: owned("Reasonix (DeepSeek)"),
            command: owned("reasonix"),
            args,
            cwd: owned(cwd),
            capabilities,
            session_policy: SessionPolicy::PerProjectTask,
            trust_level: TrustLevel::ReviewOnly,
            timeout_ms: 180000,
            max_retries: 1,
        };
        assert(strings_view(r.args@) =~= seq!["acp"@, "--model"@, model@]);
        assert(strings_view(r.capabilities@) =~= seq!["code.review.diff"@]);
        r
    }

    /// The model this profile launches the backend with.
    pub fn model(&self) -> (r: String)
        ensures
            r@ == model_of_args(strings_view(self.args@)),
    {
        model_from_args(&self.args)
    }

    /// A copy of the capability tags.
    pub fn capability_tags(&self) -> (r: Vec<String>)
        ensures
            r@ == self.capabilities@,
    {
        clone_strings(&self.capabilities)
    }
}

/// The model of a profile built by `AgentProfile::reasonix` is the model
/// it was built with.
pub proof fn lemma_reasonix_profile_model(model: Seq<char>)
    ensures
        model_of_args(seq!["acp"@, "--model"@, model]) == model,
{
    let args = seq!["acp"@, "--model"@, model];
    reveal_strlit("acp");
    reveal_strlit("--model");
    assert("acp"@.len() == 3);
    assert("--model"@.len() == 7);
    assert(args[0] != "--model"@);
    assert(args[1] == "--model"@);
    assert(model_flag_from(args, 1) == Some(1int));
}

} // verus!
