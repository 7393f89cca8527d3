//! Execution sandbox configuration: environment allow and deny lists and
//! resource budgets for backend processes.
use std::time::Duration;
use vstd::prelude::*;

use crate::text::{ascii_fold, eq_ignore_ascii_case, lowercase, owned, str_eq, to_lowercase};
use crate::timing::{duration_from_secs, secs};

verus! {

#[derive(Debug, Clone, Copy, PartialEq, Eq)]
pub struct ResourceBudgets {
    /// Maximum wall-clock duration for a single backend invocation.
    pub max_wall_clock: Option<Duration>,
    /// Maximum stdout/stderr bytes from the backend.
    pub max_output_bytes: Option<u64>,
    /// Maximum token budget (advisory).
    pub max_tokens: Option<u64>,
    /// Maximum CPU time (advisory).
    pub max_cpu_time: Option<Duration>,
}

impl Default for ResourceBudgets {
    /// Two minutes of wall clock, 10 MiB of output, no token or CPU limit.
    fn default() -> (b: Self)
        ensures
            b.max_wall_clock == Some(duration_from_secs(120)),
            b.max_output_bytes == Some(10485760u64),
            b.max_tokens is None,
            b.max_cpu_time is None,
    {
        ResourceBudgets {
            max_wall_clock: Some(secs(120)),
            max_output_bytes: Some(10 * 1024 * 1024),
            max_tokens: None,
            max_cpu_time: None,
        }
    }
}

/// What a task may access: working directory, environment variables and
/// resource budgets.
#[derive(Debug, Clone, PartialEq, Eq)]
pub struct SandboxConfig {
    /// Working directory for the task (relative to the repository root or absolute).
    pub working_directory: Option<String>,
    /// Allowed environment variable names; empty denies every variable.
    pub env_allowlist: Vec<String>,
    /// Forbidden environment variable names, checked before the allow list.
    pub env_denylist: Vec<String>,
    pub budgets: ResourceBudgets,
}

impl Default for SandboxConfig {
    /// No working directory, empty lists, default budgets.
    fn default() -> (c: Self)
        ensures
            c.working_directory is None,
            c.env_allowlist@.len() == 0,
            c.env_denylist@.len() == 0,
            c.budgets.max_wall_clock == Some(duration_from_secs(120)),
            c.budgets.max_output_bytes == Some(10485760u64),
            c.budgets.max_tokens is None,
            c.budgets.max_cpu_time is None,
    {
        SandboxConfig {
            working_directory: None,
            env_allowlist: Vec::new(),
            env_denylist: Vec::new(),
            budgets: ResourceBudgets::default(),
        }
    }
}

/// Some entry of `names` equals `name` up to ASCII case.
pub open spec fn listed_ignoring_ascii_case(names: Seq<String>, name: Seq<char>) -> bool {
    exists|i: int| 0 <= i < names.len() && ascii_fold(names[i]@) == ascii_fold(name)
}

/// Some entry of `names` has the same Unicode lower-case form as `name`.
pub open spec fn listed_lowercase(names: Seq<String>, name: Seq<char>) -> bool {
    exists|i: int| 0 <= i < names.len() && lowercase(names[i]@) == lowercase(name)
}

/// A variable passes when the deny list does not hold it, the allow list is
/// non-empty and holds it (both compared in lower case).
pub open spec fn env_var_passes(c: SandboxConfig, name: Seq<char>) -> bool {
    !listed_lowercase(c.env_denylist@, name) && c.env_allowlist@.len() > 0 && listed_lowercase(
        c.env_allowlist@,
        name,
    )
}

/// The variables of `vars` that pass, in order.
pub open spec fn passing_vars(c: SandboxConfig, vars: Seq<(String, String)>) -> Seq<
    (String, String),
>
    decreases vars.len(),
{
    if vars.len() == 0 {
        Seq::empty()
    } else {
        let rest = passing_vars(c, vars.drop_last());
        if env_var_passes(c, vars.last().0@) {
            rest.push(vars.last())
        } else {
            rest
        }
    }
}

impl SandboxConfig {
    pub fn new() -> (c: Self)
        ensures
            c.working_directory is None,
            c.env_allowlist@.len() == 0,
            c.env_denylist@.len() == 0,
            c.budgets.max_wall_clock == Some(duration_from_secs(120)),
            c.budgets.max_output_bytes == Some(10485760u64),
            c.budgets.max_tokens is None,
            c.budgets.max_cpu_time is None,
    {
        Self::default()
    }

    /// Sets the working directory for backend execution.
    pub fn with_working_directory(self, dir: &str) -> (c: Self)
        ensures
            c.working_directory matches Some(d) && d@ == dir@,
            c.env_allowlist == self.env_allowlist,
            c.env_denylist == self.env_denylist,
            c.budgets == self.budgets,
    {
        SandboxConfig { working_directory: Some(owned(dir)), ..self }
    }

    /// Replaces the allow list.
    pub fn with_env_allowlist(self, vars: Vec<String>) -> (c: Self)
        ensures
            c == (SandboxConfig { env_allowlist: vars, ..self }),
    {
        SandboxConfig { env_allowlist: vars, ..self }
    }

    /// Replaces the deny list.
    pub fn with_env_denylist(self, vars: Vec<String>) -> (c: Self)
        ensures
            c == (SandboxConfig { env_denylist: vars, ..self }),
    {
        SandboxConfig { env_denylist: vars, ..self }
    }

    /// Replaces the resource budgets.
    pub fn with_budgets(self, budgets: ResourceBudgets) -> (c: Self)
        ensures
            c == (SandboxConfig { budgets, ..self }),
    {
        SandboxConfig { budgets, ..self }
    }

    /// Whether variable `name` may pass: the deny list wins, an empty allow
    /// list denies everything, names compare up to ASCII case.
    pub fn env_allowed(&self, name: &str) -> (r: bool)
        ensures
            r == (!listed_ignoring_ascii_case(self.env_denylist@, name@)
                && self.env_allowlist@.len() > 0 && listed_ignoring_ascii_case(
                self.env_allowlist@,
                name@,
            )),
    {
        if list_holds_ignoring_case(&self.env_denylist, name) {
            return false;
        }
        if self.env_allowlist.len() == 0 {
            return false;
        }
        list_holds_ignoring_case(&self.env_allowlist, name)
    }

    /// The variables of `vars` (the current environment) that may pass to
    /// the backend, in order; see `env_var_passes`.
    pub fn filtered_env(&self, vars: Vec<(String, String)>) -> (r: Vec<(String, String)>)
        ensures
            r@ == passing_vars(*self, vars@),
    {
        let allow = lower_all(&self.env_allowlist);
        let deny = lower_all(&self.env_denylist);
        let mut out: Vec<(String, String)> = Vec::new();
        let mut i: usize = 0;
        while i < vars.len()
            invariant
                i <= vars.len(),
                allow@.len() == self.env_allowlist@.len(),
                deny@.len() == self.env_denylist@.len(),
                forall|j: int| 0 <= j < allow@.len() ==> #[trigger] allow@[j]@ == lowercase(self.env_allowlist@[j]@),
                forall|j: int| 0 <= j < deny@.len() ==> #[trigger] deny@[j]@ == lowercase(self.env_denylist@[j]@),
                out@ == passing_vars(*self, vars@.subrange(0, i as int)),
            decreases vars.len() - i,
        {
            proof {
                assert(vars@.subrange(0, i + 1).drop_last() =~= vars@.subrange(0, i as int));
                assert(vars@.subrange(0, i + 1).last() == vars@[i as int]);
            }
            let key = to_lowercase(vars[i].0.as_str());
            let denied = holds_exact(&deny, key.as_str());
            let passes = !denied && allow.len() > 0 && holds_exact(&allow, key.as_str());
            proof {
                let name = vars@[i as int].0@;
                if denied {
                    let j = choose|j: int| 0 <= j < deny@.len() && deny@[j]@ == key@;
                    assert(lowercase(self.env_denylist@[j]@) == lowercase(name));
                } else {
                    assert forall|j: int| 0 <= j < self.env_denylist@.len() implies lowercase(
                        self.env_denylist@[j]@,
                    ) != lowercase(name) by {
                        assert(deny@[j]@ == lowercase(self.env_denylist@[j]@));
                    }
                }
                if allow.len() > 0 && !denied {
                    if holds_exact_spec(allow@, key@) {
                        let j = choose|j: int| 0 <= j < allow@.len() && allow@[j]@ == key@;
                        assert(lowercase(self.env_allowlist@[j]@) == lowercase(name));
                    } else {
                        assert forall|j: int| 0 <= j < self.env_allowlist@.len() implies lowercase(
                            self.env_allowlist@[j]@,
                        ) != lowercase(name) by {
                            assert(allow@[j]@ == lowercase(self.env_allowlist@[j]@));
                        }
                    }
                }
                assert(passes == env_var_passes(*self, name));
            }
            if passes {
                out.push((vars[i].0.clone(), vars[i].1.clone()));
            }
            i = i + 1;
        }
        assert(vars@.subrange(0, vars.len() as int) =~= vars@);
        out
    }
}

pub open spec fn holds_exact_spec(v: Seq<String>, s: Seq<char>) -> bool {
    exists|j: int| 0 <= j < v.len() && v[j]@ == s
}

fn holds_exact(v: &Vec<String>, s: &str) -> (r: bool)
    ensures
        r == holds_exact_spec(v@, s@),
{
    let mut i: usize = 0;
    while i < v.len()
        invariant
            i <= v.len(),
            forall|j: int| 0 <= j < i ==> v@[j]@ != s@,
        decreases v.len() - i,
    {
        if str_eq(v[i].as_str(), s) {
            return true;
        }
        i = i + 1;
    }
    false
}

fn lower_all(v: &Vec<String>) -> (r: Vec<String>)
    ensures
        r@.len() == v@.len(),
        forall|j: int| 0 <= j < v@.len() ==> #[trigger] r@[j]@ == lowercase(v@[j]@),
{
    let mut r: Vec<String> = Vec::new();
    let mut i: usize = 0;
    while i < v.len()
        invariant
            i <= v.len(),
            r@.len() == i,
            forall|j: int| 0 <= j < i ==> #[trigger] r@[j]@ == lowercase(v@[j]@),
        decreases v.len() - i,
    {
        r.push(to_lowercase(v[i].as_str()));
        i = i + 1;
    }
    r
}

fn list_holds_ignoring_case(v: &Vec<String>, name: &str) -> (r: bool)
    ensures
        r == listed_ignoring_ascii_case(v@, name@),
{
    let mut i: usize = 0;
    while i < v.len()
        invariant
            i <= v.len(),
            forall|j: int| 0 <= j < i ==> ascii_fold(v@[j]@) != ascii_fold(name@),
        decreases v.len() - i,
    {
        if eq_ignore_ascii_case(v[i].as_str(), name) {
            return true;
        }
        i = i + 1;
    }
    false
}

/// The deny list wins over the allow list: a denied name never passes.
pub proof fn lemma_denylist_overrides_allowlist(c: SandboxConfig, name: Seq<char>)
    requires
        listed_lowercase(c.env_denylist@, name),
    ensures
        !env_var_passes(c, name),
{
}

/// An empty allow list lets nothing through.
pub proof fn lemma_empty_allowlist_denies_all(c: SandboxConfig, vars: Seq<(String, String)>)
    requires
        c.env_allowlist@.len() == 0,
    ensures
        passing_vars(c, vars) == Seq::<(String, String)>::empty(),
    decreases vars.len(),
{
    if vars.len() > 0 {
        lemma_empty_allowlist_denies_all(c, vars.drop_last());
    }
}

} // verus!
