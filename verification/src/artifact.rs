//! Repository-relative artifact authorization: traversal, repository
//! containment, deny list before allow list, and symlink escape.
//!
//! Paths are strings with `/` separators, split into components the way
//! `std::path` does on Unix: a leading `/` is the root, empty segments and
//! non-leading `.` segments vanish, `.` at the start of a relative path is
//! the current directory, `..` is the parent directory.
use vstd::prelude::*;

use crate::text::{clone_strings, has_prefix, has_suffix, owned, push_char, str_eq};

verus! {

/// One component of a path, as a mathematical value.
pub enum PathComponentView {
    RootDir,
    CurDir,
    ParentDir,
    Normal(Seq<char>),
}

/// One component of a path.
#[derive(Debug, Clone, PartialEq, Eq)]
pub enum PathComponent {
    RootDir,
    CurDir,
    ParentDir,
    Normal(String),
}

impl View for PathComponent {
    type V = PathComponentView;

    open spec fn view(&self) -> PathComponentView {
        match self {
            PathComponent::RootDir => PathComponentView::RootDir,
            PathComponent::CurDir => PathComponentView::CurDir,
            PathComponent::ParentDir => PathComponentView::ParentDir,
            PathComponent::Normal(s) => PathComponentView::Normal(s@),
        }
    }
}

pub open spec fn components_view(cs: Seq<PathComponent>) -> Seq<PathComponentView> {
    cs.map_values(|c: PathComponent| c@)
}

pub open spec fn is_absolute_path(s: Seq<char>) -> bool {
    s.len() > 0 && s[0] == '/'
}

pub open spec fn single_dot() -> Seq<char> {
    seq!['.']
}

pub open spec fn double_dot() -> Seq<char> {
    seq!['.', '.']
}

/// Adds the segment that ended to the components seen so far.
pub open spec fn flush_segment(
    done: Seq<PathComponentView>,
    seg: Seq<char>,
    absolute: bool,
) -> Seq<PathComponentView> {
    if seg.len() == 0 {
        done
    } else if seg == single_dot() {
        if done.len() == 0 && !absolute {
            done.push(PathComponentView::CurDir)
        } else {
            done
        }
    } else if seg == double_dot() {
        done.push(PathComponentView::ParentDir)
    } else {
        done.push(PathComponentView::Normal(seg))
    }
}

/// The components finished and the segment in progress after reading `s`.
pub open spec fn scan_path(s: Seq<char>, absolute: bool) -> (Seq<PathComponentView>, Seq<char>)
    decreases s.len(),
{
    if s.len() == 0 {
        (Seq::empty(), Seq::empty())
    } else {
        let (done, seg) = scan_path(s.drop_last(), absolute);
        if s.last() == '/' {
            (flush_segment(done, seg, absolute), Seq::empty())
        } else {
            (done, seg.push(s.last()))
        }
    }
}

/// The components of path `s`.
pub open spec fn path_components(s: Seq<char>) -> Seq<PathComponentView> {
    let absolute = is_absolute_path(s);
    let (done, seg) = scan_path(s, absolute);
    let rest = flush_segment(done, seg, absolute);
    if absolute {
        seq![PathComponentView::RootDir] + rest
    } else {
        rest
    }
}

pub open spec fn has_parent_dir(cs: Seq<PathComponentView>) -> bool {
    exists|i: int| 0 <= i < cs.len() && cs[i] is ParentDir
}

/// `PathBuf::push` on Unix: an absolute path replaces, otherwise a
/// separator is added when the base is non-empty and lacks one.
pub open spec fn join_path(base: Seq<char>, p: Seq<char>) -> Seq<char> {
    if is_absolute_path(p) {
        p
    } else if base.len() == 0 {
        p
    } else if base.last() == '/' {
        base + p
    } else {
        base + seq!['/'] + p
    }
}

pub open spec fn component_text(c: PathComponentView) -> Seq<char> {
    match c {
        PathComponentView::RootDir => seq!['/'],
        PathComponentView::CurDir => single_dot(),
        PathComponentView::ParentDir => double_dot(),
        PathComponentView::Normal(s) => s,
    }
}

/// The path built by pushing the components one after another.
pub open spec fn render_components(cs: Seq<PathComponentView>) -> Seq<char>
    decreases cs.len(),
{
    if cs.len() == 0 {
        Seq::empty()
    } else {
        join_path(render_components(cs.drop_last()), component_text(cs.last()))
    }
}

pub open spec fn components_prefix(base: Seq<PathComponentView>, full: Seq<PathComponentView>) -> bool {
    base.len() <= full.len() && full.subrange(0, base.len() as int) == base
}

/// The names of the normal components, in order.
pub open spec fn normal_names(cs: Seq<PathComponentView>) -> Seq<Seq<char>>
    decreases cs.len(),
{
    if cs.len() == 0 {
        Seq::empty()
    } else {
        match cs.last() {
            PathComponentView::Normal(s) => normal_names(cs.drop_last()).push(s),
            _ => normal_names(cs.drop_last()),
        }
    }
}

/// Names joined with `/`.
pub open spec fn join_names(ns: Seq<Seq<char>>) -> Seq<char>
    decreases ns.len(),
{
    if ns.len() == 0 {
        Seq::empty()
    } else if ns.len() == 1 {
        ns[0]
    } else {
        join_names(ns.drop_last()) + seq!['/'] + ns.last()
    }
}

/// The lookup key of a repository-relative path: its normal components
/// joined with `/`.
pub open spec fn path_key(rel: Seq<PathComponentView>) -> Seq<char> {
    join_names(normal_names(rel))
}

pub open spec fn glob_suffix() -> Seq<char> {
    seq!['/', '*', '*']
}

/// `prefix/**` matches `prefix` and everything under it; any other pattern
/// matches only itself.
pub open spec fn pattern_matches(pattern: Seq<char>, value: Seq<char>) -> bool {
    if has_suffix(pattern, glob_suffix()) {
        let prefix = pattern.subrange(0, pattern.len() - 3);
        value == prefix || has_prefix(value, prefix.push('/'))
    } else {
        value == pattern
    }
}

pub open spec fn any_pattern_matches(patterns: Seq<Seq<char>>, value: Seq<char>) -> bool {
    exists|i: int| 0 <= i < patterns.len() && pattern_matches(patterns[i], value)
}

pub open spec fn backslash_to_slash(p: Seq<char>) -> Seq<char> {
    p.map_values(|c: char| if c == '\\' { '/' } else { c })
}

/// `p` with every leading `./` removed.
pub open spec fn trim_dot_slash(p: Seq<char>) -> Seq<char>
    decreases p.len(),
{
    if p.len() >= 2 && p[0] == '.' && p[1] == '/' {
        trim_dot_slash(p.subrange(2, p.len() as int))
    } else {
        p
    }
}

/// A pattern as it is stored: backslashes become `/`, leading `./` go.
pub open spec fn normalized_pattern(p: Seq<char>) -> Seq<char> {
    trim_dot_slash(backslash_to_slash(p))
}

#[derive(Debug, Clone, Copy, PartialEq, Eq, Structural)]
pub enum ResourceAccess {
    Read,
    Write,
}

#[derive(Debug, Clone, Copy, PartialEq, Eq, Structural)]
pub enum ArtifactPolicyError {
    PathTraversal,
    OutsideRepo,
    SymlinkEscape,
    DeniedByDenylist,
    NotAllowed,
    InvalidRepoRoot,
}

/// What the filesystem says about a candidate path: no ancestor of it
/// exists, the deepest existing ancestor resolves to a real path, or that
/// resolution failed.
#[derive(Debug, Clone, PartialEq, Eq)]
pub enum RealPathProbe {
    NothingExists,
    Resolved(String),
    ResolutionFailed,
}

pub enum RealPathProbeView {
    NothingExists,
    Resolved(Seq<char>),
    ResolutionFailed,
}

impl View for RealPathProbe {
    type V = RealPathProbeView;

    open spec fn view(&self) -> RealPathProbeView {
        match self {
            RealPathProbe::NothingExists => RealPathProbeView::NothingExists,
            RealPathProbe::Resolved(s) => RealPathProbeView::Resolved(s@),
            RealPathProbe::ResolutionFailed => RealPathProbeView::ResolutionFailed,
        }
    }
}

/// Pattern lists and repository roots as mathematical values.
pub struct ArtifactPolicyView {
    pub repo_root: Seq<char>,
    pub repo_root_real: Seq<char>,
    pub read_allow: Seq<Seq<char>>,
    pub write_allow: Seq<Seq<char>>,
    pub deny: Seq<Seq<char>>,
}

/// The path that is checked for `requested`: itself when absolute, else
/// joined under the repository root.
pub open spec fn candidate_spec(repo_root: Seq<char>, requested: Seq<char>) -> Seq<char> {
    if is_absolute_path(requested) {
        requested
    } else {
        join_path(repo_root, requested)
    }
}

/// The components of the candidate below the repository root.
pub open spec fn relative_components(repo_root: Seq<char>, requested: Seq<char>) -> Seq<
    PathComponentView,
> {
    let cand = path_components(candidate_spec(repo_root, requested));
    cand.subrange(path_components(repo_root).len() as int, cand.len() as int)
}

/// The outcome of `authorize`: the checks run in the order traversal,
/// containment, deny list, allow list, symlink escape, and the answer is the
/// repository root joined with the relative path.
pub open spec fn authorize_spec(
    p: ArtifactPolicyView,
    access: ResourceAccess,
    requested: Seq<char>,
    probe: RealPathProbeView,
) -> Result<Seq<char>, ArtifactPolicyError> {
    let cand = path_components(candidate_spec(p.repo_root, requested));
    let root = path_components(p.repo_root);
    let rel = relative_components(p.repo_root, requested);
    let key = path_key(rel);
    let allow = match access {
        ResourceAccess::Read => p.read_allow,
        ResourceAccess::Write => p.write_allow,
    };
    if has_parent_dir(path_components(requested)) {
        Err(ArtifactPolicyError::PathTraversal)
    } else if !components_prefix(root, cand) {
        Err(ArtifactPolicyError::OutsideRepo)
    } else if any_pattern_matches(p.deny, key) {
        Err(ArtifactPolicyError::DeniedByDenylist)
    } else if !any_pattern_matches(allow, key) {
        Err(ArtifactPolicyError::NotAllowed)
    } else {
        match probe {
            RealPathProbeView::NothingExists => Ok(join_path(p.repo_root, render_components(rel))),
            RealPathProbeView::ResolutionFailed => Err(ArtifactPolicyError::OutsideRepo),
            RealPathProbeView::Resolved(resolved) => {
                if components_prefix(path_components(p.repo_root_real), path_components(resolved)) {
                    Ok(join_path(p.repo_root, render_components(rel)))
                } else {
                    Err(ArtifactPolicyError::SymlinkEscape)
                }
            },
        }
    }
}

/// A request containing `..` is refused as traversal, whatever the lists
/// and the filesystem say.
pub proof fn lemma_traversal_is_always_refused(
    p: ArtifactPolicyView,
    access: ResourceAccess,
    requested: Seq<char>,
    probe: RealPathProbeView,
)
    requires
        has_parent_dir(path_components(requested)),
    ensures
        authorize_spec(p, access, requested, probe) == Err::<Seq<char>, ArtifactPolicyError>(
            ArtifactPolicyError::PathTraversal,
        ),
{
}

/// The deny list beats the allow list: a path whose key matches a deny
/// pattern is never authorized, for either access.
pub proof fn lemma_deny_beats_allow(
    p: ArtifactPolicyView,
    access: ResourceAccess,
    requested: Seq<char>,
    probe: RealPathProbeView,
)
    requires
        any_pattern_matches(p.deny, path_key(relative_components(p.repo_root, requested))),
    ensures
        authorize_spec(p, access, requested, probe) is Err,
{
}

/// Only paths below the repository root, matched by the allow list of the
/// requested access and by no deny pattern, are ever authorized.
pub proof fn lemma_authorized_paths_are_repo_local_and_allowed(
    p: ArtifactPolicyView,
    access: ResourceAccess,
    requested: Seq<char>,
    probe: RealPathProbeView,
)
    requires
        authorize_spec(p, access, requested, probe) is Ok,
    ensures
        !has_parent_dir(path_components(requested)),
        components_prefix(
            path_components(p.repo_root),
            path_components(candidate_spec(p.repo_root, requested)),
        ),
        !any_pattern_matches(p.deny, path_key(relative_components(p.repo_root, requested))),
        any_pattern_matches(
            match access {
                ResourceAccess::Read => p.read_allow,
                ResourceAccess::Write => p.write_allow,
            },
            path_key(relative_components(p.repo_root, requested)),
        ),
        probe matches RealPathProbeView::Resolved(resolved) ==> components_prefix(
            path_components(p.repo_root_real),
            path_components(resolved),
        ),
        !(probe is ResolutionFailed),
{
}

/// `prefix/**` matches the prefix itself and every path beneath it.
pub proof fn lemma_glob_covers_prefix_and_descendants(prefix: Seq<char>, rest: Seq<char>)
    ensures
        pattern_matches(prefix + glob_suffix(), prefix),
        pattern_matches(prefix + glob_suffix(), prefix + seq!['/'] + rest),
{
    let pat = prefix + glob_suffix();
    assert(pat.subrange(pat.len() - 3, pat.len() as int) =~= glob_suffix());
    assert(pat.subrange(0, pat.len() - 3) =~= prefix);
    let v = prefix + seq!['/'] + rest;
    assert(v.subrange(0, prefix.push('/').len() as int) =~= prefix.push('/'));
}

#[derive(Debug, Clone)]
pub struct ArtifactPolicy {
    repo_root: String,
    repo_root_real: String,
    read_allow: Vec<String>,
    write_allow: Vec<String>,
    deny: Vec<String>,
}

pub open spec fn strings_view(v: Seq<String>) -> Seq<Seq<char>> {
    v.map_values(|s: String| s@)
}

impl View for ArtifactPolicy {
    type V = ArtifactPolicyView;

    closed spec fn view(&self) -> ArtifactPolicyView {
        ArtifactPolicyView {
            repo_root: self.repo_root@,
            repo_root_real: self.repo_root_real@,
            read_allow: strings_view(self.read_allow@),
            write_allow: strings_view(self.write_allow@),
            deny: strings_view(self.deny@),
        }
    }
}

impl ArtifactPolicy {
    /// A policy with empty lists for `repo_root`, given what canonicalizing
    /// the root on disk returned; a root that does not resolve is refused.
    pub fn new(repo_root: &str, repo_root_real: Option<String>) -> (r: Result<
        Self,
        ArtifactPolicyError,
    >)
        ensures
            repo_root_real is None ==> r == Err::<Self, ArtifactPolicyError>(
                ArtifactPolicyError::InvalidRepoRoot,
            ),
            repo_root_real matches Some(root_real) ==> r matches Ok(p) && p@ == (ArtifactPolicyView {
                repo_root: repo_root@,
                repo_root_real: root_real@,
                read_allow: Seq::empty(),
                write_allow: Seq::empty(),
                deny: Seq::empty(),
            }),
    {
        match repo_root_real {
            None => Err(ArtifactPolicyError::InvalidRepoRoot),
            Some(root_real) => {
                let p = ArtifactPolicy {
                    repo_root: owned(repo_root),
                    repo_root_real: root_real,
                    read_allow: Vec::new(),
                    write_allow: Vec::new(),
                    deny: Vec::new(),
                };
                assert(p@.read_allow =~= Seq::<Seq<char>>::empty());
                assert(p@.write_allow =~= Seq::<Seq<char>>::empty());
                assert(p@.deny =~= Seq::<Seq<char>>::empty());
                Ok(p)
            },
        }
    }

    /// A field-by-field copy.
    pub fn duplicate(&self) -> (r: Self)
        ensures
            r@ == self@,
    {
        ArtifactPolicy {
            repo_root: self.repo_root.clone(),
            repo_root_real: self.repo_root_real.clone(),
            read_allow: clone_strings(&self.read_allow),
            write_allow: clone_strings(&self.write_allow),
            deny: clone_strings(&self.deny),
        }
    }

    pub fn repo_root(&self) -> (r: &str)
        ensures
            r@ == self@.repo_root,
    {
        self.repo_root.as_str()
    }

    /// Adds normalized read patterns after the existing ones.
    pub fn allow_read(self, patterns: Vec<String>) -> (r: Self)
        ensures
            r@ == (ArtifactPolicyView {
                read_allow: self@.read_allow + strings_view(patterns@).map_values(
                    |p: Seq<char>| normalized_pattern(p),
                ),
                ..self@
            }),
    {
        let mut s = self;
        let old_list = s.read_allow;
        s.read_allow = extend_normalized(old_list, &patterns);
        s
    }

    /// Adds normalized write patterns after the existing ones.
    pub fn allow_write(self, patterns: Vec<String>) -> (r: Self)
        ensures
            r@ == (ArtifactPolicyView {
                write_allow: self@.write_allow + strings_view(patterns@).map_values(
                    |p: Seq<char>| normalized_pattern(p),
                ),
                ..self@
            }),
    {
        let mut s = self;
        let old_list = s.write_allow;
        s.write_allow = extend_normalized(old_list, &patterns);
        s
    }

    /// Adds normalized deny patterns after the existing ones.
    pub fn deny(self, patterns: Vec<String>) -> (r: Self)
        ensures
            r@ == (ArtifactPolicyView {
                deny: self@.deny + strings_view(patterns@).map_values(
                    |p: Seq<char>| normalized_pattern(p),
                ),
                ..self@
            }),
    {
        let mut s = self;
        let old_list = s.deny;
        s.deny = extend_normalized(old_list, &patterns);
        s
    }

    /// The path whose filesystem state decides the symlink check for
    /// `requested`.
    pub fn candidate_path(&self, requested: &str) -> (r: String)
        ensures
            r@ == candidate_spec(self@.repo_root, requested@),
    {
        if is_absolute(requested) {
            owned(requested)
        } else {
            join(self.repo_root.as_str(), requested)
        }
    }

    /// Authorizes `access` to `requested`, given what the filesystem says
    /// about the candidate path (see `candidate_path`).
    pub fn authorize(&self, access: ResourceAccess, requested: &str, probe: &RealPathProbe) -> (r:
        Result<String, ArtifactPolicyError>)
        ensures
            match r {
                Ok(path) => authorize_spec(self@, access, requested@, probe@) == Ok::<
                    Seq<char>,
                    ArtifactPolicyError,
                >(path@),
                Err(e) => authorize_spec(self@, access, requested@, probe@) == Err::<
                    Seq<char>,
                    ArtifactPolicyError,
                >(e),
            },
    {
        let req_comps = components(requested);
        if contains_parent_dir(&req_comps) {
            return Err(ArtifactPolicyError::PathTraversal);
        }
        let candidate = self.candidate_path(requested);
        let cand = components(candidate.as_str());
        let root = components(self.repo_root.as_str());
        if !is_components_prefix(&root, &cand) {
            return Err(ArtifactPolicyError::OutsideRepo);
        }
        let rel = suffix_from(&cand, root.len());
        proof {
            assert(components_view(rel@) =~= relative_components(self@.repo_root, requested@));
        }
        let key = relative_key(&rel);
        if any_match(&self.deny, key.as_str()) {
            return Err(ArtifactPolicyError::DeniedByDenylist);
        }
        let allowed = match access {
            ResourceAccess::Read => any_match(&self.read_allow, key.as_str()),
            ResourceAccess::Write => any_match(&self.write_allow, key.as_str()),
        };
        if !allowed {
            return Err(ArtifactPolicyError::NotAllowed);
        }
        let rendered = render(&rel);
        let path = join(self.repo_root.as_str(), rendered.as_str());
        match probe {
            RealPathProbe::NothingExists => Ok(path),
            RealPathProbe::ResolutionFailed => Err(ArtifactPolicyError::OutsideRepo),
            RealPathProbe::Resolved(resolved) => {
                let real_comps = components(resolved.as_str());
                let root_real = components(self.repo_root_real.as_str());
                if is_components_prefix(&root_real, &real_comps) {
                    Ok(path)
                } else {
                    Err(ArtifactPolicyError::SymlinkEscape)
                }
            },
        }
    }
}

fn extend_normalized(list: Vec<String>, patterns: &Vec<String>) -> (r: Vec<String>)
    ensures
        strings_view(r@) == strings_view(list@) + strings_view(patterns@).map_values(
            |p: Seq<char>| normalized_pattern(p),
        ),
{
    let mut out = list;
    let ghost base = strings_view(out@);
    let mut i: usize = 0;
    while i < patterns.len()
        invariant
            i <= patterns.len(),
            strings_view(out@) == base + strings_view(patterns@.subrange(0, i as int)).map_values(
                |p: Seq<char>| normalized_pattern(p),
            ),
        decreases patterns.len() - i,
    {
        let n = normalize_pattern(patterns[i].as_str());
        let ghost prev = out@;
        out.push(n);
        proof {
            assert(strings_view(patterns@.subrange(0, i + 1)).map_values(
                |p: Seq<char>| normalized_pattern(p),
            ) =~= strings_view(patterns@.subrange(0, i as int)).map_values(
                |p: Seq<char>| normalized_pattern(p),
            ).push(normalized_pattern(patterns@[i as int]@)));
            assert(strings_view(out@) =~= strings_view(prev).push(
                normalized_pattern(patterns@[i as int]@),
            ));
        }
        i = i + 1;
    }
    assert(patterns@.subrange(0, patterns@.len() as int) =~= patterns@);
    out
}

fn is_absolute(s: &str) -> (r: bool)
    ensures
        r == is_absolute_path(s@),
{
    s.unicode_len() > 0 && s.get_char(0) == '/'
}

/// `PathBuf::push` on Unix; see `join_path`.
pub fn join(base: &str, p: &str) -> (r: String)
    ensures
        r@ == join_path(base@, p@),
{
    if is_absolute(p) {
        owned(p)
    } else {
        let n = base.unicode_len();
        if n == 0 {
            owned(p)
        } else if base.get_char(n - 1) == '/' {
            let mut s = owned(base);
            s.append(p);
            s
        } else {
            let mut s = owned(base);
            s.append("/");
            s.append(p);
            proof {
                reveal_strlit("/");
            }
            assert(s@ =~= base@ + seq!['/'] + p@);
            s
        }
    }
}

fn is_single_dot(s: &String) -> (r: bool)
    ensures
        r == (s@ == single_dot()),
{
    let n = s.as_str().unicode_len();
    let r = n == 1 && s.as_str().get_char(0) == '.';
    proof {
        if r {
            assert(s@ =~= single_dot());
        }
    }
    r
}

fn is_double_dot(s: &String) -> (r: bool)
    ensures
        r == (s@ == double_dot()),
{
    let n = s.as_str().unicode_len();
    let r = n == 2 && s.as_str().get_char(0) == '.' && s.as_str().get_char(1) == '.';
    proof {
        if r {
            assert(s@ =~= double_dot());
        }
    }
    r
}

fn flush(done: &mut Vec<PathComponent>, seg: String, absolute: bool)
    ensures
        components_view(final(done)@) == flush_segment(components_view(old(done)@), seg@, absolute),
{
    let n = seg.as_str().unicode_len();
    if n == 0 {
    } else if is_single_dot(&seg) {
        if done.len() == 0 && !absolute {
            done.push(PathComponent::CurDir);
            assert(components_view(done@) =~= components_view(old(done)@).push(
                PathComponentView::CurDir,
            ));
        }
    } else if is_double_dot(&seg) {
        done.push(PathComponent::ParentDir);
        assert(components_view(done@) =~= components_view(old(done)@).push(
            PathComponentView::ParentDir,
        ));
    } else {
        let ghost sv = seg@;
        done.push(PathComponent::Normal(seg));
        assert(components_view(done@) =~= components_view(old(done)@).push(
            PathComponentView::Normal(sv),
        ));
    }
}

/// The components of a path string; see `path_components`.
pub fn components(s: &str) -> (r: Vec<PathComponent>)
    ensures
        components_view(r@) == path_components(s@),
{
    let absolute = is_absolute(s);
    let n = s.unicode_len();
    let mut done: Vec<PathComponent> = Vec::new();
    let mut seg = String::new();
    let mut i: usize = 0;
    while i < n
        invariant
            n == s@.len(),
            i <= n,
            absolute == is_absolute_path(s@),
            (components_view(done@), seg@) == scan_path(s@.subrange(0, i as int), absolute),
        decreases n - i,
    {
        let c = s.get_char(i);
        proof {
            assert(s@.subrange(0, i + 1).drop_last() =~= s@.subrange(0, i as int));
            assert(s@.subrange(0, i + 1).last() == c);
        }
        if c == '/' {
            let finished = seg;
            seg = String::new();
            flush(&mut done, finished, absolute);
        } else {
            push_char(&mut seg, c);
        }
        i = i + 1;
    }
    assert(s@.subrange(0, n as int) =~= s@);
    flush(&mut done, seg, absolute);
    if absolute {
        let mut r: Vec<PathComponent> = Vec::new();
        r.push(PathComponent::RootDir);
        let ghost rest = done@;
        r.append(&mut done);
        assert(components_view(r@) =~= seq![PathComponentView::RootDir] + components_view(rest));
        r
    } else {
        done
    }
}

fn contains_parent_dir(cs: &Vec<PathComponent>) -> (r: bool)
    ensures
        r == has_parent_dir(components_view(cs@)),
{
    let mut i: usize = 0;
    while i < cs.len()
        invariant
            i <= cs.len(),
            forall|j: int| 0 <= j < i ==> !(components_view(cs@)[j] is ParentDir),
        decreases cs.len() - i,
    {
        match &cs[i] {
            PathComponent::ParentDir => {
                assert(components_view(cs@)[i as int] is ParentDir);
                return true;
            },
            _ => {},
        }
        i = i + 1;
    }
    false
}

fn component_eq(a: &PathComponent, b: &PathComponent) -> (r: bool)
    ensures
        r == (a@ == b@),
{
    match (a, b) {
        (PathComponent::RootDir, PathComponent::RootDir) => true,
        (PathComponent::CurDir, PathComponent::CurDir) => true,
        (PathComponent::ParentDir, PathComponent::ParentDir) => true,
        (PathComponent::Normal(x), PathComponent::Normal(y)) => str_eq(x.as_str(), y.as_str()),
        _ => false,
    }
}

fn is_components_prefix(base: &Vec<PathComponent>, full: &Vec<PathComponent>) -> (r: bool)
    ensures
        r == components_prefix(components_view(base@), components_view(full@)),
{
    if base.len() > full.len() {
        return false;
    }
    let mut i: usize = 0;
    while i < base.len()
        invariant
            base.len() <= full.len(),
            i <= base.len(),
            forall|j: int| 0 <= j < i ==> components_view(base@)[j] == components_view(full@)[j],
        decreases base.len() - i,
    {
        if !component_eq(&base[i], &full[i]) {
            assert(components_view(full@).subrange(0, base.len() as int)[i as int]
                != components_view(base@)[i as int]);
            return false;
        }
        i = i + 1;
    }
    assert(components_view(full@).subrange(0, base.len() as int) =~= components_view(base@));
    true
}

fn copy_component(c: &PathComponent) -> (r: PathComponent)
    ensures
        r@ == c@,
{
    match c {
        PathComponent::RootDir => PathComponent::RootDir,
        PathComponent::CurDir => PathComponent::CurDir,
        PathComponent::ParentDir => PathComponent::ParentDir,
        PathComponent::Normal(s) => PathComponent::Normal(s.clone()),
    }
}

fn suffix_from(cs: &Vec<PathComponent>, start: usize) -> (r: Vec<PathComponent>)
    requires
        start <= cs.len(),
    ensures
        components_view(r@) == components_view(cs@).subrange(start as int, cs@.len() as int),
{
    let mut r: Vec<PathComponent> = Vec::new();
    let mut i: usize = start;
    while i < cs.len()
        invariant
            start <= i <= cs.len(),
            components_view(r@) == components_view(cs@).subrange(start as int, i as int),
        decreases cs.len() - i,
    {
        let c = copy_component(&cs[i]);
        let ghost prev = r@;
        r.push(c);
        assert(components_view(r@) =~= components_view(prev).push(c@));
        assert(components_view(r@) =~= components_view(cs@).subrange(start as int, i + 1));
        i = i + 1;
    }
    r
}

/// The lookup key of a relative path; see `path_key`.
fn relative_key(rel: &Vec<PathComponent>) -> (r: String)
    ensures
        r@ == path_key(components_view(rel@)),
{
    let mut key = String::new();
    let mut count: usize = 0;
    let mut i: usize = 0;
    while i < rel.len()
        invariant
            i <= rel.len(),
            count <= i,
            count == normal_names(components_view(rel@).subrange(0, i as int)).len(),
            key@ == join_names(normal_names(components_view(rel@).subrange(0, i as int))),
        decreases rel.len() - i,
    {
        proof {
            assert(components_view(rel@).subrange(0, i + 1).drop_last() =~= components_view(
                rel@,
            ).subrange(0, i as int));
        }
        match &rel[i] {
            PathComponent::Normal(name) => {
                if count > 0 {
                    push_char(&mut key, '/');
                }
                let ghost before = key@;
                key.append(name.as_str());
                proof {
                    let ns = normal_names(components_view(rel@).subrange(0, i as int));
                    if count > 0 {
                        assert(key@ =~= join_names(ns) + seq!['/'] + name@);
                    } else {
                        assert(ns.len() == 0);
                        assert(key@ =~= name@);
                    }
                    assert(ns.push(name@).drop_last() =~= ns);
                }
                count = count + 1;
            },
            _ => {},
        }
        i = i + 1;
    }
    assert(components_view(rel@).subrange(0, rel.len() as int) =~= components_view(rel@));
    key
}

fn component_string(c: &PathComponent) -> (r: String)
    ensures
        r@ == component_text(c@),
{
    match c {
        PathComponent::RootDir => {
            let mut s = String::new();
            push_char(&mut s, '/');
            assert(s@ =~= seq!['/']);
            s
        },
        PathComponent::CurDir => {
            let mut s = String::new();
            push_char(&mut s, '.');
            assert(s@ =~= single_dot());
            s
        },
        PathComponent::ParentDir => {
            let mut s = String::new();
            push_char(&mut s, '.');
            push_char(&mut s, '.');
            assert(s@ =~= double_dot());
            s
        },
        PathComponent::Normal(n) => n.clone(),
    }
}

/// The path built from components; see `render_components`.
fn render(cs: &Vec<PathComponent>) -> (r: String)
    ensures
        r@ == render_components(components_view(cs@)),
{
    let mut out = String::new();
    let mut i: usize = 0;
    while i < cs.len()
        invariant
            i <= cs.len(),
            out@ == render_components(components_view(cs@).subrange(0, i as int)),
        decreases cs.len() - i,
    {
        proof {
            assert(components_view(cs@).subrange(0, i + 1).drop_last() =~= components_view(
                cs@,
            ).subrange(0, i as int));
        }
        let piece = component_string(&cs[i]);
        out = join(out.as_str(), piece.as_str());
        i = i + 1;
    }
    assert(components_view(cs@).subrange(0, cs.len() as int) =~= components_view(cs@));
    out
}

/// Whether `pattern` matches `value`; see `pattern_matches`.
pub fn pattern_match(pattern: &str, value: &str) -> (r: bool)
    ensures
        r == pattern_matches(pattern@, value@),
{
    let n = pattern.unicode_len();
    let is_glob = n >= 3 && pattern.get_char(n - 3) == '/' && pattern.get_char(n - 2) == '*'
        && pattern.get_char(n - 1) == '*';
    proof {
        if n >= 3 {
            if is_glob {
                assert(pattern@.subrange(n - 3, n as int) =~= glob_suffix());
            } else {
                assert(pattern@.subrange(n - 3, n as int) != glob_suffix()) by {
                    if pattern@.subrange(n - 3, n as int) == glob_suffix() {
                        assert(pattern@.subrange(n - 3, n as int)[0] == '/');
                        assert(pattern@.subrange(n - 3, n as int)[1] == '*');
                        assert(pattern@.subrange(n - 3, n as int)[2] == '*');
                    }
                }
            }
        }
    }
    if is_glob {
        let prefix = pattern.substring_char(0, n - 3);
        if str_eq(value, prefix) {
            return true;
        }
        let mut with_slash = owned(prefix);
        push_char(&mut with_slash, '/');
        crate::text::starts_with(value, with_slash.as_str())
    } else {
        str_eq(value, pattern)
    }
}

fn any_match(patterns: &Vec<String>, value: &str) -> (r: bool)
    ensures
        r == any_pattern_matches(strings_view(patterns@), value@),
{
    let mut i: usize = 0;
    while i < patterns.len()
        invariant
            i <= patterns.len(),
            forall|j: int| 0 <= j < i ==> !pattern_matches(strings_view(patterns@)[j], value@),
        decreases patterns.len() - i,
    {
        if pattern_match(patterns[i].as_str(), value) {
            assert(pattern_matches(strings_view(patterns@)[i as int], value@));
            return true;
        }
        i = i + 1;
    }
    false
}

/// Normalizes a pattern; see `normalized_pattern`.
pub fn normalize_pattern(p: &str) -> (r: String)
    ensures
        r@ == normalized_pattern(p@),
{
    let n = p.unicode_len();
    let mut swapped = String::new();
    let mut i: usize = 0;
    while i < n
        invariant
            n == p@.len(),
            i <= n,
            swapped@ == backslash_to_slash(p@.subrange(0, i as int)),
        decreases n - i,
    {
        let c = p.get_char(i);
        if c == '\\' {
            push_char(&mut swapped, '/');
        } else {
            push_char(&mut swapped, c);
        }
        assert(swapped@ =~= backslash_to_slash(p@.subrange(0, i + 1)));
        i = i + 1;
    }
    assert(p@.subrange(0, n as int) =~= p@);
    let s = swapped.as_str();
    let mut start: usize = 0;
    assert(s@.subrange(0, n as int) =~= s@);
    while start < n && n - start > 1 && s.get_char(start) == '.' && s.get_char(start + 1) == '/'
        invariant
            n == s@.len(),
            start <= n,
            trim_dot_slash(s@.subrange(start as int, n as int)) == trim_dot_slash(s@),
        decreases n - start,
    {
        assert(s@.subrange(start as int, n as int).subrange(2, n - start) =~= s@.subrange(
            start + 2,
            n as int,
        ));
        start = start + 2;
    }
    proof {
        let rest = s@.subrange(start as int, n as int);
        if rest.len() >= 2 {
            assert(rest[0] == s@[start as int]);
            assert(rest[1] == s@[start + 1]);
        }
    }
    owned(s.substring_char(start, n))
}

} // verus!
