use coagent::artifact::{ArtifactPolicy, ArtifactPolicyError, RealPathProbe, ResourceAccess};

const REPO: &str = "/tmp/coagent-repo";

fn policy() -> ArtifactPolicy {
    ArtifactPolicy::new(REPO, Some(REPO.to_string())).expect("policy")
}

fn patterns(list: &[&str]) -> Vec<String> {
    list.iter().map(|p| p.to_string()).collect()
}

#[test]
fn denied_path_blocks_before_read() {
    let policy = policy()
        .allow_read(patterns(&[".agent/diffs/**"]))
        .deny(patterns(&[".agent/diffs/private/**"]));

    let probe = RealPathProbe::Resolved(format!("{REPO}/.agent/diffs"));
    let error = policy
        .authorize(ResourceAccess::Read, ".agent/diffs/private/current.diff", &probe)
        .expect_err("denylist wins before read");

    assert_eq!(error, ArtifactPolicyError::DeniedByDenylist);
}

#[test]
fn absolute_path_outside_repo_is_denied() {
    let policy = policy().allow_read(patterns(&[".agent/diffs/**"]));

    let probe = RealPathProbe::Resolved("/tmp/coagent-outside".to_string());
    let error = policy
        .authorize(ResourceAccess::Read, "/tmp/coagent-outside/leak.txt", &probe)
        .expect_err("outside absolute path denied");

    assert_eq!(error, ArtifactPolicyError::OutsideRepo);
}

#[test]
fn traversal_is_denied() {
    let policy = policy().allow_read(patterns(&[".agent/diffs/**"]));

    let error = policy
        .authorize(ResourceAccess::Read, ".agent/diffs/../../secrets.txt", &RealPathProbe::NothingExists)
        .expect_err("path traversal denied");

    assert_eq!(error, ArtifactPolicyError::PathTraversal);
}

#[test]
fn symlink_escape_is_denied() {
    let policy = policy().allow_read(patterns(&[".agent/diffs/**"]));

    // `.agent/diffs/link` points outside the repository: the deepest existing
    // ancestor of the candidate resolves there.
    let probe = RealPathProbe::Resolved("/tmp/coagent-symlink-outside/secret.txt".to_string());
    let error = policy
        .authorize(ResourceAccess::Read, ".agent/diffs/link/secret.txt", &probe)
        .expect_err("symlink escape denied");

    assert_eq!(error, ArtifactPolicyError::SymlinkEscape);
}

#[test]
fn denylist_beats_allowlist() {
    let policy = policy()
        .allow_read(patterns(&["docs/**"]))
        .deny(patterns(&["docs/secrets/**"]));

    let probe = RealPathProbe::Resolved(format!("{REPO}/docs/secrets"));
    let error = policy
        .authorize(ResourceAccess::Read, "docs/secrets/plan.md", &probe)
        .expect_err("denylist has precedence");

    assert_eq!(error, ArtifactPolicyError::DeniedByDenylist);
}

#[test]
fn allowed_repo_local_path_is_normalized() {
    let policy = policy().allow_read(patterns(&[".agent/diffs/**"]));

    let probe = RealPathProbe::Resolved(format!("{REPO}/.agent/diffs"));
    let normalized = policy
        .authorize(ResourceAccess::Read, ".agent/diffs/current.diff", &probe)
        .expect("allowed repo-local path");

    assert!(normalized.starts_with(REPO));
    assert_eq!(normalized, format!("{REPO}/.agent/diffs/current.diff"));
}

#[test]
fn unlisted_path_is_not_allowed_and_write_needs_write_patterns() {
    let policy = policy()
        .allow_read(patterns(&[".agent/diffs/**"]))
        .allow_write(patterns(&[".agent/results/**"]));
    let probe = RealPathProbe::NothingExists;

    assert_eq!(
        policy.authorize(ResourceAccess::Read, "src/main.rs", &probe),
        Err(ArtifactPolicyError::NotAllowed)
    );
    assert_eq!(
        policy.authorize(ResourceAccess::Write, ".agent/diffs/current.diff", &probe),
        Err(ArtifactPolicyError::NotAllowed)
    );
    assert_eq!(
        policy.authorize(ResourceAccess::Write, ".agent/results/review.json", &probe),
        Ok(format!("{REPO}/.agent/results/review.json"))
    );
}

#[test]
fn unresolvable_repo_root_is_refused() {
    assert_eq!(
        ArtifactPolicy::new(REPO, None).err(),
        Some(ArtifactPolicyError::InvalidRepoRoot)
    );
}
