//! Structural validation of a backend's review result. The numeric
//! confidence ranges are checked by the caller, which holds the numbers;
//! this module decides which failure, if any, the result reports.
use vstd::prelude::*;

use crate::text::{nat_digits, owned, str_eq, usize_string};
use crate::tools::ValidationError;

verus! {

/// Severity of a review finding.
#[derive(Debug, Clone, Copy, PartialEq, Eq, Structural)]
pub enum Severity {
    Blocker,
    Major,
    Minor,
    Note,
}

pub open spec fn severity_name(s: Severity) -> Seq<char> {
    match s {
        Severity::Blocker => "blocker"@,
        Severity::Major => "major"@,
        Severity::Minor => "minor"@,
        Severity::Note => "note"@,
    }
}

impl Severity {
    /// The name a review result writes for this severity.
    pub fn name(&self) -> (r: &'static str)
        ensures
            r@ == severity_name(*self),
    {
        match self {
            Severity::Blocker => "blocker",
            Severity::Major => "major",
            Severity::Minor => "minor",
            Severity::Note => "note",
        }
    }
}

/// What validation reads of one finding.
#[derive(Debug, Clone)]
pub struct FindingShape {
    pub issue: String,
    pub category: String,
    /// The finding's confidence lies in `[0, 1]`.
    pub confidence_in_range: bool,
}

/// What validation reads of a review result.
#[derive(Debug, Clone)]
pub struct ReviewShape {
    pub verdict: String,
    pub summary: String,
    /// The overall confidence lies in `[0, 1]`.
    pub confidence_in_range: bool,
    pub findings: Vec<FindingShape>,
}

/// The verdicts a review may give.
pub open spec fn is_verdict(v: Seq<char>) -> bool {
    v == "pass"@ || v == "needs_fix"@ || v == "risky"@ || v == "unknown"@ || v
        == "not_applicable"@
}

/// The failure of finding `f` at index `i`, as a path and a message.
pub open spec fn finding_failure(f: FindingShape, i: nat) -> Option<(Seq<char>, Seq<char>)> {
    let prefix = "/findings/"@ + nat_digits(i);
    if f.issue@.len() == 0 {
        Some((prefix + "/issue"@, "issue must be non-empty"@))
    } else if f.category@.len() == 0 {
        Some((prefix + "/category"@, "category must be non-empty"@))
    } else if !f.confidence_in_range {
        Some((prefix + "/confidence"@, "confidence must be between 0 and 1"@))
    } else {
        None
    }
}

/// The failure of the first failing finding at index `i` or later.
pub open spec fn findings_failure(fs: Seq<FindingShape>, i: nat) -> Option<(Seq<char>, Seq<char>)>
    decreases fs.len() - i,
{
    if i >= fs.len() {
        None
    } else {
        match finding_failure(fs[i as int], i) {
            Some(f) => Some(f),
            None => findings_failure(fs, i + 1),
        }
    }
}

/// The first failure of a review result, checked in order: verdict,
/// summary, confidence, then each finding.
pub open spec fn review_failure(r: ReviewShape) -> Option<(Seq<char>, Seq<char>)> {
    if !is_verdict(r.verdict@) {
        Some(("/verdict"@, "verdict must be a valid review verdict"@))
    } else if r.summary@.len() == 0 {
        Some(("/summary"@, "summary must be a non-empty string"@))
    } else if !r.confidence_in_range {
        Some(("/confidence"@, "confidence must be between 0 and 1"@))
    } else {
        findings_failure(r.findings@, 0)
    }
}

/// Whether `v` is one of the review verdicts.
pub fn is_review_verdict(v: &str) -> (r: bool)
    ensures
        r == is_verdict(v@),
{
    str_eq(v, "pass") || str_eq(v, "needs_fix") || str_eq(v, "risky") || str_eq(v, "unknown")
        || str_eq(v, "not_applicable")
}

fn failure(path: String, message: &str) -> (e: ValidationError)
    ensures
        e.path@ == path@,
        e.message@ == message@,
{
    ValidationError { path, message: owned(message) }
}

fn finding_path(i: usize, field: &str) -> (r: String)
    ensures
        r@ == "/findings/"@ + nat_digits(i as nat) + field@,
{
    let mut p = owned("/findings/");
    let digits = usize_string(i);
    p.append(digits.as_str());
    p.append(field);
    p
}

/// Validates a review result, reporting the first failure in the order
/// verdict, summary, confidence, findings.
pub fn validate_review(r: &ReviewShape) -> (res: Result<(), ValidationError>)
    ensures
        match res {
            Ok(()) => review_failure(*r) is None,
            Err(e) => review_failure(*r) == Some((e.path@, e.message@)),
        },
{
    if !is_review_verdict(r.verdict.as_str()) {
        return Err(failure(owned("/verdict"), "verdict must be a valid review verdict"));
    }
    if r.summary.unicode_len() == 0 {
        return Err(failure(owned("/summary"), "summary must be a non-empty string"));
    }
    if !r.confidence_in_range {
        return Err(failure(owned("/confidence"), "confidence must be between 0 and 1"));
    }
    let mut i: usize = 0;
    while i < r.findings.len()
        invariant
            i <= r.findings.len(),
            review_failure(*r) == findings_failure(r.findings@, i as nat),
        decreases r.findings.len() - i,
    {
        let f = &r.findings[i];
        if f.issue.unicode_len() == 0 {
            return Err(failure(finding_path(i, "/issue"), "issue must be non-empty"));
        }
        if f.category.unicode_len() == 0 {
            return Err(failure(finding_path(i, "/category"), "category must be non-empty"));
        }
        if !f.confidence_in_range {
            return Err(
                failure(finding_path(i, "/confidence"), "confidence must be between 0 and 1"),
            );
        }
        i = i + 1;
    }
    Ok(())
}

/// A result that passes validation has a known verdict, a non-empty
/// summary, a confidence in range, and every finding is well formed.
pub proof fn lemma_valid_review_has_valid_findings(r: ReviewShape, i: nat)
    requires
        review_failure(r) is None,
        i < r.findings@.len(),
    ensures
        is_verdict(r.verdict@),
        r.summary@.len() > 0,
        r.confidence_in_range,
        r.findings@[i as int].issue@.len() > 0,
        r.findings@[i as int].category@.len() > 0,
        r.findings@[i as int].confidence_in_range,
{
    lemma_findings_failure_none(r.findings@, 0, i);
}

proof fn lemma_findings_failure_none(fs: Seq<FindingShape>, start: nat, i: nat)
    requires
        findings_failure(fs, start) is None,
        start <= i < fs.len(),
    ensures
        finding_failure(fs[i as int], i) is None,
    decreases i - start,
{
    if start < i {
        lemma_findings_failure_none(fs, start + 1, i);
    }
}

} // verus!
