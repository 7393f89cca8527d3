//! Durations used by timeouts and resource budgets.
use std::time::Duration;
use vstd::prelude::*;

verus! {

/// The value that `Duration::from_secs` returns for a number of whole seconds.
pub uninterp spec fn duration_from_secs(secs: u64) -> Duration;

/// `Duration::from_secs`: the duration of `secs` whole seconds. Its
/// contract only names the result; nothing here is proved of its
/// internal representation.
#[verifier::external_body]
pub(crate) fn secs(n: u64) -> (d: Duration)
    ensures
        d == duration_from_secs(n),
{
    Duration::from_secs(n)
}

} // verus!
