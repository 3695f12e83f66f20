use vstd::prelude::*;

verus! {

/// What to do after one look at the index for a freshly published crate.
#[derive(PartialEq, Eq, Structural, Clone, Copy, Debug)]
pub enum WaitStep {
    /// The index lists the crate: stop waiting.
    Published,
    /// The time allowed is over: warn and stop waiting.
    TimedOut,
    /// Sleep a second and look again.
    Retry,
}

/// The decision after a look at the index: `found` tells whether the index
/// listed the crate, `elapsed_nanos` how long the wait has lasted and
/// `timeout_nanos` how long it may last.
pub open spec fn next_wait_step(found: bool, timeout_nanos: u128, elapsed_nanos: u128) -> WaitStep {
    if found {
        WaitStep::Published
    } else if timeout_nanos < elapsed_nanos {
        WaitStep::TimedOut
    } else {
        WaitStep::Retry
    }
}

pub fn wait_step(found: bool, timeout_nanos: u128, elapsed_nanos: u128) -> (s: WaitStep)
    ensures
        s == next_wait_step(found, timeout_nanos, elapsed_nanos),
{
    if found {
        WaitStep::Published
    } else if timeout_nanos < elapsed_nanos {
        WaitStep::TimedOut
    } else {
        WaitStep::Retry
    }
}

/// The wait ends at the latest with the first look taken after the
/// timeout has passed, and it never ends while the crate is missing and
/// time is left.
pub proof fn lemma_wait_ends(found: bool, timeout_nanos: u128, elapsed_nanos: u128)
    ensures
        timeout_nanos < elapsed_nanos ==> next_wait_step(found, timeout_nanos, elapsed_nanos)
            != WaitStep::Retry,
        !found && elapsed_nanos <= timeout_nanos ==> next_wait_step(
            found,
            timeout_nanos,
            elapsed_nanos,
        ) == WaitStep::Retry,
{
}

/// The version requirement that matches exactly `version`: `=` and the
/// version.
pub fn exact_version_requirement(version: &str) -> (req: String)
    ensures
        req@ == "="@ + version@,
{
    let mut req = String::from_str("=");
    req.append(version);
    req
}

/// The warning shown when the crate did not show up in time.
pub fn timeout_warning(package_name: &str, source_description: &str) -> (w: String)
    ensures
        w@ == "timed out waiting for `"@ + package_name@ + "` to be in "@ + source_description@,
{
    let mut w = String::from_str("timed out waiting for `");
    w.append(package_name);
    w.append("` to be in ");
    w.append(source_description);
    w
}

} // verus!
