//! When a silent capture route gives up and looks for another output.
use vstd::prelude::*;

verus! {

/// How a capture route reacts to silence.
#[derive(Clone, Copy, Debug, PartialEq, Eq, Structural)]
pub enum RoutePolicy {
    AutomaticOutput,
    SelectedOutput,
}

/// Silence thresholds, in milliseconds, before an automatic route retries.
#[derive(Clone, Copy, Debug)]
pub struct ReconnectPolicy {
    pub output_probe_grace_ms: u64,
    pub output_retry_ms: u64,
}

impl Default for ReconnectPolicy {
    fn default() -> (r: Self)
        ensures
            r.output_probe_grace_ms == 2_000,
            r.output_retry_ms == 30_000,
    {
        ReconnectPolicy { output_probe_grace_ms: 2_000, output_retry_ms: 30_000 }
    }
}

/// An automatic output that once carried signal waits the longer retry
/// period; one that never did waits only the probe grace; a selected output
/// never retries on silence.
pub open spec fn spec_should_retry(
    policy: ReconnectPolicy,
    route: RoutePolicy,
    signal_was_seen: bool,
    silence_age_ms: u64,
) -> bool {
    match route {
        RoutePolicy::AutomaticOutput => if signal_was_seen {
            silence_age_ms >= policy.output_retry_ms
        } else {
            silence_age_ms >= policy.output_probe_grace_ms
        },
        RoutePolicy::SelectedOutput => false,
    }
}

impl ReconnectPolicy {
    /// Whether a route that has been silent for `silence_age_ms` should be
    /// abandoned in favour of another output.
    pub fn should_retry(self, route: RoutePolicy, signal_was_seen: bool, silence_age_ms: u64) -> (r:
        bool)
        ensures
            r == spec_should_retry(self, route, signal_was_seen, silence_age_ms),
    {
        match route {
            RoutePolicy::AutomaticOutput => if signal_was_seen {
                silence_age_ms >= self.output_retry_ms
            } else {
                silence_age_ms >= self.output_probe_grace_ms
            },
            RoutePolicy::SelectedOutput => false,
        }
    }
}

/// Once a route would retry, longer silence still retries: the decision is
/// monotone in the silence age.
pub proof fn law_retry_is_monotone_in_silence(
    policy: ReconnectPolicy,
    route: RoutePolicy,
    signal_was_seen: bool,
    shorter_ms: u64,
    longer_ms: u64,
)
    requires
        shorter_ms <= longer_ms,
        spec_should_retry(policy, route, signal_was_seen, shorter_ms),
    ensures
        spec_should_retry(policy, route, signal_was_seen, longer_ms),
{
}

/// A selected output is never abandoned because of silence.
pub proof fn law_selected_output_never_retries(
    policy: ReconnectPolicy,
    signal_was_seen: bool,
    silence_age_ms: u64,
)
    ensures
        !spec_should_retry(policy, RoutePolicy::SelectedOutput, signal_was_seen, silence_age_ms),
{
}

/// An automatic output retries exactly once its silence reaches the wait
/// that applies: the longer retry period after it carried signal, the probe
/// grace when it never did.
pub proof fn law_automatic_output_retries_after_its_wait(
    policy: ReconnectPolicy,
    signal_was_seen: bool,
    silence_age_ms: u64,
)
    ensures
        signal_was_seen ==> (spec_should_retry(
            policy,
            RoutePolicy::AutomaticOutput,
            true,
            silence_age_ms,
        ) <==> silence_age_ms >= policy.output_retry_ms),
        !signal_was_seen ==> (spec_should_retry(
            policy,
            RoutePolicy::AutomaticOutput,
            false,
            silence_age_ms,
        ) <==> silence_age_ms >= policy.output_probe_grace_ms),
{
}

} // verus!
