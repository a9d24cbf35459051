//! The automatic Windows output route: the active outputs are tried in
//! order, each by activating its loopback client and capturing from it,
//! until one carries live audio. The caller performs each attempt; these
//! functions decide what comes next and build the errors.
use vstd::prelude::*;

use crate::text::{decimal_digits, owned, push_decimal, push_str};
use crate::wasapi::OutputEndpoint;

verus! {

/// The error when Windows lists no active output.
pub fn no_active_outputs() -> (r: String)
    ensures
        r@ == "OUTPUT_ENDPOINT_ENUMERATION_FAILED: Windows reported no active audio outputs"@,
{
    owned("OUTPUT_ENDPOINT_ENUMERATION_FAILED: Windows reported no active audio outputs")
}

/// The error when the outputs cannot be listed.
pub fn enumeration_failed(error: &str) -> (r: String)
    ensures
        r@ == "OUTPUT_ENDPOINT_ENUMERATION_FAILED: could not list Windows outputs: "@ + error@,
{
    let mut r = owned("OUTPUT_ENDPOINT_ENUMERATION_FAILED: could not list Windows outputs: ");
    push_str(&mut r, error);
    r
}

/// The status line shown while the output at 1-based `position` of `count`
/// is tried.
pub open spec fn spec_probe_message(
    name: Seq<char>,
    rekordbox_session: bool,
    position: nat,
    count: nat,
) -> Seq<char> {
    (if rekordbox_session {
        "Rekordbox audio session found; checking "@
    } else {
        "Checking Windows output "@
    }) + decimal_digits(position) + "/"@ + decimal_digits(count) + ": "@ + name
}

/// The status line shown while `endpoint`, at 0-based `index` of `count`,
/// is tried.
pub fn probe_message(endpoint: &OutputEndpoint, index: usize, count: usize) -> (r: String)
    requires
        index < count,
    ensures
        r@ == spec_probe_message(
            endpoint.name@,
            endpoint.has_rekordbox_session,
            (index + 1) as nat,
            count as nat,
        ),
{
    let mut r = if endpoint.has_rekordbox_session {
        owned("Rekordbox audio session found; checking ")
    } else {
        owned("Checking Windows output ")
    };
    push_decimal(&mut r, (index + 1) as u64);
    push_str(&mut r, "/");
    push_decimal(&mut r, count as u64);
    push_str(&mut r, ": ");
    push_str(&mut r, endpoint.name.as_str());
    r
}

/// Whether any listed output carries a Rekordbox audio session.
pub fn any_rekordbox_session(endpoints: &Vec<OutputEndpoint>) -> (r: bool)
    ensures
        r == exists|i: int| 0 <= i < endpoints@.len() && (#[trigger] endpoints@[i]).has_rekordbox_session,
{
    let mut i: usize = 0;
    while i < endpoints.len()
        invariant
            i <= endpoints@.len(),
            forall|k: int| 0 <= k < i ==> !(#[trigger] endpoints@[k]).has_rekordbox_session,
        decreases endpoints@.len() - i,
    {
        if endpoints[i].has_rekordbox_session {
            return true;
        }
        i = i + 1;
    }
    false
}

/// The failures joined with `; `, in the order they happened.
pub open spec fn joined(failures: Seq<Seq<char>>) -> Seq<char>
    decreases failures.len(),
{
    if failures.len() == 0 {
        Seq::empty()
    } else if failures.len() == 1 {
        failures[0]
    } else {
        joined(failures.drop_last()) + "; "@ + failures.last()
    }
}

/// The error after every output was tried without live audio.
pub open spec fn spec_no_signal(count: nat, failures: Seq<Seq<char>>) -> Seq<char> {
    "NO_ACTIVE_OUTPUT_SIGNAL: checked "@ + decimal_digits(count)
        + " Windows output(s) without finding live audio ("@ + joined(failures) + ")"@
}

/// A sweep over `count` outputs: how many were tried, and why each failed.
pub struct OutputSweep {
    count: usize,
    tried: usize,
    failures: Vec<String>,
}

/// A sweep as values.
pub struct SweepView {
    pub count: nat,
    pub tried: nat,
    pub failures: Seq<Seq<char>>,
}

impl View for OutputSweep {
    type V = SweepView;

    closed spec fn view(&self) -> SweepView {
        SweepView {
            count: self.count as nat,
            tried: self.tried as nat,
            failures: self.failures@.map_values(|f: String| f@),
        }
    }
}

/// How an attempt on one output ended.
pub enum OutputOutcome {
    /// Its loopback client could not be activated.
    ActivationFailed(String),
    /// Capture ran on it and ended, normally or with an error.
    Captured(Result<(), String>),
}

/// What the route does next.
#[derive(Debug, PartialEq, Eq)]
pub enum OutputStep {
    /// Try the output at this index.
    Probe(usize),
    /// The route ends without an error.
    Done,
    /// The route ends with this error.
    Fail(String),
}

/// What the route does next from a sweep: stop when asked to, try the
/// next output while some are left, and fail once all were tried.
pub open spec fn spec_next_output_step(v: SweepView, stopped: bool) -> Option<Result<nat, Seq<char>>> {
    if stopped {
        None
    } else if v.tried < v.count {
        Some(Ok(v.tried))
    } else {
        Some(Err(spec_no_signal(v.count, v.failures)))
    }
}

/// The sweep after an attempt on output `name`: a capture that ended with
/// an error while the route was not stopping, and a failed activation, are
/// recorded as `name: error` and the next output is tried.
pub open spec fn after_attempt(v: SweepView, name: Seq<char>, error: Seq<char>) -> SweepView {
    SweepView { tried: v.tried + 1, failures: v.failures.push(name + ": "@ + error), ..v }
}

impl OutputSweep {
    /// A sweep over `count` outputs, none tried yet.
    pub fn new(count: usize) -> (r: Self)
        ensures
            r@.count == count,
            r@.tried == 0,
            r@.failures.len() == 0,
    {
        let r = OutputSweep { count, tried: 0, failures: Vec::new() };
        assert(r@.failures =~= Seq::<Seq<char>>::empty());
        r
    }

    /// What the route does next; `stopped` is whether capture was asked to
    /// stop.
    pub fn next_output_step(&self, stopped: bool) -> (r: OutputStep)
        ensures
            spec_next_output_step(self@, stopped) is None <==> r == OutputStep::Done,
            spec_next_output_step(self@, stopped) matches Some(Ok(i)) ==> r == OutputStep::Probe(
                i as usize,
            ),
            spec_next_output_step(self@, stopped) matches Some(Err(e)) ==> r matches OutputStep::Fail(
                m,
            ) && m@ == e,
    {
        if stopped {
            OutputStep::Done
        } else if self.tried < self.count {
            OutputStep::Probe(self.tried)
        } else {
            OutputStep::Fail(self.no_signal())
        }
    }

    fn no_signal(&self) -> (r: String)
        ensures
            r@ == spec_no_signal(self@.count, self@.failures),
    {
        let mut r = owned("NO_ACTIVE_OUTPUT_SIGNAL: checked ");
        push_decimal(&mut r, self.count as u64);
        push_str(&mut r, " Windows output(s) without finding live audio (");
        let mut list = String::new();
        let ghost all = self@.failures;
        let mut i: usize = 0;
        assert(all.take(0) =~= Seq::<Seq<char>>::empty());
        while i < self.failures.len()
            invariant
                all == self@.failures,
                all.len() == self.failures@.len(),
                i <= self.failures@.len(),
                list@ == joined(all.take(i as int)),
                forall|k: int| 0 <= k < all.len() ==> all[k] == (#[trigger] self.failures@[k])@,
            decreases self.failures@.len() - i,
        {
            if i > 0 {
                push_str(&mut list, "; ");
            }
            push_str(&mut list, self.failures[i].as_str());
            proof {
                let next = all.take(i + 1);
                assert(next.drop_last() =~= all.take(i as int));
                assert(next.last() == all[i as int]);
                if i == 0 {
                    assert(next.len() == 1);
                }
            }
            i = i + 1;
        }
        assert(all.take(all.len() as int) =~= all);
        push_str(&mut r, list.as_str());
        push_str(&mut r, ")");
        r
    }

    /// Records how the attempt on the output named `name` ended; `stopped`
    /// is whether capture was asked to stop. A capture that ended normally
    /// ends the route without an error; one that ended with an error while
    /// stopping ends it with that error; otherwise the failure is recorded
    /// and `None` says to go on.
    pub fn record_attempt(&mut self, name: &str, outcome: OutputOutcome, stopped: bool) -> (r:
        Option<Result<(), String>>)
        requires
            old(self)@.tried < old(self)@.count,
        ensures
            match outcome {
                OutputOutcome::Captured(Ok(())) => r == Some(Ok::<(), String>(())) && final(self)@
                    == old(self)@,
                OutputOutcome::Captured(Err(e)) => if stopped {
                    r matches Some(Err(m)) && m@ == e@ && final(self)@ == old(self)@
                } else {
                    r is None && final(self)@ == after_attempt(old(self)@, name@, e@)
                },
                OutputOutcome::ActivationFailed(e) => r is None && final(self)@ == after_attempt(
                    old(self)@,
                    name@,
                    e@,
                ),
            },
    {
        let error = match outcome {
            OutputOutcome::Captured(Ok(())) => {
                return Some(Ok(()));
            },
            OutputOutcome::Captured(Err(e)) => {
                if stopped {
                    return Some(Err(e));
                }
                e
            },
            OutputOutcome::ActivationFailed(e) => e,
        };
        let mut failure = owned(name);
        push_str(&mut failure, ": ");
        push_str(&mut failure, error.as_str());
        let ghost before = self@;
        self.failures.push(failure);
        self.tried = self.tried + 1;
        assert(self@.failures =~= before.failures.push(name@ + ": "@ + error@));
        None
    }
}

/// The sweep tries each output at most once, in order, and ends: every
/// recorded failure moves it one output on, and once all were tried the
/// route fails with every failure listed.
pub proof fn law_outputs_are_tried_once_in_order(v: SweepView, name: Seq<char>, error: Seq<char>)
    requires
        v.tried < v.count,
    ensures
        spec_next_output_step(v, false) == Some(Ok::<nat, Seq<char>>(v.tried)),
        after_attempt(v, name, error).tried == v.tried + 1,
        after_attempt(v, name, error).tried <= v.count,
        after_attempt(v, name, error).failures.len() == v.failures.len() + 1,
        after_attempt(v, name, error).tried == v.count ==> spec_next_output_step(
            after_attempt(v, name, error),
            false,
        ) == Some(
            Err::<nat, Seq<char>>(
                spec_no_signal(v.count, after_attempt(v, name, error).failures),
            ),
        ),
{
}

} // verus!
