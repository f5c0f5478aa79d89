//! The fallback orchestrator: candidate interpreters are tried in order,
//! the first accepted run wins immediately, and when every candidate fails
//! the last recorded error is the one reported.
//!
//! Running a process is I/O and happens outside this crate; each attempt's
//! observation comes back in as a [`RunEvent`], and every decision taken on
//! it is made — and verified — here.

use vstd::prelude::*;
use vstd::string::StringExecFns;

use crate::process::{error_message, error_message_of, ProcessResult, ProcessResultView};

verus! {

/// What one attempt at a candidate interpreter was observed to do: either
/// a process was launched and finished (however it exited), or the launch
/// itself failed and left only an error text.
#[derive(Debug, PartialEq, Eq)]
pub enum RunEvent {
    Launched(ProcessResult),
    LaunchFailed(String),
}

/// The mathematical shadow of a `RunEvent`.
pub enum RunEventView {
    Launched(ProcessResultView),
    LaunchFailed(Seq<char>),
}

impl View for RunEvent {
    type V = RunEventView;

    open spec fn view(&self) -> RunEventView {
        match self {
            RunEvent::Launched(r) => RunEventView::Launched(r@),
            RunEvent::LaunchFailed(e) => RunEventView::LaunchFailed(e@),
        }
    }
}

/// The one result of a whole invocation: the accepted candidate's standard
/// output, or the last error recorded once every candidate has failed.
#[derive(Debug, PartialEq, Eq)]
pub enum Outcome {
    Accepted(String),
    Rejected(String),
}

/// The mathematical shadow of an `Outcome`.
pub enum OutcomeView {
    Accepted(Seq<char>),
    Rejected(Seq<char>),
}

impl View for Outcome {
    type V = OutcomeView;

    open spec fn view(&self) -> OutcomeView {
        match self {
            Outcome::Accepted(s) => OutcomeView::Accepted(s@),
            Outcome::Rejected(e) => OutcomeView::Rejected(e@),
        }
    }
}

/// Is this attempt an accepted run: the launch worked and the process
/// exited successfully? Output plays no part — an accepted run with empty
/// output is still accepted.
pub open spec fn is_accepted(e: RunEventView) -> bool {
    match e {
        RunEventView::Launched(r) => r.success,
        RunEventView::LaunchFailed(_) => false,
    }
}

/// The standard output an accepted attempt is taken at.
pub open spec fn accepted_output(e: RunEventView) -> Seq<char> {
    match e {
        RunEventView::Launched(r) => r.stdout,
        RunEventView::LaunchFailed(_) => Seq::empty(),
    }
}

/// The error recorded for a failed attempt: the launch error's own text,
/// or the deterministically chosen message of a run that exited non-zero.
pub open spec fn event_error(e: RunEventView) -> Seq<char> {
    match e {
        RunEventView::Launched(r) => error_message_of(r),
        RunEventView::LaunchFailed(m) => m,
    }
}

/// The outcome of trying `events` in order with `last` as the latest
/// recorded error: the first accepted attempt wins at once; otherwise the
/// error recorded last is the one rejected with.
pub open spec fn outcome_from(events: Seq<RunEventView>, last: Seq<char>) -> OutcomeView
    decreases events.len(),
{
    if events.len() == 0 {
        OutcomeView::Rejected(last)
    } else if is_accepted(events[0]) {
        OutcomeView::Accepted(accepted_output(events[0]))
    } else {
        outcome_from(events.drop_first(), event_error(events[0]))
    }
}

/// The outcome of a whole invocation, starting with nothing recorded.
pub open spec fn outcome_of(events: Seq<RunEventView>) -> OutcomeView {
    outcome_from(events, Seq::empty())
}

/// The views of a sequence of observed attempts, in order.
pub open spec fn views_of(events: Seq<RunEvent>) -> Seq<RunEventView> {
    Seq::new(events.len(), |i: int| events[i]@)
}

/// If some attempt is accepted and none before it is, the outcome is
/// `Accepted` with exactly that attempt's standard output — whatever the
/// later attempts hold: the outcome over the sequence cut off right after
/// the accepted attempt is the very same, so later candidates play no part.
pub proof fn lemma_first_accepted_wins(events: Seq<RunEventView>, last: Seq<char>, i: int)
    requires
        0 <= i < events.len(),
        is_accepted(events[i]),
        forall|j: int| 0 <= j < i ==> !is_accepted(events[j]),
    ensures
        outcome_from(events, last) == OutcomeView::Accepted(accepted_output(events[i])),
        outcome_from(events.take(i + 1), last) == outcome_from(events, last),
    decreases i,
{
    if i == 0 {
        assert(events.take(1)[0] == events[0]);
    } else {
        let rest = events.drop_first();
        assert forall|j: int| 0 <= j < i - 1 implies !is_accepted(rest[j]) by {
            assert(rest[j] == events[j + 1]);
        }
        assert(rest[i - 1] == events[i]);
        lemma_first_accepted_wins(rest, event_error(events[0]), i - 1);
        assert(events.take(i + 1)[0] == events[0]);
        assert(events.take(i + 1).drop_first() =~= rest.take(i));
    }
}

/// When every attempt fails, the outcome is `Rejected` with the *last*
/// attempt's error text — not the first's, and not the starting record.
pub proof fn lemma_all_failed_rejects_with_last(events: Seq<RunEventView>, last: Seq<char>)
    requires
        events.len() > 0,
        forall|j: int| 0 <= j < events.len() ==> !is_accepted(events[j]),
    ensures
        outcome_from(events, last) == OutcomeView::Rejected(event_error(events.last())),
    decreases events.len(),
{
    let rest = events.drop_first();
    if rest.len() == 0 {
    } else {
        assert forall|j: int| 0 <= j < rest.len() implies !is_accepted(rest[j]) by {
            assert(rest[j] == events[j + 1]);
        }
        lemma_all_failed_rejects_with_last(rest, event_error(events[0]));
        assert(rest.last() == events.last());
    }
}

/// An invocation with no candidates at all is rejected with an empty
/// message — a valid terminal state, not a fault.
pub proof fn lemma_empty_rejected()
    ensures
        outcome_of(Seq::<RunEventView>::empty()) == OutcomeView::Rejected(Seq::<char>::empty()),
{
}

/// The orchestrator's whole state between attempts: the error recorded
/// last. Its view is that error's text.
pub struct Orchestrator {
    last_err: String,
}

impl View for Orchestrator {
    type V = Seq<char>;

    closed spec fn view(&self) -> Seq<char> {
        self.last_err@
    }
}

impl Orchestrator {
    /// A fresh invocation: nothing recorded yet.
    pub fn new() -> (o: Orchestrator)
        ensures
            o@ == Seq::<char>::empty(),
    {
        Orchestrator { last_err: String::new() }
    }

    /// Feeds in what one attempt was observed to do. An accepted run hands
    /// back its standard output at once — the caller stops there; any
    /// failure records its error and asks the caller to go on.
    pub fn observe(&mut self, event: RunEvent) -> (accepted: Option<String>)
        ensures
            is_accepted(event@) ==> (accepted matches Some(s) && s@ == accepted_output(event@)
                && final(self)@ == old(self)@),
            !is_accepted(event@) ==> accepted is None && final(self)@ == event_error(event@),
    {
        match event {
            RunEvent::Launched(r) => {
                if r.success {
                    Some(r.stdout)
                } else {
                    self.last_err = error_message(&r);
                    None
                }
            },
            RunEvent::LaunchFailed(m) => {
                self.last_err = m;
                None
            },
        }
    }

    /// Ends an invocation whose every attempt failed: rejected with the
    /// error recorded last — an empty message when nothing was ever tried.
    pub fn finish(self) -> (o: Outcome)
        ensures
            o@ == OutcomeView::Rejected(self@),
    {
        Outcome::Rejected(self.last_err)
    }
}

/// Decides a whole invocation from the attempts observed, in order: the
/// first accepted attempt's output, or the last failure's error once all
/// have failed.
pub fn invoke(events: Vec<RunEvent>) -> (o: Outcome)
    ensures
        o@ == outcome_of(views_of(events@)),
{
    let ghost all: Seq<RunEvent> = events@;
    let mut rest = events;
    let mut machine = Orchestrator::new();
    #[verifier::loop_isolation(false)]
    while rest.len() > 0
        invariant
            outcome_from(views_of(rest@), machine@) == outcome_of(views_of(all)),
        decreases rest.len(),
    {
        let ghost before: Seq<RunEvent> = rest@;
        let ghost recorded: Seq<char> = machine@;
        let event = rest.remove(0);
        proof {
            assert(views_of(before)[0] == event@);
            assert(views_of(rest@) =~= views_of(before).drop_first());
        }
        match machine.observe(event) {
            Some(output) => {
                proof {
                    assert(outcome_from(views_of(before), recorded) == OutcomeView::Accepted(
                        accepted_output(event@),
                    ));
                }
                return Outcome::Accepted(output);
            },
            None => {},
        }
    }
    machine.finish()
}

/// The standard candidate interpreters, in preference order: the primary
/// name first, then the alternative, then the platform launcher.
pub fn default_candidates() -> (c: Vec<String>)
    ensures
        c@.len() == 3,
        c@[0]@ == "python"@,
        c@[1]@ == "python3"@,
        c@[2]@ == "py"@,
{
    let mut c: Vec<String> = Vec::new();
    c.push(String::from_str("python"));
    c.push(String::from_str("python3"));
    c.push(String::from_str("py"));
    c
}

} // verus!
