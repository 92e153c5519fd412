//! What a lesson's action hands back, and the record the runner keeps of it.

use vstd::prelude::*;

verus! {

/// What an action hands back: the text it produced, and the reason if it failed.
#[derive(Debug, PartialEq, Eq)]
pub struct Outcome {
    /// The text that the action produced, up to the point where it ended.
    pub output: String,
    /// Why the action failed; `None` if it succeeded.
    pub error: Option<String>,
}

/// The mathematical value of an `Outcome`.
pub ghost struct OutcomeView {
    pub output: Seq<char>,
    pub error: Option<Seq<char>>,
}

/// The view of an optional string.
pub open spec fn opt_view(s: Option<String>) -> Option<Seq<char>> {
    match s {
        Some(t) => Some(t@),
        None => None,
    }
}

impl View for Outcome {
    type V = OutcomeView;

    open spec fn view(&self) -> OutcomeView {
        OutcomeView { output: self.output@, error: opt_view(self.error) }
    }
}

impl Outcome {
    /// The outcome of an action that ran to its end and produced `output`.
    pub fn success(output: String) -> (o: Outcome)
        ensures
            o@ == (OutcomeView { output: output@, error: None }),
    {
        Outcome { output, error: None }
    }

    /// The outcome of an action that produced `output` and then failed with `error`.
    pub fn failure(output: String, error: String) -> (o: Outcome)
        ensures
            o@ == (OutcomeView { output: output@, error: Some(error@) }),
    {
        Outcome { output, error: Some(error) }
    }
}

/// The record of one execution of one lesson.
#[derive(Debug, PartialEq, Eq)]
pub struct RunResult {
    /// The identifier of the lesson that ran.
    pub lesson_id: String,
    /// Whether the lesson's action succeeded.
    pub succeeded: bool,
    /// The text that the action produced.
    pub output: String,
    /// Why the action failed; present exactly when `succeeded` is false.
    pub error: Option<String>,
}

/// The mathematical value of a `RunResult`.
pub ghost struct RunResultView {
    pub lesson_id: Seq<char>,
    pub succeeded: bool,
    pub output: Seq<char>,
    pub error: Option<Seq<char>>,
}

impl RunResultView {
    /// A record carries an error exactly when it reports a failure.
    pub open spec fn wf(self) -> bool {
        self.succeeded <==> self.error is None
    }
}

/// The record of an execution of the lesson `id` that ended in `outcome`.
pub open spec fn record_of(id: Seq<char>, outcome: OutcomeView) -> RunResultView {
    RunResultView {
        lesson_id: id,
        succeeded: outcome.error is None,
        output: outcome.output,
        error: outcome.error,
    }
}

impl View for RunResult {
    type V = RunResultView;

    open spec fn view(&self) -> RunResultView {
        RunResultView {
            lesson_id: self.lesson_id@,
            succeeded: self.succeeded,
            output: self.output@,
            error: opt_view(self.error),
        }
    }
}

impl RunResult {
    /// A record carries an error exactly when it reports a failure.
    pub open spec fn wf(&self) -> bool {
        self@.wf()
    }

    /// Records that the lesson `id` ran and ended in `outcome`.
    pub fn from_outcome(id: &str, outcome: Outcome) -> (r: RunResult)
        ensures
            r@ == record_of(id@, outcome@),
            r.wf(),
    {
        let succeeded = outcome.error.is_none();
        RunResult {
            lesson_id: id.to_owned(),
            succeeded,
            output: outcome.output,
            error: outcome.error,
        }
    }
}

/// Every record made from an outcome is well formed.
pub proof fn record_of_is_wf(id: Seq<char>, outcome: OutcomeView)
    ensures
        record_of(id, outcome).wf(),
        record_of(id, outcome).lesson_id == id,
        !record_of(id, outcome).succeeded <==> outcome.error is Some,
{
}

} // verus!
