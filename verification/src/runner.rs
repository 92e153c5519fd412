//! The runner: executes one lesson or all of them, and sums up how they ended.

use vstd::prelude::*;
use crate::lesson::Lesson;
use crate::outcome::{Outcome, RunResult, RunResultView};
use crate::registry::{
    Registry, RegistryError, distinct_ids, has_id, is_listing_of, position_of, wf_lessons,
};

verus! {

/// Whether `results` can come from one run of all of `lessons`: one record for each
/// lesson, in the same order, each a record of what that lesson's own action handed back.
pub open spec fn batch_of<F: Fn() -> Outcome>(
    lessons: Seq<Lesson<F>>,
    results: Seq<RunResultView>,
) -> bool {
    &&& results.len() == lessons.len()
    &&& forall|i: int| 0 <= i < lessons.len() ==> (#[trigger] lessons[i]).may_yield(results[i])
}

/// The views of `results`, in order.
pub open spec fn views_of(results: Seq<RunResult>) -> Seq<RunResultView> {
    Seq::new(results.len(), |i: int| results[i]@)
}

/// How many of `results` report a success.
pub open spec fn count_succeeded(results: Seq<RunResultView>) -> nat
    decreases results.len(),
{
    if results.len() == 0 {
        0
    } else {
        count_succeeded(results.drop_last()) + if results.last().succeeded {
            1nat
        } else {
            0nat
        }
    }
}

/// Whether each of `results` reports a success.
pub open spec fn all_succeeded(results: Seq<RunResultView>) -> bool {
    forall|i: int| 0 <= i < results.len() ==> (#[trigger] results[i]).succeeded
}

/// How many lessons of a batch succeeded and how many failed.
#[derive(Clone, Copy, Debug, PartialEq, Eq, Structural)]
pub struct Summary {
    pub succeeded: usize,
    pub failed: usize,
}

/// Drives the lessons of one registry.
pub struct Runner<'a, F> {
    registry: &'a Registry<F>,
}

impl<'a, F> View for Runner<'a, F> {
    type V = Seq<Lesson<F>>;

    /// The lessons that the runner drives, in registration order.
    closed spec fn view(&self) -> Seq<Lesson<F>> {
        self.registry@
    }
}

impl<'a, F: Fn() -> Outcome> Runner<'a, F> {
    /// A runner is well formed when its registry is.
    pub open spec fn wf(&self) -> bool {
        wf_lessons(self@)
    }

    /// A runner for the lessons of `registry`.
    pub fn new(registry: &'a Registry<F>) -> (runner: Runner<'a, F>)
        requires
            registry.wf(),
        ensures
            runner@ == registry@,
            runner.wf(),
    {
        Runner { registry }
    }

    /// The identifier and the title of every lesson, in registration order.
    pub fn listing(&self) -> (lines: Vec<(String, String)>)
        ensures
            is_listing_of(self@, lines@),
    {
        self.registry.listing()
    }

    /// Executes the lesson with the identifier `id`. An unknown identifier is an
    /// error of the caller: no record is made of it.
    pub fn run_one(&self, id: &str) -> (res: Result<RunResult, RegistryError>)
        requires
            self.wf(),
        ensures
            match res {
                Ok(r) => {
                    &&& has_id(self@, id@)
                    &&& self@[position_of(self@, id@)].may_yield(r@)
                    &&& r@.lesson_id == id@
                    &&& r.wf()
                },
                Err(e) => !has_id(self@, id@) && e == RegistryError::NotFound,
            },
    {
        match self.registry.get(id) {
            Ok(lesson) => Ok(lesson.execute()),
            Err(e) => Err(e),
        }
    }

    /// Executes every lesson, in registration order, and hands back one record for
    /// each. A lesson that fails does not keep the later ones from running.
    pub fn run_all(&self) -> (results: Vec<RunResult>)
        requires
            self.wf(),
        ensures
            batch_of(self@, views_of(results@)),
            results@.len() == self@.len(),
            forall|i: int|
                0 <= i < self@.len() ==> {
                    &&& (#[trigger] results@[i])@.lesson_id == self@[i]@.id
                    &&& results@[i].wf()
                    &&& self@[i].always_fails() ==> !results@[i].succeeded
                    &&& self@[i].never_fails() ==> results@[i].succeeded
                },
    {
        let lessons = self.registry.all();
        let mut results: Vec<RunResult> = Vec::new();
        let mut k: usize = 0;
        while k < lessons.len()
            invariant
                k <= lessons@.len(),
                lessons@ == self@,
                self.wf(),
                results@.len() == k,
                forall|i: int|
                    0 <= i < k ==> {
                        &&& (#[trigger] lessons@[i]).may_yield(results@[i]@)
                        &&& results@[i]@.lesson_id == lessons@[i]@.id
                        &&& results@[i].wf()
                        &&& lessons@[i].always_fails() ==> !results@[i].succeeded
                        &&& lessons@[i].never_fails() ==> results@[i].succeeded
                    },
            decreases lessons@.len() - k,
        {
            let r = lessons[k].execute();
            results.push(r);
            k += 1;
        }
        results
    }
}

/// Counts the successes and the failures of a batch.
pub fn summarize(results: &[RunResult]) -> (summary: Summary)
    ensures
        summary.succeeded == count_succeeded(views_of(results@)),
        summary.succeeded + summary.failed == results@.len(),
{
    let mut succeeded: usize = 0;
    let mut k: usize = 0;
    while k < results.len()
        invariant
            k <= results@.len(),
            succeeded <= k,
            succeeded == count_succeeded(views_of(results@).take(k as int)),
        decreases results@.len() - k,
    {
        proof {
            let v = views_of(results@);
            assert(v.take(k + 1).drop_last() == v.take(k as int));
            assert(v.take(k + 1).last() == results@[k as int]@);
        }
        if results[k].succeeded {
            succeeded += 1;
        }
        k += 1;
    }
    proof {
        let v = views_of(results@);
        assert(v.take(results@.len() as int) == v);
    }
    Summary { succeeded, failed: results.len() - succeeded }
}

/// The exit code of a batch: 0 if every lesson succeeded, 1 otherwise.
pub fn exit_code(results: &[RunResult]) -> (code: u8)
    ensures
        code == 0 <==> all_succeeded(views_of(results@)),
        code == 0 || code == 1,
{
    let mut k: usize = 0;
    while k < results.len()
        invariant
            k <= results@.len(),
            forall|i: int| 0 <= i < k ==> (#[trigger] results@[i]).succeeded,
        decreases results@.len() - k,
    {
        if !results[k].succeeded {
            assert(!views_of(results@)[k as int].succeeded);
            return 1;
        }
        k += 1;
    }
    0
}

/// The exit code of running one lesson: 0 if it was found and succeeded, 1 otherwise.
pub fn exit_code_one(outcome: &Result<RunResult, RegistryError>) -> (code: u8)
    ensures
        code == 0 <==> (outcome is Ok && outcome.unwrap().succeeded),
        code == 0 || code == 1,
{
    match outcome {
        Ok(r) => if r.succeeded {
            0
        } else {
            1
        },
        Err(_) => 1,
    }
}

/// A lesson that fails spoils no other: in every batch it has exactly one record,
/// at its own place, which reports a failure; every other lesson has the record of
/// what its own action handed back, so one that cannot fail is reported as a success.
pub proof fn failure_is_isolated<F: Fn() -> Outcome>(
    lessons: Seq<Lesson<F>>,
    results: Seq<RunResultView>,
    k: int,
)
    requires
        batch_of(lessons, results),
        0 <= k < lessons.len(),
        lessons[k].always_fails(),
    ensures
        results.len() == lessons.len(),
        !results[k].succeeded,
        results[k].error is Some,
        results[k].lesson_id == lessons[k]@.id,
        forall|j: int|
            0 <= j < lessons.len() && j != k ==> {
                &&& (#[trigger] lessons[j]).may_yield(results[j])
                &&& results[j].lesson_id == lessons[j]@.id
                &&& lessons[j].never_fails() ==> results[j].succeeded
            },
        distinct_ids(lessons) ==> forall|j: int|
            0 <= j < results.len() && j != k ==> (#[trigger] results[j]).lesson_id
                != lessons[k]@.id,
{
    assert(lessons[k].may_yield(results[k]));
    assert forall|j: int| 0 <= j < lessons.len() && j != k implies {
        &&& (#[trigger] lessons[j]).may_yield(results[j])
        &&& results[j].lesson_id == lessons[j]@.id
        &&& lessons[j].never_fails() ==> results[j].succeeded
    } by {
        assert(lessons[j].may_yield(results[j]));
    }
    if distinct_ids(lessons) {
        assert forall|j: int| 0 <= j < results.len() && j != k implies (#[trigger] results[j]).lesson_id
            != lessons[k]@.id by {
            assert(lessons[j].may_yield(results[j]));
            assert(lessons[j]@.id != lessons[k]@.id);
        }
    }
}

/// Every lesson of a batch succeeded exactly when the count of successes is the
/// number of records, that is, when no failure was counted.
pub proof fn all_succeeded_iff_none_failed(results: Seq<RunResultView>)
    ensures
        count_succeeded(results) <= results.len(),
        all_succeeded(results) <==> count_succeeded(results) == results.len(),
    decreases results.len(),
{
    if results.len() > 0 {
        let before = results.drop_last();
        all_succeeded_iff_none_failed(before);
        if all_succeeded(results) {
            assert forall|i: int| 0 <= i < before.len() implies (#[trigger] before[i]).succeeded by {
                assert(results[i].succeeded);
            }
        }
        if count_succeeded(results) == results.len() {
            assert forall|i: int| 0 <= i < results.len() implies (#[trigger] results[i]).succeeded by {
                if i < before.len() {
                    assert(before[i].succeeded);
                }
            }
        }
    }
}

} // verus!
