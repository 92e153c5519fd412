//! A lesson: an identifier, a title and an action that can be run any number of times.

use vstd::prelude::*;
use crate::outcome::{Outcome, RunResult, RunResultView, record_of};
use crate::slug::{IdError, check_id, id_check, valid_id};

verus! {

/// One independent, runnable unit. `F` is the type of its action: anything that can be
/// called with no argument and hands back an `Outcome`.
pub struct Lesson<F> {
    id: String,
    title: String,
    action: F,
}

/// The mathematical value of a `Lesson`.
pub ghost struct LessonView<F> {
    pub id: Seq<char>,
    pub title: Seq<char>,
    pub action: F,
}

impl<F> View for Lesson<F> {
    type V = LessonView<F>;

    closed spec fn view(&self) -> LessonView<F> {
        LessonView { id: self.id@, title: self.title@, action: self.action }
    }
}

impl<F: Fn() -> Outcome> Lesson<F> {
    /// A lesson is well formed when its identifier is valid and its action can be
    /// called with no argument.
    pub open spec fn wf(&self) -> bool {
        &&& valid_id(self@.id)
        &&& call_requires(self@.action, ())
    }

    /// Whether `r` can be the record of one execution of this lesson: the record of
    /// some outcome that the action can hand back.
    pub open spec fn may_yield(&self, r: RunResultView) -> bool {
        exists|o: Outcome| call_ensures(self@.action, (), o) && r == record_of(self@.id, o@)
    }

    /// Whether the action can only fail.
    pub open spec fn always_fails(&self) -> bool {
        forall|o: Outcome| call_ensures(self@.action, (), o) ==> o.error is Some
    }

    /// Whether the action can only succeed.
    pub open spec fn never_fails(&self) -> bool {
        forall|o: Outcome| call_ensures(self@.action, (), o) ==> o.error is None
    }

    /// Makes a lesson, if `id` is a valid identifier.
    pub fn new(id: &str, title: &str, action: F) -> (res: Result<Lesson<F>, IdError>)
        requires
            call_requires(action, ()),
        ensures
            match res {
                Ok(lesson) => {
                    &&& id_check(id@) is Ok
                    &&& lesson@ == (LessonView { id: id@, title: title@, action })
                    &&& lesson.wf()
                },
                Err(e) => id_check(id@) == Err::<(), IdError>(e),
            },
    {
        match check_id(id) {
            Ok(()) => Ok(Lesson { id: id.to_owned(), title: title.to_owned(), action }),
            Err(e) => Err(e),
        }
    }

    /// The lesson's identifier.
    pub fn id(&self) -> (id: &str)
        ensures
            id@ == self@.id,
    {
        self.id.as_str()
    }

    /// Whether the lesson's identifier is `id`.
    pub(crate) fn is_called(&self, id: &String) -> (same: bool)
        ensures
            same == (self@.id == id@),
    {
        self.id == *id
    }

    /// The lesson's title.
    pub fn title(&self) -> (title: &str)
        ensures
            title@ == self@.title,
    {
        self.title.as_str()
    }

    /// Runs the action once and records how it ended. A failure of the action is
    /// recorded, never passed on.
    pub fn execute(&self) -> (r: RunResult)
        requires
            self.wf(),
        ensures
            self.may_yield(r@),
            r@.lesson_id == self@.id,
            r.wf(),
            self.always_fails() ==> !r.succeeded && r.error is Some,
            self.never_fails() ==> r.succeeded && r.error is None,
    {
        let outcome = (self.action)();
        RunResult::from_outcome(self.id.as_str(), outcome)
    }
}

} // verus!
