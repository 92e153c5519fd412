//! The registry: the lessons in the order in which they were registered, no two
//! under one identifier.

use vstd::prelude::*;
use crate::lesson::Lesson;
use crate::outcome::Outcome;

verus! {

/// Why the registry refused a request.
#[derive(Clone, Copy, Debug, PartialEq, Eq, Structural)]
pub enum RegistryError {
    /// A lesson with this identifier is registered already.
    DuplicateId,
    /// No lesson with this identifier is registered.
    NotFound,
}

/// Whether one of `lessons` has the identifier `id`.
pub open spec fn has_id<F>(lessons: Seq<Lesson<F>>, id: Seq<char>) -> bool {
    exists|i: int| 0 <= i < lessons.len() && (#[trigger] lessons[i])@.id == id
}

/// Whether no two of `lessons` share an identifier.
pub open spec fn distinct_ids<F>(lessons: Seq<Lesson<F>>) -> bool {
    forall|i: int, j: int|
        0 <= i < j < lessons.len() ==> (#[trigger] lessons[i])@.id != (#[trigger] lessons[j])@.id
}

/// Where in `lessons` the lesson with the identifier `id` stands, if there is one.
pub open spec fn position_of<F>(lessons: Seq<Lesson<F>>, id: Seq<char>) -> int {
    choose|i: int| 0 <= i < lessons.len() && (#[trigger] lessons[i])@.id == id
}

/// What registering `lesson` makes of `lessons`: it is added at the end, unless its
/// identifier is taken.
pub open spec fn registered<F>(lessons: Seq<Lesson<F>>, lesson: Lesson<F>) -> Result<
    Seq<Lesson<F>>,
    RegistryError,
> {
    if has_id(lessons, lesson@.id) {
        Err(RegistryError::DuplicateId)
    } else {
        Ok(lessons.push(lesson))
    }
}

/// What registering each of `lessons` in turn makes of an empty registry; the first
/// refusal ends it.
pub open spec fn registered_all<F>(lessons: Seq<Lesson<F>>) -> Result<
    Seq<Lesson<F>>,
    RegistryError,
>
    decreases lessons.len(),
{
    if lessons.len() == 0 {
        Ok(Seq::empty())
    } else {
        match registered_all(lessons.drop_last()) {
            Ok(before) => registered(before, lessons.last()),
            Err(e) => Err(e),
        }
    }
}

/// Whether `lines` holds the identifier and the title of each of `lessons`, in order.
pub open spec fn is_listing_of<F>(lessons: Seq<Lesson<F>>, lines: Seq<(String, String)>) -> bool {
    &&& lines.len() == lessons.len()
    &&& forall|i: int|
        0 <= i < lessons.len() ==> (#[trigger] lines[i]).0@ == lessons[i]@.id && lines[i].1@
            == lessons[i]@.title
}

/// Whether `lessons` can be what a registry holds: each of them is well formed,
/// and no two of them share an identifier.
pub open spec fn wf_lessons<F: Fn() -> Outcome>(lessons: Seq<Lesson<F>>) -> bool {
    &&& forall|i: int| 0 <= i < lessons.len() ==> (#[trigger] lessons[i]).wf()
    &&& distinct_ids(lessons)
}

/// The lessons of a catalogue, in registration order.
pub struct Registry<F> {
    entries: Vec<Lesson<F>>,
}

impl<F> View for Registry<F> {
    type V = Seq<Lesson<F>>;

    closed spec fn view(&self) -> Seq<Lesson<F>> {
        self.entries@
    }
}

impl<F: Fn() -> Outcome> Registry<F> {
    /// A registry is well formed when each of its lessons is, and no two of them
    /// share an identifier.
    pub open spec fn wf(&self) -> bool {
        wf_lessons(self@)
    }

    /// A registry without lessons.
    pub fn new() -> (registry: Registry<F>)
        ensures
            registry@ == Seq::<Lesson<F>>::empty(),
            registry.wf(),
    {
        Registry { entries: Vec::new() }
    }

    /// Registers each of `lessons` in turn into an empty registry. It succeeds
    /// exactly when no two of them share an identifier, and the registry then holds
    /// them in the order given.
    pub fn from_lessons(lessons: Vec<Lesson<F>>) -> (res: Result<Registry<F>, RegistryError>)
        requires
            forall|i: int| 0 <= i < lessons@.len() ==> (#[trigger] lessons@[i]).wf(),
        ensures
            match res {
                Ok(registry) => {
                    &&& distinct_ids(lessons@)
                    &&& registry@ == lessons@
                    &&& registry.wf()
                },
                Err(e) => !distinct_ids(lessons@) && e == RegistryError::DuplicateId,
            },
            registered_all(lessons@) == match res {
                Ok(registry) => Ok::<Seq<Lesson<F>>, RegistryError>(registry@),
                Err(e) => Err::<Seq<Lesson<F>>, RegistryError>(e),
            },
    {
        let ghost given = lessons@;
        let mut registry = Registry::new();
        for lesson in it: lessons.into_iter()
            invariant
                it.seq() == given,
                given == lessons@,
                forall|i: int| 0 <= i < given.len() ==> (#[trigger] given[i]).wf(),
                registry.wf(),
                registry@ == given.take(it.index() as int),
        {
            let ghost k = it.index() as int;
            if registry.register(lesson).is_err() {
                proof {
                    let i = position_of(given.take(k), lesson@.id);
                    assert(given.take(k)[i]@.id == lesson@.id);
                    assert(given[i]@.id == given[k]@.id);
                    registration_keeps_order(given);
                }
                return Err(RegistryError::DuplicateId);
            }
            assert(given.take(k).push(lesson) =~= given.take(k + 1));
        }
        proof {
            assert(given.take(given.len() as int) =~= given);
            registration_keeps_order(given);
        }
        Ok(registry)
    }

    /// The number of lessons.
    pub fn len(&self) -> (n: usize)
        ensures
            n == self@.len(),
    {
        self.entries.len()
    }

    /// Whether the registry holds no lesson.
    pub fn is_empty(&self) -> (empty: bool)
        ensures
            empty == (self@.len() == 0),
    {
        self.entries.len() == 0
    }

    /// The place of the lesson with the identifier `id`, if it is registered.
    fn find(&self, id: &str) -> (found: Option<usize>)
        ensures
            match found {
                Some(k) => k < self@.len() && self@[k as int]@.id == id@,
                None => !has_id(self@, id@),
            },
    {
        let key = id.to_owned();
        let mut k: usize = 0;
        while k < self.entries.len()
            invariant
                k <= self.entries@.len(),
                key@ == id@,
                forall|i: int| 0 <= i < k ==> (#[trigger] self.entries@[i])@.id != id@,
            decreases self.entries@.len() - k,
        {
            if self.entries[k].is_called(&key) {
                return Some(k);
            }
            k += 1;
        }
        None
    }

    /// Whether a lesson with the identifier `id` is registered.
    pub fn contains(&self, id: &str) -> (found: bool)
        ensures
            found == has_id(self@, id@),
    {
        self.find(id).is_some()
    }

    /// Adds `lesson` at the end, unless its identifier is taken: then the registry
    /// stays as it was.
    pub fn register(&mut self, lesson: Lesson<F>) -> (res: Result<(), RegistryError>)
        requires
            old(self).wf(),
            lesson.wf(),
        ensures
            final(self).wf(),
            match res {
                Ok(()) => registered(old(self)@, lesson) == Ok::<Seq<Lesson<F>>, RegistryError>(
                    final(self)@,
                ),
                Err(e) => registered(old(self)@, lesson) == Err::<Seq<Lesson<F>>, RegistryError>(e)
                    && final(self)@ == old(self)@,
            },
            res is Err <==> has_id(old(self)@, lesson@.id),
            res is Err ==> res == Err::<(), RegistryError>(RegistryError::DuplicateId),
            res is Ok ==> final(self)@ == old(self)@.push(lesson),
    {
        if self.find(lesson.id()).is_some() {
            return Err(RegistryError::DuplicateId);
        }
        self.entries.push(lesson);
        Ok(())
    }

    /// The lesson with the identifier `id`.
    pub fn get(&self, id: &str) -> (res: Result<&Lesson<F>, RegistryError>)
        requires
            self.wf(),
        ensures
            match res {
                Ok(lesson) => has_id(self@, id@) && *lesson == self@[position_of(self@, id@)],
                Err(e) => !has_id(self@, id@) && e == RegistryError::NotFound,
            },
            res is Ok ==> res.unwrap()@.id == id@ && res.unwrap().wf(),
    {
        match self.find(id) {
            Some(k) => Ok(&self.entries[k]),
            None => Err(RegistryError::NotFound),
        }
    }

    /// The identifier and the title of every lesson, in registration order.
    pub fn listing(&self) -> (lines: Vec<(String, String)>)
        ensures
            is_listing_of(self@, lines@),
    {
        let mut lines: Vec<(String, String)> = Vec::new();
        let mut k: usize = 0;
        while k < self.entries.len()
            invariant
                k <= self.entries@.len(),
                lines@.len() == k,
                forall|i: int|
                    0 <= i < k ==> (#[trigger] lines@[i]).0@ == self.entries@[i]@.id && lines@[i].1@
                        == self.entries@[i]@.title,
            decreases self.entries@.len() - k,
        {
            let lesson = &self.entries[k];
            lines.push((lesson.id().to_owned(), lesson.title().to_owned()));
            k += 1;
        }
        lines
    }

    /// All lessons, in the order in which they were registered.
    pub fn all(&self) -> (lessons: &[Lesson<F>])
        ensures
            lessons@ == self@,
    {
        self.entries.as_slice()
    }
}

/// Registering lessons with distinct identifiers, one after the other, into an
/// empty registry succeeds, and leaves exactly these lessons in exactly this order.
/// Where two of them share an identifier, it fails.
pub proof fn registration_keeps_order<F>(lessons: Seq<Lesson<F>>)
    ensures
        distinct_ids(lessons) ==> registered_all(lessons) == Ok::<Seq<Lesson<F>>, RegistryError>(
            lessons,
        ),
        !distinct_ids(lessons) ==> registered_all(lessons) == Err::<
            Seq<Lesson<F>>,
            RegistryError,
        >(RegistryError::DuplicateId),
    decreases lessons.len(),
{
    if lessons.len() == 0 {
        assert(lessons =~= Seq::<Lesson<F>>::empty());
    } else {
        let before = lessons.drop_last();
        let last = lessons.last();
        registration_keeps_order(before);
        assert(forall|i: int| 0 <= i < before.len() ==> before[i] == lessons[i]);
        if distinct_ids(lessons) {
            assert(distinct_ids(before));
            if has_id(before, last@.id) {
                let i = choose|i: int| 0 <= i < before.len() && (#[trigger] before[i])@.id == last@.id;
                assert(lessons[i]@.id == lessons[lessons.len() - 1]@.id);
            }
            assert(before.push(last) =~= lessons);
        } else if distinct_ids(before) {
            let (i, j) = choose|i: int, j: int|
                0 <= i < j < lessons.len() && (#[trigger] lessons[i])@.id == (
                #[trigger] lessons[j])@.id;
            if j < lessons.len() - 1 {
                assert(before[i]@.id == before[j]@.id);
            }
            assert(before[i]@.id == last@.id);
        }
    }
}

/// Of two lessons with one identifier only the first can be registered: the second
/// is refused as a duplicate, again and again, whatever its title and action are,
/// and whatever was registered in between.
pub proof fn duplicate_is_refused<F>(
    lessons: Seq<Lesson<F>>,
    first: Lesson<F>,
    between: Seq<Lesson<F>>,
    second: Lesson<F>,
)
    requires
        first@.id == second@.id,
    ensures
        registered(lessons + seq![first] + between, second) == Err::<Seq<Lesson<F>>, RegistryError>(
            RegistryError::DuplicateId,
        ),
        registered(lessons, first) is Ok ==> registered(registered(lessons, first).unwrap(), second)
            == Err::<Seq<Lesson<F>>, RegistryError>(RegistryError::DuplicateId),
{
    let held = lessons + seq![first] + between;
    assert(held[lessons.len() as int] == first);
    assert(lessons.push(first)[lessons.len() as int] == first);
}

/// An empty registry holds no identifier.
pub proof fn empty_holds_no_id<F>(id: Seq<char>)
    ensures
        !has_id(Seq::<Lesson<F>>::empty(), id),
{
}

/// Where an identifier is held, `position_of` gives the place of a lesson that has
/// it; where the identifiers are distinct, that is the only such lesson.
pub proof fn position_of_finds<F>(lessons: Seq<Lesson<F>>, id: Seq<char>)
    requires
        has_id(lessons, id),
    ensures
        0 <= position_of(lessons, id) < lessons.len(),
        lessons[position_of(lessons, id)]@.id == id,
        distinct_ids(lessons) ==> forall|k: int|
            0 <= k < lessons.len() && (#[trigger] lessons[k])@.id == id ==> k == position_of(
                lessons,
                id,
            ),
{
}

} // verus!
