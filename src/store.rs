//! Models of the two shared stores: the crate registry read by validation,
//! and the queue of background jobs that admission appends to.

use vstd::prelude::*;
use crate::catalog::{JobKind, kind_name};
use crate::job::{JobPayload, PayloadModel};

verus! {

/// One persisted unit of work, as the worker reads it.
pub struct QueueEntry {
    pub id: u64,
    pub job_type: String,
    pub payload: JobPayload,
}

/// The mathematical value of a [`QueueEntry`].
pub ghost struct EntryModel {
    pub id: u64,
    pub job_type: Seq<char>,
    pub payload: PayloadModel,
}

impl View for QueueEntry {
    type V = EntryModel;

    open spec fn view(&self) -> EntryModel {
        EntryModel { id: self.id, job_type: self.job_type@, payload: self.payload@ }
    }
}

/// Why the queue could not take a new entry.
#[derive(Clone, Copy, Debug, PartialEq, Eq, Structural)]
pub enum StoreFailure {
    /// Every identifier has been handed out.
    IdsExhausted,
}

/// The number of entries of `s` whose job type is `name`.
pub open spec fn count_named(s: Seq<EntryModel>, name: Seq<char>) -> nat
    decreases s.len(),
{
    if s.len() == 0 {
        0
    } else {
        count_named(s.drop_last(), name) + if s.last().job_type == name {
            1nat
        } else {
            0nat
        }
    }
}

/// Appending an entry adds one to the count of its own job type only.
pub proof fn lemma_count_push(s: Seq<EntryModel>, e: EntryModel, name: Seq<char>)
    ensures
        count_named(s.push(e), name) == count_named(s, name) + if e.job_type == name {
            1nat
        } else {
            0nat
        },
{
    assert(s.push(e).drop_last() =~= s);
}

/// The queue of background jobs, append-only from the point of view of
/// admission. Identifiers are handed out in increasing order.
pub struct QueueStore {
    entries: Vec<QueueEntry>,
    next_id: u64,
}

impl View for QueueStore {
    type V = Seq<EntryModel>;

    closed spec fn view(&self) -> Seq<EntryModel> {
        self.entries@.map_values(|e: QueueEntry| e@)
    }
}

impl QueueStore {
    /// The identifier that the next appended entry receives.
    pub closed spec fn next_id_spec(&self) -> u64 {
        self.next_id
    }

    /// Identifiers are strictly increasing and all below the next one.
    pub closed spec fn wf(&self) -> bool {
        &&& forall|i: int|
            0 <= i < self.entries.len() ==> #[trigger] self.entries@[i].id < self.next_id
        &&& forall|i: int, j: int|
            0 <= i < j < self.entries.len() ==> #[trigger] self.entries@[i].id
                < #[trigger] self.entries@[j].id
    }

    /// An empty queue.
    pub fn new() -> (r: QueueStore)
        ensures
            r.wf(),
            r@.len() == 0,
            r.next_id_spec() == 1,
    {
        QueueStore { entries: Vec::new(), next_id: 1 }
    }

    /// An empty queue whose identifiers continue from `first_id`.
    pub fn with_next_id(first_id: u64) -> (r: QueueStore)
        ensures
            r.wf(),
            r@.len() == 0,
            r.next_id_spec() == first_id,
    {
        QueueStore { entries: Vec::new(), next_id: first_id }
    }

    /// The number of entries in the queue.
    pub fn len(&self) -> (r: usize)
        ensures
            r == self@.len(),
    {
        self.entries.len()
    }

    /// The entry at position `i`, oldest first.
    pub fn get(&self, i: usize) -> (r: &QueueEntry)
        requires
            i < self@.len(),
        ensures
            r@ == self@[i as int],
    {
        &self.entries[i]
    }

    /// The number of outstanding entries of kind `kind`.
    pub fn count_of_kind(&self, kind: JobKind) -> (r: usize)
        ensures
            r == count_named(self@, kind_name(kind)),
    {
        let name = kind.job_name().to_owned();
        let mut n: usize = 0;
        let mut i: usize = 0;
        while i < self.entries.len()
            invariant
                i <= self.entries.len(),
                name@ == kind_name(kind),
                n == count_named(self@.take(i as int), kind_name(kind)),
                n <= i,
            decreases self.entries.len() - i,
        {
            proof {
                assert(self@.take(i + 1) =~= self@.take(i as int).push(self@[i as int]));
                lemma_count_push(self@.take(i as int), self@[i as int], kind_name(kind));
            }
            if self.entries[i].job_type == name {
                n = n + 1;
            }
            i = i + 1;
        }
        assert(self@.take(i as int) =~= self@);
        n
    }

    /// Whether an entry of kind `kind` is outstanding.
    pub fn has_kind(&self, kind: JobKind) -> (r: bool)
        ensures
            r == (count_named(self@, kind_name(kind)) > 0),
    {
        self.count_of_kind(kind) > 0
    }

    /// Appends an entry of kind `kind` with `payload`, and returns its new
    /// identifier. Fails, leaving the queue as it was, once identifiers run out.
    pub fn append(&mut self, kind: JobKind, payload: JobPayload) -> (r: Result<u64, StoreFailure>)
        requires
            old(self).wf(),
        ensures
            final(self).wf(),
            old(self).next_id_spec() == u64::MAX ==> r == Err::<u64, StoreFailure>(
                StoreFailure::IdsExhausted,
            ) && *final(self) == *old(self),
            old(self).next_id_spec() < u64::MAX ==> r == Ok::<u64, StoreFailure>(
                old(self).next_id_spec(),
            ) && final(self)@ == old(self)@.push(
                EntryModel {
                    id: old(self).next_id_spec(),
                    job_type: kind_name(kind),
                    payload: payload@,
                },
            ) && final(self).next_id_spec() == old(self).next_id_spec() + 1,
    {
        if self.next_id == u64::MAX {
            return Err(StoreFailure::IdsExhausted);
        }
        let id = self.next_id;
        let entry = QueueEntry { id, job_type: kind.job_name().to_owned(), payload };
        self.entries.push(entry);
        self.next_id = id + 1;
        assert(self@ =~= old(self)@.push(entry@));
        Ok(id)
    }
}

/// The requested category slugs that `known` does not hold, in request order.
pub open spec fn unknown_categories(known: Seq<Seq<char>>, requested: Seq<Seq<char>>) -> Seq<Seq<char>> {
    requested.filter(|c: Seq<char>| !known.contains(c))
}

/// What publishing a crate reports back.
pub struct Published {
    pub name: String,
    pub version: String,
    /// The requested categories that the registry does not know; they are ignored.
    pub invalid_categories: Vec<String>,
}

/// The crate registry, reduced to what validation reads: the crate names, and
/// the category slugs that crates may be filed under.
pub struct CrateRegistry {
    names: Vec<String>,
    categories: Vec<String>,
}

impl View for CrateRegistry {
    type V = Seq<Seq<char>>;

    closed spec fn view(&self) -> Seq<Seq<char>> {
        self.names@.map_values(|s: String| s@)
    }
}

/// Whether `v` holds a string equal to `x`.
fn vec_contains(v: &Vec<String>, x: &String) -> (r: bool)
    ensures
        r == v@.map_values(|s: String| s@).contains(x@),
{
    let ghost view = v@.map_values(|s: String| s@);
    let mut i: usize = 0;
    while i < v.len()
        invariant
            i <= v.len(),
            view == v@.map_values(|s: String| s@),
            forall|j: int| 0 <= j < i ==> view[j] != x@,
        decreases v.len() - i,
    {
        if v[i] == *x {
            assert(view[i as int] == x@);
            return true;
        }
        i = i + 1;
    }
    false
}

impl CrateRegistry {
    /// The category slugs that the registry knows.
    pub closed spec fn category_slugs(&self) -> Seq<Seq<char>> {
        self.categories@.map_values(|s: String| s@)
    }

    /// A registry without crates or categories.
    pub fn new() -> (r: CrateRegistry)
        ensures
            r@.len() == 0,
            r.category_slugs().len() == 0,
    {
        CrateRegistry { names: Vec::new(), categories: Vec::new() }
    }

    /// Records a crate named `name`.
    pub fn add_crate(&mut self, name: String)
        ensures
            final(self)@ == old(self)@.push(name@),
            final(self).category_slugs() == old(self).category_slugs(),
    {
        self.names.push(name);
        assert(self@ =~= old(self)@.push(name@));
        assert(self.category_slugs() =~= old(self).category_slugs());
    }

    /// Records a category under the slug `slug`.
    pub fn add_category(&mut self, slug: String)
        ensures
            final(self)@ == old(self)@,
            final(self).category_slugs() == old(self).category_slugs().push(slug@),
    {
        self.categories.push(slug);
        assert(self.category_slugs() =~= old(self).category_slugs().push(slug@));
    }

    /// Whether a crate named `name` exists.
    pub fn contains(&self, name: &String) -> (r: bool)
        ensures
            r == self@.contains(name@),
    {
        vec_contains(&self.names, name)
    }

    /// Publishes version `version` of crate `name`, filed under the known
    /// ones among `categories`; the others are reported back as invalid.
    pub fn publish(&mut self, name: String, version: String, categories: &Vec<String>) -> (r: Published)
        ensures
            final(self)@ == if old(self)@.contains(name@) {
                old(self)@
            } else {
                old(self)@.push(name@)
            },
            final(self).category_slugs() == old(self).category_slugs(),
            r.name@ == name@,
            r.version@ == version@,
            r.invalid_categories@.map_values(|s: String| s@) == unknown_categories(
                old(self).category_slugs(),
                categories@.map_values(|s: String| s@),
            ),
    {
        let ghost known = self.category_slugs();
        let ghost req = categories@.map_values(|s: String| s@);
        let ghost pred = |c: Seq<char>| !known.contains(c);
        let mut invalid: Vec<String> = Vec::new();
        let mut i: usize = 0;
        while i < categories.len()
            invariant
                i <= categories.len(),
                known == self.category_slugs(),
                req == categories@.map_values(|s: String| s@),
                pred == (|c: Seq<char>| !known.contains(c)),
                invalid@.map_values(|s: String| s@) == req.take(i as int).filter(pred),
            decreases categories.len() - i,
        {
            proof {
                assert(req.take(i + 1).drop_last() =~= req.take(i as int));
                reveal(Seq::filter);
            }
            if !vec_contains(&self.categories, &categories[i]) {
                invalid.push(categories[i].clone());
            }
            assert(invalid@.map_values(|s: String| s@) =~= req.take(i + 1).filter(pred));
            i = i + 1;
        }
        assert(req.take(i as int) =~= req);
        if !self.contains(&name) {
            let n = name.clone();
            self.add_crate(n);
        }
        Published { name, version, invalid_categories: invalid }
    }
}

} // verus!
