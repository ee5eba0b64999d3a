//! An in-memory catch repository, and the failures any repository may report.
use vstd::prelude::*;
use crate::catch::Catch;

verus! {

/// Why a repository could not answer.
#[derive(Clone, Copy, Debug, PartialEq, Eq, Structural)]
pub enum RepositoryError {
    /// The store could not be reached or rejected the query.
    Unavailable,
    /// The store did not answer in time.
    TimedOut,
}

/// No two catches share an identifier.
pub open spec fn ids_unique(cs: Seq<Catch>) -> bool {
    forall|i: int, j: int| 0 <= i < cs.len() && 0 <= j < cs.len() && i != j ==> cs[i].id != cs[j].id
}

pub open spec fn has_id(cs: Seq<Catch>, id: u64) -> bool {
    exists|i: int| 0 <= i < cs.len() && #[trigger] cs[i].id == id
}

/// The catch with identifier `id`, if the collection holds one.
pub open spec fn lookup(cs: Seq<Catch>, id: u64) -> Option<Catch> {
    if has_id(cs, id) {
        Some(cs[choose|i: int| 0 <= i < cs.len() && #[trigger] cs[i].id == id])
    } else {
        None
    }
}

/// In unique-id collections a lookup finds exactly the record at the index
/// holding that id.
pub proof fn lemma_lookup_at(cs: Seq<Catch>, i: int)
    requires
        ids_unique(cs),
        0 <= i < cs.len(),
    ensures
        lookup(cs, cs[i].id) == Some(cs[i]),
{
    let id = cs[i].id;
    assert(has_id(cs, id));
    let k = choose|k: int| 0 <= k < cs.len() && #[trigger] cs[k].id == id;
    assert(k == i);
}

/// A collection of catches held in memory, in insertion order, with unique ids.
pub struct InMemoryRepository {
    catches: Vec<Catch>,
}

impl View for InMemoryRepository {
    type V = Seq<Catch>;

    closed spec fn view(&self) -> Seq<Catch> {
        self.catches@
    }
}

impl InMemoryRepository {
    pub open spec fn well_formed(&self) -> bool {
        ids_unique(self@)
    }

    /// An empty repository.
    pub fn new() -> (r: InMemoryRepository)
        ensures
            r@ == Seq::<Catch>::empty(),
            r.well_formed(),
    {
        InMemoryRepository { catches: Vec::new() }
    }

    /// A repository holding `catches` in the given order; `None` when two of
    /// them share an identifier.
    pub fn from_catches(catches: Vec<Catch>) -> (r: Option<InMemoryRepository>)
        ensures
            r is Some <==> ids_unique(catches@),
            r matches Some(repo) ==> repo@ == catches@ && repo.well_formed(),
    {
        let n = catches.len();
        let mut i: usize = 0;
        while i < n
            invariant
                n == catches@.len(),
                i <= n,
                forall|a: int, b: int| 0 <= a < i && 0 <= b < n && a != b ==> catches@[a].id != catches@[b].id,
            decreases n - i,
        {
            let mut j: usize = 0;
            while j < n
                invariant
                    n == catches@.len(),
                    i < n,
                    j <= n,
                    forall|a: int, b: int| 0 <= a < i && 0 <= b < n && a != b ==> catches@[a].id != catches@[b].id,
                    forall|b: int| 0 <= b < j && b != i ==> catches@[i as int].id != catches@[b].id,
                decreases n - j,
            {
                if j != i && catches[i].id == catches[j].id {
                    return None;
                }
                j = j + 1;
            }
            i = i + 1;
        }
        Some(InMemoryRepository { catches })
    }

    /// Every catch, in the repository's order.
    pub fn list(&self) -> (r: Vec<Catch>)
        ensures
            r@ == self@,
    {
        let mut out: Vec<Catch> = Vec::new();
        let mut i: usize = 0;
        while i < self.catches.len()
            invariant
                i <= self.catches@.len(),
                out@ == self.catches@.subrange(0, i as int),
            decreases self.catches@.len() - i,
        {
            out.push(self.catches[i].clone());
            assert(out@ =~= self.catches@.subrange(0, i + 1));
            i = i + 1;
        }
        assert(out@ =~= self.catches@);
        out
    }

    /// The catch with identifier `id`, or `None` when there is none.
    pub fn get_by_id(&self, id: u64) -> (r: Option<Catch>)
        requires
            self.well_formed(),
        ensures
            r == lookup(self@, id),
    {
        let mut i: usize = 0;
        while i < self.catches.len()
            invariant
                self.well_formed(),
                i <= self.catches@.len(),
                forall|k: int| 0 <= k < i ==> self.catches@[k].id != id,
            decreases self.catches@.len() - i,
        {
            if self.catches[i].id == id {
                proof {
                    lemma_lookup_at(self@, i as int);
                }
                return Some(self.catches[i].clone());
            }
            i = i + 1;
        }
        assert(!has_id(self@, id));
        None
    }
}

} // verus!
