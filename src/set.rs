//! Sets of facets, vertices or ridges: an array of indices that ends at its
//! first empty slot.
use vstd::prelude::*;

verus! {

/// `r` is what a set holds: the entries of `s` before its first empty slot.
pub open spec fn holds(s: Seq<Option<usize>>, r: Seq<usize>) -> bool {
    &&& r.len() <= s.len()
    &&& forall|k: int| 0 <= k < r.len() ==> s[k] == Some(r[k])
    &&& r.len() == s.len() || s[r.len() as int] is None
}

/// `r` borrows the set that `s` holds, or is `None` with it.
pub open spec fn refers_to(r: Option<&QhSet>, s: Option<QhSet>) -> bool {
    match r {
        Some(x) => s == Some(*x),
        None => s is None,
    }
}

/// A set of elements of the mesh, each named by its index in the list of
/// its kind; `maxsize` is the capacity it was allocated with.
#[derive(Clone, Debug)]
pub struct QhSet {
    pub entries: Vec<Option<usize>>,
    pub maxsize: i32,
}

impl QhSet {
    /// The view of a set, or `None` where there is no set at all.
    pub fn maybe_new(entries: Option<Vec<Option<usize>>>, maxsize: i32) -> (r: Option<
        QhSet,
    >)
        ensures
            entries is None <==> r is None,
            r matches Some(s) ==> s.entries == entries->0 && s.maxsize == maxsize,
    {
        match entries {
            Some(entries) => Some(QhSet { entries, maxsize }),
            None => None,
        }
    }

    /// The elements of the set, in the order in which they are stored.
    pub fn iter(&self) -> (r: Vec<usize>)
        ensures
            holds(self.entries@, r@),
    {
        let mut out: Vec<usize> = Vec::new();
        let mut i: usize = 0;
        while i < self.entries.len()
            invariant
                i <= self.entries@.len(),
                out@.len() == i,
                forall|k: int| 0 <= k < i ==> self.entries@[k] == Some(out@[k]),
            decreases self.entries@.len() - i,
        {
            match self.entries[i] {
                Some(e) => out.push(e),
                None => return out,
            }
            i = i + 1;
        }
        out
    }

    /// The capacity that the set was allocated with.
    pub fn maxsize(&self) -> (r: i32)
        ensures
            r == self.maxsize,
    {
        self.maxsize
    }

    /// The number of elements of the set.
    pub fn size(&self) -> (r: usize)
        ensures
            exists|e: Seq<usize>| holds(self.entries@, e),
            forall|e: Seq<usize>| holds(self.entries@, e) ==> r == e.len(),
    {
        let members = self.iter();
        proof {
            assert forall|e: Seq<usize>| holds(self.entries@, e) implies members@.len() == e.len() by {
                lemma_holds_unique(self.entries@, e, members@);
            }
            assert(holds(self.entries@, members@));
        }
        members.len()
    }
}

/// Every element that the set holds is below `n`, so names one of `n`
/// elements; no set at all holds none.
pub open spec fn names_within(s: Option<QhSet>, n: nat) -> bool {
    match s {
        Some(x) => forall|r: Seq<usize>|
            #[trigger] holds(x.entries@, r) ==> forall|m: int|
                0 <= m < r.len() ==> (#[trigger] r[m] as int) < n as int,
        None => true,
    }
}

/// Whether every element that the set holds is below `n`.
pub fn check_within(s: &Option<QhSet>, n: usize) -> (r: bool)
    ensures
        r == names_within(*s, n as nat),
{
    match s {
        None => true,
        Some(set) => {
            let members = set.iter();
            let mut m: usize = 0;
            while m < members.len()
                invariant
                    m <= members@.len(),
                    holds(set.entries@, members@),
                    *s == Some(*set),
                    forall|j: int| 0 <= j < m ==> members@[j] < n,
                decreases members@.len() - m,
            {
                if members[m] >= n {
                    proof {
                        assert((*s)->0 == *set);
                        if names_within(*s, n as nat) {
                            assert(holds(set.entries@, members@));
                            assert((members@[m as int] as int) < n as int);
                        }
                    }
                    return false;
                }
                m = m + 1;
            }
            proof {
                assert forall|r: Seq<usize>, k: int|
                    #[trigger] holds(set.entries@, r) && 0 <= k < r.len() implies #[trigger] r[k]
                    < n by {
                    lemma_holds_unique(set.entries@, r, members@);
                }
            }
            true
        },
    }
}

/// A set holds one sequence of elements only.
pub proof fn lemma_holds_unique(s: Seq<Option<usize>>, r1: Seq<usize>, r2: Seq<usize>)
    requires
        holds(s, r1),
        holds(s, r2),
    ensures
        r1 == r2,
{
    if r1.len() < r2.len() {
        assert(s[r1.len() as int] == Some(r2[r1.len() as int]));
    } else if r2.len() < r1.len() {
        assert(s[r2.len() as int] == Some(r1[r2.len() as int]));
    }
    assert forall|k: int| 0 <= k < r1.len() implies r1[k] == r2[k] by {
        assert(s[k] == Some(r1[k]));
        assert(s[k] == Some(r2[k]));
    }
    assert(r1 =~= r2);
}

} // verus!
