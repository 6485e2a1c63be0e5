//! Doubly-linked lists held in an arena: each node names its neighbours by
//! their index in the arena, and `None` ends the list.
use vstd::prelude::*;

verus! {

/// A node of a doubly-linked list kept in an arena.
pub trait Linked {
    spec fn next_link(&self) -> Option<usize>;

    spec fn previous_link(&self) -> Option<usize>;

    /// Whether the node is the sentinel that ends a list.
    spec fn is_end(&self) -> bool;

    /// The identifier of the node.
    spec fn node_id(&self) -> u32;

    /// Index of the following node, if any.
    fn next(&self) -> (r: Option<usize>)
        ensures
            r == self.next_link(),
    ;

    /// Index of the preceding node, if any.
    fn previous(&self) -> (r: Option<usize>)
        ensures
            r == self.previous_link(),
    ;

    /// Whether the node is the sentinel that ends a list.
    fn ends_list(&self) -> (r: bool)
        ensures
            r == self.is_end(),
    ;

    /// The identifier of the node.
    fn ident(&self) -> (r: u32)
        ensures
            r == self.node_id(),
    ;
}

/// The link that a walk follows: `next` forward, `previous` backward.
pub open spec fn step<N: Linked>(node: N, forward: bool) -> Option<usize> {
    if forward {
        node.next_link()
    } else {
        node.previous_link()
    }
}

/// `c` is the walk from `start` along one direction of links, up to the
/// node whose link in that direction is `None`.
pub open spec fn is_walk<N: Linked>(
    nodes: Seq<N>,
    start: Option<usize>,
    forward: bool,
    c: Seq<usize>,
) -> bool {
    &&& c.len() <= nodes.len()
    &&& forall|k: int| 0 <= k < c.len() ==> c[k] < nodes.len()
    &&& c.len() == 0 <==> start is None
    &&& c.len() > 0 ==> start == Some(c[0])
    &&& forall|k: int|
        0 <= k < c.len() - 1 ==> #[trigger] step(nodes[c[k] as int], forward) == Some(c[k + 1])
    &&& c.len() > 0 ==> step(nodes[c[c.len() - 1] as int], forward) is None
}

/// A consistent doubly-linked list: `c` is the walk forward from `head`, and
/// its reverse is the walk backward from `tail`.
pub open spec fn is_list<N: Linked>(
    nodes: Seq<N>,
    head: Option<usize>,
    tail: Option<usize>,
    c: Seq<usize>,
) -> bool {
    is_walk(nodes, head, true, c) && is_walk(nodes, tail, false, c.reverse())
}

/// `c` ends with a sentinel, and holds no other.
pub open spec fn sentinel_last<N: Linked>(nodes: Seq<N>, c: Seq<usize>) -> bool {
    &&& c.len() > 0
    &&& nodes[c[c.len() - 1] as int].is_end()
    &&& forall|k: int| 0 <= k < c.len() - 1 ==> !(#[trigger] nodes[c[k] as int]).is_end()
}

/// No two nodes of `c` share an identifier.
pub open spec fn distinct_ids<N: Linked>(nodes: Seq<N>, c: Seq<usize>) -> bool {
    forall|j: int, k: int|
        0 <= j < k < c.len() ==> (#[trigger] nodes[c[j] as int]).node_id() != (
        #[trigger] nodes[c[k] as int]).node_id()
}

/// A consistent doubly-linked list of nodes with distinct identifiers,
/// ended by its one sentinel.
pub open spec fn is_ended_list<N: Linked>(
    nodes: Seq<N>,
    head: Option<usize>,
    tail: Option<usize>,
    c: Seq<usize>,
) -> bool {
    is_list(nodes, head, tail, c) && sentinel_last(nodes, c) && distinct_ids(nodes, c)
}

proof fn lemma_walks_agree<N: Linked>(
    nodes: Seq<N>,
    start: Option<usize>,
    forward: bool,
    c1: Seq<usize>,
    c2: Seq<usize>,
    k: int,
)
    requires
        is_walk(nodes, start, forward, c1),
        is_walk(nodes, start, forward, c2),
        0 <= k < c1.len(),
        0 <= k < c2.len(),
    ensures
        c1[k] == c2[k],
    decreases k,
{
    if k > 0 {
        lemma_walks_agree(nodes, start, forward, c1, c2, k - 1);
        assert(step(nodes[c1[k - 1] as int], forward) == Some(c1[k]));
        assert(step(nodes[c2[k - 1] as int], forward) == Some(c2[k]));
    }
}

/// From a given start and direction there is at most one walk.
pub proof fn lemma_walk_unique<N: Linked>(
    nodes: Seq<N>,
    start: Option<usize>,
    forward: bool,
    c1: Seq<usize>,
    c2: Seq<usize>,
)
    requires
        is_walk(nodes, start, forward, c1),
        is_walk(nodes, start, forward, c2),
    ensures
        c1 == c2,
{
    assert forall|k: int| 0 <= k < c1.len() && 0 <= k < c2.len() implies c1[k] == c2[k] by {
        lemma_walks_agree(nodes, start, forward, c1, c2, k);
    }
    if c1.len() < c2.len() {
        let j = c1.len() - 1;
        assert(step(nodes[c2[j] as int], forward) == Some(c2[j + 1]));
    } else if c2.len() < c1.len() {
        let j = c2.len() - 1;
        assert(step(nodes[c1[j] as int], forward) == Some(c1[j + 1]));
    }
    assert(c1 =~= c2);
}

/// Follows the links from `start` in one direction and returns the indices
/// met, in order; `None` where the links lead out of the arena or around a
/// cycle, so that no walk exists.
pub fn walk<N: Linked>(nodes: &Vec<N>, start: Option<usize>, forward: bool) -> (r: Option<
    Vec<usize>,
>)
    ensures
        r matches Some(v) ==> is_walk(nodes@, start, forward, v@),
        r is None ==> forall|c: Seq<usize>| !is_walk(nodes@, start, forward, c),
{
    let mut out: Vec<usize> = Vec::new();
    let mut cur: Option<usize> = start;
    while cur.is_some() && out.len() < nodes.len()
        invariant
            out@.len() <= nodes@.len(),
            forall|k: int| 0 <= k < out@.len() ==> out@[k] < nodes@.len(),
            out@.len() == 0 ==> cur == start,
            out@.len() > 0 ==> start == Some(out@[0]),
            out@.len() > 0 ==> cur == step(nodes@[out@[out@.len() - 1] as int], forward),
            forall|k: int|
                0 <= k < out@.len() - 1 ==> #[trigger] step(nodes@[out@[k] as int], forward)
                    == Some(out@[k + 1]),
            forall|c: Seq<usize>|
                #[trigger] is_walk(nodes@, start, forward, c) ==> {
                    &&& out@.len() <= c.len()
                    &&& out@ =~= c.take(out@.len() as int)
                    &&& cur == if out@.len() < c.len() {
                        Some(c[out@.len() as int])
                    } else {
                        None::<usize>
                    }
                },
        decreases nodes@.len() - out@.len(),
    {
        let i = cur.unwrap();
        if i >= nodes.len() {
            proof {
                assert forall|c: Seq<usize>| !is_walk(nodes@, start, forward, c) by {
                    if is_walk(nodes@, start, forward, c) {
                        assert(c[out@.len() as int] < nodes@.len());
                    }
                }
            }
            return None;
        }
        let ghost old_out = out@;
        out.push(i);
        cur = if forward {
            nodes[i].next()
        } else {
            nodes[i].previous()
        };
        proof {
            assert forall|k: int|
                0 <= k < out@.len() - 1 implies #[trigger] step(nodes@[out@[k] as int], forward)
                == Some(out@[k + 1]) by {
                if k < old_out.len() - 1 {
                    assert(out@[k] == old_out[k]);
                }
            }
            assert forall|c: Seq<usize>| #[trigger] is_walk(nodes@, start, forward, c) implies {
                &&& out@.len() <= c.len()
                &&& out@ =~= c.take(out@.len() as int)
                &&& cur == if out@.len() < c.len() {
                    Some(c[out@.len() as int])
                } else {
                    None::<usize>
                }
            } by {
                let n = old_out.len() as int;
                assert(c[n] == i);
                if n + 1 < c.len() {
                    assert(step(nodes@[c[n] as int], forward) == Some(c[n + 1]));
                }
                assert(out@ =~= c.take(n + 1));
            }
        }
    }
    if cur.is_some() {
        proof {
            assert forall|c: Seq<usize>| !is_walk(nodes@, start, forward, c) by {
                if is_walk(nodes@, start, forward, c) {
                    assert(out@.len() < c.len());
                }
            }
        }
        None
    } else {
        Some(out)
    }
}

/// Whether the links form a consistent doubly-linked list from `head` to
/// `tail` of nodes with distinct identifiers, ended by its one sentinel.
pub fn check_list<N: Linked>(nodes: &Vec<N>, head: Option<usize>, tail: Option<usize>) -> (r: bool)
    ensures
        r <==> exists|c: Seq<usize>| is_ended_list(nodes@, head, tail, c),
{
    let fwd = match walk(nodes, head, true) {
        Some(v) => v,
        None => {
            proof {
                assert forall|c: Seq<usize>| !is_list(nodes@, head, tail, c) by {
                    if is_list(nodes@, head, tail, c) {
                        assert(is_walk(nodes@, head, true, c));
                    }
                }
            }
            return false;
        },
    };
    let bwd = match walk(nodes, tail, false) {
        Some(v) => v,
        None => {
            proof {
                assert forall|c: Seq<usize>| !is_list(nodes@, head, tail, c) by {
                    if is_list(nodes@, head, tail, c) {
                        assert(is_walk(nodes@, tail, false, c.reverse()));
                    }
                }
            }
            return false;
        },
    };
    let n = fwd.len();
    let mut ok = bwd.len() == n;
    let mut k: usize = 0;
    while ok && k < n
        invariant
            fwd@.len() == n,
            ok ==> bwd@.len() == n,
            k <= n,
            ok ==> forall|j: int| 0 <= j < k ==> bwd@[j] == fwd@[n - 1 - j],
            !ok ==> bwd@ != fwd@.reverse(),
        decreases n - k + if ok { 1int } else { 0int },
    {
        if bwd[k] != fwd[n - 1 - k] {
            ok = false;
            proof {
                assert(fwd@.reverse()[k as int] == fwd@[n - 1 - k]);
            }
        } else {
            k = k + 1;
        }
    }
    proof {
        if ok {
            assert(bwd@ =~= fwd@.reverse());
            assert(is_list(nodes@, head, tail, fwd@));
        } else {
            assert forall|c: Seq<usize>| !is_list(nodes@, head, tail, c) by {
                if is_list(nodes@, head, tail, c) {
                    lemma_walk_unique(nodes@, head, true, c, fwd@);
                    lemma_walk_unique(nodes@, tail, false, c.reverse(), bwd@);
                }
            }
        }
    }
    if !ok {
        return false;
    }
    let ended = check_sentinel(nodes, &fwd) && check_distinct(nodes, &fwd);
    proof {
        if ended {
            assert(is_ended_list(nodes@, head, tail, fwd@));
        } else {
            assert forall|c: Seq<usize>| !is_ended_list(nodes@, head, tail, c) by {
                if is_ended_list(nodes@, head, tail, c) {
                    lemma_walk_unique(nodes@, head, true, c, fwd@);
                }
            }
        }
    }
    ended
}

/// Whether no two nodes of `c` share an identifier.
fn check_distinct<N: Linked>(nodes: &Vec<N>, c: &Vec<usize>) -> (r: bool)
    requires
        forall|k: int| 0 <= k < c@.len() ==> c@[k] < nodes@.len(),
    ensures
        r <==> distinct_ids(nodes@, c@),
{
    let n = c.len();
    let mut k: usize = 0;
    while k < n
        invariant
            n == c@.len(),
            k <= n,
            forall|j: int| 0 <= j < c@.len() ==> c@[j] < nodes@.len(),
            forall|a: int, b: int|
                0 <= a < b < c@.len() && a < k ==> (#[trigger] nodes@[c@[a] as int]).node_id() != (
                #[trigger] nodes@[c@[b] as int]).node_id(),
        decreases n - k,
    {
        let id = nodes[c[k]].ident();
        let mut m: usize = k + 1;
        while m < n
            invariant
                n == c@.len(),
                k < n,
                k < m <= n,
                id == nodes@[c@[k as int] as int].node_id(),
                forall|j: int| 0 <= j < c@.len() ==> c@[j] < nodes@.len(),
                forall|a: int, b: int|
                    0 <= a < b < c@.len() && a < k ==> (#[trigger] nodes@[c@[a] as int]).node_id()
                        != (#[trigger] nodes@[c@[b] as int]).node_id(),
                forall|b: int|
                    k < b < m ==> id != (#[trigger] nodes@[c@[b] as int]).node_id(),
            decreases n - m,
        {
            if nodes[c[m]].ident() == id {
                return false;
            }
            m = m + 1;
        }
        k = k + 1;
    }
    true
}

/// Whether the sentinel stands last in `c` and nowhere else.
fn check_sentinel<N: Linked>(nodes: &Vec<N>, c: &Vec<usize>) -> (r: bool)
    requires
        forall|k: int| 0 <= k < c@.len() ==> c@[k] < nodes@.len(),
    ensures
        r <==> sentinel_last(nodes@, c@),
{
    let n = c.len();
    if n == 0 {
        return false;
    }
    if !nodes[c[n - 1]].ends_list() {
        return false;
    }
    let mut k: usize = 0;
    while k < n - 1
        invariant
            n == c@.len(),
            n > 0,
            k <= n - 1,
            forall|j: int| 0 <= j < c@.len() ==> c@[j] < nodes@.len(),
            forall|j: int| 0 <= j < k ==> !(#[trigger] nodes@[c@[j] as int]).is_end(),
        decreases n - 1 - k,
    {
        if nodes[c[k]].ends_list() {
            return false;
        }
        k = k + 1;
    }
    true
}

} // verus!
