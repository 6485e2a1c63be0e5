//! Flat coordinate buffers: points of one dimension laid end to end.
use vstd::prelude::*;

verus! {

/// The coordinates of `points`, laid end to end in order.
pub open spec fn flat<C>(points: Seq<Vec<C>>) -> Seq<C>
    decreases points.len(),
{
    if points.len() == 0 {
        Seq::empty()
    } else {
        flat(points.drop_last()) + points.last()@
    }
}

/// Every point has `dim` coordinates.
pub open spec fn uniform<C>(points: Seq<Vec<C>>, dim: nat) -> bool {
    forall|k: int| 0 <= k < points.len() ==> (#[trigger] points[k])@.len() == dim
}

/// Points collected into one buffer: `count` points of `dim` coordinates.
#[derive(Clone, Debug)]
pub struct CollectedCoords<C> {
    pub coords: Vec<C>,
    pub count: usize,
    pub dim: usize,
}

/// Lays the points end to end in one buffer. There must be at least one
/// point, and all points must have the same, non-zero, number of
/// coordinates.
pub fn collect_coords<C: Copy>(points: &Vec<Vec<C>>) -> (r: CollectedCoords<C>)
    requires
        points@.len() > 0,
        points@[0]@.len() > 0,
        uniform(points@, points@[0]@.len()),
    ensures
        r.dim == points@[0]@.len(),
        r.count == points@.len(),
        r.coords@ == flat(points@),
{
    let dim = points[0].len();
    let mut coords: Vec<C> = Vec::new();
    let mut i: usize = 0;
    while i < points.len()
        invariant
            i <= points@.len(),
            coords@ == flat(points@.take(i as int)),
        decreases points@.len() - i,
    {
        let p = &points[i];
        let mut j: usize = 0;
        while j < p.len()
            invariant
                i < points@.len(),
                *p == points@[i as int],
                j <= p@.len(),
                coords@ == flat(points@.take(i as int)) + p@.take(j as int),
            decreases p@.len() - j,
        {
            coords.push(p[j]);
            j = j + 1;
            assert(coords@ =~= flat(points@.take(i as int)) + p@.take(j as int));
        }
        proof {
            let t = points@.take(i as int + 1);
            assert(t.drop_last() =~= points@.take(i as int));
            assert(p@.take(j as int) =~= p@);
        }
        i = i + 1;
    }
    assert(points@.take(points@.len() as int) =~= points@);
    CollectedCoords { coords, count: points.len(), dim }
}

/// A buffer of `n` points of `dim` coordinates holds `n * dim` of them.
pub proof fn lemma_flat_len<C>(points: Seq<Vec<C>>, dim: nat)
    requires
        uniform(points, dim),
    ensures
        flat(points).len() == points.len() * dim,
    decreases points.len(),
{
    if points.len() > 0 {
        let rest = points.drop_last();
        assert(uniform(rest, dim)) by {
            assert forall|k: int| 0 <= k < rest.len() implies (#[trigger] rest[k])@.len()
                == dim by {
                assert(rest[k] == points[k]);
            }
        }
        lemma_flat_len(rest, dim);
        assert(points.last() == points[points.len() - 1]);
        assert(points.len() * dim == (points.len() - 1) * dim + dim) by (nonlinear_arith);
    }
}

/// Point `i` of the collected buffer is input point `i`, coordinate for
/// coordinate.
pub proof fn lemma_flat_point<C>(points: Seq<Vec<C>>, dim: nat, i: int)
    requires
        uniform(points, dim),
        0 <= i < points.len(),
    ensures
        i * dim + dim <= flat(points).len(),
        flat(points).subrange(i * dim, i * dim + dim) == points[i]@,
    decreases points.len(),
{
    let n = points.len();
    let rest = points.drop_last();
    assert(uniform(rest, dim)) by {
        assert forall|k: int| 0 <= k < rest.len() implies (#[trigger] rest[k])@.len() == dim by {
            assert(rest[k] == points[k]);
        }
    }
    lemma_flat_len(rest, dim);
    lemma_flat_len(points, dim);
    assert(points.last() == points[n - 1]);
    let f = flat(points);
    assert(f == flat(rest) + points.last()@);
    if i < n - 1 {
        lemma_flat_point(rest, dim, i);
        assert(i * dim + dim <= (n - 1) * dim) by (nonlinear_arith)
            requires
                i < n - 1,
        ;
        assert(rest[i] == points[i]);
        assert(f.subrange(i * dim, i * dim + dim) =~= flat(rest).subrange(i * dim, i * dim + dim));
    } else {
        assert(i * dim == (n - 1) * dim);
        assert(f.subrange(i * dim, i * dim + dim) =~= points.last()@);
    }
}

} // verus!
