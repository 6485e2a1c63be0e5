//! Facets of the mesh: records of the library's facet list.
use vstd::prelude::*;

use crate::list::Linked;
use crate::set::{refers_to, QhSet};

verus! {

/// The largest number of merges that a facet records.
pub const MAX_NUM_MERGE: u32 = 511;

/// A facet: an (n-1)-dimensional face of the hull or the triangulation.
///
/// `previous` and `next` name the neighbouring facets of the facet list by
/// their index in it; the sets name facets, vertices and ridges likewise.
/// The facet with id 0 is the sentinel that ends the list and has no
/// geometry.
#[derive(Clone, Debug, Default)]
pub struct Face {
    pub id: u32,
    pub visit_id: u32,
    pub dim: usize,
    pub previous: Option<usize>,
    pub next: Option<usize>,
    pub vertices: Option<QhSet>,
    pub ridges: Option<QhSet>,
    pub neighbors: Option<QhSet>,
    pub outside_set: Option<QhSet>,
    pub coplanar_set: Option<QhSet>,
    pub num_merge: u32,
    pub tricoplanar: bool,
    pub new_facet: bool,
    pub visible: bool,
    pub top_orient: bool,
    pub simplicial: bool,
    pub seen: bool,
    pub seen2: bool,
    pub flipped: bool,
    pub upper_delaunay: bool,
    pub not_furthest: bool,
    pub good: bool,
    pub is_area: bool,
    pub dup_ridge: bool,
    pub merge_ridge: bool,
    pub merge_ridge2: bool,
    pub coplanar_horizon: bool,
    pub merge_horizon: bool,
    pub cycle_done: bool,
    pub tested: bool,
    pub keep_centrum: bool,
    pub new_merge: bool,
    pub degenerate: bool,
    pub redundant: bool,
}

impl Face {
    /// Whether this is the sentinel that ends the facet list (id 0).
    pub fn is_sentinel(&self) -> (r: bool)
        ensures
            r <==> self.id == 0,
    {
        self.id == 0
    }

    /// The identifier of the facet.
    pub fn id(&self) -> (r: u32)
        ensures
            r == self.id,
    {
        self.id
    }

    /// The visit mark of the facet.
    pub fn visit_id(&self) -> (r: u32)
        ensures
            r == self.visit_id,
    {
        self.visit_id
    }

    /// The dimension of the facet: the number of coordinates of its points.
    pub fn dim(&self) -> (r: usize)
        ensures
            r == self.dim,
    {
        self.dim
    }

    /// The number of merges that produced the facet.
    pub fn num_merge(&self) -> (r: u32)
        ensures
            r == self.num_merge,
    {
        self.num_merge
    }

    /// The largest value that `num_merge` takes.
    pub fn max_num_merge() -> (r: u32)
        ensures
            r == MAX_NUM_MERGE,
    {
        MAX_NUM_MERGE
    }

    /// The vertices of the facet.
    pub fn vertices(&self) -> (r: Option<&QhSet>)
        ensures
            refers_to(r, self.vertices),
    {
        self.vertices.as_ref()
    }

    /// The ridges of the facet; a facet of dimension 0 has none.
    pub fn ridges(&self) -> (r: Option<&QhSet>)
        ensures
            self.dim == 0 ==> r is None,
            self.dim > 0 ==> refers_to(r, self.ridges),
    {
        if self.dim == 0 {
            None
        } else {
            self.ridges.as_ref()
        }
    }

    /// The facets adjacent to this one.
    pub fn neighbors(&self) -> (r: Option<&QhSet>)
        ensures
            refers_to(r, self.neighbors),
    {
        self.neighbors.as_ref()
    }

    /// The points outside the facet that are still to be processed.
    pub fn outside_set(&self) -> (r: Option<&QhSet>)
        ensures
            refers_to(r, self.outside_set),
    {
        self.outside_set.as_ref()
    }

    /// The points kept as coplanar with the facet.
    pub fn coplanar_set(&self) -> (r: Option<&QhSet>)
        ensures
            refers_to(r, self.coplanar_set),
    {
        self.coplanar_set.as_ref()
    }

    /// The facet is one of the simplices of a triangulated coplanar facet.
    pub fn tricoplanar(&self) -> (r: bool)
        ensures
            r == self.tricoplanar,
    {
        self.tricoplanar
    }

    /// The facet was created in the latest step of the construction.
    pub fn new_facet(&self) -> (r: bool)
        ensures
            r == self.new_facet,
    {
        self.new_facet
    }

    /// The facet is visible from the point being added.
    pub fn visible(&self) -> (r: bool)
        ensures
            r == self.visible,
    {
        self.visible
    }

    /// The facet's vertices are in top orientation.
    pub fn top_orient(&self) -> (r: bool)
        ensures
            r == self.top_orient,
    {
        self.top_orient
    }

    /// The facet is a simplex: it has exactly `dim` vertices.
    pub fn simplicial(&self) -> (r: bool)
        ensures
            r == self.simplicial,
    {
        self.simplicial
    }

    /// Scratch mark used while visiting facets.
    pub fn seen(&self) -> (r: bool)
        ensures
            r == self.seen,
    {
        self.seen
    }

    /// Second scratch mark used while visiting facets.
    pub fn seen2(&self) -> (r: bool)
        ensures
            r == self.seen2,
    {
        self.seen2
    }

    /// The facet's normal points the wrong way.
    pub fn flipped(&self) -> (r: bool)
        ensures
            r == self.flipped,
    {
        self.flipped
    }

    /// The facet lies on the upper part of a lifted Delaunay hull.
    pub fn upper_delaunay(&self) -> (r: bool)
        ensures
            r == self.upper_delaunay,
    {
        self.upper_delaunay
    }

    /// The facet's outside set was not searched for its furthest point.
    pub fn not_furthest(&self) -> (r: bool)
        ensures
            r == self.not_furthest,
    {
        self.not_furthest
    }

    /// The facet is selected by the good-facet options.
    pub fn good(&self) -> (r: bool)
        ensures
            r == self.good,
    {
        self.good
    }

    /// The facet's area has been computed.
    pub fn is_area(&self) -> (r: bool)
        ensures
            r == self.is_area,
    {
        self.is_area
    }

    /// The facet has a ridge shared with more than one other facet.
    pub fn dup_ridge(&self) -> (r: bool)
        ensures
            r == self.dup_ridge,
    {
        self.dup_ridge
    }

    /// The facet's ridges were merged.
    pub fn merge_ridge(&self) -> (r: bool)
        ensures
            r == self.merge_ridge,
    {
        self.merge_ridge
    }

    /// The facet's ridges were merged in a second pass.
    pub fn merge_ridge2(&self) -> (r: bool)
        ensures
            r == self.merge_ridge2,
    {
        self.merge_ridge2
    }

    /// The facet is coplanar with the horizon of the last point added.
    pub fn coplanar_horizon(&self) -> (r: bool)
        ensures
            r == self.coplanar_horizon,
    {
        self.coplanar_horizon
    }

    /// The facet was merged into the horizon.
    pub fn merge_horizon(&self) -> (r: bool)
        ensures
            r == self.merge_horizon,
    {
        self.merge_horizon
    }

    /// The facet's merge cycle is done.
    pub fn cycle_done(&self) -> (r: bool)
        ensures
            r == self.cycle_done,
    {
        self.cycle_done
    }

    /// The facet has been tested for convexity.
    pub fn tested(&self) -> (r: bool)
        ensures
            r == self.tested,
    {
        self.tested
    }

    /// The facet's centrum is kept.
    pub fn keep_centrum(&self) -> (r: bool)
        ensures
            r == self.keep_centrum,
    {
        self.keep_centrum
    }

    /// The facet was created by a merge.
    pub fn new_merge(&self) -> (r: bool)
        ensures
            r == self.new_merge,
    {
        self.new_merge
    }

    /// The facet is degenerate.
    pub fn degenerate(&self) -> (r: bool)
        ensures
            r == self.degenerate,
    {
        self.degenerate
    }

    /// The facet is redundant.
    pub fn redundant(&self) -> (r: bool)
        ensures
            r == self.redundant,
    {
        self.redundant
    }
}

impl Linked for Face {
    open spec fn next_link(&self) -> Option<usize> {
        self.next
    }

    open spec fn previous_link(&self) -> Option<usize> {
        self.previous
    }

    open spec fn is_end(&self) -> bool {
        self.id == 0
    }

    open spec fn node_id(&self) -> u32 {
        self.id
    }

    fn next(&self) -> (r: Option<usize>) {
        self.next
    }

    fn previous(&self) -> (r: Option<usize>) {
        self.previous
    }

    fn ends_list(&self) -> (r: bool) {
        self.id == 0
    }

    fn ident(&self) -> (r: u32) {
        self.id
    }
}

} // verus!
