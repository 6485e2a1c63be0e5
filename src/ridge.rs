//! Ridges of the mesh: the faces shared by two facets.
use vstd::prelude::*;

use crate::set::{refers_to, QhSet};

verus! {

/// A ridge: the face shared by the facets `top` and `bottom`, both named by
/// their index in the facet list.
#[derive(Clone, Debug, Default)]
pub struct Ridge {
    pub id: u32,
    pub dim: usize,
    pub top: usize,
    pub bottom: usize,
    pub vertices: Option<QhSet>,
    pub seen: bool,
    pub tested: bool,
    pub non_convex: bool,
    pub merge_vertex: bool,
    pub merge_vertex_2: bool,
    pub simplicial_top: bool,
    pub simplicial_bottom: bool,
}

impl Ridge {
    /// The vertices of the ridge.
    pub fn vertices(&self) -> (r: Option<&QhSet>)
        ensures
            refers_to(r, self.vertices),
    {
        self.vertices.as_ref()
    }

    /// The facet above the ridge.
    pub fn top(&self) -> (r: usize)
        ensures
            r == self.top,
    {
        self.top
    }

    /// The facet below the ridge.
    pub fn bottom(&self) -> (r: usize)
        ensures
            r == self.bottom,
    {
        self.bottom
    }

    /// The identifier of the ridge.
    pub fn id(&self) -> (r: u32)
        ensures
            r == self.id,
    {
        self.id
    }

    /// The dimension of the ridge.
    pub fn dim(&self) -> (r: usize)
        ensures
            r == self.dim,
    {
        self.dim
    }

    /// Scratch mark used while visiting ridges.
    pub fn seen(&self) -> (r: bool)
        ensures
            r == self.seen,
    {
        self.seen
    }

    /// The ridge has been tested for convexity.
    pub fn tested(&self) -> (r: bool)
        ensures
            r == self.tested,
    {
        self.tested
    }

    /// The ridge joins two facets that are not convex.
    pub fn non_convex(&self) -> (r: bool)
        ensures
            r == self.non_convex,
    {
        self.non_convex
    }

    /// The ridge is to be removed by merging a vertex.
    pub fn merge_vertex(&self) -> (r: bool)
        ensures
            r == self.merge_vertex,
    {
        self.merge_vertex
    }

    /// The ridge is to be removed by merging a vertex in a second pass.
    pub fn merge_vertex_2(&self) -> (r: bool)
        ensures
            r == self.merge_vertex_2,
    {
        self.merge_vertex_2
    }

    /// The facet above the ridge is simplicial.
    pub fn simplicial_top(&self) -> (r: bool)
        ensures
            r == self.simplicial_top,
    {
        self.simplicial_top
    }

    /// The facet below the ridge is simplicial.
    pub fn simplicial_bottom(&self) -> (r: bool)
        ensures
            r == self.simplicial_bottom,
    {
        self.simplicial_bottom
    }
}

} // verus!
