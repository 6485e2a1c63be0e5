//! Vertices of the mesh: records of the library's vertex list.
use vstd::prelude::*;

use crate::hull::{index_of, Qh};
use crate::list::Linked;
use crate::set::{refers_to, QhSet};

verus! {

/// A vertex of the hull.
///
/// `point` is the offset, counted in coordinates, at which the vertex's
/// point starts in the input buffer; `None` where the vertex has no point,
/// as the sentinel that ends the vertex list (id 0) has none.
#[derive(Clone, Debug, Default)]
pub struct Vertex {
    pub id: u32,
    pub visit_id: u32,
    pub dim: usize,
    pub previous: Option<usize>,
    pub next: Option<usize>,
    pub point: Option<usize>,
    pub neighbors: Option<QhSet>,
}

impl Vertex {
    /// Whether this is the sentinel that ends the vertex list (id 0).
    pub fn is_sentinel(&self) -> (r: bool)
        ensures
            r <==> self.id == 0,
    {
        self.id == 0
    }

    /// The index of the vertex's point among the input points; `None` for
    /// the sentinel, for a vertex without a point, and for a point that does
    /// not lie in the input buffer.
    pub fn index<C>(&self, qh: &Qh<C>) -> (r: Option<usize>)
        requires
            qh.wf(),
        ensures
            r == index_of(*self, *qh),
    {
        if self.is_sentinel() {
            return None;
        }
        match self.point {
            None => None,
            Some(offset) => {
                if offset >= qh.coords.len() {
                    None
                } else {
                    Some(offset / qh.dim)
                }
            },
        }
    }

    /// The index of the vertex's point among the input points, without the
    /// checks of `index`.
    pub fn index_unchecked<C>(&self, qh: &Qh<C>) -> (r: usize)
        requires
            qh.wf(),
            self.point is Some,
        ensures
            r == self.point->0 / qh.dim,
    {
        self.point.unwrap() / qh.dim
    }

    /// The dimension of the vertex: the number of coordinates of its point.
    pub fn dim(&self) -> (r: usize)
        ensures
            r == self.dim,
    {
        self.dim
    }

    /// The coordinates of the vertex's point, where it lies in the input
    /// buffer.
    pub fn point<C: Copy>(&self, qh: &Qh<C>) -> (r: Option<Vec<C>>)
        requires
            qh.wf(),
        ensures
            r matches Some(p) ==> self.point is Some && p@ == qh.coords@.subrange(
                self.point->0 as int,
                self.point->0 + qh.dim,
            ),
            r is None <==> (self.point is None || self.point->0 + qh.dim > qh.coords@.len()),
    {
        match self.point {
            None => None,
            Some(offset) => {
                if offset > qh.coords.len() || qh.coords.len() - offset < qh.dim {
                    None
                } else {
                    Some(qh.copy_coords(offset))
                }
            },
        }
    }

    /// The identifier of the vertex; not the index of its point.
    pub fn id(&self) -> (r: u32)
        ensures
            r == self.id,
    {
        self.id
    }

    /// The visit mark of the vertex.
    pub fn visit_id(&self) -> (r: u32)
        ensures
            r == self.visit_id,
    {
        self.visit_id
    }

    /// The neighbours of the vertex.
    pub fn neighbors(&self) -> (r: Option<&QhSet>)
        ensures
            refers_to(r, self.neighbors),
    {
        self.neighbors.as_ref()
    }
}

impl Linked for Vertex {
    open spec fn next_link(&self) -> Option<usize> {
        self.next
    }

    open spec fn previous_link(&self) -> Option<usize> {
        self.previous
    }

    open spec fn is_end(&self) -> bool {
        self.id == 0
    }

    open spec fn node_id(&self) -> u32 {
        self.id
    }

    fn next(&self) -> (r: Option<usize>) {
        self.next
    }

    fn previous(&self) -> (r: Option<usize>) {
        self.previous
    }

    fn ends_list(&self) -> (r: bool) {
        self.id == 0
    }

    fn ident(&self) -> (r: u32) {
        self.id
    }
}

} // verus!
