//! The result of a hull computation held as plain values: the input points
//! and the facet, vertex and ridge lists of the mesh.
use vstd::prelude::*;

use crate::coords::{flat, lemma_flat_len, lemma_flat_point, uniform};
use crate::face::{Face, MAX_NUM_MERGE};
use crate::list::{
    check_list, is_ended_list, is_walk, lemma_walk_unique, sentinel_last, walk, Linked,
};
use crate::ridge::Ridge;
use crate::set::{check_within, holds, lemma_holds_unique, names_within, QhSet};
use crate::vertex::Vertex;

verus! {

/// Why the parts handed to `Qh::new` do not make a mesh.
#[derive(Clone, Copy, Debug, PartialEq, Eq)]
pub enum MeshError {
    /// The dimension is 0.
    ZeroDimension,
    /// The number of coordinates is not a multiple of the dimension.
    RaggedCoordinates,
    /// The facets' links do not form one doubly-linked list from head to
    /// tail, ended by its one sentinel.
    BrokenFacetList,
    /// The vertices' links do not form one doubly-linked list from head to
    /// tail, ended by its one sentinel.
    BrokenVertexList,
    /// A facet does not fit the mesh (see `facet_fits`).
    BadFacet,
    /// A vertex does not fit the mesh (see `vertex_fits`).
    BadVertex,
    /// A ridge does not join two facets of the mesh (see `ridge_fits`).
    BadRidge,
    /// A set of a facet, a vertex or a ridge holds an element that the mesh
    /// does not have.
    BadSet,
}

/// A vertex's point, where it lies in a buffer of `len` coordinates, starts
/// a point of dimension `dim`.
pub open spec fn aligned(v: Vertex, len: nat, dim: usize) -> bool {
    match v.point {
        Some(offset) => offset < len ==> offset % dim == 0,
        None => true,
    }
}

/// Every ridge of `r` is a ridge of the mesh that facet `i` lies above or
/// below.
pub open spec fn ridges_of(r: Seq<usize>, i: int, ridges: Seq<Ridge>) -> bool {
    forall|m: int|
        0 <= m < r.len() ==> #[trigger] r[m] < ridges.len() && (ridges[r[m] as int].top == i
            || ridges[r[m] as int].bottom == i)
}

/// Facet `i` has the mesh's dimension and a merge count in range; a
/// simplicial facet has exactly `dim` vertices; the facet lies on each of
/// its ridges.
pub open spec fn facet_fits(f: Face, i: int, dim: usize, ridges: Seq<Ridge>) -> bool {
    &&& f.dim == dim
    &&& f.num_merge <= MAX_NUM_MERGE
    &&& f.simplicial ==> match f.vertices {
        Some(s) => forall|r: Seq<usize>| holds(s.entries@, r) ==> r.len() == dim,
        None => false,
    }
    &&& match f.ridges {
        Some(s) => forall|r: Seq<usize>| holds(s.entries@, r) ==> ridges_of(r, i, ridges),
        None => true,
    }
}

/// A vertex has the mesh's dimension, its point starts a point of the
/// buffer, and a vertex that is no sentinel has a point in the buffer.
pub open spec fn vertex_fits(v: Vertex, len: nat, dim: usize) -> bool {
    &&& v.dim == dim
    &&& aligned(v, len, dim)
    &&& v.id != 0 ==> match v.point {
        Some(offset) => offset < len,
        None => false,
    }
}

/// A ridge joins two different facets of the mesh, with different
/// identifiers.
pub open spec fn ridge_fits(r: Ridge, facets: Seq<Face>) -> bool {
    &&& r.top < facets.len()
    &&& r.bottom < facets.len()
    &&& r.top != r.bottom
    &&& facets[r.top as int].id != facets[r.bottom as int].id
}

/// The sets of a facet name vertices and facets of a mesh of `nf` facets
/// and `nv` vertices.
pub open spec fn facet_sets_fit(f: Face, nf: nat, nv: nat) -> bool {
    &&& names_within(f.vertices, nv)
    &&& names_within(f.neighbors, nf)
    &&& names_within(f.outside_set, nv)
    &&& names_within(f.coplanar_set, nv)
}

/// The coordinates of point `i` of a buffer of points of dimension `dim`.
pub open spec fn point_at<C>(coords: Seq<C>, dim: usize, i: int) -> Seq<C> {
    coords.subrange(i * dim, i * dim + dim)
}

/// The index of a vertex's point among the input points of `qh`, where the
/// vertex is no sentinel and its point lies in the input buffer.
pub open spec fn index_of<C>(v: Vertex, qh: Qh<C>) -> Option<usize> {
    if v.id == 0 {
        None
    } else {
        match v.point {
            Some(offset) => if offset < qh.coords@.len() {
                Some((offset / qh.dim) as usize)
            } else {
                None
            },
            None => None,
        }
    }
}

/// Whether a facet stays in a listing: never the sentinel, and only a
/// simplicial facet where `simplicial_only` holds.
pub open spec fn keeps(f: Face, simplicial_only: bool) -> bool {
    f.id != 0 && (!simplicial_only || f.simplicial)
}

/// The result of a computation: the input points, `dim` coordinates each,
/// and the facet and vertex lists of the mesh, each a doubly-linked list
/// kept in an arena and ended by a sentinel.
#[derive(Clone, Debug)]
pub struct Qh<C> {
    pub dim: usize,
    pub coords: Vec<C>,
    pub facets: Vec<Face>,
    pub facet_head: Option<usize>,
    pub facet_tail: Option<usize>,
    pub vertices: Vec<Vertex>,
    pub vertex_head: Option<usize>,
    pub vertex_tail: Option<usize>,
    pub ridges: Vec<Ridge>,
}

impl<C> Qh<C> {
    /// The points fill the buffer, the facets and the vertices form
    /// consistent lists ended by their sentinels, and every facet, vertex
    /// and ridge fits the mesh.
    pub open spec fn wf(&self) -> bool {
        &&& self.dim > 0
        &&& self.coords@.len() % (self.dim as nat) == 0
        &&& self.facets_listed()
        &&& self.vertices_listed()
        &&& self.facets_fit()
        &&& self.vertices_fit()
        &&& self.ridges_fit()
        &&& self.sets_fit()
    }

    /// The facets form one consistent list, ended by its sentinel.
    pub open spec fn facets_listed(&self) -> bool {
        exists|c: Seq<usize>| is_ended_list(self.facets@, self.facet_head, self.facet_tail, c)
    }

    /// The vertices form one consistent list, ended by its sentinel.
    pub open spec fn vertices_listed(&self) -> bool {
        exists|c: Seq<usize>| is_ended_list(self.vertices@, self.vertex_head, self.vertex_tail, c)
    }

    /// Every facet fits the mesh.
    pub open spec fn facets_fit(&self) -> bool {
        forall|k: int|
            0 <= k < self.facets@.len() ==> facet_fits(
                #[trigger] self.facets@[k],
                k,
                self.dim,
                self.ridges@,
            )
    }

    /// Every vertex fits the mesh.
    pub open spec fn vertices_fit(&self) -> bool {
        forall|k: int|
            0 <= k < self.vertices@.len() ==> vertex_fits(
                #[trigger] self.vertices@[k],
                self.coords@.len(),
                self.dim,
            )
    }

    /// Every ridge joins two different facets of the mesh.
    pub open spec fn ridges_fit(&self) -> bool {
        forall|k: int|
            0 <= k < self.ridges@.len() ==> ridge_fits(#[trigger] self.ridges@[k], self.facets@)
    }

    /// Every set of a facet, a vertex or a ridge names elements of the mesh.
    pub open spec fn sets_fit(&self) -> bool {
        &&& forall|k: int|
            0 <= k < self.facets@.len() ==> facet_sets_fit(
                #[trigger] self.facets@[k],
                self.facets@.len(),
                self.vertices@.len(),
            )
        &&& forall|k: int|
            0 <= k < self.vertices@.len() ==> names_within(
                (#[trigger] self.vertices@[k]).neighbors,
                self.vertices@.len(),
            )
        &&& forall|k: int|
            0 <= k < self.ridges@.len() ==> names_within(
                (#[trigger] self.ridges@[k]).vertices,
                self.vertices@.len(),
            )
    }

    /// The first way in which the parts do not make a mesh, in the order
    /// of `MeshError`; `None` where they do.
    pub open spec fn mesh_fault(&self) -> Option<MeshError> {
        if self.dim == 0 {
            Some(MeshError::ZeroDimension)
        } else if self.coords@.len() % (self.dim as nat) != 0 {
            Some(MeshError::RaggedCoordinates)
        } else if !self.facets_listed() {
            Some(MeshError::BrokenFacetList)
        } else if !self.vertices_listed() {
            Some(MeshError::BrokenVertexList)
        } else if !self.facets_fit() {
            Some(MeshError::BadFacet)
        } else if !self.vertices_fit() {
            Some(MeshError::BadVertex)
        } else if !self.ridges_fit() {
            Some(MeshError::BadRidge)
        } else if !self.sets_fit() {
            Some(MeshError::BadSet)
        } else {
            None
        }
    }

    /// The facets in list order, sentinel included.
    pub open spec fn facet_order(&self) -> Seq<usize> {
        choose|c: Seq<usize>| is_ended_list(self.facets@, self.facet_head, self.facet_tail, c)
    }

    /// The vertices in list order, sentinel included.
    pub open spec fn vertex_order(&self) -> Seq<usize> {
        choose|c: Seq<usize>| is_ended_list(self.vertices@, self.vertex_head, self.vertex_tail, c)
    }

    /// The facets of `order` that `keeps` keeps, in the same order.
    pub open spec fn kept_facets(&self, order: Seq<usize>, simplicial_only: bool) -> Seq<usize> {
        order.filter(|i: usize| keeps(self.facets@[i as int], simplicial_only))
    }

    /// The vertices of `order` but the sentinel, in the same order.
    pub open spec fn kept_vertices(&self, order: Seq<usize>) -> Seq<usize> {
        order.filter(|i: usize| self.vertices@[i as int].id != 0)
    }

    /// The number of input points.
    pub open spec fn spec_num_points(&self) -> int {
        self.coords@.len() as int / self.dim as int
    }

    /// Assembles a mesh from its parts, checking that they fit together.
    pub fn new(
        dim: usize,
        coords: Vec<C>,
        facets: Vec<Face>,
        facet_head: Option<usize>,
        facet_tail: Option<usize>,
        vertices: Vec<Vertex>,
        vertex_head: Option<usize>,
        vertex_tail: Option<usize>,
        ridges: Vec<Ridge>,
    ) -> (r: Result<Qh<C>, MeshError>)
        ensures
            r matches Ok(q) ==> q.wf() && q == (Qh {
                dim,
                coords,
                facets,
                facet_head,
                facet_tail,
                vertices,
                vertex_head,
                vertex_tail,
                ridges,
            }),
            r is Ok <==> (Qh {
                dim,
                coords,
                facets,
                facet_head,
                facet_tail,
                vertices,
                vertex_head,
                vertex_tail,
                ridges,
            }).mesh_fault() is None,
            r matches Err(e) ==> (Qh {
                dim,
                coords,
                facets,
                facet_head,
                facet_tail,
                vertices,
                vertex_head,
                vertex_tail,
                ridges,
            }).mesh_fault() == Some(e),
    {
        let q = Qh {
            dim,
            coords,
            facets,
            facet_head,
            facet_tail,
            vertices,
            vertex_head,
            vertex_tail,
            ridges,
        };
        match q.find_fault() {
            Some(e) => Err(e),
            None => Ok(q),
        }
    }

    /// The first way in which the parts do not make a mesh.
    fn find_fault(&self) -> (r: Option<MeshError>)
        ensures
            r == self.mesh_fault(),
            r is None <==> self.wf(),
    {
        if self.dim == 0 {
            return Some(MeshError::ZeroDimension);
        }
        if self.coords.len() % self.dim != 0 {
            return Some(MeshError::RaggedCoordinates);
        }
        if !check_list(&self.facets, self.facet_head, self.facet_tail) {
            return Some(MeshError::BrokenFacetList);
        }
        if !check_list(&self.vertices, self.vertex_head, self.vertex_tail) {
            return Some(MeshError::BrokenVertexList);
        }
        if !self.check_facets() {
            return Some(MeshError::BadFacet);
        }
        if !self.check_vertices() {
            return Some(MeshError::BadVertex);
        }
        if !self.check_ridges() {
            return Some(MeshError::BadRidge);
        }
        if !self.check_sets() {
            return Some(MeshError::BadSet);
        }
        None
    }

    /// Whether every facet fits the mesh.
    fn check_facets(&self) -> (r: bool)
        ensures
            r == self.facets_fit(),
    {
        let mut k: usize = 0;
        while k < self.facets.len()
            invariant
                k <= self.facets@.len(),
                forall|j: int|
                    0 <= j < k ==> facet_fits(#[trigger] self.facets@[j], j, self.dim, self.ridges@),
            decreases self.facets@.len() - k,
        {
            if !facet_fits_exec(&self.facets[k], k, self.dim, &self.ridges) {
                return false;
            }
            k = k + 1;
        }
        true
    }

    /// Whether every vertex fits the mesh.
    fn check_vertices(&self) -> (r: bool)
        requires
            self.dim > 0,
        ensures
            r == self.vertices_fit(),
    {
        let mut k: usize = 0;
        while k < self.vertices.len()
            invariant
                self.dim > 0,
                k <= self.vertices@.len(),
                forall|j: int|
                    0 <= j < k ==> vertex_fits(
                        #[trigger] self.vertices@[j],
                        self.coords@.len(),
                        self.dim,
                    ),
            decreases self.vertices@.len() - k,
        {
            if !vertex_fits_exec(&self.vertices[k], self.coords.len(), self.dim) {
                return false;
            }
            k = k + 1;
        }
        true
    }

    /// Whether every ridge joins two different facets.
    fn check_ridges(&self) -> (r: bool)
        ensures
            r == self.ridges_fit(),
    {
        let n = self.facets.len();
        let mut k: usize = 0;
        while k < self.ridges.len()
            invariant
                n == self.facets@.len(),
                k <= self.ridges@.len(),
                forall|j: int| 0 <= j < k ==> ridge_fits(#[trigger] self.ridges@[j], self.facets@),
            decreases self.ridges@.len() - k,
        {
            let r = &self.ridges[k];
            if !(r.top < n && r.bottom < n && r.top != r.bottom) || self.facets[r.top].id
                == self.facets[r.bottom].id {
                return false;
            }
            k = k + 1;
        }
        true
    }

    /// Whether every set of a facet, a vertex or a ridge names elements of
    /// the mesh.
    fn check_sets(&self) -> (r: bool)
        ensures
            r == self.sets_fit(),
    {
        let nf = self.facets.len();
        let nv = self.vertices.len();
        let mut k: usize = 0;
        while k < self.facets.len()
            invariant
                nf == self.facets@.len(),
                nv == self.vertices@.len(),
                k <= nf,
                forall|j: int|
                    0 <= j < k ==> facet_sets_fit(#[trigger] self.facets@[j], nf as nat, nv as nat),
            decreases nf - k,
        {
            let f = &self.facets[k];
            if !(check_within(&f.vertices, nv) && check_within(&f.neighbors, nf) && check_within(
                &f.outside_set,
                nv,
            ) && check_within(&f.coplanar_set, nv)) {
                return false;
            }
            k = k + 1;
        }
        let mut k: usize = 0;
        while k < self.vertices.len()
            invariant
                nf == self.facets@.len(),
                nv == self.vertices@.len(),
                k <= nv,
                forall|j: int|
                    0 <= j < self.facets@.len() ==> facet_sets_fit(
                        #[trigger] self.facets@[j],
                        nf as nat,
                        nv as nat,
                    ),
                forall|j: int|
                    0 <= j < k ==> names_within((#[trigger] self.vertices@[j]).neighbors, nv as nat),
            decreases nv - k,
        {
            if !check_within(&self.vertices[k].neighbors, nv) {
                return false;
            }
            k = k + 1;
        }
        let mut k: usize = 0;
        while k < self.ridges.len()
            invariant
                nf == self.facets@.len(),
                nv == self.vertices@.len(),
                k <= self.ridges@.len(),
                forall|j: int|
                    0 <= j < self.facets@.len() ==> facet_sets_fit(
                        #[trigger] self.facets@[j],
                        nf as nat,
                        nv as nat,
                    ),
                forall|j: int|
                    0 <= j < self.vertices@.len() ==> names_within(
                        (#[trigger] self.vertices@[j]).neighbors,
                        nv as nat,
                    ),
                forall|j: int|
                    0 <= j < k ==> names_within((#[trigger] self.ridges@[j]).vertices, nv as nat),
            decreases self.ridges@.len() - k,
        {
            if !check_within(&self.ridges[k].vertices, nv) {
                return false;
            }
            k = k + 1;
        }
        true
    }

    /// The dimension of the input points.
    pub fn dim(&self) -> (r: usize)
        ensures
            r == self.dim,
    {
        self.dim
    }

    /// The number of input points.
    pub fn num_points(&self) -> (r: usize)
        requires
            self.wf(),
        ensures
            r == self.spec_num_points(),
    {
        self.coords.len() / self.dim
    }

    /// The facet stored at index `i`.
    pub fn face(&self, i: usize) -> (r: &Face)
        requires
            i < self.facets@.len(),
        ensures
            *r == self.facets@[i as int],
    {
        &self.facets[i]
    }

    /// The vertex stored at index `i`.
    pub fn vertex(&self, i: usize) -> (r: &Vertex)
        requires
            i < self.vertices@.len(),
        ensures
            *r == self.vertices@[i as int],
    {
        &self.vertices[i]
    }

    /// The ridge stored at index `i`.
    pub fn ridge(&self, i: usize) -> (r: &Ridge)
        requires
            i < self.ridges@.len(),
        ensures
            *r == self.ridges@[i as int],
    {
        &self.ridges[i]
    }

    /// All facets, from the head of the list to its end, sentinel included.
    pub fn all_facets(&self) -> (r: Vec<usize>)
        requires
            self.wf(),
        ensures
            is_walk(self.facets@, self.facet_head, true, r@),
            sentinel_last(self.facets@, r@),
            r@ == self.facet_order(),
    {
        let ghost c = self.facet_order();
        match walk(&self.facets, self.facet_head, true) {
            Some(v) => {
                proof {
                    lemma_walk_unique(self.facets@, self.facet_head, true, c, v@);
                }
                v
            },
            None => {
                assert(is_walk(self.facets@, self.facet_head, true, c));
                Vec::new()
            },
        }
    }

    /// All facets, from the tail of the list back to its start.
    pub fn all_facets_rev(&self) -> (r: Vec<usize>)
        requires
            self.wf(),
        ensures
            is_walk(self.facets@, self.facet_tail, false, r@),
            r@ == self.facet_order().reverse(),
    {
        let ghost c = self.facet_order();
        match walk(&self.facets, self.facet_tail, false) {
            Some(v) => {
                proof {
                    lemma_walk_unique(self.facets@, self.facet_tail, false, c.reverse(), v@);
                }
                v
            },
            None => {
                assert(is_walk(self.facets@, self.facet_tail, false, c.reverse()));
                Vec::new()
            },
        }
    }

    /// All vertices, from the head of the list to its end, sentinel included.
    pub fn all_vertices(&self) -> (r: Vec<usize>)
        requires
            self.wf(),
        ensures
            is_walk(self.vertices@, self.vertex_head, true, r@),
            sentinel_last(self.vertices@, r@),
            r@ == self.vertex_order(),
    {
        let ghost c = self.vertex_order();
        match walk(&self.vertices, self.vertex_head, true) {
            Some(v) => {
                proof {
                    lemma_walk_unique(self.vertices@, self.vertex_head, true, c, v@);
                }
                v
            },
            None => {
                assert(is_walk(self.vertices@, self.vertex_head, true, c));
                Vec::new()
            },
        }
    }

    /// All vertices, from the tail of the list back to its start.
    pub fn all_vertices_rev(&self) -> (r: Vec<usize>)
        requires
            self.wf(),
        ensures
            is_walk(self.vertices@, self.vertex_tail, false, r@),
            r@ == self.vertex_order().reverse(),
    {
        let ghost c = self.vertex_order();
        match walk(&self.vertices, self.vertex_tail, false) {
            Some(v) => {
                proof {
                    lemma_walk_unique(self.vertices@, self.vertex_tail, false, c.reverse(), v@);
                }
                v
            },
            None => {
                assert(is_walk(self.vertices@, self.vertex_tail, false, c.reverse()));
                Vec::new()
            },
        }
    }
    /// Keeping the facets of `s` but sentinels, where `s` has none, keeps them all.
    proof fn lemma_kept_facets_all(&self, s: Seq<usize>)
        requires
            forall|k: int|
                0 <= k < s.len() ==> s[k] < self.facets@.len() && (#[trigger] self.facets@[s[k] as int]).id
                    != 0,
        ensures
            self.kept_facets(s, false) == s,
        decreases s.len(),
    {
        reveal(Seq::filter);
        if s.len() > 0 {
            let t = s.drop_last();
            assert forall|k: int| 0 <= k < t.len() implies t[k] < self.facets@.len() && (
            #[trigger] self.facets@[t[k] as int]).id != 0 by {
                assert(t[k] == s[k]);
            }
            self.lemma_kept_facets_all(t);
            assert(t.push(s.last()) =~= s);
        }
    }

    /// Without its sentinel, the facet list is all but its last node.
    proof fn lemma_facets_but_sentinel(&self)
        requires
            self.wf(),
        ensures
            self.facet_order().len() > 0,
            self.kept_facets(self.facet_order(), false) == self.facet_order().drop_last(),
    {
        reveal(Seq::filter);
        let c = self.facet_order();
        assert(is_ended_list(self.facets@, self.facet_head, self.facet_tail, c));
        if c.len() > 0 {
            let t = c.drop_last();
            assert forall|k: int| 0 <= k < t.len() implies t[k] < self.facets@.len() && (
            #[trigger] self.facets@[t[k] as int]).id != 0 by {
                assert(t[k] == c[k]);
                assert(!self.facets@[c[k] as int].is_end());
            }
            self.lemma_kept_facets_all(t);
            assert(self.facets@[c.last() as int].is_end());
        }
    }

    /// Keeping the vertices of `s` but sentinels, where `s` has none, keeps them all.
    proof fn lemma_kept_vertices_all(&self, s: Seq<usize>)
        requires
            forall|k: int|
                0 <= k < s.len() ==> s[k] < self.vertices@.len() && (
                #[trigger] self.vertices@[s[k] as int]).id != 0,
        ensures
            self.kept_vertices(s) == s,
        decreases s.len(),
    {
        reveal(Seq::filter);
        if s.len() > 0 {
            let t = s.drop_last();
            assert forall|k: int| 0 <= k < t.len() implies t[k] < self.vertices@.len() && (
            #[trigger] self.vertices@[t[k] as int]).id != 0 by {
                assert(t[k] == s[k]);
            }
            self.lemma_kept_vertices_all(t);
            assert(t.push(s.last()) =~= s);
        }
    }

    /// Without its sentinel, the vertex list is all but its last node.
    proof fn lemma_vertices_but_sentinel(&self)
        requires
            self.wf(),
        ensures
            self.vertex_order().len() > 0,
            self.kept_vertices(self.vertex_order()) == self.vertex_order().drop_last(),
    {
        reveal(Seq::filter);
        let c = self.vertex_order();
        assert(is_ended_list(self.vertices@, self.vertex_head, self.vertex_tail, c));
        if c.len() > 0 {
            let t = c.drop_last();
            assert forall|k: int| 0 <= k < t.len() implies t[k] < self.vertices@.len() && (
            #[trigger] self.vertices@[t[k] as int]).id != 0 by {
                assert(t[k] == c[k]);
                assert(!self.vertices@[c[k] as int].is_end());
            }
            self.lemma_kept_vertices_all(t);
            assert(self.vertices@[c.last() as int].is_end());
        }
    }

    /// The facets of `order` that `keeps` keeps, in the same order.
    fn select_facets(&self, order: &Vec<usize>, simplicial_only: bool) -> (r: Vec<usize>)
        requires
            forall|k: int| 0 <= k < order@.len() ==> order@[k] < self.facets@.len(),
        ensures
            r@ == self.kept_facets(order@, simplicial_only),
    {
        let mut out: Vec<usize> = Vec::new();
        let mut k: usize = 0;
        while k < order.len()
            invariant
                k <= order@.len(),
                forall|j: int| 0 <= j < order@.len() ==> order@[j] < self.facets@.len(),
                out@ == self.kept_facets(order@.take(k as int), simplicial_only),
            decreases order@.len() - k,
        {
            let i = order[k];
            let f = &self.facets[i];
            proof {
                let t = order@.take(k as int + 1);
                assert(t.drop_last() =~= order@.take(k as int));
                assert(t.last() == i);
                reveal(Seq::filter);
            }
            if f.id != 0 && (!simplicial_only || f.simplicial) {
                out.push(i);
            }
            k = k + 1;
        }
        assert(order@.take(order@.len() as int) =~= order@);
        out
    }

    /// The vertices of `order` but the sentinel, in the same order.
    fn select_vertices(&self, order: &Vec<usize>) -> (r: Vec<usize>)
        requires
            forall|k: int| 0 <= k < order@.len() ==> order@[k] < self.vertices@.len(),
        ensures
            r@ == self.kept_vertices(order@),
    {
        let mut out: Vec<usize> = Vec::new();
        let mut k: usize = 0;
        while k < order.len()
            invariant
                k <= order@.len(),
                forall|j: int| 0 <= j < order@.len() ==> order@[j] < self.vertices@.len(),
                out@ == self.kept_vertices(order@.take(k as int)),
            decreases order@.len() - k,
        {
            let i = order[k];
            proof {
                let t = order@.take(k as int + 1);
                assert(t.drop_last() =~= order@.take(k as int));
                assert(t.last() == i);
                reveal(Seq::filter);
            }
            if self.vertices[i].id != 0 {
                out.push(i);
            }
            k = k + 1;
        }
        assert(order@.take(order@.len() as int) =~= order@);
        out
    }

    /// The facets of the result in list order, without the sentinel.
    pub fn facets(&self) -> (r: Vec<usize>)
        requires
            self.wf(),
        ensures
            r@ == self.kept_facets(self.facet_order(), false),
            r@ == self.facet_order().drop_last(),
    {
        let all = self.all_facets();
        proof {
            self.lemma_facets_but_sentinel();
        }
        self.select_facets(&all, false)
    }

    /// The simplicial facets of the result in list order, without the
    /// sentinel.
    pub fn simplices(&self) -> (r: Vec<usize>)
        requires
            self.wf(),
        ensures
            r@ == self.kept_facets(self.facet_order(), true),
    {
        let all = self.all_facets();
        self.select_facets(&all, true)
    }

    /// The vertices of the result in list order, without the sentinel.
    pub fn vertices(&self) -> (r: Vec<usize>)
        requires
            self.wf(),
        ensures
            r@ == self.kept_vertices(self.vertex_order()),
            r@ == self.vertex_order().drop_last(),
    {
        let all = self.all_vertices();
        proof {
            self.lemma_vertices_but_sentinel();
        }
        self.select_vertices(&all)
    }

    /// The number of facets, sentinel excluded.
    pub fn num_facets(&self) -> (r: usize)
        requires
            self.wf(),
        ensures
            r == self.kept_facets(self.facet_order(), false).len(),
            r + 1 == self.facet_order().len(),
    {
        self.facets().len()
    }

    /// The number of vertices, sentinel excluded.
    pub fn num_vertices(&self) -> (r: usize)
        requires
            self.wf(),
        ensures
            r == self.kept_vertices(self.vertex_order()).len(),
            r + 1 == self.vertex_order().len(),
    {
        self.vertices().len()
    }

    /// A copy of the `dim` coordinates that start at `offset`.
    pub(crate) fn copy_coords(&self, offset: usize) -> (r: Vec<C>)
        where
            C: Copy,
        requires
            offset + self.dim <= self.coords@.len(),
        ensures
            r@ == self.coords@.subrange(offset as int, offset + self.dim),
    {
        let mut out: Vec<C> = Vec::new();
        let mut k: usize = 0;
        let len = self.coords.len();
        while k < self.dim
            invariant
                k <= self.dim,
                len == self.coords@.len(),
                offset + self.dim <= self.coords@.len(),
                out@ == self.coords@.subrange(offset as int, offset + k),
            decreases self.dim - k,
        {
            out.push(self.coords[offset + k]);
            k = k + 1;
            assert(out@ =~= self.coords@.subrange(offset as int, offset + k));
        }
        out
    }

    /// The coordinates of input point `index`; `None` past the last point.
    pub fn point(&self, index: usize) -> (r: Option<Vec<C>>)
        where
            C: Copy,
        requires
            self.wf(),
        ensures
            r is Some <==> index < self.spec_num_points(),
            r matches Some(p) ==> p@ == point_at(self.coords@, self.dim, index as int),
    {
        let n = self.num_points();
        let len = self.coords.len();
        if index >= n {
            return None;
        }
        proof {
            lemma_point_in_buffer(self.coords@.len(), self.dim, index as int);
        }
        Some(self.copy_coords(index * self.dim))
    }
}

/// Whether facet `i` fits the mesh.
fn facet_fits_exec(f: &Face, i: usize, dim: usize, ridges: &Vec<Ridge>) -> (r: bool)
    ensures
        r == facet_fits(*f, i as int, dim, ridges@),
{
    if f.dim != dim || f.num_merge > MAX_NUM_MERGE {
        return false;
    }
    if f.simplicial {
        match &f.vertices {
            None => {
                return false;
            },
            Some(s) => {
                let n = s.size();
                if n != dim {
                    proof {
                        let e = choose|e: Seq<usize>| holds(s.entries@, e);
                        assert(holds(s.entries@, e) && e.len() != dim);
                    }
                    return false;
                }
            },
        }
    }
    match &f.ridges {
        None => true,
        Some(s) => {
            let members = s.iter();
            let mut m: usize = 0;
            while m < members.len()
                invariant
                    m <= members@.len(),
                    holds(s.entries@, members@),
                    f.ridges == Some(*s),
                    forall|j: int|
                        0 <= j < m ==> members@[j] < ridges@.len() && ((
                        #[trigger] ridges@[members@[j] as int]).top == i || ridges@[members@[
                            j] as int].bottom == i),
                decreases members@.len() - m,
            {
                let j = members[m];
                if j >= ridges.len() || (ridges[j].top != i && ridges[j].bottom != i) {
                    proof {
                        assert(members@[m as int] == j);
                        assert(!ridges_of(members@, i as int, ridges@));
                        assert(holds(s.entries@, members@));
                        assert(!(forall|e: Seq<usize>|
                            holds(s.entries@, e) ==> ridges_of(e, i as int, ridges@)));
                    }
                    return false;
                }
                m = m + 1;
            }
            proof {
                assert forall|e: Seq<usize>| holds(s.entries@, e) implies ridges_of(
                    e,
                    i as int,
                    ridges@,
                ) by {
                    lemma_holds_unique(s.entries@, e, members@);
                }
            }
            true
        },
    }
}

/// Whether a vertex fits a mesh of points of dimension `dim` in a buffer of
/// `len` coordinates.
fn vertex_fits_exec(v: &Vertex, len: usize, dim: usize) -> (r: bool)
    requires
        dim > 0,
    ensures
        r == vertex_fits(*v, len as nat, dim),
{
    if v.dim != dim {
        return false;
    }
    match v.point {
        Some(offset) => {
            if offset < len {
                offset % dim == 0
            } else {
                v.id == 0
            }
        },
        None => v.id == 0,
    }
}

/// Point `i` of a buffer of whole points lies inside it.
proof fn lemma_point_in_buffer(len: nat, dim: usize, i: int)
    requires
        dim > 0,
        len % (dim as nat) == 0,
        0 <= i < len as int / dim as int,
    ensures
        i * dim + dim <= len,
{
    assert(i + 1 <= len as int / dim as int);
    assert((i + 1) * dim <= (len as int / dim as int) * dim) by (nonlinear_arith)
        requires
            i + 1 <= len as int / dim as int,
            dim > 0,
    ;
    assert((len as int / dim as int) * dim == len) by (nonlinear_arith)
        requires
            len % (dim as nat) == 0,
            dim > 0,
    ;
    assert((i + 1) * dim == i * dim + dim) by (nonlinear_arith);
}

/// The identifiers of the facets that a set holds; `None` where there is no
/// set.
pub fn dbg_face_set<C>(qh: &Qh<C>, set: Option<&QhSet>) -> (r: Option<Vec<u32>>)
    requires
        set matches Some(s) ==> names_within(Some(*s), qh.facets@.len()),
    ensures
        r is None <==> set is None,
        r matches Some(ids) ==> exists|e: Seq<usize>|
            holds(set->0.entries@, e) && ids@ == e.map_values(|i: usize| qh.facets@[i as int].id),
{
    match set {
        None => None,
        Some(s) => {
            let members = s.iter();
            proof {
                let o = Some(*s);
                assert(o->0 == *s);
                assert forall|j: int| 0 <= j < members@.len() implies members@[j]
                    < qh.facets@.len() by {
                    assert((members@[j] as int) < qh.facets@.len() as int);
                }
            }
            let mut ids: Vec<u32> = Vec::new();
            let mut k: usize = 0;
            while k < members.len()
                invariant
                    k <= members@.len(),
                    holds(s.entries@, members@),
                    forall|j: int| 0 <= j < members@.len() ==> members@[j] < qh.facets@.len(),
                    ids@ =~= members@.take(k as int).map_values(
                        |i: usize| qh.facets@[i as int].id,
                    ),
                decreases members@.len() - k,
            {
                assert(s.entries@[k as int] == Some(members@[k as int]));
                ids.push(qh.facets[members[k]].id);
                k = k + 1;
                assert(ids@ =~= members@.take(k as int).map_values(
                    |i: usize| qh.facets@[i as int].id,
                ));
            }
            assert(members@.take(members@.len() as int) =~= members@);
            Some(ids)
        },
    }
}

/// The identifiers of the facets at the given indices.
pub open spec fn facet_ids<C>(qh: Qh<C>, order: Seq<usize>) -> Seq<u32> {
    order.map_values(|i: usize| qh.facets@[i as int].id)
}

/// Walking the facet list forward from its head and backward from its tail
/// meets the same facets in reverse order, and so their identifiers in
/// reverse order.
pub proof fn lemma_facets_backward_is_reverse<C>(qh: Qh<C>, fwd: Seq<usize>, bwd: Seq<usize>)
    requires
        qh.wf(),
        is_walk(qh.facets@, qh.facet_head, true, fwd),
        is_walk(qh.facets@, qh.facet_tail, false, bwd),
    ensures
        bwd == fwd.reverse(),
        facet_ids(qh, bwd) == facet_ids(qh, fwd).reverse(),
{
    let c = qh.facet_order();
    lemma_walk_unique(qh.facets@, qh.facet_head, true, c, fwd);
    lemma_walk_unique(qh.facets@, qh.facet_tail, false, c.reverse(), bwd);
    assert(facet_ids(qh, bwd) =~= facet_ids(qh, fwd).reverse());
}

/// Every vertex of the mesh but the sentinel has an index, and looking up
/// that index and then the point at it gives back the vertex's own
/// coordinates.
pub proof fn lemma_vertex_index_round_trip<C>(qh: Qh<C>, k: int)
    requires
        qh.wf(),
        0 <= k < qh.vertices@.len(),
        qh.vertices@[k].id != 0,
    ensures
        ({
            let v = qh.vertices@[k];
            let i = index_of(v, qh)->0 as int;
            &&& index_of(v, qh) is Some
            &&& i < qh.spec_num_points()
            &&& v.point->0 + qh.dim <= qh.coords@.len()
            &&& point_at(qh.coords@, qh.dim, i) == qh.coords@.subrange(
                v.point->0 as int,
                v.point->0 + qh.dim,
            )
        }),
{
    let v = qh.vertices@[k];
    let off = v.point->0 as int;
    let d = qh.dim as int;
    let len = qh.coords@.len() as int;
    let i = off / d;
    assert(vertex_fits(v, qh.coords@.len(), qh.dim));
    assert(off % d == 0);
    assert(i * d == off) by (nonlinear_arith)
        requires
            d > 0,
            off % d == 0,
            i == off / d,
    ;
    assert(i < len / d) by (nonlinear_arith)
        requires
            d > 0,
            len % d == 0,
            i * d == off,
            off < len,
    ;
    lemma_point_in_buffer(qh.coords@.len(), qh.dim, i);
}

/// Where the buffer was collected from input points, every vertex of the
/// mesh but the sentinel has an index, and that input point is the
/// vertex's coordinates exactly.
pub proof fn lemma_collected_round_trip<C>(qh: Qh<C>, k: int, points: Seq<Vec<C>>)
    requires
        qh.wf(),
        0 <= k < qh.vertices@.len(),
        qh.vertices@[k].id != 0,
        uniform(points, qh.dim as nat),
        qh.coords@ == flat(points),
    ensures
        ({
            let v = qh.vertices@[k];
            let i = index_of(v, qh)->0 as int;
            &&& index_of(v, qh) is Some
            &&& i < points.len()
            &&& points[i]@ == qh.coords@.subrange(v.point->0 as int, v.point->0 + qh.dim)
        }),
{
    let v = qh.vertices@[k];
    let i = index_of(v, qh)->0 as int;
    lemma_vertex_index_round_trip(qh, k);
    lemma_flat_len(points, qh.dim as nat);
    assert(i < points.len()) by (nonlinear_arith)
        requires
            i < qh.spec_num_points(),
            qh.spec_num_points() == qh.coords@.len() as int / qh.dim as int,
            qh.coords@.len() == points.len() * qh.dim,
            qh.dim > 0,
    ;
    lemma_flat_point(points, qh.dim as nat, i);
}

} // verus!
