use qhull::{dbg_face_set, Face, Linked, MeshError, Qh, QhSet, Ridge, Vertex};

fn set(entries: Vec<Option<usize>>) -> Option<QhSet> {
    let maxsize = entries.len() as i32;
    QhSet::maybe_new(Some(entries), maxsize)
}

fn face(id: u32, previous: Option<usize>, next: Option<usize>, verts: [usize; 2]) -> Face {
    Face {
        id,
        dim: 2,
        previous,
        next,
        simplicial: true,
        vertices: set(vec![Some(verts[0]), Some(verts[1]), None]),
        ..Default::default()
    }
}

fn vertex(id: u32, previous: Option<usize>, next: Option<usize>, point: Option<usize>) -> Vertex {
    Vertex {
        id,
        dim: 2,
        previous,
        next,
        point,
        ..Default::default()
    }
}

// The hull of the unit square with the interior point (0.5, 0.5): four
// edges and the sentinel, stored out of list order. The list runs through
// the arena indices 2, 0, 3, 1 and ends at the sentinel 4.
fn square_facets() -> Vec<Face> {
    vec![
        face(2, Some(2), Some(3), [1, 2]),
        face(4, Some(3), Some(4), [3, 0]),
        face(1, None, Some(0), [0, 1]),
        face(3, Some(0), Some(1), [2, 3]),
        Face {
            id: 0,
            dim: 2,
            previous: Some(1),
            next: None,
            ..Default::default()
        },
    ]
}

// Vertices of the corners (1, 0), (0, 0), (0, 1), (1, 1) in list order, then
// the sentinel.
fn square_vertices() -> Vec<Vertex> {
    vec![
        vertex(1, None, Some(1), Some(2)),
        vertex(2, Some(0), Some(2), Some(0)),
        vertex(3, Some(1), Some(3), Some(6)),
        vertex(4, Some(2), Some(4), Some(4)),
        vertex(0, Some(3), None, None),
    ]
}

fn square_coords() -> Vec<f64> {
    vec![0.0, 0.0, 1.0, 0.0, 1.0, 1.0, 0.0, 1.0, 0.5, 0.5]
}

fn square_hull() -> Qh<f64> {
    Qh::new(
        2,
        square_coords(),
        square_facets(),
        Some(2),
        Some(4),
        square_vertices(),
        Some(0),
        Some(4),
        vec![],
    )
    .unwrap()
}

fn with_facets(facets: Vec<Face>, ridges: Vec<Ridge>) -> Result<Qh<f64>, MeshError> {
    Qh::new(
        2,
        square_coords(),
        facets,
        Some(2),
        Some(4),
        square_vertices(),
        Some(0),
        Some(4),
        ridges,
    )
}

fn with_vertices(vertices: Vec<Vertex>) -> Result<Qh<f64>, MeshError> {
    Qh::new(
        2,
        square_coords(),
        square_facets(),
        Some(2),
        Some(4),
        vertices,
        Some(0),
        Some(4),
        vec![],
    )
}

#[test]
fn square_hull_has_four_facets() {
    let qh = square_hull();
    assert_eq!(qh.num_facets(), 4);
    assert_eq!(qh.num_facets() + 1, qh.all_facets().len());
    assert_eq!(qh.facets(), vec![2, 0, 3, 1]);
    assert_eq!(qh.num_facets(), qh.facets().len());
}

#[test]
fn all_facets_include_the_sentinel_last() {
    let qh = square_hull();
    let all = qh.all_facets();
    assert_eq!(all, vec![2, 0, 3, 1, 4]);
    assert!(qh.face(*all.last().unwrap()).is_sentinel());
}

#[test]
fn facets_backward_are_forward_reversed() {
    let qh = square_hull();
    let forward: Vec<u32> = qh.all_facets().iter().map(|&i| qh.face(i).id()).collect();
    let backward: Vec<u32> = qh.all_facets_rev().iter().map(|&i| qh.face(i).id()).collect();
    assert_eq!(forward, vec![1, 2, 3, 4, 0]);
    let mut reversed = forward.clone();
    reversed.reverse();
    assert_eq!(backward, reversed);
}

#[test]
fn vertices_skip_the_sentinel() {
    let qh = square_hull();
    assert_eq!(qh.all_vertices(), vec![0, 1, 2, 3, 4]);
    assert_eq!(qh.all_vertices_rev(), vec![4, 3, 2, 1, 0]);
    assert_eq!(qh.vertices(), vec![0, 1, 2, 3]);
    assert_eq!(qh.num_vertices(), 4);
}

#[test]
fn simplices_leave_out_non_simplicial_facets() {
    let mut facets = square_facets();
    facets[3].simplicial = false;
    let qh = Qh::new(
        2,
        square_coords(),
        facets,
        Some(2),
        Some(4),
        square_vertices(),
        Some(0),
        Some(4),
        vec![],
    )
    .unwrap();
    assert_eq!(qh.simplices(), vec![2, 0, 1]);
    assert_eq!(square_hull().simplices(), vec![2, 0, 3, 1]);
}

#[test]
fn vertex_index_then_point_gives_its_coordinates() {
    let qh = square_hull();
    let expected = [vec![1.0, 0.0], vec![0.0, 0.0], vec![0.0, 1.0], vec![1.0, 1.0]];
    for (k, &i) in qh.vertices().iter().enumerate() {
        let v = qh.vertex(i);
        let index = v.index(&qh).unwrap();
        assert_eq!(qh.point(index), v.point(&qh));
        assert_eq!(qh.point(index).unwrap(), expected[k]);
    }
    assert_eq!(qh.vertex(0).index(&qh), Some(1));
    assert_eq!(qh.vertex(0).index_unchecked(&qh), 1);
}

#[test]
fn vertex_index_none_for_sentinel_and_outside_points() {
    let qh = square_hull();
    assert_eq!(qh.vertex(4).index(&qh), None);
    assert!(qh.vertex(4).is_sentinel());
    let far = vertex(9, None, None, Some(100));
    assert_eq!(far.index(&qh), None);
    assert_eq!(far.point(&qh), None);
    let bare = vertex(9, None, None, None);
    assert_eq!(bare.index(&qh), None);
    assert_eq!(qh.point(5), None);
    assert_eq!(qh.point(4), Some(vec![0.5, 0.5]));
    assert_eq!(qh.num_points(), 5);
}

#[test]
fn new_rejects_zero_dimension_and_ragged_coordinates() {
    let r = Qh::new(0, square_coords(), vec![], None, None, vec![], None, None, vec![]);
    assert_eq!(r.unwrap_err(), MeshError::ZeroDimension);
    let r = Qh::new(3, square_coords(), vec![], None, None, vec![], None, None, vec![]);
    assert_eq!(r.unwrap_err(), MeshError::RaggedCoordinates);
}

#[test]
fn new_rejects_a_cycle_in_the_facet_list() {
    let mut facets = square_facets();
    facets[1].next = Some(2);
    let r = Qh::new(
        2,
        square_coords(),
        facets,
        Some(2),
        Some(4),
        square_vertices(),
        Some(0),
        Some(4),
        vec![],
    );
    assert_eq!(r.unwrap_err(), MeshError::BrokenFacetList);
}

#[test]
fn new_rejects_inconsistent_backward_links() {
    let mut vertices = square_vertices();
    vertices[2].previous = Some(0);
    let r = Qh::new(
        2,
        square_coords(),
        square_facets(),
        Some(2),
        Some(4),
        vertices,
        Some(0),
        Some(4),
        vec![],
    );
    assert_eq!(r.unwrap_err(), MeshError::BrokenVertexList);
}

#[test]
fn new_rejects_a_misaligned_point() {
    let mut vertices = square_vertices();
    vertices[1].point = Some(3);
    let r = Qh::new(
        2,
        square_coords(),
        square_facets(),
        Some(2),
        Some(4),
        vertices,
        Some(0),
        Some(4),
        vec![],
    );
    assert_eq!(r.unwrap_err(), MeshError::BadVertex);
}

#[test]
fn empty_lists_are_rejected() {
    let r: Result<Qh<f64>, MeshError> =
        Qh::new(2, vec![], vec![], None, None, vec![], None, None, vec![]);
    assert_eq!(r.unwrap_err(), MeshError::BrokenFacetList);
    let r = Qh::new(2, square_coords(), square_facets(), Some(2), Some(4), vec![], None, None, vec![]);
    assert_eq!(r.unwrap_err(), MeshError::BrokenVertexList);
}

#[test]
fn new_rejects_repeated_ids() {
    let mut facets = square_facets();
    facets[0].id = 3;
    assert_eq!(with_facets(facets, vec![]).unwrap_err(), MeshError::BrokenFacetList);
    let mut vertices = square_vertices();
    vertices[3].id = 1;
    assert_eq!(with_vertices(vertices).unwrap_err(), MeshError::BrokenVertexList);
}

#[test]
fn new_rejects_sets_naming_missing_elements() {
    let mut facets = square_facets();
    facets[1].neighbors = set(vec![Some(0), Some(5), None]);
    assert_eq!(with_facets(facets, vec![]).unwrap_err(), MeshError::BadSet);
    let mut facets = square_facets();
    facets[1].neighbors = set(vec![Some(0), None, Some(5)]);
    assert!(with_facets(facets, vec![]).is_ok());
    let mut facets = square_facets();
    facets[1].vertices = set(vec![Some(3), Some(7), None]);
    assert_eq!(with_facets(facets, vec![]).unwrap_err(), MeshError::BadSet);
    let mut vertices = square_vertices();
    vertices[0].neighbors = set(vec![Some(9), None]);
    assert_eq!(with_vertices(vertices).unwrap_err(), MeshError::BadSet);
    let ridge = Ridge {
        id: 1,
        dim: 1,
        top: 2,
        bottom: 0,
        vertices: set(vec![Some(6), None]),
        ..Default::default()
    };
    assert_eq!(with_facets(square_facets(), vec![ridge]).unwrap_err(), MeshError::BadSet);
}

#[test]
fn face_sets_and_neighbour_ids() {
    let mut facets = square_facets();
    facets[0].neighbors = set(vec![Some(2), Some(3), None]);
    let qh = Qh::new(
        2,
        square_coords(),
        facets,
        Some(2),
        Some(4),
        square_vertices(),
        Some(0),
        Some(4),
        vec![],
    )
    .unwrap();
    let f = qh.face(0);
    assert_eq!(dbg_face_set(&qh, f.neighbors()), Some(vec![1, 3]));
    assert_eq!(dbg_face_set(&qh, f.ridges()), None);
    assert_eq!(f.vertices().unwrap().iter(), vec![1, 2]);
    assert_eq!(Linked::next(f), Some(3));
    assert_eq!(Linked::previous(f), Some(2));
}

#[test]
fn face_of_dimension_zero_has_no_ridges() {
    let f = Face {
        id: 5,
        dim: 0,
        ridges: set(vec![Some(0), None]),
        ..Default::default()
    };
    assert!(f.ridges().is_none());
    let g = Face {
        id: 5,
        dim: 3,
        ridges: set(vec![Some(0), None]),
        ..Default::default()
    };
    assert_eq!(g.ridges().unwrap().iter(), vec![0]);
}

#[test]
fn face_flags_and_merge_bound() {
    let f = Face {
        id: 7,
        upper_delaunay: true,
        num_merge: 3,
        ..Default::default()
    };
    assert!(f.upper_delaunay());
    assert!(!f.simplicial());
    assert!(!f.is_sentinel());
    assert_eq!(f.num_merge(), 3);
    assert_eq!(Face::max_num_merge(), 511);
}

#[test]
fn ridge_names_its_two_facets() {
    let r = Ridge {
        id: 11,
        dim: 1,
        top: 2,
        bottom: 0,
        vertices: set(vec![Some(1), None]),
        simplicial_top: true,
        ..Default::default()
    };
    assert_eq!(r.top(), 2);
    assert_eq!(r.bottom(), 0);
    assert_eq!(r.id(), 11);
    assert!(r.simplicial_top());
    assert!(!r.simplicial_bottom());
    assert_eq!(r.vertices().unwrap().iter(), vec![1]);
}

#[test]
fn new_rejects_a_sentinel_that_is_not_last() {
    let mut facets = square_facets();
    facets[0].id = 0;
    assert_eq!(with_facets(facets, vec![]).unwrap_err(), MeshError::BrokenFacetList);
    let mut facets = square_facets();
    facets[4].id = 9;
    assert_eq!(with_facets(facets, vec![]).unwrap_err(), MeshError::BrokenFacetList);
    let mut vertices = square_vertices();
    vertices[4].id = 5;
    assert_eq!(with_vertices(vertices).unwrap_err(), MeshError::BrokenVertexList);
}

#[test]
fn new_rejects_facets_that_do_not_fit() {
    let mut facets = square_facets();
    facets[2].dim = 3;
    assert_eq!(with_facets(facets, vec![]).unwrap_err(), MeshError::BadFacet);
    let mut facets = square_facets();
    facets[2].num_merge = 512;
    assert_eq!(with_facets(facets, vec![]).unwrap_err(), MeshError::BadFacet);
    let mut facets = square_facets();
    facets[2].num_merge = 511;
    assert!(with_facets(facets, vec![]).is_ok());
    let mut facets = square_facets();
    facets[2].vertices = set(vec![Some(0), None, Some(1)]);
    assert_eq!(with_facets(facets, vec![]).unwrap_err(), MeshError::BadFacet);
    let mut facets = square_facets();
    facets[2].vertices = None;
    assert_eq!(with_facets(facets, vec![]).unwrap_err(), MeshError::BadFacet);
}

#[test]
fn new_checks_that_a_facet_lies_on_its_ridges() {
    let ridge = Ridge {
        id: 1,
        dim: 1,
        top: 2,
        bottom: 0,
        ..Default::default()
    };
    let mut facets = square_facets();
    facets[2].ridges = set(vec![Some(0), None]);
    facets[0].ridges = set(vec![Some(0), None]);
    assert!(with_facets(facets.clone(), vec![ridge.clone()]).is_ok());
    facets[3].ridges = set(vec![Some(0), None]);
    assert_eq!(with_facets(facets, vec![ridge.clone()]).unwrap_err(), MeshError::BadFacet);
    let mut facets = square_facets();
    facets[2].ridges = set(vec![Some(1), None]);
    assert_eq!(with_facets(facets, vec![ridge]).unwrap_err(), MeshError::BadFacet);
}

#[test]
fn new_rejects_ridges_that_do_not_join_two_facets() {
    let same = Ridge {
        id: 1,
        top: 1,
        bottom: 1,
        ..Default::default()
    };
    assert_eq!(with_facets(square_facets(), vec![same]).unwrap_err(), MeshError::BadRidge);
    let outside = Ridge {
        id: 1,
        top: 1,
        bottom: 5,
        ..Default::default()
    };
    assert_eq!(with_facets(square_facets(), vec![outside]).unwrap_err(), MeshError::BadRidge);
}

#[test]
fn new_rejects_vertices_that_do_not_fit() {
    let mut vertices = square_vertices();
    vertices[2].dim = 3;
    assert_eq!(with_vertices(vertices).unwrap_err(), MeshError::BadVertex);
    let mut vertices = square_vertices();
    vertices[2].point = Some(10);
    assert_eq!(with_vertices(vertices).unwrap_err(), MeshError::BadVertex);
    let mut vertices = square_vertices();
    vertices[2].point = None;
    assert_eq!(with_vertices(vertices).unwrap_err(), MeshError::BadVertex);
}
