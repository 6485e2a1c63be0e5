//! Options of the library's context, each named after the field it sets.
use vstd::prelude::*;

verus! {

/// A boolean option of the library's context; the text after each name is
/// the library's own description of the field it sets.
#[derive(Clone, Copy, Debug, PartialEq, Eq, Structural, Hash)]
pub enum Flag {
    /// `ALLpoints`: true 'Qs' if search all points for initial simplex
    AllPoints,
    /// `ALLOWshort`: true 'Qa' allow input with fewer or more points than coordinates
    AllowShort,
    /// `ALLOWwarning`: true 'Qw' if allow option warnings
    AllowWarning,
    /// `ALLOWwide`: true 'Q12' if allow wide facets and wide dupridges, c.f. qh_WIDEmaxoutside
    AllowWide,
    /// `ANGLEmerge`: true 'Q1' if sort potential merges by type/angle instead of type/distance
    AngleMerge,
    /// `APPROXhull`: true 'Wn' if MINoutside set
    ApproxHull,
    /// `ANNOTATEoutput`: true 'Ta' if annotate output with message codes
    AnnotateOutput,
    /// `ATinfinity`: true 'Qz' if point num_points-1 is "at-infinity" for improving precision in Delaunay triangulations
    AtInfinity,
    /// `AVOIDold`: true 'Q4' if avoid old->new merges
    AvoidOld,
    /// `BESToutside`: true 'Qf' if partition points into best outsideset
    BestOutside,
    /// `CDDinput`: true 'Pc' if input uses CDD format (1.0/offset first)
    CddInput,
    /// `CDDoutput`: true 'PC' if print normals in CDD format (offset first)
    CddOutput,
    /// `CHECKduplicates`: true 'Q15' if qh_maybe_duplicateridges after each qh_mergefacet
    CheckDuplicates,
    /// `CHECKfrequently`: true 'Tc' if checking frequently
    CheckFrequently,
    /// `DELAUNAY`: true 'd' or 'v' if computing DELAUNAY triangulation
    Delaunay,
    /// `DOintersections`: true 'Gh' if print hyperplane intersections
    DoIntersections,
    /// `FLUSHprint`: true 'Tf' if flush after qh_fprintf for segfaults
    FlushPrint,
    /// `FORCEoutput`: true 'Po' if forcing output despite degeneracies
    ForceOutput,
    /// `GOODthreshold`: true 'Pd/PD' if qh.lower_threshold/upper_threshold defined set if qh.UPPERdelaunay (qh_initbuild) false if qh.SPLITthreshold
    GoodThreshold,
    /// `HALFspace`: true 'Hn,n,n' if halfspace intersection
    HalfSpace,
    /// `KEEPcoplanar`: true 'Qc' if keeping nearest facet for coplanar points
    KeepCoplanar,
    /// `KEEPinside`: true 'Qi' if keeping nearest facet for inside points set automatically if 'd Qc'
    KeepInside,
    /// `MERGEexact`: true 'Qx' if exact merges (concave, degen, dupridge, flipped) tested by qh_checkzero and qh_test_*_merge
    MergeExact,
    /// `MERGEindependent`: true if merging independent sets of coplanar facets. 'Q2' disables
    MergeIndependent,
    /// `MERGING`: true if exact-, pre- or post-merging, with angle and centrum tests
    Merging,
    /// `MERGEpinched`: true 'Q14' if merging pinched vertices due to dupridge
    MergePinched,
    /// `MERGEvertices`: true if merging redundant vertices, 'Q3' disables or qh.hull_dim > qh_DIMmergeVertex
    MergeVertices,
    /// `NOnarrow`: true 'Q10' if no special processing for narrow distributions
    NoNarrow,
    /// `NOnearinside`: true 'Q8' if ignore near-inside points when partitioning, qh_check_points may fail
    NoNearInside,
    /// `NOpremerge`: true 'Q0' if no defaults for C-0 or Qx
    NoPremerge,
    /// `ONLYgood`: true 'Qg' if process points with good visible or horizon facets
    OnlyGood,
    /// `ONLYmax`: true 'Qm' if only process points that increase max_outside
    OnlyMax,
    /// `PICKfurthest`: true 'Q9' if process furthest of furthest points
    PickFurthest,
    /// `POSTmerge`: true if merging after buildhull ('Cn' or 'An')
    PostMerge,
    /// `PREmerge`: true if merging during buildhull ('C-n' or 'A-n')
    PreMerge,
    /// `PRINTcentrums`: true 'Gc' if printing centrums
    PrintCentrums,
    /// `PRINTcoplanar`: true 'Gp' if printing coplanar points
    PrintCoplanar,
    /// `PRINTdots`: true 'Ga' if printing all points as dots
    PrintDots,
    /// `PRINTgood`: true 'Pg' if printing good facets PGood set if 'd', 'PAn', 'PFn', 'PMn', 'QGn', 'QG-n', 'QVn', or 'QV-n'
    PrintGood,
    /// `PRINTinner`: true 'Gi' if printing inner planes
    PrintInner,
    /// `PRINTneighbors`: true 'PG' if printing neighbors of good facets
    PrintNeighbors,
    /// `PRINTnoplanes`: true 'Gn' if printing no planes
    PrintNoPlanes,
    /// `PRINToptions1st`: true 'FO' if printing options to stderr
    PrintOptions1st,
    /// `PRINTouter`: true 'Go' if printing outer planes
    PrintOuter,
    /// `PRINTprecision`: false 'Pp' if not reporting precision problems
    PrintPrecision,
    /// `PRINTridges`: true 'Gr' if print ridges
    PrintRidges,
    /// `PRINTspheres`: true 'Gv' if print vertices as spheres
    PrintSpheres,
    /// `PRINTstatistics`: true 'Ts' if printing statistics to stderr
    PrintStatistics,
    /// `PRINTsummary`: true 's' if printing summary to stderr
    PrintSummary,
    /// `PRINTtransparent`: true 'Gt' if print transparent outer ridges
    PrintTransparent,
    /// `PROJECTdelaunay`: true if DELAUNAY, no readpoints() and need projectinput() for Delaunay in qh_init_B
    ProjectDelaunay,
    /// `RANDOMdist`: true 'Rn' if randomly change distplane and setfacetplane
    RandomDist,
    /// `SCALEinput`: true 'Qbk' if scaling input
    ScaleInput,
    /// `SCALElast`: true 'Qbb' if scale last coord to max prev coord
    ScaleLast,
    /// `SETroundoff`: true 'En' if qh.DISTround is predefined
    SetRoundoff,
    /// `SKIPcheckmax`: true 'Q5' if skip qh_check_maxout, qh_check_points may fail
    SkipCheckMax,
    /// `SKIPconvex`: true 'Q6' if skip convexity testing during pre-merge
    SkipConvex,
    /// `SPLITthresholds`: true 'Pd/PD' if upper_/lower_threshold defines a region else qh.GOODthresholds set if qh.DELAUNAY (qh_initbuild) used only for printing (!for qh.ONLYgood)
    SplitThresholds,
    /// `TESTvneighbors`: true 'Qv' if test vertex neighbors at end
    TestVNeighbors,
    /// `TRIangulate`: true 'Qt' if triangulate non-simplicial facets
    Triangulate,
    /// `TRInormals`: true 'Q11' if triangulate duplicates ->normal and ->center (sets Qt)
    TriNormals,
    /// `UPPERdelaunay`: true 'Qu' if computing furthest-site Delaunay
    UpperDelaunay,
    /// `USEstdout`: true 'Tz' if using stdout instead of stderr
    UseStdout,
    /// `VERIFYoutput`: true 'Tv' if verify output at end of qhull
    VerifyOutput,
    /// `VIRTUALmemory`: true 'Q7' if depth-first processing in buildhull
    VirtualMemory,
    /// `VORONOI`: true 'v' if computing Voronoi diagram, also sets qh.DELAUNAY
    Voronoi,
    /// `DOcheckmax`: true if calling qh_check_maxout (!qh.SKIPcheckmax && qh.MERGING)
    DoCheckMax,
    /// `GETarea`: true 'Fa', 'FA', 'FS', 'PAn', 'PFn' if compute facet area/Voronoi volume in io_r.c
    GetArea,
    /// `KEEPnearinside`: true if near-inside points in coplanarset
    KeepNearInside,
    /// `POINTSmalloc`: true if qh.first_point/num_points allocated
    PointsMalloc,
    /// `input_malloc`: true if qh.input_points malloc'd
    InputMalloc,
    /// `VERTEXneighbors`: true if maintaining vertex neighbors
    VertexNeighbors,
    /// `ZEROcentrum`: true if 'C-0' or 'C-0 Qx' and not post-merging or 'A-n'. Sets ZEROall_ok
    ZeroCentrum,
    /// `NARROWhull`: set in qh_initialhull if angle < qh_MAXnarrow
    NarrowHull,
}

/// An integer option of the library's context; the text after each name is
/// the library's own description of the field it sets.
#[derive(Clone, Copy, Debug, PartialEq, Eq, Structural, Hash)]
pub enum IntOption {
    /// `DROPdim`: drops dim 'GDn' for 4-d -> 3-d output
    DropDim,
    /// `GOODpoint`: 'QGn' or 'QG-n' (n+1, n-1), good facet if visible from point n (or not)
    GoodPoint,
    /// `GOODvertex`: 'QVn' or 'QV-n' (n+1, n-1), good facet if vertex for point n (or not)
    GoodVertex,
    /// `IStracing`: 'Tn' trace execution, 0=none, 1=least, 4=most, -1=events
    IsTracing,
    /// `KEEParea`: 'PAn' number of largest facets to keep
    KeepArea,
    /// `KEEPmerge`: 'PMn' number of facets to keep with most merges
    KeepMerge,
    /// `MAXwide`: 'QWn' max ratio for wide facet, otherwise error unless Q12-allow-wide
    MaxWide,
    /// `PRINTdim`: print dimension for Geomview output
    PrintDim,
    /// `PROJECTinput`: number of projected dimensions 'bn:0Bn:0'
    ProjectInput,
    /// `REPORTfreq`: TFn' buildtracing reports every n facets
    ReportFreq,
    /// `REPORTfreq2`: tracemerging reports every REPORTfreq/2 facets
    ReportFreq2,
    /// `RERUN`: TRn' rerun qhull n times (qh.build_cnt)
    Rerun,
    /// `ROTATErandom`: QRn' n<-1 random seed, n==-1 time is seed, n==0 random rotation by time, n>0 rotate input
    RotateRandom,
    /// `STOPadd`: 'TAn' 1+n for stop after adding n vertices
    StopAdd,
    /// `STOPcone`: 'TCn' 1+n for stopping after cone for point n also used by qh_build_withresart for err exi
    StopClone,
    /// `STOPpoint`: 'TVn' 'TV-n' 1+n for stopping after/before(-) adding point n
    StopPoint,
    /// `TESTpoints`: 'QTn' num of test points after qh.num_points. Test points always coplanar.
    TestPoint,
    /// `TRACElevel`: 'Tn' conditional IStracing level
    TraceLevel,
    /// `TRACElastrun`: qh.TRACElevel applies to last qh.RERUN
    TraceLastRun,
    /// `TRACEpoint`: 'TPn' start tracing when point n is a vertex, use qh_IDunknown (-1) after qh_buildhull and qh_postmerge
    TracePoint,
    /// `TRACEmerge`: 'TMn' start tracing before this merge
    TraceMerge,
    /// `num_points`: number of input points
    NumPoints,
    /// `qhull_commandsiz2`: size of qhull_command at qh_clear_outputflags
    QhullCommandSize2,
    /// `qhull_optionlen`: length of last line
    QhullOptionLen,
    /// `qhull_optionsiz`: size of qhull_options at qh_build_withrestart
    QhullOptionSize,
    /// `qhull_optionsiz2`: size of qhull_options at qh_clear_outputflags
    QhullOptionSize2,
    /// `run_id`: non-zero, random identifier for this instance of qhull
    RunId,
}

} // verus!
