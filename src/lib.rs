//! A verified view of a convex-hull computation: the configuration of the
//! computation and the check of its input, the facet and vertex lists of the
//! resulting mesh and their traversal, sets of mesh elements, the lookup of
//! a vertex's input point, the outcome of a fallible call, and the capture
//! of the library's text output.
pub mod builder;
pub mod coords;
pub mod error;
pub mod face;
pub mod hull;
pub mod io_buffers;
pub mod list;
pub mod options;
pub mod ridge;
pub mod set;
pub mod tmp_file;
pub mod vertex;

pub use builder::{BuildFailure, BuildStep, InputError, QhBuilder, Setting};
pub use coords::{collect_coords, CollectedCoords};
pub use error::{QhError, QhErrorKind};
pub use face::Face;
pub use hull::{dbg_face_set, MeshError, Qh};
pub use io_buffers::{IOBuffers, Stream};
pub use list::Linked;
pub use options::{Flag, IntOption};
pub use ridge::Ridge;
pub use set::QhSet;
pub use tmp_file::TmpFile;
pub use vertex::Vertex;
