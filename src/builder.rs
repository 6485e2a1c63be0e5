//! Configuration of a computation, the check of its input, and the order of
//! the calls that build it.
use vstd::prelude::*;

use crate::options::{Flag, IntOption};

verus! {

/// An option of the computation, set on the library's context before the
/// points are attached.
#[derive(Clone, Copy, Debug, PartialEq, Eq, Structural)]
pub enum Setting {
    /// A boolean option and its value.
    Flag(Flag, bool),
    /// An integer option and its value.
    Int(IntOption, i32),
}

/// One call that building a computation makes, in the order of `steps`.
#[derive(Clone, Copy, Debug, PartialEq, Eq, Structural)]
pub enum BuildStep {
    /// Initialise the context with its output streams.
    Init,
    /// Apply one setting.
    Configure(Setting),
    /// Attach the point buffer.
    AttachPoints,
    /// Compute the hull.
    Compute,
    /// Check the structure of the result.
    CheckOutput,
    /// Check that every point lies inside the result.
    CheckPoints,
}

/// Why an input cannot be handed to the library.
#[derive(Clone, Copy, Debug, PartialEq, Eq, Structural)]
pub enum InputError {
    /// The dimension of the data differs from the hint given to the builder.
    DimensionMismatch { hint: usize, dim: usize },
    /// The dimension is 0.
    ZeroDimension,
    /// There are no coordinates, and so no points.
    EmptyInput,
    /// The number of coordinates is not a multiple of the dimension.
    RaggedCoordinates { len: usize, dim: usize },
}

/// The step at which a build stopped: its place in `steps`, the step, and
/// the non-zero status it reported.
#[derive(Clone, Copy, Debug, PartialEq, Eq, Structural)]
pub struct BuildFailure {
    pub index: usize,
    pub step: BuildStep,
    pub code: i32,
}

/// Settings of a computation, gathered before it is built.
#[derive(Clone, Debug)]
pub struct QhBuilder {
    pub dim: Option<usize>,
    pub capture_stdout: bool,
    pub capture_stderr: bool,
    pub compute: bool,
    pub check_output: bool,
    pub check_points: bool,
    pub configs: Vec<Setting>,
}

/// The one step `x` where `on` holds, else no step.
pub open spec fn step_if(on: bool, x: BuildStep) -> Seq<BuildStep> {
    if on {
        seq![x]
    } else {
        Seq::empty()
    }
}

/// The calls that building with `b` makes: initialise, apply the settings
/// in the order they were given, attach the points, then compute and run
/// the checks asked for; the checks only where the hull is computed.
pub open spec fn plan(b: QhBuilder) -> Seq<BuildStep> {
    seq![BuildStep::Init] + b.configs@.map_values(|s: Setting| BuildStep::Configure(s)) + seq![
        BuildStep::AttachPoints,
    ] + if b.compute {
        seq![BuildStep::Compute] + step_if(b.check_output, BuildStep::CheckOutput) + step_if(
            b.check_points,
            BuildStep::CheckPoints,
        )
    } else {
        Seq::empty()
    }
}

/// What is wrong with `len` coordinates of dimension `dim` for builder `b`,
/// in the order in which it is checked; `None` where nothing is.
pub open spec fn input_fault(b: QhBuilder, dim: usize, len: usize) -> Option<InputError> {
    if b.dim matches Some(h) && h != dim {
        Some(InputError::DimensionMismatch { hint: b.dim->0, dim })
    } else if dim == 0 {
        Some(InputError::ZeroDimension)
    } else if len == 0 {
        Some(InputError::EmptyInput)
    } else if len % dim != 0 {
        Some(InputError::RaggedCoordinates { len, dim })
    } else {
        None
    }
}

impl Default for QhBuilder {
    /// No dimension hint, stdout not captured, stderr captured, the hull
    /// computed, no checks, no settings.
    fn default() -> (r: Self)
        ensures
            r.dim is None,
            !r.capture_stdout,
            r.capture_stderr,
            r.compute,
            !r.check_output,
            !r.check_points,
            r.configs@.len() == 0,
    {
        QhBuilder {
            dim: None,
            capture_stdout: false,
            capture_stderr: true,
            compute: true,
            check_output: false,
            check_points: false,
            configs: Vec::new(),
        }
    }
}

impl QhBuilder {
    /// Sets a dimension hint, which the data must then match.
    pub fn dim(self, dim: usize) -> (r: Self)
        requires
            dim > 0,
        ensures
            r == (QhBuilder { dim: Some(dim), ..self }),
    {
        QhBuilder { dim: Some(dim), ..self }
    }

    /// Whether the library's standard output is captured.
    pub fn capture_stdout(self, capture: bool) -> (r: Self)
        ensures
            r == (QhBuilder { capture_stdout: capture, ..self }),
    {
        QhBuilder { capture_stdout: capture, ..self }
    }

    /// Whether the library's error output is captured.
    pub fn capture_stderr(self, capture: bool) -> (r: Self)
        ensures
            r == (QhBuilder { capture_stderr: capture, ..self }),
    {
        QhBuilder { capture_stderr: capture, ..self }
    }

    /// Whether building also computes the hull.
    pub fn compute(self, compute: bool) -> (r: Self)
        ensures
            r == (QhBuilder { compute, ..self }),
    {
        QhBuilder { compute, ..self }
    }

    /// Whether the result's structure is checked after the hull is computed.
    pub fn check_output(self, check: bool) -> (r: Self)
        ensures
            r == (QhBuilder { check_output: check, ..self }),
    {
        QhBuilder { check_output: check, ..self }
    }

    /// Whether the points are checked against the result after the hull is
    /// computed.
    pub fn check_points(self, check: bool) -> (r: Self)
        ensures
            r == (QhBuilder { check_points: check, ..self }),
    {
        QhBuilder { check_points: check, ..self }
    }

    /// Adds a setting, applied after those added before it.
    pub fn with_configure(self, setting: Setting) -> (r: Self)
        ensures
            r.configs@ == self.configs@.push(setting),
            r.dim == self.dim && r.capture_stdout == self.capture_stdout,
            r.capture_stderr == self.capture_stderr && r.compute == self.compute,
            r.check_output == self.check_output && r.check_points == self.check_points,
    {
        let mut b = self;
        b.configs.push(setting);
        b
    }

    /// Sets a boolean option.
    pub fn flag(self, flag: Flag, on: bool) -> (r: Self)
        ensures
            r.configs@ == self.configs@.push(Setting::Flag(flag, on)),
            r.dim == self.dim && r.capture_stdout == self.capture_stdout,
            r.capture_stderr == self.capture_stderr && r.compute == self.compute,
            r.check_output == self.check_output && r.check_points == self.check_points,
    {
        self.with_configure(Setting::Flag(flag, on))
    }

    /// Sets an integer option.
    pub fn int_option(self, option: IntOption, value: i32) -> (r: Self)
        ensures
            r.configs@ == self.configs@.push(Setting::Int(option, value)),
            r.dim == self.dim && r.capture_stdout == self.capture_stdout,
            r.capture_stderr == self.capture_stderr && r.compute == self.compute,
            r.check_output == self.check_output && r.check_points == self.check_points,
    {
        self.with_configure(Setting::Int(option, value))
    }

    /// Compute a Delaunay triangulation.
    pub fn delaunay(self, on: bool) -> (r: Self)
        ensures
            r.configs@ == self.configs@.push(Setting::Flag(Flag::Delaunay, on)),
            r.dim == self.dim && r.capture_stdout == self.capture_stdout,
            r.capture_stderr == self.capture_stderr && r.compute == self.compute,
            r.check_output == self.check_output && r.check_points == self.check_points,
    {
        self.with_configure(Setting::Flag(Flag::Delaunay, on))
    }

    /// Keep the upper Delaunay facets.
    pub fn upper_delaunay(self, on: bool) -> (r: Self)
        ensures
            r.configs@ == self.configs@.push(Setting::Flag(Flag::UpperDelaunay, on)),
            r.dim == self.dim && r.capture_stdout == self.capture_stdout,
            r.capture_stderr == self.capture_stderr && r.compute == self.compute,
            r.check_output == self.check_output && r.check_points == self.check_points,
    {
        self.with_configure(Setting::Flag(Flag::UpperDelaunay, on))
    }

    /// Scale the last coordinate.
    pub fn scale_last(self, on: bool) -> (r: Self)
        ensures
            r.configs@ == self.configs@.push(Setting::Flag(Flag::ScaleLast, on)),
            r.dim == self.dim && r.capture_stdout == self.capture_stdout,
            r.capture_stderr == self.capture_stderr && r.compute == self.compute,
            r.check_output == self.check_output && r.check_points == self.check_points,
    {
        self.with_configure(Setting::Flag(Flag::ScaleLast, on))
    }

    /// Triangulate non-simplicial facets.
    pub fn triangulate(self, on: bool) -> (r: Self)
        ensures
            r.configs@ == self.configs@.push(Setting::Flag(Flag::Triangulate, on)),
            r.dim == self.dim && r.capture_stdout == self.capture_stdout,
            r.capture_stderr == self.capture_stderr && r.compute == self.compute,
            r.check_output == self.check_output && r.check_points == self.check_points,
    {
        self.with_configure(Setting::Flag(Flag::Triangulate, on))
    }

    /// Keep coplanar points with their nearest facet.
    pub fn keep_coplanar(self, on: bool) -> (r: Self)
        ensures
            r.configs@ == self.configs@.push(Setting::Flag(Flag::KeepCoplanar, on)),
            r.dim == self.dim && r.capture_stdout == self.capture_stdout,
            r.capture_stderr == self.capture_stderr && r.compute == self.compute,
            r.check_output == self.check_output && r.check_points == self.check_points,
    {
        self.with_configure(Setting::Flag(Flag::KeepCoplanar, on))
    }

    /// The configuration of a Delaunay triangulation of lifted points: the
    /// default one with Delaunay, upper Delaunay, scaling of the last
    /// coordinate, triangulation and coplanar points switched on, in that
    /// order.
    pub fn delaunay_preset() -> (r: Self)
        ensures
            r.configs@ == seq![
                Setting::Flag(Flag::Delaunay, true),
                Setting::Flag(Flag::UpperDelaunay, true),
                Setting::Flag(Flag::ScaleLast, true),
                Setting::Flag(Flag::Triangulate, true),
                Setting::Flag(Flag::KeepCoplanar, true),
            ],
            r.dim is None,
            !r.capture_stdout,
            r.capture_stderr,
            r.compute,
            !r.check_output,
            !r.check_points,
    {
        let r = QhBuilder::default().delaunay(true).upper_delaunay(true).scale_last(true).triangulate(
            true,
        ).keep_coplanar(true);
        assert(r.configs@ =~= seq![
            Setting::Flag(Flag::Delaunay, true),
            Setting::Flag(Flag::UpperDelaunay, true),
            Setting::Flag(Flag::ScaleLast, true),
            Setting::Flag(Flag::Triangulate, true),
            Setting::Flag(Flag::KeepCoplanar, true),
        ]);
        r
    }

    /// Checks `len` coordinates of dimension `dim` against this builder
    /// before anything is handed to the library, and gives the number of
    /// points, which is never 0.
    pub fn check_input(&self, dim: usize, len: usize) -> (r: Result<usize, InputError>)
        ensures
            r == match input_fault(*self, dim, len) {
                Some(e) => Err::<usize, InputError>(e),
                None => Ok::<usize, InputError>(len / dim),
            },
            (self.dim matches Some(h) && h != dim) ==> r == Err::<usize, InputError>(
                InputError::DimensionMismatch { hint: self.dim->0, dim },
            ),
            (self.dim is None || self.dim == Some(dim)) ==> {
                &&& dim == 0 ==> r == Err::<usize, InputError>(InputError::ZeroDimension)
                &&& (dim > 0 && len == 0) ==> r == Err::<usize, InputError>(InputError::EmptyInput)
                &&& (dim > 0 && len > 0 && len % dim != 0) ==> r == Err::<usize, InputError>(
                    InputError::RaggedCoordinates { len, dim },
                )
                &&& (dim > 0 && len > 0 && len % dim == 0) ==> r == Ok::<usize, InputError>(
                    len / dim,
                )
            },
    {
        match self.dim {
            Some(hint) => {
                if hint != dim {
                    return Err(InputError::DimensionMismatch { hint, dim });
                }
            },
            None => {},
        }
        if dim == 0 {
            return Err(InputError::ZeroDimension);
        }
        if len == 0 {
            return Err(InputError::EmptyInput);
        }
        if len % dim != 0 {
            return Err(InputError::RaggedCoordinates { len, dim });
        }
        Ok(len / dim)
    }

    /// The calls that building with this configuration makes on `len`
    /// coordinates of dimension `dim`; none at all, and the error instead,
    /// where the input fails its check.
    pub fn plan_build(&self, dim: usize, len: usize) -> (r: Result<Vec<BuildStep>, InputError>)
        ensures
            input_fault(*self, dim, len) matches Some(e) ==> r == Err::<Vec<BuildStep>, InputError>(
                e,
            ),
            input_fault(*self, dim, len) is None ==> (r matches Ok(v) && v@ == plan(*self)),
    {
        match self.check_input(dim, len) {
            Err(e) => Err(e),
            Ok(_) => Ok(self.steps()),
        }
    }

    /// How a build ends, given the status that each step of `steps` reports
    /// when it runs (0 for success). The build runs the steps in order and
    /// stops at the first that fails, so no later step runs and the
    /// statuses after it do not matter.
    pub fn build_outcome(&self, statuses: &Vec<i32>) -> (r: Result<(), BuildFailure>)
        requires
            statuses@.len() == plan(*self).len(),
        ensures
            r is Ok <==> forall|k: int| 0 <= k < statuses@.len() ==> statuses@[k] == 0,
            r matches Err(f) ==> {
                &&& f.index < statuses@.len()
                &&& f.step == plan(*self)[f.index as int]
                &&& f.code == statuses@[f.index as int]
                &&& f.code != 0
                &&& forall|j: int| 0 <= j < f.index ==> statuses@[j] == 0
            },
    {
        let steps = self.steps();
        let mut k: usize = 0;
        while k < statuses.len()
            invariant
                k <= statuses@.len(),
                steps@ == plan(*self),
                statuses@.len() == steps@.len(),
                forall|j: int| 0 <= j < k ==> statuses@[j] == 0,
            decreases statuses@.len() - k,
        {
            if statuses[k] != 0 {
                return Err(BuildFailure { index: k, step: steps[k], code: statuses[k] });
            }
            k = k + 1;
        }
        Ok(())
    }

    /// The calls that building with this configuration makes, in order.
    pub fn steps(&self) -> (r: Vec<BuildStep>)
        ensures
            r@ == plan(*self),
    {
        let mut out: Vec<BuildStep> = Vec::new();
        out.push(BuildStep::Init);
        let mut k: usize = 0;
        while k < self.configs.len()
            invariant
                k <= self.configs@.len(),
                out@ == seq![BuildStep::Init] + self.configs@.take(k as int).map_values(
                    |s: Setting| BuildStep::Configure(s),
                ),
            decreases self.configs@.len() - k,
        {
            out.push(BuildStep::Configure(self.configs[k]));
            k = k + 1;
            assert(out@ =~= seq![BuildStep::Init] + self.configs@.take(k as int).map_values(
                |s: Setting| BuildStep::Configure(s),
            ));
        }
        assert(self.configs@.take(k as int) =~= self.configs@);
        out.push(BuildStep::AttachPoints);
        let ghost base = out@;
        if self.compute {
            out.push(BuildStep::Compute);
            if self.check_output {
                out.push(BuildStep::CheckOutput);
            }
            if self.check_points {
                out.push(BuildStep::CheckPoints);
            }
        }
        assert(out@ =~= plan(*self));
        out
    }
}

/// A dimension hint that the data does not match is the first thing the
/// input check finds, whatever the length of the data: the build then
/// fails before any of its steps, so before any call into the library.
pub proof fn lemma_hint_mismatch_fails_first(b: QhBuilder, dim: usize, len: usize)
    requires
        b.dim matches Some(h) && h != dim,
    ensures
        input_fault(b, dim, len) == Some(InputError::DimensionMismatch { hint: b.dim->0, dim }),
{
}

} // verus!
