//! The errors of the library, by the phase in which they arise.
use crate::shell::{MatOperation, ShellStep};
use vstd::prelude::*;
use vstd::string::StringExecFns;

verus! {

/// A configuration that is rejected before anything is built.
#[derive(Clone, Copy, Debug, PartialEq, Eq, Structural)]
pub enum ConfigError {
    /// The problem identifier names none of the benchmark problems.
    UnknownProblem,
    /// There is no basis with the dimension, components, nodes and
    /// quadrature points asked for.
    InvalidBasis,
    /// A count that the configuration asks for does not fit the machine's
    /// word.
    TooLarge,
    /// A local vector has another length than the restriction that is to
    /// read or fill it.
    LocalSizeMismatch,
}

/// A mesh that does not fit the discretization asked of it.
#[derive(Clone, Copy, Debug, PartialEq, Eq, Structural)]
pub enum TopologyError {
    /// What the cells list does not fit the field: the closure of a cell does
    /// not hold one run of consecutive indices, one index for each component,
    /// for each node that the field has on a cell; or a restriction does not
    /// have the nodes and the components that are asked of it.
    InconsistentClosure,
    /// A node of a cell lies outside the local vector.
    OffsetOutOfRange,
    /// Boundary conditions are to be enforced and the mesh has no label that
    /// marks its boundary.
    MissingBoundaryLabel,
}

/// A composition of fields that makes no operator.
#[derive(Clone, Copy, Debug, PartialEq, Eq, Structural)]
pub enum FieldError {
    /// Two fields disagree on the number of elements or on the number of
    /// quadrature points of an element.
    FieldSizeMismatch,
}

/// An operation of a shell that has no result.
#[derive(Clone, Copy, Debug, PartialEq, Eq, Structural)]
pub enum RuntimeError {
    /// The quadrature data could not be computed.
    SetupFailed,
    /// A step of the operation failed.
    StepFailed { op: MatOperation, step: ShellStep },
    /// An operation was asked of a shell that is not in the hands of a
    /// solver.
    NotAttached,
    /// Something was asked of a shell while the setup pass or an operation
    /// is under way.
    Busy,
    /// The event has no place in the life of the shell as it stands.
    OutOfOrder,
}

/// The part of the work in which something went wrong.
#[derive(Clone, Copy, Debug, PartialEq, Eq, Structural)]
pub enum Stage {
    /// Building a restriction.
    RestrictionBuild,
    /// Building a basis.
    BasisBuild,
    /// Computing the quadrature data.
    SetupPass,
    /// Composing or applying the operator.
    Apply,
    /// Assembling the diagonal of the operator.
    Diagonal,
}

/// What went wrong.
#[derive(Clone, Copy, Debug, PartialEq, Eq, Structural)]
pub enum Cause {
    Config(ConfigError),
    Topology(TopologyError),
    Field(FieldError),
    Runtime(RuntimeError),
}

/// Where something went wrong, and what.
#[derive(Clone, Copy, Debug, PartialEq, Eq, Structural)]
pub struct Failure {
    pub stage: Stage,
    pub cause: Cause,
}

impl Stage {
    /// The name of the stage in a message.
    pub open spec fn spec_text(self) -> Seq<char> {
        match self {
            Stage::RestrictionBuild => "restriction build"@,
            Stage::BasisBuild => "basis build"@,
            Stage::SetupPass => "setup pass"@,
            Stage::Apply => "apply"@,
            Stage::Diagonal => "diagonal"@,
        }
    }

    /// The name of the stage in a message.
    pub fn text(self) -> (s: &'static str)
        ensures
            s@ == self.spec_text(),
    {
        match self {
            Stage::RestrictionBuild => "restriction build",
            Stage::BasisBuild => "basis build",
            Stage::SetupPass => "setup pass",
            Stage::Apply => "apply",
            Stage::Diagonal => "diagonal",
        }
    }
}

impl ShellStep {
    /// What is said of the step when it fails.
    pub open spec fn spec_text(self) -> Seq<char> {
        match self {
            ShellStep::SetupPass => "the quadrature data could not be computed"@,
            ShellStep::GlobalToLocal { .. } => "the scatter into the local vector failed"@,
            ShellStep::ApplyOperator { .. } => "the operator could not be applied"@,
            ShellStep::AssembleDiagonal { .. } => "the diagonal could not be assembled"@,
            ShellStep::ZeroGlobal => "the global vector could not be cleared"@,
            ShellStep::LocalToGlobal { .. } => "the gather into the global vector failed"@,
        }
    }

    /// What is said of the step when it fails.
    pub fn text(self) -> (s: &'static str)
        ensures
            s@ == self.spec_text(),
    {
        match self {
            ShellStep::SetupPass => "the quadrature data could not be computed",
            ShellStep::GlobalToLocal { .. } => "the scatter into the local vector failed",
            ShellStep::ApplyOperator { .. } => "the operator could not be applied",
            ShellStep::AssembleDiagonal { .. } => "the diagonal could not be assembled",
            ShellStep::ZeroGlobal => "the global vector could not be cleared",
            ShellStep::LocalToGlobal { .. } => "the gather into the global vector failed",
        }
    }
}

impl Cause {
    /// What went wrong, in a message.
    pub open spec fn spec_text(self) -> Seq<char> {
        match self {
            Cause::Config(ConfigError::UnknownProblem) => "failed to parse problem option"@,
            Cause::Config(ConfigError::InvalidBasis) => "no basis has these orders"@,
            Cause::Config(ConfigError::TooLarge) => "the sizes exceed the machine word"@,
            Cause::Config(ConfigError::LocalSizeMismatch) =>
                "a local vector does not fit its restriction"@,
            Cause::Topology(TopologyError::InconsistentClosure) =>
                "the closure of a cell does not fit the field"@,
            Cause::Topology(TopologyError::OffsetOutOfRange) =>
                "a node lies outside the local vector"@,
            Cause::Topology(TopologyError::MissingBoundaryLabel) =>
                "the mesh has no boundary label"@,
            Cause::Field(FieldError::FieldSizeMismatch) =>
                "the fields of the operator disagree in size"@,
            Cause::Runtime(RuntimeError::SetupFailed) => ShellStep::SetupPass.spec_text(),
            Cause::Runtime(RuntimeError::StepFailed { op, step }) => step.spec_text(),
            Cause::Runtime(RuntimeError::NotAttached) => "the shell is not attached to a solver"@,
            Cause::Runtime(RuntimeError::Busy) => "the shell is busy"@,
            Cause::Runtime(RuntimeError::OutOfOrder) => "the shell is not in a state for this"@,
        }
    }

    /// What went wrong, in a message.
    pub fn text(self) -> (s: &'static str)
        ensures
            s@ == self.spec_text(),
    {
        match self {
            Cause::Config(e) => match e {
                ConfigError::UnknownProblem => "failed to parse problem option",
                ConfigError::InvalidBasis => "no basis has these orders",
                ConfigError::TooLarge => "the sizes exceed the machine word",
                ConfigError::LocalSizeMismatch => "a local vector does not fit its restriction",
            },
            Cause::Topology(e) => match e {
                TopologyError::InconsistentClosure =>
                    "the closure of a cell does not fit the field",
                TopologyError::OffsetOutOfRange => "a node lies outside the local vector",
                TopologyError::MissingBoundaryLabel => "the mesh has no boundary label",
            },
            Cause::Field(e) => match e {
                FieldError::FieldSizeMismatch => "the fields of the operator disagree in size",
            },
            Cause::Runtime(e) => match e {
                RuntimeError::SetupFailed => ShellStep::SetupPass.text(),
                RuntimeError::StepFailed { op, step } => step.text(),
                RuntimeError::NotAttached => "the shell is not attached to a solver",
                RuntimeError::Busy => "the shell is busy",
                RuntimeError::OutOfOrder => "the shell is not in a state for this",
            },
        }
    }
}

impl Failure {
    /// The message of the failure: the stage, a colon and a space, and what
    /// went wrong.
    pub open spec fn spec_message(self) -> Seq<char> {
        self.stage.spec_text() + ": "@ + self.cause.spec_text()
    }
}

/// An error as the user sees it: a message.
#[derive(Clone, Debug, PartialEq, Eq)]
pub struct Error {
    pub message: String,
}

impl Error {
    /// The error of a failure, with its message.
    pub fn from_failure(failure: Failure) -> (e: Error)
        ensures
            e.message@ == failure.spec_message(),
    {
        let mut message = failure.stage.text().to_owned();
        message.append(": ");
        message.append(failure.cause.text());
        Error { message }
    }

    /// The error of a configuration that is rejected, with the message of
    /// its cause.
    pub fn from_config(e: ConfigError) -> (r: Error)
        ensures
            r.message@ == Cause::Config(e).spec_text(),
    {
        Error { message: Cause::Config(e).text().to_owned() }
    }

    /// The message.
    pub fn to_string(&self) -> (s: String)
        ensures
            s@ == self.message@,
    {
        self.message.clone()
    }
}

} // verus!
