use meles::error::{
    Cause, ConfigError, Error, Failure, FieldError, RuntimeError, Stage, TopologyError,
};
use meles::shell::{InsertMode, LocalVector, MatOperation, ShellStep};

#[test]
fn stages_have_names() {
    assert_eq!(Stage::RestrictionBuild.text(), "restriction build");
    assert_eq!(Stage::BasisBuild.text(), "basis build");
    assert_eq!(Stage::SetupPass.text(), "setup pass");
    assert_eq!(Stage::Apply.text(), "apply");
    assert_eq!(Stage::Diagonal.text(), "diagonal");
}

#[test]
fn causes_have_texts() {
    assert_eq!(
        Cause::Config(ConfigError::UnknownProblem).text(),
        "failed to parse problem option"
    );
    assert_eq!(Cause::Config(ConfigError::InvalidBasis).text(), "no basis has these orders");
    assert_eq!(Cause::Config(ConfigError::TooLarge).text(), "the sizes exceed the machine word");
    assert_eq!(
        Cause::Config(ConfigError::LocalSizeMismatch).text(),
        "a local vector does not fit its restriction"
    );
    assert_eq!(
        Cause::Topology(TopologyError::InconsistentClosure).text(),
        "the closure of a cell does not fit the field"
    );
    assert_eq!(
        Cause::Topology(TopologyError::OffsetOutOfRange).text(),
        "a node lies outside the local vector"
    );
    assert_eq!(
        Cause::Topology(TopologyError::MissingBoundaryLabel).text(),
        "the mesh has no boundary label"
    );
    assert_eq!(
        Cause::Field(FieldError::FieldSizeMismatch).text(),
        "the fields of the operator disagree in size"
    );
    assert_eq!(
        Cause::Runtime(RuntimeError::NotAttached).text(),
        "the shell is not attached to a solver"
    );
    assert_eq!(Cause::Runtime(RuntimeError::Busy).text(), "the shell is busy");
    assert_eq!(
        Cause::Runtime(RuntimeError::OutOfOrder).text(),
        "the shell is not in a state for this"
    );
}

#[test]
fn failed_steps_have_texts() {
    let scatter =
        ShellStep::GlobalToLocal { target: LocalVector::Input, mode: InsertMode::InsertValues };
    let apply = ShellStep::ApplyOperator { input: LocalVector::Input, output: LocalVector::Output };
    let diagonal = ShellStep::AssembleDiagonal { target: LocalVector::Input };
    let gather =
        ShellStep::LocalToGlobal { source: LocalVector::Output, mode: InsertMode::AddValues };
    assert_eq!(ShellStep::SetupPass.text(), "the quadrature data could not be computed");
    assert_eq!(
        Cause::Runtime(RuntimeError::SetupFailed).text(),
        "the quadrature data could not be computed"
    );
    assert_eq!(scatter.text(), "the scatter into the local vector failed");
    assert_eq!(apply.text(), "the operator could not be applied");
    assert_eq!(diagonal.text(), "the diagonal could not be assembled");
    assert_eq!(ShellStep::ZeroGlobal.text(), "the global vector could not be cleared");
    assert_eq!(gather.text(), "the gather into the global vector failed");
    assert_eq!(
        Cause::Runtime(RuntimeError::StepFailed { op: MatOperation::Mult, step: apply }).text(),
        "the operator could not be applied"
    );
}

#[test]
fn message_names_stage_and_cause() {
    let e = Error::from_failure(Failure {
        stage: Stage::RestrictionBuild,
        cause: Cause::Topology(TopologyError::InconsistentClosure),
    });
    assert_eq!(e.message, "restriction build: the closure of a cell does not fit the field");
    assert_eq!(e.to_string(), "restriction build: the closure of a cell does not fit the field");
    let e = Error::from_failure(Failure {
        stage: Stage::Diagonal,
        cause: Cause::Runtime(RuntimeError::StepFailed {
            op: MatOperation::GetDiagonal,
            step: ShellStep::ZeroGlobal,
        }),
    });
    assert_eq!(e.message, "diagonal: the global vector could not be cleared");
}

#[test]
fn unknown_problem_keeps_its_message() {
    let e = Error::from_config(ConfigError::UnknownProblem);
    assert_eq!(e.message, "failed to parse problem option");
    assert_eq!(e, Error { message: "failed to parse problem option".to_string() });
}
