//! The operator as a solver sees it.
//!
//! A solver knows the operator as a shell that it can ask for two things:
//! the action of the operator on a global vector, and the diagonal of the
//! operator. Each is a short sequence of steps on the vectors of the caller:
//! bring the argument into a local vector, evaluate, clear the global result
//! and accumulate the local result into it. The shell says which step comes
//! next; the caller performs it and says how it went.
use crate::error::{RuntimeError, Stage};
use vstd::prelude::*;

verus! {

/// How values that arrive at an entry of a vector combine with what is there.
#[derive(Clone, Copy, Debug, PartialEq, Eq, Structural)]
pub enum InsertMode {
    /// They replace it.
    InsertValues,
    /// They are added to it.
    AddValues,
}

/// The two local vectors that a shell works on.
#[derive(Clone, Copy, Debug, PartialEq, Eq, Structural)]
pub enum LocalVector {
    /// The vector that the operator reads.
    Input,
    /// The vector that the operator fills.
    Output,
}

/// What a solver asks of a shell.
#[derive(Clone, Copy, Debug, PartialEq, Eq, Structural)]
pub enum MatOperation {
    /// The action of the operator on a vector.
    Mult,
    /// The diagonal of the operator.
    GetDiagonal,
}

/// One step in the life of a shell.
#[derive(Clone, Copy, Debug, PartialEq, Eq, Structural)]
pub enum ShellStep {
    /// Apply the setup operator to the coordinates of the mesh and fill the
    /// quadrature data.
    SetupPass,
    /// Scatter the global argument into a local vector.
    GlobalToLocal { target: LocalVector, mode: InsertMode },
    /// Apply the operator to one local vector and fill the other.
    ApplyOperator { input: LocalVector, output: LocalVector },
    /// Assemble the diagonal of the operator in a local vector.
    AssembleDiagonal { target: LocalVector },
    /// Set every entry of the global result to zero.
    ZeroGlobal,
    /// Gather a local vector into the global result.
    LocalToGlobal { source: LocalVector, mode: InsertMode },
}

/// The steps of an operation, in order.
///
/// The action of the operator scatters its argument into the input vector,
/// applies the operator from the input to the output vector, and gathers the
/// output vector. The diagonal has no argument to scatter: it is assembled in
/// the input vector and gathered from there.
pub open spec fn spec_steps(op: MatOperation) -> Seq<ShellStep> {
    match op {
        MatOperation::Mult => seq![
            ShellStep::GlobalToLocal { target: LocalVector::Input, mode: InsertMode::InsertValues },
            ShellStep::ApplyOperator { input: LocalVector::Input, output: LocalVector::Output },
            ShellStep::ZeroGlobal,
            ShellStep::LocalToGlobal { source: LocalVector::Output, mode: InsertMode::AddValues },
        ],
        MatOperation::GetDiagonal => seq![
            ShellStep::AssembleDiagonal { target: LocalVector::Input },
            ShellStep::ZeroGlobal,
            ShellStep::LocalToGlobal { source: LocalVector::Input, mode: InsertMode::AddValues },
        ],
    }
}

/// The life of a shell.
#[derive(Clone, Copy, Debug, PartialEq, Eq, Structural)]
pub enum ShellState {
    /// The quadrature data are not built.
    Unconfigured,
    /// The quadrature data are being computed.
    Configuring,
    /// Restrictions, bases and quadrature data are built.
    Configured,
    /// The shell is in the hands of a solver, and no operation is under way.
    Attached,
    /// An operation is under way: the steps before `step` are done, and step
    /// `step` is being performed.
    Running { op: MatOperation, step: usize },
    /// The shell has been taken from the solver for good.
    Detached,
}

/// What happens to a shell.
#[derive(Clone, Copy, Debug, PartialEq, Eq, Structural)]
pub enum ShellEvent {
    /// The quadrature data are to be computed.
    Configure,
    /// The shell is given to a solver.
    Attach,
    /// The solver asks for an operation.
    Begin(MatOperation),
    /// The step that was asked for has been performed.
    StepDone,
    /// The step that was asked for has failed.
    StepFailed,
    /// The shell is taken from the solver.
    Detach,
}

/// What the caller is to do next.
#[derive(Clone, Copy, Debug, PartialEq, Eq, Structural)]
pub enum ShellAction {
    /// Nothing: the event has been taken note of.
    Proceed,
    /// Perform this step and report how it went.
    Perform(ShellStep),
    /// Hand the global result to the solver: the operation is complete.
    Finish,
    /// Report this error: the event is refused, or the operation is given up
    /// and has no result.
    Fail(RuntimeError),
}

/// The state of a shell after an event, and what the caller is to do.
///
/// A shell is configured once, attached once and detached once, in this
/// order; it cannot be configured anew. To configure it is to compute the
/// quadrature data; if that fails, the shell is unconfigured as before. An
/// attached shell runs one operation at a time, step after step. A step that
/// fails ends the operation, which then has no result, and leaves the shell
/// attached. An event that does not fit the state is refused and changes
/// nothing.
pub open spec fn spec_next(state: ShellState, event: ShellEvent) -> (ShellState, ShellAction) {
    match (state, event) {
        (ShellState::Unconfigured, ShellEvent::Configure) => (
            ShellState::Configuring,
            ShellAction::Perform(ShellStep::SetupPass),
        ),
        (ShellState::Configuring, ShellEvent::StepDone) => (
            ShellState::Configured,
            ShellAction::Proceed,
        ),
        (ShellState::Configuring, ShellEvent::StepFailed) => (
            ShellState::Unconfigured,
            ShellAction::Fail(RuntimeError::SetupFailed),
        ),
        (ShellState::Configuring, _) => (state, ShellAction::Fail(RuntimeError::Busy)),
        (ShellState::Configured, ShellEvent::Attach) => (ShellState::Attached, ShellAction::Proceed),
        (ShellState::Configured, ShellEvent::Detach) => (ShellState::Detached, ShellAction::Proceed),
        (ShellState::Attached, ShellEvent::Detach) => (ShellState::Detached, ShellAction::Proceed),
        (ShellState::Attached, ShellEvent::Begin(op)) => (
            ShellState::Running { op, step: 0 },
            ShellAction::Perform(spec_steps(op)[0]),
        ),
        (ShellState::Running { op, step }, ShellEvent::StepDone) => if step + 1 < spec_steps(
            op,
        ).len() {
            (
                ShellState::Running { op, step: (step + 1) as usize },
                ShellAction::Perform(spec_steps(op)[step + 1]),
            )
        } else {
            (ShellState::Attached, ShellAction::Finish)
        },
        (ShellState::Running { op, step }, ShellEvent::StepFailed) => (
            ShellState::Attached,
            ShellAction::Fail(RuntimeError::StepFailed { op, step: spec_step_at(op, step) }),
        ),
        (ShellState::Running { .. }, _) => (state, ShellAction::Fail(RuntimeError::Busy)),
        (_, ShellEvent::Begin(_)) => (state, ShellAction::Fail(RuntimeError::NotAttached)),
        _ => (state, ShellAction::Fail(RuntimeError::OutOfOrder)),
    }
}

/// The step that is being performed when `step` steps of `op` are done. A
/// shell never runs past the last step; should a state say so, the last step
/// stands for it.
pub open spec fn spec_step_at(op: MatOperation, step: usize) -> ShellStep {
    if step < spec_steps(op).len() {
        spec_steps(op)[step as int]
    } else {
        spec_steps(op).last()
    }
}

/// Whether a state can be reached: an operation under way is at one of its
/// steps.
pub open spec fn state_valid(state: ShellState) -> bool {
    state matches ShellState::Running { op, step } ==> step < spec_steps(op).len()
}

/// The number of steps of an operation.
pub fn num_steps(op: MatOperation) -> (n: usize)
    ensures
        n == spec_steps(op).len(),
        n >= 1,
{
    match op {
        MatOperation::Mult => 4,
        MatOperation::GetDiagonal => 3,
    }
}

/// A step of an operation; past the last step, the last step.
pub fn step_of(op: MatOperation, step: usize) -> (s: ShellStep)
    ensures
        s == spec_step_at(op, step),
{
    match op {
        MatOperation::Mult => if step == 0 {
            ShellStep::GlobalToLocal { target: LocalVector::Input, mode: InsertMode::InsertValues }
        } else if step == 1 {
            ShellStep::ApplyOperator { input: LocalVector::Input, output: LocalVector::Output }
        } else if step == 2 {
            ShellStep::ZeroGlobal
        } else {
            ShellStep::LocalToGlobal { source: LocalVector::Output, mode: InsertMode::AddValues }
        },
        MatOperation::GetDiagonal => if step == 0 {
            ShellStep::AssembleDiagonal { target: LocalVector::Input }
        } else if step == 1 {
            ShellStep::ZeroGlobal
        } else {
            ShellStep::LocalToGlobal { source: LocalVector::Input, mode: InsertMode::AddValues }
        },
    }
}

/// The steps of an operation, in order.
pub fn steps(op: MatOperation) -> (v: Vec<ShellStep>)
    ensures
        v@ == spec_steps(op),
{
    let n = num_steps(op);
    let mut v: Vec<ShellStep> = Vec::new();
    let mut i: usize = 0;
    while i < n
        invariant
            i <= n,
            n == spec_steps(op).len(),
            v@.len() == i,
            forall|k: int| 0 <= k < i ==> v@[k] == spec_steps(op)[k],
        decreases n - i,
    {
        v.push(step_of(op, i));
        i += 1;
    }
    assert(v@ =~= spec_steps(op));
    v
}

/// Takes an event: gives the state of the shell after it and what the caller
/// is to do.
pub fn next(state: ShellState, event: ShellEvent) -> (r: (ShellState, ShellAction))
    ensures
        r == spec_next(state, event),
        state_valid(state) ==> state_valid(r.0),
{
    match state {
        ShellState::Unconfigured => match event {
            ShellEvent::Configure => (
                ShellState::Configuring,
                ShellAction::Perform(ShellStep::SetupPass),
            ),
            ShellEvent::Begin(_) => (state, ShellAction::Fail(RuntimeError::NotAttached)),
            _ => (state, ShellAction::Fail(RuntimeError::OutOfOrder)),
        },
        ShellState::Configuring => match event {
            ShellEvent::StepDone => (ShellState::Configured, ShellAction::Proceed),
            ShellEvent::StepFailed => (
                ShellState::Unconfigured,
                ShellAction::Fail(RuntimeError::SetupFailed),
            ),
            _ => (state, ShellAction::Fail(RuntimeError::Busy)),
        },
        ShellState::Configured => match event {
            ShellEvent::Attach => (ShellState::Attached, ShellAction::Proceed),
            ShellEvent::Detach => (ShellState::Detached, ShellAction::Proceed),
            ShellEvent::Begin(_) => (state, ShellAction::Fail(RuntimeError::NotAttached)),
            _ => (state, ShellAction::Fail(RuntimeError::OutOfOrder)),
        },
        ShellState::Attached => match event {
            ShellEvent::Detach => (ShellState::Detached, ShellAction::Proceed),
            ShellEvent::Begin(op) => (
                ShellState::Running { op, step: 0 },
                ShellAction::Perform(step_of(op, 0)),
            ),
            _ => (state, ShellAction::Fail(RuntimeError::OutOfOrder)),
        },
        ShellState::Running { op, step } => match event {
            ShellEvent::StepDone => {
                let n = num_steps(op);
                if step < n - 1 {
                    (
                        ShellState::Running { op, step: step + 1 },
                        ShellAction::Perform(step_of(op, step + 1)),
                    )
                } else {
                    (ShellState::Attached, ShellAction::Finish)
                }
            },
            ShellEvent::StepFailed => (
                ShellState::Attached,
                ShellAction::Fail(RuntimeError::StepFailed { op, step: step_of(op, step) }),
            ),
            _ => (state, ShellAction::Fail(RuntimeError::Busy)),
        },
        ShellState::Detached => match event {
            ShellEvent::Begin(_) => (state, ShellAction::Fail(RuntimeError::NotAttached)),
            _ => (state, ShellAction::Fail(RuntimeError::OutOfOrder)),
        },
    }
}

impl MatOperation {
    /// The stage to which a failure of the operation belongs.
    pub open spec fn spec_stage(self) -> Stage {
        match self {
            MatOperation::Mult => Stage::Apply,
            MatOperation::GetDiagonal => Stage::Diagonal,
        }
    }

    /// The stage to which a failure of the operation belongs.
    pub fn stage(self) -> (stage: Stage)
        ensures
            stage == self.spec_stage(),
    {
        match self {
            MatOperation::Mult => Stage::Apply,
            MatOperation::GetDiagonal => Stage::Diagonal,
        }
    }
}

/// The state of an attached shell and what the caller is to do after an
/// operation has begun and `done` of its steps have been performed.
pub open spec fn spec_after(op: MatOperation, done: nat) -> (ShellState, ShellAction)
    decreases done,
{
    if done == 0 {
        spec_next(ShellState::Attached, ShellEvent::Begin(op))
    } else {
        spec_next(spec_after(op, (done - 1) as nat).0, ShellEvent::StepDone)
    }
}

/// An operation whose steps succeed asks for its steps one after the other,
/// in order, and after the last leaves the shell attached with the result
/// complete.
pub proof fn lemma_operation_runs(op: MatOperation, done: nat)
    requires
        done <= spec_steps(op).len(),
    ensures
        done < spec_steps(op).len() ==> spec_after(op, done) == (
            ShellState::Running { op, step: done as usize },
            ShellAction::Perform(spec_steps(op)[done as int]),
        ),
        done == spec_steps(op).len() ==> spec_after(op, done) == (
            ShellState::Attached,
            ShellAction::Finish,
        ),
    decreases done,
{
    if done > 0 {
        lemma_operation_runs(op, (done - 1) as nat);
    }
}

/// A step that fails at any point of an operation ends the operation with
/// the error of that step and leaves the shell attached, ready for another
/// operation.
pub proof fn lemma_operation_fails(op: MatOperation, done: nat)
    requires
        done < spec_steps(op).len(),
    ensures
        spec_next(spec_after(op, done).0, ShellEvent::StepFailed) == (
            ShellState::Attached,
            ShellAction::Fail(RuntimeError::StepFailed { op, step: spec_steps(op)[done as int] }),
        ),
{
    lemma_operation_runs(op, done);
}

/// While an operation is under way no other begins: the shell refuses and
/// stays as it is.
pub proof fn lemma_no_reentrancy(op: MatOperation, done: nat, other: MatOperation)
    requires
        done < spec_steps(op).len(),
    ensures
        spec_next(spec_after(op, done).0, ShellEvent::Begin(other)) == (
            spec_after(op, done).0,
            ShellAction::Fail(RuntimeError::Busy),
        ),
{
    lemma_operation_runs(op, done);
}

/// How far a shell has come in its life.
pub open spec fn spec_rank(state: ShellState) -> nat {
    match state {
        ShellState::Unconfigured => 0,
        ShellState::Configuring => 1,
        ShellState::Configured => 2,
        ShellState::Attached => 3,
        ShellState::Running { .. } => 3,
        ShellState::Detached => 4,
    }
}

/// The quadrature data are computed before a shell is configured, and never
/// again: the setup pass is asked for only of an unconfigured shell, a shell
/// becomes configured only when the setup pass is done, and a configured
/// shell never goes back.
pub proof fn lemma_configured_once(state: ShellState, event: ShellEvent)
    ensures
        spec_next(state, event).1 == ShellAction::Perform(ShellStep::SetupPass) ==> state
            == ShellState::Unconfigured && event == ShellEvent::Configure,
        spec_next(state, event).0 == ShellState::Configured && state != ShellState::Configured
            ==> state == ShellState::Configuring && event == ShellEvent::StepDone,
        spec_rank(state) >= 2 ==> spec_rank(spec_next(state, event).0) >= spec_rank(state),
        spec_next(state, event).0 is Attached ==> spec_rank(state) >= 2,
{
}

/// Every scatter overwrites and every gather accumulates; a gather comes
/// directly after the global result has been cleared, and takes the local
/// vector that the step before the clearing has filled.
pub proof fn lemma_step_modes(op: MatOperation, k: int)
    requires
        0 <= k < spec_steps(op).len(),
    ensures
        spec_steps(op)[k] matches ShellStep::GlobalToLocal { mode, .. } ==> mode
            == InsertMode::InsertValues,
        spec_steps(op)[k] matches ShellStep::LocalToGlobal { mode, source } ==> {
            &&& mode == InsertMode::AddValues
            &&& k >= 2
            &&& spec_steps(op)[k - 1] == ShellStep::ZeroGlobal
            &&& spec_steps(op)[k - 2] matches ShellStep::ApplyOperator { output, .. } ==> output
                == source
            &&& spec_steps(op)[k - 2] matches ShellStep::AssembleDiagonal { target } ==> target
                == source
            &&& spec_steps(op)[k - 2] is ApplyOperator || spec_steps(op)[k - 2] is AssembleDiagonal
        },
{
}

} // verus!
