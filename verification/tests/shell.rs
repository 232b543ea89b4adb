use meles::error::{RuntimeError, Stage};
use meles::shell::{
    next, num_steps, step_of, steps, InsertMode, LocalVector, MatOperation, ShellAction,
    ShellEvent, ShellState, ShellStep,
};

const SCATTER: ShellStep =
    ShellStep::GlobalToLocal { target: LocalVector::Input, mode: InsertMode::InsertValues };
const APPLY: ShellStep =
    ShellStep::ApplyOperator { input: LocalVector::Input, output: LocalVector::Output };
const ZERO: ShellStep = ShellStep::ZeroGlobal;
const GATHER_OUTPUT: ShellStep =
    ShellStep::LocalToGlobal { source: LocalVector::Output, mode: InsertMode::AddValues };
const DIAGONAL: ShellStep = ShellStep::AssembleDiagonal { target: LocalVector::Input };
const GATHER_INPUT: ShellStep =
    ShellStep::LocalToGlobal { source: LocalVector::Input, mode: InsertMode::AddValues };

#[test]
fn action_scatters_applies_clears_and_gathers() {
    assert_eq!(steps(MatOperation::Mult), vec![SCATTER, APPLY, ZERO, GATHER_OUTPUT]);
    assert_eq!(num_steps(MatOperation::Mult), 4);
}

#[test]
fn diagonal_is_assembled_in_the_input_vector() {
    assert_eq!(steps(MatOperation::GetDiagonal), vec![DIAGONAL, ZERO, GATHER_INPUT]);
    assert_eq!(num_steps(MatOperation::GetDiagonal), 3);
}

#[test]
fn step_past_the_last_is_the_last() {
    assert_eq!(step_of(MatOperation::Mult, 0), SCATTER);
    assert_eq!(step_of(MatOperation::Mult, 3), GATHER_OUTPUT);
    assert_eq!(step_of(MatOperation::Mult, 4), GATHER_OUTPUT);
    assert_eq!(step_of(MatOperation::GetDiagonal, 2), GATHER_INPUT);
    assert_eq!(step_of(MatOperation::GetDiagonal, usize::MAX), GATHER_INPUT);
}

#[test]
fn scatter_inserts_and_gather_adds() {
    for op in [MatOperation::Mult, MatOperation::GetDiagonal] {
        let plan = steps(op);
        for (k, step) in plan.iter().enumerate() {
            match step {
                ShellStep::GlobalToLocal { mode, .. } => {
                    assert_eq!(*mode, InsertMode::InsertValues)
                }
                ShellStep::LocalToGlobal { mode, .. } => {
                    assert_eq!(*mode, InsertMode::AddValues);
                    assert_eq!(plan[k - 1], ShellStep::ZeroGlobal);
                }
                _ => {}
            }
        }
    }
}

#[test]
fn operations_belong_to_stages() {
    assert_eq!(MatOperation::Mult.stage(), Stage::Apply);
    assert_eq!(MatOperation::GetDiagonal.stage(), Stage::Diagonal);
}

#[test]
fn shell_lives_from_unconfigured_to_detached() {
    let (s, a) = next(ShellState::Unconfigured, ShellEvent::Configure);
    assert_eq!((s, a), (ShellState::Configuring, ShellAction::Perform(ShellStep::SetupPass)));
    let (s, a) = next(s, ShellEvent::StepDone);
    assert_eq!((s, a), (ShellState::Configured, ShellAction::Proceed));
    let (s, a) = next(s, ShellEvent::Attach);
    assert_eq!((s, a), (ShellState::Attached, ShellAction::Proceed));
    let (s, a) = next(s, ShellEvent::Detach);
    assert_eq!((s, a), (ShellState::Detached, ShellAction::Proceed));
    assert_eq!(
        next(ShellState::Configured, ShellEvent::Detach),
        (ShellState::Detached, ShellAction::Proceed)
    );
}

#[test]
fn shell_is_not_configured_anew() {
    for state in [ShellState::Configured, ShellState::Attached, ShellState::Detached] {
        assert_eq!(
            next(state, ShellEvent::Configure),
            (state, ShellAction::Fail(RuntimeError::OutOfOrder))
        );
    }
    assert_eq!(
        next(ShellState::Running { op: MatOperation::Mult, step: 1 }, ShellEvent::Configure),
        (
            ShellState::Running { op: MatOperation::Mult, step: 1 },
            ShellAction::Fail(RuntimeError::Busy)
        )
    );
}

#[test]
fn setup_pass_that_fails_leaves_the_shell_unconfigured() {
    assert_eq!(
        next(ShellState::Configuring, ShellEvent::StepFailed),
        (ShellState::Unconfigured, ShellAction::Fail(RuntimeError::SetupFailed))
    );
    for event in [
        ShellEvent::Configure,
        ShellEvent::Attach,
        ShellEvent::Detach,
        ShellEvent::Begin(MatOperation::Mult),
    ] {
        assert_eq!(
            next(ShellState::Configuring, event),
            (ShellState::Configuring, ShellAction::Fail(RuntimeError::Busy))
        );
    }
}

#[test]
fn setup_pass_is_asked_for_once() {
    let states = [
        ShellState::Unconfigured,
        ShellState::Configuring,
        ShellState::Configured,
        ShellState::Attached,
        ShellState::Running { op: MatOperation::Mult, step: 0 },
        ShellState::Running { op: MatOperation::GetDiagonal, step: 2 },
        ShellState::Detached,
    ];
    let events = [
        ShellEvent::Configure,
        ShellEvent::Attach,
        ShellEvent::Begin(MatOperation::Mult),
        ShellEvent::Begin(MatOperation::GetDiagonal),
        ShellEvent::StepDone,
        ShellEvent::StepFailed,
        ShellEvent::Detach,
    ];
    for state in states {
        for event in events {
            let (after, action) = next(state, event);
            if action == ShellAction::Perform(ShellStep::SetupPass) {
                assert_eq!((state, event), (ShellState::Unconfigured, ShellEvent::Configure));
            }
            if after == ShellState::Configured && state != ShellState::Configured {
                assert_eq!((state, event), (ShellState::Configuring, ShellEvent::StepDone));
            }
            if after == ShellState::Unconfigured || after == ShellState::Configuring {
                assert!(state == ShellState::Unconfigured || state == ShellState::Configuring);
            }
        }
    }
}

#[test]
fn events_out_of_order_change_nothing() {
    let cases = [
        (ShellState::Unconfigured, ShellEvent::Attach),
        (ShellState::Unconfigured, ShellEvent::Detach),
        (ShellState::Unconfigured, ShellEvent::StepDone),
        (ShellState::Unconfigured, ShellEvent::StepFailed),
        (ShellState::Configured, ShellEvent::StepDone),
        (ShellState::Attached, ShellEvent::Attach),
        (ShellState::Attached, ShellEvent::StepDone),
        (ShellState::Attached, ShellEvent::StepFailed),
        (ShellState::Detached, ShellEvent::Detach),
        (ShellState::Detached, ShellEvent::Attach),
        (ShellState::Detached, ShellEvent::StepDone),
    ];
    for (state, event) in cases {
        assert_eq!(next(state, event), (state, ShellAction::Fail(RuntimeError::OutOfOrder)));
    }
}

#[test]
fn operations_need_an_attached_shell() {
    for state in [ShellState::Unconfigured, ShellState::Configured, ShellState::Detached] {
        for op in [MatOperation::Mult, MatOperation::GetDiagonal] {
            assert_eq!(
                next(state, ShellEvent::Begin(op)),
                (state, ShellAction::Fail(RuntimeError::NotAttached))
            );
        }
    }
}

#[test]
fn operation_runs_through_its_steps() {
    for op in [MatOperation::Mult, MatOperation::GetDiagonal] {
        let plan = steps(op);
        let (mut state, mut action) = next(ShellState::Attached, ShellEvent::Begin(op));
        for (k, step) in plan.iter().enumerate() {
            assert_eq!(state, ShellState::Running { op, step: k });
            assert_eq!(action, ShellAction::Perform(*step));
            (state, action) = next(state, ShellEvent::StepDone);
        }
        assert_eq!((state, action), (ShellState::Attached, ShellAction::Finish));
    }
}

#[test]
fn failed_step_ends_the_operation() {
    for op in [MatOperation::Mult, MatOperation::GetDiagonal] {
        let plan = steps(op);
        for (k, step) in plan.iter().enumerate() {
            assert_eq!(
                next(ShellState::Running { op, step: k }, ShellEvent::StepFailed),
                (
                    ShellState::Attached,
                    ShellAction::Fail(RuntimeError::StepFailed { op, step: *step })
                )
            );
        }
    }
}

#[test]
fn running_shell_takes_nothing_else() {
    let running = ShellState::Running { op: MatOperation::Mult, step: 2 };
    for event in [
        ShellEvent::Configure,
        ShellEvent::Attach,
        ShellEvent::Detach,
        ShellEvent::Begin(MatOperation::Mult),
        ShellEvent::Begin(MatOperation::GetDiagonal),
    ] {
        assert_eq!(next(running, event), (running, ShellAction::Fail(RuntimeError::Busy)));
    }
}
