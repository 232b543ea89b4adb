//! Preparing a mesh for a benchmark problem.
//!
//! Before an operator can be built on a mesh, the mesh is given the finite
//! element of the solution, its coordinates are projected onto a finite
//! element of their own, and, where the problem asks for it, the boundary of
//! the mesh is labelled and an essential boundary condition is declared on
//! it. The mesh belongs to the caller; here it is decided what is done to it,
//! step by step, from what the caller reports.
use crate::error::TopologyError;
use vstd::prelude::*;

verus! {

/// One thing to do to the mesh.
#[derive(Clone, Copy, Debug, PartialEq, Eq, Structural)]
pub enum DmStep {
    /// Give the mesh a field with a continuous Lagrange element.
    AddField { dimension: usize, num_components: usize, order: usize },
    /// Project the coordinates onto a continuous Lagrange element.
    ProjectCoordinates { dimension: usize, num_components: usize, order: usize },
    /// Create the discrete system of the fields.
    CreateDs,
    /// Report whether the mesh has the label of its boundary.
    HasLabel,
    /// Create the label of the boundary, empty.
    CreateLabel,
    /// Give the faces on the boundary the value `value` in the label.
    MarkBoundaryFaces { value: i32 },
    /// Declare an essential boundary condition on the points to which the
    /// label gives the value `value`.
    AddBoundaryEssential { value: i32 },
    /// Order the closure of each cell as a tensor product.
    SetClosurePermutation,
}

/// How far the preparation of a mesh has come: nothing is done, a step is
/// being performed, or the preparation has ended.
#[derive(Clone, Copy, Debug, PartialEq, Eq, Structural)]
pub enum DmState {
    Start,
    AddingField,
    ProjectingCoordinates,
    CreatingDs,
    QueryingLabel,
    CreatingLabel,
    MarkingBoundary,
    AddingBoundary,
    SettingClosure,
    Finished,
    Failed,
}

/// What the caller reports.
#[derive(Clone, Copy, Debug, PartialEq, Eq, Structural)]
pub enum DmEvent {
    /// The preparation is to begin.
    Begin,
    /// The step has been performed.
    Done,
    /// The mesh has the label of its boundary, or has not.
    Label(bool),
    /// The step needs the label of the boundary, and the mesh has none.
    LabelMissing,
}

/// What the caller is to do next.
#[derive(Clone, Copy, Debug, PartialEq, Eq, Structural)]
pub enum DmAction {
    /// Perform this step and report.
    Perform(DmStep),
    /// Nothing: the mesh is prepared.
    Finish,
    /// Give up with this error.
    Fail(TopologyError),
}

/// The value that the label of the boundary gives to the faces on the
/// boundary.
pub const BOUNDARY_VALUE: i32 = 1;

/// The polynomial order of the element of the coordinates.
pub const COORDINATE_ORDER: usize = 1;

/// The name of the label of the boundary.
pub fn boundary_label_name() -> (name: String)
    ensures
        name@ == "marker"@,
{
    "marker".to_owned()
}

/// The name of the essential boundary condition.
pub fn boundary_name() -> (name: String)
    ensures
        name@ == "wall"@,
{
    "wall".to_owned()
}

/// The step that is performed in a state, if one is.
pub open spec fn spec_step(
    order: usize,
    num_components: usize,
    dimension: usize,
    state: DmState,
) -> Option<DmStep> {
    match state {
        DmState::AddingField => Some(DmStep::AddField { dimension, num_components, order }),
        DmState::ProjectingCoordinates => Some(
            DmStep::ProjectCoordinates {
                dimension,
                num_components: dimension,
                order: COORDINATE_ORDER,
            },
        ),
        DmState::CreatingDs => Some(DmStep::CreateDs),
        DmState::QueryingLabel => Some(DmStep::HasLabel),
        DmState::CreatingLabel => Some(DmStep::CreateLabel),
        DmState::MarkingBoundary => Some(DmStep::MarkBoundaryFaces { value: BOUNDARY_VALUE }),
        DmState::AddingBoundary => Some(DmStep::AddBoundaryEssential { value: BOUNDARY_VALUE }),
        DmState::SettingClosure => Some(DmStep::SetClosurePermutation),
        _ => None,
    }
}

/// The state that follows a state on an event, if the event answers the
/// state.
///
/// The field is added, the coordinates are projected and the discrete system
/// is created. Where boundary conditions are enforced, the label of the
/// boundary is looked for; if the mesh has none, one is created and the
/// boundary faces are marked in it; then the boundary condition is declared.
/// At last the closures are ordered. A step that needs the label and does
/// not find it ends the preparation in failure.
pub open spec fn spec_state(
    enforce_boundary_conditions: bool,
    state: DmState,
    event: DmEvent,
) -> Option<DmState> {
    match (state, event) {
        (DmState::Start, DmEvent::Begin) => Some(DmState::AddingField),
        (DmState::AddingField, DmEvent::Done) => Some(DmState::ProjectingCoordinates),
        (DmState::ProjectingCoordinates, DmEvent::Done) => Some(DmState::CreatingDs),
        (DmState::CreatingDs, DmEvent::Done) => Some(
            if enforce_boundary_conditions {
                DmState::QueryingLabel
            } else {
                DmState::SettingClosure
            },
        ),
        (DmState::QueryingLabel, DmEvent::Label(found)) => Some(
            if found {
                DmState::AddingBoundary
            } else {
                DmState::CreatingLabel
            },
        ),
        (DmState::CreatingLabel, DmEvent::Done) => Some(DmState::MarkingBoundary),
        (DmState::MarkingBoundary, DmEvent::Done) => Some(DmState::AddingBoundary),
        (DmState::MarkingBoundary, DmEvent::LabelMissing) => Some(DmState::Failed),
        (DmState::AddingBoundary, DmEvent::Done) => Some(DmState::SettingClosure),
        (DmState::AddingBoundary, DmEvent::LabelMissing) => Some(DmState::Failed),
        (DmState::SettingClosure, DmEvent::Done) => Some(DmState::Finished),
        _ => None,
    }
}

/// What the caller is to do in a state that it has just come to.
pub open spec fn spec_action(
    order: usize,
    num_components: usize,
    dimension: usize,
    state: DmState,
) -> DmAction {
    match spec_step(order, num_components, dimension, state) {
        Some(step) => DmAction::Perform(step),
        None => if state == DmState::Failed {
            DmAction::Fail(TopologyError::MissingBoundaryLabel)
        } else {
            DmAction::Finish
        },
    }
}

/// The state after a report and what the caller is to do next, if the report
/// answers the state.
pub open spec fn spec_setup_dm_by_order(
    order: usize,
    num_components: usize,
    dimension: usize,
    enforce_boundary_conditions: bool,
    state: DmState,
    event: DmEvent,
) -> Option<(DmState, DmAction)> {
    match spec_state(enforce_boundary_conditions, state, event) {
        Some(after) => Some((after, spec_action(order, num_components, dimension, after))),
        None => None,
    }
}

/// Takes what the caller reports of the preparation of a mesh for a field of
/// `num_components` components and polynomial order `order` on a mesh of
/// dimension `dimension`, and says how far the preparation has come and what
/// the caller is to do next. A report that does not answer the state is not
/// taken.
pub fn setup_dm_by_order(
    order: usize,
    num_components: usize,
    dimension: usize,
    enforce_boundary_conditions: bool,
    state: DmState,
    event: DmEvent,
) -> (r: Option<(DmState, DmAction)>)
    ensures
        r == spec_setup_dm_by_order(
            order,
            num_components,
            dimension,
            enforce_boundary_conditions,
            state,
            event,
        ),
{
    let after = match state {
        DmState::Start => match event {
            DmEvent::Begin => DmState::AddingField,
            _ => {
                return None;
            },
        },
        DmState::AddingField => match event {
            DmEvent::Done => DmState::ProjectingCoordinates,
            _ => {
                return None;
            },
        },
        DmState::ProjectingCoordinates => match event {
            DmEvent::Done => DmState::CreatingDs,
            _ => {
                return None;
            },
        },
        DmState::CreatingDs => match event {
            DmEvent::Done => if enforce_boundary_conditions {
                DmState::QueryingLabel
            } else {
                DmState::SettingClosure
            },
            _ => {
                return None;
            },
        },
        DmState::QueryingLabel => match event {
            DmEvent::Label(found) => if found {
                DmState::AddingBoundary
            } else {
                DmState::CreatingLabel
            },
            _ => {
                return None;
            },
        },
        DmState::CreatingLabel => match event {
            DmEvent::Done => DmState::MarkingBoundary,
            _ => {
                return None;
            },
        },
        DmState::MarkingBoundary => match event {
            DmEvent::Done => DmState::AddingBoundary,
            DmEvent::LabelMissing => DmState::Failed,
            _ => {
                return None;
            },
        },
        DmState::AddingBoundary => match event {
            DmEvent::Done => DmState::SettingClosure,
            DmEvent::LabelMissing => DmState::Failed,
            _ => {
                return None;
            },
        },
        DmState::SettingClosure => match event {
            DmEvent::Done => DmState::Finished,
            _ => {
                return None;
            },
        },
        DmState::Finished => {
            return None;
        },
        DmState::Failed => {
            return None;
        },
    };
    let action = match after {
        DmState::AddingField => DmAction::Perform(
            DmStep::AddField { dimension, num_components, order },
        ),
        DmState::ProjectingCoordinates => DmAction::Perform(
            DmStep::ProjectCoordinates {
                dimension,
                num_components: dimension,
                order: COORDINATE_ORDER,
            },
        ),
        DmState::CreatingDs => DmAction::Perform(DmStep::CreateDs),
        DmState::QueryingLabel => DmAction::Perform(DmStep::HasLabel),
        DmState::CreatingLabel => DmAction::Perform(DmStep::CreateLabel),
        DmState::MarkingBoundary => DmAction::Perform(
            DmStep::MarkBoundaryFaces { value: BOUNDARY_VALUE },
        ),
        DmState::AddingBoundary => DmAction::Perform(
            DmStep::AddBoundaryEssential { value: BOUNDARY_VALUE },
        ),
        DmState::SettingClosure => DmAction::Perform(DmStep::SetClosurePermutation),
        DmState::Failed => DmAction::Fail(TopologyError::MissingBoundaryLabel),
        _ => DmAction::Finish,
    };
    Some((after, action))
}

/// The steps of a preparation in which no step fails, in order. `has_label`
/// says whether the mesh has the label of its boundary to begin with.
pub open spec fn spec_plan(
    order: usize,
    num_components: usize,
    dimension: usize,
    enforce_boundary_conditions: bool,
    has_label: bool,
) -> Seq<DmStep> {
    let field = DmStep::AddField { dimension, num_components, order };
    let coordinates = DmStep::ProjectCoordinates {
        dimension,
        num_components: dimension,
        order: COORDINATE_ORDER,
    };
    let mark = DmStep::MarkBoundaryFaces { value: BOUNDARY_VALUE };
    let boundary = DmStep::AddBoundaryEssential { value: BOUNDARY_VALUE };
    if !enforce_boundary_conditions {
        seq![field, coordinates, DmStep::CreateDs, DmStep::SetClosurePermutation]
    } else if has_label {
        seq![
            field,
            coordinates,
            DmStep::CreateDs,
            DmStep::HasLabel,
            boundary,
            DmStep::SetClosurePermutation,
        ]
    } else {
        seq![
            field,
            coordinates,
            DmStep::CreateDs,
            DmStep::HasLabel,
            DmStep::CreateLabel,
            mark,
            boundary,
            DmStep::SetClosurePermutation,
        ]
    }
}

/// What the caller reports of a step that it has performed.
pub open spec fn spec_report(step: DmStep, has_label: bool) -> DmEvent {
    match step {
        DmStep::HasLabel => DmEvent::Label(has_label),
        _ => DmEvent::Done,
    }
}

/// The state and what the caller is to do after the preparation has begun
/// and `done` steps have been performed.
pub open spec fn spec_prepared(
    order: usize,
    num_components: usize,
    dimension: usize,
    enforce_boundary_conditions: bool,
    has_label: bool,
    done: nat,
) -> Option<(DmState, DmAction)>
    decreases done,
{
    if done == 0 {
        spec_setup_dm_by_order(
            order,
            num_components,
            dimension,
            enforce_boundary_conditions,
            DmState::Start,
            DmEvent::Begin,
        )
    } else {
        match spec_prepared(
            order,
            num_components,
            dimension,
            enforce_boundary_conditions,
            has_label,
            (done - 1) as nat,
        ) {
            Some((state, DmAction::Perform(step))) => spec_setup_dm_by_order(
                order,
                num_components,
                dimension,
                enforce_boundary_conditions,
                state,
                spec_report(step, has_label),
            ),
            _ => None,
        }
    }
}

/// A preparation in which no step fails asks for the steps of its plan one
/// after the other and then is finished.
pub proof fn lemma_preparation_runs(
    order: usize,
    num_components: usize,
    dimension: usize,
    enforce_boundary_conditions: bool,
    has_label: bool,
    done: nat,
)
    requires
        done <= spec_plan(
            order,
            num_components,
            dimension,
            enforce_boundary_conditions,
            has_label,
        ).len(),
    ensures
        ({
            let plan = spec_plan(
                order,
                num_components,
                dimension,
                enforce_boundary_conditions,
                has_label,
            );
            let now = spec_prepared(
                order,
                num_components,
                dimension,
                enforce_boundary_conditions,
                has_label,
                done,
            );
            &&& done < plan.len() ==> now is Some && now->Some_0.1 == DmAction::Perform(
                plan[done as int],
            )
            &&& done == plan.len() ==> now == Some((DmState::Finished, DmAction::Finish))
        }),
    decreases done,
{
    if done > 0 {
        lemma_preparation_runs(
            order,
            num_components,
            dimension,
            enforce_boundary_conditions,
            has_label,
            (done - 1) as nat,
        );
    }
}

/// An essential boundary condition is declared only where boundary
/// conditions are enforced, and a label is created only where the mesh has
/// none.
pub proof fn lemma_plan_boundary(
    order: usize,
    num_components: usize,
    dimension: usize,
    enforce_boundary_conditions: bool,
    has_label: bool,
    k: int,
)
    requires
        0 <= k < spec_plan(
            order,
            num_components,
            dimension,
            enforce_boundary_conditions,
            has_label,
        ).len(),
    ensures
        ({
            let plan = spec_plan(
                order,
                num_components,
                dimension,
                enforce_boundary_conditions,
                has_label,
            );
            &&& plan[k] is AddBoundaryEssential ==> enforce_boundary_conditions
            &&& plan[k] is CreateLabel ==> enforce_boundary_conditions && !has_label
            &&& plan[k] is MarkBoundaryFaces ==> k >= 1 && plan[k - 1] is CreateLabel
            &&& plan.last() is SetClosurePermutation
        }),
{
}

} // verus!
