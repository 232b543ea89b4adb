use meles::basis::Basis;
use meles::context::{apply_operator, setup_operator};
use meles::error::FieldError;
use meles::operator::{FieldBasis, FieldRole, Operator, OperatorField};
use meles::problem::QuadMode;
use meles::restriction::RestrictionShape;

fn shape(num_elements: usize, elem_size: usize, num_components: usize) -> RestrictionShape {
    RestrictionShape {
        num_elements,
        elem_size,
        num_components,
        l_size: num_elements * elem_size * num_components,
    }
}

fn field(
    name: &str,
    restriction: Option<RestrictionShape>,
    basis: FieldBasis,
    role: FieldRole,
) -> OperatorField {
    OperatorField { name: name.to_string(), restriction, basis, role }
}

#[test]
fn fields_that_agree_make_an_operator() {
    let basis = Basis::build(3, 1, 4, 5, QuadMode::Gauss).unwrap();
    let fields = vec![
        field("u", Some(shape(27, 64, 1)), FieldBasis::Tensor(basis), FieldRole::Active),
        field("qdata", Some(shape(27, 125, 1)), FieldBasis::Collocated, FieldRole::Passive),
        field("v", Some(shape(27, 64, 1)), FieldBasis::Tensor(basis), FieldRole::Active),
    ];
    let op = Operator::construct("MassApply".to_string(), fields.clone()).unwrap();
    assert_eq!(op.kernel(), "MassApply");
    assert_eq!(op.fields(), &fields);
    assert_eq!(op.num_elements(), Some(27));
    assert_eq!(op.num_quadrature_points(), Some(125));
}

#[test]
fn fields_that_disagree_on_elements_make_none() {
    let basis = Basis::build(3, 1, 4, 5, QuadMode::Gauss).unwrap();
    let fields = vec![
        field("u", Some(shape(27, 64, 1)), FieldBasis::Tensor(basis), FieldRole::Active),
        field("qdata", Some(shape(26, 125, 1)), FieldBasis::Collocated, FieldRole::Passive),
        field("v", Some(shape(27, 64, 1)), FieldBasis::Tensor(basis), FieldRole::Active),
    ];
    assert_eq!(
        Operator::construct("MassApply".to_string(), fields).unwrap_err(),
        FieldError::FieldSizeMismatch
    );
}

#[test]
fn fields_that_disagree_on_quadrature_points_make_none() {
    let basis = Basis::build(3, 1, 4, 5, QuadMode::Gauss).unwrap();
    let other = Basis::build(3, 1, 4, 6, QuadMode::Gauss).unwrap();
    let fields = vec![
        field("u", Some(shape(27, 64, 1)), FieldBasis::Tensor(basis), FieldRole::Active),
        field("v", Some(shape(27, 64, 1)), FieldBasis::Tensor(other), FieldRole::Active),
    ];
    assert_eq!(
        Operator::construct("MassApply".to_string(), fields).unwrap_err(),
        FieldError::FieldSizeMismatch
    );
    // Values kept at the quadrature points count the size of an element.
    let fields = vec![
        field("u", Some(shape(27, 64, 1)), FieldBasis::Tensor(basis), FieldRole::Active),
        field("qdata", Some(shape(27, 64, 1)), FieldBasis::Collocated, FieldRole::Passive),
    ];
    assert_eq!(
        Operator::construct("MassApply".to_string(), fields).unwrap_err(),
        FieldError::FieldSizeMismatch
    );
}

#[test]
fn late_field_is_held_against_the_first() {
    let basis = Basis::build(2, 1, 2, 3, QuadMode::Gauss).unwrap();
    let fields = vec![
        field("weights", None, FieldBasis::Tensor(basis), FieldRole::Unbacked),
        field("a", Some(shape(5, 4, 1)), FieldBasis::Tensor(basis), FieldRole::Active),
        field("b", None, FieldBasis::Collocated, FieldRole::Unbacked),
        field("c", Some(shape(6, 9, 1)), FieldBasis::Collocated, FieldRole::Active),
    ];
    assert_eq!(
        Operator::construct("k".to_string(), fields).unwrap_err(),
        FieldError::FieldSizeMismatch
    );
}

#[test]
fn operator_without_fields_knows_no_counts() {
    let op = Operator::construct("k".to_string(), vec![]).unwrap();
    assert_eq!(op.num_elements(), None);
    assert_eq!(op.num_quadrature_points(), None);
    assert_eq!(op.fields().len(), 0);
    let basis = Basis::build(2, 1, 2, 3, QuadMode::Gauss).unwrap();
    let fields = vec![
        field("weights", None, FieldBasis::Tensor(basis), FieldRole::Unbacked),
        field("nothing", None, FieldBasis::Collocated, FieldRole::Unbacked),
    ];
    let op = Operator::construct("k".to_string(), fields).unwrap();
    assert_eq!(op.num_elements(), None);
    assert_eq!(op.num_quadrature_points(), Some(9));
}

#[test]
fn field_counts_come_from_restriction_and_basis() {
    let basis = Basis::build(3, 1, 4, 5, QuadMode::Gauss).unwrap();
    let f = field("u", Some(shape(27, 64, 1)), FieldBasis::Tensor(basis), FieldRole::Active);
    assert_eq!(f.elements(), Some(27));
    assert_eq!(f.points(), Some(125));
    let f = field("qdata", Some(shape(27, 125, 6)), FieldBasis::Collocated, FieldRole::Passive);
    assert_eq!(f.elements(), Some(27));
    assert_eq!(f.points(), Some(125));
    let f = field("weights", None, FieldBasis::Tensor(basis), FieldRole::Unbacked);
    assert_eq!(f.elements(), None);
    assert_eq!(f.points(), Some(125));
    let f = field("nothing", None, FieldBasis::Collocated, FieldRole::Unbacked);
    assert_eq!(f.elements(), None);
    assert_eq!(f.points(), None);
}

#[test]
fn setup_operator_has_coordinates_weights_and_quadrature_data() {
    let basis_x = Basis::build(3, 3, 2, 5, QuadMode::Gauss).unwrap();
    let restr_x = shape(27, 8, 3);
    let restr_qdata = shape(27, 125, 6);
    let op = setup_operator("Poisson3DBuild", restr_x, basis_x, restr_qdata).unwrap();
    assert_eq!(op.kernel(), "Poisson3DBuild");
    assert_eq!(
        op.fields(),
        &vec![
            field("dx", Some(restr_x), FieldBasis::Tensor(basis_x), FieldRole::Active),
            field("weights", None, FieldBasis::Tensor(basis_x), FieldRole::Unbacked),
            field("qdata", Some(restr_qdata), FieldBasis::Collocated, FieldRole::Active),
        ]
    );
    assert_eq!(op.num_elements(), Some(27));
    assert_eq!(op.num_quadrature_points(), Some(125));
}

#[test]
fn setup_operator_needs_matching_shapes() {
    let basis_x = Basis::build(3, 3, 2, 5, QuadMode::Gauss).unwrap();
    assert_eq!(
        setup_operator("Mass3DBuild", shape(27, 8, 3), basis_x, shape(26, 125, 1)).unwrap_err(),
        FieldError::FieldSizeMismatch
    );
    assert_eq!(
        setup_operator("Mass3DBuild", shape(27, 8, 3), basis_x, shape(27, 64, 1)).unwrap_err(),
        FieldError::FieldSizeMismatch
    );
}

#[test]
fn apply_operator_reads_and_fills_the_solution() {
    let basis_u = Basis::build(3, 3, 4, 5, QuadMode::Gauss).unwrap();
    let restr_u = shape(27, 64, 3);
    let restr_qdata = shape(27, 125, 1);
    let op =
        apply_operator("Vector3MassApply", "u", "v", restr_u, basis_u, restr_qdata).unwrap();
    assert_eq!(op.kernel(), "Vector3MassApply");
    assert_eq!(
        op.fields(),
        &vec![
            field("u", Some(restr_u), FieldBasis::Tensor(basis_u), FieldRole::Active),
            field("qdata", Some(restr_qdata), FieldBasis::Collocated, FieldRole::Passive),
            field("v", Some(restr_u), FieldBasis::Tensor(basis_u), FieldRole::Active),
        ]
    );
}

#[test]
fn apply_operator_needs_matching_shapes() {
    let basis_u = Basis::build(3, 1, 4, 5, QuadMode::Gauss).unwrap();
    assert_eq!(
        apply_operator("MassApply", "u", "v", shape(27, 64, 1), basis_u, shape(28, 125, 1))
            .unwrap_err(),
        FieldError::FieldSizeMismatch
    );
    assert_eq!(
        apply_operator("MassApply", "u", "v", shape(27, 64, 1), basis_u, shape(27, 124, 1))
            .unwrap_err(),
        FieldError::FieldSizeMismatch
    );
}
