//! From a configuration to an operator.
//!
//! A run chooses a benchmark problem, the polynomial order of the solution
//! and the number of quadrature points beyond what the order asks for. With
//! the dimension of the mesh and the closures of its cells this settles the
//! bases, the restrictions, the size of the quadrature data and the two
//! operators: the one that computes the quadrature data from the coordinates
//! of the mesh, once, and the one that a solver applies.
use crate::basis::{Basis, BasisView};
use crate::error::{Cause, ConfigError, Failure, FieldError, Stage, TopologyError};
use crate::operator::{
    fields_agree, fields_view, lemma_common_counts, FieldBasis, FieldBasisView, FieldRole,
    Operator, OperatorField, OperatorFieldView, OperatorView,
};
use crate::problem::{bp_data, BPData, CeedBP};
use crate::restriction::{
    create_restriction_from_dm_plex, lemma_selected_count_all, lemma_walk_wf,
    strided_elem_restriction, walk_error, walk_offsets, Restriction, RestrictionShape,
    RestrictionView,
};
use crate::shell::{next, spec_next, state_valid, ShellAction, ShellEvent, ShellState};
use crate::MethodType;
use vstd::arithmetic::power::lemma_pow_positive;
use vstd::prelude::*;

verus! {

/// What a run is configured with.
#[derive(Clone, Copy, Debug, PartialEq, Eq, Structural)]
pub struct Opt {
    /// The benchmark problem to solve.
    pub problem: CeedBP,
    /// The polynomial order of the basis of the solution.
    pub order: usize,
    /// The number of quadrature points along a direction beyond the number
    /// of nodes.
    pub q_extra: usize,
}

impl Opt {
    /// The configuration that the given options make. An option that is not
    /// given has its default: the first problem, order 3, one extra
    /// quadrature point.
    pub open spec fn spec_from_options(
        problem: Option<Seq<char>>,
        order: Option<usize>,
        q_extra: Option<usize>,
    ) -> Result<Opt, ConfigError> {
        let order = match order {
            Some(n) => n,
            None => 3,
        };
        let q_extra = match q_extra {
            Some(n) => n,
            None => 1,
        };
        match problem {
            None => Ok(Opt { problem: CeedBP::BP1, order, q_extra }),
            Some(id) => match CeedBP::spec_parse(id) {
                Some(problem) => Ok(Opt { problem, order, q_extra }),
                None => Err(ConfigError::UnknownProblem),
            },
        }
    }

    /// Makes a configuration of the options that were given.
    pub fn from_options(problem: Option<&str>, order: Option<usize>, q_extra: Option<usize>) -> (r:
        Result<Opt, ConfigError>)
        ensures
            r == Self::spec_from_options(
                match problem {
                    Some(id) => Some(id@),
                    None => None,
                },
                order,
                q_extra,
            ),
    {
        let problem = match problem {
            Some(id) => match CeedBP::from_str(id) {
                Ok(problem) => problem,
                Err(e) => {
                    return Err(e);
                },
            },
            None => CeedBP::BP1,
        };
        let order = match order {
            Some(n) => n,
            None => 3,
        };
        let q_extra = match q_extra {
            Some(n) => n,
            None => 1,
        };
        Ok(Opt { problem, order, q_extra })
    }

    /// The number of nodes and the number of quadrature points along a
    /// direction: one node more than the order, and `q_extra` quadrature
    /// points more than nodes.
    pub fn points(&self) -> (r: Result<(usize, usize), ConfigError>)
        ensures
            self.order + 1 + self.q_extra <= usize::MAX ==> r == Ok::<(usize, usize), ConfigError>(
                ((self.order + 1) as usize, (self.order + 1 + self.q_extra) as usize),
            ),
            self.order + 1 + self.q_extra > usize::MAX ==> r == Err::<(usize, usize), ConfigError>(
                ConfigError::TooLarge,
            ),
    {
        match self.order.checked_add(1) {
            Some(p) => match p.checked_add(self.q_extra) {
                Some(q) => Ok((p, q)),
                None => Err(ConfigError::TooLarge),
            },
            None => Err(ConfigError::TooLarge),
        }
    }
}

/// The fields of the operator that computes the quadrature data: the
/// gradient of the coordinates, the quadrature weights, and the quadrature
/// data, which the operator fills.
pub open spec fn spec_setup_fields(
    restr_x: RestrictionShape,
    basis_x: BasisView,
    restr_qdata: RestrictionShape,
) -> Seq<OperatorFieldView> {
    seq![
        OperatorFieldView {
            name: "dx"@,
            restriction: Some(restr_x),
            basis: FieldBasisView::Tensor(basis_x),
            role: FieldRole::Active,
        },
        OperatorFieldView {
            name: "weights"@,
            restriction: None,
            basis: FieldBasisView::Tensor(basis_x),
            role: FieldRole::Unbacked,
        },
        OperatorFieldView {
            name: "qdata"@,
            restriction: Some(restr_qdata),
            basis: FieldBasisView::Collocated,
            role: FieldRole::Active,
        },
    ]
}

/// The fields of the operator that a solver applies: the field it is applied
/// to, the quadrature data, and the field it fills.
pub open spec fn spec_apply_fields(
    input_name: Seq<char>,
    output_name: Seq<char>,
    restr_u: RestrictionShape,
    basis_u: BasisView,
    restr_qdata: RestrictionShape,
) -> Seq<OperatorFieldView> {
    seq![
        OperatorFieldView {
            name: input_name,
            restriction: Some(restr_u),
            basis: FieldBasisView::Tensor(basis_u),
            role: FieldRole::Active,
        },
        OperatorFieldView {
            name: "qdata"@,
            restriction: Some(restr_qdata),
            basis: FieldBasisView::Collocated,
            role: FieldRole::Passive,
        },
        OperatorFieldView {
            name: output_name,
            restriction: Some(restr_u),
            basis: FieldBasisView::Tensor(basis_u),
            role: FieldRole::Active,
        },
    ]
}

/// Composes the operator that computes the quadrature data from the
/// coordinates of the mesh.
pub fn setup_operator(
    setup_name: &str,
    restr_x: RestrictionShape,
    basis_x: Basis,
    restr_qdata: RestrictionShape,
) -> (r: Result<Operator, FieldError>)
    ensures
        ({
            let fields = spec_setup_fields(restr_x, basis_x@, restr_qdata);
            &&& fields_agree(fields) ==> r is Ok && r->Ok_0@ == (OperatorView {
                kernel: setup_name@,
                fields,
            })
            &&& !fields_agree(fields) ==> r == Err::<Operator, FieldError>(
                FieldError::FieldSizeMismatch,
            )
        }),
{
    let mut fields: Vec<OperatorField> = Vec::new();
    fields.push(
        OperatorField {
            name: "dx".to_owned(),
            restriction: Some(restr_x),
            basis: FieldBasis::Tensor(basis_x),
            role: FieldRole::Active,
        },
    );
    fields.push(
        OperatorField {
            name: "weights".to_owned(),
            restriction: None,
            basis: FieldBasis::Tensor(basis_x),
            role: FieldRole::Unbacked,
        },
    );
    fields.push(
        OperatorField {
            name: "qdata".to_owned(),
            restriction: Some(restr_qdata),
            basis: FieldBasis::Collocated,
            role: FieldRole::Active,
        },
    );
    assert(fields_view(fields@) =~= spec_setup_fields(restr_x, basis_x@, restr_qdata));
    Operator::construct(setup_name.to_owned(), fields)
}

/// Composes the operator that a solver applies.
pub fn apply_operator(
    apply_name: &str,
    input_name: &str,
    output_name: &str,
    restr_u: RestrictionShape,
    basis_u: Basis,
    restr_qdata: RestrictionShape,
) -> (r: Result<Operator, FieldError>)
    ensures
        ({
            let fields = spec_apply_fields(
                input_name@,
                output_name@,
                restr_u,
                basis_u@,
                restr_qdata,
            );
            &&& fields_agree(fields) ==> r is Ok && r->Ok_0@ == (OperatorView {
                kernel: apply_name@,
                fields,
            })
            &&& !fields_agree(fields) ==> r == Err::<Operator, FieldError>(
                FieldError::FieldSizeMismatch,
            )
        }),
{
    let mut fields: Vec<OperatorField> = Vec::new();
    fields.push(
        OperatorField {
            name: input_name.to_owned(),
            restriction: Some(restr_u),
            basis: FieldBasis::Tensor(basis_u),
            role: FieldRole::Active,
        },
    );
    fields.push(
        OperatorField {
            name: "qdata".to_owned(),
            restriction: Some(restr_qdata),
            basis: FieldBasis::Collocated,
            role: FieldRole::Passive,
        },
    );
    fields.push(
        OperatorField {
            name: output_name.to_owned(),
            restriction: Some(restr_u),
            basis: FieldBasis::Tensor(basis_u),
            role: FieldRole::Active,
        },
    );
    assert(fields_view(fields@) =~= spec_apply_fields(
        input_name@,
        output_name@,
        restr_u,
        basis_u@,
        restr_qdata,
    ));
    Operator::construct(apply_name.to_owned(), fields)
}

/// A set-up to solve a benchmark problem.
#[derive(Debug)]
pub struct Meles {
    ceed_resource: String,
    method: MethodType,
    opt: Opt,
}

/// The mathematical content of a [`Meles`].
pub struct MelesView {
    /// The resource on which the kernels are to run.
    pub ceed_resource: Seq<char>,
    /// The kind of problem.
    pub method: MethodType,
    /// The configuration of the run.
    pub opt: Opt,
}

impl View for Meles {
    type V = MelesView;

    closed spec fn view(&self) -> MelesView {
        MelesView { ceed_resource: self.ceed_resource@, method: self.method, opt: self.opt }
    }
}

impl Meles {
    /// Makes a set-up for a problem of the given kind and configuration, to
    /// run on the given resource, or on the host where none is given.
    pub fn new(ceed_resource: Option<&str>, opt: Opt, method: MethodType) -> (meles: Meles)
        ensures
            meles@ == (MelesView {
                ceed_resource: match ceed_resource {
                    Some(resource) => resource@,
                    None => "/cpu/self"@,
                },
                method,
                opt,
            }),
    {
        let ceed_resource = match ceed_resource {
            Some(resource) => resource.to_owned(),
            None => "/cpu/self".to_owned(),
        };
        Meles { ceed_resource, method, opt }
    }

    /// The resource on which the kernels are to run.
    pub fn ceed_resource(&self) -> (resource: &String)
        ensures
            resource@ == self@.ceed_resource,
    {
        &self.ceed_resource
    }

    /// The kind of problem.
    pub fn method(&self) -> (method: MethodType)
        ensures
            method == self@.method,
    {
        self.method
    }

    /// The configuration of the run.
    pub fn opt(&self) -> (opt: Opt)
        ensures
            opt == self@.opt,
    {
        self.opt
    }

    /// The shape of the problem that is to be solved.
    pub fn data(&self) -> (data: BPData)
        ensures
            data@ == self@.opt.problem.spec_data(),
    {
        bp_data(self.opt.problem)
    }

    /// Builds the operator shell for the problem on a mesh of the given
    /// dimension whose cells have the given closures. The shell is not yet
    /// configured: the quadrature data are still to be computed.
    pub fn mat_shell(
        &self,
        dimension: usize,
        closures_u: &Vec<Vec<i32>>,
        closures_x: &Vec<Vec<i32>>,
        x_loc_size: usize,
        coord_loc_size: usize,
    ) -> (r: Result<MelesMatShellContext, Failure>)
        ensures
            match spec_context(
                self@.opt,
                dimension as nat,
                closures_u.deep_view(),
                closures_x.deep_view(),
                x_loc_size as nat,
                coord_loc_size as nat,
            ) {
                Ok(v) => r is Ok && r->Ok_0@ == v,
                Err(f) => r == Err::<MelesMatShellContext, Failure>(f),
            },
    {
        match self.method {
            MethodType::BenchmarkProblem => mat_shell_context(
                self,
                dimension,
                closures_u,
                closures_x,
                x_loc_size,
                coord_loc_size,
            ),
        }
    }
}

/// Everything that an operator shell is built of, and where it stands in its
/// life.
#[derive(Debug)]
pub struct MelesMatShellContext {
    basis_x: Basis,
    basis_u: Basis,
    restr_x: Restriction,
    restr_u: Restriction,
    restr_qdata: RestrictionShape,
    op_setup: Operator,
    op_apply: Operator,
    state: ShellState,
}

/// The mathematical content of a [`MelesMatShellContext`].
pub struct ContextView {
    /// The basis of the coordinates of the mesh.
    pub basis_x: BasisView,
    /// The basis of the solution.
    pub basis_u: BasisView,
    /// The restriction of the coordinates of the mesh.
    pub restr_x: RestrictionView,
    /// The restriction of the solution.
    pub restr_u: RestrictionView,
    /// The shape of the restriction of the quadrature data.
    pub restr_qdata: RestrictionShape,
    /// The operator that computes the quadrature data.
    pub op_setup: OperatorView,
    /// The operator that a solver applies.
    pub op_apply: OperatorView,
    /// Where the shell stands in its life.
    pub state: ShellState,
}

impl View for MelesMatShellContext {
    type V = ContextView;

    closed spec fn view(&self) -> ContextView {
        ContextView {
            basis_x: self.basis_x@,
            basis_u: self.basis_u@,
            restr_x: self.restr_x@,
            restr_u: self.restr_u@,
            restr_qdata: self.restr_qdata,
            op_setup: self.op_setup@,
            op_apply: self.op_apply@,
            state: self.state,
        }
    }
}

impl MelesMatShellContext {
    #[verifier::type_invariant]
    spec fn inv(self) -> bool {
        state_valid(self.state)
    }

    /// Builds what an operator shell is made of from the restrictions of the
    /// solution and of the coordinates of a mesh of the given dimension, for
    /// local vectors of the given lengths. The shell is not yet configured:
    /// the quadrature data are still to be computed.
    pub fn new(
        opt: Opt,
        dimension: usize,
        restr_u: Restriction,
        restr_x: Restriction,
        x_loc_size: usize,
        coord_loc_size: usize,
    ) -> (r: Result<MelesMatShellContext, Failure>)
        ensures
            match spec_assemble(
                opt,
                dimension as nat,
                restr_u@,
                restr_x@,
                x_loc_size as nat,
                coord_loc_size as nat,
            ) {
                Ok(v) => r is Ok && r->Ok_0@ == v,
                Err(f) => r == Err::<MelesMatShellContext, Failure>(f),
            },
    {
        let (basis_x, basis_u) = match bases(opt, dimension) {
            Ok(pair) => pair,
            Err(failure) => {
                return Err(failure);
            },
        };
        assemble(opt, dimension, basis_x, basis_u, restr_u, restr_x, x_loc_size, coord_loc_size)
    }

    /// The basis of the coordinates of the mesh.
    pub fn basis_x(&self) -> (basis: Basis)
        ensures
            basis@ == self@.basis_x,
    {
        self.basis_x
    }

    /// The basis of the solution.
    pub fn basis_u(&self) -> (basis: Basis)
        ensures
            basis@ == self@.basis_u,
    {
        self.basis_u
    }

    /// The restriction of the coordinates of the mesh.
    pub fn restr_x(&self) -> (restriction: &Restriction)
        ensures
            restriction@ == self@.restr_x,
    {
        &self.restr_x
    }

    /// The restriction of the solution.
    pub fn restr_u(&self) -> (restriction: &Restriction)
        ensures
            restriction@ == self@.restr_u,
    {
        &self.restr_u
    }

    /// The shape of the restriction of the quadrature data.
    pub fn restr_qdata(&self) -> (shape: RestrictionShape)
        ensures
            shape == self@.restr_qdata,
    {
        self.restr_qdata
    }

    /// The operator that computes the quadrature data.
    pub fn op_setup(&self) -> (op: &Operator)
        ensures
            op@ == self@.op_setup,
    {
        &self.op_setup
    }

    /// The operator that a solver applies.
    pub fn op_apply(&self) -> (op: &Operator)
        ensures
            op@ == self@.op_apply,
    {
        &self.op_apply
    }

    /// The length of the two local vectors that the shell works on.
    pub fn x_loc_size(&self) -> (n: usize)
        ensures
            n == self@.restr_u.local_vector_size,
    {
        self.restr_u.local_vector_size()
    }

    /// The length of the local vector of the coordinates of the mesh.
    pub fn coord_loc_size(&self) -> (n: usize)
        ensures
            n == self@.restr_x.local_vector_size,
    {
        self.restr_x.local_vector_size()
    }

    /// The number of values that the quadrature data holds.
    pub fn qdata_size(&self) -> (n: usize)
        ensures
            n == self@.restr_qdata.l_size,
    {
        self.restr_qdata.l_size
    }

    /// Where the shell stands in its life.
    pub fn state(&self) -> (state: ShellState)
        ensures
            state == self@.state,
            state_valid(state),
    {
        proof {
            use_type_invariant(self);
        }
        self.state
    }

    /// Takes an event in the life of the shell and says what the caller is
    /// to do. Nothing but the state of the shell changes.
    pub fn handle(&mut self, event: ShellEvent) -> (action: ShellAction)
        ensures
            (final(self)@.state, action) == spec_next(old(self)@.state, event),
            final(self)@ == (ContextView { state: final(self)@.state, ..old(self)@ }),
    {
        proof {
            use_type_invariant(&*self);
        }
        let (state, action) = next(self.state, event);
        self.state = state;
        action
    }
}

/// The bases that a configuration asks for on a mesh of the given dimension:
/// that of the coordinates, which have as many components as the mesh has
/// dimensions and two nodes along a direction, and that of the solution.
/// Both have the quadrature points of the solution.
pub open spec fn spec_bases(opt: Opt, dimension: nat) -> Result<(BasisView, BasisView), Failure> {
    let data = opt.problem.spec_data();
    let p = (opt.order + 1) as nat;
    let q = (p + opt.q_extra) as nat;
    let basis_x = BasisView {
        dimension,
        num_components: dimension,
        node_order: 2,
        quad_order: q,
        quad_family: data.q_mode,
    };
    let basis_u = BasisView {
        dimension,
        num_components: data.num_components,
        node_order: p,
        quad_order: q,
        quad_family: data.q_mode,
    };
    if q > usize::MAX {
        Err(Failure { stage: Stage::BasisBuild, cause: Cause::Config(ConfigError::TooLarge) })
    } else if basis_x.error() is Some {
        Err(Failure { stage: Stage::BasisBuild, cause: Cause::Config(basis_x.error()->Some_0) })
    } else if basis_u.error() is Some {
        Err(Failure { stage: Stage::BasisBuild, cause: Cause::Config(basis_u.error()->Some_0) })
    } else {
        Ok((basis_x, basis_u))
    }
}

/// The restriction has the nodes and the components of the basis.
pub open spec fn restriction_fits(restriction: RestrictionView, basis: BasisView) -> bool {
    restriction.nodes_per_element == basis.num_nodes() && restriction.num_components
        == basis.num_components
}

/// What a configuration makes of the restrictions of the solution and of the
/// coordinates of a mesh: the context of the shell, or the first thing that
/// stands in its way.
///
/// The restrictions must have the nodes and components of the bases and the
/// lengths of the local vectors that the shell is to work on, and both must
/// speak of the same number of elements. The quadrature data hold the values
/// of the problem at each quadrature point of each element.
pub open spec fn spec_assemble(
    opt: Opt,
    dimension: nat,
    restr_u: RestrictionView,
    restr_x: RestrictionView,
    x_loc_size: nat,
    coord_loc_size: nat,
) -> Result<ContextView, Failure> {
    let data = opt.problem.spec_data();
    match spec_bases(opt, dimension) {
        Err(failure) => Err(failure),
        Ok((basis_x, basis_u)) => {
            let points = basis_u.num_quadrature_points() as nat;
            if !restriction_fits(restr_u, basis_u) || !restriction_fits(restr_x, basis_x) {
                Err(
                    Failure {
                        stage: Stage::RestrictionBuild,
                        cause: Cause::Topology(TopologyError::InconsistentClosure),
                    },
                )
            } else if restr_u.local_vector_size != x_loc_size || restr_x.local_vector_size
                != coord_loc_size {
                Err(
                    Failure {
                        stage: Stage::RestrictionBuild,
                        cause: Cause::Config(ConfigError::LocalSizeMismatch),
                    },
                )
            } else if restr_u.num_elements * points * data.q_data_size > usize::MAX {
                Err(
                    Failure {
                        stage: Stage::RestrictionBuild,
                        cause: Cause::Config(ConfigError::TooLarge),
                    },
                )
            } else if restr_x.num_elements != restr_u.num_elements {
                Err(
                    Failure {
                        stage: Stage::SetupPass,
                        cause: Cause::Field(FieldError::FieldSizeMismatch),
                    },
                )
            } else {
                let restr_qdata = RestrictionShape {
                    num_elements: restr_u.num_elements as usize,
                    elem_size: points as usize,
                    num_components: data.q_data_size as usize,
                    l_size: (restr_u.num_elements * points * data.q_data_size) as usize,
                };
                Ok(
                    ContextView {
                        basis_x,
                        basis_u,
                        restr_x,
                        restr_u,
                        restr_qdata,
                        op_setup: OperatorView {
                            kernel: data.setup_name,
                            fields: spec_setup_fields(restr_x.shape(), basis_x, restr_qdata),
                        },
                        op_apply: OperatorView {
                            kernel: data.apply_name,
                            fields: spec_apply_fields(
                                data.input_name,
                                data.output_name,
                                restr_u.shape(),
                                basis_u,
                                restr_qdata,
                            ),
                        },
                        state: ShellState::Unconfigured,
                    },
                )
            }
        },
    }
}

/// What a configuration makes of a mesh: the context of the shell, or the
/// first thing that stands in its way.
///
/// The mesh is known by its dimension, by the closures of its cells for the
/// solution (`cells_u`) and for the coordinates (`cells_x`), and by the
/// lengths of the local vectors of the two. Every cell is an element of the
/// restriction of the solution and of that of the coordinates.
pub open spec fn spec_context(
    opt: Opt,
    dimension: nat,
    cells_u: Seq<Seq<i32>>,
    cells_x: Seq<Seq<i32>>,
    x_loc_size: nat,
    coord_loc_size: nat,
) -> Result<ContextView, Failure> {
    match spec_bases(opt, dimension) {
        Err(failure) => Err(failure),
        Ok((basis_x, basis_u)) => {
            let nodes_x = basis_x.num_nodes() as nat;
            let nodes_u = basis_u.num_nodes() as nat;
            let error_u = walk_error(
                cells_u,
                None,
                0,
                nodes_u,
                basis_u.num_components,
                x_loc_size,
                cells_u.len(),
            );
            let error_x = walk_error(
                cells_x,
                None,
                0,
                nodes_x,
                basis_x.num_components,
                coord_loc_size,
                cells_x.len(),
            );
            if error_u is Some {
                Err(
                    Failure {
                        stage: Stage::RestrictionBuild,
                        cause: Cause::Topology(error_u->Some_0),
                    },
                )
            } else if error_x is Some {
                Err(
                    Failure {
                        stage: Stage::RestrictionBuild,
                        cause: Cause::Topology(error_x->Some_0),
                    },
                )
            } else {
                spec_assemble(
                    opt,
                    dimension,
                    RestrictionView {
                        num_elements: cells_u.len(),
                        nodes_per_element: nodes_u,
                        num_components: basis_u.num_components,
                        local_vector_size: x_loc_size,
                        offsets: walk_offsets(
                            cells_u,
                            None,
                            0,
                            nodes_u,
                            basis_u.num_components,
                            cells_u.len(),
                        ),
                    },
                    RestrictionView {
                        num_elements: cells_x.len(),
                        nodes_per_element: nodes_x,
                        num_components: basis_x.num_components,
                        local_vector_size: coord_loc_size,
                        offsets: walk_offsets(
                            cells_x,
                            None,
                            0,
                            nodes_x,
                            basis_x.num_components,
                            cells_x.len(),
                        ),
                    },
                    x_loc_size,
                    coord_loc_size,
                )
            }
        },
    }
}

/// Makes the bases that a configuration asks for on a mesh of the given
/// dimension: first that of the coordinates, then that of the solution.
pub fn bases(opt: Opt, dimension: usize) -> (r: Result<(Basis, Basis), Failure>)
    ensures
        match spec_bases(opt, dimension as nat) {
            Ok((basis_x, basis_u)) => r is Ok && r->Ok_0.0@ == basis_x && r->Ok_0.1@ == basis_u,
            Err(failure) => r == Err::<(Basis, Basis), Failure>(failure),
        },
{
    let data = bp_data(opt.problem);
    let (p, q) = match opt.points() {
        Ok(pq) => pq,
        Err(e) => {
            return Err(Failure { stage: Stage::BasisBuild, cause: Cause::Config(e) });
        },
    };
    let basis_x = match Basis::build(dimension, dimension, 2, q, data.q_mode) {
        Ok(basis) => basis,
        Err(e) => {
            return Err(Failure { stage: Stage::BasisBuild, cause: Cause::Config(e) });
        },
    };
    let basis_u = match Basis::build(dimension, data.num_components, p, q, data.q_mode) {
        Ok(basis) => basis,
        Err(e) => {
            return Err(Failure { stage: Stage::BasisBuild, cause: Cause::Config(e) });
        },
    };
    Ok((basis_x, basis_u))
}

/// Whether a restriction has the nodes and the components of a basis.
fn fits(restriction: &Restriction, basis: Basis) -> (r: bool)
    ensures
        r == restriction_fits(restriction@, basis@),
{
    restriction.nodes_per_element() == basis.num_nodes() && restriction.num_components()
        == basis.num_components()
}

/// Puts the context of a shell together of bases and restrictions that are
/// made.
fn assemble(
    opt: Opt,
    dimension: usize,
    basis_x: Basis,
    basis_u: Basis,
    restr_u: Restriction,
    restr_x: Restriction,
    x_loc_size: usize,
    coord_loc_size: usize,
) -> (r: Result<MelesMatShellContext, Failure>)
    requires
        spec_bases(opt, dimension as nat) == Ok::<(BasisView, BasisView), Failure>(
            (basis_x@, basis_u@),
        ),
    ensures
        match spec_assemble(
            opt,
            dimension as nat,
            restr_u@,
            restr_x@,
            x_loc_size as nat,
            coord_loc_size as nat,
        ) {
            Ok(v) => r is Ok && r->Ok_0@ == v,
            Err(f) => r == Err::<MelesMatShellContext, Failure>(f),
        },
{
    let data = bp_data(opt.problem);
    if !fits(&restr_u, basis_u) || !fits(&restr_x, basis_x) {
        return Err(
            Failure {
                stage: Stage::RestrictionBuild,
                cause: Cause::Topology(TopologyError::InconsistentClosure),
            },
        );
    }
    if restr_u.local_vector_size() != x_loc_size || restr_x.local_vector_size()
        != coord_loc_size {
        return Err(
            Failure {
                stage: Stage::RestrictionBuild,
                cause: Cause::Config(ConfigError::LocalSizeMismatch),
            },
        );
    }
    let restr_qdata = match strided_elem_restriction(
        restr_u.num_elements(),
        basis_u.num_quadrature_points(),
        data.q_data_size,
    ) {
        Ok(shape) => shape,
        Err(e) => {
            return Err(Failure { stage: Stage::RestrictionBuild, cause: Cause::Config(e) });
        },
    };
    let shape_x = restr_x.shape();
    let shape_u = restr_u.shape();
    proof {
        lemma_setup_fields_agree(shape_x, basis_x@, restr_qdata);
        lemma_apply_fields_agree(
            data.input_name@,
            data.output_name@,
            shape_u,
            basis_u@,
            restr_qdata,
        );
    }
    let op_setup = match setup_operator(data.setup_name.as_str(), shape_x, basis_x, restr_qdata) {
        Ok(op) => op,
        Err(e) => {
            return Err(Failure { stage: Stage::SetupPass, cause: Cause::Field(e) });
        },
    };
    let op_apply = match apply_operator(
        data.apply_name.as_str(),
        data.input_name.as_str(),
        data.output_name.as_str(),
        shape_u,
        basis_u,
        restr_qdata,
    ) {
        Ok(op) => op,
        Err(e) => {
            return Err(Failure { stage: Stage::Apply, cause: Cause::Field(e) });
        },
    };
    Ok(
        MelesMatShellContext {
            basis_x,
            basis_u,
            restr_x,
            restr_u,
            restr_qdata,
            op_setup,
            op_apply,
            state: ShellState::Unconfigured,
        },
    )
}

/// Builds what an operator shell for the benchmark problem of `meles` is
/// made of, on a mesh of the given dimension whose cells have the given
/// closures.
pub fn mat_shell_context(
    meles: &Meles,
    dimension: usize,
    closures_u: &Vec<Vec<i32>>,
    closures_x: &Vec<Vec<i32>>,
    x_loc_size: usize,
    coord_loc_size: usize,
) -> (r: Result<MelesMatShellContext, Failure>)
    ensures
        match spec_context(
            meles@.opt,
            dimension as nat,
            closures_u.deep_view(),
            closures_x.deep_view(),
            x_loc_size as nat,
            coord_loc_size as nat,
        ) {
            Ok(v) => r is Ok && r->Ok_0@ == v,
            Err(f) => r == Err::<MelesMatShellContext, Failure>(f),
        },
{
    let (basis_x, basis_u) = match bases(meles.opt, dimension) {
        Ok(pair) => pair,
        Err(failure) => {
            return Err(failure);
        },
    };
    let restr_u = match create_restriction_from_dm_plex(
        closures_u,
        None,
        0,
        basis_u.num_components(),
        basis_u.num_nodes(),
        x_loc_size,
    ) {
        Ok(restriction) => restriction,
        Err(e) => {
            return Err(Failure { stage: Stage::RestrictionBuild, cause: Cause::Topology(e) });
        },
    };
    let restr_x = match create_restriction_from_dm_plex(
        closures_x,
        None,
        0,
        basis_x.num_components(),
        basis_x.num_nodes(),
        coord_loc_size,
    ) {
        Ok(restriction) => restriction,
        Err(e) => {
            return Err(Failure { stage: Stage::RestrictionBuild, cause: Cause::Topology(e) });
        },
    };
    proof {
        lemma_selected_count_all(0, closures_u.len() as nat);
        lemma_selected_count_all(0, closures_x.len() as nat);
    }
    assemble(
        meles.opt,
        dimension,
        basis_x,
        basis_u,
        restr_u,
        restr_x,
        x_loc_size,
        coord_loc_size,
    )
}

/// The fields of the operator that computes the quadrature data agree when
/// the coordinates and the quadrature data speak of as many elements and of
/// as many quadrature points, and only then.
pub proof fn lemma_setup_fields_agree(
    restr_x: RestrictionShape,
    basis_x: BasisView,
    restr_qdata: RestrictionShape,
)
    ensures
        fields_agree(spec_setup_fields(restr_x, basis_x, restr_qdata)) <==> restr_x.num_elements
            == restr_qdata.num_elements && basis_x.num_quadrature_points() as usize
            == restr_qdata.elem_size,
{
    let fields = spec_setup_fields(restr_x, basis_x, restr_qdata);
    if restr_x.num_elements == restr_qdata.num_elements && basis_x.num_quadrature_points() as usize
        == restr_qdata.elem_size {
        assert(fields_agree(fields));
    } else {
        assert(fields[0].spec_elements() == Some(restr_x.num_elements));
        assert(fields[2].spec_elements() == Some(restr_qdata.num_elements));
        assert(fields[0].spec_points() == Some(basis_x.num_quadrature_points() as usize));
        assert(fields[2].spec_points() == Some(restr_qdata.elem_size));
    }
}

/// The fields of the operator that a solver applies agree when the solution
/// and the quadrature data speak of as many elements and of as many
/// quadrature points, and only then.
pub proof fn lemma_apply_fields_agree(
    input_name: Seq<char>,
    output_name: Seq<char>,
    restr_u: RestrictionShape,
    basis_u: BasisView,
    restr_qdata: RestrictionShape,
)
    ensures
        fields_agree(spec_apply_fields(input_name, output_name, restr_u, basis_u, restr_qdata))
            <==> restr_u.num_elements == restr_qdata.num_elements
            && basis_u.num_quadrature_points() as usize == restr_qdata.elem_size,
{
    let fields = spec_apply_fields(input_name, output_name, restr_u, basis_u, restr_qdata);
    if restr_u.num_elements == restr_qdata.num_elements && basis_u.num_quadrature_points() as usize
        == restr_qdata.elem_size {
        assert(fields_agree(fields));
    } else {
        assert(fields[0].spec_elements() == Some(restr_u.num_elements));
        assert(fields[1].spec_elements() == Some(restr_qdata.num_elements));
        assert(fields[0].spec_points() == Some(basis_u.num_quadrature_points() as usize));
        assert(fields[1].spec_points() == Some(restr_qdata.elem_size));
    }
}

/// Whatever a configuration makes of two restrictions fits together: the
/// restrictions have the nodes and components of the bases and the lengths
/// of the local vectors, the fields of both operators agree, both operators
/// work on the elements of the restrictions and on the quadrature points of
/// the basis of the solution, and the quadrature data hold the values of the
/// problem at each quadrature point of each element.
pub proof fn lemma_assemble_consistent(
    opt: Opt,
    dimension: nat,
    restr_u: RestrictionView,
    restr_x: RestrictionView,
    x_loc_size: nat,
    coord_loc_size: nat,
)
    requires
        restr_u.num_elements <= usize::MAX,
        restr_x.num_elements <= usize::MAX,
        x_loc_size <= usize::MAX,
        coord_loc_size <= usize::MAX,
        spec_assemble(opt, dimension, restr_u, restr_x, x_loc_size, coord_loc_size) is Ok,
    ensures
        ({
            let v = spec_assemble(
                opt,
                dimension,
                restr_u,
                restr_x,
                x_loc_size,
                coord_loc_size,
            )->Ok_0;
            let points = v.basis_u.num_quadrature_points();
            &&& v.state == ShellState::Unconfigured
            &&& spec_bases(opt, dimension) == Ok::<(BasisView, BasisView), Failure>(
                (v.basis_x, v.basis_u),
            )
            &&& v.basis_u.error() is None
            &&& v.basis_x.error() is None
            &&& v.restr_u == restr_u
            &&& v.restr_x == restr_x
            &&& v.restr_u.local_vector_size == x_loc_size
            &&& v.restr_x.local_vector_size == coord_loc_size
            &&& restriction_fits(v.restr_u, v.basis_u)
            &&& restriction_fits(v.restr_x, v.basis_x)
            &&& v.restr_u.num_elements == v.restr_x.num_elements
            &&& v.restr_qdata.num_elements == v.restr_u.num_elements
            &&& v.restr_qdata.elem_size == points
            &&& v.restr_qdata.num_components == opt.problem.spec_data().q_data_size
            &&& v.restr_qdata.l_size == v.restr_u.num_elements * points
                * opt.problem.spec_data().q_data_size
            &&& fields_agree(v.op_setup.fields)
            &&& fields_agree(v.op_apply.fields)
            &&& v.op_setup.num_elements() == Some(v.restr_u.num_elements as usize)
            &&& v.op_apply.num_elements() == Some(v.restr_u.num_elements as usize)
            &&& v.op_setup.num_quadrature_points() == Some(points as usize)
            &&& v.op_apply.num_quadrature_points() == Some(points as usize)
        }),
{
    let v = spec_assemble(opt, dimension, restr_u, restr_x, x_loc_size, coord_loc_size)->Ok_0;
    let data = opt.problem.spec_data();
    lemma_pow_positive(v.basis_u.quad_order as int, dimension);
    lemma_pow_positive(v.basis_x.quad_order as int, dimension);
    lemma_pow_positive(v.basis_u.node_order as int, dimension);
    lemma_pow_positive(v.basis_x.node_order as int, dimension);
    lemma_setup_fields_agree(v.restr_x.shape(), v.basis_x, v.restr_qdata);
    lemma_apply_fields_agree(
        data.input_name,
        data.output_name,
        v.restr_u.shape(),
        v.basis_u,
        v.restr_qdata,
    );
    lemma_common_counts(v.op_setup.fields, 3, 0);
    lemma_common_counts(v.op_apply.fields, 3, 0);
}

/// What a configuration makes of a mesh has a well-formed restriction of the
/// solution and of the coordinates, with every cell of the mesh as an
/// element, and is what the configuration makes of these restrictions.
pub proof fn lemma_context_consistent(
    opt: Opt,
    dimension: nat,
    cells_u: Seq<Seq<i32>>,
    cells_x: Seq<Seq<i32>>,
    x_loc_size: nat,
    coord_loc_size: nat,
)
    requires
        spec_context(opt, dimension, cells_u, cells_x, x_loc_size, coord_loc_size) is Ok,
    ensures
        ({
            let v = spec_context(
                opt,
                dimension,
                cells_u,
                cells_x,
                x_loc_size,
                coord_loc_size,
            )->Ok_0;
            &&& v.restr_u.wf()
            &&& v.restr_x.wf()
            &&& v.restr_u.num_elements == cells_u.len()
            &&& v.restr_x.num_elements == cells_x.len()
            &&& spec_assemble(opt, dimension, v.restr_u, v.restr_x, x_loc_size, coord_loc_size)
                == Ok::<ContextView, Failure>(v)
        }),
{
    let v = spec_context(opt, dimension, cells_u, cells_x, x_loc_size, coord_loc_size)->Ok_0;
    let (basis_x, basis_u) = spec_bases(opt, dimension)->Ok_0;
    lemma_selected_count_all(0, cells_u.len());
    lemma_selected_count_all(0, cells_x.len());
    lemma_walk_wf(
        cells_u,
        None,
        0,
        basis_u.num_nodes() as nat,
        basis_u.num_components,
        x_loc_size,
        cells_u.len(),
    );
    lemma_walk_wf(
        cells_x,
        None,
        0,
        basis_x.num_nodes() as nat,
        basis_x.num_components,
        coord_loc_size,
        cells_x.len(),
    );
}

} // verus!
