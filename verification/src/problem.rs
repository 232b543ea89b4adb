//! The catalog of benchmark problems.
//!
//! There are six: the mass operator and the Poisson operator, each on a
//! scalar and on a three-component field, and the Poisson pair once more with
//! the quadrature points collocated with the Gauss-Lobatto nodes.
use crate::error::ConfigError;
use vstd::prelude::*;

verus! {

/// Identifies one benchmark problem.
#[derive(Clone, Copy, Debug, PartialEq, Eq, Structural)]
pub enum CeedBP {
    BP1,
    BP2,
    BP3,
    BP4,
    BP5,
    BP6,
}

/// The family of points at which a basis is evaluated for quadrature.
#[derive(Clone, Copy, Debug, PartialEq, Eq, Structural)]
pub enum QuadMode {
    Gauss,
    GaussLobatto,
}

/// The shape of one benchmark problem.
#[derive(Clone, Debug, PartialEq, Eq)]
pub struct BPData {
    /// Number of components of the solution field.
    pub num_components: usize,
    /// Number of values stored per quadrature point by the setup kernel.
    pub q_data_size: usize,
    /// Name of the kernel that computes the quadrature data.
    pub setup_name: String,
    /// Name of the kernel that applies the operator.
    pub apply_name: String,
    /// Name of the field the operator is applied to.
    pub input_name: String,
    /// Name of the field the operator writes.
    pub output_name: String,
    /// Family of the quadrature points.
    pub q_mode: QuadMode,
    /// Whether essential boundary conditions are enforced.
    pub set_boundary_conditions: bool,
}

/// The mathematical content of a [`BPData`].
pub struct BPDataView {
    pub num_components: nat,
    pub q_data_size: nat,
    pub setup_name: Seq<char>,
    pub apply_name: Seq<char>,
    pub input_name: Seq<char>,
    pub output_name: Seq<char>,
    pub q_mode: QuadMode,
    pub set_boundary_conditions: bool,
}

impl View for BPData {
    type V = BPDataView;

    open spec fn view(&self) -> BPDataView {
        BPDataView {
            num_components: self.num_components as nat,
            q_data_size: self.q_data_size as nat,
            setup_name: self.setup_name@,
            apply_name: self.apply_name@,
            input_name: self.input_name@,
            output_name: self.output_name@,
            q_mode: self.q_mode,
            set_boundary_conditions: self.set_boundary_conditions,
        }
    }
}

impl CeedBP {
    /// The number of the problem, from 1 to 6.
    pub open spec fn spec_number(self) -> nat {
        match self {
            CeedBP::BP1 => 1,
            CeedBP::BP2 => 2,
            CeedBP::BP3 => 3,
            CeedBP::BP4 => 4,
            CeedBP::BP5 => 5,
            CeedBP::BP6 => 6,
        }
    }

    /// The identifier under which the problem is selected: `bp` and the number.
    pub open spec fn spec_name(self) -> Seq<char> {
        match self {
            CeedBP::BP1 => "bp1"@,
            CeedBP::BP2 => "bp2"@,
            CeedBP::BP3 => "bp3"@,
            CeedBP::BP4 => "bp4"@,
            CeedBP::BP5 => "bp5"@,
            CeedBP::BP6 => "bp6"@,
        }
    }

    /// The problem that an identifier selects, if any.
    pub open spec fn spec_parse(s: Seq<char>) -> Option<CeedBP> {
        if s == "bp1"@ {
            Some(CeedBP::BP1)
        } else if s == "bp2"@ {
            Some(CeedBP::BP2)
        } else if s == "bp3"@ {
            Some(CeedBP::BP3)
        } else if s == "bp4"@ {
            Some(CeedBP::BP4)
        } else if s == "bp5"@ {
            Some(CeedBP::BP5)
        } else if s == "bp6"@ {
            Some(CeedBP::BP6)
        } else {
            None
        }
    }

    /// The Poisson problems are the last four; the first two are mass problems.
    pub open spec fn is_poisson(self) -> bool {
        self.spec_number() >= 3
    }

    /// The problems with an even number work on a three-component field.
    pub open spec fn is_vector(self) -> bool {
        self.spec_number() % 2 == 0
    }

    /// The last two problems place the quadrature points on the nodes.
    pub open spec fn is_collocated(self) -> bool {
        self.spec_number() >= 5
    }

    /// The catalog: what each problem looks like.
    pub open spec fn spec_data(self) -> BPDataView {
        BPDataView {
            num_components: if self.is_vector() { 3 } else { 1 },
            q_data_size: if self.is_poisson() { 6 } else { 1 },
            setup_name: if self.is_poisson() { "Poisson3DBuild"@ } else { "Mass3DBuild"@ },
            apply_name: if self.is_poisson() {
                if self.is_vector() { "Vector3Poisson3DApply"@ } else { "Poisson3DApply"@ }
            } else {
                if self.is_vector() { "Vector3MassApply"@ } else { "MassApply"@ }
            },
            input_name: if self.is_poisson() { "du"@ } else { "u"@ },
            output_name: if self.is_poisson() { "dv"@ } else { "v"@ },
            q_mode: if self.is_collocated() { QuadMode::GaussLobatto } else { QuadMode::Gauss },
            set_boundary_conditions: self.is_poisson(),
        }
    }

    /// The number of the problem, from 1 to 6.
    pub fn number(self) -> (n: usize)
        ensures
            n == self.spec_number(),
            1 <= n <= 6,
    {
        match self {
            CeedBP::BP1 => 1,
            CeedBP::BP2 => 2,
            CeedBP::BP3 => 3,
            CeedBP::BP4 => 4,
            CeedBP::BP5 => 5,
            CeedBP::BP6 => 6,
        }
    }

    /// The identifier of the problem, as `from_str` reads it.
    pub fn name(self) -> (s: String)
        ensures
            s@ == self.spec_name(),
    {
        match self {
            CeedBP::BP1 => "bp1".to_owned(),
            CeedBP::BP2 => "bp2".to_owned(),
            CeedBP::BP3 => "bp3".to_owned(),
            CeedBP::BP4 => "bp4".to_owned(),
            CeedBP::BP5 => "bp5".to_owned(),
            CeedBP::BP6 => "bp6".to_owned(),
        }
    }

    /// Reads a problem identifier. Exactly the six identifiers `bp1` to `bp6`
    /// are known; anything else is an unknown problem.
    pub fn from_str(s: &str) -> (r: Result<CeedBP, ConfigError>)
        ensures
            match Self::spec_parse(s@) {
                Some(bp) => r == Ok::<CeedBP, ConfigError>(bp),
                None => r == Err::<CeedBP, ConfigError>(ConfigError::UnknownProblem),
            },
    {
        let id = s.to_owned();
        if id == "bp1".to_owned() {
            Ok(CeedBP::BP1)
        } else if id == "bp2".to_owned() {
            Ok(CeedBP::BP2)
        } else if id == "bp3".to_owned() {
            Ok(CeedBP::BP3)
        } else if id == "bp4".to_owned() {
            Ok(CeedBP::BP4)
        } else if id == "bp5".to_owned() {
            Ok(CeedBP::BP5)
        } else if id == "bp6".to_owned() {
            Ok(CeedBP::BP6)
        } else {
            Err(ConfigError::UnknownProblem)
        }
    }
}

/// The characters of the six identifiers.
pub proof fn lemma_names()
    ensures
        "bp1"@ == seq!['b', 'p', '1'],
        "bp2"@ == seq!['b', 'p', '2'],
        "bp3"@ == seq!['b', 'p', '3'],
        "bp4"@ == seq!['b', 'p', '4'],
        "bp5"@ == seq!['b', 'p', '5'],
        "bp6"@ == seq!['b', 'p', '6'],
{
    reveal_strlit("bp1");
    reveal_strlit("bp2");
    reveal_strlit("bp3");
    reveal_strlit("bp4");
    reveal_strlit("bp5");
    reveal_strlit("bp6");
    assert("bp1"@ =~= seq!['b', 'p', '1']);
    assert("bp2"@ =~= seq!['b', 'p', '2']);
    assert("bp3"@ =~= seq!['b', 'p', '3']);
    assert("bp4"@ =~= seq!['b', 'p', '4']);
    assert("bp5"@ =~= seq!['b', 'p', '5']);
    assert("bp6"@ =~= seq!['b', 'p', '6']);
}

/// Reading the identifier of a problem gives that problem back, so no two
/// problems share an identifier.
pub proof fn lemma_parse_name(bp: CeedBP)
    ensures
        CeedBP::spec_parse(bp.spec_name()) == Some(bp),
{
    lemma_names();
    assert(seq!['b', 'p', '1'][2] == '1');
    assert(seq!['b', 'p', '2'][2] == '2');
    assert(seq!['b', 'p', '3'][2] == '3');
    assert(seq!['b', 'p', '4'][2] == '4');
    assert(seq!['b', 'p', '5'][2] == '5');
    assert(seq!['b', 'p', '6'][2] == '6');
}

/// An identifier that is read as a problem is the identifier of that problem.
pub proof fn lemma_parse_sound(s: Seq<char>)
    ensures
        CeedBP::spec_parse(s) matches Some(bp) ==> bp.spec_name() == s,
{
}

/// Looks a problem up in the catalog.
pub fn bp_data(bp: CeedBP) -> (data: BPData)
    ensures
        data@ == bp.spec_data(),
{
    match bp {
        CeedBP::BP1 => BPData {
            num_components: 1,
            q_data_size: 1,
            setup_name: "Mass3DBuild".to_owned(),
            apply_name: "MassApply".to_owned(),
            input_name: "u".to_owned(),
            output_name: "v".to_owned(),
            q_mode: QuadMode::Gauss,
            set_boundary_conditions: false,
        },
        CeedBP::BP2 => BPData {
            num_components: 3,
            q_data_size: 1,
            setup_name: "Mass3DBuild".to_owned(),
            apply_name: "Vector3MassApply".to_owned(),
            input_name: "u".to_owned(),
            output_name: "v".to_owned(),
            q_mode: QuadMode::Gauss,
            set_boundary_conditions: false,
        },
        CeedBP::BP3 => BPData {
            num_components: 1,
            q_data_size: 6,
            setup_name: "Poisson3DBuild".to_owned(),
            apply_name: "Poisson3DApply".to_owned(),
            input_name: "du".to_owned(),
            output_name: "dv".to_owned(),
            q_mode: QuadMode::Gauss,
            set_boundary_conditions: true,
        },
        CeedBP::BP4 => BPData {
            num_components: 3,
            q_data_size: 6,
            setup_name: "Poisson3DBuild".to_owned(),
            apply_name: "Vector3Poisson3DApply".to_owned(),
            input_name: "du".to_owned(),
            output_name: "dv".to_owned(),
            q_mode: QuadMode::Gauss,
            set_boundary_conditions: true,
        },
        CeedBP::BP5 => BPData {
            num_components: 1,
            q_data_size: 6,
            setup_name: "Poisson3DBuild".to_owned(),
            apply_name: "Poisson3DApply".to_owned(),
            input_name: "du".to_owned(),
            output_name: "dv".to_owned(),
            q_mode: QuadMode::GaussLobatto,
            set_boundary_conditions: true,
        },
        CeedBP::BP6 => BPData {
            num_components: 3,
            q_data_size: 6,
            setup_name: "Poisson3DBuild".to_owned(),
            apply_name: "Vector3Poisson3DApply".to_owned(),
            input_name: "du".to_owned(),
            output_name: "dv".to_owned(),
            q_mode: QuadMode::GaussLobatto,
            set_boundary_conditions: true,
        },
    }
}

/// Looks a problem up by its identifier.
pub fn lookup(problem_id: &str) -> (r: Result<BPData, ConfigError>)
    ensures
        match CeedBP::spec_parse(problem_id@) {
            Some(bp) => r is Ok && r->Ok_0@ == bp.spec_data(),
            None => r == Err::<BPData, ConfigError>(ConfigError::UnknownProblem),
        },
{
    match CeedBP::from_str(problem_id) {
        Ok(bp) => Ok(bp_data(bp)),
        Err(e) => Err(e),
    }
}

/// Every problem of the catalog works on a scalar or on a three-component
/// field and stores one or six values per quadrature point.
pub proof fn lemma_catalog_shapes(bp: CeedBP)
    ensures
        bp.spec_data().num_components == 1 || bp.spec_data().num_components == 3,
        bp.spec_data().q_data_size == 1 || bp.spec_data().q_data_size == 6,
        bp.spec_data().q_data_size == 6 <==> bp.spec_data().set_boundary_conditions,
{
}

} // verus!
