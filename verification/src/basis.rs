//! The shape of a tensor-product basis.
//!
//! A basis on a `dimension`-dimensional element is the tensor product of a
//! basis on the line with `node_order` nodes, evaluated at `quad_order`
//! quadrature points of the chosen family. Its interpolation and gradient
//! tables are the business of a kernel library; what is kept here is the key
//! under which such a basis is made and the counts that follow from it.
use crate::error::ConfigError;
use crate::problem::QuadMode;
use vstd::arithmetic::power::{lemma0_pow, lemma1_pow, lemma_pow0, lemma_pow_increases, pow};
use vstd::prelude::*;

verus! {

/// A tensor-product basis, known by its key.
#[derive(Clone, Copy, Debug, PartialEq, Eq, Structural)]
pub struct Basis {
    dimension: usize,
    num_components: usize,
    node_order: usize,
    quad_order: usize,
    quad_family: QuadMode,
    num_nodes: usize,
    num_quadrature_points: usize,
}

/// The mathematical content of a [`Basis`]: its key.
pub struct BasisView {
    /// Topological dimension of the element.
    pub dimension: nat,
    /// Number of components of the field.
    pub num_components: nat,
    /// Number of nodes along one direction.
    pub node_order: nat,
    /// Number of quadrature points along one direction.
    pub quad_order: nat,
    /// Family of the quadrature points.
    pub quad_family: QuadMode,
}

impl BasisView {
    /// Number of nodes of an element.
    pub open spec fn num_nodes(self) -> int {
        pow(self.node_order as int, self.dimension)
    }

    /// Number of quadrature points of an element.
    pub open spec fn num_quadrature_points(self) -> int {
        pow(self.quad_order as int, self.dimension)
    }

    /// Why there is no such basis, if there is none: a basis has a dimension,
    /// a component and a node, and no fewer quadrature points than nodes
    /// along a direction; and the nodes and the quadrature points of an
    /// element can be counted in a machine word.
    pub open spec fn error(self) -> Option<ConfigError> {
        if self.dimension == 0 || self.num_components == 0 || self.node_order == 0
            || self.quad_order < self.node_order {
            Some(ConfigError::InvalidBasis)
        } else if self.num_nodes() > usize::MAX || self.num_quadrature_points() > usize::MAX {
            Some(ConfigError::TooLarge)
        } else {
            None
        }
    }
}

impl View for Basis {
    type V = BasisView;

    closed spec fn view(&self) -> BasisView {
        BasisView {
            dimension: self.dimension as nat,
            num_components: self.num_components as nat,
            node_order: self.node_order as nat,
            quad_order: self.quad_order as nat,
            quad_family: self.quad_family,
        }
    }
}

/// `base` to the power `exp`, where a machine word holds it.
fn checked_pow(base: usize, exp: usize) -> (r: Option<usize>)
    ensures
        match r {
            Some(v) => v == pow(base as int, exp as nat),
            None => pow(base as int, exp as nat) > usize::MAX,
        },
{
    if exp == 0 {
        proof {
            lemma_pow0(base as int);
        }
        return Some(1);
    }
    if base == 0 {
        proof {
            lemma0_pow(exp as nat);
        }
        return Some(0);
    }
    if base == 1 {
        proof {
            lemma1_pow(exp as nat);
        }
        return Some(1);
    }
    let mut acc: usize = 1;
    let mut i: usize = 0;
    proof {
        lemma_pow0(base as int);
    }
    while i < exp
        invariant
            i <= exp,
            base >= 2,
            acc == pow(base as int, i as nat),
        decreases exp - i,
    {
        proof {
            reveal(pow);
            assert(pow(base as int, (i + 1) as nat) == base * pow(base as int, i as nat));
            assert(base * acc == acc * base) by (nonlinear_arith);
        }
        match acc.checked_mul(base) {
            Some(v) => {
                acc = v;
            },
            None => {
                proof {
                    lemma_pow_increases(base as nat, (i + 1) as nat, exp as nat);
                }
                return None;
            },
        }
        i += 1;
    }
    Some(acc)
}

impl Basis {
    #[verifier::type_invariant]
    spec fn inv(self) -> bool {
        &&& self@.error() is None
        &&& self.num_nodes == self@.num_nodes()
        &&& self.num_quadrature_points == self@.num_quadrature_points()
    }

    /// Makes the basis with the given key, if there is one.
    pub fn build(
        dimension: usize,
        num_components: usize,
        node_order: usize,
        quad_order: usize,
        quad_family: QuadMode,
    ) -> (r: Result<Basis, ConfigError>)
        ensures
            ({
                let v = BasisView {
                    dimension: dimension as nat,
                    num_components: num_components as nat,
                    node_order: node_order as nat,
                    quad_order: quad_order as nat,
                    quad_family,
                };
                match v.error() {
                    Some(e) => r == Err::<Basis, ConfigError>(e),
                    None => r is Ok && r->Ok_0@ == v,
                }
            }),
    {
        if dimension == 0 || num_components == 0 || node_order == 0 || quad_order < node_order {
            return Err(ConfigError::InvalidBasis);
        }
        let num_nodes = match checked_pow(node_order, dimension) {
            Some(n) => n,
            None => {
                return Err(ConfigError::TooLarge);
            },
        };
        let num_quadrature_points = match checked_pow(quad_order, dimension) {
            Some(n) => n,
            None => {
                return Err(ConfigError::TooLarge);
            },
        };
        Ok(
            Basis {
                dimension,
                num_components,
                node_order,
                quad_order,
                quad_family,
                num_nodes,
                num_quadrature_points,
            },
        )
    }

    /// Topological dimension of the element.
    pub fn dimension(&self) -> (n: usize)
        ensures
            n == self@.dimension,
            self@.error() is None,
    {
        proof {
            use_type_invariant(self);
        }
        self.dimension
    }

    /// Number of components of the field.
    pub fn num_components(&self) -> (n: usize)
        ensures
            n == self@.num_components,
            self@.error() is None,
    {
        proof {
            use_type_invariant(self);
        }
        self.num_components
    }

    /// Number of nodes along one direction.
    pub fn node_order(&self) -> (n: usize)
        ensures
            n == self@.node_order,
            self@.error() is None,
    {
        proof {
            use_type_invariant(self);
        }
        self.node_order
    }

    /// Number of quadrature points along one direction.
    pub fn quad_order(&self) -> (n: usize)
        ensures
            n == self@.quad_order,
            self@.error() is None,
    {
        proof {
            use_type_invariant(self);
        }
        self.quad_order
    }

    /// Family of the quadrature points.
    pub fn quad_family(&self) -> (m: QuadMode)
        ensures
            m == self@.quad_family,
            self@.error() is None,
    {
        proof {
            use_type_invariant(self);
        }
        self.quad_family
    }

    /// Number of nodes of an element.
    pub fn num_nodes(&self) -> (n: usize)
        ensures
            n == self@.num_nodes(),
            self@.error() is None,
    {
        proof {
            use_type_invariant(self);
        }
        self.num_nodes
    }

    /// Number of quadrature points of an element.
    pub fn num_quadrature_points(&self) -> (n: usize)
        ensures
            n == self@.num_quadrature_points(),
            self@.error() is None,
    {
        proof {
            use_type_invariant(self);
        }
        self.num_quadrature_points
    }
}

} // verus!
