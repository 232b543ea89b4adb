//! The composition of an operator from its fields.
//!
//! An operator evaluates a kernel at the quadrature points of every element.
//! Each field of the kernel is tied to a restriction, which says where the
//! values of an element lie in a local vector, to a basis, which takes the
//! values from the nodes to the quadrature points, and to the vector that
//! backs it. The evaluation is the business of a kernel library; what is
//! settled here is whether the fields fit together.
use crate::basis::{Basis, BasisView};
use crate::error::FieldError;
use crate::restriction::RestrictionShape;
use vstd::prelude::*;

verus! {

/// The vector behind a field.
#[derive(Clone, Copy, Debug, PartialEq, Eq, Structural)]
pub enum FieldRole {
    /// The vector that the operator is applied to or writes, given with each
    /// call.
    Active,
    /// A vector computed beforehand, given once and read at each call.
    Passive,
    /// No vector: the field holds the quadrature weights.
    Unbacked,
}

/// How the values of a field reach the quadrature points.
#[derive(Clone, Copy, Debug, PartialEq, Eq, Structural)]
pub enum FieldBasis {
    /// Through a tensor-product basis.
    Tensor(Basis),
    /// Not at all: the values are kept at the quadrature points.
    Collocated,
}

/// The mathematical content of a [`FieldBasis`].
pub enum FieldBasisView {
    Tensor(BasisView),
    Collocated,
}

impl View for FieldBasis {
    type V = FieldBasisView;

    open spec fn view(&self) -> FieldBasisView {
        match self {
            FieldBasis::Tensor(basis) => FieldBasisView::Tensor(basis@),
            FieldBasis::Collocated => FieldBasisView::Collocated,
        }
    }
}

/// One field of an operator.
#[derive(Clone, Debug, PartialEq, Eq)]
pub struct OperatorField {
    /// The name under which the kernel knows the field.
    pub name: String,
    /// The restriction of the field, unless it has no vector.
    pub restriction: Option<RestrictionShape>,
    /// The basis of the field.
    pub basis: FieldBasis,
    /// The vector behind the field.
    pub role: FieldRole,
}

/// The mathematical content of an [`OperatorField`].
pub struct OperatorFieldView {
    pub name: Seq<char>,
    pub restriction: Option<RestrictionShape>,
    pub basis: FieldBasisView,
    pub role: FieldRole,
}

impl View for OperatorField {
    type V = OperatorFieldView;

    open spec fn view(&self) -> OperatorFieldView {
        OperatorFieldView {
            name: self.name@,
            restriction: self.restriction,
            basis: self.basis@,
            role: self.role,
        }
    }
}

/// The content of each of the fields.
pub open spec fn fields_view(fields: Seq<OperatorField>) -> Seq<OperatorFieldView> {
    Seq::new(fields.len(), |i: int| fields[i]@)
}

impl OperatorFieldView {
    /// The number of elements that the field speaks of, where it has a
    /// restriction.
    pub open spec fn spec_elements(self) -> Option<usize> {
        match self.restriction {
            Some(shape) => Some(shape.num_elements),
            None => None,
        }
    }

    /// The number of quadrature points of an element that the field speaks
    /// of: that of its basis, or for values kept at the quadrature points the
    /// size of an element in its restriction.
    pub open spec fn spec_points(self) -> Option<usize> {
        match self.basis {
            FieldBasisView::Tensor(basis) => Some(basis.num_quadrature_points() as usize),
            FieldBasisView::Collocated => match self.restriction {
                Some(shape) => Some(shape.elem_size),
                None => None,
            },
        }
    }

}

impl OperatorField {
    /// The number of elements that the field speaks of.
    pub fn elements(&self) -> (r: Option<usize>)
        ensures
            r == self@.spec_elements(),
    {
        match self.restriction {
            Some(shape) => Some(shape.num_elements),
            None => None,
        }
    }

    /// The number of quadrature points of an element that the field speaks
    /// of.
    pub fn points(&self) -> (r: Option<usize>)
        ensures
            r == self@.spec_points(),
    {
        match self.basis {
            FieldBasis::Tensor(basis) => Some(basis.num_quadrature_points()),
            FieldBasis::Collocated => match self.restriction {
                Some(shape) => Some(shape.elem_size),
                None => None,
            },
        }
    }
}

/// No two of the fields disagree on the number of elements or on the number
/// of quadrature points.
pub open spec fn fields_agree(fields: Seq<OperatorFieldView>) -> bool {
    forall|i: int, j: int|
        #![trigger fields[i], fields[j]]
        0 <= i < fields.len() && 0 <= j < fields.len() ==> {
            &&& fields[i].spec_elements() is Some && fields[j].spec_elements() is Some
                ==> fields[i].spec_elements() == fields[j].spec_elements()
            &&& fields[i].spec_points() is Some && fields[j].spec_points() is Some
                ==> fields[i].spec_points() == fields[j].spec_points()
        }
}

/// The number of elements that the first `n` fields speak of, if any of them
/// speaks of one.
pub open spec fn common_elements(fields: Seq<OperatorFieldView>, n: nat) -> Option<usize>
    decreases n,
{
    if n == 0 {
        None
    } else {
        match common_elements(fields, (n - 1) as nat) {
            Some(count) => Some(count),
            None => fields[n - 1].spec_elements(),
        }
    }
}

/// The number of quadrature points that the first `n` fields speak of, if any
/// of them speaks of one.
pub open spec fn common_points(fields: Seq<OperatorFieldView>, n: nat) -> Option<usize>
    decreases n,
{
    if n == 0 {
        None
    } else {
        match common_points(fields, (n - 1) as nat) {
            Some(count) => Some(count),
            None => fields[n - 1].spec_points(),
        }
    }
}

/// An operator: a kernel and the fields that it is composed with.
#[derive(Debug, PartialEq, Eq)]
pub struct Operator {
    kernel: String,
    fields: Vec<OperatorField>,
    num_elements: Option<usize>,
    num_quadrature_points: Option<usize>,
}

/// The mathematical content of an [`Operator`].
pub struct OperatorView {
    /// The name of the kernel.
    pub kernel: Seq<char>,
    /// The fields, in the order in which they were given.
    pub fields: Seq<OperatorFieldView>,
}

impl OperatorView {
    /// The number of elements that the operator works on, if a field says.
    pub open spec fn num_elements(self) -> Option<usize> {
        common_elements(self.fields, self.fields.len())
    }

    /// The number of quadrature points of an element, if a field says.
    pub open spec fn num_quadrature_points(self) -> Option<usize> {
        common_points(self.fields, self.fields.len())
    }
}

impl View for Operator {
    type V = OperatorView;

    closed spec fn view(&self) -> OperatorView {
        OperatorView { kernel: self.kernel@, fields: fields_view(self.fields@) }
    }
}

impl Operator {
    #[verifier::type_invariant]
    spec fn inv(self) -> bool {
        &&& fields_agree(self@.fields)
        &&& self.num_elements == self@.num_elements()
        &&& self.num_quadrature_points == self@.num_quadrature_points()
    }

    /// Composes the kernel named `kernel` with `fields`. The fields must
    /// agree: those with a restriction on the number of elements, and all
    /// that speak of quadrature points on their number.
    pub fn construct(kernel: String, fields: Vec<OperatorField>) -> (r: Result<
        Operator,
        FieldError,
    >)
        ensures
            fields_agree(fields_view(fields@)) ==> r is Ok && r->Ok_0@ == (OperatorView {
                kernel: kernel@,
                fields: fields_view(fields@),
            }),
            !fields_agree(fields_view(fields@)) ==> r == Err::<Operator, FieldError>(
                FieldError::FieldSizeMismatch,
            ),
    {
        let ghost views = fields_view(fields@);
        let mut num_elements: Option<usize> = None;
        let mut num_quadrature_points: Option<usize> = None;
        let ghost mut from_e: int = 0;
        let ghost mut from_p: int = 0;
        let mut i: usize = 0;
        while i < fields.len()
            invariant
                i <= fields.len(),
                views == fields_view(fields@),
                num_elements == common_elements(views, i as nat),
                num_quadrature_points == common_points(views, i as nat),
                num_elements is Some ==> 0 <= from_e < i && views[from_e].spec_elements()
                    == num_elements,
                num_quadrature_points is Some ==> 0 <= from_p < i && views[from_p].spec_points()
                    == num_quadrature_points,
                forall|j: int|
                    0 <= j < i && (#[trigger] views[j]).spec_elements() is Some
                        ==> views[j].spec_elements() == num_elements,
                forall|j: int|
                    0 <= j < i && (#[trigger] views[j]).spec_points() is Some
                        ==> views[j].spec_points() == num_quadrature_points,
            decreases fields.len() - i,
        {
            assert(views[i as int] == fields@[i as int]@);
            match fields[i].elements() {
                Some(count) => match num_elements {
                    Some(before) => {
                        if count != before {
                            assert(views[from_e].spec_elements() != views[i as int].spec_elements());
                            return Err(FieldError::FieldSizeMismatch);
                        }
                    },
                    None => {
                        num_elements = Some(count);
                        proof {
                            from_e = i as int;
                        }
                    },
                },
                None => {},
            }
            match fields[i].points() {
                Some(count) => match num_quadrature_points {
                    Some(before) => {
                        if count != before {
                            assert(views[from_p].spec_points() != views[i as int].spec_points());
                            return Err(FieldError::FieldSizeMismatch);
                        }
                    },
                    None => {
                        num_quadrature_points = Some(count);
                        proof {
                            from_p = i as int;
                        }
                    },
                },
                None => {},
            }
            i += 1;
        }
        Ok(Operator { kernel, fields, num_elements, num_quadrature_points })
    }

    /// The name of the kernel.
    pub fn kernel(&self) -> (k: &String)
        ensures
            k@ == self@.kernel,
    {
        &self.kernel
    }

    /// The fields, in the order in which they were given.
    pub fn fields(&self) -> (f: &Vec<OperatorField>)
        ensures
            fields_view(f@) == self@.fields,
            fields_agree(self@.fields),
    {
        proof {
            use_type_invariant(self);
        }
        &self.fields
    }

    /// The number of elements that the operator works on, if a field says.
    pub fn num_elements(&self) -> (n: Option<usize>)
        ensures
            n == self@.num_elements(),
    {
        proof {
            use_type_invariant(self);
        }
        self.num_elements
    }

    /// The number of quadrature points of an element, if a field says.
    pub fn num_quadrature_points(&self) -> (n: Option<usize>)
        ensures
            n == self@.num_quadrature_points(),
    {
        proof {
            use_type_invariant(self);
        }
        self.num_quadrature_points
    }
}

/// The number of elements that the first `n` fields speak of is that of one
/// of them.
pub proof fn lemma_common_elements_witness(fields: Seq<OperatorFieldView>, n: nat) -> (i: int)
    requires
        n <= fields.len(),
        common_elements(fields, n) is Some,
    ensures
        0 <= i < n,
        fields[i].spec_elements() == common_elements(fields, n),
    decreases n,
{
    if common_elements(fields, (n - 1) as nat) is Some {
        lemma_common_elements_witness(fields, (n - 1) as nat)
    } else {
        n - 1
    }
}

/// The number of quadrature points that the first `n` fields speak of is
/// that of one of them.
pub proof fn lemma_common_points_witness(fields: Seq<OperatorFieldView>, n: nat) -> (i: int)
    requires
        n <= fields.len(),
        common_points(fields, n) is Some,
    ensures
        0 <= i < n,
        fields[i].spec_points() == common_points(fields, n),
    decreases n,
{
    if common_points(fields, (n - 1) as nat) is Some {
        lemma_common_points_witness(fields, (n - 1) as nat)
    } else {
        n - 1
    }
}

/// Where the fields agree, each field that speaks of a number of elements or
/// of quadrature points speaks of that of the operator.
pub proof fn lemma_common_counts(fields: Seq<OperatorFieldView>, n: nat, i: int)
    requires
        fields_agree(fields),
        n <= fields.len(),
        0 <= i < n,
    ensures
        fields[i].spec_elements() is Some ==> common_elements(fields, n)
            == fields[i].spec_elements(),
        fields[i].spec_points() is Some ==> common_points(fields, n) == fields[i].spec_points(),
    decreases n,
{
    if i < n - 1 {
        lemma_common_counts(fields, (n - 1) as nat, i);
    } else {
        if common_elements(fields, (n - 1) as nat) is Some {
            let j = lemma_common_elements_witness(fields, (n - 1) as nat);
            assert(fields[j].spec_elements() is Some && fields[i].spec_elements() is Some
                ==> fields[j].spec_elements() == fields[i].spec_elements());
        }
        if common_points(fields, (n - 1) as nat) is Some {
            let j = lemma_common_points_witness(fields, (n - 1) as nat);
            assert(fields[j].spec_points() is Some && fields[i].spec_points() is Some
                ==> fields[j].spec_points() == fields[i].spec_points());
        }
    }
}

} // verus!
