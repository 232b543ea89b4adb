//! The index map between a process-local vector and the element buffers.
//!
//! A restriction lists, element by element and node by node, where the first
//! component of the node lies in the local vector; the other components
//! follow it directly. A node whose value is fixed by an essential boundary
//! condition is listed as `-(i + 1)` in place of its index `i`: the sign says
//! that nothing is written back there, and [`involute`] gives the index.
use crate::error::{ConfigError, TopologyError};
use vstd::prelude::*;

verus! {

/// The index that an entry of a restriction or of a closure stands for.
pub open spec fn spec_involute(i: int) -> int {
    if i >= 0 {
        i
    } else {
        -(i + 1)
    }
}

/// Resolves an entry to the index it stands for.
pub fn involute(i: i32) -> (r: i32)
    ensures
        r == spec_involute(i as int),
        r >= 0,
{
    if i >= 0 {
        i
    } else {
        -(i + 1)
    }
}

/// Resolving never gives a negative index, changes no index that is not
/// negative, and undoes the encoding of a constrained index.
pub proof fn lemma_involute(i: int)
    ensures
        spec_involute(i) >= 0,
        spec_involute(spec_involute(i)) == spec_involute(i),
        i >= 0 ==> spec_involute(i) == i && spec_involute(-(i + 1)) == i,
{
}

/// The entry of a closure for one component of one node.
pub open spec fn closure_entry(closure: Seq<i32>, num_components: nat, node: int, comp: int) -> i32 {
    closure[node * num_components + comp]
}

/// The components of every node follow each other in the local vector.
pub open spec fn closure_interlaced(closure: Seq<i32>, cell_size: nat, num_components: nat) -> bool {
    forall|node: int, comp: int|
        0 <= node < cell_size && 0 <= comp < num_components ==> spec_involute(
            #[trigger] closure_entry(closure, num_components, node, comp) as int,
        ) == spec_involute(closure_entry(closure, num_components, node, 0) as int) + comp
}

/// The closure lists `num_components` consecutive indices for each of
/// `cell_size` nodes.
pub open spec fn closure_consistent(closure: Seq<i32>, cell_size: nat, num_components: nat) -> bool {
    &&& num_components >= 1
    &&& closure.len() == cell_size * num_components
    &&& closure_interlaced(closure, cell_size, num_components)
}

/// Every component of every node lies inside a local vector of `l_size`
/// entries.
pub open spec fn closure_in_range(
    closure: Seq<i32>,
    cell_size: nat,
    num_components: nat,
    l_size: nat,
) -> bool {
    forall|node: int|
        0 <= node < cell_size ==> spec_involute(
            #[trigger] closure_entry(closure, num_components, node, 0) as int,
        ) + num_components <= l_size
}

/// What is wrong with the closure of one cell, if anything.
pub open spec fn cell_error(
    closure: Seq<i32>,
    cell_size: nat,
    num_components: nat,
    l_size: nat,
) -> Option<TopologyError> {
    if !closure_consistent(closure, cell_size, num_components) {
        Some(TopologyError::InconsistentClosure)
    } else if !closure_in_range(closure, cell_size, num_components, l_size) {
        Some(TopologyError::OffsetOutOfRange)
    } else {
        None
    }
}

/// The entries that one cell contributes: that of the first component of each
/// node, in the order of the closure.
pub open spec fn cell_offsets(closure: Seq<i32>, cell_size: nat, num_components: nat) -> Seq<i32> {
    Seq::new(cell_size, |node: int| closure_entry(closure, num_components, node, 0))
}

/// Whether the walk over the cells takes cell `c`: without a label every cell
/// is taken, with one those that it gives the value `value`.
pub open spec fn cell_selected(label: Option<Seq<i32>>, value: i32, c: int) -> bool {
    match label {
        None => true,
        Some(values) => 0 <= c < values.len() && values[c] == value,
    }
}

/// The number of cells among the first `n` that the walk takes.
pub open spec fn selected_count(label: Option<Seq<i32>>, value: i32, n: nat) -> nat
    decreases n,
{
    if n == 0 {
        0
    } else {
        selected_count(label, value, (n - 1) as nat) + if cell_selected(label, value, n - 1) {
            1nat
        } else {
            0nat
        }
    }
}

/// The entries that the first `n` cells contribute, cell after cell.
pub open spec fn walk_offsets(
    cells: Seq<Seq<i32>>,
    label: Option<Seq<i32>>,
    value: i32,
    cell_size: nat,
    num_components: nat,
    n: nat,
) -> Seq<i32>
    decreases n,
{
    if n == 0 {
        Seq::empty()
    } else {
        let before = walk_offsets(cells, label, value, cell_size, num_components, (n - 1) as nat);
        if cell_selected(label, value, n - 1) {
            before + cell_offsets(cells[n - 1], cell_size, num_components)
        } else {
            before
        }
    }
}

/// The error of the first cell among the first `n` that the walk takes and
/// finds wrong.
pub open spec fn walk_error(
    cells: Seq<Seq<i32>>,
    label: Option<Seq<i32>>,
    value: i32,
    cell_size: nat,
    num_components: nat,
    l_size: nat,
    n: nat,
) -> Option<TopologyError>
    decreases n,
{
    if n == 0 {
        None
    } else {
        match walk_error(cells, label, value, cell_size, num_components, l_size, (n - 1) as nat) {
            Some(e) => Some(e),
            None => if cell_selected(label, value, n - 1) {
                cell_error(cells[n - 1], cell_size, num_components, l_size)
            } else {
                None
            },
        }
    }
}

/// Examines the closure of one cell.
fn check_closure(closure: &Vec<i32>, cell_size: usize, num_components: usize, l_size: usize) -> (r:
    Option<TopologyError>)
    ensures
        r == cell_error(closure@, cell_size as nat, num_components as nat, l_size as nat),
{
    if num_components == 0 {
        return Some(TopologyError::InconsistentClosure);
    }
    let len = closure.len();
    match cell_size.checked_mul(num_components) {
        Some(expected) => {
            if len != expected {
                return Some(TopologyError::InconsistentClosure);
            }
        },
        None => {
            return Some(TopologyError::InconsistentClosure);
        },
    }
    let mut in_range = true;
    let mut node: usize = 0;
    let mut base: usize = 0;
    while node < cell_size
        invariant
            node <= cell_size,
            base == node * num_components,
            num_components >= 1,
            closure.len() == cell_size * num_components,
            forall|i: int, j: int|
                0 <= i < node && 0 <= j < num_components ==> spec_involute(
                    #[trigger] closure_entry(closure@, num_components as nat, i, j) as int,
                ) == spec_involute(closure_entry(closure@, num_components as nat, i, 0) as int)
                    + j,
            in_range <==> forall|i: int|
                0 <= i < node ==> spec_involute(
                    #[trigger] closure_entry(closure@, num_components as nat, i, 0) as int,
                ) + num_components <= l_size,
        decreases cell_size - node,
    {
        proof {
            lemma_node_run(node as int, cell_size as int, num_components as int);
        }
        let first = involute(closure[base]);
        let mut comp: usize = 0;
        while comp < num_components
            invariant
                comp <= num_components,
                node < cell_size,
                base == node * num_components,
                base + num_components <= closure.len(),
                first == spec_involute(
                    closure_entry(closure@, num_components as nat, node as int, 0) as int,
                ),
                forall|j: int|
                    0 <= j < comp ==> spec_involute(
                        #[trigger] closure_entry(closure@, num_components as nat, node as int, j) as int,
                    ) == first + j,
            decreases num_components - comp,
        {
            let entry = involute(closure[base + comp]);
            if entry as u128 != first as u128 + comp as u128 {
                assert(spec_involute(
                    closure_entry(closure@, num_components as nat, node as int, comp as int) as int,
                ) != spec_involute(
                    closure_entry(closure@, num_components as nat, node as int, 0) as int,
                ) + comp);
                return Some(TopologyError::InconsistentClosure);
            }
            comp += 1;
        }
        if first as u128 + num_components as u128 > l_size as u128 {
            in_range = false;
        }
        node += 1;
        base += num_components;
    }
    if in_range {
        None
    } else {
        Some(TopologyError::OffsetOutOfRange)
    }
}

/// The indices of one node form a run inside the closure.
proof fn lemma_node_run(node: int, cell_size: int, num_components: int)
    requires
        0 <= node < cell_size,
        0 <= num_components,
    ensures
        (node + 1) * num_components == node * num_components + num_components,
        node * num_components + num_components <= cell_size * num_components,
        0 <= node * num_components,
{
    assert((node + 1) * num_components == node * num_components + num_components)
        by (nonlinear_arith);
    assert((node + 1) * num_components <= cell_size * num_components) by (nonlinear_arith)
        requires
            node + 1 <= cell_size,
            0 <= num_components,
    ;
    assert(0 <= node * num_components) by (nonlinear_arith)
        requires
            0 <= node,
            0 <= num_components,
    ;
}

/// The index map of one field on the cells of one process.
#[derive(Debug, PartialEq, Eq)]
pub struct Restriction {
    num_elements: usize,
    nodes_per_element: usize,
    num_components: usize,
    local_vector_size: usize,
    offsets: Vec<i32>,
}

/// The mathematical content of a [`Restriction`].
pub struct RestrictionView {
    /// Number of elements.
    pub num_elements: nat,
    /// Number of nodes that the field has on each element.
    pub nodes_per_element: nat,
    /// Number of components of the field.
    pub num_components: nat,
    /// Length of the local vector.
    pub local_vector_size: nat,
    /// The entries, element after element, node after node.
    pub offsets: Seq<i32>,
}

impl RestrictionView {
    /// There is one entry for each node of each element, and every component
    /// of every node lies inside the local vector.
    pub open spec fn wf(self) -> bool {
        &&& self.offsets.len() == self.num_elements * self.nodes_per_element
        &&& self.offsets.len() > 0 ==> self.num_components >= 1
        &&& forall|k: int|
            0 <= k < self.offsets.len() ==> spec_involute(#[trigger] self.offsets[k] as int)
                + self.num_components <= self.local_vector_size
    }

    /// The entry for a node of an element.
    pub open spec fn entry(self, element: int, node: int) -> i32 {
        self.offsets[element * self.nodes_per_element + node]
    }

    /// Whether `element` and `node` name a node of the restriction.
    pub open spec fn has_node(self, element: int, node: int) -> bool {
        0 <= element < self.num_elements && 0 <= node < self.nodes_per_element
    }

    /// The sizes of the restriction.
    pub open spec fn shape(self) -> RestrictionShape {
        RestrictionShape {
            num_elements: self.num_elements as usize,
            elem_size: self.nodes_per_element as usize,
            num_components: self.num_components as usize,
            l_size: self.local_vector_size as usize,
        }
    }
}

impl RestrictionView {
    /// What keeps the restriction from being well formed, if anything: a
    /// number of entries other than one for each node of each element is
    /// inconsistent, and so are entries for a field without components; an
    /// entry that does not lie inside the local vector with all its
    /// components is out of range.
    pub open spec fn error(self) -> Option<TopologyError> {
        if !(self.offsets.len() == self.num_elements * self.nodes_per_element && (
        self.offsets.len() > 0 ==> self.num_components >= 1)) {
            Some(TopologyError::InconsistentClosure)
        } else if !self.wf() {
            Some(TopologyError::OffsetOutOfRange)
        } else {
            None
        }
    }
}

/// A restriction is well formed exactly when nothing keeps it from being so.
pub proof fn lemma_error_none(v: RestrictionView)
    ensures
        v.error() is None <==> v.wf(),
{
}

/// The sizes of a restriction, without its entries.
#[derive(Clone, Copy, Debug, PartialEq, Eq, Structural)]
pub struct RestrictionShape {
    /// Number of elements.
    pub num_elements: usize,
    /// Number of nodes, or of quadrature points, on each element.
    pub elem_size: usize,
    /// Number of components at each of them.
    pub num_components: usize,
    /// Length of the local vector.
    pub l_size: usize,
}

/// The shape of the restriction of a vector that holds `num_components`
/// values at each of `elem_size` points of each of `num_elements` elements
/// and nothing else. Such a vector belongs to one element at a time, so its
/// restriction needs no entries.
pub fn strided_elem_restriction(num_elements: usize, elem_size: usize, num_components: usize) -> (r:
    Result<RestrictionShape, ConfigError>)
    ensures
        num_elements * elem_size * num_components <= usize::MAX ==> r == Ok::<
            RestrictionShape,
            ConfigError,
        >(
            RestrictionShape {
                num_elements,
                elem_size,
                num_components,
                l_size: (num_elements * elem_size * num_components) as usize,
            },
        ),
        num_elements * elem_size * num_components > usize::MAX ==> r == Err::<
            RestrictionShape,
            ConfigError,
        >(ConfigError::TooLarge),
{
    if num_elements == 0 || elem_size == 0 || num_components == 0 {
        assert(num_elements * elem_size * num_components == 0) by (nonlinear_arith)
            requires
                num_elements == 0 || elem_size == 0 || num_components == 0,
        ;
        return Ok(RestrictionShape { num_elements, elem_size, num_components, l_size: 0 });
    }
    match num_elements.checked_mul(elem_size) {
        Some(points) => match points.checked_mul(num_components) {
            Some(l_size) => Ok(RestrictionShape { num_elements, elem_size, num_components, l_size }),
            None => Err(ConfigError::TooLarge),
        },
        None => {
            assert(num_elements * elem_size * num_components >= num_elements * elem_size)
                by (nonlinear_arith)
                requires
                    num_components >= 1,
                    num_elements * elem_size >= 0,
            ;
            Err(ConfigError::TooLarge)
        },
    }
}

impl Restriction {
    #[verifier::type_invariant]
    spec fn inv(self) -> bool {
        self@.wf()
    }

    /// Makes a restriction of entries that are already laid out element after
    /// element, if they are well formed.
    pub fn new(
        num_elements: usize,
        nodes_per_element: usize,
        num_components: usize,
        local_vector_size: usize,
        offsets: Vec<i32>,
    ) -> (r: Result<Restriction, TopologyError>)
        ensures
            ({
                let v = RestrictionView {
                    num_elements: num_elements as nat,
                    nodes_per_element: nodes_per_element as nat,
                    num_components: num_components as nat,
                    local_vector_size: local_vector_size as nat,
                    offsets: offsets@,
                };
                match v.error() {
                    Some(e) => r == Err::<Restriction, TopologyError>(e),
                    None => r is Ok && r->Ok_0@ == v && v.wf(),
                }
            }),
    {
        let len = offsets.len();
        match num_elements.checked_mul(nodes_per_element) {
            Some(expected) => {
                if len != expected {
                    return Err(TopologyError::InconsistentClosure);
                }
            },
            None => {
                return Err(TopologyError::InconsistentClosure);
            },
        }
        if len > 0 && num_components == 0 {
            return Err(TopologyError::InconsistentClosure);
        }
        let mut k: usize = 0;
        while k < len
            invariant
                k <= len,
                len == offsets.len(),
                len == num_elements * nodes_per_element,
                len > 0 ==> num_components >= 1,
                forall|i: int|
                    0 <= i < k ==> spec_involute(#[trigger] offsets@[i] as int) + num_components
                        <= local_vector_size,
            decreases len - k,
        {
            if involute(offsets[k]) as u128 + num_components as u128 > local_vector_size as u128 {
                assert(spec_involute(offsets@[k as int] as int) + num_components
                    > local_vector_size);
                return Err(TopologyError::OffsetOutOfRange);
            }
            k += 1;
        }
        Ok(Restriction { num_elements, nodes_per_element, num_components, local_vector_size, offsets })
    }

    /// Number of elements.
    pub fn num_elements(&self) -> (n: usize)
        ensures
            n == self@.num_elements,
            self@.wf(),
    {
        proof {
            use_type_invariant(self);
        }
        self.num_elements
    }

    /// Number of nodes that the field has on each element.
    pub fn nodes_per_element(&self) -> (n: usize)
        ensures
            n == self@.nodes_per_element,
            self@.wf(),
    {
        proof {
            use_type_invariant(self);
        }
        self.nodes_per_element
    }

    /// Number of components of the field.
    pub fn num_components(&self) -> (n: usize)
        ensures
            n == self@.num_components,
            self@.wf(),
    {
        proof {
            use_type_invariant(self);
        }
        self.num_components
    }

    /// Length of the local vector.
    pub fn local_vector_size(&self) -> (n: usize)
        ensures
            n == self@.local_vector_size,
            self@.wf(),
    {
        proof {
            use_type_invariant(self);
        }
        self.local_vector_size
    }

    /// The sizes of the restriction.
    pub fn shape(&self) -> (s: RestrictionShape)
        ensures
            s == self@.shape(),
            s.num_elements == self@.num_elements,
            s.elem_size == self@.nodes_per_element,
            s.num_components == self@.num_components,
            s.l_size == self@.local_vector_size,
            self@.wf(),
    {
        proof {
            use_type_invariant(self);
        }
        RestrictionShape {
            num_elements: self.num_elements,
            elem_size: self.nodes_per_element,
            num_components: self.num_components,
            l_size: self.local_vector_size,
        }
    }

    /// The entries as they are kept, with the sign of the constrained nodes.
    pub fn offsets(&self) -> (o: &Vec<i32>)
        ensures
            o@ == self@.offsets,
            self@.wf(),
    {
        proof {
            use_type_invariant(self);
        }
        &self.offsets
    }

    /// The entries resolved to indices, as a kernel library reads them.
    pub fn resolved_offsets(&self) -> (o: Vec<i32>)
        ensures
            o@.len() == self@.offsets.len(),
            forall|k: int|
                0 <= k < o@.len() ==> #[trigger] o@[k] == spec_involute(self@.offsets[k] as int),
            forall|k: int| 0 <= k < o@.len() ==> 0 <= #[trigger] o@[k] < self@.local_vector_size,
    {
        proof {
            use_type_invariant(self);
        }
        let mut o: Vec<i32> = Vec::new();
        let mut k: usize = 0;
        while k < self.offsets.len()
            invariant
                k <= self.offsets.len(),
                self@.wf(),
                self@.offsets == self.offsets@,
                o@.len() == k,
                forall|i: int|
                    0 <= i < k ==> #[trigger] o@[i] == spec_involute(self.offsets@[i] as int),
            decreases self.offsets.len() - k,
        {
            o.push(involute(self.offsets[k]));
            k += 1;
        }
        o
    }

    /// The entry for a node of an element, if there is such a node.
    pub fn entry(&self, element: usize, node: usize) -> (r: Option<i32>)
        ensures
            self@.has_node(element as int, node as int) ==> r == Some(
                self@.entry(element as int, node as int),
            ),
            !self@.has_node(element as int, node as int) ==> r is None,
    {
        proof {
            use_type_invariant(self);
        }
        if element < self.num_elements && node < self.nodes_per_element {
            proof {
                lemma_node_run(
                    element as int,
                    self.num_elements as int,
                    self.nodes_per_element as int,
                );
                assert(self.num_elements * self.nodes_per_element == self.offsets.len()
                    <= usize::MAX);
            }
            Some(self.offsets[element * self.nodes_per_element + node])
        } else {
            None
        }
    }

    /// Whether a node of an element is fixed by an essential boundary
    /// condition, if there is such a node.
    pub fn is_constrained(&self, element: usize, node: usize) -> (r: Option<bool>)
        ensures
            self@.has_node(element as int, node as int) ==> r == Some(
                self@.entry(element as int, node as int) < 0,
            ),
            !self@.has_node(element as int, node as int) ==> r is None,
    {
        match self.entry(element, node) {
            Some(e) => Some(e < 0),
            None => None,
        }
    }

    /// Where a component of a node of an element lies in the local vector,
    /// if there is such a component.
    pub fn local_index(&self, element: usize, node: usize, comp: usize) -> (r: Option<usize>)
        ensures
            self@.has_node(element as int, node as int) && comp < self@.num_components ==> r
                == Some(
                (spec_involute(self@.entry(element as int, node as int) as int) + comp) as usize,
            ) && r->Some_0 < self@.local_vector_size,
            !(self@.has_node(element as int, node as int) && comp < self@.num_components) ==> r
                is None,
    {
        proof {
            use_type_invariant(self);
        }
        if comp >= self.num_components {
            return None;
        }
        match self.entry(element, node) {
            Some(e) => {
                proof {
                    lemma_node_run(
                        element as int,
                        self.num_elements as int,
                        self.nodes_per_element as int,
                    );
                    assert(self@.offsets[element * self.nodes_per_element + node] == e);
                }
                Some(involute(e) as usize + comp)
            },
            None => None,
        }
    }
}

impl View for Restriction {
    type V = RestrictionView;

    closed spec fn view(&self) -> RestrictionView {
        RestrictionView {
            num_elements: self.num_elements as nat,
            nodes_per_element: self.nodes_per_element as nat,
            num_components: self.num_components as nat,
            local_vector_size: self.local_vector_size as nat,
            offsets: self.offsets@,
        }
    }
}

/// What a label says of the cells, as a sequence of values.
pub open spec fn label_view(label: Option<&Vec<i32>>) -> Option<Seq<i32>> {
    match label {
        Some(values) => Some(values@),
        None => None,
    }
}

/// Appends the entries of one cell.
fn push_cell_offsets(
    offsets: &mut Vec<i32>,
    closure: &Vec<i32>,
    cell_size: usize,
    num_components: usize,
)
    requires
        closure.len() == cell_size * num_components,
        num_components >= 1,
    ensures
        final(offsets)@ == old(offsets)@ + cell_offsets(
            closure@,
            cell_size as nat,
            num_components as nat,
        ),
{
    let ghost before = offsets@;
    let mut node: usize = 0;
    let mut base: usize = 0;
    while node < cell_size
        invariant
            node <= cell_size,
            base == node * num_components,
            num_components >= 1,
            closure.len() == cell_size * num_components,
            offsets@.len() == before.len() + node,
            forall|k: int| 0 <= k < before.len() ==> offsets@[k] == before[k],
            forall|i: int|
                0 <= i < node ==> offsets@[before.len() + i] == closure_entry(
                    closure@,
                    num_components as nat,
                    i,
                    0,
                ),
        decreases cell_size - node,
    {
        proof {
            lemma_node_run(node as int, cell_size as int, num_components as int);
        }
        offsets.push(closure[base]);
        node += 1;
        base += num_components;
    }
    assert(offsets@ =~= before + cell_offsets(closure@, cell_size as nat, num_components as nat));
}

/// Builds the restriction of a field from the closures of the cells of a
/// mesh.
///
/// `closures` holds, for each cell at the height asked for and in the order
/// of the mesh, the indices into the local vector that the closure of the
/// cell touches: for each node of the cell, one index for each component.
/// With a `label`, which gives each cell a value, only the cells whose value
/// is `value` are walked; a cell that the label does not reach has no value.
/// `cell_size` is the number of nodes that the field has on a cell and
/// `l_size` the length of the local vector.
///
/// The walk stops at the first cell whose closure is wrong: one that does not
/// hold `num_components` consecutive indices for each of `cell_size` nodes is
/// inconsistent, and one with a node outside the local vector is out of
/// range. Otherwise each cell walked is an element of the restriction, in the
/// order of the walk, with the entry of the first component of each of its
/// nodes.
pub fn create_restriction_from_dm_plex(
    closures: &Vec<Vec<i32>>,
    label: Option<&Vec<i32>>,
    value: i32,
    num_components: usize,
    cell_size: usize,
    l_size: usize,
) -> (r: Result<Restriction, TopologyError>)
    ensures
        match walk_error(
            closures.deep_view(),
            label_view(label),
            value,
            cell_size as nat,
            num_components as nat,
            l_size as nat,
            closures.len() as nat,
        ) {
            Some(e) => r == Err::<Restriction, TopologyError>(e),
            None => r is Ok && r->Ok_0@.wf() && r->Ok_0@ == (RestrictionView {
                num_elements: selected_count(label_view(label), value, closures.len() as nat),
                nodes_per_element: cell_size as nat,
                num_components: num_components as nat,
                local_vector_size: l_size as nat,
                offsets: walk_offsets(
                    closures.deep_view(),
                    label_view(label),
                    value,
                    cell_size as nat,
                    num_components as nat,
                    closures.len() as nat,
                ),
            }),
        },
{
    let ghost cells = closures.deep_view();
    let ghost lab = label_view(label);
    let mut offsets: Vec<i32> = Vec::new();
    let mut num_elements: usize = 0;
    let mut c: usize = 0;
    while c < closures.len()
        invariant
            c <= closures.len(),
            cells == closures.deep_view(),
            lab == label_view(label),
            num_elements <= c,
            num_elements == selected_count(lab, value, c as nat),
            walk_error(
                cells,
                lab,
                value,
                cell_size as nat,
                num_components as nat,
                l_size as nat,
                c as nat,
            ) is None,
            offsets@ == walk_offsets(
                cells,
                lab,
                value,
                cell_size as nat,
                num_components as nat,
                c as nat,
            ),
            offsets@.len() == num_elements * cell_size,
            offsets@.len() > 0 ==> num_components >= 1,
            forall|k: int|
                0 <= k < offsets@.len() ==> spec_involute(#[trigger] offsets@[k] as int)
                    + num_components <= l_size,
        decreases closures.len() - c,
    {
        let selected = match label {
            None => true,
            Some(values) => c < values.len() && values[c] == value,
        };
        if selected {
            let closure = &closures[c];
            assert(cells[c as int] =~= closure@);
            match check_closure(closure, cell_size, num_components, l_size) {
                Some(e) => {
                    proof {
                        lemma_walk_error_stays(
                            cells,
                            lab,
                            value,
                            cell_size as nat,
                            num_components as nat,
                            l_size as nat,
                            (c + 1) as nat,
                            closures.len() as nat,
                        );
                    }
                    return Err(e);
                },
                None => {},
            }
            let ghost before = offsets@;
            push_cell_offsets(&mut offsets, closure, cell_size, num_components);
            proof {
                let added = cell_offsets(closure@, cell_size as nat, num_components as nat);
                assert((num_elements + 1) * cell_size == num_elements * cell_size + cell_size)
                    by (nonlinear_arith);
                assert forall|k: int| 0 <= k < offsets@.len() implies spec_involute(
                    #[trigger] offsets@[k] as int,
                ) + num_components <= l_size by {
                    if k >= before.len() {
                        let node = k - before.len();
                        assert(offsets@[k] == added[node]);
                        assert(added[node] == closure_entry(
                            closure@,
                            num_components as nat,
                            node,
                            0,
                        ));
                    } else {
                        assert(offsets@[k] == before[k]);
                    }
                }
            }
            num_elements += 1;
        }
        c += 1;
    }
    Ok(
        Restriction {
            num_elements,
            nodes_per_element: cell_size,
            num_components,
            local_vector_size: l_size,
            offsets,
        },
    )
}

/// Once the walk has found a cell wrong, the cells after it change nothing.
proof fn lemma_walk_error_stays(
    cells: Seq<Seq<i32>>,
    label: Option<Seq<i32>>,
    value: i32,
    cell_size: nat,
    num_components: nat,
    l_size: nat,
    n: nat,
    m: nat,
)
    requires
        n <= m,
        walk_error(cells, label, value, cell_size, num_components, l_size, n) is Some,
    ensures
        walk_error(cells, label, value, cell_size, num_components, l_size, m) == walk_error(
            cells,
            label,
            value,
            cell_size,
            num_components,
            l_size,
            n,
        ),
    decreases m,
{
    if n < m {
        lemma_walk_error_stays(
            cells,
            label,
            value,
            cell_size,
            num_components,
            l_size,
            n,
            (m - 1) as nat,
        );
    }
}

/// Without a label the walk takes every cell.
pub proof fn lemma_selected_count_all(value: i32, n: nat)
    ensures
        selected_count(None, value, n) == n,
    decreases n,
{
    if n > 0 {
        lemma_selected_count_all(value, (n - 1) as nat);
    }
}

/// The walk takes no more cells than there are, and contributes one entry for
/// each node of each cell that it takes.
pub proof fn lemma_walk_offsets_len(
    cells: Seq<Seq<i32>>,
    label: Option<Seq<i32>>,
    value: i32,
    cell_size: nat,
    num_components: nat,
    n: nat,
)
    ensures
        selected_count(label, value, n) <= n,
        walk_offsets(cells, label, value, cell_size, num_components, n).len() == selected_count(
            label,
            value,
            n,
        ) * cell_size,
    decreases n,
{
    if n > 0 {
        lemma_walk_offsets_len(cells, label, value, cell_size, num_components, (n - 1) as nat);
        let count = selected_count(label, value, (n - 1) as nat);
        assert((count + 1) * cell_size == count * cell_size + cell_size) by (nonlinear_arith);
    } else {
        assert(0 * cell_size == 0) by (nonlinear_arith);
    }
}

/// The walk succeeds exactly when nothing is wrong with any cell that it
/// takes.
pub proof fn lemma_walk_error_none(
    cells: Seq<Seq<i32>>,
    label: Option<Seq<i32>>,
    value: i32,
    cell_size: nat,
    num_components: nat,
    l_size: nat,
    n: nat,
)
    ensures
        walk_error(cells, label, value, cell_size, num_components, l_size, n) is None
            <==> forall|c: int|
            0 <= c < n && cell_selected(label, value, c) ==> cell_error(
                #[trigger] cells[c],
                cell_size,
                num_components,
                l_size,
            ) is None,
    decreases n,
{
    if n > 0 {
        lemma_walk_error_none(
            cells,
            label,
            value,
            cell_size,
            num_components,
            l_size,
            (n - 1) as nat,
        );
        if walk_error(cells, label, value, cell_size, num_components, l_size, n) is None {
            assert forall|c: int| 0 <= c < n && cell_selected(label, value, c) implies cell_error(
                #[trigger] cells[c],
                cell_size,
                num_components,
                l_size,
            ) is None by {
                if c < n - 1 {
                } else {
                    assert(c == n - 1);
                }
            }
        }
    }
}

/// What a walk without error gives is a well-formed restriction.
pub proof fn lemma_walk_wf(
    cells: Seq<Seq<i32>>,
    label: Option<Seq<i32>>,
    value: i32,
    cell_size: nat,
    num_components: nat,
    l_size: nat,
    n: nat,
)
    requires
        walk_error(cells, label, value, cell_size, num_components, l_size, n) is None,
    ensures
        (RestrictionView {
            num_elements: selected_count(label, value, n),
            nodes_per_element: cell_size,
            num_components,
            local_vector_size: l_size,
            offsets: walk_offsets(cells, label, value, cell_size, num_components, n),
        }).wf(),
    decreases n,
{
    lemma_walk_offsets_len(cells, label, value, cell_size, num_components, n);
    if n > 0 {
        lemma_walk_wf(cells, label, value, cell_size, num_components, l_size, (n - 1) as nat);
        let before = walk_offsets(cells, label, value, cell_size, num_components, (n - 1) as nat);
        let all = walk_offsets(cells, label, value, cell_size, num_components, n);
        if cell_selected(label, value, n - 1) {
            let added = cell_offsets(cells[n - 1], cell_size, num_components);
            assert forall|k: int| 0 <= k < all.len() implies spec_involute(
                #[trigger] all[k] as int,
            ) + num_components <= l_size by {
                if k >= before.len() {
                    let node = k - before.len();
                    assert(all[k] == added[node]);
                    assert(added[node] == closure_entry(cells[n - 1], num_components, node, 0));
                } else {
                    assert(all[k] == before[k]);
                }
            }
        }
    }
}

} // verus!
