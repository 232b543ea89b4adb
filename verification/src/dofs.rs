//! The degrees of freedom that a restriction touches.
use crate::restriction::{
    cell_error, cell_offsets, closure_consistent, closure_entry, lemma_walk_wf, selected_count,
    spec_involute, walk_error, walk_offsets, RestrictionView,
};
use vstd::arithmetic::power::pow;
use vstd::prelude::*;
use vstd::set_lib::{lemma_int_range, lemma_set_disjoint_lens, set_int_range};

verus! {

/// Where component `comp` of the node behind entry `k` lies in the local
/// vector.
pub open spec fn dof(v: RestrictionView, k: int, comp: int) -> int {
    spec_involute(v.offsets[k] as int) + comp
}

/// Whether index `d` of the local vector belongs to a node behind one of the
/// first `n` entries.
pub open spec fn touched(v: RestrictionView, n: int, d: int) -> bool {
    exists|k: int, comp: int|
        0 <= k < n && 0 <= comp < v.num_components && #[trigger] dof(v, k, comp) == d
}

/// The indices of the local vector that belong to the nodes behind the first
/// `n` entries.
pub open spec fn dofs_upto(v: RestrictionView, n: int) -> Set<int> {
    Set::new(|d: int| touched(v, n, d))
}

/// The indices of the local vector that the restriction touches.
pub open spec fn dofs(v: RestrictionView) -> Set<int> {
    dofs_upto(v, v.offsets.len() as int)
}

/// No two entries stand for nodes that share an index of the local vector.
pub open spec fn nodes_apart(v: RestrictionView) -> bool {
    forall|j: int, k: int|
        #![trigger v.offsets[j], v.offsets[k]]
        0 <= j < k < v.offsets.len() ==> spec_involute(v.offsets[j] as int) + v.num_components
            <= spec_involute(v.offsets[k] as int) || spec_involute(v.offsets[k] as int)
            + v.num_components <= spec_involute(v.offsets[j] as int)
}

/// Every entry of a well-formed restriction resolves to an index of the
/// local vector, and so does every component of its node.
pub proof fn lemma_entries_in_range(v: RestrictionView, k: int, comp: int)
    requires
        v.wf(),
        0 <= k < v.offsets.len(),
        0 <= comp < v.num_components,
    ensures
        0 <= spec_involute(v.offsets[k] as int) < v.local_vector_size,
        0 <= dof(v, k, comp) < v.local_vector_size,
{
}

/// A well-formed restriction touches nothing outside the local vector.
pub proof fn lemma_dofs_in_range(v: RestrictionView, d: int)
    requires
        v.wf(),
        dofs(v).contains(d),
    ensures
        0 <= d < v.local_vector_size,
{
    let (k, comp) = choose|k: int, comp: int|
        0 <= k < v.offsets.len() && 0 <= comp < v.num_components && #[trigger] dof(v, k, comp)
            == d;
    lemma_entries_in_range(v, k, comp);
}

/// Entries whose nodes share no index touch as many indices as they have
/// nodes, times the number of components.
pub proof fn lemma_dofs_count(v: RestrictionView, n: nat)
    requires
        nodes_apart(v),
        n <= v.offsets.len(),
    ensures
        dofs_upto(v, n as int).finite(),
        dofs_upto(v, n as int).len() == n * v.num_components,
    decreases n,
{
    if n == 0 {
        assert(dofs_upto(v, 0) =~= Set::empty());
        assert(0 * v.num_components == 0) by (nonlinear_arith);
    } else {
        let before = dofs_upto(v, n - 1);
        let first = spec_involute(v.offsets[n - 1] as int);
        let run = set_int_range(first, first + v.num_components);
        lemma_dofs_count(v, (n - 1) as nat);
        lemma_int_range(first, first + v.num_components);
        assert forall|d: int| dofs_upto(v, n as int).contains(d) implies (before + run).contains(
            d,
        ) by {
            let (k, comp) = choose|k: int, comp: int|
                0 <= k < n && 0 <= comp < v.num_components && #[trigger] dof(v, k, comp) == d;
            if k < n - 1 {
                assert(touched(v, n - 1, d));
            }
        }
        assert forall|d: int| (before + run).contains(d) implies dofs_upto(v, n as int).contains(
            d,
        ) by {
            if before.contains(d) {
                let (k, comp) = choose|k: int, comp: int|
                    0 <= k < n - 1 && 0 <= comp < v.num_components && #[trigger] dof(v, k, comp)
                        == d;
                assert(dof(v, k, comp) == d);
            } else {
                assert(dof(v, n - 1, d - first) == d);
            }
        }
        assert(dofs_upto(v, n as int) =~= before + run);
        assert forall|d: int| before.contains(d) implies !run.contains(d) by {
            let (k, comp) = choose|k: int, comp: int|
                0 <= k < n - 1 && 0 <= comp < v.num_components && #[trigger] dof(v, k, comp) == d;
            assert(spec_involute(v.offsets[k] as int) + v.num_components <= spec_involute(
                v.offsets[n - 1] as int,
            ) || spec_involute(v.offsets[n - 1] as int) + v.num_components <= spec_involute(
                v.offsets[k] as int,
            ));
        }
        assert(before.disjoint(run));
        lemma_set_disjoint_lens(before, run);
        assert(n * v.num_components == (n - 1) * v.num_components + v.num_components)
            by (nonlinear_arith);
    }
}

/// A restriction of a single element whose nodes share no index touches one
/// index of the local vector for each component of each node of the element,
/// and none outside the local vector.
pub proof fn lemma_single_element_dofs(v: RestrictionView)
    requires
        v.wf(),
        v.num_elements == 1,
        nodes_apart(v),
    ensures
        dofs(v).finite(),
        dofs(v).len() == v.nodes_per_element * v.num_components,
        forall|d: int| dofs(v).contains(d) ==> 0 <= d < v.local_vector_size,
{
    assert(1 * v.nodes_per_element == v.nodes_per_element) by (nonlinear_arith);
    lemma_dofs_count(v, v.offsets.len());
    assert forall|d: int| dofs(v).contains(d) implies 0 <= d < v.local_vector_size by {
        lemma_dofs_in_range(v, d);
    }
}

/// A cube of polynomial order `order` has `order + 1` nodes along each of
/// its three directions.
pub proof fn lemma_cube_nodes(order: nat)
    ensures
        pow((order + 1) as int, 3) == (order + 1) * (order + 1) * (order + 1),
{
    reveal_with_fuel(pow, 4);
    assert((order + 1) * ((order + 1) * ((order + 1) * 1)) == (order + 1) * (order + 1) * (order
        + 1)) by (nonlinear_arith);
}

/// No index of the local vector occurs twice in the closure.
pub open spec fn closure_distinct(closure: Seq<i32>) -> bool {
    forall|a: int, b: int|
        #![trigger closure[a], closure[b]]
        0 <= a < b < closure.len() ==> spec_involute(closure[a] as int) != spec_involute(
            closure[b] as int,
        )
}

/// The nodes of a consistent closure in which no index occurs twice share no
/// index.
proof fn lemma_distinct_nodes_apart(
    closure: Seq<i32>,
    cell_size: nat,
    num_components: nat,
    j: int,
    k: int,
)
    requires
        closure_consistent(closure, cell_size, num_components),
        closure_distinct(closure),
        0 <= j < cell_size,
        0 <= k < cell_size,
        j != k,
    ensures
        spec_involute(closure_entry(closure, num_components, j, 0) as int) + num_components
            <= spec_involute(closure_entry(closure, num_components, k, 0) as int) || spec_involute(
            closure_entry(closure, num_components, k, 0) as int,
        ) + num_components <= spec_involute(closure_entry(closure, num_components, j, 0) as int),
{
    let first_j = spec_involute(closure_entry(closure, num_components, j, 0) as int);
    let first_k = spec_involute(closure_entry(closure, num_components, k, 0) as int);
    let (low, high) = if first_j <= first_k {
        (j, k)
    } else {
        (k, j)
    };
    let first_low = spec_involute(closure_entry(closure, num_components, low, 0) as int);
    let first_high = spec_involute(closure_entry(closure, num_components, high, 0) as int);
    if first_high < first_low + num_components {
        let comp = first_high - first_low;
        assert(spec_involute(closure_entry(closure, num_components, low, comp) as int) == first_low
            + comp);
        let a = low * num_components + comp;
        let b = high * num_components;
        assert(0 <= low * num_components && low * num_components + num_components <= cell_size
            * num_components) by (nonlinear_arith)
            requires
                0 <= low < cell_size,
                0 <= num_components,
        ;
        assert(0 <= high * num_components && high * num_components + num_components <= cell_size
            * num_components) by (nonlinear_arith)
            requires
                0 <= high < cell_size,
                0 <= num_components,
        ;
        assert(a != b) by (nonlinear_arith)
            requires
                a == low * num_components + comp,
                b == high * num_components,
                0 <= comp < num_components,
                low != high,
        ;
        if a < b {
            assert(spec_involute(closure[a] as int) != spec_involute(closure[b] as int));
        } else {
            assert(spec_involute(closure[b] as int) != spec_involute(closure[a] as int));
        }
    }
}

/// The restriction of a mesh of a single cube at polynomial order `order`,
/// in whose closure no index occurs twice, touches `(order + 1)` cubed
/// indices of the local vector for each component, and every entry resolves
/// to an index of the local vector.
pub proof fn lemma_unit_cube(closure: Seq<i32>, order: nat, num_components: nat, l_size: nat)
    requires
        walk_error(
            seq![closure],
            None,
            0,
            pow((order + 1) as int, 3) as nat,
            num_components,
            l_size,
            1,
        ) is None,
        closure_distinct(closure),
    ensures
        ({
            let v = RestrictionView {
                num_elements: 1,
                nodes_per_element: pow((order + 1) as int, 3) as nat,
                num_components,
                local_vector_size: l_size,
                offsets: walk_offsets(
                    seq![closure],
                    None,
                    0,
                    pow((order + 1) as int, 3) as nat,
                    num_components,
                    1,
                ),
            };
            &&& v.wf()
            &&& dofs(v).finite()
            &&& dofs(v).len() == (order + 1) * (order + 1) * (order + 1) * num_components
            &&& forall|k: int|
                0 <= k < v.offsets.len() ==> 0 <= spec_involute(#[trigger] v.offsets[k] as int)
                    < l_size
        }),
{
    lemma_cube_nodes(order);
    let cell_size = pow((order + 1) as int, 3) as nat;
    let cells = seq![closure];
    let offsets = walk_offsets(cells, None, 0, cell_size, num_components, 1);
    let v = RestrictionView {
        num_elements: 1,
        nodes_per_element: cell_size,
        num_components,
        local_vector_size: l_size,
        offsets,
    };
    reveal_with_fuel(walk_offsets, 2);
    reveal_with_fuel(walk_error, 2);
    reveal_with_fuel(selected_count, 2);
    assert(cells[0] == closure);
    assert(offsets =~= cell_offsets(closure, cell_size, num_components));
    lemma_walk_wf(cells, None, 0, cell_size, num_components, l_size, 1);
    assert(cell_error(closure, cell_size, num_components, l_size) is None);
    assert forall|j: int, k: int|
        #![trigger v.offsets[j], v.offsets[k]]
        0 <= j < k < v.offsets.len() implies spec_involute(v.offsets[j] as int) + v.num_components
        <= spec_involute(v.offsets[k] as int) || spec_involute(v.offsets[k] as int)
        + v.num_components <= spec_involute(v.offsets[j] as int) by {
        lemma_distinct_nodes_apart(closure, cell_size, num_components, j, k);
    }
    lemma_single_element_dofs(v);
}

} // verus!
