use meles::error::{ConfigError, TopologyError};
use meles::restriction::{
    create_restriction_from_dm_plex, involute, strided_elem_restriction, Restriction,
    RestrictionShape,
};
use std::collections::HashSet;

/// The closure of the single cell of a cube at the given order: the nodes in
/// the order of the mesh, each with its components one after the other.
fn cube_closure(order: usize, num_components: usize) -> Vec<i32> {
    let nodes = (order + 1) * (order + 1) * (order + 1);
    let mut closure = Vec::new();
    for node in 0..nodes {
        for comp in 0..num_components {
            closure.push((node * num_components + comp) as i32);
        }
    }
    closure
}

fn distinct_dofs(r: &Restriction) -> usize {
    let mut seen = HashSet::new();
    for element in 0..r.num_elements() {
        for node in 0..r.nodes_per_element() {
            for comp in 0..r.num_components() {
                seen.insert(r.local_index(element, node, comp).unwrap());
            }
        }
    }
    seen.len()
}

#[test]
fn involute_leaves_indices_alone() {
    assert_eq!(involute(0), 0);
    assert_eq!(involute(5), 5);
    assert_eq!(involute(i32::MAX), i32::MAX);
}

#[test]
fn involute_decodes_constrained_indices() {
    assert_eq!(involute(-1), 0);
    assert_eq!(involute(-6), 5);
    assert_eq!(involute(i32::MIN), i32::MAX);
    for i in 0..100 {
        assert_eq!(involute(-(i + 1)), i);
        assert_eq!(involute(involute(-(i + 1))), i);
    }
}

#[test]
fn single_cube_touches_every_dof_once() {
    for order in 1..=3usize {
        for num_components in [1usize, 3] {
            let nodes = (order + 1) * (order + 1) * (order + 1);
            let l_size = nodes * num_components;
            let closures = vec![cube_closure(order, num_components)];
            let r = create_restriction_from_dm_plex(
                &closures,
                None,
                0,
                num_components,
                nodes,
                l_size,
            )
            .unwrap();
            assert_eq!(r.num_elements(), 1);
            assert_eq!(r.nodes_per_element(), nodes);
            assert_eq!(r.num_components(), num_components);
            assert_eq!(r.local_vector_size(), l_size);
            assert_eq!(distinct_dofs(&r), nodes * num_components);
            for offset in r.resolved_offsets() {
                assert!((offset as usize) < l_size);
            }
            for offset in r.offsets() {
                assert!((involute(*offset) as usize) < l_size);
            }
        }
    }
}

#[test]
fn entries_are_the_first_component_of_each_node() {
    let closures = vec![vec![6, 7, 8, 0, 1, 2], vec![3, 4, 5, 6, 7, 8]];
    let r = create_restriction_from_dm_plex(&closures, None, 0, 3, 2, 9).unwrap();
    assert_eq!(r.offsets(), &vec![6, 0, 3, 6]);
    assert_eq!(r.num_elements(), 2);
    assert_eq!(r.entry(0, 0), Some(6));
    assert_eq!(r.entry(0, 1), Some(0));
    assert_eq!(r.entry(1, 0), Some(3));
    assert_eq!(r.entry(1, 1), Some(6));
    assert_eq!(r.local_index(1, 1, 2), Some(8));
    assert_eq!(r.local_index(0, 1, 1), Some(1));
    assert_eq!(
        r.shape(),
        RestrictionShape { num_elements: 2, elem_size: 2, num_components: 3, l_size: 9 }
    );
}

#[test]
fn constrained_nodes_keep_their_sign() {
    // Node 2 is fixed by a boundary condition: its indices 4 and 5 are encoded.
    let closures = vec![vec![0, 1, -5, -6], vec![-5, -6, 2, 3]];
    let r = create_restriction_from_dm_plex(&closures, None, 0, 2, 2, 6).unwrap();
    assert_eq!(r.offsets(), &vec![0, -5, -5, 2]);
    assert_eq!(r.resolved_offsets(), vec![0, 4, 4, 2]);
    assert_eq!(r.is_constrained(0, 0), Some(false));
    assert_eq!(r.is_constrained(0, 1), Some(true));
    assert_eq!(r.is_constrained(1, 0), Some(true));
    assert_eq!(r.is_constrained(1, 1), Some(false));
    assert_eq!(r.local_index(0, 1, 0), Some(4));
    assert_eq!(r.local_index(0, 1, 1), Some(5));
}

#[test]
fn nodes_outside_the_restriction_have_no_entry() {
    let closures = vec![vec![0, 1, 2, 3]];
    let r = create_restriction_from_dm_plex(&closures, None, 0, 1, 4, 4).unwrap();
    assert_eq!(r.entry(1, 0), None);
    assert_eq!(r.entry(0, 4), None);
    assert_eq!(r.is_constrained(0, 4), None);
    assert_eq!(r.local_index(0, 3, 1), None);
    assert_eq!(r.local_index(1, 0, 0), None);
    assert_eq!(r.local_index(0, 3, 0), Some(3));
}

#[test]
fn closure_of_wrong_length_is_inconsistent() {
    let closures = vec![vec![0, 1, 2, 3], vec![4, 5, 6]];
    assert_eq!(
        create_restriction_from_dm_plex(&closures, None, 0, 1, 4, 8).unwrap_err(),
        TopologyError::InconsistentClosure
    );
    let closures = vec![vec![0, 1, 2, 3, 4]];
    assert_eq!(
        create_restriction_from_dm_plex(&closures, None, 0, 1, 4, 8).unwrap_err(),
        TopologyError::InconsistentClosure
    );
    let closures: Vec<Vec<i32>> = vec![vec![]];
    assert_eq!(
        create_restriction_from_dm_plex(&closures, None, 0, 1, 4, 8).unwrap_err(),
        TopologyError::InconsistentClosure
    );
}

#[test]
fn closure_whose_components_are_scattered_is_inconsistent() {
    // Two nodes of two components, laid out component by component.
    let closures = vec![vec![0, 2, 1, 3]];
    assert_eq!(
        create_restriction_from_dm_plex(&closures, None, 0, 2, 2, 4).unwrap_err(),
        TopologyError::InconsistentClosure
    );
    // A node of which one component is encoded as another index.
    let closures = vec![vec![0, -3]];
    assert_eq!(
        create_restriction_from_dm_plex(&closures, None, 0, 2, 1, 4).unwrap_err(),
        TopologyError::InconsistentClosure
    );
    // A node of which only one component is constrained is consistent.
    let closures = vec![vec![0, -2]];
    assert!(create_restriction_from_dm_plex(&closures, None, 0, 2, 1, 4).is_ok());
}

#[test]
fn field_without_components_has_no_cells() {
    let closures: Vec<Vec<i32>> = vec![vec![]];
    assert_eq!(
        create_restriction_from_dm_plex(&closures, None, 0, 0, 4, 8).unwrap_err(),
        TopologyError::InconsistentClosure
    );
    let none: Vec<Vec<i32>> = vec![];
    let r = create_restriction_from_dm_plex(&none, None, 0, 0, 4, 8).unwrap();
    assert_eq!(r.num_elements(), 0);
    assert_eq!(r.offsets().len(), 0);
}

#[test]
fn node_outside_the_local_vector_is_out_of_range() {
    let closures = vec![vec![0, 1, 2, 8]];
    assert_eq!(
        create_restriction_from_dm_plex(&closures, None, 0, 1, 4, 8).unwrap_err(),
        TopologyError::OffsetOutOfRange
    );
    let closures = vec![vec![0, 1, 2, -9]];
    assert_eq!(
        create_restriction_from_dm_plex(&closures, None, 0, 1, 4, 8).unwrap_err(),
        TopologyError::OffsetOutOfRange
    );
    let closures = vec![vec![0, 1, 2, -8]];
    assert!(create_restriction_from_dm_plex(&closures, None, 0, 1, 4, 8).is_ok());
    // The last component of the last node must fit as well.
    let closures = vec![vec![6, 7, 8]];
    assert_eq!(
        create_restriction_from_dm_plex(&closures, None, 0, 3, 1, 8).unwrap_err(),
        TopologyError::OffsetOutOfRange
    );
    assert!(create_restriction_from_dm_plex(&closures, None, 0, 3, 1, 9).is_ok());
}

#[test]
fn first_wrong_cell_decides_the_error() {
    let closures = vec![vec![0, 1], vec![0, 9], vec![0]];
    assert_eq!(
        create_restriction_from_dm_plex(&closures, None, 0, 1, 2, 4).unwrap_err(),
        TopologyError::OffsetOutOfRange
    );
    let closures = vec![vec![0, 1], vec![0], vec![0, 9]];
    assert_eq!(
        create_restriction_from_dm_plex(&closures, None, 0, 1, 2, 4).unwrap_err(),
        TopologyError::InconsistentClosure
    );
    // Within one cell an inconsistent closure comes before a node out of range.
    let closures = vec![vec![9, 11]];
    assert_eq!(
        create_restriction_from_dm_plex(&closures, None, 0, 2, 1, 4).unwrap_err(),
        TopologyError::InconsistentClosure
    );
}

#[test]
fn label_selects_cells() {
    let closures = vec![vec![0, 1], vec![1, 2], vec![2, 3], vec![3, 4]];
    let label = vec![7, 1, 7, 1];
    let r = create_restriction_from_dm_plex(&closures, Some(&label), 7, 1, 2, 5).unwrap();
    assert_eq!(r.num_elements(), 2);
    assert_eq!(r.offsets(), &vec![0, 1, 2, 3]);
    let r = create_restriction_from_dm_plex(&closures, Some(&label), 1, 1, 2, 5).unwrap();
    assert_eq!(r.num_elements(), 2);
    assert_eq!(r.offsets(), &vec![1, 2, 3, 4]);
    let r = create_restriction_from_dm_plex(&closures, Some(&label), 2, 1, 2, 5).unwrap();
    assert_eq!(r.num_elements(), 0);
    assert_eq!(r.offsets().len(), 0);
}

#[test]
fn cells_that_the_label_does_not_reach_are_left_out() {
    let closures = vec![vec![0, 1], vec![1, 2], vec![2, 3]];
    let label = vec![1, 1];
    let r = create_restriction_from_dm_plex(&closures, Some(&label), 1, 1, 2, 4).unwrap();
    assert_eq!(r.num_elements(), 2);
    assert_eq!(r.offsets(), &vec![0, 1, 1, 2]);
}

#[test]
fn cells_that_are_left_out_are_not_examined() {
    let closures = vec![vec![0, 1], vec![99], vec![2, 3]];
    let label = vec![1, 0, 1];
    let r = create_restriction_from_dm_plex(&closures, Some(&label), 1, 1, 2, 4).unwrap();
    assert_eq!(r.offsets(), &vec![0, 1, 2, 3]);
    assert_eq!(
        create_restriction_from_dm_plex(&closures, None, 0, 1, 2, 4).unwrap_err(),
        TopologyError::InconsistentClosure
    );
}

#[test]
fn entries_that_are_laid_out_make_a_restriction() {
    let r = Restriction::new(2, 2, 1, 3, vec![0, 1, 1, -3]).unwrap();
    assert_eq!(r.num_elements(), 2);
    assert_eq!(r.nodes_per_element(), 2);
    assert_eq!(r.num_components(), 1);
    assert_eq!(r.local_vector_size(), 3);
    assert_eq!(r.offsets(), &vec![0, 1, 1, -3]);
    assert_eq!(r.resolved_offsets(), vec![0, 1, 1, 2]);
}

#[test]
fn entries_that_do_not_fit_make_none() {
    assert_eq!(
        Restriction::new(2, 2, 1, 3, vec![0, 1, 1]).unwrap_err(),
        TopologyError::InconsistentClosure
    );
    assert_eq!(
        Restriction::new(2, 2, 0, 3, vec![0, 1, 1, 2]).unwrap_err(),
        TopologyError::InconsistentClosure
    );
    assert_eq!(
        Restriction::new(usize::MAX, 2, 1, 3, vec![0, 1]).unwrap_err(),
        TopologyError::InconsistentClosure
    );
    assert_eq!(
        Restriction::new(2, 2, 1, 3, vec![0, 1, 1, 3]).unwrap_err(),
        TopologyError::OffsetOutOfRange
    );
    assert_eq!(
        Restriction::new(2, 2, 1, 3, vec![0, 1, 1, -4]).unwrap_err(),
        TopologyError::OffsetOutOfRange
    );
    assert_eq!(
        Restriction::new(1, 1, 2, 3, vec![2]).unwrap_err(),
        TopologyError::OffsetOutOfRange
    );
    assert!(Restriction::new(0, 5, 0, 0, vec![]).is_ok());
}

#[test]
fn strided_restriction_holds_the_product() {
    assert_eq!(
        strided_elem_restriction(27, 125, 6),
        Ok(RestrictionShape { num_elements: 27, elem_size: 125, num_components: 6, l_size: 20250 })
    );
    assert_eq!(
        strided_elem_restriction(0, 125, 6),
        Ok(RestrictionShape { num_elements: 0, elem_size: 125, num_components: 6, l_size: 0 })
    );
    assert_eq!(
        strided_elem_restriction(usize::MAX, 0, usize::MAX),
        Ok(RestrictionShape {
            num_elements: usize::MAX,
            elem_size: 0,
            num_components: usize::MAX,
            l_size: 0
        })
    );
}

#[test]
fn strided_restriction_that_overflows_is_too_large() {
    assert_eq!(strided_elem_restriction(usize::MAX, 2, 1), Err(ConfigError::TooLarge));
    assert_eq!(strided_elem_restriction(usize::MAX / 2, 2, 2), Err(ConfigError::TooLarge));
    assert_eq!(
        strided_elem_restriction(usize::MAX, 1, 1),
        Ok(RestrictionShape {
            num_elements: usize::MAX,
            elem_size: 1,
            num_components: 1,
            l_size: usize::MAX
        })
    );
}
