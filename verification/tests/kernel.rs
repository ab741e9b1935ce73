use pyrucast::atoms::ElementType;
use pyrucast::containers::finite_element_space::{Interpolation, QuadratureRule, SubFiniteElementSpace};
use pyrucast::containers::matrix::DofOrdering;
use pyrucast::containers::mesh::SubMesh;
use pyrucast::error::{ModelError, Side};
use pyrucast::models::kernel::{
    check_point_field, coupling_block_pattern, primary_subspace, element_block_pattern, gather_width, point_row, require_field_basis,
    scatter_slots, MAX_CELL_DOFS,
};

fn tri3() -> SubFiniteElementSpace {
    let mut sm = SubMesh::new(1, 2, ElementType::TRI3);
    sm.add_cell(&[0, 1, 2]).unwrap();
    SubFiniteElementSpace::lagrange1(sm)
}

#[test]
fn the_pattern_of_one_triangle() {
    let zone = tri3();
    let support = zone.submesh.to_poi1();
    let motif = element_block_pattern(&zone, &support, &support, 1, 1, DofOrdering::NodesThenVars).unwrap();
    assert_eq!((motif.nrows, motif.ncols), (3, 3));
    assert_eq!(motif.entries_per_cell(), 3 * 3);
    assert_eq!(motif.row_index(0, 0, 0), 0);
    assert_eq!(motif.row_index(0, 2, 0), 2);
    assert_eq!(motif.col_index(0, 2, 0), 2);
}

#[test]
fn two_variables_per_node_follow_the_ordering() {
    let mut sm = SubMesh::new(1, 2, ElementType::TRI3);
    sm.add_cell(&[4, 5, 6]).unwrap();
    sm.add_cell(&[6, 5, 7]).unwrap();
    let zone = SubFiniteElementSpace::lagrange1(sm);
    let support = zone.submesh.to_poi1();
    assert_eq!(support.connectivity, vec![4, 5, 6, 7]);
    let nv = element_block_pattern(&zone, &support, &support, 2, 2, DofOrdering::NodesThenVars).unwrap();
    // Cell 1, local node 0 is node 6, third in the support.
    assert_eq!(nv.row_index(1, 0, 1), 2 * 2 + 1);
    let vn = element_block_pattern(&zone, &support, &support, 2, 2, DofOrdering::VarsThenNodes).unwrap();
    assert_eq!(vn.row_index(1, 0, 1), 4 + 2);
    assert_eq!(vn.col_index(1, 2, 0), 3);
    assert_eq!(nv.entries_per_cell(), 36);
}

#[test]
fn a_cell_node_outside_the_support_is_named() {
    let zone = tri3();
    let mut partial = SubMesh::new(1, 2, ElementType::POI1);
    partial.add_cell(&[0]).unwrap();
    partial.add_cell(&[1]).unwrap();
    let full = zone.submesh.to_poi1();
    let e = element_block_pattern(&zone, &partial, &full, 1, 1, DofOrdering::NodesThenVars).unwrap_err();
    assert_eq!(e, ModelError::NodeNotInSupport { node: 2, side: Side::Row });
    let e = element_block_pattern(&zone, &full, &partial, 1, 1, DofOrdering::NodesThenVars).unwrap_err();
    assert_eq!(e, ModelError::NodeNotInSupport { node: 2, side: Side::Column });
}

#[test]
fn cell_triplets_regenerate_rows_and_columns() {
    let zone = tri3();
    let support = zone.submesh.to_poi1();
    let motif = element_block_pattern(&zone, &support, &support, 1, 1, DofOrdering::NodesThenVars).unwrap();
    let ke: Vec<f64> = (0..9).map(|k| k as f64).collect();
    let trips = motif.cell_triplets(0, &ke);
    assert_eq!(trips.len(), 9);
    assert_eq!(trips[0], (0, 0, 0.0));
    assert_eq!(trips[5], (1, 2, 5.0));
    assert_eq!(trips[7], (2, 1, 7.0));
}

#[test]
fn coupling_needs_as_many_cells_on_both_sides() {
    let rows = tri3();
    let mut two = SubMesh::new(1, 2, ElementType::SEG2);
    two.add_cell(&[10, 11]).unwrap();
    two.add_cell(&[11, 12]).unwrap();
    let cols = SubFiniteElementSpace::lagrange1(two);
    let rs = rows.submesh.to_poi1();
    let cs = cols.submesh.to_poi1();
    let e = coupling_block_pattern(&rows, &cols, &rs, &cs, 1, 1, DofOrdering::NodesThenVars).unwrap_err();
    assert_eq!(e, ModelError::NonConformingInterface { row_cells: 1, col_cells: 2 });

    let mut one = SubMesh::new(1, 2, ElementType::SEG2);
    one.add_cell(&[10, 11]).unwrap();
    let cols = SubFiniteElementSpace::lagrange1(one);
    let cs = cols.submesh.to_poi1();
    let p = coupling_block_pattern(&rows, &cols, &rs, &cs, 1, 2, DofOrdering::NodesThenVars).unwrap();
    assert_eq!((p.nrows, p.ncols), (3, 4));
    assert_eq!((p.row_nodes_per_cell, p.col_nodes_per_cell), (3, 2));
    assert_eq!(p.col_index(0, 1, 1), 3);
    assert_eq!(p.entries_per_cell(), 3 * 4);
}

#[test]
fn scatter_slots_locate_every_connectivity_node() {
    assert_eq!(scatter_slots(&[3, 1, 3], &[1, 2, 3]).unwrap(), vec![2, 0, 2]);
    // A support that lists a node twice sends it to its last place.
    assert_eq!(scatter_slots(&[5], &[5, 6, 5]).unwrap(), vec![2]);
    assert_eq!(
        scatter_slots(&[1, 9, 8], &[1, 2]).unwrap_err(),
        ModelError::NodeNotInSupport { node: 9, side: Side::Row }
    );
}

#[test]
fn an_embedded_subspace_has_no_field_basis() {
    let mut zone = tri3();
    assert!(require_field_basis(&zone, "shape values").is_ok());
    zone.interpolation = Interpolation::ModelEmbedded;
    assert_eq!(
        require_field_basis(&zone, "shape values").unwrap_err(),
        ModelError::FieldBasisMissing { what: "shape values".to_string() }
    );
    assert_eq!(zone.quadrature, QuadratureRule::Full);
    let msg = require_field_basis(&zone, "shape values").unwrap_err().message();
    assert!(msg.contains("MODEL_EMBEDDED"));
    assert!(msg.contains("shape values"));
}

#[test]
fn point_fields_must_span_the_subspace() {
    assert!(check_point_field("material", 4, 3, 4, 3).is_ok());
    assert_eq!(
        check_point_field("material", 4, 1, 4, 3).unwrap_err(),
        ModelError::FieldShape {
            what: "material".to_string(),
            cells: 4,
            gauss: 1,
            expected_cells: 4,
            expected_gauss: 3
        }
    );
    // Row of Gauss point 1 of cell 2, three points per cell, five values per point.
    assert_eq!(point_row(5, 3, 2, 1), (35, 40));
    assert_eq!(point_row(0, 3, 2, 1), (0, 0));
}

#[test]
fn a_cell_gather_has_a_bounded_width() {
    assert_eq!(gather_width(8, 3).unwrap(), 24);
    assert_eq!(gather_width(32, 3).unwrap(), MAX_CELL_DOFS);
    assert_eq!(gather_width(8, 13).unwrap_err(), ModelError::GatherTooWide { nodes: 8, components: 13 });
    assert_eq!(
        gather_width(usize::MAX, 2).unwrap_err(),
        ModelError::GatherTooWide { nodes: usize::MAX, components: 2 }
    );
}

#[test]
fn a_subspace_own_support_covers_its_cells() {
    let mut sm = SubMesh::new(1, 2, ElementType::QUA4);
    sm.add_cell(&[9, 3, 7, 3]).unwrap();
    sm.add_cell(&[7, 3, 1, 8]).unwrap();
    let support = sm.to_poi1();
    assert_eq!(support.connectivity, vec![9, 3, 7, 1, 8]);
    let slots = scatter_slots(&sm.connectivity, &support.connectivity).unwrap();
    assert_eq!(slots, vec![0, 1, 2, 1, 2, 1, 3, 4]);
    let zone = SubFiniteElementSpace::lagrange1(sm);
    assert!(element_block_pattern(&zone, &support, &support, 2, 2, DofOrdering::VarsThenNodes).is_ok());
}

#[test]
fn equal_rows_mean_equal_degrees_of_freedom() {
    let mut sm = SubMesh::new(1, 2, ElementType::TRI3);
    sm.add_cell(&[0, 1, 2]).unwrap();
    sm.add_cell(&[2, 1, 3]).unwrap();
    let zone = SubFiniteElementSpace::lagrange1(sm);
    let support = zone.submesh.to_poi1();
    for ordering in [DofOrdering::NodesThenVars, DofOrdering::VarsThenNodes] {
        let p = element_block_pattern(&zone, &support, &support, 2, 3, ordering).unwrap();
        let conn = &zone.submesh.connectivity;
        for c1 in 0..2 {
            for c2 in 0..2 {
                for l1 in 0..3 {
                    for l2 in 0..3 {
                        for d1 in 0..2 {
                            for d2 in 0..2 {
                                let same_dof = conn[c1 * 3 + l1] == conn[c2 * 3 + l2] && d1 == d2;
                                assert_eq!(p.row_index(c1, l1, d1) == p.row_index(c2, l2, d2), same_dof);
                            }
                        }
                    }
                }
            }
        }
    }
}

#[test]
fn dof_indices_are_one_to_one() {
    for ordering in [DofOrdering::NodesThenVars, DofOrdering::VarsThenNodes] {
        let mut seen = vec![false; 12];
        for node in 0..4 {
            for var in 0..3 {
                let k = ordering.to_index(node, var, 4, 3);
                assert!(!seen[k]);
                seen[k] = true;
            }
        }
        assert!(seen.iter().all(|s| *s));
    }
}

#[test]
fn a_block_needs_subspaces_on_one_submesh() {
    let zone = tri3();
    let reduced = SubFiniteElementSpace::new(zone.submesh.clone(), Interpolation::Lagrange1, QuadratureRule::Reduced);
    let both = vec![zone.clone(), reduced];
    assert_eq!(primary_subspace("assembly", &both).unwrap().quadrature, QuadratureRule::Full);
    let e = primary_subspace("assembly", &[]).unwrap_err();
    assert_eq!(e, ModelError::NoSubspace { what: "assembly".to_string() });
    assert_eq!(e.message(), "assembly: no FE subspace");
    let mut other = SubMesh::new(1, 2, ElementType::TRI3);
    other.add_cell(&[0, 2, 1]).unwrap();
    let apart = vec![zone, SubFiniteElementSpace::lagrange1(other)];
    assert_eq!(
        primary_subspace("assembly", &apart).unwrap_err(),
        ModelError::SubspacesApart { what: "assembly".to_string() }
    );
}

#[test]
fn the_triplet_stream_carries_the_pattern_pairs() {
    let mut sm = SubMesh::new(1, 2, ElementType::TRI3);
    sm.add_cell(&[0, 1, 2]).unwrap();
    sm.add_cell(&[2, 1, 3]).unwrap();
    let zone = SubFiniteElementSpace::lagrange1(sm);
    let support = zone.submesh.to_poi1();
    let (nd, np, n) = (2, 3, 3);
    let p = element_block_pattern(&zone, &support, &support, nd, np, DofOrdering::VarsThenNodes).unwrap();
    let ke: Vec<u32> = (0..(n * nd * n * np) as u32).collect();
    for c in 0..2 {
        let trips = p.cell_triplets(c, &ke);
        for li in 0..n {
            for di in 0..nd {
                for lj in 0..n {
                    for pj in 0..np {
                        let k = ((li * nd + di) * n + lj) * np + pj;
                        assert_eq!(trips[k], (p.row_index(c, li, di), p.col_index(c, lj, pj), k as u32));
                    }
                }
            }
        }
    }
}

#[test]
fn refusals_read_as_text() {
    assert_eq!(
        ModelError::NodeNotInSupport { node: 12, side: Side::Column }.message(),
        "node 12 is not in the column support"
    );
    assert_eq!(
        ModelError::NonConformingInterface { row_cells: 1, col_cells: 2 }.message(),
        "coupling block: the two sides of an interface must be conforming \u{2014} 1 cell(s) facing 2"
    );
    assert_eq!(
        ModelError::GatherTooWide { nodes: 8, components: 13 }.message(),
        "nodal_pointwise: 8 nodes \u{d7} 13 components exceeds the 96 values a cell's gather buffer holds"
    );
    assert_eq!(
        ModelError::FieldShape { what: "material".into(), cells: 4, gauss: 1, expected_cells: 4, expected_gauss: 3 }
            .message(),
        "material: 4 cells \u{d7} 1 Gauss points, but this FE subspace has 4 \u{d7} 3"
    );
}
