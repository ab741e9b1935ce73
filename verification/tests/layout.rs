use pyrucast::atoms::ElementType;
use pyrucast::containers::field::{resolve_components, resolve_optional_components, ABSENT_COMPONENT};
use pyrucast::containers::finite_element_space::SubFiniteElementSpace;
use pyrucast::containers::mesh::SubMesh;
use pyrucast::error::ModelError;
use pyrucast::models::plasticity::Plasticity;
use pyrucast::models::tensor::Kinematics;
use pyrucast::models::{element_layout, zone_layout, MatrixKind};

fn names(xs: &[&str]) -> Vec<String> {
    xs.iter().map(|s| s.to_string()).collect()
}

fn plane_strain() -> Plasticity {
    let mut sm = SubMesh::new(1, 2, ElementType::QUA4);
    sm.add_cell(&[0, 1, 2, 3]).unwrap();
    Plasticity::new(SubFiniteElementSpace::lagrange1(sm), Kinematics::PlaneStrain).unwrap()
}

#[test]
fn components_resolve_to_their_first_position() {
    let comps = names(&["a", "b", "a", "c"]);
    assert_eq!(resolve_components(&comps, &names(&["c", "a"]), "material").unwrap(), vec![3, 0]);
    assert_eq!(
        resolve_components(&comps, &names(&["b", "z", "y"]), "material").unwrap_err(),
        ModelError::MissingComponent { what: "material".to_string(), component: "z".to_string() }
    );
    assert_eq!(resolve_optional_components(&comps, &["z", "b"]), vec![ABSENT_COMPONENT, 1]);
}

#[test]
fn a_plasticity_zone_reads_what_it_wrote() {
    let pl = plane_strain();
    let deformation = names(&["eps_xx", "eps_yy", "eps_xy"]);
    let prev = pl.behavior_output_components();
    let material = names(&["rho", "sigma_y", "nu", "E"]);
    let z = zone_layout(
        &pl.deformation_reads(),
        &pl.state_reads(),
        &pl.material_components(),
        pl.optional_material_components(),
        &deformation,
        &prev,
        &material,
    )
    .unwrap();
    assert_eq!(z.deformation, vec![0, 1, 2]);
    assert_eq!(z.material, vec![3, 2, 1]);
    assert_eq!(z.optional_material, vec![ABSENT_COMPONENT, 0]);
    assert_eq!(z.state.len(), pl.state_reads().len());
    // The strain echo ε(A) comes first among the reads.
    assert_eq!(prev[z.state[0] as usize], "eps_xx");
}

#[test]
fn a_zone_names_the_first_missing_component() {
    let pl = plane_strain();
    let e = zone_layout(
        &pl.deformation_reads(),
        &pl.state_reads(),
        &pl.material_components(),
        pl.optional_material_components(),
        &names(&["eps_xx", "eps_yy"]),
        &pl.behavior_output_components(),
        &names(&[]),
    )
    .unwrap_err();
    assert_eq!(e, ModelError::MissingComponent { what: "deformation".to_string(), component: "eps_xy".to_string() });
    let e = zone_layout(
        &pl.deformation_reads(),
        &pl.state_reads(),
        &pl.material_components(),
        pl.optional_material_components(),
        &names(&["eps_xx", "eps_yy", "eps_xy"]),
        &names(&[]),
        &names(&[]),
    )
    .unwrap_err();
    assert_eq!(e, ModelError::MissingComponent { what: "previous state".to_string(), component: "eps_xx".to_string() });
}

#[test]
fn an_element_layout_needs_a_state_only_when_it_reads_one() {
    let material = names(&["E", "nu"]);
    let l = element_layout(MatrixKind::Stiffness, &material, &["rho"], &[], &material, None).unwrap();
    assert_eq!(l.material, vec![0, 1]);
    assert_eq!(l.optional_material, vec![ABSENT_COMPONENT]);
    assert!(l.state.is_empty());
    let reads = names(&["sigma_xx"]);
    assert_eq!(
        element_layout(MatrixKind::Geometric, &material, &[], &reads, &material, None).unwrap_err(),
        ModelError::StateNotSupplied { kind: MatrixKind::Geometric }
    );
    let state = names(&["sigma_yy", "sigma_xx"]);
    let l = element_layout(MatrixKind::Geometric, &material, &[], &reads, &material, Some(state.as_slice())).unwrap();
    assert_eq!(l.state, vec![1]);
    let e = element_layout(MatrixKind::Tangent, &material, &[], &names(&["D_00"]), &material, Some(state.as_slice())).unwrap_err();
    assert_eq!(e, ModelError::MissingComponent { what: "state".to_string(), component: "D_00".to_string() });
}
