use pyrucast::atoms::ElementType;
use pyrucast::containers::finite_element_space::SubFiniteElementSpace;
use pyrucast::containers::mesh::SubMesh;
use pyrucast::error::ModelError;
use pyrucast::models::owned_components;
use pyrucast::models::plasticity::law::PlasticLaw;
use pyrucast::models::plasticity::{strain_slots, stress_slots, tensor_index, Plasticity};
use pyrucast::models::tensor::tensor_suffix;
use pyrucast::models::tensor::Kinematics;
use pyrucast::models::{Contribution, MatrixKind, Physics, TangentSource};

/// One QUA4 cell on nodes 0..4 of a 2-D coordinate store.
fn unit_quad_space() -> SubFiniteElementSpace {
    let mut sm = SubMesh::new(1, 2, ElementType::QUA4);
    sm.add_cell(&[0, 1, 2, 3]).unwrap();
    SubFiniteElementSpace::lagrange1(sm)
}

/// One HEX8 cell on nodes 0..8 of a 3-D coordinate store.
fn unit_hex_space() -> SubFiniteElementSpace {
    let mut sm = SubMesh::new(1, 3, ElementType::HEX8);
    sm.add_cell(&[0, 1, 2, 3, 4, 5, 6, 7]).unwrap();
    SubFiniteElementSpace::lagrange1(sm)
}

fn unit_quad(kinematics: Kinematics) -> Plasticity {
    Plasticity::new(unit_quad_space(), kinematics).unwrap()
}

#[test]
fn tensor_index_matches_layout() {
    assert_eq!(tensor_index(0, 0), 0);
    assert_eq!(tensor_index(2, 2), 2);
    assert_eq!(tensor_index(1, 2), 3);
    assert_eq!(tensor_index(0, 1), 5);
    assert_eq!(tensor_index(1, 0), 5);
}

#[test]
fn vars_and_model_validation() {
    let pl = unit_quad(Kinematics::PlaneStrain);
    assert_eq!(pl.primal_vars(), vec!["u_x", "u_y"]);
    assert_eq!(pl.dual_vars(), vec!["f_x", "f_y"]);
    assert_eq!(
        pl.material_components(),
        owned_components(PlasticLaw::Perfect.material_components())
    );
}

#[test]
fn tensor_index_is_symmetric_everywhere() {
    for i in 0..3 {
        for j in 0..3 {
            assert_eq!(tensor_index(i, j), tensor_index(j, i));
            assert!(tensor_index(i, j) < 6);
        }
    }
    assert_eq!(tensor_index(0, 2), 4);
    assert_eq!(tensor_index(1, 1), 1);
}

#[test]
fn kinematics_must_fit_the_dimension() {
    let e = Plasticity::new(unit_quad_space(), Kinematics::Full3D).unwrap_err();
    assert_eq!(e, ModelError::IncompatibleKinematics { kinematics: Kinematics::Full3D, space_dim: 2 });
    let e = Plasticity::new(unit_hex_space(), Kinematics::PlaneStress).unwrap_err();
    assert_eq!(e, ModelError::IncompatibleKinematics { kinematics: Kinematics::PlaneStress, space_dim: 3 });
    assert!(Plasticity::new(unit_hex_space(), Kinematics::Full3D).is_ok());
    assert!(Plasticity::new(unit_quad_space(), Kinematics::Axisymmetric).is_ok());
}

#[test]
fn strain_and_stress_slots_follow_the_kinematics() {
    assert_eq!(strain_slots(2, Kinematics::PlaneStress), &[0, 1, 5]);
    assert_eq!(stress_slots(2, Kinematics::PlaneStrain), &[0, 1, 5, 2]);
    assert_eq!(strain_slots(2, Kinematics::Axisymmetric), &[0, 1, 2, 5]);
    assert_eq!(stress_slots(3, Kinematics::Full3D), &[0, 1, 2, 3, 4, 5]);
}

#[test]
fn plane_strain_output_echoes_sigma_zz() {
    let pl = unit_quad(Kinematics::PlaneStrain);
    let out = pl.behavior_output_components();
    let expected: Vec<&str> = vec![
        "sigma_xx", "sigma_yy", "sigma_xy", "eps_p_xx", "eps_p_yy", "eps_p_zz", "eps_p_yz", "eps_p_xz",
        "eps_p_xy", "p", "eps_xx", "eps_yy", "eps_zz", "eps_yz", "eps_xz", "eps_xy", "sigma_zz",
    ];
    assert_eq!(out, expected);
    assert_eq!(pl.deformation_reads(), vec!["eps_xx", "eps_yy", "eps_xy"]);
}

#[test]
fn every_state_read_is_an_output() {
    let pl = Plasticity::with_law(unit_hex_space(), Kinematics::Full3D, PlasticLaw::ViscoplasticChaboche).unwrap();
    let out = pl.behavior_output_components();
    for name in pl.state_reads() {
        assert!(out.contains(&name), "{name} is read back but not written");
    }
    assert!(pl.requires_dt());
    assert_eq!(pl.tangent_source(), TangentSource::Numerical);
}

#[test]
fn perfect_plasticity_has_an_analytic_tangent() {
    let pl = unit_quad(Kinematics::PlaneStress);
    assert!(!pl.requires_dt());
    assert_eq!(pl.tangent_source(), TangentSource::Analytic);
    assert_eq!(pl.physics(), &[Physics::Mechanical]);
    assert_eq!(pl.label(), "Plasticity");
}

#[test]
fn the_stiffness_is_the_elastic_block() {
    let pl = unit_quad(Kinematics::PlaneStress);
    let layout = pl.matrix_layout(MatrixKind::Stiffness).unwrap();
    assert_eq!(layout.primal_vars, vec!["u_x", "u_y"]);
    assert_eq!(layout.dual_vars, vec!["f_x", "f_y"]);
    assert!(layout.symmetric);
    assert_eq!(layout.support.connectivity, vec![0, 1, 2, 3]);
    assert_eq!(pl.matrix_layout(MatrixKind::Mass).unwrap().primal_vars, vec!["u_x", "u_y"]);
}

#[test]
fn law_names_round_trip_and_are_distinct() {
    let all = PlasticLaw::all();
    for (i, a) in all.iter().enumerate() {
        assert_eq!(a.to_string(), a.name());
        for b in all.iter().skip(i + 1) {
            assert_ne!(a.name(), b.name());
        }
    }
    assert_eq!(PlasticLaw::DruckerPrager.name(), "drucker_prager");
    assert_eq!(PlasticLaw::DruckerPrager.material_components(), &["E", "nu", "friction", "k", "psi"]);
    assert_eq!(PlasticLaw::Gurson.internal_names(), vec!["porosity"]);
    assert_eq!(PlasticLaw::Gurson.initial_internal_sources(), &["f_0"]);
    assert_eq!(PlasticLaw::Perfect.optional_material_components(), &["alpha", "rho"]);
}

#[test]
fn chaboche_carries_the_back_stress_and_isotropic_hardening() {
    let names = PlasticLaw::ViscoplasticChaboche.internal_names();
    assert_eq!(names, vec!["X_xx", "X_yy", "X_zz", "X_yz", "X_xz", "X_xy", "R"]);
    let names = PlasticLaw::ViscoplasticLemaitreChaboche.internal_names();
    assert_eq!(names.last().unwrap(), "damage");
    assert!(PlasticLaw::CreepNorton.is_viscous());
    assert!(!PlasticLaw::Gurson.is_viscous());
}

#[test]
fn plasticity_contributes_a_computed_block_for_every_kind() {
    let pl = unit_quad(Kinematics::PlaneStress);
    for kind in [MatrixKind::Stiffness, MatrixKind::Mass, MatrixKind::Geometric, MatrixKind::Tangent] {
        let c = pl.contributions::<f64>(kind);
        assert_eq!(c.len(), 1);
        assert!(matches!(&c[0], Contribution::Computed(l) if l.dual_vars == vec!["f_x", "f_y"]));
    }
}

#[test]
fn tensor_index_names_the_pair() {
    let axes = ['x', 'y', 'z'];
    for i in 0..3 {
        for j in 0..3 {
            let (a, b) = if i <= j { (i, j) } else { (j, i) };
            let expected: String = [axes[a], axes[b]].iter().collect();
            assert_eq!(tensor_suffix(tensor_index(i, j)), expected);
        }
    }
}

#[test]
fn initial_internal_sources_are_required_material() {
    for law in PlasticLaw::all() {
        for source in law.initial_internal_sources() {
            assert!(law.material_components().contains(source), "{source} seeds {} but is not required", law.name());
        }
    }
    assert_eq!(PlasticLaw::default(), PlasticLaw::Perfect);
}

#[test]
fn the_state_read_back_is_laid_out_in_blocks() {
    let pl = Plasticity::with_law(unit_quad_space(), Kinematics::PlaneStrain, PlasticLaw::CreepBlackburn).unwrap();
    let reads = pl.state_reads();
    let (s, ep, p, vars) = pl.state_offsets();
    assert_eq!((s, ep, p, vars), (6, 10, 16, 17));
    assert_eq!(reads[..s], ["eps_xx", "eps_yy", "eps_zz", "eps_yz", "eps_xz", "eps_xy"]);
    assert_eq!(reads[s..ep], ["sigma_xx", "sigma_yy", "sigma_xy", "sigma_zz"]);
    assert_eq!(reads[ep], "eps_p_xx");
    assert_eq!(reads[p], "p");
    assert_eq!(reads[vars..], ["p_prim"]);
    let solid = Plasticity::new(unit_hex_space(), Kinematics::Full3D).unwrap();
    assert_eq!(solid.state_offsets(), (6, 12, 18, 19));
    assert_eq!(solid.state_reads().len(), 19);
}
