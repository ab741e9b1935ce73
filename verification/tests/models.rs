use pyrucast::atoms::ElementType;
use pyrucast::containers::finite_element_space::{QuadratureRule, SubFiniteElementSpace};
use pyrucast::containers::matrix::DofOrdering;
use pyrucast::containers::mesh::{Mesh, SubMesh};
use pyrucast::error::ModelError;
use pyrucast::models::mazars::Mazars;
use pyrucast::models::plastic::PlasticLaw as TaggedLaw;
use pyrucast::models::radiation::Radiation;
use pyrucast::models::shell::kirchhoff::element_pair;
use pyrucast::models::shell::{Shell, ShellModel};
use pyrucast::models::tensor::{dual_names, primal_names, tensor_suffix, ElasticityModel};
use pyrucast::models::{owned_components, Contribution, MatrixKind, Physics, RelationSense};

fn unit_quad_space() -> SubFiniteElementSpace {
    let mut sm = SubMesh::new(1, 2, ElementType::QUA4);
    sm.add_cell(&[0, 1, 2, 3]).unwrap();
    SubFiniteElementSpace::lagrange1(sm)
}

fn facet(element: ElementType, nodes: &[u64]) -> SubFiniteElementSpace {
    let mut sm = SubMesh::new(1, 3, element);
    sm.add_cell(nodes).unwrap();
    SubFiniteElementSpace::lagrange1(sm)
}

#[test]
fn vars_and_material() {
    let mz = Mazars::new(unit_quad_space(), ElasticityModel::PlaneStress).unwrap();
    assert_eq!(mz.primal_vars(), vec!["u_x", "u_y"]);
    assert_eq!(mz.dual_vars(), vec!["f_x", "f_y"]);
    assert_eq!(mz.material_components(), owned_components(&["E", "nu", "eps_d0", "A_t", "B_t", "A_c", "B_c"]));
}

#[test]
fn mazars_model_must_fit_the_dimension() {
    let e = Mazars::new(unit_quad_space(), ElasticityModel::Solid).unwrap_err();
    assert_eq!(e, ModelError::IncompatibleModel { model: ElasticityModel::Solid, space_dim: 2 });
    let mz = Mazars::new(unit_quad_space(), ElasticityModel::PlaneStrain).unwrap();
    assert_eq!(
        mz.behavior_output_components(),
        vec!["sigma_xx", "sigma_yy", "sigma_xy", "damage", "kappa"]
    );
    assert_eq!(mz.physics(), &[Physics::Mechanical]);
    assert_eq!(mz.label(), "Mazars");
    assert!(mz.matrix_layout(MatrixKind::Stiffness).is_some());
}

#[test]
fn matrix_kinds_index_a_cache() {
    let kinds = [MatrixKind::Stiffness, MatrixKind::Mass, MatrixKind::Geometric, MatrixKind::Tangent];
    for (i, k) in kinds.iter().enumerate() {
        assert_eq!(k.index(), i);
        assert!(k.index() < MatrixKind::COUNT);
    }
}

#[test]
fn physics_names() {
    assert_eq!(Physics::Mechanical.name(), "mechanical");
    assert_eq!(Physics::Radiation.to_string(), "radiation");
    assert_eq!(Physics::Constraint.name(), "constraint");
}

#[test]
fn relation_sense_spellings() {
    assert_eq!(RelationSense::parse(None).unwrap(), RelationSense::Equality);
    assert_eq!(RelationSense::parse(Some(">=")).unwrap(), RelationSense::GreaterEqual);
    assert_eq!(RelationSense::parse(Some("≥")).unwrap(), RelationSense::GreaterEqual);
    assert_eq!(RelationSense::parse(Some("≤")).unwrap(), RelationSense::LessEqual);
    assert_eq!(RelationSense::parse(Some("==")).unwrap(), RelationSense::Equality);
    assert_eq!(
        RelationSense::parse(Some("<")).unwrap_err(),
        ModelError::UnknownRelationSense { spelling: "<".to_string() }
    );
    assert_eq!(
        RelationSense::parse(Some("<")).unwrap_err().message(),
        "unknown relation sense '<' (expected '=', '>=' or '<=')"
    );
    for s in [RelationSense::Equality, RelationSense::GreaterEqual, RelationSense::LessEqual] {
        assert_eq!(RelationSense::parse(Some(s.to_string().as_str())).unwrap(), s);
    }
    assert_eq!(RelationSense::default(), RelationSense::Equality);
}

#[test]
fn radiation_declares_its_contract() {
    let rad = Radiation::new(unit_quad_space()).unwrap();
    assert_eq!(rad.primal_vars(), vec!["T"]);
    assert_eq!(rad.dual_vars(), vec!["q"]);
    assert_eq!(rad.physics(), &[Physics::Thermal, Physics::Radiation]);
    assert_eq!(rad.material_components(), vec!["emis", "T_inf"]);
    assert_eq!(rad.optional_material_components(), &["sigma"]);
    assert_eq!(rad.behavior_output_components(), vec!["flux", "ktan"]);
    assert!(rad.matrix_layout(MatrixKind::Tangent).is_some());
}

#[test]
fn shells_live_on_surfaces() {
    let e = Shell::new(unit_quad_space(), ShellModel::Thick).unwrap_err();
    assert_eq!(e, ModelError::ShellNotASurface { ref_dim: 2, space_dim: 2 });
    let e = Shell::new(facet(ElementType::TRI6, &[0, 1, 2, 3, 4, 5]), ShellModel::Thick).unwrap_err();
    assert_eq!(e, ModelError::ShellElement { model: ShellModel::Thick, element: ElementType::TRI6 });
    assert_eq!(e.message(), "Shell (thick): expected TRI3 or QUA4, got TRI6");

    let thick = Shell::new(facet(ElementType::QUA4, &[0, 1, 2, 3]), ShellModel::Thick).unwrap();
    let layout = thick.stiffness_layout().unwrap();
    assert_eq!(layout.fespaces.len(), 2);
    assert_eq!(layout.fespaces[1].quadrature, QuadratureRule::Reduced);
    assert_eq!(thick.primal_vars(), vec!["u_x", "u_y", "u_z", "r_x", "r_y", "r_z"]);
    assert_eq!(thick.dual_vars(), vec!["f_x", "f_y", "f_z", "m_x", "m_y", "m_z"]);
    assert_eq!(thick.material_components(), vec!["E", "nu", "h"]);
    assert_eq!(thick.optional_material_components(), &["rho", "k_s"]);
    assert_eq!(thick.behavior_output_components().len(), 9);

    let plate = Shell::new(facet(ElementType::TRI3, &[0, 1, 2]), ShellModel::Kirchhoff).unwrap();
    assert_eq!(plate.stiffness_layout().unwrap().fespaces.len(), 1);
    assert_eq!(plate.optional_material_components(), &["rho"]);
    assert_eq!(plate.behavior_output_components().len(), 7);
    assert!(plate.matrix_layout(MatrixKind::Mass).is_none());
}

#[test]
fn shell_models_and_their_strains() {
    assert_eq!(ShellModel::Thick.name(), "thick");
    assert_eq!(ShellModel::Kirchhoff.to_string(), "kirchhoff");
    assert!(ShellModel::Thick.has_transverse_shear());
    assert!(!ShellModel::Kirchhoff.has_transverse_shear());
    assert_eq!(ShellModel::Thick.strains().len(), 9);
    assert_eq!(ShellModel::Kirchhoff.strains(), &ShellModel::Thick.strains()[..7]);
    assert_eq!(ShellModel::Thick.strains()[7], "gamma_xz");
}

#[test]
fn kirchhoff_facets_pair_with_their_quadratic_twin() {
    assert_eq!(element_pair(3, 0).unwrap(), (ElementType::TRI3, ElementType::TRI6));
    assert_eq!(element_pair(4, 0).unwrap(), (ElementType::QUA4, ElementType::QUA8));
    assert_eq!(element_pair(6, 2).unwrap_err(), ModelError::KirchhoffFacet { cell: 2, nodes: 6 });
}

#[test]
fn tagged_laws_round_trip() {
    for law in TaggedLaw::all() {
        assert_eq!(TaggedLaw::from_tag(law.to_tag()), Some(law));
        assert_eq!(law.to_string(), law.to_tag());
    }
    assert_eq!(TaggedLaw::from_tag("gurson"), None);
    assert_eq!(TaggedLaw::from_tag("Perfect"), None);
    assert_eq!(
        TaggedLaw::tag_list(),
        "perfect|isotropic|drucker_prager|ottosen|creep_norton|creep_blackburn|creep_lemaitre|viscoplastic_chaboche|viscoplastic_lemaitre_chaboche"
    );
    assert_eq!(TaggedLaw::DruckerPrager.material_components(), &["E", "nu", "alpha", "k", "psi"]);
    assert!(TaggedLaw::CreepLemaitre.is_viscous());
    assert!(!TaggedLaw::Ottosen.is_viscous());
    assert_eq!(TaggedLaw::CreepBlackburn.internal_names(), vec!["p_prim"]);
}

#[test]
fn tensor_names() {
    let suffixes: Vec<&str> = (0..6).map(tensor_suffix).collect();
    assert_eq!(suffixes, vec!["xx", "yy", "zz", "yz", "xz", "xy"]);
    assert_eq!(primal_names(3), vec!["u_x", "u_y", "u_z"]);
    assert_eq!(dual_names(2), vec!["f_x", "f_y"]);
}

#[test]
fn meshes_and_point_supports() {
    let mut sm = SubMesh::new(3, 2, ElementType::SEG2);
    assert_eq!(
        sm.add_cell(&[1]).unwrap_err(),
        ModelError::CellSize { expected: 2, given: 1 }
    );
    sm.add_cell(&[4, 2]).unwrap();
    sm.add_cell(&[2, 9]).unwrap();
    assert_eq!(sm.cell_count(), 2);
    let p = sm.to_poi1();
    assert_eq!(p.connectivity, vec![4, 2, 9]);
    assert_eq!(p.element_type, ElementType::POI1);
    let mesh = Mesh::from_submesh(sm);
    assert_eq!(mesh.coords().unwrap(), 3);
    assert!(mesh.has_cells());
    assert_eq!(Mesh { submeshes: vec![] }.coords().unwrap_err(), ModelError::EmptyMesh);
}

#[test]
fn dof_orderings() {
    assert_eq!(DofOrdering::NodesThenVars.to_index(2, 1, 4, 3), 7);
    assert_eq!(DofOrdering::VarsThenNodes.to_index(2, 1, 4, 3), 6);
    assert_eq!(ElementType::HEX8.node_count(), 8);
    assert_eq!(ElementType::SEG2.ref_dim(), 1);
}

#[test]
fn domain_contributions_follow_their_layouts() {
    let mz = Mazars::new(unit_quad_space(), ElasticityModel::PlaneStress).unwrap();
    let c = mz.contributions::<f64>(MatrixKind::Stiffness);
    assert_eq!(c.len(), 1);
    match &c[0] {
        Contribution::Computed(l) => assert_eq!(l.primal_vars, vec!["u_x", "u_y"]),
        _ => panic!("a domain hands its layout"),
    }
    assert!(mz.contributions::<f64>(MatrixKind::Mass).is_empty());
    let rad = Radiation::new(unit_quad_space()).unwrap();
    assert_eq!(rad.contributions::<f64>(MatrixKind::Tangent).len(), 1);
    assert!(rad.contributions::<f64>(MatrixKind::Geometric).is_empty());
    let plate = Shell::new(facet(ElementType::QUA4, &[0, 1, 2, 3]), ShellModel::Kirchhoff).unwrap();
    assert_eq!(plate.contributions::<f64>(MatrixKind::Stiffness).len(), 1);
    assert!(plate.contributions::<f64>(MatrixKind::Tangent).is_empty());
}

#[test]
fn distinct_kinds_and_physics_have_distinct_names_and_indices() {
    let kinds = [MatrixKind::Stiffness, MatrixKind::Mass, MatrixKind::Geometric, MatrixKind::Tangent];
    for (i, a) in kinds.iter().enumerate() {
        for b in kinds.iter().skip(i + 1) {
            assert_ne!(a.index(), b.index());
        }
    }
    let all = [
        Physics::Mechanical,
        Physics::Thermal,
        Physics::Constraint,
        Physics::Other,
        Physics::Diffusion,
        Physics::Radiation,
    ];
    for (i, a) in all.iter().enumerate() {
        for b in all.iter().skip(i + 1) {
            assert_ne!(a.name(), b.name());
        }
    }
    assert_eq!(MatrixKind::default(), MatrixKind::Stiffness);
    assert_eq!(ShellModel::default(), ShellModel::Thick);
    assert_eq!(TaggedLaw::default(), TaggedLaw::Perfect);
}
