use pyrucast::atoms::ElementType;
use pyrucast::containers::finite_element_space::SubFiniteElementSpace;
use pyrucast::containers::mesh::{Mesh, SubMesh};
use pyrucast::models::mazars::Mazars;
use pyrucast::models::mpc::{Mpc, MpcTerm};
use pyrucast::models::plasticity::Plasticity;
use pyrucast::models::radiation::Radiation;
use pyrucast::models::shell::{Shell, ShellModel};
use pyrucast::models::tensor::{ElasticityModel, Kinematics};
use pyrucast::models::RelationSense;
use pyrucast::text::{decimal, join};

fn unit_quad_space() -> SubFiniteElementSpace {
    let mut sm = SubMesh::new(1, 2, ElementType::QUA4);
    sm.add_cell(&[0, 1, 2, 3]).unwrap();
    SubFiniteElementSpace::lagrange1(sm)
}

#[test]
fn numbers_are_written_in_decimal() {
    assert_eq!(decimal(0), "0");
    assert_eq!(decimal(7), "7");
    assert_eq!(decimal(10), "10");
    assert_eq!(decimal(1234), "1234");
    assert_eq!(decimal(usize::MAX), usize::MAX.to_string());
}

#[test]
fn join_puts_the_separator_between_parts() {
    let parts: Vec<String> = vec!["u_x".into(), "u_y".into(), "u_z".into()];
    assert_eq!(join(&parts, ", "), "u_x, u_y, u_z");
    assert_eq!(join(&parts[..1], ", "), "u_x");
    assert_eq!(join(&[], ", "), "");
}

#[test]
fn domain_summaries() {
    let mz = Mazars::new(unit_quad_space(), ElasticityModel::PlaneStress).unwrap();
    assert_eq!(mz.display(), "SubModel<Mazars>");
    assert_eq!(
        mz.render(),
        "SubModel<Mazars(PlaneStress)>\n  primal var(s): u_x, u_y\n  dual var(s):   f_x, f_y\n  support: 4 node(s)"
    );
    let pl = Plasticity::new(unit_quad_space(), Kinematics::Axisymmetric).unwrap();
    assert_eq!(
        pl.render(),
        "SubModel<Plasticity(Axisymmetric)>\n  primal var(s): u_x, u_y\n  dual var(s):   f_x, f_y\n  support: 4 node(s)"
    );
    let rad = Radiation::new(unit_quad_space()).unwrap();
    assert_eq!(rad.display(), "SubModel<Radiation>");
    assert_eq!(rad.render(), "SubModel<Radiation>\n  primal var(s): T\n  dual var(s):   q\n  support: 4 node(s)");
    let mut tri = SubMesh::new(1, 3, ElementType::TRI3);
    tri.add_cell(&[0, 1, 2]).unwrap();
    tri.add_cell(&[2, 1, 3]).unwrap();
    let shell = Shell::new(SubFiniteElementSpace::lagrange1(tri), ShellModel::Kirchhoff).unwrap();
    assert_eq!(
        shell.render(),
        "SubModel<Shell(kirchhoff)>\n  primal var(s): u_x, u_y, u_z, r_x, r_y, r_z\n  dual var(s):   f_x, f_y, f_z, m_x, m_y, m_z\n  support: 4 node(s)"
    );
}

#[test]
fn an_mpc_summary_counts_relations_and_terms() {
    let mut a = SubMesh::new(1, 1, ElementType::POI1);
    let mut b = SubMesh::new(1, 1, ElementType::POI1);
    let mut m = SubMesh::new(1, 1, ElementType::POI1);
    for k in 0..3u64 {
        a.add_cell(&[k]).unwrap();
        b.add_cell(&[10 + k]).unwrap();
        m.add_cell(&[100 + k]).unwrap();
    }
    let primal = vec!["T".to_string()];
    let dual = vec!["q".to_string()];
    let terms = vec![
        MpcTerm::new(&primal, &dual, &Mesh::from_submesh(a), "T", 1.0).unwrap(),
        MpcTerm::new(&primal, &dual, &Mesh::from_submesh(b), "T", -1.0).unwrap(),
    ];
    let mpc = Mpc::new(terms, &Mesh::from_submesh(m), RelationSense::LessEqual).unwrap();
    assert_eq!(mpc.display(), "SubModel<Mpc>: 3 relation(s), 2 term(s) each");
    assert_eq!(mpc.multiplier(), "lambda_mpc");
    assert_eq!(mpc.imposed_value(), "mpc_rhs");
    assert_eq!(mpc.sense(), RelationSense::LessEqual);
    assert_eq!(mpc.terms().len(), 2);
    assert_eq!(mpc.multiplier_mesh().cell_count(), 3);
}
