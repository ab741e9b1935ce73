use pyrucast::atoms::ElementType;
use pyrucast::containers::mesh::{Mesh, SubMesh};
use pyrucast::error::ModelError;
use pyrucast::models::mpc::{default_imposed_value, default_multiplier, Mpc, MpcTerm};
use pyrucast::models::{Contribution, MatrixKind, Physics, RelationSense};

const COORDS: u64 = 7;

/// A point mesh on the given nodes.
fn poi1_nodes(nodes: &[u64]) -> Mesh {
    let mut sm = SubMesh::new(COORDS, 1, ElementType::POI1);
    for n in nodes {
        sm.add_cell(&[*n]).unwrap();
    }
    Mesh::from_submesh(sm)
}

/// The target physics a relation constrains: conduction, `T` paired with `q`.
fn conduction() -> (Vec<String>, Vec<String>) {
    (vec!["T".to_string()], vec!["q".to_string()])
}

fn term(mesh: &Mesh, coefficient: f64) -> MpcTerm<f64> {
    let (primal, dual) = conduction();
    MpcTerm::new(&primal, &dual, mesh, "T", coefficient).unwrap()
}

#[test]
fn empty_terms_rejected() {
    // The multiplier node stands apart from the constrained node 0.
    let mult = poi1_nodes(&[100]);
    assert!(Mpc::<f64>::new(vec![], &mult, Default::default()).is_err());
}

#[test]
fn mismatched_cell_count_rejected() {
    // Term mesh with two nodes, but the multiplier mesh has one → rejected.
    let term_mesh = poi1_nodes(&[0, 1]);
    let mult = poi1_nodes(&[100]);
    let t = term(&term_mesh, 1.0);
    assert!(Mpc::new(vec![t], &mult, Default::default()).is_err());
}

#[test]
fn relations_flatten_terms() {
    let mesh_a = poi1_nodes(&[0]);
    let mesh_b = poi1_nodes(&[1]);
    let mult = poi1_nodes(&[100]);
    let terms = vec![term(&mesh_a, 2.0), term(&mesh_b, -3.0)];
    let mpc = Mpc::new(terms, &mult, Default::default()).unwrap();

    // Default variable names.
    assert_eq!(mpc.primal_vars(), vec!["lambda_mpc".to_string()]);
    assert_eq!(mpc.dual_vars(), vec!["mpc_rhs".to_string()]);

    // One relation carrying both terms, in order, with their coefficients.
    let rels = mpc.relations();
    assert_eq!(rels.len(), 1);
    assert_eq!(rels[0].terms.len(), 2);
    assert_eq!(rels[0].terms[0].node, 0);
    assert_eq!(rels[0].terms[0].coefficient, 2.0);
    assert_eq!(rels[0].terms[1].node, 1);
    assert_eq!(rels[0].terms[1].coefficient, -3.0);
}

#[test]
fn default_names() {
    assert_eq!(
        (default_multiplier().as_str(), default_imposed_value().as_str()),
        ("lambda_mpc", "mpc_rhs")
    );
}

#[test]
fn a_term_needs_a_primal_of_its_target() {
    let (primal, dual) = conduction();
    let mesh = poi1_nodes(&[0]);
    let e = MpcTerm::new(&primal, &dual, &mesh, "u_x", 1.0).unwrap_err();
    assert_eq!(e, ModelError::NotAPrimal { variable: "u_x".to_string(), declared: vec!["T".to_string()] });
    assert_eq!(
        e.message(),
        "MpcTerm: `u_x` is not a primal of the model it constrains \u{2014} it declares [\u{22}T\u{22}]"
    );
    let primal = vec!["u_x".to_string(), "u_y".to_string()];
    let dual = vec!["f_x".to_string(), "f_y".to_string()];
    let t = MpcTerm::new(&primal, &dual, &mesh, "u_y", 0.5).unwrap();
    assert_eq!(t.target_dual, "f_y");
    assert_eq!(t.variable, "u_y");
    assert_eq!(t.mesh.submeshes[0].connectivity, vec![0]);
}

#[test]
fn each_refusal_names_its_fault() {
    let mult = poi1_nodes(&[100]);
    let one = poi1_nodes(&[0]);
    assert_eq!(Mpc::<f64>::new(vec![], &mult, RelationSense::Equality).unwrap_err(), ModelError::MpcNoTerm);

    let empty_mult = Mesh::from_submesh(SubMesh::new(COORDS, 1, ElementType::POI1));
    assert_eq!(
        Mpc::new(vec![term(&one, 1.0)], &empty_mult, RelationSense::Equality).unwrap_err(),
        ModelError::MpcNoMultiplier
    );

    let mut seg = SubMesh::new(COORDS, 1, ElementType::SEG2);
    seg.add_cell(&[100, 101]).unwrap();
    let seg_mult = Mesh::from_submesh(seg);
    assert_eq!(
        Mpc::new(vec![term(&one, 1.0)], &seg_mult, RelationSense::Equality).unwrap_err(),
        ModelError::MpcMultiplierNotPoi1 { submesh: 0, element: ElementType::SEG2 }
    );

    let mut elsewhere = SubMesh::new(COORDS + 1, 1, ElementType::POI1);
    elsewhere.add_cell(&[0]).unwrap();
    let elsewhere = Mesh::from_submesh(elsewhere);
    assert_eq!(
        Mpc::new(vec![term(&one, 1.0), term(&elsewhere, 1.0)], &mult, RelationSense::Equality).unwrap_err(),
        ModelError::MpcCoords { term: 1 }
    );

    let mut two = poi1_nodes(&[0]);
    two.submeshes.push(SubMesh::new(COORDS, 1, ElementType::POI1));
    assert_eq!(
        Mpc::new(vec![term(&two, 1.0)], &mult, RelationSense::Equality).unwrap_err(),
        ModelError::MpcSubmeshCount { term: 0, expected: 1, given: 2 }
    );

    let mut seg_term = SubMesh::new(COORDS, 1, ElementType::SEG2);
    seg_term.add_cell(&[0, 1]).unwrap();
    let seg_term = Mesh::from_submesh(seg_term);
    assert_eq!(
        Mpc::new(vec![term(&seg_term, 1.0)], &mult, RelationSense::Equality).unwrap_err(),
        ModelError::MpcTermNotPoi1 { term: 0, submesh: 0, element: ElementType::SEG2 }
    );

    let pair = poi1_nodes(&[0, 1]);
    assert_eq!(
        Mpc::new(vec![term(&pair, 1.0)], &mult, RelationSense::Equality).unwrap_err(),
        ModelError::MpcNodeCount { term: 0, submesh: 0, given: 2, expected: 1 }
    );
    assert_eq!(
        ModelError::MpcNodeCount { term: 0, submesh: 0, given: 2, expected: 1 }.message(),
        "Mpc: term 0 submesh 0 has 2 node(s) but multiplier has 1"
    );
    assert_eq!(ModelError::MpcNoTerm.message(), "Mpc: at least one term is required");

    let no_sub = Mesh { submeshes: vec![] };
    assert_eq!(
        Mpc::new(vec![term(&no_sub, 1.0)], &mult, RelationSense::Equality).unwrap_err(),
        ModelError::EmptyMesh
    );
}

#[test]
fn periodicity_is_one_relation_per_node_pair() {
    let left = poi1_nodes(&[0, 1, 2]);
    let right = poi1_nodes(&[10, 11, 12]);
    let mult = poi1_nodes(&[100, 101, 102]);
    let mpc = Mpc::new(vec![term(&left, 1.0), term(&right, -1.0)], &mult, RelationSense::GreaterEqual).unwrap();
    let rels = mpc.relations();
    assert_eq!(rels.len(), 3);
    for (r, rel) in rels.iter().enumerate() {
        assert_eq!(rel.multiplier_node, 100 + r as u64);
        assert_eq!(rel.imposed_value, "mpc_rhs");
        assert_eq!(rel.sense, RelationSense::GreaterEqual);
        assert_eq!(rel.terms[0].node, r as u64);
        assert_eq!(rel.terms[1].node, 10 + r as u64);
        assert_eq!(rel.terms[1].target_dual, "q");
    }
    assert_eq!(mpc.physics(), &[Physics::Constraint]);
    assert_eq!(mpc.label(), "Mpc");
    assert_eq!(mpc.multiplier_mesh().submeshes[0].connectivity, vec![100, 101, 102]);
}

#[test]
fn only_the_stiffness_carries_the_bordering_blocks() {
    let a = poi1_nodes(&[0, 1]);
    let b = poi1_nodes(&[5, 6]);
    let mult = poi1_nodes(&[100, 101]);
    let mpc = Mpc::new(vec![term(&a, 2.0), term(&b, -1.0)], &mult, RelationSense::Equality).unwrap();
    assert!(mpc.contributions(MatrixKind::Mass).is_empty());
    let contributions = mpc.contributions(MatrixKind::Stiffness);
    assert_eq!(contributions.len(), 1);
    let blocks = match &contributions[0] {
        Contribution::Literal(blocks) => blocks,
        _ => panic!("a constraint hands literal blocks"),
    };
    // One C / Cᵀ pair per (sub-mesh, term).
    assert_eq!(blocks.len(), 4);
    let c = &blocks[2];
    assert_eq!(c.row_vars, vec!["mpc_rhs"]);
    assert_eq!(c.col_vars, vec!["T"]);
    assert_eq!(c.entries.len(), 2);
    assert_eq!((c.entries[1].row_node, c.entries[1].col_node, c.entries[1].value), (101, 6, -1.0));
    let ct = &blocks[3];
    assert_eq!(ct.row_vars, vec!["q"]);
    assert_eq!(ct.col_vars, vec!["lambda_mpc"]);
    assert_eq!((ct.entries[0].row_node, ct.entries[0].col_node, ct.entries[0].value), (5, 100, -1.0));
    assert!(!c.symmetric && !ct.symmetric);
    // Both terms of relation 1 write their C entry in the same row.
    assert_eq!(blocks[0].entries[1].row_node, 101);
    assert_eq!(blocks[2].entries[1].row_node, blocks[0].entries[1].row_node);
    assert_eq!(blocks[2].entries[1].row_var, blocks[0].entries[1].row_var);
}
