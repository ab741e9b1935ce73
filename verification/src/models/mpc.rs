//! Multi-point constraints via Lagrange multipliers.
//!
//! An MPC imposes linear relations `Σₖ aₖ · u(nodeₖ, varₖ) ⋈ g` between degrees
//! of freedom. Each term is a point mesh, a variable, the dual row its reaction
//! lands in, and a coefficient; all term meshes and the multiplier mesh are
//! paired sub-mesh by sub-mesh and node by node — relation `r` of sub-mesh `i`
//! links node `r` of sub-mesh `i` of every term mesh to multiplier node `r` of
//! sub-mesh `i`. The coefficient type `C` is the scalar of the assembled
//! blocks.

use vstd::prelude::*;
use crate::atoms::{ElementType, NodeId};
use crate::containers::mesh::{Mesh, SubMesh};
use crate::error::ModelError;
use crate::containers::matrix::SubMatrix;
use crate::text::{decimal, spec_decimal};
use crate::models::{
    constraint_block_pair, is_block_pair, ConstraintTerm, Contribution, MatrixKind, Physics, Relation,
    RelationSense, views, owned,
};

verus! {

broadcast use vstd::string::group_string_axioms;

/// The view of a sub-mesh.
pub type SubView = <SubMesh as View>::V;

/// Name of the multiplier (this constraint's primal) when none is chosen.
pub fn default_multiplier() -> (r: String)
    ensures
        r@ == "lambda_mpc"@,
{
    "lambda_mpc".to_string()
}

/// Name of the imposed value (this constraint's dual, where `g` is written)
/// when none is chosen.
pub fn default_imposed_value() -> (r: String)
    ensures
        r@ == "mpc_rhs"@,
{
    "mpc_rhs".to_string()
}

/// Number of cells of a sub-mesh view.
pub open spec fn sub_cells(s: SubView) -> nat {
    s.3.len() / s.2.spec_node_count()
}

/// The first multiplier sub-mesh, from `i` on, that is not made of points.
pub open spec fn mult_error_from(m: Seq<SubView>, i: int) -> Option<ModelError>
    decreases m.len() - i,
{
    if i < 0 || i >= m.len() {
        None
    } else if m[i].2 != ElementType::POI1 {
        Some(ModelError::MpcMultiplierNotPoi1 { submesh: i as usize, element: m[i].2 })
    } else {
        mult_error_from(m, i + 1)
    }
}

/// The first fault, from sub-mesh `i` on, of term `t`'s sub-meshes `ts`
/// against the multiplier's `m`: not points, or not as many nodes.
pub open spec fn term_sub_error(t: int, ts: Seq<SubView>, m: Seq<SubView>, i: int) -> Option<ModelError>
    decreases ts.len() - i,
{
    if i < 0 || i >= ts.len() {
        None
    } else if ts[i].2 != ElementType::POI1 {
        Some(ModelError::MpcTermNotPoi1 { term: t as usize, submesh: i as usize, element: ts[i].2 })
    } else if sub_cells(ts[i]) != sub_cells(m[i]) {
        Some(ModelError::MpcNodeCount {
            term: t as usize,
            submesh: i as usize,
            given: sub_cells(ts[i]) as usize,
            expected: sub_cells(m[i]) as usize,
        })
    } else {
        term_sub_error(t, ts, m, i + 1)
    }
}

/// The first fault of term `t` (sub-meshes `ts`) against the multiplier
/// mesh `m`: no sub-mesh, another coordinate store, another sub-mesh count,
/// then a fault of one of its sub-meshes.
pub open spec fn term_error(t: int, ts: Seq<SubView>, m: Seq<SubView>) -> Option<ModelError> {
    if ts.len() == 0 {
        Some(ModelError::EmptyMesh)
    } else if ts[0].0 != m[0].0 {
        Some(ModelError::MpcCoords { term: t as usize })
    } else if ts.len() != m.len() {
        Some(ModelError::MpcSubmeshCount { term: t as usize, expected: m.len() as usize, given: ts.len() as usize })
    } else {
        term_sub_error(t, ts, m, 0)
    }
}

/// The first fault among the terms from `k` on.
pub open spec fn terms_error_from(terms: Seq<Seq<SubView>>, m: Seq<SubView>, k: int) -> Option<ModelError>
    decreases terms.len() - k,
{
    if k < 0 || k >= terms.len() {
        None
    } else {
        match term_error(k, terms[k], m) {
            Some(e) => Some(e),
            None => terms_error_from(terms, m, k + 1),
        }
    }
}

/// Some multiplier sub-mesh carries a node.
pub open spec fn has_node(m: Seq<SubView>) -> bool {
    exists|i: int| 0 <= i < m.len() && #[trigger] sub_cells(m[i]) > 0
}

/// Why a multi-point constraint with term meshes `terms` and multiplier mesh
/// `m` is refused, if it is: no term; no multiplier node; a multiplier
/// sub-mesh not made of points; then the first fault of a term.
pub open spec fn spec_mpc_error(terms: Seq<Seq<SubView>>, m: Seq<SubView>) -> Option<ModelError> {
    if terms.len() == 0 {
        Some(ModelError::MpcNoTerm)
    } else if !has_node(m) {
        Some(ModelError::MpcNoMultiplier)
    } else {
        match mult_error_from(m, 0) {
            Some(e) => Some(e),
            None => terms_error_from(terms, m, 0),
        }
    }
}

/// No fault from multiplier sub-mesh `i` on means every one of them is made of points.
proof fn lemma_mult_ok(m: Seq<SubView>, i: int)
    requires
        0 <= i,
        mult_error_from(m, i) is None,
    ensures
        forall|j: int| i <= j < m.len() ==> (#[trigger] m[j]).2 == ElementType::POI1,
    decreases m.len() - i,
{
    if i < m.len() {
        lemma_mult_ok(m, i + 1);
    }
}

/// No fault of a term from sub-mesh `i` on means its sub-meshes from `i` on
/// are made of points, as many as the multiplier's.
proof fn lemma_term_sub_ok(t: int, ts: Seq<SubView>, m: Seq<SubView>, i: int)
    requires
        0 <= i,
        term_sub_error(t, ts, m, i) is None,
    ensures
        forall|j: int| i <= j < ts.len() ==> (#[trigger] ts[j]).2 == ElementType::POI1 && sub_cells(ts[j]) == sub_cells(m[j]),
    decreases ts.len() - i,
{
    if i < ts.len() {
        lemma_term_sub_ok(t, ts, m, i + 1);
    }
}

/// No fault among the terms from `k` on means no fault of any of them.
proof fn lemma_terms_ok(terms: Seq<Seq<SubView>>, m: Seq<SubView>, k: int)
    requires
        0 <= k,
        terms_error_from(terms, m, k) is None,
    ensures
        forall|j: int| k <= j < terms.len() ==> term_error(j, #[trigger] terms[j], m) is None,
    decreases terms.len() - k,
{
    if k < terms.len() {
        lemma_terms_ok(terms, m, k + 1);
    }
}

/// Number of nodes of the first `n` sub-meshes of `m`.
pub open spec fn node_total(m: Seq<SubView>, n: int) -> int
    decreases n,
{
    if n <= 0 || n > m.len() { 0 } else { node_total(m, n - 1) + m[n - 1].3.len() }
}

/// The nodes of the first `n` sub-meshes of `m`, sub-mesh after sub-mesh.
pub open spec fn nodes_upto(m: Seq<SubView>, n: int) -> Seq<NodeId>
    decreases n,
{
    if n <= 0 || n > m.len() { Seq::empty() } else { nodes_upto(m, n - 1) + m[n - 1].3 }
}

/// A mesh made of point sub-meshes has as many cells as nodes.
proof fn lemma_point_cells(mesh: &Mesh, n: int)
    requires
        0 <= n <= mesh.submeshes@.len(),
        forall|j: int| 0 <= j < mesh.spec_subs().len() ==> (#[trigger] mesh.spec_subs()[j]).2 == ElementType::POI1,
    ensures
        mesh.spec_cells_upto(n) == node_total(mesh.spec_subs(), n),
    decreases n,
{
    if n > 0 {
        lemma_point_cells(mesh, n - 1);
        assert(mesh.spec_subs().len() == mesh.submeshes@.len());
        assert(mesh.submeshes@[n - 1]@ == mesh.spec_subs()[n - 1]);
        assert(mesh.spec_subs()[n - 1].2 == ElementType::POI1);
        assert(mesh.submeshes@[n - 1].element_type.spec_node_count() == 1);
        assert(mesh.submeshes@[n - 1].spec_cell_count() == mesh.spec_subs()[n - 1].3.len());
    }
}

/// Position of the `C` block of term `k` over sub-mesh `i` among the blocks
/// of a constraint with `nt` terms; its `Cᵀ` follows it.
pub open spec fn block_at(nt: int, i: int, k: int) -> int {
    2 * (i * nt + k)
}

/// Blocks of earlier sub-meshes, or of earlier terms of the same sub-mesh,
/// come first.
proof fn lemma_block_at_before(nt: int, i: int, k: int, i2: int, k2: int)
    requires
        0 <= k < nt,
        0 <= k2 < nt,
        0 <= i2,
        i2 < i || (i2 == i && k2 < k),
    ensures
        block_at(nt, i2, k2) + 1 < block_at(nt, i, k),
        0 <= block_at(nt, i2, k2),
{
    assert(i2 * nt + k2 < i * nt + k) by (nonlinear_arith)
        requires
            0 <= k < nt,
            0 <= k2 < nt,
            0 <= i2,
            i2 < i || (i2 == i && k2 < k);
    assert(0 <= i2 * nt) by (nonlinear_arith)
        requires
            0 <= i2,
            0 <= nt;
}

/// One term of a multi-point constraint: a point mesh paired with the
/// multiplier mesh, the constrained variable, the dual row of its reaction,
/// and the coefficient.
#[derive(Debug)]
pub struct MpcTerm<C> {
    /// The constrained nodes.
    pub mesh: Mesh,
    /// The constrained primal variable.
    pub variable: String,
    /// The dual row its reaction lands in.
    pub target_dual: String,
    /// The coefficient.
    pub coefficient: C,
}

/// A copy of a list of strings.
fn copy_strings(v: &[String]) -> (r: Vec<String>)
    ensures
        views(r@) == views(v@),
{
    let mut out: Vec<String> = Vec::new();
    let mut i: usize = 0;
    while i < v.len()
        invariant
            i <= v@.len(),
            views(out@) == views(v@.take(i as int)),
        decreases v@.len() - i,
    {
        let s = v[i].clone();
        proof {
            assert(views(out@.push(s)) =~= views(out@).push(s@));
            assert(views(v@.take(i + 1)) =~= views(v@.take(i as int)).push(v@[i as int]@));
        }
        out.push(s);
        i += 1;
    }
    assert(v@.take(i as int) =~= v@);
    out
}

/// A copy of a mesh, sub-mesh for sub-mesh.
fn share(mesh: &Mesh) -> (r: Mesh)
    ensures
        r.spec_subs() == mesh.spec_subs(),
{
    let mut out: Vec<SubMesh> = Vec::new();
    let mut i: usize = 0;
    while i < mesh.submeshes.len()
        invariant
            i <= mesh.submeshes@.len(),
            out@.map_values(|s: SubMesh| s@) == mesh.spec_subs().take(i as int),
        decreases mesh.submeshes@.len() - i,
    {
        let s = mesh.submeshes[i].duplicate();
        proof {
            assert(out@.push(s).map_values(|s: SubMesh| s@) =~= out@.map_values(|s: SubMesh| s@).push(s@));
            assert(mesh.spec_subs().take(i + 1) =~= mesh.spec_subs().take(i as int).push(mesh.submeshes@[i as int]@));
        }
        out.push(s);
        i += 1;
    }
    assert(mesh.spec_subs().take(i as int) =~= mesh.spec_subs());
    Mesh { submeshes: out }
}

/// The first position of `variable` among `names`.
pub open spec fn first_name(names: Seq<Seq<char>>, variable: Seq<char>, k: int) -> bool {
    &&& 0 <= k < names.len()
    &&& names[k] == variable
    &&& forall|j: int| 0 <= j < k ==> names[j] != variable
}

impl<C: Copy> MpcTerm<C> {
    /// A term constraining `variable` of a target physics whose primal and
    /// dual variables pair up position by position: its reaction lands in the
    /// dual paired with the first occurrence of `variable`. Refused when the
    /// target does not declare `variable` as a primal.
    pub fn new(
        target_primal: &[String],
        target_dual: &[String],
        mesh: &Mesh,
        variable: &str,
        coefficient: C,
    ) -> (r: Result<MpcTerm<C>, ModelError>)
        requires
            target_primal@.len() == target_dual@.len(),
        ensures
            r is Ok <==> views(target_primal@).contains(variable@),
            r matches Err(e) ==> e matches ModelError::NotAPrimal { variable: v, declared: d } && v@ == variable@
                && views(d@) == views(target_primal@),
            r matches Ok(t) ==> {
                &&& t.mesh.spec_subs() == mesh.spec_subs()
                &&& t.variable@ == variable@
                &&& t.coefficient == coefficient
                &&& exists|k: int| first_name(views(target_primal@), variable@, k) && t.target_dual@ == target_dual@[k]@
            },
    {
        let mut k: usize = 0;
        while k < target_primal.len()
            invariant
                k <= target_primal@.len(),
                target_primal@.len() == target_dual@.len(),
                forall|j: int| 0 <= j < k ==> views(target_primal@)[j] != variable@,
            decreases target_primal@.len() - k,
        {
            if crate::text::str_eq(target_primal[k].as_str(), variable) {
                let dual = target_dual[k].clone();
                proof {
                    assert(first_name(views(target_primal@), variable@, k as int));
                }
                return Ok(MpcTerm { mesh: share(mesh), variable: owned(variable), target_dual: dual, coefficient });
            }
            k += 1;
        }
        proof {
            assert forall|j: int| 0 <= j < views(target_primal@).len() implies views(target_primal@)[j] != variable@ by {}
        }
        Err(ModelError::NotAPrimal { variable: owned(variable), declared: copy_strings(target_primal) })
    }
}

/// A multi-point constraint: its terms, the multiplier mesh, the names of its
/// multiplier and imposed value, and the sense of its relations. Built only
/// by [`Mpc::new`], so it always passes that constructor's checks.
#[derive(Debug)]
pub struct Mpc<C> {
    terms: Vec<MpcTerm<C>>,
    multiplier_mesh: Mesh,
    multiplier: String,
    imposed_value: String,
    sense: RelationSense,
}

impl<C> Mpc<C> {
    /// Its terms.
    pub closed spec fn spec_terms(&self) -> Seq<MpcTerm<C>> {
        self.terms@
    }

    /// The sub-mesh views of its multiplier mesh.
    pub closed spec fn spec_mesh(&self) -> Seq<SubView> {
        self.multiplier_mesh.spec_subs()
    }

    /// The name of its multiplier.
    pub closed spec fn spec_multiplier(&self) -> Seq<char> {
        self.multiplier@
    }

    /// The name of its imposed value.
    pub closed spec fn spec_imposed(&self) -> Seq<char> {
        self.imposed_value@
    }

    /// The sense of its relations.
    pub closed spec fn spec_sense(&self) -> RelationSense {
        self.sense
    }

    /// It passes every check of [`new`](Self::new).
    #[verifier::type_invariant]
    spec fn inv(self) -> bool {
        self.wf()
    }

    /// The sub-mesh views of each term mesh.
    pub open spec fn spec_term_subs(&self) -> Seq<Seq<SubView>> {
        self.spec_terms().map_values(|t: MpcTerm<C>| t.mesh.spec_subs())
    }

    /// The constraint passes every check of [`new`](Self::new).
    pub open spec fn wf(&self) -> bool {
        spec_mpc_error(self.spec_term_subs(), self.spec_mesh()) is None
    }

}

impl<C: Copy> Mpc<C> {
    /// The relation of node `r` of sub-mesh `i`.
    pub open spec fn spec_relation(&self, i: int, r: int) -> (NodeId, Seq<char>, Seq<(NodeId, Seq<char>, Seq<char>, C)>, RelationSense) {
        (
            self.spec_mesh()[i].3[r],
            self.spec_imposed(),
            Seq::new(
                self.spec_terms().len(),
                |k: int| (
                    self.spec_terms()[k].mesh.spec_subs()[i].3[r],
                    self.spec_terms()[k].variable@,
                    self.spec_terms()[k].target_dual@,
                    self.spec_terms()[k].coefficient,
                ),
            ),
            self.spec_sense(),
        )
    }

    /// The relations of the first `n` sub-meshes, sub-mesh after sub-mesh,
    /// node after node.
    pub open spec fn spec_relations(&self, n: int) -> Seq<(NodeId, Seq<char>, Seq<(NodeId, Seq<char>, Seq<char>, C)>, RelationSense)>
        decreases n,
    {
        if n <= 0 {
            Seq::empty()
        } else {
            self.spec_relations(n - 1) + Seq::new(
                self.spec_mesh()[n - 1].3.len(),
                |r: int| self.spec_relation(n - 1, r),
            )
        }
    }

    /// One relation per multiplier node of the first `n` sub-meshes, each
    /// carrying one term per constraint term, in the imposed-value row and
    /// with the sense of the constraint; term `k` of every relation
    /// constrains the variable of the constraint's term `k`, lands in that
    /// term's dual row, with that term's coefficient.
    pub proof fn lemma_relations_shape(&self, n: int)
        requires
            0 <= n <= self.spec_mesh().len(),
        ensures
            self.spec_relations(n).len() == node_total(self.spec_mesh(), n),
            forall|q: int| 0 <= q < self.spec_relations(n).len() ==> {
                let rel = #[trigger] self.spec_relations(n)[q];
                &&& rel.1 == self.spec_imposed()
                &&& rel.2.len() == self.spec_terms().len()
                &&& rel.3 == self.spec_sense()
                &&& forall|k: int| 0 <= k < self.spec_terms().len() ==> {
                    &&& (#[trigger] rel.2[k]).1 == self.spec_terms()[k].variable@
                    &&& rel.2[k].2 == self.spec_terms()[k].target_dual@
                    &&& rel.2[k].3 == self.spec_terms()[k].coefficient
                }
            },
        decreases n,
    {
        if n > 0 {
            self.lemma_relations_shape(n - 1);
            let before = self.spec_relations(n - 1);
            let added = Seq::new(
                self.spec_mesh()[n - 1].3.len(),
                |r: int| self.spec_relation(n - 1, r),
            );
            assert(self.spec_relations(n) == before + added);
            assert forall|q: int| 0 <= q < self.spec_relations(n).len() implies {
                let rel = #[trigger] self.spec_relations(n)[q];
                &&& rel.1 == self.spec_imposed()
                &&& rel.2.len() == self.spec_terms().len()
                &&& rel.3 == self.spec_sense()
                &&& forall|k: int| 0 <= k < self.spec_terms().len() ==> {
                    &&& (#[trigger] rel.2[k]).1 == self.spec_terms()[k].variable@
                    &&& rel.2[k].2 == self.spec_terms()[k].target_dual@
                    &&& rel.2[k].3 == self.spec_terms()[k].coefficient
                }
            } by {
                if q < before.len() {
                    assert(self.spec_relations(n)[q] == before[q]);
                } else {
                    assert(self.spec_relations(n)[q] == added[q - before.len()]);
                }
            }
        }
    }

    /// The relations of the first `n` sub-meshes pair nodes by rank: relation
    /// `q` is enforced at the `q`-th multiplier node, and its term `k` acts on
    /// the `q`-th node of term `k`'s mesh, nodes listed sub-mesh after
    /// sub-mesh.
    pub proof fn lemma_relations_pair_nodes(&self, n: int)
        requires
            self.wf(),
            0 <= n <= self.spec_mesh().len(),
        ensures
            nodes_upto(self.spec_mesh(), n).len() == self.spec_relations(n).len(),
            forall|k: int| 0 <= k < self.spec_terms().len() ==>
                nodes_upto(#[trigger] self.spec_terms()[k].mesh.spec_subs(), n).len() == self.spec_relations(n).len(),
            forall|q: int| 0 <= q < self.spec_relations(n).len() ==>
                (#[trigger] self.spec_relations(n)[q]).0 == nodes_upto(self.spec_mesh(), n)[q],
            forall|q: int, k: int| 0 <= q < self.spec_relations(n).len() && 0 <= k < self.spec_terms().len() ==>
                (#[trigger] self.spec_relations(n)[q].2[k]).0 == nodes_upto(self.spec_terms()[k].mesh.spec_subs(), n)[q],
        decreases n,
    {
        self.lemma_relations_shape(n);
        if n > 0 {
            self.lemma_relations_pair_nodes(n - 1);
            self.lemma_relations_shape(n - 1);
            let m = self.spec_mesh();
            let before = self.spec_relations(n - 1);
            let added = Seq::new(m[n - 1].3.len(), |r: int| self.spec_relation(n - 1, r));
            assert(self.spec_relations(n) == before + added);
            let nb = before.len() as int;
            assert(nodes_upto(m, n) == nodes_upto(m, n - 1) + m[n - 1].3);
            assert forall|k: int| 0 <= k < self.spec_terms().len() implies
                nodes_upto(#[trigger] self.spec_terms()[k].mesh.spec_subs(), n).len() == self.spec_relations(n).len() by {
                self.lemma_paired(n - 1, k);
                let tk = self.spec_terms()[k].mesh.spec_subs();
                assert(nodes_upto(tk, n) == nodes_upto(tk, n - 1) + tk[n - 1].3);
            }
            assert forall|q: int| 0 <= q < self.spec_relations(n).len() implies
                (#[trigger] self.spec_relations(n)[q]).0 == nodes_upto(m, n)[q] by {
                if q < nb {
                    assert(self.spec_relations(n)[q] == before[q]);
                } else {
                    assert(self.spec_relations(n)[q] == added[q - nb]);
                }
            }
            assert forall|q: int, k: int| 0 <= q < self.spec_relations(n).len() && 0 <= k < self.spec_terms().len() implies
                (#[trigger] self.spec_relations(n)[q].2[k]).0 == nodes_upto(self.spec_terms()[k].mesh.spec_subs(), n)[q] by {
                self.lemma_paired(n - 1, k);
                let tk = self.spec_terms()[k].mesh.spec_subs();
                assert(nodes_upto(tk, n) == nodes_upto(tk, n - 1) + tk[n - 1].3);
                assert(nodes_upto(tk, n - 1).len() == nb);
                if q < nb {
                    assert(self.spec_relations(n)[q] == before[q]);
                    assert(before[q].2[k].0 == nodes_upto(tk, n - 1)[q]);
                } else {
                    assert(self.spec_relations(n)[q] == added[q - nb]);
                }
            }
        }
    }

    /// Relations whose views are the constraint's relations carry, term by
    /// term, the variable, dual row and coefficient of its terms.
    proof fn lemma_relation_carries_term(&self, rels: Seq<Relation<C>>, q: int, k: int)
        requires
            rels.map_values(|x: Relation<C>| x@) == self.spec_relations(self.spec_mesh().len() as int),
            0 <= q < rels.len(),
            0 <= k < self.spec_terms().len(),
        ensures
            k < rels[q].terms@.len(),
            rels[q].terms@[k].variable@ == self.spec_terms()[k].variable@,
            rels[q].terms@[k].target_dual@ == self.spec_terms()[k].target_dual@,
            rels[q].terms@[k].coefficient == self.spec_terms()[k].coefficient,
    {
        self.lemma_relation_carries(rels, q);
        self.lemma_relations_shape(self.spec_mesh().len() as int);
        let rel = self.spec_relations(self.spec_mesh().len() as int)[q];
        assert(rel.2[k] == rels[q].terms@[k]@);
    }

    /// A relation whose view is one of the constraint's relations has one
    /// term per constraint term, its imposed value and its sense.
    proof fn lemma_relation_carries(&self, rels: Seq<Relation<C>>, q: int)
        requires
            rels.map_values(|x: Relation<C>| x@) == self.spec_relations(self.spec_mesh().len() as int),
            0 <= q < rels.len(),
        ensures
            rels[q]@ == self.spec_relations(self.spec_mesh().len() as int)[q],
            rels[q].terms@.len() == self.spec_terms().len(),
            rels[q].imposed_value@ == self.spec_imposed(),
            rels[q].sense == self.spec_sense(),
    {
        let n = self.spec_mesh().len() as int;
        self.lemma_relations_shape(n);
        let views_r = rels.map_values(|x: Relation<C>| x@);
        assert(views_r[q] == rels[q]@);
        let rel = self.spec_relations(n)[q];
        assert(rel == rels[q]@);
    }

    /// A multi-point constraint of `terms` paired with `multiplier_mesh`, with
    /// the default names `lambda_mpc` (multiplier) and `mpc_rhs` (imposed
    /// value). Refused, with the first fault: no term; a multiplier mesh with
    /// no node; a multiplier sub-mesh not made of points; then, term by term, a
    /// mesh with no sub-mesh, on another coordinate store, with another number
    /// of sub-meshes, or with a sub-mesh not made of points or not carrying as
    /// many nodes as its multiplier sub-mesh.
    #[verifier::loop_isolation(false)]
    pub fn new(terms: Vec<MpcTerm<C>>, multiplier_mesh: &Mesh, sense: RelationSense) -> (r: Result<Mpc<C>, ModelError>)
        ensures
            ({
                let ts = terms@.map_values(|t: MpcTerm<C>| t.mesh.spec_subs());
                let m = multiplier_mesh.spec_subs();
                &&& r matches Err(e) ==> spec_mpc_error(ts, m) == Some(e)
                &&& r is Ok <==> spec_mpc_error(ts, m) is None
                &&& r matches Ok(mpc) ==> {
                    &&& mpc.wf()
                    &&& mpc.spec_terms() == terms@
                    &&& mpc.spec_mesh() == m
                    &&& mpc.spec_multiplier() == "lambda_mpc"@
                    &&& mpc.spec_imposed() == "mpc_rhs"@
                    &&& mpc.spec_sense() == sense
                }
            }),
    {
        let ghost ts = terms@.map_values(|t: MpcTerm<C>| t.mesh.spec_subs());
        let ghost m = multiplier_mesh.spec_subs();
        if terms.len() == 0 {
            return Err(ModelError::MpcNoTerm);
        }
        if !multiplier_mesh.has_cells() {
            proof {
                assert forall|i: int| 0 <= i < m.len() implies !(#[trigger] sub_cells(m[i]) > 0) by {
                    assert(multiplier_mesh.submeshes@[i].spec_cell_count() == sub_cells(m[i]));
                }
            }
            return Err(ModelError::MpcNoMultiplier);
        }
        proof {
            let i = choose|i: int| 0 <= i < multiplier_mesh.submeshes@.len() && #[trigger] multiplier_mesh.submeshes@[i].spec_cell_count() > 0;
            assert(sub_cells(m[i]) > 0);
            assert(has_node(m));
        }
        let n_sub = multiplier_mesh.len();
        let coords_m = match multiplier_mesh.coords() {
            Ok(c) => c,
            Err(e) => {
                return Err(e);
            },
        };
        let mut i: usize = 0;
        while i < n_sub
            invariant
                i <= n_sub,
                n_sub == m.len(),
                m == multiplier_mesh.spec_subs(),
                mult_error_from(m, 0) == mult_error_from(m, i as int),
            decreases n_sub - i,
        {
            let met = multiplier_mesh.submeshes[i].element_type;
            if met != ElementType::POI1 {
                assert(mult_error_from(m, i as int) == Some(ModelError::MpcMultiplierNotPoi1 { submesh: i, element: met }));
                return Err(ModelError::MpcMultiplierNotPoi1 { submesh: i, element: met });
            }
            i += 1;
        }
        let mut t: usize = 0;
        while t < terms.len()
            invariant
                t <= terms@.len(),
                n_sub == m.len(),
                n_sub > 0,
                coords_m == m[0].0,
                m == multiplier_mesh.spec_subs(),
                ts == terms@.map_values(|t: MpcTerm<C>| t.mesh.spec_subs()),
                mult_error_from(m, 0) is None,
                terms_error_from(ts, m, 0) == terms_error_from(ts, m, t as int),
            decreases terms@.len() - t,
        {
            let term = &terms[t];
            let ghost tsub = ts[t as int];
            assert(tsub == term.mesh.spec_subs());
            let coords_t = match term.mesh.coords() {
                Ok(c) => c,
                Err(e) => {
                    assert(terms_error_from(ts, m, t as int) == Some(ModelError::EmptyMesh));
                    return Err(e);
                },
            };
            if coords_t != coords_m {
                assert(terms_error_from(ts, m, t as int) == Some(ModelError::MpcCoords { term: t }));
                return Err(ModelError::MpcCoords { term: t });
            }
            let n_t = term.mesh.len();
            if n_t != n_sub {
                assert(terms_error_from(ts, m, t as int) == Some(ModelError::MpcSubmeshCount { term: t, expected: n_sub, given: n_t }));
                return Err(ModelError::MpcSubmeshCount { term: t, expected: n_sub, given: n_t });
            }
            let mut j: usize = 0;
            while j < n_sub
                invariant
                    j <= n_sub,
                    n_sub == m.len(),
                    tsub.len() == n_sub,
                    tsub == term.mesh.spec_subs(),
                    m == multiplier_mesh.spec_subs(),
                    term_sub_error(t as int, tsub, m, 0) == term_sub_error(t as int, tsub, m, j as int),
                decreases n_sub - j,
            {
                let sm = &term.mesh.submeshes[j];
                let tet = sm.element_type;
                if tet != ElementType::POI1 {
                    assert(term_sub_error(t as int, tsub, m, j as int) == Some(ModelError::MpcTermNotPoi1 { term: t, submesh: j, element: tet }));
                    assert(terms_error_from(ts, m, t as int) == Some(ModelError::MpcTermNotPoi1 { term: t, submesh: j, element: tet }));
                    return Err(ModelError::MpcTermNotPoi1 { term: t, submesh: j, element: tet });
                }
                let tcount = sm.cell_count();
                let mcount = multiplier_mesh.submeshes[j].cell_count();
                assert(tcount == sub_cells(tsub[j as int]));
                assert(mcount == sub_cells(m[j as int]));
                if tcount != mcount {
                    assert(term_sub_error(t as int, tsub, m, j as int) == Some(ModelError::MpcNodeCount { term: t, submesh: j, given: tcount, expected: mcount }));
                    assert(terms_error_from(ts, m, t as int) == Some(ModelError::MpcNodeCount { term: t, submesh: j, given: tcount, expected: mcount }));
                    return Err(ModelError::MpcNodeCount { term: t, submesh: j, given: tcount, expected: mcount });
                }
                j += 1;
            }
            assert(term_error(t as int, tsub, m) is None);
            assert(terms_error_from(ts, m, t as int) == terms_error_from(ts, m, t + 1));
            t += 1;
        }
        let mm = share(multiplier_mesh);
        assert(terms@.map_values(|t: MpcTerm<C>| t.mesh.spec_subs()) == ts);
        let mpc = Mpc {
            terms,
            multiplier_mesh: mm,
            multiplier: default_multiplier(),
            imposed_value: default_imposed_value(),
            sense,
        };
        Ok(mpc)
    }

    /// Every term sub-mesh carries as many nodes as its multiplier sub-mesh.
    proof fn lemma_paired(&self, i: int, k: int)
        requires
            self.wf(),
            0 <= i < self.spec_mesh().len(),
            0 <= k < self.spec_terms().len(),
        ensures
            self.spec_terms()[k].mesh.spec_subs().len() == self.spec_mesh().len(),
            self.spec_terms()[k].mesh.spec_subs()[i].3.len() == self.spec_mesh()[i].3.len(),
            self.spec_terms()[k].mesh.spec_subs()[i].2 == ElementType::POI1,
            self.spec_mesh()[i].2 == ElementType::POI1,
    {
        let ts = self.spec_term_subs();
        let m = self.spec_mesh();
        lemma_mult_ok(m, 0);
        lemma_terms_ok(ts, m, 0);
        assert(term_error(k, ts[k], m) is None);
        assert(ts[k] == self.spec_terms()[k].mesh.spec_subs());
        lemma_term_sub_ok(k, ts[k], m, 0);
        assert(ts[k][i].2 == ElementType::POI1 && sub_cells(ts[k][i]) == sub_cells(m[i]));
    }

    /// The blocks of the stiffness contribution: for each sub-mesh `i`, for
    /// each term `k`, the `C` / `Cᵀ` pair of that term over sub-mesh `i`.
    pub open spec fn spec_blocks(&self, blocks: Seq<SubMatrix<C>>) -> bool {
        let nt = self.spec_terms().len() as int;
        let m = self.spec_mesh();
        &&& blocks.len() == 2 * m.len() * nt
        &&& forall|i: int, k: int| #![trigger block_at(nt, i, k)] 0 <= i < m.len() && 0 <= k < nt ==> {
            let t = self.spec_terms()[k];
            is_block_pair(
                m[i],
                t.mesh.spec_subs()[i],
                t.variable@,
                t.target_dual@,
                self.spec_multiplier(),
                self.spec_imposed(),
                t.coefficient,
                blocks[block_at(nt, i, k)],
                blocks[block_at(nt, i, k) + 1],
            )
        }
    }

    /// Every term of a relation writes its `C` entry in one and the same
    /// row — the relation's multiplier node, in the imposed-value row — which
    /// is what sums the terms into one equation.
    pub proof fn lemma_terms_share_the_row(&self, blocks: Seq<SubMatrix<C>>, i: int, r: int, k1: int, k2: int)
        requires
            self.wf(),
            self.spec_blocks(blocks),
            0 <= i < self.spec_mesh().len(),
            0 <= r < self.spec_mesh()[i].3.len(),
            0 <= k1 < self.spec_terms().len(),
            0 <= k2 < self.spec_terms().len(),
        ensures
            ({
                let nt = self.spec_terms().len() as int;
                let e1 = blocks[block_at(nt, i, k1)].entries@[r];
                let e2 = blocks[block_at(nt, i, k2)].entries@[r];
                &&& r < blocks[block_at(nt, i, k1)].entries@.len()
                &&& r < blocks[block_at(nt, i, k2)].entries@.len()
                &&& e1.row_node == self.spec_mesh()[i].3[r]
                &&& e2.row_node == e1.row_node
                &&& e1.row_var@ == self.spec_imposed()
                &&& e2.row_var@ == e1.row_var@
            }),
    {
        self.lemma_paired(i, k1);
        self.lemma_paired(i, k2);
    }

    /// Its matrix contributions of kind `kind`: nothing but for the
    /// stiffness, where it hands its filled-in `C` / `Cᵀ` blocks, one pair per
    /// sub-mesh and term. Terms of one relation share its multiplier node and
    /// imposed-value row, which sums them into one equation.
    pub fn contributions(&self, kind: MatrixKind) -> (r: Vec<Contribution<C>>)
        ensures
            kind != MatrixKind::Stiffness ==> r@.len() == 0,
            kind == MatrixKind::Stiffness ==> r@.len() == 1 && (r@[0] matches Contribution::Literal(blocks) && self.spec_blocks(blocks@)),
    {
        proof {
            use_type_invariant(self);
        }
        match kind {
            MatrixKind::Stiffness => {},
            _ => {
                return Vec::new();
            },
        }
        let n_sub = self.multiplier_mesh.submeshes.len();
        let nt = self.terms.len();
        let ghost m = self.spec_mesh();
        let mut blocks: Vec<SubMatrix<C>> = Vec::new();
        let mut i: usize = 0;
        while i < n_sub
            invariant
                self.wf(),
                i <= n_sub,
                n_sub == m.len(),
                nt == self.spec_terms().len(),
                m == self.spec_mesh(),
                blocks@.len() == block_at(nt as int, i as int, 0),
                forall|i2: int, k2: int| #![trigger block_at(nt as int, i2, k2)] 0 <= i2 < i && 0 <= k2 < nt ==> {
                    let t = self.spec_terms()[k2];
                    is_block_pair(m[i2], t.mesh.spec_subs()[i2], t.variable@, t.target_dual@, self.spec_multiplier(),
                        self.spec_imposed(), t.coefficient, blocks@[block_at(nt as int, i2, k2)], blocks@[block_at(nt as int, i2, k2) + 1])
                },
            decreases n_sub - i,
        {
            let mut k: usize = 0;
            while k < nt
                invariant
                    self.wf(),
                    i < n_sub,
                    k <= nt,
                    n_sub == m.len(),
                    nt == self.spec_terms().len(),
                    m == self.spec_mesh(),
                    blocks@.len() == block_at(nt as int, i as int, k as int),
                    forall|i2: int, k2: int| #![trigger block_at(nt as int, i2, k2)] (0 <= i2 < i && 0 <= k2 < nt) || (i2 == i && 0 <= k2 < k) ==> {
                        let t = self.spec_terms()[k2];
                        is_block_pair(m[i2], t.mesh.spec_subs()[i2], t.variable@, t.target_dual@, self.spec_multiplier(),
                            self.spec_imposed(), t.coefficient, blocks@[block_at(nt as int, i2, k2)], blocks@[block_at(nt as int, i2, k2) + 1])
                    },
                decreases nt - k,
            {
                let t = &self.terms[k];
                proof {
                    self.lemma_paired(i as int, k as int);
                }
                let (c, ct) = constraint_block_pair(
                    &self.multiplier_mesh.submeshes[i],
                    &t.mesh.submeshes[i],
                    t.variable.as_str(),
                    t.target_dual.as_str(),
                    self.multiplier.as_str(),
                    self.imposed_value.as_str(),
                    t.coefficient,
                );
                let ghost old_blocks = blocks@;
                blocks.push(c);
                blocks.push(ct);
                proof {
                    assert forall|i2: int, k2: int| #![trigger block_at(nt as int, i2, k2)] (0 <= i2 < i && 0 <= k2 < nt) || (i2 == i && 0 <= k2 < k + 1) implies {
                        let t = self.spec_terms()[k2];
                        is_block_pair(m[i2], t.mesh.spec_subs()[i2], t.variable@, t.target_dual@, self.spec_multiplier(),
                            self.spec_imposed(), t.coefficient, blocks@[block_at(nt as int, i2, k2)], blocks@[block_at(nt as int, i2, k2) + 1])
                    } by {
                        if i2 == i && k2 == k {
                        } else {
                            lemma_block_at_before(nt as int, i as int, k as int, i2, k2);
                            assert(blocks@[block_at(nt as int, i2, k2)] == old_blocks[block_at(nt as int, i2, k2)]);
                            assert(blocks@[block_at(nt as int, i2, k2) + 1] == old_blocks[block_at(nt as int, i2, k2) + 1]);
                        }
                    }
                }
                k += 1;
            }
            assert(block_at(nt as int, i as int, nt as int) == block_at(nt as int, i + 1, 0)) by (nonlinear_arith);
            i += 1;
        }
        assert(block_at(nt as int, n_sub as int, 0) == 2 * n_sub * nt) by (nonlinear_arith);
        let mut r: Vec<Contribution<C>> = Vec::new();
        r.push(Contribution::Literal(blocks));
        r
    }

    /// The number of relations it imposes — one per multiplier node.
    pub open spec fn spec_relation_count(&self) -> int {
        node_total(self.spec_mesh(), self.spec_mesh().len() as int)
    }

    /// Its one-line summary: `SubModel<Mpc>: n relation(s), t term(s) each`,
    /// `n` its relations (saturating at `usize::MAX`) and `t` its terms.
    pub fn display(&self) -> (r: String)
        ensures
            r@ == "SubModel<Mpc>: "@ + spec_decimal(
                if self.spec_relation_count() <= usize::MAX { self.spec_relation_count() as nat } else { usize::MAX as nat },
            ) + " relation(s), "@ + spec_decimal(self.spec_terms().len()) + " term(s) each"@,
    {
        proof {
            use_type_invariant(self);
            lemma_mult_ok(self.spec_mesh(), 0);
            lemma_point_cells(&self.multiplier_mesh, self.spec_mesh().len() as int);
        }
        let n = self.multiplier_mesh.cell_count();
        let mut s = "SubModel<Mpc>: ".to_string();
        s.append(decimal(n).as_str());
        s.append(" relation(s), ");
        s.append(decimal(self.terms.len()).as_str());
        s.append(" term(s) each");
        s
    }

    /// The multiplier, its only primal.
    pub fn primal_vars(&self) -> (r: Vec<String>)
        ensures
            views(r@) == seq![self.spec_multiplier()],
    {
        let mut v = Vec::new();
        v.push(self.multiplier.clone());
        assert(views(v@) =~= seq![self.spec_multiplier()]);
        v
    }

    /// The imposed value, its only dual.
    pub fn dual_vars(&self) -> (r: Vec<String>)
        ensures
            views(r@) == seq![self.spec_imposed()],
    {
        let mut v = Vec::new();
        v.push(self.imposed_value.clone());
        assert(views(v@) =~= seq![self.spec_imposed()]);
        v
    }

    /// Its nature: a constraint.
    pub fn physics(&self) -> (r: &'static [Physics])
        ensures
            r@ == seq![Physics::Constraint],
    {
        let r: &'static [Physics] = &[Physics::Constraint];
        assert(r@ =~= seq![Physics::Constraint]);
        r
    }

    /// Short type label.
    pub fn label(&self) -> (r: &'static str)
        ensures
            r@ == "Mpc"@,
    {
        "Mpc"
    }

    /// Its terms, in order.
    pub fn terms(&self) -> (r: &[MpcTerm<C>])
        ensures
            r@ == self.spec_terms(),
    {
        self.terms.as_slice()
    }

    /// The name of its multiplier.
    pub fn multiplier(&self) -> (r: &str)
        ensures
            r@ == self.spec_multiplier(),
    {
        self.multiplier.as_str()
    }

    /// The name of its imposed value.
    pub fn imposed_value(&self) -> (r: &str)
        ensures
            r@ == self.spec_imposed(),
    {
        self.imposed_value.as_str()
    }

    /// The sense of its relations.
    pub fn sense(&self) -> (r: RelationSense)
        ensures
            r == self.spec_sense(),
    {
        self.sense
    }

    /// The multiplier mesh.
    pub fn multiplier_mesh(&self) -> (r: &Mesh)
        ensures
            r.spec_subs() == self.spec_mesh(),
    {
        &self.multiplier_mesh
    }

    /// The relations it imposes: one per multiplier node, sub-mesh after
    /// sub-mesh, each carrying one term per constraint term — node `r` of the
    /// same sub-mesh of that term's mesh.
    pub fn relations(&self) -> (r: Vec<Relation<C>>)
        ensures
            r@.map_values(|x: Relation<C>| x@) == self.spec_relations(self.spec_mesh().len() as int),
            r@.len() == node_total(self.spec_mesh(), self.spec_mesh().len() as int),
            forall|q: int, k: int| 0 <= q < r@.len() && 0 <= k < self.spec_terms().len() ==>
                (#[trigger] r@[q].terms@[k]).variable@ == self.spec_terms()[k].variable@,
            forall|q: int, k: int| 0 <= q < r@.len() && 0 <= k < self.spec_terms().len() ==>
                (#[trigger] r@[q].terms@[k]).target_dual@ == self.spec_terms()[k].target_dual@,
            forall|q: int, k: int| 0 <= q < r@.len() && 0 <= k < self.spec_terms().len() ==>
                (#[trigger] r@[q].terms@[k]).coefficient == self.spec_terms()[k].coefficient,
            forall|q: int| 0 <= q < r@.len() ==> (#[trigger] r@[q]).terms@.len() == self.spec_terms().len(),
            forall|q: int| 0 <= q < r@.len() ==> (#[trigger] r@[q]).imposed_value@ == self.spec_imposed(),
            forall|q: int| 0 <= q < r@.len() ==> (#[trigger] r@[q]).sense == self.spec_sense(),
            nodes_upto(self.spec_mesh(), self.spec_mesh().len() as int).len() == r@.len(),
            forall|q: int| 0 <= q < r@.len() ==>
                (#[trigger] r@[q]).multiplier_node == nodes_upto(self.spec_mesh(), self.spec_mesh().len() as int)[q],
            forall|q: int, k: int| 0 <= q < r@.len() && 0 <= k < self.spec_terms().len() ==>
                (#[trigger] r@[q].terms@[k]).node == nodes_upto(
                    self.spec_terms()[k].mesh.spec_subs(),
                    self.spec_mesh().len() as int,
                )[q],
    {
        proof {
            use_type_invariant(self);
        }
        let n_sub = self.multiplier_mesh.submeshes.len();
        let ghost m = self.spec_mesh();
        let mut relations: Vec<Relation<C>> = Vec::new();
        let mut i: usize = 0;
        while i < n_sub
            invariant
                self.wf(),
                i <= n_sub,
                n_sub == m.len(),
                m == self.spec_mesh(),
                relations@.map_values(|x: Relation<C>| x@) == self.spec_relations(i as int),
            decreases n_sub - i,
        {
            let mult_nodes = self.multiplier_mesh.submeshes[i].connectivity();
            let ghost before = relations@.map_values(|x: Relation<C>| x@);
            let mut r: usize = 0;
            while r < mult_nodes.len()
                invariant
                    self.wf(),
                    i < n_sub,
                    n_sub == m.len(),
                    m == self.spec_mesh(),
                    mult_nodes@ == m[i as int].3,
                    r <= mult_nodes@.len(),
                    before == self.spec_relations(i as int),
                    relations@.map_values(|x: Relation<C>| x@) == before + Seq::new(r as nat, |q: int| self.spec_relation(i as int, q)),
                decreases mult_nodes@.len() - r,
            {
                let mut terms: Vec<ConstraintTerm<C>> = Vec::new();
                let mut k: usize = 0;
                while k < self.terms.len()
                    invariant
                        self.wf(),
                        i < n_sub,
                        n_sub == m.len(),
                        m == self.spec_mesh(),
                        r < m[i as int].3.len(),
                        k <= self.spec_terms().len(),
                        terms@.map_values(|t: ConstraintTerm<C>| t@) == self.spec_relation(i as int, r as int).2.take(k as int),
                    decreases self.spec_terms().len() - k,
                {
                    let t = &self.terms[k];
                    proof {
                        self.lemma_paired(i as int, k as int);
                    }
                    let node = t.mesh.submeshes[i].connectivity[r];
                    let term = ConstraintTerm {
                        node,
                        variable: t.variable.clone(),
                        target_dual: t.target_dual.clone(),
                        coefficient: t.coefficient,
                    };
                    proof {
                        assert(terms@.push(term).map_values(|t: ConstraintTerm<C>| t@) =~= terms@.map_values(|t: ConstraintTerm<C>| t@).push(term@));
                        assert(self.spec_relation(i as int, r as int).2.take(k + 1) =~= self.spec_relation(i as int, r as int).2.take(k as int).push(term@));
                    }
                    terms.push(term);
                    k += 1;
                }
                assert(self.spec_relation(i as int, r as int).2.take(k as int) =~= self.spec_relation(i as int, r as int).2);
                let rel = Relation {
                    multiplier_node: mult_nodes[r],
                    imposed_value: self.imposed_value.clone(),
                    terms,
                    sense: self.sense,
                };
                proof {
                    assert(rel@ == self.spec_relation(i as int, r as int));
                    assert(relations@.push(rel).map_values(|x: Relation<C>| x@) =~= relations@.map_values(|x: Relation<C>| x@).push(rel@));
                    assert(Seq::new((r + 1) as nat, |q: int| self.spec_relation(i as int, q)) =~= Seq::new(r as nat, |q: int| self.spec_relation(i as int, q)).push(rel@));
                }
                relations.push(rel);
                r += 1;
            }
            assert(self.spec_relations(i + 1) =~= before + Seq::new(r as nat, |q: int| self.spec_relation(i as int, q)));
            i += 1;
        }
        proof {
            let n = self.spec_mesh().len() as int;
            self.lemma_relations_shape(n);
            assert(relations@.map_values(|x: Relation<C>| x@).len() == relations@.len());
            assert forall|q: int, k: int| 0 <= q < relations@.len() && 0 <= k < self.spec_terms().len() implies {
                &&& (#[trigger] relations@[q].terms@[k]).variable@ == self.spec_terms()[k].variable@
                &&& relations@[q].terms@[k].target_dual@ == self.spec_terms()[k].target_dual@
                &&& relations@[q].terms@[k].coefficient == self.spec_terms()[k].coefficient
            } by {
                self.lemma_relation_carries_term(relations@, q, k);
            }
            assert forall|q: int| 0 <= q < relations@.len() implies {
                &&& (#[trigger] relations@[q]).terms@.len() == self.spec_terms().len()
                &&& relations@[q].imposed_value@ == self.spec_imposed()
                &&& relations@[q].sense == self.spec_sense()
            } by {
                self.lemma_relation_carries(relations@, q);
            }
            self.lemma_relations_pair_nodes(n);
            assert forall|q: int| 0 <= q < relations@.len() implies
                (#[trigger] relations@[q]).multiplier_node == nodes_upto(self.spec_mesh(), n)[q] by {
                self.lemma_relation_carries(relations@, q);
            }
            assert forall|q: int, k: int| 0 <= q < relations@.len() && 0 <= k < self.spec_terms().len() implies
                (#[trigger] relations@[q].terms@[k]).node == nodes_upto(self.spec_terms()[k].mesh.spec_subs(), n)[q] by {
                self.lemma_relation_carries(relations@, q);
                self.lemma_relation_carries_term(relations@, q, k);
                assert(self.spec_relations(n)[q].2[k] == relations@[q].terms@[k]@);
            }
        }
        relations
    }
}

} // verus!
