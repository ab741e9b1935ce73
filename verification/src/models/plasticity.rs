//! Elastoplasticity — the physics, for any yield or flow law.
//!
//! Same kinematics and degrees of freedom as elasticity (`u_*`, `f_*`), the
//! same elastic stiffness as iteration operator; the law ([`law::PlasticLaw`])
//! is an attribute. The behaviour integration is incremental (A → B): the
//! output at B carries the stress, the plastic state (six `eps_p_*` and the
//! cumulated `p`), an echo of the full 3-D strain `ε(B)` (plus `σ_zz` for the
//! plane 2-D kinematics, whose dual omits it) and the law's own variables —
//! everything the next step reads back as its state at A.

pub mod law;

use vstd::prelude::*;
use crate::atoms::ElementType;
use crate::containers::finite_element_space::SubFiniteElementSpace;
use crate::containers::matrix::DofOrdering;
use crate::containers::mesh::{SubMesh, spec_unique};
use crate::error::ModelError;
use crate::models::{Contribution, MatrixKind, MatrixLayout, display_label, domain_render, spec_display, spec_domain_render, Physics, TangentSource, views, str_views, owned_components};
use crate::models::tensor::{
    Kinematics, spec_prefixed, prefixed_names, spec_tensor_suffix, spec_primal_names, spec_dual_names,
    primal_names, dual_names, lemma_tensor_suffixes,
};
use law::PlasticLaw;

verus! {

broadcast use vstd::string::group_string_axioms;

/// Whether a kinematics fits a space dimension: 2-D takes plane stress, plane
/// strain or axisymmetry, 3-D takes the full 3-D kinematics.
pub open spec fn kinematics_fit(space_dim: int, k: Kinematics) -> bool {
    (space_dim == 2 && (k == Kinematics::PlaneStress || k == Kinematics::PlaneStrain || k
        == Kinematics::Axisymmetric)) || (space_dim == 3 && k == Kinematics::Full3D)
}

/// The full-3-D tensor slots the deformation row carries, in its order.
pub open spec fn spec_strain_slots(space_dim: int, k: Kinematics) -> Seq<usize> {
    if space_dim == 2 && k == Kinematics::Axisymmetric {
        seq![0usize, 1, 2, 5]
    } else if space_dim == 2 {
        seq![0usize, 1, 5]
    } else {
        seq![0usize, 1, 2, 3, 4, 5]
    }
}

/// The full-3-D tensor slots of the stress the state carries: the dual
/// components, then the echoed `zz` for the plane 2-D kinematics.
pub open spec fn spec_stress_slots(space_dim: int, k: Kinematics) -> Seq<usize> {
    if space_dim == 2 && k == Kinematics::Axisymmetric {
        seq![0usize, 1, 2, 5]
    } else if space_dim == 2 {
        seq![0usize, 1, 5, 2]
    } else {
        seq![0usize, 1, 2, 3, 4, 5]
    }
}

/// Whether `σ_zz` is echoed as extra state: only the plane 2-D kinematics,
/// whose dual stops at `[xx, yy, xy]`.
pub open spec fn spec_echoes_sigma_zz(space_dim: int, k: Kinematics) -> bool {
    space_dim == 2 && k != Kinematics::Axisymmetric
}

/// The six tensor slots, in Voigt order.
pub open spec fn full_slots() -> Seq<usize> {
    seq![0usize, 1, 2, 3, 4, 5]
}

/// The stress components of the dual, `sigma_*` over the stress slots less
/// the echoed one.
pub open spec fn spec_stress_names(space_dim: int, k: Kinematics) -> Seq<Seq<char>> {
    let slots = spec_stress_slots(space_dim, k);
    let n = if spec_echoes_sigma_zz(space_dim, k) { slots.len() - 1 } else { slots.len() as int };
    spec_prefixed("sigma_"@, slots.take(n))
}

/// The plastic state: the six `eps_p_*`, then the cumulated `p`.
pub open spec fn spec_state_names() -> Seq<Seq<char>> {
    spec_prefixed("eps_p_"@, full_slots()).push("p"@)
}

/// The echo: the six `eps_*` of `ε(B)`, then `sigma_zz` where it is not dual.
pub open spec fn spec_echo_names(space_dim: int, k: Kinematics) -> Seq<Seq<char>> {
    let strains = spec_prefixed("eps_"@, full_slots());
    if spec_echoes_sigma_zz(space_dim, k) { strains.push("sigma_zz"@) } else { strains }
}

fn state_names() -> (r: Vec<String>)
    ensures
        views(r@) == spec_state_names(),
{
    let slots: [usize; 6] = [0, 1, 2, 3, 4, 5];
    assert(slots@ =~= full_slots());
    let mut v = prefixed_names("eps_p_", slots.as_slice());
    let p = "p".to_string();
    proof {
        assert(views(v@.push(p)) =~= views(v@).push(p@));
    }
    v.push(p);
    v
}

fn echo_names(space_dim: usize, kinematics: Kinematics) -> (r: Vec<String>)
    ensures
        views(r@) == spec_echo_names(space_dim as int, kinematics),
{
    let slots: [usize; 6] = [0, 1, 2, 3, 4, 5];
    assert(slots@ =~= full_slots());
    let mut v = prefixed_names("eps_", slots.as_slice());
    if echoes_sigma_zz(space_dim, kinematics) {
        let s = "sigma_zz".to_string();
        proof {
            assert(views(v@.push(s)) =~= views(v@).push(s@));
        }
        v.push(s);
    }
    v
}

fn echoes_sigma_zz(space_dim: usize, kinematics: Kinematics) -> (r: bool)
    ensures
        r == spec_echoes_sigma_zz(space_dim as int, kinematics),
{
    space_dim == 2 && !kinematics.is_axisymmetric()
}

/// The tensor slots the deformation row carries, in its order.
pub fn strain_slots(space_dim: usize, kinematics: Kinematics) -> (r: &'static [usize])
    ensures
        r@ == spec_strain_slots(space_dim as int, kinematics),
{
    if space_dim == 2 && kinematics.is_axisymmetric() {
        let r: &'static [usize] = &[0, 1, 2, 5];
        assert(r@ =~= seq![0usize, 1, 2, 5]);
        r
    } else if space_dim == 2 {
        let r: &'static [usize] = &[0, 1, 5];
        assert(r@ =~= seq![0usize, 1, 5]);
        r
    } else {
        let r: &'static [usize] = &[0, 1, 2, 3, 4, 5];
        assert(r@ =~= seq![0usize, 1, 2, 3, 4, 5]);
        r
    }
}

/// The tensor slots of the stress the state carries.
pub fn stress_slots(space_dim: usize, kinematics: Kinematics) -> (r: &'static [usize])
    ensures
        r@ == spec_stress_slots(space_dim as int, kinematics),
{
    if space_dim == 2 && kinematics.is_axisymmetric() {
        let r: &'static [usize] = &[0, 1, 2, 5];
        assert(r@ =~= seq![0usize, 1, 2, 5]);
        r
    } else if space_dim == 2 {
        let r: &'static [usize] = &[0, 1, 5, 2];
        assert(r@ =~= seq![0usize, 1, 5, 2]);
        r
    } else {
        let r: &'static [usize] = &[0, 1, 2, 3, 4, 5];
        assert(r@ =~= seq![0usize, 1, 2, 3, 4, 5]);
        r
    }
}

fn stress_names(space_dim: usize, kinematics: Kinematics) -> (r: Vec<String>)
    ensures
        views(r@) == spec_stress_names(space_dim as int, kinematics),
{
    let slots = stress_slots(space_dim, kinematics);
    let n = if echoes_sigma_zz(space_dim, kinematics) { slots.len() - 1 } else { slots.len() };
    let dual = slice_prefix(slots, n);
    prefixed_names("sigma_", dual.as_slice())
}

fn slice_prefix(s: &[usize], n: usize) -> (r: Vec<usize>)
    requires
        n <= s@.len(),
    ensures
        r@ == s@.take(n as int),
{
    let mut out: Vec<usize> = Vec::new();
    let mut i: usize = 0;
    while i < n
        invariant
            i <= n <= s@.len(),
            out@ == s@.take(i as int),
        decreases n - i,
    {
        out.push(s[i]);
        assert(s@.take(i + 1) == s@.take(i as int).push(s@[i as int]));
        i += 1;
    }
    out
}

/// The index pair `(i, j)`, `i ≤ j`, of Voigt slot `k`.
pub open spec fn spec_tensor_pair(k: int) -> (usize, usize) {
    if k == 0 {
        (0, 0)
    } else if k == 1 {
        (1, 1)
    } else if k == 2 {
        (2, 2)
    } else if k == 3 {
        (1, 2)
    } else if k == 4 {
        (0, 2)
    } else {
        (0, 1)
    }
}

/// The Voigt slot of the tensor component `(i, j)` — symmetric in `i`, `j`.
pub fn tensor_index(i: usize, j: usize) -> (r: usize)
    requires
        i < 3,
        j < 3,
    ensures
        r < 6,
        spec_tensor_pair(r as int) == (if i <= j { (i, j) } else { (j, i) }),
{
    let (a, b) = if i <= j { (i, j) } else { (j, i) };
    let pairs: [(usize, usize); 6] = [(0, 0), (1, 1), (2, 2), (1, 2), (0, 2), (0, 1)];
    let mut k: usize = 0;
    while k < 6
        invariant
            k <= 6,
            a <= b < 3,
            (a, b) == (if i <= j { (i, j) } else { (j, i) }),
            forall|m: int| 0 <= m < 6 ==> pairs@[m] == spec_tensor_pair(m),
            forall|m: int| 0 <= m < k ==> spec_tensor_pair(m) != (a, b),
        decreases 6 - k,
    {
        if pairs[k].0 == a && pairs[k].1 == b {
            assert(pairs@[k as int] == (a, b));
            return k;
        }
        k += 1;
    }
    assert(spec_tensor_pair(if a == b { a as int } else if a == 1 { 3 } else if b == 2 { 4 } else { 5 }) == (a, b));
    k
}

/// The axis letter of direction `a`.
pub open spec fn axis_letter(a: int) -> char {
    if a == 0 { 'x' } else if a == 1 { 'y' } else { 'z' }
}

/// The Voigt slot of `(i, j)` is that of `(j, i)`, and its component name is
/// the two axis letters of the pair, smaller first.
pub proof fn lemma_tensor_index_names_the_pair(k: int)
    requires
        0 <= k < 6,
    ensures
        spec_tensor_suffix(k) == seq![axis_letter(spec_tensor_pair(k).0 as int), axis_letter(spec_tensor_pair(k).1 as int)],
        spec_tensor_pair(k).0 <= spec_tensor_pair(k).1 < 3,
{
    reveal_strlit("xx");
    reveal_strlit("yy");
    reveal_strlit("zz");
    reveal_strlit("yz");
    reveal_strlit("xz");
    reveal_strlit("xy");
    assert(spec_tensor_suffix(k) =~= seq![axis_letter(spec_tensor_pair(k).0 as int), axis_letter(spec_tensor_pair(k).1 as int)]);
}

/// Elastoplasticity on an FE subspace, with its node support, kinematics and law.
#[derive(Debug)]
pub struct Plasticity {
    fespace: SubFiniteElementSpace,
    support: SubMesh,
    kinematics: Kinematics,
    law: PlasticLaw,
}

impl Plasticity {
    #[verifier::type_invariant]
    spec fn inv(self) -> bool {
        &&& kinematics_fit(self.fespace.submesh.space_dim as int, self.kinematics)
        &&& self.support.element_type == ElementType::POI1
    }

    /// The FE subspace.
    pub closed spec fn spec_fespace(&self) -> <SubFiniteElementSpace as View>::V {
        self.fespace@
    }

    /// The node support (POI1 over the subspace's nodes).
    pub closed spec fn spec_support(&self) -> <SubMesh as View>::V {
        self.support@
    }

    /// The space dimension.
    pub closed spec fn spec_space_dim(&self) -> int {
        self.fespace.submesh.space_dim as int
    }

    /// The kinematics.
    pub closed spec fn spec_kinematics(&self) -> Kinematics {
        self.kinematics
    }

    /// The law.
    pub closed spec fn spec_law(&self) -> PlasticLaw {
        self.law
    }

    /// The behaviour output: the dual stress, the plastic state, the echo,
    /// and the law's own variables.
    pub open spec fn spec_behavior_output(&self) -> Seq<Seq<char>> {
        spec_stress_names(self.spec_space_dim(), self.spec_kinematics()) + spec_state_names()
            + spec_echo_names(self.spec_space_dim(), self.spec_kinematics())
            + self.spec_law().spec_internal_names()
    }

    /// What the point kernel reads back from the state at A: `ε(A)`, `σ(A)`
    /// (with its echoed `σ_zz` where the dual omits it), the plastic state,
    /// and the law's own variables.
    pub open spec fn spec_state_reads(&self) -> Seq<Seq<char>> {
        let d = self.spec_space_dim();
        let k = self.spec_kinematics();
        let sigma = spec_stress_names(d, k);
        let sigma = if spec_echoes_sigma_zz(d, k) { sigma.push("sigma_zz"@) } else { sigma };
        spec_prefixed("eps_"@, full_slots()) + sigma + spec_state_names() + self.spec_law().spec_internal_names()
    }

    /// **Perfect** (non-hardening) von Mises plasticity on an FE subspace — the
    /// default law. Refused, as [`with_law`](Self::with_law), when the
    /// kinematics does not fit the space dimension.
    pub fn new(fespace: SubFiniteElementSpace, kinematics: Kinematics) -> (r: Result<Plasticity, ModelError>)
        ensures
            r is Ok <==> kinematics_fit(fespace.submesh.space_dim as int, kinematics),
            r matches Err(e) ==> e == (ModelError::IncompatibleKinematics { kinematics, space_dim: fespace.submesh.space_dim }),
            r matches Ok(p) ==> {
                &&& p.spec_fespace() == fespace@
                &&& p.spec_support() == (fespace.submesh.coords, fespace.submesh.space_dim, ElementType::POI1, spec_unique(fespace.submesh.connectivity@))
                &&& p.spec_space_dim() == fespace.submesh.space_dim
                &&& p.spec_kinematics() == kinematics
                &&& p.spec_law() == PlasticLaw::Perfect
            },
    {
        Self::with_law(fespace, kinematics, PlasticLaw::Perfect)
    }

    /// Elastoplasticity with an explicit law. Refused when the kinematics
    /// does not fit the space dimension (2-D ⇒ plane stress, plane strain or
    /// axisymmetric; 3-D ⇒ full 3-D).
    pub fn with_law(fespace: SubFiniteElementSpace, kinematics: Kinematics, law: PlasticLaw) -> (r: Result<Plasticity, ModelError>)
        ensures
            r is Ok <==> kinematics_fit(fespace.submesh.space_dim as int, kinematics),
            r matches Err(e) ==> e == (ModelError::IncompatibleKinematics { kinematics, space_dim: fespace.submesh.space_dim }),
            r matches Ok(p) ==> {
                &&& p.spec_fespace() == fespace@
                &&& p.spec_support() == (fespace.submesh.coords, fespace.submesh.space_dim, ElementType::POI1, spec_unique(fespace.submesh.connectivity@))
                &&& p.spec_space_dim() == fespace.submesh.space_dim
                &&& p.spec_kinematics() == kinematics
                &&& p.spec_law() == law
            },
    {
        let space_dim = fespace.space_dim();
        let ok = match kinematics {
            Kinematics::PlaneStress | Kinematics::PlaneStrain | Kinematics::Axisymmetric => space_dim == 2,
            Kinematics::Full3D => space_dim == 3,
        };
        if !ok {
            return Err(ModelError::IncompatibleKinematics { kinematics, space_dim });
        }
        let support = fespace.submesh.to_poi1();
        Ok(Plasticity { fespace, support, kinematics, law })
    }

    /// Displacement components `u_x, u_y(, u_z)`.
    pub fn primal_vars(&self) -> (r: Vec<String>)
        ensures
            views(r@) == spec_primal_names(self.spec_space_dim()),
    {
        proof {
            use_type_invariant(self);
        }
        primal_names(self.fespace.space_dim())
    }

    /// Nodal force components `f_x, f_y(, f_z)`.
    pub fn dual_vars(&self) -> (r: Vec<String>)
        ensures
            views(r@) == spec_dual_names(self.spec_space_dim()),
    {
        proof {
            use_type_invariant(self);
        }
        dual_names(self.fespace.space_dim())
    }

    /// `l` is its block layout: the subspace, its node support, dual rows
    /// and primal columns node-major, symmetric.
    pub open spec fn is_layout(&self, l: MatrixLayout) -> bool {
        &&& l.fespaces@.len() == 1
        &&& l.fespaces@[0]@ == self.spec_fespace()
        &&& l.support@ == self.spec_support()
        &&& views(l.dual_vars@) == spec_dual_names(self.spec_space_dim())
        &&& views(l.primal_vars@) == spec_primal_names(self.spec_space_dim())
        &&& l.ordering == DofOrdering::NodesThenVars
        &&& l.symmetric
    }

    /// The stiffness layout: the subspace, its node support, dual rows and
    /// primal columns node-major, symmetric.
    pub fn stiffness_layout(&self) -> (r: Option<MatrixLayout>)
        ensures
            r matches Some(l) && self.is_layout(l),
    {
        let mut fespaces = Vec::new();
        fespaces.push(self.fespace.duplicate());
        Some(MatrixLayout {
            fespaces,
            support: self.support.duplicate(),
            dual_vars: self.dual_vars(),
            primal_vars: self.primal_vars(),
            ordering: DofOrdering::NodesThenVars,
            symmetric: true,
        })
    }

    /// The mass layout — the stiffness one.
    pub fn mass_layout(&self) -> (r: Option<MatrixLayout>)
        ensures
            r matches Some(l) && self.is_layout(l),
    {
        self.stiffness_layout()
    }

    /// The geometric-stiffness layout — the stiffness one.
    pub fn geometric_layout(&self) -> (r: Option<MatrixLayout>)
        ensures
            r matches Some(l) && self.is_layout(l),
    {
        self.stiffness_layout()
    }

    /// The consistent-tangent layout — the stiffness one.
    pub fn tangent_layout(&self) -> (r: Option<MatrixLayout>)
        ensures
            r matches Some(l) && self.is_layout(l),
    {
        self.stiffness_layout()
    }

    /// The layout of each matrix kind: all four share the stiffness layout.
    pub fn matrix_layout(&self, kind: MatrixKind) -> (r: Option<MatrixLayout>)
        ensures
            r matches Some(l) && self.is_layout(l),
    {
        match kind {
            MatrixKind::Stiffness => self.stiffness_layout(),
            MatrixKind::Mass => self.mass_layout(),
            MatrixKind::Geometric => self.geometric_layout(),
            MatrixKind::Tangent => self.tangent_layout(),
        }
    }

    /// Its one-line summary, `SubModel<Plasticity>`.
    pub fn display(&self) -> (r: String)
        ensures
            r@ == spec_display("Plasticity"@),
    {
        display_label(self.label())
    }

    /// Its multi-line summary: the kinematics, its variables and the node
    /// count of its support.
    pub fn render(&self) -> (r: String)
        ensures
            r@ == spec_domain_render(
                "SubModel<Plasticity("@ + self.spec_kinematics().spec_variant_name() + ")>"@,
                spec_primal_names(self.spec_space_dim()),
                spec_dual_names(self.spec_space_dim()),
                self.spec_support().3.len(),
            ),
    {
        proof {
            use_type_invariant(self);
        }
        let mut header = "SubModel<Plasticity(".to_string();
        header.append(self.kinematics.variant_name());
        header.append(")>");
        domain_render(header, &self.primal_vars(), &self.dual_vars(), self.support.cell_count())
    }

    /// Its contributions of kind `kind`: the block computed from its layout,
    /// for every kind.
    pub fn contributions<V>(&self, kind: MatrixKind) -> (r: Vec<Contribution<V>>)
        ensures
            r@.len() == 1,
            r@[0] matches Contribution::Computed(l) && self.is_layout(l),
    {
        let mut r: Vec<Contribution<V>> = Vec::new();
        match self.matrix_layout(kind) {
            Some(l) => {
                r.push(Contribution::Computed(l));
            },
            None => {},
        }
        r
    }

    /// Its nature: mechanical.
    pub fn physics(&self) -> (r: &'static [Physics])
        ensures
            r@ == seq![Physics::Mechanical],
    {
        let r: &'static [Physics] = &[Physics::Mechanical];
        assert(r@ =~= seq![Physics::Mechanical]);
        r
    }

    /// Short type label.
    pub fn label(&self) -> (r: &'static str)
        ensures
            r@ == "Plasticity"@,
    {
        "Plasticity"
    }

    /// The FE subspace the material is given on.
    pub fn material_fespace(&self) -> (r: SubFiniteElementSpace)
        ensures
            r@ == self.spec_fespace(),
    {
        self.fespace.duplicate()
    }

    /// The material components the law requires.
    pub fn material_components(&self) -> (r: Vec<String>)
        ensures
            views(r@) == self.spec_law().spec_material_components(),
    {
        owned_components(self.law.material_components())
    }

    /// The optional material components the law passes through.
    pub fn optional_material_components(&self) -> (r: &'static [&'static str])
        ensures
            str_views(r@) == seq!["alpha"@, "rho"@],
    {
        self.law.optional_material_components()
    }

    /// The FE subspace the behaviour is integrated on.
    pub fn behavior_fespace(&self) -> (r: SubFiniteElementSpace)
        ensures
            r@ == self.spec_fespace(),
    {
        self.fespace.duplicate()
    }

    /// Output of the behaviour at B: the dual stress, the plastic state
    /// (`eps_p_*`, `p`), the echo of `ε(B)` (and `sigma_zz` for the plane
    /// 2-D kinematics), then the law's own internal variables.
    pub fn behavior_output_components(&self) -> (r: Vec<String>)
        ensures
            views(r@) == self.spec_behavior_output(),
    {
        let d = self.fespace.space_dim();
        let mut comps = stress_names(d, self.kinematics);
        let mut more = state_names();
        let mut echo = echo_names(d, self.kinematics);
        let mut internal = self.law.internal_names();
        let ghost (a, b, c, e) = (views(comps@), views(more@), views(echo@), views(internal@));
        comps.append(&mut more);
        assert(views(comps@) =~= a + b);
        comps.append(&mut echo);
        assert(views(comps@) =~= a + b + c);
        comps.append(&mut internal);
        assert(views(comps@) =~= a + b + c + e);
        comps
    }

    /// Whether the law needs the time increment.
    pub fn requires_dt(&self) -> (r: bool)
        ensures
            r == self.spec_law().spec_is_viscous(),
    {
        self.law.is_viscous()
    }

    /// How the law's consistent tangent is obtained.
    pub fn tangent_source(&self) -> (r: TangentSource)
        ensures
            r == self.spec_law().spec_tangent_source(),
    {
        self.law.tangent_source()
    }

    /// The deformation components the point kernel reads: `eps_*` over the
    /// strain slots of the kinematics.
    pub fn deformation_reads(&self) -> (r: Vec<String>)
        ensures
            views(r@) == spec_prefixed("eps_"@, spec_strain_slots(self.spec_space_dim(), self.spec_kinematics())),
    {
        let slots = strain_slots(self.fespace.space_dim(), self.kinematics);
        prefixed_names("eps_", slots)
    }

    /// The stress components read back at A, in slot order: the Voigt dual,
    /// then the echoed `σ_zz` of the plane kinematics.
    pub open spec fn spec_stress_reads(&self) -> Seq<Seq<char>> {
        let d = self.spec_space_dim();
        let k = self.spec_kinematics();
        let sigma = spec_stress_names(d, k);
        if spec_echoes_sigma_zz(d, k) { sigma.push("sigma_zz"@) } else { sigma }
    }

    /// Where each block of the state read back at A starts among
    /// [`state_reads`](Self::state_reads): the stress (after the six echoed
    /// strains), the plastic strain, the cumulated `p` and the law's own
    /// variables — one stress component per stress slot.
    pub fn state_offsets(&self) -> (r: (usize, usize, usize, usize))
        ensures
            ({
                let reads = self.spec_state_reads();
                &&& r.0 == 6
                &&& r.1 == 6 + spec_stress_slots(self.spec_space_dim(), self.spec_kinematics()).len()
                &&& r.2 == r.1 + 6
                &&& r.3 == r.2 + 1
                &&& r.3 <= reads.len()
                &&& reads.subrange(0, r.0 as int) == spec_prefixed("eps_"@, full_slots())
                &&& reads.subrange(r.0 as int, r.1 as int) == self.spec_stress_reads()
                &&& reads.subrange(r.1 as int, r.2 as int) == spec_prefixed("eps_p_"@, full_slots())
                &&& reads[r.2 as int] == "p"@
                &&& reads.subrange(r.3 as int, reads.len() as int) == self.spec_law().spec_internal_names()
            }),
    {
        proof {
            use_type_invariant(self);
        }
        let n_stress = stress_slots(self.fespace.space_dim(), self.kinematics).len();
        let ghost eps = spec_prefixed("eps_"@, full_slots());
        let ghost sigma = self.spec_stress_reads();
        let ghost eps_p = spec_prefixed("eps_p_"@, full_slots());
        let ghost internal = self.spec_law().spec_internal_names();
        let ghost reads = self.spec_state_reads();
        proof {
            assert(sigma.len() == n_stress);
            assert(reads =~= eps + sigma + eps_p.push("p"@) + internal);
            assert(reads.subrange(0, 6) =~= eps);
            assert(reads.subrange(6, 6 + n_stress) =~= sigma);
            assert(reads.subrange(6 + n_stress, 12 + n_stress) =~= eps_p);
            assert(reads[12 + n_stress] == "p"@);
            assert(reads.subrange(13 + n_stress, reads.len() as int) =~= internal);
        }
        (6, 6 + n_stress, 12 + n_stress, 13 + n_stress)
    }

    /// The state components the point kernel reads back at A.
    pub fn state_reads(&self) -> (r: Vec<String>)
        ensures
            views(r@) == self.spec_state_reads(),
    {
        let d = self.fespace.space_dim();
        let slots: [usize; 6] = [0, 1, 2, 3, 4, 5];
        assert(slots@ =~= full_slots());
        let mut v = prefixed_names("eps_", slots.as_slice());
        let mut sigma = stress_names(d, self.kinematics);
        if echoes_sigma_zz(d, self.kinematics) {
            let s = "sigma_zz".to_string();
            proof {
                assert(views(sigma@.push(s)) =~= views(sigma@).push(s@));
            }
            sigma.push(s);
        }
        let mut state = state_names();
        let mut internal = self.law.internal_names();
        let ghost (a, b, c, e) = (views(v@), views(sigma@), views(state@), views(internal@));
        v.append(&mut sigma);
        assert(views(v@) =~= a + b);
        v.append(&mut state);
        assert(views(v@) =~= a + b + c);
        v.append(&mut internal);
        assert(views(v@) =~= a + b + c + e);
        v
    }
}

/// What a law reads back is what it wrote: every component of the state the
/// point kernel reads at A is a component of the behaviour output at B.
pub proof fn lemma_state_reads_are_outputs(p: &Plasticity)
    ensures
        forall|k: int| 0 <= k < p.spec_state_reads().len() ==> p.spec_behavior_output().contains(
            #[trigger] p.spec_state_reads()[k],
        ),
{
    let d = p.spec_space_dim();
    let kin = p.spec_kinematics();
    let eps = spec_prefixed("eps_"@, full_slots());
    let stress = spec_stress_names(d, kin);
    let sigma = if spec_echoes_sigma_zz(d, kin) { stress.push("sigma_zz"@) } else { stress };
    let state = spec_state_names();
    let internal = p.spec_law().spec_internal_names();
    let echo = spec_echo_names(d, kin);
    let out = p.spec_behavior_output();
    let reads = p.spec_state_reads();
    assert(out == stress + state + echo + internal);
    assert(reads == eps + sigma + state + internal);
    assert forall|k: int| 0 <= k < reads.len() implies out.contains(#[trigger] reads[k]) by {
        let x = reads[k];
        let n0 = eps.len() as int;
        let n1 = n0 + sigma.len();
        let n2 = n1 + state.len();
        if k < n0 {
            // ε(A) is the echo of ε(B).
            assert(echo[k] == x);
            assert(out[stress.len() + state.len() + k] == x);
        } else if k < n1 {
            let i = k - n0;
            if i < stress.len() {
                assert(out[i] == x);
            } else {
                // the echoed σ_zz
                assert(echo[6] == x);
                assert(out[stress.len() + state.len() + 6int] == x);
            }
        } else if k < n2 {
            let i = k - n1;
            assert(out[stress.len() + i] == x);
        } else {
            let i = k - n2;
            assert(out[stress.len() + state.len() + echo.len() + i] == x);
        }
    }
}

/// The behaviour output opens with the stress dual to the deformation row:
/// one `sigma_*` per strain component the kinematics carries, in the same
/// slots and order — for axisymmetry exactly `sigma_xx`, `sigma_yy`,
/// `sigma_zz`, `sigma_xy`.
pub proof fn lemma_stress_block_is_dual(p: &Plasticity)
    ensures
        ({
            let slots = spec_strain_slots(p.spec_space_dim(), p.spec_kinematics());
            &&& slots.len() <= p.spec_behavior_output().len()
            &&& p.spec_behavior_output().take(slots.len() as int) == spec_prefixed("sigma_"@, slots)
        }),
        p.spec_space_dim() == 2 && p.spec_kinematics() == Kinematics::Axisymmetric ==>
            p.spec_behavior_output().take(4) == seq!["sigma_xx"@, "sigma_yy"@, "sigma_zz"@, "sigma_xy"@],
{
    let d = p.spec_space_dim();
    let kin = p.spec_kinematics();
    let slots = spec_strain_slots(d, kin);
    let stress = spec_stress_names(d, kin);
    let out = p.spec_behavior_output();
    assert(out == stress + spec_state_names() + spec_echo_names(d, kin) + p.spec_law().spec_internal_names());
    let n = if spec_echoes_sigma_zz(d, kin) { spec_stress_slots(d, kin).len() - 1 } else { spec_stress_slots(d, kin).len() as int };
    assert(spec_stress_slots(d, kin).take(n) =~= slots);
    assert(stress =~= spec_prefixed("sigma_"@, slots));
    assert(out.take(slots.len() as int) =~= stress);
    if d == 2 && kin == Kinematics::Axisymmetric {
        reveal_strlit("sigma_");
        reveal_strlit("xx");
        reveal_strlit("yy");
        reveal_strlit("zz");
        reveal_strlit("xy");
        reveal_strlit("sigma_xx");
        reveal_strlit("sigma_yy");
        reveal_strlit("sigma_zz");
        reveal_strlit("sigma_xy");
        assert("sigma_"@ + "xx"@ =~= "sigma_xx"@);
        assert("sigma_"@ + "yy"@ =~= "sigma_yy"@);
        assert("sigma_"@ + "zz"@ =~= "sigma_zz"@);
        assert("sigma_"@ + "xy"@ =~= "sigma_xy"@);
        assert(out.take(4) =~= seq!["sigma_xx"@, "sigma_yy"@, "sigma_zz"@, "sigma_xy"@]);
    }
}

/// Every kinematics has a space dimension it fits, and only one: plane
/// stress, plane strain and axisymmetry fit 2-D, the full 3-D kinematics 3-D.
pub proof fn lemma_every_kinematics_has_a_dimension(k: Kinematics, space_dim: int)
    ensures
        kinematics_fit(2, Kinematics::PlaneStress),
        kinematics_fit(2, Kinematics::PlaneStrain),
        kinematics_fit(2, Kinematics::Axisymmetric),
        kinematics_fit(3, Kinematics::Full3D),
        kinematics_fit(space_dim, k) ==> space_dim == (if k == Kinematics::Full3D { 3int } else { 2int }),
{
}

/// Names made of one prefix and the suffixes of distinct tensor slots are
/// distinct, each the prefix followed by its two-letter suffix.
proof fn lemma_prefixed_names_shape(prefix: Seq<char>, slots: Seq<usize>)
    requires
        prefix.len() > 0,
        forall|k: int| 0 <= k < slots.len() ==> #[trigger] slots[k] < 6,
    ensures
        spec_prefixed(prefix, slots).len() == slots.len(),
        forall|i: int| 0 <= i < slots.len() ==> {
            let x = #[trigger] spec_prefixed(prefix, slots)[i];
            &&& x.len() == prefix.len() + 2
            &&& x[0] == prefix[0]
            &&& x.skip(prefix.len() as int) == spec_tensor_suffix(slots[i] as int)
        },
        slots.no_duplicates() ==> spec_prefixed(prefix, slots).no_duplicates(),
{
    lemma_tensor_suffixes();
    let out = spec_prefixed(prefix, slots);
    assert forall|i: int| 0 <= i < slots.len() implies {
        let x = #[trigger] spec_prefixed(prefix, slots)[i];
        &&& x.len() == prefix.len() + 2
        &&& x[0] == prefix[0]
        &&& x.skip(prefix.len() as int) == spec_tensor_suffix(slots[i] as int)
    } by {
        let x = out[i];
        assert(x == prefix + spec_tensor_suffix(slots[i] as int));
        assert(spec_tensor_suffix(slots[i] as int).len() == 2);
        assert(x.skip(prefix.len() as int) =~= spec_tensor_suffix(slots[i] as int));
    }
    if slots.no_duplicates() {
        assert forall|i: int, j: int| 0 <= i < out.len() && 0 <= j < out.len() && i != j implies out[i] != out[j] by {
            if out[i] == out[j] {
                assert(out[i].skip(prefix.len() as int) == out[j].skip(prefix.len() as int));
                assert(spec_tensor_suffix(slots[i] as int) == spec_tensor_suffix(slots[j] as int));
                assert(slots[i] != slots[j]);
            }
        }
    }
}

/// The stress, plastic-state and echo blocks of the behaviour output: no name
/// twice, each of length 8 starting `s` or `e`, length 6 starting `e`, or the
/// single `p`.
proof fn lemma_continuum_block_distinct(d: int, kin: Kinematics)
    ensures
        ({
            let base = spec_stress_names(d, kin) + spec_state_names() + spec_echo_names(d, kin);
            &&& base.no_duplicates()
            &&& forall|i: int| 0 <= i < base.len() ==> {
                let x = #[trigger] base[i];
                ||| x.len() == 8 && (x[0] == 's' || x[0] == 'e')
                ||| x.len() == 6 && x[0] == 'e'
                ||| x.len() == 1 && x[0] == 'p'
            }
        }),
{
    reveal_strlit("sigma_");
    reveal_strlit("eps_p_");
    reveal_strlit("eps_");
    reveal_strlit("p");
    reveal_strlit("zz");
    reveal_strlit("sigma_zz");
    lemma_tensor_suffixes();
    let slots = spec_stress_slots(d, kin);
    let echo = spec_echoes_sigma_zz(d, kin);
    let n = if echo { slots.len() - 1 } else { slots.len() as int };
    let ds = slots.take(n);
    let full = full_slots();
    assert(forall|k: int| 0 <= k < full.len() ==> #[trigger] full[k] < 6);
    assert(full.no_duplicates());
    assert(forall|k: int| 0 <= k < ds.len() ==> #[trigger] ds[k] < 6);
    assert(ds.no_duplicates());
    assert(echo ==> forall|k: int| 0 <= k < ds.len() ==> #[trigger] ds[k] != 2);
    lemma_prefixed_names_shape("sigma_"@, ds);
    lemma_prefixed_names_shape("eps_p_"@, full);
    lemma_prefixed_names_shape("eps_"@, full);
    let stress = spec_prefixed("sigma_"@, ds);
    let t1 = spec_prefixed("eps_p_"@, full);
    let e1 = spec_prefixed("eps_"@, full);
    let pp = seq!["p"@];
    let zz = if echo { seq!["sigma_zz"@] } else { Seq::<Seq<char>>::empty() };
    assert(spec_stress_names(d, kin) == stress);
    assert(spec_state_names() =~= t1 + pp);
    assert(spec_echo_names(d, kin) =~= e1 + zz);
    assert("sigma_zz"@ =~= "sigma_"@ + spec_tensor_suffix(2));
    assert("sigma_zz"@.skip(6) =~= spec_tensor_suffix(2));
    // the plastic state
    vstd::seq_lib::lemma_no_dup_in_concat(t1, pp);
    // the echo
    vstd::seq_lib::lemma_no_dup_in_concat(e1, zz);
    // stress then plastic state
    assert forall|i: int, j: int| 0 <= i < stress.len() && 0 <= j < (t1 + pp).len() implies stress[i] != (t1 + pp)[j] by {
        if j < t1.len() {
            assert((t1 + pp)[j] == t1[j]);
            assert(stress[i][0] != t1[j][0]);
        } else {
            assert((t1 + pp)[j] == "p"@);
        }
    }
    vstd::seq_lib::lemma_no_dup_in_concat(stress, t1 + pp);
    let st = stress + (t1 + pp);
    // then the echo
    assert forall|i: int, j: int| 0 <= i < st.len() && 0 <= j < (e1 + zz).len() implies st[i] != (e1 + zz)[j] by {
        let y = (e1 + zz)[j];
        if j < e1.len() {
            assert(y == e1[j]);
            if i < stress.len() {
                assert(st[i] == stress[i]);
            } else if i < stress.len() + t1.len() {
                assert(st[i] == t1[i - stress.len()]);
            } else {
                assert(st[i] == "p"@);
            }
        } else {
            assert(y == "sigma_zz"@);
            if i < stress.len() {
                assert(st[i] == stress[i]);
                if st[i] == y {
                    assert(st[i].skip(6) == y.skip(6));
                    assert(spec_tensor_suffix(ds[i] as int) == spec_tensor_suffix(2));
                    assert(ds[i] != 2);
                }
            } else if i < stress.len() + t1.len() {
                assert(st[i] == t1[i - stress.len()]);
                assert(st[i][0] != y[0]);
            } else {
                assert(st[i] == "p"@);
            }
        }
    }
    vstd::seq_lib::lemma_no_dup_in_concat(st, e1 + zz);
    let base = spec_stress_names(d, kin) + spec_state_names() + spec_echo_names(d, kin);
    assert(base =~= st + (e1 + zz));
    assert forall|i: int| 0 <= i < base.len() implies {
        let x = #[trigger] base[i];
        ||| x.len() == 8 && (x[0] == 's' || x[0] == 'e')
        ||| x.len() == 6 && x[0] == 'e'
        ||| x.len() == 1 && x[0] == 'p'
    } by {
        let a = stress.len() as int;
        let b = a + t1.len();
        let c = b + 1;
        let e = c + e1.len();
        if i < a {
            assert(base[i] == stress[i - 0]);
        } else if i < b {
            assert(base[i] == t1[i - a]);
        } else if i < c {
            assert(base[i] == "p"@);
        } else if i < e {
            assert(base[i] == e1[i - c]);
        } else {
            assert(base[i] == "sigma_zz"@);
        }
    }
}

/// A law's own variables: no name twice, and none shaped like a name of the
/// stress, plastic-state or echo blocks (length 8 starting `s` or `e`,
/// length 6 starting `e`, the single `p`).
proof fn lemma_internal_names_distinct(law: PlasticLaw)
    ensures
        law.spec_internal_names().no_duplicates(),
        forall|i: int| 0 <= i < law.spec_internal_names().len() ==> {
            let x = #[trigger] law.spec_internal_names()[i];
            &&& x.len() > 0
            &&& !(x.len() == 8 && (x[0] == 's' || x[0] == 'e'))
            &&& !(x.len() == 6 && x[0] == 'e')
            &&& !(x.len() == 1 && x[0] == 'p')
        },
{
    reveal_strlit("p_prim");
    reveal_strlit("porosity");
    reveal_strlit("X_");
    reveal_strlit("R");
    reveal_strlit("damage");
    let full = full_slots();
    assert(forall|k: int| 0 <= k < full.len() ==> #[trigger] full[k] < 6);
    assert(full.no_duplicates());
    lemma_prefixed_names_shape("X_"@, full);
    let xs = spec_prefixed("X_"@, full);
    let names = law.spec_internal_names();
    if law == PlasticLaw::ViscoplasticChaboche || law == PlasticLaw::ViscoplasticLemaitreChaboche {
        let damage = law == PlasticLaw::ViscoplasticLemaitreChaboche;
        let tail = if damage { seq!["R"@, "damage"@] } else { seq!["R"@] };
        assert(names =~= xs + tail);
        assert(tail.no_duplicates()) by {
            if damage {
                assert(tail[0].len() != tail[1].len());
            }
        }
        assert forall|i: int, j: int| 0 <= i < xs.len() && 0 <= j < tail.len() implies xs[i] != tail[j] by {
            assert(xs[i].len() == 4);
        }
        vstd::seq_lib::lemma_no_dup_in_concat(xs, tail);
        assert forall|i: int| 0 <= i < names.len() implies {
            let x = #[trigger] names[i];
            &&& x.len() > 0
            &&& !(x.len() == 8 && (x[0] == 's' || x[0] == 'e'))
            &&& !(x.len() == 6 && x[0] == 'e')
            &&& !(x.len() == 1 && x[0] == 'p')
        } by {
            if i < xs.len() {
                assert(names[i] == xs[i]);
            } else {
                assert(names[i] == tail[i - xs.len()]);
            }
        }
    }
}

/// No component of the behaviour output is named twice: the dual stress, the
/// plastic state, the strain echo (with `sigma_zz` only where the dual lacks
/// it) and the law's own variables are pairwise distinct.
pub proof fn lemma_behavior_output_distinct(p: &Plasticity)
    ensures
        p.spec_behavior_output().no_duplicates(),
{
    let d = p.spec_space_dim();
    let kin = p.spec_kinematics();
    let base = spec_stress_names(d, kin) + spec_state_names() + spec_echo_names(d, kin);
    let internal = p.spec_law().spec_internal_names();
    lemma_continuum_block_distinct(d, kin);
    lemma_internal_names_distinct(p.spec_law());
    assert forall|i: int, j: int| 0 <= i < base.len() && 0 <= j < internal.len() implies base[i] != internal[j] by {
        let x = base[i];
        let y = internal[j];
    }
    vstd::seq_lib::lemma_no_dup_in_concat(base, internal);
    assert(p.spec_behavior_output() =~= base + internal);
}

} // verus!
