//! Radiation to infinity — the Stefan-Boltzmann boundary `q·n = σ·ε·(T⁴ − T_∞⁴)`,
//! on the same degrees of freedom as heat conduction (`T`, `q`). Its stiffness
//! is the film linearised about `T_∞`; its tangent is the consistent one at the
//! current temperature, read back from the behaviour output.

use vstd::prelude::*;
use crate::atoms::ElementType;
use crate::containers::finite_element_space::SubFiniteElementSpace;
use crate::containers::matrix::DofOrdering;
use crate::containers::mesh::{SubMesh, spec_unique};
use crate::error::ModelError;
use crate::models::{Contribution, MatrixKind, MatrixLayout, display_label, domain_render, spec_display, spec_domain_render, Physics, views, owned_components};

verus! {

broadcast use vstd::string::group_string_axioms;

/// Radiation on a boundary FE subspace, with its node support.
#[derive(Debug)]
pub struct Radiation {
    fespace: SubFiniteElementSpace,
    support: SubMesh,
}

impl Radiation {
    /// Its support is a point sub-mesh.
    #[verifier::type_invariant]
    spec fn inv(self) -> bool {
        self.support.element_type == ElementType::POI1
    }

    /// The FE subspace of the radiating boundary.
    pub closed spec fn spec_fespace(&self) -> <SubFiniteElementSpace as View>::V {
        self.fespace@
    }

    /// The node support (POI1 over the subspace's nodes).
    pub closed spec fn spec_support(&self) -> <SubMesh as View>::V {
        self.support@
    }

    /// Radiation on a boundary FE subspace; its support is the point sub-mesh
    /// over the subspace's distinct nodes.
    pub fn new(fespace: SubFiniteElementSpace) -> (r: Result<Radiation, ModelError>)
        ensures
            r matches Ok(m) && m.spec_fespace() == fespace@ && m.spec_support() == (
                fespace.submesh.coords,
                fespace.submesh.space_dim,
                ElementType::POI1,
                spec_unique(fespace.submesh.connectivity@),
            ),
    {
        let support = fespace.submesh.to_poi1();
        Ok(Radiation { fespace, support })
    }

    /// The one layout of both its stiffness and its tangent.
    fn layout(&self) -> (r: MatrixLayout)
        ensures
            r.fespaces@.len() == 1,
            r.fespaces@[0]@ == self.spec_fespace(),
            r.support@ == self.spec_support(),
            views(r.dual_vars@) == seq!["q"@],
            views(r.primal_vars@) == seq!["T"@],
            r.ordering == DofOrdering::NodesThenVars,
            r.symmetric,
    {
        let mut fespaces = Vec::new();
        fespaces.push(self.fespace.duplicate());
        MatrixLayout {
            fespaces,
            support: self.support.duplicate(),
            dual_vars: self.dual_vars(),
            primal_vars: self.primal_vars(),
            ordering: DofOrdering::NodesThenVars,
            symmetric: true,
        }
    }

    /// The temperature `T`.
    pub fn primal_vars(&self) -> (r: Vec<String>)
        ensures
            views(r@) == seq!["T"@],
    {
        let v = owned_components(&["T"]);
        assert(views(v@) =~= seq!["T"@]);
        v
    }

    /// The heat flux `q`.
    pub fn dual_vars(&self) -> (r: Vec<String>)
        ensures
            views(r@) == seq!["q"@],
    {
        let v = owned_components(&["q"]);
        assert(views(v@) =~= seq!["q"@]);
        v
    }

    /// `l` is its block layout: the subspace, its node support, `q` rows and
    /// `T` columns, symmetric.
    pub open spec fn is_layout(&self, l: MatrixLayout) -> bool {
        &&& l.fespaces@.len() == 1
        &&& l.fespaces@[0]@ == self.spec_fespace()
        &&& l.support@ == self.spec_support()
        &&& views(l.dual_vars@) == seq!["q"@]
        &&& views(l.primal_vars@) == seq!["T"@]
        &&& l.ordering == DofOrdering::NodesThenVars
        &&& l.symmetric
    }

    /// The stiffness layout (the linearised film).
    pub fn stiffness_layout(&self) -> (r: Option<MatrixLayout>)
        ensures
            r matches Some(l) && self.is_layout(l),
    {
        Some(self.layout())
    }

    /// The tangent layout — the same as the stiffness one.
    pub fn tangent_layout(&self) -> (r: Option<MatrixLayout>)
        ensures
            r matches Some(l) && self.is_layout(l),
    {
        Some(self.layout())
    }

    /// The layout of each matrix kind: a stiffness and a tangent, no mass and
    /// no geometric stiffness.
    pub fn matrix_layout(&self, kind: MatrixKind) -> (r: Option<MatrixLayout>)
        ensures
            r is Some <==> (kind == MatrixKind::Stiffness || kind == MatrixKind::Tangent),
            r matches Some(l) ==> self.is_layout(l),
    {
        match kind {
            MatrixKind::Stiffness => self.stiffness_layout(),
            MatrixKind::Tangent => self.tangent_layout(),
            _ => None,
        }
    }

    /// Its one-line summary, `SubModel<Radiation>`.
    pub fn display(&self) -> (r: String)
        ensures
            r@ == spec_display("Radiation"@),
    {
        display_label(self.label())
    }

    /// Its multi-line summary: its variables and the node count of its
    /// support.
    pub fn render(&self) -> (r: String)
        ensures
            r@ == spec_domain_render("SubModel<Radiation>"@, seq!["T"@], seq!["q"@], self.spec_support().3.len()),
    {
        proof {
            use_type_invariant(self);
        }
        domain_render("SubModel<Radiation>".to_string(), &self.primal_vars(), &self.dual_vars(), self.support.cell_count())
    }

    /// Its contributions of kind `kind`: the block computed from its layout
    /// for the stiffness and the tangent, nothing for the other kinds.
    pub fn contributions<V>(&self, kind: MatrixKind) -> (r: Vec<Contribution<V>>)
        ensures
            (kind == MatrixKind::Stiffness || kind == MatrixKind::Tangent) ==> r@.len() == 1 && (r@[0] matches Contribution::Computed(l) && self.is_layout(l)),
            !(kind == MatrixKind::Stiffness || kind == MatrixKind::Tangent) ==> r@.len() == 0,
    {
        let mut r: Vec<Contribution<V>> = Vec::new();
        match self.matrix_layout(kind) {
            Some(l) => {
                r.push(Contribution::Computed(l));
            },
            None => {},
        }
        r
    }

    /// Its natures: thermal **and** radiation.
    pub fn physics(&self) -> (r: &'static [Physics])
        ensures
            r@ == seq![Physics::Thermal, Physics::Radiation],
    {
        let r: &'static [Physics] = &[Physics::Thermal, Physics::Radiation];
        assert(r@ =~= seq![Physics::Thermal, Physics::Radiation]);
        r
    }

    /// Short type label.
    pub fn label(&self) -> (r: &'static str)
        ensures
            r@ == "Radiation"@,
    {
        "Radiation"
    }

    /// The FE subspace the material is given on.
    pub fn material_fespace(&self) -> (r: SubFiniteElementSpace)
        ensures
            r@ == self.spec_fespace(),
    {
        self.fespace.duplicate()
    }

    /// Material components: the emissivity `emis` and the far-field `T_inf`.
    pub fn material_components(&self) -> (r: Vec<String>)
        ensures
            views(r@) == seq!["emis"@, "T_inf"@],
    {
        let v = owned_components(&["emis", "T_inf"]);
        assert(views(v@) =~= seq!["emis"@, "T_inf"@]);
        v
    }

    /// Optional material component: the Stefan-Boltzmann constant `sigma`.
    pub fn optional_material_components(&self) -> (r: &'static [&'static str])
        ensures
            r@.len() == 1 && r@[0]@ == "sigma"@,
    {
        let r: &'static [&'static str] = &["sigma"];
        r
    }

    /// The FE subspace the behaviour is integrated on.
    pub fn behavior_fespace(&self) -> (r: SubFiniteElementSpace)
        ensures
            r@ == self.spec_fespace(),
    {
        self.fespace.duplicate()
    }

    /// Output of the behaviour: the radiated `flux`, then the tangent
    /// coefficient `ktan`.
    pub fn behavior_output_components(&self) -> (r: Vec<String>)
        ensures
            views(r@) == seq!["flux"@, "ktan"@],
    {
        let v = owned_components(&["flux", "ktan"]);
        assert(views(v@) =~= seq!["flux"@, "ktan"@]);
        v
    }
}

} // verus!
