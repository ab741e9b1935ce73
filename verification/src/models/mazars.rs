//! Mazars isotropic damage: the same kinematics and degrees of freedom as
//! elasticity, the elastic stiffness as iteration operator, and a scalar
//! damage `D` with its history variable `κ` as the behaviour output.

use vstd::prelude::*;
use crate::containers::finite_element_space::SubFiniteElementSpace;
use crate::containers::matrix::DofOrdering;
use crate::containers::mesh::{SubMesh, spec_unique};
use crate::error::ModelError;
use crate::models::tensor::ElasticityModel;
use crate::models::{Contribution, MatrixKind, MatrixLayout, display_label, domain_render, spec_display, spec_domain_render, Physics, views, str_views, owned_components};

verus! {

broadcast use vstd::string::group_string_axioms;

/// The primal variable along axis `a`.
pub open spec fn spec_primal_name(a: int) -> Seq<char> {
    if a == 0 { "u_x"@ } else if a == 1 { "u_y"@ } else { "u_z"@ }
}

/// The dual variable along axis `a`.
pub open spec fn spec_dual_name(a: int) -> Seq<char> {
    if a == 0 { "f_x"@ } else if a == 1 { "f_y"@ } else { "f_z"@ }
}

/// Stress component names in Voigt order: `[xx, yy, xy]` in 2-D,
/// `[xx, yy, zz, yz, xz, xy]` otherwise.
pub open spec fn spec_stress_names(space_dim: int) -> Seq<Seq<char>> {
    if space_dim == 2 {
        seq!["sigma_xx"@, "sigma_yy"@, "sigma_xy"@]
    } else {
        seq!["sigma_xx"@, "sigma_yy"@, "sigma_zz"@, "sigma_yz"@, "sigma_xz"@, "sigma_xy"@]
    }
}

/// The material components of the model.
pub open spec fn spec_material_components() -> Seq<Seq<char>> {
    seq!["E"@, "nu"@, "eps_d0"@, "A_t"@, "B_t"@, "A_c"@, "B_c"@]
}

/// Whether a 2-D/3-D model fits a space dimension: 2-D takes plane stress or
/// plane strain, 3-D takes the solid model.
pub open spec fn model_fits(space_dim: int, model: ElasticityModel) -> bool {
    (space_dim == 2 && (model == ElasticityModel::PlaneStress || model == ElasticityModel::PlaneStrain))
        || (space_dim == 3 && model == ElasticityModel::Solid)
}

fn primal_name(a: usize) -> (r: String)
    requires
        a < 3,
    ensures
        r@ == spec_primal_name(a as int),
{
    if a == 0 {
        "u_x".to_string()
    } else if a == 1 {
        "u_y".to_string()
    } else {
        "u_z".to_string()
    }
}

fn dual_name(a: usize) -> (r: String)
    requires
        a < 3,
    ensures
        r@ == spec_dual_name(a as int),
{
    if a == 0 {
        "f_x".to_string()
    } else if a == 1 {
        "f_y".to_string()
    } else {
        "f_z".to_string()
    }
}

fn stress_names(space_dim: usize) -> (r: Vec<String>)
    ensures
        views(r@) == spec_stress_names(space_dim as int),
{
    if space_dim == 2 {
        let v = owned_components(&["sigma_xx", "sigma_yy", "sigma_xy"]);
        assert(views(v@) =~= spec_stress_names(space_dim as int));
        v
    } else {
        let v = owned_components(&["sigma_xx", "sigma_yy", "sigma_zz", "sigma_yz", "sigma_xz", "sigma_xy"]);
        assert(views(v@) =~= spec_stress_names(space_dim as int));
        v
    }
}

/// The names `name(0), …, name(n − 1)` for the axes of a space.
pub open spec fn axis_names(n: int, name: spec_fn(int) -> Seq<char>) -> Seq<Seq<char>> {
    Seq::new(n as nat, |a: int| name(a))
}

/// Mazars damage on an FE subspace, with its node support and 2-D/3-D model.
#[derive(Debug)]
pub struct Mazars {
    fespace: SubFiniteElementSpace,
    support: SubMesh,
    space_dim: usize,
    model: ElasticityModel,
}

impl Mazars {
    #[verifier::type_invariant]
    spec fn inv(self) -> bool {
        &&& model_fits(self.space_dim as int, self.model)
        &&& self.support.element_type == crate::atoms::ElementType::POI1
    }

    /// The FE subspace the model is defined on.
    pub closed spec fn spec_fespace(&self) -> <SubFiniteElementSpace as View>::V {
        self.fespace@
    }

    /// The node support (POI1 over the subspace's nodes).
    pub closed spec fn spec_support(&self) -> <SubMesh as View>::V {
        self.support@
    }

    /// The space dimension.
    pub closed spec fn spec_space_dim(&self) -> usize {
        self.space_dim
    }

    /// The 2-D/3-D model.
    pub closed spec fn spec_model(&self) -> ElasticityModel {
        self.model
    }

    /// Mazars damage on an FE subspace, with the given 2-D/3-D model. Refused
    /// when `model` does not fit the space dimension (2-D ⇒ plane stress or
    /// plane strain, 3-D ⇒ solid).
    pub fn new(fespace: SubFiniteElementSpace, model: ElasticityModel) -> (r: Result<Mazars, ModelError>)
        ensures
            r is Ok <==> model_fits(fespace.submesh.space_dim as int, model),
            r is Ok <==> ((fespace.submesh.space_dim == 2 && (model == ElasticityModel::PlaneStress
                || model == ElasticityModel::PlaneStrain)) || (fespace.submesh.space_dim == 3 && model
                == ElasticityModel::Solid)),
            r matches Err(e) ==> e == (ModelError::IncompatibleModel { model, space_dim: fespace.submesh.space_dim }),
            r matches Ok(m) ==> {
                &&& m.spec_fespace() == fespace@
                &&& m.spec_support() == (fespace.submesh.coords, fespace.submesh.space_dim, crate::atoms::ElementType::POI1, spec_unique(fespace.submesh.connectivity@))
                &&& m.spec_space_dim() == fespace.submesh.space_dim
                &&& m.spec_model() == model
            },
    {
        let space_dim = fespace.space_dim();
        let ok = match model {
            ElasticityModel::PlaneStress | ElasticityModel::PlaneStrain => space_dim == 2,
            ElasticityModel::Solid => space_dim == 3,
        };
        if !ok {
            return Err(ModelError::IncompatibleModel { model, space_dim });
        }
        let support = fespace.submesh.to_poi1();
        Ok(Mazars { fespace, support, space_dim, model })
    }

    /// Displacement components `u_x, u_y(, u_z)`.
    pub fn primal_vars(&self) -> (r: Vec<String>)
        ensures
            views(r@) == axis_names(self.spec_space_dim() as int, |a: int| spec_primal_name(a)),
    {
        proof {
            use_type_invariant(self);
        }
        let mut out: Vec<String> = Vec::new();
        let mut a: usize = 0;
        while a < self.space_dim
            invariant
                a <= self.space_dim <= 3,
                views(out@) == axis_names(a as int, |a: int| spec_primal_name(a)),
            decreases self.space_dim - a,
        {
            let s = primal_name(a);
            proof {
                assert(views(out@.push(s)) =~= views(out@).push(s@));
            }
            out.push(s);
            assert(views(out@) =~= axis_names(a + 1, |a: int| spec_primal_name(a)));
            a += 1;
        }
        out
    }

    /// Nodal force components `f_x, f_y(, f_z)`.
    pub fn dual_vars(&self) -> (r: Vec<String>)
        ensures
            views(r@) == axis_names(self.spec_space_dim() as int, |a: int| spec_dual_name(a)),
    {
        proof {
            use_type_invariant(self);
        }
        let mut out: Vec<String> = Vec::new();
        let mut a: usize = 0;
        while a < self.space_dim
            invariant
                a <= self.space_dim <= 3,
                views(out@) == axis_names(a as int, |a: int| spec_dual_name(a)),
            decreases self.space_dim - a,
        {
            let s = dual_name(a);
            proof {
                assert(views(out@.push(s)) =~= views(out@).push(s@));
            }
            out.push(s);
            assert(views(out@) =~= axis_names(a + 1, |a: int| spec_dual_name(a)));
            a += 1;
        }
        out
    }

    /// `l` is its block layout: the subspace, its node support, dual rows
    /// and primal columns node-major, symmetric.
    pub open spec fn is_layout(&self, l: MatrixLayout) -> bool {
        &&& l.fespaces@.len() == 1
        &&& l.fespaces@[0]@ == self.spec_fespace()
        &&& l.support@ == self.spec_support()
        &&& views(l.dual_vars@) == axis_names(self.spec_space_dim() as int, |a: int| spec_dual_name(a))
        &&& views(l.primal_vars@) == axis_names(self.spec_space_dim() as int, |a: int| spec_primal_name(a))
        &&& l.ordering == DofOrdering::NodesThenVars
        &&& l.symmetric
    }

    /// The stiffness layout: the subspace, its node support, dual rows and
    /// primal columns node-major, symmetric.
    pub fn stiffness_layout(&self) -> (r: Option<MatrixLayout>)
        ensures
            r matches Some(l) && self.is_layout(l),
    {
        let mut fespaces = Vec::new();
        fespaces.push(self.fespace.duplicate());
        Some(MatrixLayout {
            fespaces,
            support: self.support.duplicate(),
            dual_vars: self.dual_vars(),
            primal_vars: self.primal_vars(),
            ordering: DofOrdering::NodesThenVars,
            symmetric: true,
        })
    }

    /// The layout of each matrix kind: a stiffness only.
    pub fn matrix_layout(&self, kind: MatrixKind) -> (r: Option<MatrixLayout>)
        ensures
            r is Some <==> kind == MatrixKind::Stiffness,
            r matches Some(l) ==> self.is_layout(l),
    {
        match kind {
            MatrixKind::Stiffness => self.stiffness_layout(),
            _ => None,
        }
    }

    /// Its one-line summary, `SubModel<Mazars>`.
    pub fn display(&self) -> (r: String)
        ensures
            r@ == spec_display("Mazars"@),
    {
        display_label(self.label())
    }

    /// Its multi-line summary: the 2-D/3-D model, its variables and the node
    /// count of its support.
    pub fn render(&self) -> (r: String)
        ensures
            r@ == spec_domain_render(
                "SubModel<Mazars("@ + self.spec_model().spec_variant_name() + ")>"@,
                axis_names(self.spec_space_dim() as int, |a: int| spec_primal_name(a)),
                axis_names(self.spec_space_dim() as int, |a: int| spec_dual_name(a)),
                self.spec_support().3.len(),
            ),
    {
        proof {
            use_type_invariant(self);
        }
        let mut header = "SubModel<Mazars(".to_string();
        header.append(self.model.variant_name());
        header.append(")>");
        domain_render(header, &self.primal_vars(), &self.dual_vars(), self.support.cell_count())
    }

    /// Its contributions of kind `kind`: the block computed from its layout
    /// for the stiffness, nothing for the other kinds.
    pub fn contributions<V>(&self, kind: MatrixKind) -> (r: Vec<Contribution<V>>)
        ensures
            kind == MatrixKind::Stiffness ==> r@.len() == 1 && (r@[0] matches Contribution::Computed(l) && self.is_layout(l)),
            kind != MatrixKind::Stiffness ==> r@.len() == 0,
    {
        let mut r: Vec<Contribution<V>> = Vec::new();
        match self.matrix_layout(kind) {
            Some(l) => {
                r.push(Contribution::Computed(l));
            },
            None => {},
        }
        r
    }

    /// Its nature: mechanical.
    pub fn physics(&self) -> (r: &'static [Physics])
        ensures
            r@ == seq![Physics::Mechanical],
    {
        let r: &'static [Physics] = &[Physics::Mechanical];
        assert(r@ =~= seq![Physics::Mechanical]);
        r
    }

    /// Short type label.
    pub fn label(&self) -> (r: &'static str)
        ensures
            r@ == "Mazars"@,
    {
        "Mazars"
    }

    /// The FE subspace the material is given on.
    pub fn material_fespace(&self) -> (r: SubFiniteElementSpace)
        ensures
            r@ == self.spec_fespace(),
    {
        self.fespace.duplicate()
    }

    /// Material components `E`, `nu`, `eps_d0`, `A_t`, `B_t`, `A_c`, `B_c`.
    pub fn material_components(&self) -> (r: Vec<String>)
        ensures
            views(r@) == spec_material_components(),
    {
        let v = owned_components(&["E", "nu", "eps_d0", "A_t", "B_t", "A_c", "B_c"]);
        assert(views(v@) =~= spec_material_components());
        v
    }

    /// The FE subspace the behaviour is integrated on.
    pub fn behavior_fespace(&self) -> (r: SubFiniteElementSpace)
        ensures
            r@ == self.spec_fespace(),
    {
        self.fespace.duplicate()
    }

    /// Output of the behaviour: the stress (Voigt), then `damage`, then `kappa`.
    pub fn behavior_output_components(&self) -> (r: Vec<String>)
        ensures
            views(r@) == spec_stress_names(self.spec_space_dim() as int).push("damage"@).push("kappa"@),
    {
        let mut comps = stress_names(self.space_dim);
        let d = "damage".to_string();
        let k = "kappa".to_string();
        proof {
            assert(views(comps@.push(d)) =~= views(comps@).push(d@));
            assert(views(comps@.push(d).push(k)) =~= views(comps@.push(d)).push(k@));
        }
        comps.push(d);
        comps.push(k);
        comps
    }
}

/// Every model has a space dimension it fits, and only one: the plane models
/// fit 2-D, the solid model 3-D.
pub proof fn lemma_every_model_has_a_dimension(model: ElasticityModel, space_dim: int)
    ensures
        model_fits(2, ElasticityModel::PlaneStress),
        model_fits(2, ElasticityModel::PlaneStrain),
        model_fits(3, ElasticityModel::Solid),
        model_fits(space_dim, model) ==> space_dim == (if model == ElasticityModel::Solid { 3int } else { 2int }),
{
}

} // verus!
