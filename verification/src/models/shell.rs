//! Shells: a surface carrying membrane forces and bending moments, with six
//! degrees of freedom per node (three translations, three rotations, the last
//! one the drilling rotation tied to the membrane's in-plane rotation). The
//! formulation is an attribute, [`ShellModel`]: Reissner-Mindlin (`thick`,
//! transverse shear integrated on a reduced-quadrature subspace) or discrete
//! Kirchhoff (`kirchhoff`, no transverse shear).

pub mod kirchhoff;

use vstd::prelude::*;
use crate::atoms::ElementType;
use crate::containers::finite_element_space::{Interpolation, QuadratureRule, SubFiniteElementSpace};
use crate::containers::matrix::DofOrdering;
use crate::containers::mesh::{SubMesh, spec_unique};
use crate::error::ModelError;
use crate::models::{Contribution, MatrixKind, MatrixLayout, display_label, domain_render, spec_display, spec_domain_render, Physics, views, str_views, owned_components};

verus! {

broadcast use vstd::string::group_string_axioms;

/// The shell formulation.
#[derive(Clone, Copy, Debug, PartialEq, Eq, Structural)]
pub enum ShellModel {
    /// Reissner-Mindlin, transverse shear at reduced quadrature.
    Thick,
    /// Discrete Kirchhoff (DKT/DKQ), no transverse shear.
    Kirchhoff,
}

/// The nine generalised strains, in order: membrane, curvature, drilling,
/// transverse shear.
pub open spec fn spec_all_strains() -> Seq<Seq<char>> {
    seq![
        "eps_xx"@,
        "eps_yy"@,
        "eps_xy"@,
        "kappa_xx"@,
        "kappa_yy"@,
        "kappa_xy"@,
        "drill"@,
        "gamma_xz"@,
        "gamma_yz"@,
    ]
}

/// The nine generalised forces, in the order of the strains they answer.
pub open spec fn spec_all_forces() -> Seq<Seq<char>> {
    seq!["N_xx"@, "N_yy"@, "N_xy"@, "M_xx"@, "M_yy"@, "M_xy"@, "M_drill"@, "Q_xz"@, "Q_yz"@]
}

/// Rows of the strain vector that a formulation without transverse shear keeps.
pub open spec fn shear_row() -> int {
    7
}

impl Default for ShellModel {
    /// The thick (shear-deformable) shell, the general case.
    fn default() -> (r: ShellModel)
        ensures
            r == ShellModel::Thick,
    {
        ShellModel::Thick
    }
}

impl ShellModel {
    /// The name of the formulation.
    pub open spec fn spec_name(self) -> Seq<char> {
        match self {
            ShellModel::Thick => "thick"@,
            ShellModel::Kirchhoff => "kirchhoff"@,
        }
    }

    /// Whether the formulation carries transverse shear.
    pub open spec fn spec_has_transverse_shear(self) -> bool {
        self == ShellModel::Thick
    }

    /// The generalised strains of the formulation: all nine with transverse
    /// shear, the first seven without.
    pub open spec fn spec_strains(self) -> Seq<Seq<char>> {
        if self.spec_has_transverse_shear() {
            spec_all_strains()
        } else {
            spec_all_strains().take(shear_row())
        }
    }

    /// The name of the formulation: `thick` or `kirchhoff`.
    pub fn name(self) -> (r: &'static str)
        ensures
            r@ == self.spec_name(),
    {
        match self {
            ShellModel::Thick => "thick",
            ShellModel::Kirchhoff => "kirchhoff",
        }
    }

    /// Whether the formulation carries transverse shear (only `thick`).
    pub fn has_transverse_shear(self) -> (r: bool)
        ensures
            r == self.spec_has_transverse_shear(),
    {
        matches!(self, ShellModel::Thick)
    }

    /// The generalised strains this formulation's deformation carries.
    pub fn strains(self) -> (r: &'static [&'static str])
        ensures
            str_views(r@) == self.spec_strains(),
    {
        if self.has_transverse_shear() {
            let r: &'static [&'static str] = &[
                "eps_xx",
                "eps_yy",
                "eps_xy",
                "kappa_xx",
                "kappa_yy",
                "kappa_xy",
                "drill",
                "gamma_xz",
                "gamma_yz",
            ];
            assert(str_views(r@) =~= self.spec_strains());
            r
        } else {
            let r: &'static [&'static str] = &[
                "eps_xx",
                "eps_yy",
                "eps_xy",
                "kappa_xx",
                "kappa_yy",
                "kappa_xy",
                "drill",
            ];
            assert(str_views(r@) =~= self.spec_strains());
            r
        }
    }

    /// The display form of the formulation: its name.
    pub fn to_string(&self) -> (r: String)
        ensures
            r@ == self.spec_name(),
    {
        self.name().to_string()
    }
}

/// The six nodal degrees of freedom: three translations, three rotations.
pub open spec fn spec_primal() -> Seq<Seq<char>> {
    seq!["u_x"@, "u_y"@, "u_z"@, "r_x"@, "r_y"@, "r_z"@]
}

/// The six nodal forces and moments, dual to [`spec_primal`].
pub open spec fn spec_dual() -> Seq<Seq<char>> {
    seq!["f_x"@, "f_y"@, "f_z"@, "m_x"@, "m_y"@, "m_z"@]
}

/// A shell on a TRI3/QUA4 surface mesh in 3-D.
#[derive(Debug)]
pub struct Shell {
    fespace: SubFiniteElementSpace,
    shear: Option<SubFiniteElementSpace>,
    support: SubMesh,
    model: ShellModel,
}

impl Shell {
    #[verifier::type_invariant]
    spec fn inv(self) -> bool {
        &&& (self.shear is Some <==> self.model.spec_has_transverse_shear())
        &&& self.support.element_type == ElementType::POI1
    }

    /// The full-quadrature FE subspace.
    pub closed spec fn spec_fespace(&self) -> <SubFiniteElementSpace as View>::V {
        self.fespace@
    }

    /// The reduced-quadrature shear subspace, present for a formulation with
    /// transverse shear.
    pub closed spec fn spec_shear(&self) -> Option<<SubFiniteElementSpace as View>::V> {
        match self.shear {
            Some(s) => Some(s@),
            None => None,
        }
    }

    /// The node support (POI1 over the subspace's nodes).
    pub closed spec fn spec_support(&self) -> <SubMesh as View>::V {
        self.support@
    }

    /// The formulation.
    pub closed spec fn spec_model(&self) -> ShellModel {
        self.model
    }

    /// A shell of formulation `model` on a surface subspace. Refused unless the
    /// subspace is a 2-D element in a 3-D space (checked first), then unless its
    /// cells are TRI3 or QUA4. A formulation with transverse shear builds its
    /// shear subspace on the same sub-mesh, first-order Lagrange at reduced
    /// quadrature; the other carries none.
    pub fn new(fespace: SubFiniteElementSpace, model: ShellModel) -> (r: Result<Shell, ModelError>)
        ensures
            ({
                let space_dim = fespace.submesh.space_dim;
                let ref_dim = fespace.submesh.element_type.spec_ref_dim();
                let element = fespace.submesh.element_type;
                let surface = space_dim == 3 && ref_dim == 2;
                let supported = element == ElementType::TRI3 || element == ElementType::QUA4;
                &&& r is Ok <==> surface && supported
                &&& r matches Err(e) ==> if !surface {
                    e == (ModelError::ShellNotASurface { ref_dim: ref_dim as usize, space_dim })
                } else {
                    e == (ModelError::ShellElement { model, element })
                }
                &&& r matches Ok(s) ==> {
                    &&& s.spec_fespace() == fespace@
                    &&& s.spec_model() == model
                    &&& s.spec_support() == (fespace.submesh.coords, space_dim, ElementType::POI1, spec_unique(fespace.submesh.connectivity@))
                    &&& s.spec_shear() == if model.spec_has_transverse_shear() {
                        Some((fespace.submesh@, Interpolation::Lagrange1, QuadratureRule::Reduced))
                    } else {
                        None
                    }
                }
            }),
    {
        let space_dim = fespace.space_dim();
        let ref_dim = fespace.ref_dim();
        let element = fespace.element_type();
        if space_dim != 3 || ref_dim != 2 {
            return Err(ModelError::ShellNotASurface { ref_dim, space_dim });
        }
        if !matches!(element, ElementType::TRI3 | ElementType::QUA4) {
            return Err(ModelError::ShellElement { model, element });
        }
        let shear = if model.has_transverse_shear() {
            Some(SubFiniteElementSpace::new(fespace.submesh.duplicate(), Interpolation::Lagrange1, QuadratureRule::Reduced))
        } else {
            None
        };
        let support = fespace.submesh.to_poi1();
        Ok(Shell { fespace, shear, support, model })
    }

    /// Translations and rotations `u_x, u_y, u_z, r_x, r_y, r_z`.
    pub fn primal_vars(&self) -> (r: Vec<String>)
        ensures
            views(r@) == spec_primal(),
    {
        let v = owned_components(&["u_x", "u_y", "u_z", "r_x", "r_y", "r_z"]);
        assert(views(v@) =~= spec_primal());
        v
    }

    /// Forces and moments `f_x, f_y, f_z, m_x, m_y, m_z`.
    pub fn dual_vars(&self) -> (r: Vec<String>)
        ensures
            views(r@) == spec_dual(),
    {
        let v = owned_components(&["f_x", "f_y", "f_z", "m_x", "m_y", "m_z"]);
        assert(views(v@) =~= spec_dual());
        v
    }

    /// `l` is its block layout: the full subspace, then the shear subspace
    /// when the formulation has one, on the node support; symmetric,
    /// node-major.
    pub open spec fn is_layout(&self, l: MatrixLayout) -> bool {
        &&& l.fespaces@.len() == if self.spec_model().spec_has_transverse_shear() { 2int } else { 1int }
        &&& l.fespaces@[0]@ == self.spec_fespace()
        &&& self.spec_shear() matches Some(sh) ==> l.fespaces@[1]@ == sh
        &&& l.support@ == self.spec_support()
        &&& views(l.dual_vars@) == spec_dual()
        &&& views(l.primal_vars@) == spec_primal()
        &&& l.ordering == DofOrdering::NodesThenVars
        &&& l.symmetric
    }

    /// The stiffness layout: the full subspace, then the shear subspace when
    /// the formulation has one, on the node support; symmetric, node-major.
    pub fn stiffness_layout(&self) -> (r: Option<MatrixLayout>)
        ensures
            r matches Some(l) && self.is_layout(l),
    {
        proof {
            use_type_invariant(self);
        }
        let mut fespaces = Vec::new();
        fespaces.push(self.fespace.duplicate());
        match &self.shear {
            Some(sh) => {
                fespaces.push(sh.duplicate());
            },
            None => {},
        }
        Some(MatrixLayout {
            fespaces,
            support: self.support.duplicate(),
            dual_vars: self.dual_vars(),
            primal_vars: self.primal_vars(),
            ordering: DofOrdering::NodesThenVars,
            symmetric: true,
        })
    }

    /// The layout of each matrix kind: a stiffness only.
    pub fn matrix_layout(&self, kind: MatrixKind) -> (r: Option<MatrixLayout>)
        ensures
            r is Some <==> kind == MatrixKind::Stiffness,
            r matches Some(l) ==> self.is_layout(l),
    {
        match kind {
            MatrixKind::Stiffness => self.stiffness_layout(),
            _ => None,
        }
    }

    /// Its one-line summary, `SubModel<Shell>`.
    pub fn display(&self) -> (r: String)
        ensures
            r@ == spec_display("Shell"@),
    {
        display_label(self.label())
    }

    /// Its multi-line summary: the shell model, its variables and the node
    /// count of its support.
    pub fn render(&self) -> (r: String)
        ensures
            r@ == spec_domain_render(
                "SubModel<Shell("@ + self.spec_model().spec_name() + ")>"@,
                spec_primal(),
                spec_dual(),
                self.spec_support().3.len(),
            ),
    {
        proof {
            use_type_invariant(self);
        }
        let mut header = "SubModel<Shell(".to_string();
        header.append(self.model.name());
        header.append(")>");
        domain_render(header, &self.primal_vars(), &self.dual_vars(), self.support.cell_count())
    }

    /// Its contributions of kind `kind`: the block computed from its layout
    /// for the stiffness, nothing for the other kinds.
    pub fn contributions<V>(&self, kind: MatrixKind) -> (r: Vec<Contribution<V>>)
        ensures
            kind == MatrixKind::Stiffness ==> r@.len() == 1 && (r@[0] matches Contribution::Computed(l) && self.is_layout(l)),
            kind != MatrixKind::Stiffness ==> r@.len() == 0,
    {
        let mut r: Vec<Contribution<V>> = Vec::new();
        match self.matrix_layout(kind) {
            Some(l) => {
                r.push(Contribution::Computed(l));
            },
            None => {},
        }
        r
    }

    /// Components the internal-force kernel reads from the state: the
    /// generalised forces the behaviour produced, in the same order.
    pub fn internal_force_reads(&self) -> (r: Vec<String>)
        ensures
            views(r@) == self.spec_behavior_output(),
    {
        self.behavior_output_components()
    }

    /// Its nature: mechanical.
    pub fn physics(&self) -> (r: &'static [Physics])
        ensures
            r@ == seq![Physics::Mechanical],
    {
        let r: &'static [Physics] = &[Physics::Mechanical];
        assert(r@ =~= seq![Physics::Mechanical]);
        r
    }

    /// Short type label.
    pub fn label(&self) -> (r: &'static str)
        ensures
            r@ == "Shell"@,
    {
        "Shell"
    }

    /// The FE subspace the material is given on.
    pub fn material_fespace(&self) -> (r: SubFiniteElementSpace)
        ensures
            r@ == self.spec_fespace(),
    {
        self.fespace.duplicate()
    }

    /// Material components: `E`, `nu`, and the thickness `h`.
    pub fn material_components(&self) -> (r: Vec<String>)
        ensures
            views(r@) == seq!["E"@, "nu"@, "h"@],
    {
        let v = owned_components(&["E", "nu", "h"]);
        assert(views(v@) =~= seq!["E"@, "nu"@, "h"@]);
        v
    }

    /// Optional material components: the density `rho`, and for a formulation
    /// with transverse shear the shear-correction factor `k_s`.
    pub fn optional_material_components(&self) -> (r: &'static [&'static str])
        ensures
            str_views(r@) == if self.spec_model().spec_has_transverse_shear() {
                seq!["rho"@, "k_s"@]
            } else {
                seq!["rho"@]
            },
    {
        match self.model {
            ShellModel::Thick => {
                let r: &'static [&'static str] = &["rho", "k_s"];
                assert(str_views(r@) =~= seq!["rho"@, "k_s"@]);
                r
            },
            ShellModel::Kirchhoff => {
                let r: &'static [&'static str] = &["rho"];
                assert(str_views(r@) =~= seq!["rho"@]);
                r
            },
        }
    }

    /// The FE subspace the behaviour is integrated on.
    pub fn behavior_fespace(&self) -> (r: SubFiniteElementSpace)
        ensures
            r@ == self.spec_fespace(),
    {
        self.fespace.duplicate()
    }

    /// The generalised forces of the formulation.
    pub open spec fn spec_behavior_output(&self) -> Seq<Seq<char>> {
        if self.spec_model().spec_has_transverse_shear() {
            spec_all_forces()
        } else {
            spec_all_forces().take(shear_row())
        }
    }

    /// Output of the behaviour: the generalised forces answering the
    /// formulation's strains — nine with transverse shear, seven without.
    pub fn behavior_output_components(&self) -> (r: Vec<String>)
        ensures
            views(r@) == self.spec_behavior_output(),
    {
        if self.model.has_transverse_shear() {
            let v = owned_components(&["N_xx", "N_yy", "N_xy", "M_xx", "M_yy", "M_xy", "M_drill", "Q_xz", "Q_yz"]);
            assert(views(v@) =~= self.spec_behavior_output());
            v
        } else {
            let v = owned_components(&["N_xx", "N_yy", "N_xy", "M_xx", "M_yy", "M_xy", "M_drill"]);
            assert(views(v@) =~= self.spec_behavior_output());
            v
        }
    }

    /// Components the point kernel reads from the deformation: the
    /// formulation's generalised strains.
    pub fn deformation_reads(&self) -> (r: Vec<String>)
        ensures
            views(r@) == self.spec_model().spec_strains(),
    {
        owned_components(self.model.strains())
    }
}

/// The generalised force answering a generalised strain: the membrane force
/// `N_*` a membrane strain `eps_*`, the bending moment `M_*` a curvature
/// `kappa_*`, the shear force `Q_*` a transverse shear `gamma_*`, each with
/// the strain's subscript; the drilling rotation is answered by the moment
/// named after it.
pub open spec fn spec_conjugate(strain: Seq<char>) -> Seq<char> {
    if strain.len() >= 4 && strain.take(4) == "eps_"@ {
        "N_"@ + strain.skip(4)
    } else if strain.len() >= 6 && strain.take(6) == "kappa_"@ {
        "M_"@ + strain.skip(6)
    } else if strain.len() >= 6 && strain.take(6) == "gamma_"@ {
        "Q_"@ + strain.skip(6)
    } else {
        "M_"@ + strain
    }
}

/// Each output of the behaviour is the force answering the strain of the same
/// rank: the output pairs position by position with the formulation's
/// strains, and a formulation without transverse shear reports no shear
/// force `Q_*`.
pub proof fn lemma_forces_answer_strains(s: &Shell)
    ensures
        s.spec_behavior_output().len() == s.spec_model().spec_strains().len(),
        forall|i: int| 0 <= i < s.spec_behavior_output().len() ==>
            #[trigger] s.spec_behavior_output()[i] == spec_conjugate(s.spec_model().spec_strains()[i]),
        !s.spec_model().spec_has_transverse_shear() ==> forall|i: int| 0 <= i < s.spec_behavior_output().len() ==>
            (#[trigger] s.spec_behavior_output()[i]).len() > 0 && s.spec_behavior_output()[i][0] != 'Q',
{
    reveal_strlit("eps_xx");
    reveal_strlit("eps_yy");
    reveal_strlit("eps_xy");
    reveal_strlit("kappa_xx");
    reveal_strlit("kappa_yy");
    reveal_strlit("kappa_xy");
    reveal_strlit("drill");
    reveal_strlit("gamma_xz");
    reveal_strlit("gamma_yz");
    reveal_strlit("N_xx");
    reveal_strlit("N_yy");
    reveal_strlit("N_xy");
    reveal_strlit("M_xx");
    reveal_strlit("M_yy");
    reveal_strlit("M_xy");
    reveal_strlit("M_drill");
    reveal_strlit("Q_xz");
    reveal_strlit("Q_yz");
    reveal_strlit("eps_");
    reveal_strlit("kappa_");
    reveal_strlit("gamma_");
    reveal_strlit("N_");
    reveal_strlit("M_");
    reveal_strlit("Q_");
    let st = spec_all_strains();
    let fo = spec_all_forces();
    assert(st[0].take(4) =~= "eps_"@);
    assert(spec_conjugate(st[0]) =~= fo[0]);
    assert(st[1].take(4) =~= "eps_"@);
    assert(spec_conjugate(st[1]) =~= fo[1]);
    assert(st[2].take(4) =~= "eps_"@);
    assert(spec_conjugate(st[2]) =~= fo[2]);
    assert(st[3].take(4)[0] != "eps_"@[0]);
    assert(st[3].take(6) =~= "kappa_"@);
    assert(spec_conjugate(st[3]) =~= fo[3]);
    assert(st[4].take(4)[0] != "eps_"@[0]);
    assert(st[4].take(6) =~= "kappa_"@);
    assert(spec_conjugate(st[4]) =~= fo[4]);
    assert(st[5].take(4)[0] != "eps_"@[0]);
    assert(st[5].take(6) =~= "kappa_"@);
    assert(spec_conjugate(st[5]) =~= fo[5]);
    assert(st[6].take(4)[0] != "eps_"@[0]);
    assert(st[6].take(6)[0] != "kappa_"@[0] || st[6].len() < 6);
    assert(spec_conjugate(st[6]) =~= fo[6]);
    assert(st[7].take(4)[0] != "eps_"@[0]);
    assert(st[7].take(6)[0] != "kappa_"@[0]);
    assert(st[7].take(6) =~= "gamma_"@);
    assert(spec_conjugate(st[7]) =~= fo[7]);
    assert(st[8].take(4)[0] != "eps_"@[0]);
    assert(st[8].take(6)[0] != "kappa_"@[0]);
    assert(st[8].take(6) =~= "gamma_"@);
    assert(spec_conjugate(st[8]) =~= fo[8]);
    assert forall|i: int| 0 <= i < s.spec_behavior_output().len() implies
        #[trigger] s.spec_behavior_output()[i] == spec_conjugate(s.spec_model().spec_strains()[i]) by {
        assert(s.spec_behavior_output()[i] == fo[i]);
        assert(s.spec_model().spec_strains()[i] == st[i]);
    }
    if !s.spec_model().spec_has_transverse_shear() {
        assert forall|i: int| 0 <= i < s.spec_behavior_output().len() implies
            (#[trigger] s.spec_behavior_output()[i]).len() > 0 && s.spec_behavior_output()[i][0] != 'Q' by {
            assert(s.spec_behavior_output()[i] == fo[i]);
            assert(fo[i][0] != 'Q');
        }
    }
}

} // verus!
