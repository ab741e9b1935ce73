//! The yield and flow laws of the plasticity physics, as an attribute: each
//! law declares the material it needs, the internal variables it carries,
//! whether it is rate-dependent and how its consistent tangent is obtained.

use vstd::prelude::*;
use crate::models::{TangentSource, views, str_views};
use crate::models::tensor::{spec_prefixed, prefixed_names};

verus! {

broadcast use vstd::string::group_string_axioms;

/// A plasticity law.
#[derive(Clone, Copy, Debug, PartialEq, Eq, Structural)]
pub enum PlasticLaw {
    /// von Mises, no hardening.
    Perfect,
    /// von Mises, linear isotropic hardening.
    Isotropic,
    /// Drucker-Prager, non-associated.
    DruckerPrager,
    /// Ottosen's four-parameter surface.
    Ottosen,
    /// Norton creep.
    CreepNorton,
    /// Blackburn creep (primary + secondary).
    CreepBlackburn,
    /// Lemaitre creep.
    CreepLemaitre,
    /// Chaboche viscoplasticity.
    ViscoplasticChaboche,
    /// Chaboche viscoplasticity coupled with Lemaitre damage.
    ViscoplasticLemaitreChaboche,
    /// Gurson-Tvergaard-Needleman porous plasticity.
    Gurson,
}

/// Every law, in declaration order.
pub open spec fn spec_all_laws() -> Seq<PlasticLaw> {
    seq![
        PlasticLaw::Perfect,
        PlasticLaw::Isotropic,
        PlasticLaw::DruckerPrager,
        PlasticLaw::Ottosen,
        PlasticLaw::CreepNorton,
        PlasticLaw::CreepBlackburn,
        PlasticLaw::CreepLemaitre,
        PlasticLaw::ViscoplasticChaboche,
        PlasticLaw::ViscoplasticLemaitreChaboche,
        PlasticLaw::Gurson,
    ]
}

/// The back stress `X_*` (six tensor components) and the drag `R`, then the
/// damage when `damage` is set.
pub open spec fn spec_back_stress_names(damage: bool) -> Seq<Seq<char>> {
    let base = spec_prefixed("X_"@, seq![0usize, 1, 2, 3, 4, 5]).push("R"@);
    if damage { base.push("damage"@) } else { base }
}

/// The back stress `X_*` and the drag `R`, then the damage when asked.
pub fn back_stress_names(damage: bool) -> (r: Vec<String>)
    ensures
        views(r@) == spec_back_stress_names(damage),
{
    let slots: [usize; 6] = [0, 1, 2, 3, 4, 5];
    assert(slots@ =~= seq![0usize, 1, 2, 3, 4, 5]);
    let mut names = prefixed_names("X_", slots.as_slice());
    let r = "R".to_string();
    proof {
        assert(views(names@.push(r)) =~= views(names@).push(r@));
    }
    names.push(r);
    if damage {
        let d = "damage".to_string();
        proof {
            assert(views(names@.push(d)) =~= views(names@).push(d@));
        }
        names.push(d);
    }
    names
}

impl Default for PlasticLaw {
    /// Perfect plasticity, the law without hardening.
    fn default() -> (r: PlasticLaw)
        ensures
            r == PlasticLaw::Perfect,
    {
        PlasticLaw::Perfect
    }
}

impl PlasticLaw {
    /// The name of the law.
    pub open spec fn spec_name(self) -> Seq<char> {
        match self {
            PlasticLaw::Perfect => "perfect"@,
            PlasticLaw::Isotropic => "isotropic"@,
            PlasticLaw::DruckerPrager => "drucker_prager"@,
            PlasticLaw::Ottosen => "ottosen"@,
            PlasticLaw::CreepNorton => "creep_norton"@,
            PlasticLaw::CreepBlackburn => "creep_blackburn"@,
            PlasticLaw::CreepLemaitre => "creep_lemaitre"@,
            PlasticLaw::ViscoplasticChaboche => "viscoplastic_chaboche"@,
            PlasticLaw::ViscoplasticLemaitreChaboche => "viscoplastic_lemaitre_chaboche"@,
            PlasticLaw::Gurson => "gurson"@,
        }
    }

    /// The material components the law requires.
    pub open spec fn spec_material_components(self) -> Seq<Seq<char>> {
        match self {
            PlasticLaw::Perfect => seq!["E"@, "nu"@, "sigma_y"@],
            PlasticLaw::Isotropic => seq!["E"@, "nu"@, "sigma_y"@, "H"@],
            PlasticLaw::DruckerPrager => seq!["E"@, "nu"@, "friction"@, "k"@, "psi"@],
            PlasticLaw::Ottosen => seq!["E"@, "nu"@, "a"@, "b"@, "k_1"@, "k_2"@, "sigma_c"@],
            PlasticLaw::CreepNorton => seq!["E"@, "nu"@, "K"@, "n"@],
            PlasticLaw::CreepBlackburn => seq!["E"@, "nu"@, "A_1"@, "alpha_1"@, "r_1"@, "B_s"@, "beta_s"@],
            PlasticLaw::CreepLemaitre => seq!["E"@, "nu"@, "K"@, "N"@, "M"@],
            PlasticLaw::ViscoplasticChaboche => seq![
                "E"@,
                "nu"@,
                "k"@,
                "K"@,
                "n"@,
                "C_1"@,
                "gamma_1"@,
                "b"@,
                "Q"@,
            ],
            PlasticLaw::ViscoplasticLemaitreChaboche => seq![
                "E"@,
                "nu"@,
                "k"@,
                "K"@,
                "n"@,
                "C_1"@,
                "gamma_1"@,
                "b"@,
                "Q"@,
                "S"@,
                "s"@,
                "D_c"@,
            ],
            PlasticLaw::Gurson => seq![
                "E"@,
                "nu"@,
                "sigma_y"@,
                "q_1"@,
                "q_2"@,
                "q_3"@,
                "f_0"@,
                "f_c"@,
                "f_f"@,
            ],
        }
    }

    /// The law's own internal variables, beyond the common plastic state.
    pub open spec fn spec_internal_names(self) -> Seq<Seq<char>> {
        match self {
            PlasticLaw::CreepBlackburn => seq!["p_prim"@],
            PlasticLaw::ViscoplasticChaboche => spec_back_stress_names(false),
            PlasticLaw::ViscoplasticLemaitreChaboche => spec_back_stress_names(true),
            PlasticLaw::Gurson => seq!["porosity"@],
            _ => Seq::empty(),
        }
    }

    /// Whether the law is rate-dependent (creep, viscoplasticity).
    pub open spec fn spec_is_viscous(self) -> bool {
        match self {
            PlasticLaw::CreepNorton
            | PlasticLaw::CreepBlackburn
            | PlasticLaw::CreepLemaitre
            | PlasticLaw::ViscoplasticChaboche
            | PlasticLaw::ViscoplasticLemaitreChaboche => true,
            _ => false,
        }
    }

    /// How the law's consistent tangent is obtained: a closed form for von
    /// Mises, finite differences otherwise.
    pub open spec fn spec_tangent_source(self) -> TangentSource {
        match self {
            PlasticLaw::Perfect | PlasticLaw::Isotropic => TangentSource::Analytic,
            _ => TangentSource::Numerical,
        }
    }

    /// The material components each internal variable starts from.
    pub open spec fn spec_initial_internal_sources(self) -> Seq<Seq<char>> {
        match self {
            PlasticLaw::Gurson => seq!["f_0"@],
            _ => Seq::empty(),
        }
    }

    /// The name of the law.
    pub fn name(self) -> (r: &'static str)
        ensures
            r@ == self.spec_name(),
    {
        match self {
            PlasticLaw::Perfect => "perfect",
            PlasticLaw::Isotropic => "isotropic",
            PlasticLaw::DruckerPrager => "drucker_prager",
            PlasticLaw::Ottosen => "ottosen",
            PlasticLaw::CreepNorton => "creep_norton",
            PlasticLaw::CreepBlackburn => "creep_blackburn",
            PlasticLaw::CreepLemaitre => "creep_lemaitre",
            PlasticLaw::ViscoplasticChaboche => "viscoplastic_chaboche",
            PlasticLaw::ViscoplasticLemaitreChaboche => "viscoplastic_lemaitre_chaboche",
            PlasticLaw::Gurson => "gurson",
        }
    }

    /// The display form of the law: its name.
    pub fn to_string(&self) -> (r: String)
        ensures
            r@ == self.spec_name(),
    {
        self.name().to_string()
    }

    /// Every law, in declaration order.
    pub fn all() -> (r: [PlasticLaw; 10])
        ensures
            r@ == spec_all_laws(),
    {
        let r = [
            PlasticLaw::Perfect,
            PlasticLaw::Isotropic,
            PlasticLaw::DruckerPrager,
            PlasticLaw::Ottosen,
            PlasticLaw::CreepNorton,
            PlasticLaw::CreepBlackburn,
            PlasticLaw::CreepLemaitre,
            PlasticLaw::ViscoplasticChaboche,
            PlasticLaw::ViscoplasticLemaitreChaboche,
            PlasticLaw::Gurson,
        ];
        assert(r@ =~= spec_all_laws());
        r
    }

    /// How the law's consistent tangent is obtained.
    pub fn tangent_source(self) -> (r: TangentSource)
        ensures
            r == self.spec_tangent_source(),
    {
        match self {
            PlasticLaw::Perfect | PlasticLaw::Isotropic => TangentSource::Analytic,
            _ => TangentSource::Numerical,
        }
    }

    /// The material components the law requires.
    pub fn material_components(self) -> (r: &'static [&'static str])
        ensures
            str_views(r@) == self.spec_material_components(),
    {
        let r: &'static [&'static str] = match self {
            PlasticLaw::Perfect => &["E", "nu", "sigma_y"],
            PlasticLaw::Isotropic => &["E", "nu", "sigma_y", "H"],
            PlasticLaw::DruckerPrager => &["E", "nu", "friction", "k", "psi"],
            PlasticLaw::Ottosen => &["E", "nu", "a", "b", "k_1", "k_2", "sigma_c"],
            PlasticLaw::CreepNorton => &["E", "nu", "K", "n"],
            PlasticLaw::CreepBlackburn => &["E", "nu", "A_1", "alpha_1", "r_1", "B_s", "beta_s"],
            PlasticLaw::CreepLemaitre => &["E", "nu", "K", "N", "M"],
            PlasticLaw::ViscoplasticChaboche => &["E", "nu", "k", "K", "n", "C_1", "gamma_1", "b", "Q"],
            PlasticLaw::ViscoplasticLemaitreChaboche => &[
                "E",
                "nu",
                "k",
                "K",
                "n",
                "C_1",
                "gamma_1",
                "b",
                "Q",
                "S",
                "s",
                "D_c",
            ],
            PlasticLaw::Gurson => &["E", "nu", "sigma_y", "q_1", "q_2", "q_3", "f_0", "f_c", "f_f"],
        };
        assert(str_views(r@) =~= self.spec_material_components());
        r
    }

    /// Optional material components every law passes through: the thermal
    /// expansion `alpha` and the density `rho`.
    pub fn optional_material_components(self) -> (r: &'static [&'static str])
        ensures
            str_views(r@) == seq!["alpha"@, "rho"@],
    {
        let r: &'static [&'static str] = &["alpha", "rho"];
        assert(str_views(r@) =~= seq!["alpha"@, "rho"@]);
        r
    }

    /// The material component each internal variable starts from, in
    /// [`internal_names`](Self::internal_names) order (empty when every
    /// internal variable starts at zero).
    pub fn initial_internal_sources(self) -> (r: &'static [&'static str])
        ensures
            str_views(r@) == self.spec_initial_internal_sources(),
    {
        let r: &'static [&'static str] = match self {
            PlasticLaw::Gurson => &["f_0"],
            _ => &[],
        };
        assert(str_views(r@) =~= self.spec_initial_internal_sources());
        r
    }

    /// The law's own internal variables.
    pub fn internal_names(self) -> (r: Vec<String>)
        ensures
            views(r@) == self.spec_internal_names(),
    {
        match self {
            PlasticLaw::CreepBlackburn => crate::models::owned_components(&["p_prim"]),
            PlasticLaw::ViscoplasticChaboche => back_stress_names(false),
            PlasticLaw::ViscoplasticLemaitreChaboche => back_stress_names(true),
            PlasticLaw::Gurson => crate::models::owned_components(&["porosity"]),
            _ => Vec::new(),
        }
    }

    /// Whether the law is rate-dependent and so needs a time increment.
    pub fn is_viscous(self) -> (r: bool)
        ensures
            r == self.spec_is_viscous(),
    {
        matches!(
            self,
            PlasticLaw::CreepNorton | PlasticLaw::CreepBlackburn | PlasticLaw::CreepLemaitre
                | PlasticLaw::ViscoplasticChaboche | PlasticLaw::ViscoplasticLemaitreChaboche
        )
    }
}

/// Two laws never share a name.
pub proof fn lemma_law_names_distinct(a: PlasticLaw, b: PlasticLaw)
    ensures
        a.spec_name() == b.spec_name() <==> a == b,
{
    reveal_strlit("perfect");
    reveal_strlit("isotropic");
    reveal_strlit("drucker_prager");
    reveal_strlit("ottosen");
    reveal_strlit("creep_norton");
    reveal_strlit("creep_blackburn");
    reveal_strlit("creep_lemaitre");
    reveal_strlit("viscoplastic_chaboche");
    reveal_strlit("viscoplastic_lemaitre_chaboche");
    reveal_strlit("gurson");
    if a != b {
        assert(a.spec_name().len() != b.spec_name().len() || a.spec_name()[0] != b.spec_name()[0]);
    }
}

/// Every internal variable that starts from a material constant starts from a
/// component the law requires.
pub proof fn lemma_initial_sources_are_required(l: PlasticLaw)
    ensures
        l.spec_initial_internal_sources().len() <= l.spec_internal_names().len(),
        forall|k: int|
            0 <= k < l.spec_initial_internal_sources().len() ==> l.spec_material_components().contains(
                #[trigger] l.spec_initial_internal_sources()[k],
            ),
{
    if l == PlasticLaw::Gurson {
        assert(l.spec_material_components()[6] == "f_0"@);
    }
}

/// Every law is elastic before it is plastic: its required components open
/// with Young's modulus `E` and Poisson's ratio `nu`.
pub proof fn lemma_laws_start_elastic(l: PlasticLaw)
    ensures
        l.spec_material_components().len() >= 2,
        l.spec_material_components()[0] == "E"@,
        l.spec_material_components()[1] == "nu"@,
{
}

/// Linear isotropic hardening, `σ_y(p) = σ_y + H·p`, is perfect plasticity
/// plus the hardening modulus: it requires exactly what the perfect law
/// requires, followed by `H`, which the perfect law does not read.
pub proof fn lemma_hardening_adds_modulus()
    ensures
        PlasticLaw::Isotropic.spec_material_components()
            == PlasticLaw::Perfect.spec_material_components().push("H"@),
        !PlasticLaw::Perfect.spec_material_components().contains("H"@),
        PlasticLaw::Perfect.spec_material_components().contains("sigma_y"@),
{
    reveal_strlit("H");
    reveal_strlit("E");
    reveal_strlit("nu");
    reveal_strlit("sigma_y");
    assert(PlasticLaw::Isotropic.spec_material_components()
        =~= PlasticLaw::Perfect.spec_material_components().push("H"@));
    assert(PlasticLaw::Perfect.spec_material_components()[2] == "sigma_y"@);
    assert forall|i: int| 0 <= i < PlasticLaw::Perfect.spec_material_components().len()
        implies PlasticLaw::Perfect.spec_material_components()[i] != "H"@ by {
        assert(PlasticLaw::Perfect.spec_material_components()[i].len() != 1
            || PlasticLaw::Perfect.spec_material_components()[i][0] != 'H');
    }
}

/// Each law whose return map reads a yield or flow parameter requires it:
/// the yield stress `sigma_y` (and, hardening, the modulus `H`) for von
/// Mises; the friction, cohesion `k` and dilatancy `psi` for Drucker-Prager;
/// the yield stress, the three Tvergaard coefficients and the coalescence and
/// failure porosities for Gurson.
pub proof fn lemma_components_cover_return_map(l: PlasticLaw)
    ensures
        (l == PlasticLaw::Perfect || l == PlasticLaw::Isotropic || l == PlasticLaw::Gurson)
            ==> l.spec_material_components().contains("sigma_y"@),
        l == PlasticLaw::Isotropic ==> l.spec_material_components().contains("H"@),
        l == PlasticLaw::DruckerPrager ==> {
            &&& l.spec_material_components().contains("friction"@)
            &&& l.spec_material_components().contains("k"@)
            &&& l.spec_material_components().contains("psi"@)
        },
        l == PlasticLaw::Gurson ==> {
            &&& l.spec_material_components().contains("q_1"@)
            &&& l.spec_material_components().contains("q_2"@)
            &&& l.spec_material_components().contains("q_3"@)
            &&& l.spec_material_components().contains("f_c"@)
            &&& l.spec_material_components().contains("f_f"@)
        },
{
    let c = l.spec_material_components();
    match l {
        PlasticLaw::Perfect => {
            assert(c[2] == "sigma_y"@);
        },
        PlasticLaw::Isotropic => {
            assert(c[2] == "sigma_y"@);
            assert(c[3] == "H"@);
        },
        PlasticLaw::DruckerPrager => {
            assert(c[2] == "friction"@);
            assert(c[3] == "k"@);
            assert(c[4] == "psi"@);
        },
        PlasticLaw::Gurson => {
            assert(c[2] == "sigma_y"@);
            assert(c[3] == "q_1"@);
            assert(c[4] == "q_2"@);
            assert(c[5] == "q_3"@);
            assert(c[7] == "f_c"@);
            assert(c[8] == "f_f"@);
        },
        _ => {},
    }
}

} // verus!
