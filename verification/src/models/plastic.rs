//! The law attribute of rate-independent and viscous plasticity, spelled by
//! tag: the tags users write, the material each law requires, and the
//! internal variables it carries.

use vstd::prelude::*;
use crate::models::{views, str_views};
use crate::models::plasticity::law::{spec_back_stress_names, back_stress_names};
use crate::text::{spec_join, str_eq};

verus! {

broadcast use vstd::string::group_string_axioms;

/// A plasticity law, by tag.
#[derive(Clone, Copy, Debug, PartialEq, Eq, Structural)]
pub enum PlasticLaw {
    /// von Mises, no hardening.
    Perfect,
    /// von Mises, linear isotropic hardening.
    Isotropic,
    /// Drucker-Prager.
    DruckerPrager,
    /// Ottosen's four-parameter surface.
    Ottosen,
    /// Norton creep.
    CreepNorton,
    /// Blackburn creep.
    CreepBlackburn,
    /// Lemaitre creep.
    CreepLemaitre,
    /// Chaboche viscoplasticity.
    ViscoplasticChaboche,
    /// Chaboche viscoplasticity with Lemaitre damage.
    ViscoplasticLemaitreChaboche,
}

/// Every law, in declaration order.
pub open spec fn spec_all_laws() -> Seq<PlasticLaw> {
    seq![
        PlasticLaw::Perfect,
        PlasticLaw::Isotropic,
        PlasticLaw::DruckerPrager,
        PlasticLaw::Ottosen,
        PlasticLaw::CreepNorton,
        PlasticLaw::CreepBlackburn,
        PlasticLaw::CreepLemaitre,
        PlasticLaw::ViscoplasticChaboche,
        PlasticLaw::ViscoplasticLemaitreChaboche,
    ]
}

/// The law a tag names, if any.
pub open spec fn spec_from_tag(s: Seq<char>) -> Option<PlasticLaw> {
    if s == "perfect"@ {
        Some(PlasticLaw::Perfect)
    } else if s == "isotropic"@ {
        Some(PlasticLaw::Isotropic)
    } else if s == "drucker_prager"@ {
        Some(PlasticLaw::DruckerPrager)
    } else if s == "ottosen"@ {
        Some(PlasticLaw::Ottosen)
    } else if s == "creep_norton"@ {
        Some(PlasticLaw::CreepNorton)
    } else if s == "creep_blackburn"@ {
        Some(PlasticLaw::CreepBlackburn)
    } else if s == "creep_lemaitre"@ {
        Some(PlasticLaw::CreepLemaitre)
    } else if s == "viscoplastic_chaboche"@ {
        Some(PlasticLaw::ViscoplasticChaboche)
    } else if s == "viscoplastic_lemaitre_chaboche"@ {
        Some(PlasticLaw::ViscoplasticLemaitreChaboche)
    } else {
        None
    }
}

impl Default for PlasticLaw {
    /// Perfect plasticity, the law without hardening.
    fn default() -> (r: PlasticLaw)
        ensures
            r == PlasticLaw::Perfect,
    {
        PlasticLaw::Perfect
    }
}

impl PlasticLaw {
    /// The tag of the law.
    pub open spec fn spec_tag(self) -> Seq<char> {
        match self {
            PlasticLaw::Perfect => "perfect"@,
            PlasticLaw::Isotropic => "isotropic"@,
            PlasticLaw::DruckerPrager => "drucker_prager"@,
            PlasticLaw::Ottosen => "ottosen"@,
            PlasticLaw::CreepNorton => "creep_norton"@,
            PlasticLaw::CreepBlackburn => "creep_blackburn"@,
            PlasticLaw::CreepLemaitre => "creep_lemaitre"@,
            PlasticLaw::ViscoplasticChaboche => "viscoplastic_chaboche"@,
            PlasticLaw::ViscoplasticLemaitreChaboche => "viscoplastic_lemaitre_chaboche"@,
        }
    }

    /// The material components the law requires.
    pub open spec fn spec_material_components(self) -> Seq<Seq<char>> {
        match self {
            PlasticLaw::Perfect => seq!["E"@, "nu"@, "sigma_y"@],
            PlasticLaw::Isotropic => seq!["E"@, "nu"@, "sigma_y"@, "H"@],
            PlasticLaw::DruckerPrager => seq!["E"@, "nu"@, "alpha"@, "k"@, "psi"@],
            PlasticLaw::Ottosen => seq!["E"@, "nu"@, "a"@, "b"@, "k_1"@, "k_2"@, "sigma_c"@],
            PlasticLaw::CreepNorton => seq!["E"@, "nu"@, "K"@, "n"@],
            PlasticLaw::CreepBlackburn => seq!["E"@, "nu"@, "A_1"@, "alpha_1"@, "r_1"@, "B_s"@, "beta_s"@],
            PlasticLaw::CreepLemaitre => seq!["E"@, "nu"@, "K"@, "N"@, "M"@],
            PlasticLaw::ViscoplasticChaboche => seq![
                "E"@,
                "nu"@,
                "k"@,
                "K"@,
                "n"@,
                "C_1"@,
                "gamma_1"@,
                "b"@,
                "Q"@,
            ],
            PlasticLaw::ViscoplasticLemaitreChaboche => seq![
                "E"@,
                "nu"@,
                "k"@,
                "K"@,
                "n"@,
                "C_1"@,
                "gamma_1"@,
                "b"@,
                "Q"@,
                "S"@,
                "s"@,
                "D_c"@,
            ],
        }
    }

    /// The law's own internal variables.
    pub open spec fn spec_internal_names(self) -> Seq<Seq<char>> {
        match self {
            PlasticLaw::CreepBlackburn => seq!["p_prim"@],
            PlasticLaw::ViscoplasticChaboche => spec_back_stress_names(false),
            PlasticLaw::ViscoplasticLemaitreChaboche => spec_back_stress_names(true),
            _ => Seq::empty(),
        }
    }

    /// Whether the law is rate-dependent.
    pub open spec fn spec_is_viscous(self) -> bool {
        match self {
            PlasticLaw::CreepNorton
            | PlasticLaw::CreepBlackburn
            | PlasticLaw::CreepLemaitre
            | PlasticLaw::ViscoplasticChaboche
            | PlasticLaw::ViscoplasticLemaitreChaboche => true,
            _ => false,
        }
    }

    /// The law a tag names: `None` for an unknown tag.
    pub fn from_tag(tag: &str) -> (r: Option<PlasticLaw>)
        ensures
            r == spec_from_tag(tag@),
    {
        if str_eq(tag, "perfect") {
            Some(PlasticLaw::Perfect)
        } else if str_eq(tag, "isotropic") {
            Some(PlasticLaw::Isotropic)
        } else if str_eq(tag, "drucker_prager") {
            Some(PlasticLaw::DruckerPrager)
        } else if str_eq(tag, "ottosen") {
            Some(PlasticLaw::Ottosen)
        } else if str_eq(tag, "creep_norton") {
            Some(PlasticLaw::CreepNorton)
        } else if str_eq(tag, "creep_blackburn") {
            Some(PlasticLaw::CreepBlackburn)
        } else if str_eq(tag, "creep_lemaitre") {
            Some(PlasticLaw::CreepLemaitre)
        } else if str_eq(tag, "viscoplastic_chaboche") {
            Some(PlasticLaw::ViscoplasticChaboche)
        } else if str_eq(tag, "viscoplastic_lemaitre_chaboche") {
            Some(PlasticLaw::ViscoplasticLemaitreChaboche)
        } else {
            None
        }
    }

    /// The tag of the law.
    pub fn to_tag(self) -> (r: &'static str)
        ensures
            r@ == self.spec_tag(),
    {
        match self {
            PlasticLaw::Perfect => "perfect",
            PlasticLaw::Isotropic => "isotropic",
            PlasticLaw::DruckerPrager => "drucker_prager",
            PlasticLaw::Ottosen => "ottosen",
            PlasticLaw::CreepNorton => "creep_norton",
            PlasticLaw::CreepBlackburn => "creep_blackburn",
            PlasticLaw::CreepLemaitre => "creep_lemaitre",
            PlasticLaw::ViscoplasticChaboche => "viscoplastic_chaboche",
            PlasticLaw::ViscoplasticLemaitreChaboche => "viscoplastic_lemaitre_chaboche",
        }
    }

    /// The display form of the law: its tag.
    pub fn to_string(&self) -> (r: String)
        ensures
            r@ == self.spec_tag(),
    {
        self.to_tag().to_string()
    }

    /// Every law, in declaration order.
    pub fn all() -> (r: [PlasticLaw; 9])
        ensures
            r@ == spec_all_laws(),
    {
        let r = [
            PlasticLaw::Perfect,
            PlasticLaw::Isotropic,
            PlasticLaw::DruckerPrager,
            PlasticLaw::Ottosen,
            PlasticLaw::CreepNorton,
            PlasticLaw::CreepBlackburn,
            PlasticLaw::CreepLemaitre,
            PlasticLaw::ViscoplasticChaboche,
            PlasticLaw::ViscoplasticLemaitreChaboche,
        ];
        assert(r@ =~= spec_all_laws());
        r
    }

    /// Every tag, joined by `|` — the list quoted when a tag is refused.
    pub fn tag_list() -> (r: String)
        ensures
            r@ == spec_join(spec_all_laws().map_values(|l: PlasticLaw| l.spec_tag()), "|"@),
    {
        let laws = Self::all();
        let ghost tags = spec_all_laws().map_values(|l: PlasticLaw| l.spec_tag());
        let mut s = String::new();
        let mut i: usize = 0;
        while i < 9
            invariant
                i <= 9,
                laws@ == spec_all_laws(),
                tags == spec_all_laws().map_values(|l: PlasticLaw| l.spec_tag()),
                s@ == spec_join(tags.take(i as int), "|"@),
            decreases 9 - i,
        {
            let tag = laws[i].to_tag();
            assert(tags.take(i + 1).drop_last() =~= tags.take(i as int));
            assert(tags.take(i + 1).last() == tag@);
            if i == 0 {
                s.append(tag);
                assert(s@ =~= tag@);
                assert(tags.take(1) =~= seq![tag@]);
            } else {
                s.append("|");
                s.append(tag);
            }
            i += 1;
        }
        assert(tags.take(9) =~= tags);
        s
    }

    /// The material components the law requires.
    pub fn material_components(self) -> (r: &'static [&'static str])
        ensures
            str_views(r@) == self.spec_material_components(),
    {
        let r: &'static [&'static str] = match self {
            PlasticLaw::Perfect => &["E", "nu", "sigma_y"],
            PlasticLaw::Isotropic => &["E", "nu", "sigma_y", "H"],
            PlasticLaw::DruckerPrager => &["E", "nu", "alpha", "k", "psi"],
            PlasticLaw::Ottosen => &["E", "nu", "a", "b", "k_1", "k_2", "sigma_c"],
            PlasticLaw::CreepNorton => &["E", "nu", "K", "n"],
            PlasticLaw::CreepBlackburn => &["E", "nu", "A_1", "alpha_1", "r_1", "B_s", "beta_s"],
            PlasticLaw::CreepLemaitre => &["E", "nu", "K", "N", "M"],
            PlasticLaw::ViscoplasticChaboche => &["E", "nu", "k", "K", "n", "C_1", "gamma_1", "b", "Q"],
            PlasticLaw::ViscoplasticLemaitreChaboche => &[
                "E",
                "nu",
                "k",
                "K",
                "n",
                "C_1",
                "gamma_1",
                "b",
                "Q",
                "S",
                "s",
                "D_c",
            ],
        };
        assert(str_views(r@) =~= self.spec_material_components());
        r
    }

    /// Whether the law's consistent tangent has a closed form (von Mises).
    pub fn has_analytic_tangent(self) -> (r: bool)
        ensures
            r == (self == PlasticLaw::Perfect || self == PlasticLaw::Isotropic),
    {
        matches!(self, PlasticLaw::Perfect | PlasticLaw::Isotropic)
    }

    /// The law's own internal variables: the primary creep strain for
    /// Blackburn, the back stress and drag for Chaboche (plus the damage when
    /// coupled with Lemaitre), none otherwise.
    pub fn internal_names(self) -> (r: Vec<String>)
        ensures
            views(r@) == self.spec_internal_names(),
    {
        match self {
            PlasticLaw::CreepBlackburn => crate::models::owned_components(&["p_prim"]),
            PlasticLaw::ViscoplasticChaboche => back_stress_names(false),
            PlasticLaw::ViscoplasticLemaitreChaboche => back_stress_names(true),
            _ => Vec::new(),
        }
    }

    /// Whether the law is rate-dependent and so needs a time increment.
    pub fn is_viscous(self) -> (r: bool)
        ensures
            r == self.spec_is_viscous(),
    {
        matches!(
            self,
            PlasticLaw::CreepNorton | PlasticLaw::CreepBlackburn | PlasticLaw::CreepLemaitre
                | PlasticLaw::ViscoplasticChaboche | PlasticLaw::ViscoplasticLemaitreChaboche
        )
    }
}

/// A tag reads back as the law it names, and a tag that reads as a law is
/// that law's tag: `from_tag` and `to_tag` are inverse.
pub proof fn lemma_tag_round_trip(l: PlasticLaw, s: Seq<char>)
    ensures
        spec_from_tag(l.spec_tag()) == Some(l),
        spec_from_tag(s) == Some(l) ==> s == l.spec_tag(),
{
    reveal_strlit("perfect");
    reveal_strlit("isotropic");
    reveal_strlit("drucker_prager");
    reveal_strlit("ottosen");
    reveal_strlit("creep_norton");
    reveal_strlit("creep_blackburn");
    reveal_strlit("creep_lemaitre");
    reveal_strlit("viscoplastic_chaboche");
    reveal_strlit("viscoplastic_lemaitre_chaboche");
    assert("perfect"@.len() == 7 && "isotropic"@.len() == 9 && "drucker_prager"@.len() == 14);
    assert("ottosen"@.len() == 7 && "creep_norton"@.len() == 12 && "creep_blackburn"@.len() == 15);
    assert("creep_lemaitre"@.len() == 14 && "viscoplastic_chaboche"@.len() == 21);
    assert("viscoplastic_lemaitre_chaboche"@.len() == 30);
    assert("perfect"@[0] != "ottosen"@[0]);
    assert("drucker_prager"@[0] != "creep_lemaitre"@[0]);
    assert("perfect"@ != "ottosen"@);
    assert("drucker_prager"@ != "creep_lemaitre"@);
}

/// Linear isotropic hardening, `σ_y(p) = σ_y + H·p`, is perfect plasticity
/// plus the hardening modulus: it requires exactly what the perfect law
/// requires, followed by `H`, which the perfect law does not read; and every
/// law opens with the elastic pair `E`, `nu`.
pub proof fn lemma_hardening_adds_modulus(l: PlasticLaw)
    ensures
        PlasticLaw::Isotropic.spec_material_components()
            == PlasticLaw::Perfect.spec_material_components().push("H"@),
        !PlasticLaw::Perfect.spec_material_components().contains("H"@),
        PlasticLaw::Perfect.spec_material_components().contains("sigma_y"@),
        l.spec_material_components().len() >= 2,
        l.spec_material_components()[0] == "E"@,
        l.spec_material_components()[1] == "nu"@,
{
    reveal_strlit("H");
    reveal_strlit("E");
    reveal_strlit("nu");
    reveal_strlit("sigma_y");
    assert(PlasticLaw::Isotropic.spec_material_components()
        =~= PlasticLaw::Perfect.spec_material_components().push("H"@));
    assert(PlasticLaw::Perfect.spec_material_components()[2] == "sigma_y"@);
    assert forall|i: int| 0 <= i < PlasticLaw::Perfect.spec_material_components().len()
        implies PlasticLaw::Perfect.spec_material_components()[i] != "H"@ by {
        assert(PlasticLaw::Perfect.spec_material_components()[i].len() != 1
            || PlasticLaw::Perfect.spec_material_components()[i][0] != 'H');
    }
}

} // verus!
